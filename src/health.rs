//! Checks of a project's structure, and the repair of missing identifiers.

use crate::pack::{Pack, PackContents};
use crate::uuid::{order_of, Slot, Uuids};
use vstd::prelude::*;

verus! {

/// Validates, and optionally fixes, the structure of a project.
#[derive(Clone, Debug)]
pub struct Health {
    /// The root directory of the project.
    pub root: String,
    /// Whether to fix missing or corrupted files.
    pub fix: bool,
}

/// What a check of one file or directory found.
#[derive(Clone, Copy, Debug, PartialEq, Eq, Structural)]
pub enum Check {
    /// It is there and well formed.
    Passed,
    /// It is missing or malformed and is to be created afresh.
    Repair,
    /// It is missing or malformed and may not be fixed.
    Failed,
}

impl Check {
    /// Whether the project may go on: the check passed, or its repair was made.
    pub open spec fn succeeds(self) -> bool {
        self != Check::Failed
    }
}

/// What the check of the identifiers found and did.
#[derive(Clone, Copy, Debug, PartialEq, Eq, Structural)]
pub struct PresenceReport {
    /// Whether every pack with content has both of its UUIDs now.
    pub ok: bool,
    /// Whether UUIDs were added, so that the store is to be written back.
    pub modified: bool,
}

/// Returns `true` when a directory with `entries` entries (none when it
/// cannot be read) contains files or directories.
pub fn has_content(entries: Option<usize>) -> (r: bool)
    ensures
        r == (entries matches Some(n) && n > 0),
{
    match entries {
        Some(n) => n > 0,
        None => false,
    }
}

impl Health {
    fn outcome(&self, valid: bool) -> (r: Check)
        ensures
            r == if valid {
                Check::Passed
            } else if self.fix {
                Check::Repair
            } else {
                Check::Failed
            },
    {
        if valid {
            Check::Passed
        } else if self.fix {
            Check::Repair
        } else {
            Check::Failed
        }
    }

    /// Checks the internal directory, given whether it exists.
    pub fn check_internal(&self, internal_exists: bool) -> (r: Check)
        ensures
            r == if internal_exists {
                Check::Passed
            } else if self.fix {
                Check::Repair
            } else {
                Check::Failed
            },
    {
        self.outcome(internal_exists)
    }

    /// Checks the identity store file, given whether it exists and whether
    /// it is well formed; a repair writes an empty store.
    pub fn check_uuids(&self, exists: bool, well_formed: bool) -> (r: Check)
        ensures
            r == if exists && well_formed {
                Check::Passed
            } else if self.fix {
                Check::Repair
            } else {
                Check::Failed
            },
    {
        self.outcome(exists && well_formed)
    }

    /// Checks that every pack with content has both of its UUIDs. With
    /// `fix`, the missing ones are generated; without, `data` is left alone.
    pub fn check_uuids_presence(&self, data: &mut Uuids, contents: &PackContents) -> (r: PresenceReport)
        ensures
            self.fix ==> {
                &&& final(data).complete_for(*contents)
                &&& Uuids::filled_from(*old(data), *final(data), *contents)
                &&& r.ok
                &&& r.modified == !old(data).complete_for(*contents)
            },
            !self.fix ==> {
                &&& *final(data) == *old(data)
                &&& r.ok == old(data).complete_for(*contents)
                &&& !r.modified
            },
    {
        if self.fix {
            let ghost before = *data;
            let mut modified = false;
            let packs = Pack::values();
            let mut i: usize = 0;
            while i < packs.len()
                invariant
                    packs@ == crate::pack::pack_order(),
                    i <= packs@.len(),
                    modified == exists|k: int, s: Slot|
                        0 <= k < i && contents.has(packs@[k]) && (#[trigger] before.slot(packs@[k], s)) is None,
                    forall|p: Pack, s: Slot|
                        (i <= order_of(p) || !contents.has(p)) ==> #[trigger] data.slot(p, s) == before.slot(p, s),
                    forall|p: Pack, s: Slot|
                        order_of(p) < i && contents.has(p) ==> (#[trigger] data.slot(p, s)) is Some,
                    forall|p: Pack| (#[trigger] data.data(p)).deps == before.data(p).deps,
                    forall|p: Pack, s: Slot|
                        (#[trigger] before.slot(p, s)).is_some() ==> data.slot(p, s) == before.slot(p, s),
                    forall|p: Pack, s: Slot|
                        before.slot(p, s) is None && (#[trigger] data.slot(p, s)).is_some() ==> crate::uuid::is_v4(
                            data.slot(p, s).unwrap(),
                        ),
                decreases packs@.len() - i,
            {
                let p = packs[i];
                assert(order_of(p) == i);
                if p.present(contents) {
                    if data.get(p, Slot::Header).is_none() {
                        let ghost s0 = *data;
                        let u = data.refresh(p, Slot::Header, None);
                        proof {
                            crate::uuid::lemma_with(s0, p, Slot::Header, u);
                        }
                        modified = true;
                    }
                    if data.get(p, Slot::Module).is_none() {
                        let ghost s0 = *data;
                        let u = data.refresh(p, Slot::Module, None);
                        proof {
                            crate::uuid::lemma_with(s0, p, Slot::Module, u);
                        }
                        modified = true;
                    }
                }
                proof {
                    if modified {
                        if !(exists|k: int, s: Slot|
                            0 <= k < i && contents.has(packs@[k]) && (#[trigger] before.slot(packs@[k], s)) is None) {
                            assert(contents.has(p));
                            if before.slot(p, Slot::Header) is None {
                                assert(contents.has(packs@[i as int]) && before.slot(packs@[i as int], Slot::Header) is None);
                            } else {
                                assert(contents.has(packs@[i as int]) && before.slot(packs@[i as int], Slot::Module) is None);
                            }
                        }
                    } else {
                        assert forall|k: int, s: Slot|
                            0 <= k < i + 1 && contents.has(packs@[k]) implies !(#[trigger] before.slot(packs@[k], s) is None) by {
                            if k == i {
                                assert(packs@[k] == p);
                                assert(order_of(p) == i);
                            }
                        }
                    }
                }
                i = i + 1;
            }
            proof {
                assert forall|p: Pack, s: Slot| #[trigger] contents.has(p) implies (#[trigger] data.slot(p, s)).is_some() by {
                    assert(order_of(p) < 4);
                }
                if modified {
                    let (k, s) = choose|k: int, s: Slot|
                        0 <= k < 4 && contents.has(packs@[k]) && (#[trigger] before.slot(packs@[k], s)) is None;
                    assert(!before.complete_for(*contents));
                } else {
                    assert forall|p: Pack, s: Slot| #[trigger] contents.has(p) implies (#[trigger] before.slot(p, s)).is_some() by {
                        let k = order_of(p);
                        assert(packs@[k] == p);
                    }
                }
            }
            PresenceReport { ok: true, modified }
        } else {
            let packs = Pack::values();
            let mut ok = true;
            let mut i: usize = 0;
            while i < packs.len()
                invariant
                    packs@ == crate::pack::pack_order(),
                    i <= packs@.len(),
                    ok == forall|k: int, s: Slot|
                        0 <= k < i && contents.has(packs@[k]) ==> (#[trigger] data.slot(packs@[k], s)) is Some,
                decreases packs@.len() - i,
            {
                let p = packs[i];
                if p.present(contents) && (data.get(p, Slot::Header).is_none() || data.get(p, Slot::Module).is_none()) {
                    ok = false;
                }
                proof {
                    if !ok {
                        if !(exists|k: int, s: Slot|
                            0 <= k < i && contents.has(packs@[k]) && !((#[trigger] data.slot(packs@[k], s)) is Some)) {
                            if data.slot(p, Slot::Header) is None {
                                assert(contents.has(packs@[i as int]) && !(data.slot(packs@[i as int], Slot::Header) is Some));
                            } else {
                                assert(contents.has(packs@[i as int]) && !(data.slot(packs@[i as int], Slot::Module) is Some));
                            }
                        }
                    } else {
                        assert forall|k: int, s: Slot|
                            0 <= k < i + 1 && contents.has(packs@[k]) implies (#[trigger] data.slot(packs@[k], s)) is Some by {
                            if k == i {
                                assert(packs@[k] == p);
                                match s {
                                    Slot::Header => {},
                                    Slot::Module => {},
                                }
                            }
                        }
                    }
                }
                i = i + 1;
            }
            proof {
                if ok {
                    assert forall|p: Pack, s: Slot| #[trigger] contents.has(p) implies (#[trigger] data.slot(p, s)).is_some() by {
                        let k = order_of(p);
                        assert(packs@[k] == p);
                    }
                } else {
                    let (k, s) = choose|k: int, s: Slot|
                        !(0 <= k < 4 && contents.has(packs@[k]) ==> (#[trigger] data.slot(packs@[k], s)) is Some);
                    assert(!data.complete_for(*contents));
                }
            }
            PresenceReport { ok, modified: false }
        }
    }

    /// Whether the project passes the three checks.
    pub fn check_all(&self, internal: Check, uuids: Check, presence: &PresenceReport) -> (r: bool)
        ensures
            r == (internal.succeeds() && uuids.succeeds() && presence.ok),
    {
        internal != Check::Failed && uuids != Check::Failed && presence.ok
    }

    /// Whether the project passes the checks of the internal directory and
    /// of the identity store file.
    pub fn check_all_except_uuids(&self, internal: Check, uuids: Check) -> (r: bool)
        ensures
            r == (internal.succeeds() && uuids.succeeds()),
    {
        internal != Check::Failed && uuids != Check::Failed
    }
}

} // verus!
