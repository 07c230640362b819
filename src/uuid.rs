//! The identity store: the stable UUIDs of each pack.
//!
//! A UUID is held as its 128-bit value, most significant byte first, as
//! `uuid::Uuid::as_u128` gives it.

use crate::pack::{Pack, PackContents};
use vstd::prelude::*;

verus! {

/// Whether `u` has the version (4, random) and variant (RFC 4122) bits of a
/// randomly generated UUID.
pub open spec fn is_v4(u: u128) -> bool {
    (u >> 76u128) & 0xfu128 == 4u128 && (u >> 62u128) & 0x3u128 == 2u128
}

pub open spec fn hex_digit(n: u128) -> char {
    if n < 10 {
        (('0' as u8) + (n as u8)) as char
    } else {
        (('a' as u8) + ((n - 10) as u8)) as char
    }
}

/// The hyphenated lower-case text of a UUID (`xxxxxxxx-xxxx-xxxx-xxxx-xxxxxxxxxxxx`).
pub open spec fn uuid_text(u: u128) -> Seq<char> {
    Seq::new(
        36,
        |p: int|
            if p == 8 || p == 13 || p == 18 || p == 23 {
                '-'
            } else {
                let k = if p < 8 {
                    p
                } else if p < 13 {
                    p - 1
                } else if p < 18 {
                    p - 2
                } else if p < 23 {
                    p - 3
                } else {
                    p - 4
                };
                hex_digit((u >> ((124 - 4 * k) as u128)) & 0xfu128)
            },
    )
}

/// Relies on `uuid::Uuid::new_v4`: a random UUID whose version and variant
/// bits are those of version 4.
#[verifier::external_body]
fn new_v4() -> (r: u128)
    ensures
        is_v4(r),
{
    ::uuid::Uuid::new_v4().as_u128()
}

/// A fresh random ID for a new project.
pub(crate) fn new_project_id() -> (r: u128)
    ensures
        is_v4(r),
{
    new_v4()
}

/// Relies on `uuid::Uuid`'s `Display`: the hyphenated lower-case hex text.
#[verifier::external_body]
pub(crate) fn text_of(u: u128) -> (r: String)
    ensures
        r@ == uuid_text(u),
{
    ::uuid::Uuid::from_u128(u).to_string()
}

/// What `uuid::Uuid::parse_str` gives for a text.
pub uninterp spec fn parsed_uuid(s: Seq<char>) -> Option<u128>;

/// Relies on `uuid::Uuid::parse_str`: the UUID the text denotes, if any.
#[verifier::external_body]
fn parse_uuid(s: &str) -> (r: Option<u128>)
    ensures
        r == parsed_uuid(s@),
{
    match ::uuid::Uuid::parse_str(s) {
        Ok(u) => Some(u.as_u128()),
        Err(_) => None,
    }
}

/// Whether the text of a fingerprint file names the project with the ID `id`.
pub fn fingerprint_matches(text: &str, id: u128) -> (r: bool)
    ensures
        r == (parsed_uuid(text@) == Some(id)),
{
    match parse_uuid(text) {
        Some(u) => u == id,
        None => false,
    }
}

/// One of the two identifiers of a pack.
#[derive(Clone, Copy, Debug, PartialEq, Eq, Structural)]
pub enum Slot {
    Header,
    Module,
}

/// The UUIDs of one pack.
#[derive(Clone, Debug, Default)]
pub struct Data {
    pub header: Option<u128>,
    pub module: Option<u128>,
    pub deps: Vec<u128>,
}

pub open spec fn slot_of(d: Data, slot: Slot) -> Option<u128> {
    match slot {
        Slot::Header => d.header,
        Slot::Module => d.module,
    }
}

/// `d` with `slot` set to `u`.
pub open spec fn with_slot(d: Data, slot: Slot, u: u128) -> Data {
    match slot {
        Slot::Header => Data { header: Some(u), ..d },
        Slot::Module => Data { module: Some(u), ..d },
    }
}

impl Data {
    /// Generates new randomly generated UUIDs for the header and module section.
    pub fn generate() -> (r: Data)
        ensures
            r.header matches Some(h) && is_v4(h),
            r.module matches Some(m) && is_v4(m),
            r.deps@.len() == 0,
    {
        Data { header: Some(new_v4()), module: Some(new_v4()), deps: Vec::new() }
    }

    /// Sets the header UUID to `uuid`, or to a newly generated one if `uuid` is `None`.
    pub fn update_header(&mut self, uuid: Option<u128>)
        ensures
            final(self).module == old(self).module,
            final(self).deps == old(self).deps,
            match uuid {
                Some(u) => final(self).header == Some(u),
                None => final(self).header matches Some(h) && is_v4(h),
            },
    {
        self.header = Some(
            match uuid {
                Some(x) => x,
                None => new_v4(),
            },
        );
    }

    /// Sets the module UUID to `uuid`, or to a newly generated one if `uuid` is `None`.
    pub fn update_module(&mut self, uuid: Option<u128>)
        ensures
            final(self).header == old(self).header,
            final(self).deps == old(self).deps,
            match uuid {
                Some(u) => final(self).module == Some(u),
                None => final(self).module matches Some(m) && is_v4(m),
            },
    {
        self.module = Some(
            match uuid {
                Some(x) => x,
                None => new_v4(),
            },
        );
    }
}

/// The UUIDs of all packs of a project.
#[derive(Clone, Debug, Default)]
pub struct Uuids {
    pub bp: Data,
    pub rp: Data,
    pub sp: Data,
    pub wt: Data,
}

impl Uuids {
    pub open spec fn data(self, pack: Pack) -> Data {
        match pack {
            Pack::Behavior => self.bp,
            Pack::Resource => self.rp,
            Pack::Skin => self.sp,
            Pack::WorldTemplate => self.wt,
        }
    }

    pub open spec fn slot(self, pack: Pack, slot: Slot) -> Option<u128> {
        slot_of(self.data(pack), slot)
    }

    /// The store with the UUID in `slot` of `pack` set to `u`, the rest kept.
    pub open spec fn with(self, pack: Pack, slot: Slot, u: u128) -> Uuids {
        match pack {
            Pack::Behavior => Uuids { bp: with_slot(self.bp, slot, u), ..self },
            Pack::Resource => Uuids { rp: with_slot(self.rp, slot, u), ..self },
            Pack::Skin => Uuids { sp: with_slot(self.sp, slot, u), ..self },
            Pack::WorldTemplate => Uuids { wt: with_slot(self.wt, slot, u), ..self },
        }
    }

    /// What `ensure` on `(pack, slot)` does to `old` when it returns `r` and
    /// leaves `new`: an existing UUID is kept and returned; a missing one is
    /// filled with a fresh random UUID.
    pub open spec fn ensured(old: Uuids, pack: Pack, slot: Slot, r: u128, new: Uuids) -> bool {
        match old.slot(pack, slot) {
            Some(u) => r == u && new == old,
            None => is_v4(r) && new == old.with(pack, slot, r),
        }
    }

    /// Whether every pack with content has both of its UUIDs.
    pub open spec fn complete_for(self, contents: PackContents) -> bool {
        forall|p: Pack, s: Slot| #[trigger] contents.has(p) ==> (#[trigger] self.slot(p, s)).is_some()
    }

    /// Whether `new` keeps every UUID that `old` holds, and changes nothing
    /// but the missing UUIDs of packs with content.
    pub open spec fn filled_from(old: Uuids, new: Uuids, contents: PackContents) -> bool {
        &&& forall|p: Pack| (#[trigger] new.data(p)).deps == old.data(p).deps
        &&& forall|p: Pack, s: Slot|
            (#[trigger] old.slot(p, s)).is_some() || !contents.has(p) ==> new.slot(p, s) == old.slot(p, s)
        &&& forall|p: Pack, s: Slot|
            #[trigger] old.slot(p, s) == None::<u128> && contents.has(p) ==> (new.slot(p, s) matches Some(u) && is_v4(u))
    }

    /// Generates new UUIDs by using [`Data::generate`] for each pack.
    pub fn generate() -> (r: Uuids)
        ensures
            forall|p: Pack, s: Slot| #[trigger] r.slot(p, s) matches Some(u) && is_v4(u),
            forall|p: Pack| (#[trigger] r.data(p)).deps@.len() == 0,
    {
        Uuids {
            bp: Data::generate(),
            rp: Data::generate(),
            sp: Data::generate(),
            wt: Data::generate(),
        }
    }

    /// The UUIDs of `pack`.
    pub fn of(&self, pack: &Pack) -> (r: &Data)
        ensures
            *r == self.data(*pack),
    {
        match pack {
            Pack::Behavior => &self.bp,
            Pack::Resource => &self.rp,
            Pack::Skin => &self.sp,
            Pack::WorldTemplate => &self.wt,
        }
    }

    /// The UUID in `slot` of `pack`, if it is set.
    pub fn get(&self, pack: Pack, slot: Slot) -> (r: Option<u128>)
        ensures
            r == self.slot(pack, slot),
    {
        let d = self.of(&pack);
        match slot {
            Slot::Header => d.header,
            Slot::Module => d.module,
        }
    }

    fn data_mut(&mut self, pack: Pack) -> (r: &mut Data)
        ensures
            *r == old(self).data(pack),
            *final(self) == (match pack {
                Pack::Behavior => Uuids { bp: *final(r), ..*old(self) },
                Pack::Resource => Uuids { rp: *final(r), ..*old(self) },
                Pack::Skin => Uuids { sp: *final(r), ..*old(self) },
                Pack::WorldTemplate => Uuids { wt: *final(r), ..*old(self) },
            }),
    {
        match pack {
            Pack::Behavior => &mut self.bp,
            Pack::Resource => &mut self.rp,
            Pack::Skin => &mut self.sp,
            Pack::WorldTemplate => &mut self.wt,
        }
    }

    /// Sets `slot` of `pack` to `uuid`, or to a newly generated UUID if `uuid`
    /// is `None`, whatever it held before; returns the UUID now held.
    pub fn refresh(&mut self, pack: Pack, slot: Slot, uuid: Option<u128>) -> (r: u128)
        ensures
            *final(self) == old(self).with(pack, slot, r),
            match uuid {
                Some(u) => r == u,
                None => is_v4(r),
            },
    {
        let u = match uuid {
            Some(x) => x,
            None => new_v4(),
        };
        let d = self.data_mut(pack);
        match slot {
            Slot::Header => d.header = Some(u),
            Slot::Module => d.module = Some(u),
        }
        u
    }

    /// Returns the UUID in `slot` of `pack`, generating and storing one first
    /// if there is none.
    pub fn ensure(&mut self, pack: Pack, slot: Slot) -> (r: u128)
        ensures
            Uuids::ensured(*old(self), pack, slot, r, *final(self)),
    {
        match self.get(pack, slot) {
            Some(u) => u,
            None => self.refresh(pack, slot, None),
        }
    }

    /// Sets the UUIDs in `slots` of every pack in `packs` to `uuid`, or to
    /// newly generated ones if `uuid` is `None`, whatever they held before.
    pub fn refresh_selected(&mut self, packs: &Vec<Pack>, slots: &Vec<Slot>, uuid: Option<u128>)
        ensures
            forall|p: Pack| (#[trigger] final(self).data(p)).deps == old(self).data(p).deps,
            forall|p: Pack, s: Slot|
                !(packs@.contains(p) && slots@.contains(s)) ==> #[trigger] final(self).slot(p, s) == old(self).slot(p, s),
            forall|p: Pack, s: Slot|
                packs@.contains(p) && slots@.contains(s) ==> match uuid {
                    Some(u) => #[trigger] final(self).slot(p, s) == Some(u),
                    None => final(self).slot(p, s) matches Some(v) && is_v4(v),
                },
    {
        let ghost start = *self;
        let all = Pack::values();
        let header = contains_slot(slots, Slot::Header);
        let module = contains_slot(slots, Slot::Module);
        let mut i: usize = 0;
        while i < all.len()
            invariant
                all@ == crate::pack::pack_order(),
                i <= all@.len(),
                header == slots@.contains(Slot::Header),
                module == slots@.contains(Slot::Module),
                forall|p: Pack| (#[trigger] self.data(p)).deps == start.data(p).deps,
                forall|p: Pack, s: Slot|
                    !(packs@.contains(p) && slots@.contains(s) && order_of(p) < i) ==> #[trigger] self.slot(p, s)
                        == start.slot(p, s),
                forall|p: Pack, s: Slot|
                    packs@.contains(p) && slots@.contains(s) && order_of(p) < i ==> match uuid {
                        Some(u) => #[trigger] self.slot(p, s) == Some(u),
                        None => self.slot(p, s) matches Some(v) && is_v4(v),
                    },
            decreases all@.len() - i,
        {
            let p = all[i];
            assert(order_of(p) == i);
            if contains_pack(packs, p) {
                if header {
                    let ghost s0 = *self;
                    let u = self.refresh(p, Slot::Header, uuid);
                    proof {
                        lemma_with(s0, p, Slot::Header, u);
                    }
                }
                if module {
                    let ghost s0 = *self;
                    let u = self.refresh(p, Slot::Module, uuid);
                    proof {
                        lemma_with(s0, p, Slot::Module, u);
                    }
                }
            }
            proof {
                assert forall|q: Pack, s: Slot|
                    !(packs@.contains(q) && slots@.contains(s) && order_of(q) < i + 1) implies #[trigger] self.slot(q, s)
                        == start.slot(q, s) by {
                    match s {
                        Slot::Header => {},
                        Slot::Module => {},
                    }
                }
            }
            i = i + 1;
        }
        proof {
            assert forall|p: Pack, s: Slot|
                !(packs@.contains(p) && slots@.contains(s)) implies #[trigger] self.slot(p, s) == start.slot(p, s) by {
                assert(order_of(p) < 4);
            }
        }
    }

    /// Ensures both UUIDs of every pack with content, in build order.
    pub fn ensure_present(&mut self, contents: &PackContents)
        ensures
            final(self).complete_for(*contents),
            Uuids::filled_from(*old(self), *final(self), *contents),
    {
        let packs = Pack::values();
        let ghost start = *self;
        let mut i: usize = 0;
        while i < packs.len()
            invariant
                packs@ == crate::pack::pack_order(),
                0 <= i <= packs@.len(),
                forall|k: int| 0 <= k < i ==> #[trigger] contents.has(packs@[k]) ==> self.slot(packs@[k], Slot::Header).is_some()
                    && self.slot(packs@[k], Slot::Module).is_some(),
                forall|p: Pack| (#[trigger] self.data(p)).deps == start.data(p).deps,
                forall|p: Pack, s: Slot|
                    (#[trigger] start.slot(p, s)).is_some() || !contents.has(p) ==> self.slot(p, s)
                        == start.slot(p, s),
                forall|p: Pack, s: Slot|
                    start.slot(p, s) is None && (#[trigger] self.slot(p, s)).is_some() ==> is_v4(
                        self.slot(p, s).unwrap(),
                    ),
            decreases packs@.len() - i,
        {
            let p = packs[i];
            if p.present(contents) {
                let ghost s0 = *self;
                let h = self.ensure(p, Slot::Header);
                proof {
                    lemma_with(s0, p, Slot::Header, h);
                }
                let ghost s1 = *self;
                let m = self.ensure(p, Slot::Module);
                proof {
                    lemma_with(s1, p, Slot::Module, m);
                }
            }
            i = i + 1;
        }
        assert forall|p: Pack, s: Slot| #[trigger] contents.has(p) implies (#[trigger] self.slot(p, s)).is_some() by {
            let k: int = match p {
                Pack::Behavior => 0,
                Pack::Resource => 1,
                Pack::Skin => 2,
                Pack::WorldTemplate => 3,
            };
            assert(packs@[k] == p);
        }
    }
}

pub(crate) proof fn lemma_with(s: Uuids, pack: Pack, slot: Slot, u: u128)
    ensures
        forall|p: Pack| (#[trigger] s.with(pack, slot, u).data(p)).deps == s.data(p).deps,
        forall|p: Pack, sl: Slot|
            #[trigger] s.with(pack, slot, u).slot(p, sl) == if p == pack && sl == slot {
                Some(u)
            } else {
                s.slot(p, sl)
            },
{
}

/// The place of a pack in build order.
pub open spec fn order_of(p: Pack) -> int {
    match p {
        Pack::Behavior => 0,
        Pack::Resource => 1,
        Pack::Skin => 2,
        Pack::WorldTemplate => 3,
    }
}

fn contains_pack(v: &Vec<Pack>, p: Pack) -> (r: bool)
    ensures
        r == v@.contains(p),
{
    let mut i: usize = 0;
    while i < v.len()
        invariant
            i <= v@.len(),
            forall|k: int| 0 <= k < i ==> v@[k] != p,
        decreases v@.len() - i,
    {
        if v[i] == p {
            return true;
        }
        i = i + 1;
    }
    false
}

fn contains_slot(v: &Vec<Slot>, s: Slot) -> (r: bool)
    ensures
        r == v@.contains(s),
{
    let mut i: usize = 0;
    while i < v.len()
        invariant
            i <= v@.len(),
            forall|k: int| 0 <= k < i ==> v@[k] != s,
        decreases v@.len() - i,
    {
        if v[i] == s {
            return true;
        }
        i = i + 1;
    }
    false
}

/// Calling `ensure` twice on the same pack and slot, with nothing between,
/// returns the same UUID both times and leaves the store as the first call
/// left it.
pub proof fn lemma_ensure_stable(
    s0: Uuids,
    pack: Pack,
    slot: Slot,
    r1: u128,
    s1: Uuids,
    r2: u128,
    s2: Uuids,
)
    requires
        Uuids::ensured(s0, pack, slot, r1, s1),
        Uuids::ensured(s1, pack, slot, r2, s2),
    ensures
        r1 == r2,
        s2 == s1,
        s1.slot(pack, slot) == Some(r1),
{
}

} // verus!
