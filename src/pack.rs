//! The kinds of pack an add-on is made of.

use vstd::prelude::*;

verus! {

/// One distributable unit of an add-on.
#[derive(Clone, Copy, Debug, PartialEq, Eq, Structural)]
pub enum Pack {
    Behavior,
    Resource,
    Skin,
    WorldTemplate,
}

/// How many entries the source directory of each pack holds (0 when it is
/// missing or cannot be read).
#[derive(Clone, Copy, Debug, PartialEq, Eq, Structural)]
pub struct PackContents {
    pub behavior: usize,
    pub resource: usize,
    pub skin: usize,
    pub world_template: usize,
}

impl PackContents {
    pub open spec fn entries(self, pack: Pack) -> usize {
        match pack {
            Pack::Behavior => self.behavior,
            Pack::Resource => self.resource,
            Pack::Skin => self.skin,
            Pack::WorldTemplate => self.world_template,
        }
    }

    /// Whether the source directory of `pack` holds at least one entry.
    pub open spec fn has(self, pack: Pack) -> bool {
        self.entries(pack) > 0
    }
}

/// The packs in the order in which a build visits them.
pub open spec fn pack_order() -> Seq<Pack> {
    seq![Pack::Behavior, Pack::Resource, Pack::Skin, Pack::WorldTemplate]
}

pub open spec fn short_name_of(pack: Pack) -> Seq<char> {
    match pack {
        Pack::Behavior => "BP"@,
        Pack::Resource => "RP"@,
        Pack::Skin => "SP"@,
        Pack::WorldTemplate => "WT"@,
    }
}

pub open spec fn bundle_extension_of(pack: Pack) -> Seq<char> {
    match pack {
        Pack::WorldTemplate => "mctemplate"@,
        _ => "mcpack"@,
    }
}

impl Pack {
    /// All packs, in build order.
    pub fn values() -> (r: Vec<Pack>)
        ensures
            r@ == pack_order(),
    {
        let r = vec![Pack::Behavior, Pack::Resource, Pack::Skin, Pack::WorldTemplate];
        assert(r@ =~= pack_order());
        r
    }

    /// Returns the bundle file extension for a pack like `mcpack` for behavior packs.
    pub fn bundle_file_extension(&self) -> (r: &'static str)
        ensures
            r@ == bundle_extension_of(*self),
    {
        match self {
            Pack::Behavior | Pack::Resource | Pack::Skin => "mcpack",
            Pack::WorldTemplate => "mctemplate",
        }
    }

    /// The source directory of the pack, relative to the project root.
    pub fn path_src(&self) -> (r: String)
        ensures
            r@ == "src/"@ + short_name_of(*self),
    {
        proof {
            reveal_strlit("src/");
            reveal_strlit("BP");
            reveal_strlit("RP");
            reveal_strlit("SP");
            reveal_strlit("WT");
            reveal_strlit("src/BP");
            reveal_strlit("src/RP");
            reveal_strlit("src/SP");
            reveal_strlit("src/WT");
        }
        let r = match self {
            Pack::Behavior => crate::paths::src_bp(),
            Pack::Resource => crate::paths::src_rp(),
            Pack::Skin => crate::paths::src_sp(),
            Pack::WorldTemplate => crate::paths::src_wt(),
        };
        assert(r@ =~= "src/"@ + short_name_of(*self));
        r
    }

    /// Returns `true` when the source directory for the pack exists and has at least one entry.
    pub fn present(&self, contents: &PackContents) -> (r: bool)
        ensures
            r == contents.has(*self),
    {
        match self {
            Pack::Behavior => contents.behavior > 0,
            Pack::Resource => contents.resource > 0,
            Pack::Skin => contents.skin > 0,
            Pack::WorldTemplate => contents.world_template > 0,
        }
    }

    /// Returns the short name for the pack (e.g. "BP" for [`Pack::Behavior`]).
    pub fn short_name(&self) -> (r: &'static str)
        ensures
            r@ == short_name_of(*self),
    {
        match self {
            Pack::Behavior => "BP",
            Pack::Resource => "RP",
            Pack::Skin => "SP",
            Pack::WorldTemplate => "WT",
        }
    }

    /// The name of the pack as shown to people.
    pub fn long_name(&self) -> (r: &'static str)
        ensures
            r@ == match *self {
                Pack::Behavior => "Behavior Pack"@,
                Pack::Resource => "Resource Pack"@,
                Pack::Skin => "Skin Pack"@,
                Pack::WorldTemplate => "World Template"@,
            },
    {
        match self {
            Pack::Behavior => "Behavior Pack",
            Pack::Resource => "Resource Pack",
            Pack::Skin => "Skin Pack",
            Pack::WorldTemplate => "World Template",
        }
    }
}

} // verus!
