//! Diagnostics shown to the user, each with a code.

use vstd::prelude::*;

verus! {

pub const ERROR_PREFIX: char = 'E';

pub const WARNING_PREFIX: char = 'W';

#[derive(Clone, Copy, Debug, PartialEq, Eq, Structural)]
pub enum Kind {
    Error,
    Warning,
}

#[derive(Clone, Copy, Debug, PartialEq, Eq, Structural)]
pub enum Notification {
    RedundantManifest,
    RedundantPackIcon,
    EmptyAddOn,
    ComMojangNotFoundAndroid,
    ComMojangWindows,
}

pub open spec fn code_of(n: Notification) -> u8 {
    match n {
        Notification::RedundantManifest => 1,
        Notification::RedundantPackIcon => 2,
        Notification::EmptyAddOn => 3,
        Notification::ComMojangNotFoundAndroid => 4,
        Notification::ComMojangWindows => 5,
    }
}

pub open spec fn kind_of(n: Notification) -> Kind {
    match n {
        Notification::ComMojangNotFoundAndroid | Notification::ComMojangWindows => Kind::Error,
        _ => Kind::Warning,
    }
}

/// The ID of a notification: its kind's prefix, then its code in three digits.
pub open spec fn id_of(n: Notification) -> Seq<char> {
    seq![
        if kind_of(n) == Kind::Error {
            ERROR_PREFIX
        } else {
            WARNING_PREFIX
        },
        '0',
        '0',
        (('0' as u8) + code_of(n)) as char,
    ]
}

pub open spec fn brief_of(n: Notification) -> Seq<char> {
    match n {
        Notification::RedundantManifest =>
            "Found a manifest in the pack but ignoring it as `custom-manifest` is not set to `true`"@,
        Notification::RedundantPackIcon =>
            "Found `pack_icon.png` but ignoring it as `custom-pack-icon` is not set to `true`"@,
        Notification::EmptyAddOn => "Add-On contains no packs"@,
        _ => "The `com.mojang` folder cannot be found"@,
    }
}

impl Notification {
    /// A short description of the notification.
    pub fn brief_description(&self) -> (r: &'static str)
        ensures
            r@ == brief_of(*self),
    {
        match self {
            Notification::RedundantManifest =>
                "Found a manifest in the pack but ignoring it as `custom-manifest` is not set to `true`",
            Notification::RedundantPackIcon =>
                "Found `pack_icon.png` but ignoring it as `custom-pack-icon` is not set to `true`",
            Notification::EmptyAddOn => "Add-On contains no packs",
            Notification::ComMojangNotFoundAndroid | Notification::ComMojangWindows =>
                "The `com.mojang` folder cannot be found",
        }
    }

    /// The text of the notification: its ID and description, and, when it has
    /// a longer explanation, how to read it.
    pub fn message(self) -> (r: String)
        ensures
            r@ == "["@ + id_of(self) + "] "@ + brief_of(self) + if self != Notification::EmptyAddOn && self
                != Notification::ComMojangWindows {
                ". Use `allay explain W"@ + id_of(self) + "` to gather further information"@
            } else {
                Seq::empty()
            },
    {
        let id = self.id();
        let mut r = String::from_str("[");
        r.append(id.as_str());
        r.append("] ");
        r.append(self.brief_description());
        if self.has_extensive_description() {
            r.append(". Use `allay explain W");
            r.append(id.as_str());
            r.append("` to gather further information");
        }
        proof {
            reveal_strlit("[");
        }
        assert(r@ =~= "["@ + id_of(self) + "] "@ + brief_of(self) + if self != Notification::EmptyAddOn && self
            != Notification::ComMojangWindows {
            ". Use `allay explain W"@ + id_of(self) + "` to gather further information"@
        } else {
            Seq::empty()
        });
        r
    }

    /// Whether the notification has a longer explanation.
    pub fn has_extensive_description(&self) -> (r: bool)
        ensures
            r == (*self != Notification::EmptyAddOn && *self != Notification::ComMojangWindows),
    {
        match self {
            Notification::EmptyAddOn | Notification::ComMojangWindows => false,
            _ => true,
        }
    }

    pub fn code(self) -> (r: u8)
        ensures
            r == code_of(self),
    {
        match self {
            Notification::RedundantManifest => 1,
            Notification::RedundantPackIcon => 2,
            Notification::EmptyAddOn => 3,
            Notification::ComMojangNotFoundAndroid => 4,
            Notification::ComMojangWindows => 5,
        }
    }

    /// The notification with the code `code`, if any.
    pub fn from_code(code: u8) -> (r: Option<Notification>)
        ensures
            r matches Some(n) ==> code_of(n) == code,
            r is None <==> !(1 <= code <= 5),
    {
        match code {
            1 => Some(Notification::RedundantManifest),
            2 => Some(Notification::RedundantPackIcon),
            3 => Some(Notification::EmptyAddOn),
            4 => Some(Notification::ComMojangNotFoundAndroid),
            5 => Some(Notification::ComMojangWindows),
            _ => None,
        }
    }

    pub fn kind(self) -> (r: Kind)
        ensures
            r == kind_of(self),
    {
        match self {
            Notification::ComMojangNotFoundAndroid | Notification::ComMojangWindows => Kind::Error,
            _ => Kind::Warning,
        }
    }

    /// The ID of the notification (e.g. `W001`).
    pub fn id(self) -> (r: String)
        ensures
            r@ == id_of(self),
    {
        let r = match self {
            Notification::RedundantManifest => String::from_str("W001"),
            Notification::RedundantPackIcon => String::from_str("W002"),
            Notification::EmptyAddOn => String::from_str("W003"),
            Notification::ComMojangNotFoundAndroid => String::from_str("E004"),
            Notification::ComMojangWindows => String::from_str("E005"),
        };
        proof {
            reveal_strlit("W001");
            reveal_strlit("W002");
            reveal_strlit("W003");
            reveal_strlit("E004");
            reveal_strlit("E005");
        }
        assert(r@ =~= id_of(self));
        r
    }
}

} // verus!
