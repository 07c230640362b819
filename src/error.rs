//! Errors of the library.

use crate::pack::Pack;
use vstd::prelude::*;

verus! {

#[derive(Clone, Copy, Debug, PartialEq, Eq, Structural)]
pub enum Error {
    /// No project root could be found.
    NotInAProject,
    /// A pack needs a UUID that the identity store does not hold.
    MissingUuid(Pack),
    /// The project's internal files are missing or malformed.
    InvalidProjectSetup,
    /// A version component is not a number.
    VersionNotANumber,
    /// A version has fewer than three components.
    VersionMissingNumber,
    /// A base game version is neither `x.y.z` nor `*`.
    InvalidBaseGameVersion,
    /// A world template is configured without a base game version.
    MissingBaseGameVersion,
    /// A dependency is named by its module name, which manifests cannot hold.
    ModuleNameDependency,
    /// A project is to be initialized in a directory that is not empty.
    DirectoryNotEmpty,
}

impl Error {
    /// A one-line description of the error.
    pub fn message(&self) -> (r: &'static str)
        ensures
            r@ == match *self {
                Error::NotInAProject => "Cannot find project"@,
                Error::MissingUuid(_) => "Missing UUID"@,
                Error::InvalidProjectSetup => "Invalid project setup"@,
                Error::VersionNotANumber => "expected an integer"@,
                Error::VersionMissingNumber => "missing number"@,
                Error::InvalidBaseGameVersion => "expected `x.y.z` or `*`"@,
                Error::MissingBaseGameVersion => "missing base game version for world template"@,
                Error::ModuleNameDependency => "module_name key; use UUID instead"@,
                Error::DirectoryNotEmpty => "cannot initialize non-empty directory"@,
            },
    {
        match self {
            Error::NotInAProject => "Cannot find project",
            Error::MissingUuid(_) => "Missing UUID",
            Error::InvalidProjectSetup => "Invalid project setup",
            Error::VersionNotANumber => "expected an integer",
            Error::VersionMissingNumber => "missing number",
            Error::InvalidBaseGameVersion => "expected `x.y.z` or `*`",
            Error::MissingBaseGameVersion => "missing base game version for world template",
            Error::ModuleNameDependency => "module_name key; use UUID instead",
            Error::DirectoryNotEmpty => "cannot initialize non-empty directory",
        }
    }
}

} // verus!
