//! Primitives for checking and comparing the version of the binding.

use vstd::prelude::*;

verus! {

/// Major package version.  The version numbers here are fixed stand-ins
/// for what a build script would read out of the package manifest.
pub const MAJOR: u32 = 0;

/// Minor package version.
pub const MINOR: u32 = 1;

/// Package patch number.
pub const PATCH: u32 = 2;

/// Whether this build is a release.
pub const RELEASE: bool = false;

/// A name together with a semantic version, an optional branch and an
/// optional commit, for displaying what is running.
#[derive(Debug)]
pub struct Version {
    pub name: &'static str,
    pub major: u32,
    pub minor: u32,
    pub patch: u32,
    pub release: bool,
    pub branch: Option<&'static str>,
    pub commit: Option<&'static str>,
}

/// The version of the binding itself.
pub fn get() -> (v: Version)
    ensures
        v.name@ == "julia-rs"@,
        v.major == MAJOR,
        v.minor == MINOR,
        v.patch == PATCH,
        v.release == RELEASE,
        v.branch is None,
        v.commit is None,
{
    Version {
        name: "julia-rs",
        major: MAJOR,
        minor: MINOR,
        patch: PATCH,
        release: RELEASE,
        branch: None,
        commit: None,
    }
}

impl Version {
    /// The same version, shortened: without the branch and the commit.
    pub fn shorten(self) -> (v: Version)
        ensures
            v.name@ == self.name@,
            v.major == self.major,
            v.minor == self.minor,
            v.patch == self.patch,
            v.release == self.release,
            v.branch is None,
            v.commit is None,
    {
        Version {
            name: self.name,
            major: self.major,
            minor: self.minor,
            patch: self.patch,
            release: self.release,
            branch: None,
            commit: None,
        }
    }
}

} // verus!
