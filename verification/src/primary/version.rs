//! The version of the software that wrote a log.

use vstd::prelude::*;
use vstd::std_specs::cmp::PartialEqSpecImpl;

verus! {

/// Major version of this library.
pub const VERSION_MAJOR: u16 = 0;

/// Minor version of this library.
pub const VERSION_MINOR: u16 = 1;

/// Patch version of this library.
pub const VERSION_PATCH: u16 = 0;

/// A writer version as a log header stores it: a zero, then the major, minor
/// and patch numbers.
#[derive(Clone, Copy, Debug, Eq)]
pub struct Version(pub [u16; 4]);

impl PartialEq for Version {
    fn eq(&self, other: &Version) -> (same: bool) {
        self.0[0] == other.0[0] && self.0[1] == other.0[1] && self.0[2] == other.0[2] && self.0[3]
            == other.0[3]
    }
}

impl PartialEqSpecImpl for Version {
    open spec fn obeys_eq_spec() -> bool {
        true
    }

    open spec fn eq_spec(&self, other: &Version) -> bool {
        self.0[0] == other.0[0] && self.0[1] == other.0[1] && self.0[2] == other.0[2] && self.0[3]
            == other.0[3]
    }
}

impl Version {
    /// The version of this library.
    pub fn current() -> (v: Version)
        ensures
            v.0@ == seq![0u16, VERSION_MAJOR, VERSION_MINOR, VERSION_PATCH],
    {
        let v = Version([0, VERSION_MAJOR, VERSION_MINOR, VERSION_PATCH]);
        assert(v.0@ =~= seq![0u16, VERSION_MAJOR, VERSION_MINOR, VERSION_PATCH]);
        v
    }
}

/// Two versions are `==` exactly when their four numbers are the same.
pub proof fn lemma_version_eq(a: Version, b: Version)
    ensures
        vstd::std_specs::cmp::PartialEqSpec::eq_spec(&a, &b) <==> a == b,
{
    if vstd::std_specs::cmp::PartialEqSpec::eq_spec(&a, &b) {
        assert(a.0@ =~= b.0@);
        assert(a.0 == b.0);
    }
}

} // verus!
