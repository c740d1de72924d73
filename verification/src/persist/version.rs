//! The version of the snapshot format.

use vstd::prelude::*;

verus! {

/// The version of the snapshot format that is written.
pub fn snapshot_version() -> (v: semver::Version)
    ensures
        v == crate::outside::version_of(11, 0, 0),
        v.major == 11,
        v.minor == 0,
        v.patch == 0,
{
    semver::Version::new(11, 0, 0)
}

} // verus!
