use vstd::prelude::*;

verus! {

/// Whether this library was compiled as its own unit-test build.
///
/// The library keeps all of its tests outside the crate, so it is never
/// compiled as a unit-test build of itself.
pub fn is_test_build() -> (r: bool)
    ensures
        r == false,
{
    false
}

} // verus!
