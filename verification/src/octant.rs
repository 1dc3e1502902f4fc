//! Which of the eight octants around a centre a point lies in.

use glam::BVec3;
use glam::U64Vec3;
use vstd::prelude::*;

verus! {

/// A position or a size in the grid, by its three coordinates.
pub type Point = (u64, u64, u64);

/// For each coordinate, whether that of `at` is at least that of `center`.
pub open spec fn spec_at_least(at: Point, center: Point) -> (bool, bool, bool) {
    (at.0 >= center.0, at.1 >= center.1, at.2 >= center.2)
}

/// The three flags as a number: the first is worth one, the second two, the
/// third four.
pub open spec fn spec_bitmask(flags: (bool, bool, bool)) -> int {
    (if flags.0 {
        1int
    } else {
        0int
    }) + (if flags.1 {
        2int
    } else {
        0int
    }) + (if flags.2 {
        4int
    } else {
        0int
    })
}

/// Calls `U64Vec3::cmpge` of glam, which compares two vectors coordinate by
/// coordinate with `>=`. The contract states just that.
#[verifier::external_body]
pub(crate) fn at_least(at: Point, center: Point) -> (r: (bool, bool, bool))
    ensures
        r == spec_at_least(at, center),
{
    let mask = U64Vec3::new(at.0, at.1, at.2).cmpge(U64Vec3::new(center.0, center.1, center.2));
    (mask.x, mask.y, mask.z)
}

/// Calls `BVec3::bitmask` of glam, which packs the three flags into the
/// lowest three bits of a number, the first flag lowest. The contract
/// states just that.
#[verifier::external_body]
pub(crate) fn bitmask(flags: (bool, bool, bool)) -> (r: u32)
    ensures
        r == spec_bitmask(flags),
{
    BVec3::new(flags.0, flags.1, flags.2).bitmask()
}

} // verus!
