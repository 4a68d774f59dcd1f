//! A check pattern generator: the sign of a cell is decided by the parity
//! of its integer lattice coordinates alone, with no random state.

use vstd::arithmetic::div_mod::lemma_add_mod_noop;
use vstd::prelude::*;

verus! {

/// Whether a lattice coordinate is odd.
pub open spec fn coord_odd(n: int) -> bool {
    n % 2 == 1
}

/// The sign of a one-dimensional cell: -1 for odd cells, 1 for even ones.
pub open spec fn checker_sign1(ix: int) -> int {
    if coord_odd(ix) {
        -1
    } else {
        1
    }
}

/// The sign of a two-dimensional cell: -1 where exactly one coordinate is
/// odd, 1 where both share a parity.
pub open spec fn checker_sign2(ix: int, iy: int) -> int {
    if coord_odd(ix) != coord_odd(iy) {
        -1
    } else {
        1
    }
}

/// The sign of a three-dimensional cell: -1 where an odd number of
/// coordinates are odd.
pub open spec fn checker_sign3(ix: int, iy: int, iz: int) -> int {
    if (coord_odd(ix) != coord_odd(iy)) != coord_odd(iz) {
        -1
    } else {
        1
    }
}

/// Tests the parity of a lattice coordinate.
fn is_odd(n: i64) -> (r: bool)
    ensures
        r == coord_odd(n as int),
{
    match n.checked_rem_euclid(2) {
        Some(m) => m == 1,
        None => false,
    }
}

/// A check pattern generator.
#[derive(Copy, Clone)]
pub struct Checkerboard;

impl Checkerboard {
    /// Initializes a new check pattern instance.
    pub fn new() -> Checkerboard {
        Checkerboard
    }

    /// The sign of the one-dimensional cell holding lattice coordinate
    /// `ix`.
    pub fn sign1d(&self, ix: i64) -> (s: i8)
        ensures
            s as int == checker_sign1(ix as int),
    {
        if is_odd(ix) {
            -1
        } else {
            1
        }
    }

    /// The sign of the two-dimensional cell at `(ix, iy)`.
    pub fn sign2d(&self, ix: i64, iy: i64) -> (s: i8)
        ensures
            s as int == checker_sign2(ix as int, iy as int),
    {
        if is_odd(ix) != is_odd(iy) {
            -1
        } else {
            1
        }
    }

    /// The sign of the three-dimensional cell at `(ix, iy, iz)`.
    pub fn sign3d(&self, ix: i64, iy: i64, iz: i64) -> (s: i8)
        ensures
            s as int == checker_sign3(ix as int, iy as int, iz as int),
    {
        if (is_odd(ix) != is_odd(iy)) != is_odd(iz) {
            -1
        } else {
            1
        }
    }
}

/// The check pattern has period 2 along each axis: stepping a coordinate
/// by two lands in a cell of the same sign.
pub proof fn lemma_checker_periodic(ix: int)
    ensures
        checker_sign1(ix + 2) == checker_sign1(ix),
{
    lemma_add_mod_noop(ix, 2, 2);
}

/// Adjacent cells carry opposite signs: the pattern is antisymmetric
/// across every integer boundary.
pub proof fn lemma_checker_alternates(ix: int)
    ensures
        checker_sign1(ix + 1) == -checker_sign1(ix),
{
    lemma_add_mod_noop(ix, 1, 2);
}

/// The two-dimensional pattern is symmetric in its coordinates: parity
/// disagreement does not depend on the order of the two coordinates.
pub proof fn lemma_checker_symmetric(ix: int, iy: int)
    ensures
        checker_sign2(ix, iy) == checker_sign2(iy, ix),
{
}

} // verus!
