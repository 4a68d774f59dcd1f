//! Gradient direction decoding: a hash byte selects one of a fixed, small
//! set of gradient directions, encoded by its low bits. The scalar a noise
//! generator adds for a corner is the dot product of that direction with
//! the offset vector, so each direction is given here by its integer
//! coefficients on the offset coordinates.

use vstd::prelude::*;

verus! {

/// The signed magnitude a hash byte selects for a one-dimensional
/// gradient: 1 to 8, negated for the high half of the nibble. The gradient
/// value at offset `x` is this factor times `x`.
pub open spec fn grad1_factor_spec(hash: u8) -> int {
    let h = hash % 16;
    if h >= 8 {
        -1 - (h % 8)
    } else {
        1 + (h % 8)
    }
}

/// The coefficients `(cx, cy)` a hash byte selects for a two-dimensional
/// gradient: one axis weighted 1, the other 2, each with its own sign.
/// The gradient value at offset `(x, y)` is `cx * x + cy * y`.
pub open spec fn grad2_coeffs_spec(hash: u8) -> (int, int) {
    let h = hash % 8;
    if h == 0 {
        (1, 2)
    } else if h == 1 {
        (-1, 2)
    } else if h == 2 {
        (1, -2)
    } else if h == 3 {
        (-1, -2)
    } else if h == 4 {
        (2, 1)
    } else if h == 5 {
        (2, -1)
    } else if h == 6 {
        (-2, 1)
    } else {
        (-2, -1)
    }
}

/// The coefficients `(cx, cy, cz)` a hash byte selects for a
/// three-dimensional gradient: twelve edge directions of the cube, the
/// four repeats at 12 to 15 folded back onto already-used edges. The gradient
/// value at offset `(x, y, z)` is `cx * x + cy * y + cz * z`.
pub open spec fn grad3_coeffs_spec(hash: u8) -> (int, int, int) {
    let h = hash % 16;
    if h == 0 {
        (1, 1, 0)
    } else if h == 1 {
        (-1, 1, 0)
    } else if h == 2 {
        (1, -1, 0)
    } else if h == 3 {
        (-1, -1, 0)
    } else if h == 4 {
        (1, 0, 1)
    } else if h == 5 {
        (-1, 0, 1)
    } else if h == 6 {
        (1, 0, -1)
    } else if h == 7 {
        (-1, 0, -1)
    } else if h == 8 {
        (0, 1, 1)
    } else if h == 9 {
        (0, -1, 1)
    } else if h == 10 {
        (0, 1, -1)
    } else if h == 11 {
        (0, -1, -1)
    } else if h == 12 {
        (1, 1, 0)
    } else if h == 13 {
        (0, -1, 1)
    } else if h == 14 {
        (-1, 1, 0)
    } else {
        (0, -1, -1)
    }
}

/// Decodes a hash byte into the one-dimensional gradient factor: magnitude
/// `1 + (h % 8)`, negated when the nibble's high bit is set.
pub fn grad1_factor(hash: u8) -> (g: i8)
    ensures
        g as int == grad1_factor_spec(hash),
        1 <= g <= 8 || -8 <= g <= -1,
{
    let h = hash % 16;
    let magnitude: u8 = 1 + (h % 8);
    if h >= 8 {
        -(magnitude as i8)
    } else {
        magnitude as i8
    }
}

/// Decodes a hash byte into the two-dimensional gradient coefficients: the
/// low three bits pick which axis carries weight 2 and the two signs.
pub fn grad2_coeffs(hash: u8) -> (c: (i8, i8))
    ensures
        (c.0 as int, c.1 as int) == grad2_coeffs_spec(hash),
{
    let h = hash % 8;
    let unit: i8 = if h % 2 == 1 {
        -1
    } else {
        1
    };
    let double: i8 = if h % 4 >= 2 {
        -2
    } else {
        2
    };
    if h < 4 {
        (unit, double)
    } else {
        (double, unit)
    }
}

/// Decodes a hash byte into the three-dimensional gradient coefficients:
/// the low four bits pick two distinct axes and a sign for each.
pub fn grad3_coeffs(hash: u8) -> (c: (i8, i8, i8))
    ensures
        (c.0 as int, c.1 as int, c.2 as int) == grad3_coeffs_spec(hash),
{
    let h = hash % 16;
    let su: i8 = if h % 2 == 1 {
        -1
    } else {
        1
    };
    let sv: i8 = if h % 4 >= 2 {
        -1
    } else {
        1
    };
    let mut cx: i8 = 0;
    let mut cy: i8 = 0;
    let mut cz: i8 = 0;
    if h < 8 {
        cx = su;
    } else {
        cy = su;
    }
    if h < 4 {
        cy = sv;
    } else if h == 12 || h == 14 {
        cx = sv;
    } else {
        cz = sv;
    }
    (cx, cy, cz)
}

/// Every three-dimensional gradient lies on a cube edge: two axes carry a
/// unit weight, the third none.
pub proof fn lemma_grad3_on_cube_edge(hash: u8)
    ensures
        ({
            let (cx, cy, cz) = grad3_coeffs_spec(hash);
            &&& -1 <= cx <= 1
            &&& -1 <= cy <= 1
            &&& -1 <= cz <= 1
            &&& (if cx == 0 { 1int } else { 0 }) + (if cy == 0 { 1int } else { 0 }) + (if cz
                == 0 {
                1int
            } else {
                0
            }) == 1
        }),
{
}

} // verus!

