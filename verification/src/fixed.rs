//! Fixed-point scalars.
//!
//! World and screen coordinates are carried as 16.16 fixed point: an `i64`
//! holding the real value scaled by `FRAC_ONE`. All derived quantities the
//! map logic needs (rounding to whole units, truncating division for the
//! ray intersection) are defined here together with their specifications.

use vstd::prelude::*;

verus! {

use vstd::arithmetic::div_mod::lemma_fundamental_div_mod;
use vstd::arithmetic::div_mod::lemma_fundamental_div_mod_converse;

/// One whole unit in 16.16 fixed point.
pub const FRAC_ONE: i64 = 65536;

/// Half a unit; added before dividing so that division rounds to nearest.
pub const FRAC_HALF: i64 = 32768;

/// Largest magnitude a fixed-point coordinate handled by the map logic may
/// reach; keeps every intermediate product inside the machine integers.
pub const COORD_LIMIT: i64 = 0x100_0000_0000;

/// Magnitude of an integer.
pub open spec fn abs_of(v: int) -> int {
    if v < 0 {
        -v
    } else {
        v
    }
}

/// Truncating division (quotient rounded toward zero), the behaviour of
/// Rust's `/` on signed machine integers.
pub open spec fn tdiv(a: int, b: int) -> int {
    let q = abs_of(a) / abs_of(b);
    if (a < 0) != (b < 0) {
        -q
    } else {
        q
    }
}

/// Nearest whole unit to the fixed-point value `v`, halves rounding away
/// from zero.
pub open spec fn round_units(v: int) -> int {
    if v >= 0 {
        (v + FRAC_HALF) / (FRAC_ONE as int)
    } else {
        -((-v + FRAC_HALF) / (FRAC_ONE as int))
    }
}

/// Distance between `v` and its rounded value, in raw fixed-point ticks.
pub open spec fn round_err(v: int) -> int {
    abs_of(v - round_units(v) * FRAC_ONE)
}

/// A whole multiple of `FRAC_ONE` rounds to exactly itself.
pub proof fn lemma_round_units_exact(v: int)
    requires
        v % (FRAC_ONE as int) == 0,
    ensures
        round_units(v) * FRAC_ONE == v,
        round_units(v) == v / (FRAC_ONE as int),
        round_err(v) == 0,
{
    let one = FRAC_ONE as int;
    let q = v / one;
    lemma_fundamental_div_mod(v, one);
    assert(v == one * q);
    if v >= 0 {
        lemma_fundamental_div_mod_converse(v + FRAC_HALF, one, q, FRAC_HALF as int);
    } else {
        lemma_fundamental_div_mod_converse(-v + FRAC_HALF, one, -q, FRAC_HALF as int);
    }
}

/// Round a fixed-point value to the nearest whole number of units.
pub fn round_to_units(v: i64) -> (r: i64)
    requires
        -COORD_LIMIT <= v <= COORD_LIMIT,
    ensures
        r == round_units(v as int),
        -0x100_0000 <= r <= 0x100_0000,
{
    if v >= 0 {
        let u: u64 = (v as u64 + FRAC_HALF as u64) / FRAC_ONE as u64;
        proof {
            lemma_fundamental_div_mod(v + FRAC_HALF, FRAC_ONE as int);
        }
        u as i64
    } else {
        let u: u64 = ((-v) as u64 + FRAC_HALF as u64) / FRAC_ONE as u64;
        proof {
            lemma_fundamental_div_mod(-v + FRAC_HALF, FRAC_ONE as int);
        }
        -(u as i64)
    }
}

/// Truncating division on `i128`, used by the ray/plane intersection.
pub fn tdiv_i128(a: i128, b: i128) -> (q: i128)
    requires
        b != 0,
        a > i128::MIN,
        b > i128::MIN,
    ensures
        q == tdiv(a as int, b as int),
        abs_of(q as int) <= abs_of(a as int),
{
    let neg_a: bool = a < 0;
    let neg_b: bool = b < 0;
    let ua: u128 = if neg_a {
        (-a) as u128
    } else {
        a as u128
    };
    let ub: u128 = if neg_b {
        (-b) as u128
    } else {
        b as u128
    };
    let uq: u128 = ua / ub;
    proof {
        lemma_fundamental_div_mod(ua as int, ub as int);
        assert(uq <= ub * uq) by (nonlinear_arith)
            requires
                ub >= 1,
                uq >= 0,
        ;
    }
    let qi: i128 = uq as i128;
    if neg_a != neg_b {
        -qi
    } else {
        qi
    }
}

} // verus!
