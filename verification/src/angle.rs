//! Binary angular measure.
//!
//! Angles are plain `i64` counts of a fine angular unit: [`FULL_TURN`] units
//! make one revolution, so a quarter turn, a half turn and the field of view
//! are all exact integers. Because a full turn is a single constant, adding
//! `FULL_TURN` to an angle provably changes nothing once the angle is
//! reduced, which is the backbone of the rotation-consistency law.

use vstd::prelude::*;

verus! {

use vstd::arithmetic::div_mod::lemma_fundamental_div_mod;
use vstd::arithmetic::div_mod::lemma_mod_bound;
use vstd::arithmetic::div_mod::lemma_mod_add_multiples_vanish;
use crate::fixed::floor_div;

/// One full revolution in angular units (2^20).
pub const FULL_TURN: i64 = 1048576;

/// Half a revolution.
pub const HALF_TURN: i64 = 524288;

/// A quarter revolution.
pub const QUARTER_TURN: i64 = 262144;

/// Angular distance between two neighbouring rays of the fan.
pub const ANGLE_STEP: i64 = 1213;

/// Half the field of view: 80 ray steps, about 33 degrees.
pub const HALF_FOV: i64 = 97040;

/// The canonical representative of an angle: its value reduced into
/// `[0, FULL_TURN)`.
pub open spec fn spec_wrap(a: int) -> int {
    a % (FULL_TURN as int)
}

/// Reduces an angle into `[0, FULL_TURN)`.
pub fn wrap_angle(a: i64) -> (r: i64)
    ensures
        r == spec_wrap(a as int),
        0 <= r < FULL_TURN,
{
    proof {
        lemma_fundamental_div_mod(a as int, FULL_TURN as int);
        lemma_mod_bound(a as int, FULL_TURN as int);
    }
    let q = floor_div(a, FULL_TURN);
    a - q * FULL_TURN
}

/// Reduction is periodic: a whole extra revolution never changes the
/// canonical angle.
pub proof fn lemma_wrap_periodic(a: int)
    ensures
        spec_wrap(a + FULL_TURN) == spec_wrap(a),
{
    lemma_mod_add_multiples_vanish(a, FULL_TURN as int);
}

} // verus!
