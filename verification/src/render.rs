//! Screen-space helpers for the renderer.
//!
//! The drawing itself (lines, rectangles, text) belongs to the host; these
//! functions do the arithmetic the host needs: splitting a draw-color
//! register into its two solid shades, and placing a wall strip vertically
//! on the screen.

use vstd::prelude::*;

verus! {

use crate::fixed::FP_ONE;
use crate::fixed::floor_div;
use crate::ray::HEIGHT_CAP;
use crate::state::Z_LIMIT;

/// Splits a two-digit draw-color register into two one-color registers:
/// each hexadecimal digit `d` becomes the solid pair `0xdd` (that is,
/// `17 * d`). The first component doubles the high digit, the second the
/// low digit.
pub fn extract_colors(colors: u16) -> (c: (u16, u16))
    ensures
        c.0 == (((colors >> 4) & 0x0f) << 4) | ((colors >> 4) & 0x0f),
        c.1 == ((colors & 0x0f) << 4) | (colors & 0x0f),
        c.0 < 256,
        c.1 < 256,
{
    let primary_digit = (colors >> 4) & 0x0f;
    let primary = (primary_digit << 4) | primary_digit;
    let secondary_digit = colors & 0x0f;
    let secondary = (secondary_digit << 4) | secondary_digit;
    proof {
        assert((((colors >> 4) & 0x0f) << 4) | ((colors >> 4) & 0x0f) < 256) by (bit_vector);
        assert(((colors & 0x0f) << 4) | (colors & 0x0f) < 256) by (bit_vector);
    }
    (primary, secondary)
}

/// The screen row where a wall strip of pixel height `height` starts: half
/// a screen up from the centre, lifted by the player's jump bob scaled to
/// the strip's height.
pub open spec fn spec_wall_top(height: int, z: int) -> int {
    (crate::SCREEN_SIZE as int) / 2 - height / 2 + (z * height) / (2 * (FP_ONE as int))
}

/// Computes the top screen row of a wall strip; `z` is the player's
/// fixed-point jump height.
pub fn wall_top(height: i64, z: i64) -> (top: i64)
    requires
        0 <= height <= HEIGHT_CAP,
        0 <= z <= Z_LIMIT,
    ensures
        top == spec_wall_top(height as int, z as int),
{
    proof {
        assert(0 <= (z as int) * (height as int) <= 0x80_0000_0000_0000) by (nonlinear_arith)
            requires
                0 <= z as int <= 0x100_0000,
                0 <= height as int <= 0x7fff_ffff,
        ;
    }
    let lift = floor_div(z * height, 2 * FP_ONE);
    80 - floor_div(height, 2) + lift
}

} // verus!
