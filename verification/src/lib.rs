//! A tile-grid maze simulation with a ray-casting first-person projection.
//!
//! The world is a fixed rectangular grid of terrain cells. Each frame the
//! caller feeds button states into the gameplay state, which integrates the
//! player's pose, resolves collisions against the grid, and drives a small
//! view-mode state machine. A ray caster then produces one wall descriptor
//! per screen column for the renderer.
//!
//! All geometry is carried in signed 64-bit fixed-point numbers (16
//! fractional bits) and angles in binary angular units (a full turn is a
//! power of two), so every computation here is exact integer arithmetic.
//! Trigonometric ratios are not computed in this crate: callers pass them in
//! as fixed-point values, and every contract holds for any values passed.

pub mod angle;
pub mod fixed;
pub mod map;
pub mod ray;
pub mod render;
pub mod state;

use vstd::prelude::*;

verus! {

/// Width and height of the square screen, in pixels; also the number of
/// rays cast per frame, one per column.
pub const SCREEN_SIZE: u32 = 160;

} // verus!
