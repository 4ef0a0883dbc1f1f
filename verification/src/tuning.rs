//! The constants of the game, in fixed-point units.
//!
//! Lengths are in position sub-units, a million to the world unit; velocities
//! are in thousandths of a world unit per second; times are in milliseconds.
//! The sprites are drawn at four and a half world units to the pixel, and the
//! lengths below are pixel sizes at that ratio.

use vstd::prelude::*;

verus! {

/// Position sub-units in one world unit.
pub const UNIT: i64 = 1_000_000;

/// World units to the pixel, as the fraction
/// `PIXEL_RATIO_NUM / PIXEL_RATIO_DEN`.
pub const PIXEL_RATIO_NUM: i64 = 9;

pub const PIXEL_RATIO_DEN: i64 = 2;

/// Upward velocity given by a flap: 400 units per second.
pub const FLAP_FORCE: i64 = 400_000;

/// Velocity lost per millisecond of fall: 1600 units per second in a second.
pub const GRAVITY: i64 = 1_600;

/// The tilt in degrees is the velocity in units per second divided by
/// `VELOCITY_ROT_NUM / VELOCITY_ROT_DEN`, that is by 7.2.
pub const VELOCITY_ROT_NUM: i64 = 36;

pub const VELOCITY_ROT_DEN: i64 = 5;

/// Largest tilt either way, in thousandths of a degree: a quarter turn.
pub const MAX_TILT: i64 = 90_000;

/// Where the bird is from left to right: it never moves sideways.
pub const BIRD_X: i64 = 0;

/// What the hitbox of an obstacle is narrower and lower than its sprite:
/// 5 pixels.
pub const MERCY_ZONE: i64 = 22_500_000;

/// Number of obstacle pairs.
pub const OBSTACLE_AMOUNT: usize = 8;

/// Width of an obstacle's sprite: 32 pixels.
pub const OBSTACLE_WIDTH: i64 = 144_000_000;

/// Height of an obstacle's sprite: 144 pixels.
pub const OBSTACLE_HEIGHT: i64 = 648_000_000;

/// A pair's vertical offset lies in
/// `-OBSTACLE_VERTICAL_OFFSET .. OBSTACLE_VERTICAL_OFFSET`: 30 pixels either
/// way.
pub const OBSTACLE_VERTICAL_OFFSET: i64 = 135_000_000;

/// Distance from the middle of a pair's opening to the near end of either
/// member: 16 pixels.
pub const OBSTACLE_GAP: i64 = 72_000_000;

/// Horizontal distance between neighbouring pairs: 64 pixels.
pub const OBSTACLE_SPACING: i64 = 288_000_000;

/// Scroll speed of the field: 120 units per second.
pub const OBSTACLE_SCROLL_SPEED: i64 = 120_000;

/// Distance from the middle of a pair's opening to the middle of either
/// member: half the height and the gap.
pub const OBSTACLE_CENTER: i64 = 396_000_000;

/// Length of the lattice the pairs stand on, the spacing times the number of
/// pairs: a recycled obstacle jumps this far.
pub const LATTICE_PERIOD: i64 = 2_304_000_000;

/// Distance from the middle of a pair's opening to the middle of either of its
/// members.
pub fn get_centered_pos() -> (r: i64)
    ensures
        r == OBSTACLE_HEIGHT / 2 + OBSTACLE_GAP,
        r == OBSTACLE_CENTER,
{
    OBSTACLE_HEIGHT / 2 + OBSTACLE_GAP
}

/// The lengths are the pixel sizes at the pixel ratio, and the derived
/// constants agree with the ones they are derived from.
pub proof fn lemma_derived_constants()
    ensures
        OBSTACLE_WIDTH * PIXEL_RATIO_DEN == 32 * PIXEL_RATIO_NUM * UNIT,
        OBSTACLE_HEIGHT * PIXEL_RATIO_DEN == 144 * PIXEL_RATIO_NUM * UNIT,
        OBSTACLE_GAP * PIXEL_RATIO_DEN == 16 * PIXEL_RATIO_NUM * UNIT,
        OBSTACLE_SPACING * PIXEL_RATIO_DEN == 64 * PIXEL_RATIO_NUM * UNIT,
        OBSTACLE_VERTICAL_OFFSET * PIXEL_RATIO_DEN == 30 * PIXEL_RATIO_NUM * UNIT,
        MERCY_ZONE * PIXEL_RATIO_DEN == 5 * PIXEL_RATIO_NUM * UNIT,
        LATTICE_PERIOD == OBSTACLE_AMOUNT * OBSTACLE_SPACING,
        OBSTACLE_CENTER == OBSTACLE_HEIGHT / 2 + OBSTACLE_GAP,
        MAX_TILT * VELOCITY_ROT_NUM == 648_000 * VELOCITY_ROT_DEN,
{
}

} // verus!
