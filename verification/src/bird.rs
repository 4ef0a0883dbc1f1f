//! The bird: it falls under gravity, a flap replaces its velocity with a fixed
//! upward one, and it tilts with its velocity.

use vstd::prelude::*;
use crate::tuning::{FLAP_FORCE, GRAVITY, MAX_TILT, VELOCITY_ROT_DEN, VELOCITY_ROT_NUM};

verus! {

/// A bird over the mathematical integers.
pub struct BirdModel {
    pub y: int,
    pub velocity: int,
}

/// `numerator / denominator` rounded towards zero.
pub open spec fn quotient_towards_zero(numerator: int, denominator: int) -> int
    recommends
        denominator > 0,
{
    if numerator >= 0 {
        numerator / denominator
    } else {
        -((-numerator) / denominator)
    }
}

/// `value` held to the range from `low` to `high`.
pub open spec fn clamped(value: int, low: int, high: int) -> int
    recommends
        low <= high,
{
    if value < low {
        low
    } else if value > high {
        high
    } else {
        value
    }
}

/// The tilt that goes with a velocity, in thousandths of a degree: the
/// velocity in units per second divided by 7.2, rounded towards zero and held
/// to a quarter turn either way.
pub open spec fn tilt_of(velocity: int) -> int {
    clamped(
        quotient_towards_zero(velocity * VELOCITY_ROT_DEN, VELOCITY_ROT_NUM as int),
        -MAX_TILT,
        MAX_TILT as int,
    )
}

impl BirdModel {
    /// The bird as it is spawned: at the origin and at rest.
    pub open spec fn fresh() -> BirdModel {
        BirdModel { y: 0, velocity: 0 }
    }

    /// The bird after a flap: its velocity is the impulse, whatever it was.
    pub open spec fn flapped(self) -> BirdModel {
        BirdModel { velocity: FLAP_FORCE as int, ..self }
    }

    /// The bird after `delta_ms` milliseconds of fall: gravity is taken off the
    /// velocity first, and the new velocity then moves the bird.
    pub open spec fn fallen(self, delta_ms: int) -> BirdModel {
        let velocity = self.velocity - GRAVITY * delta_ms;
        BirdModel { y: self.y + velocity * delta_ms, velocity }
    }

    /// One frame of the bird's motion: the flap, if there is one, then the fall.
    pub open spec fn integrated(self, delta_ms: int, flap: bool) -> BirdModel {
        if flap {
            self.flapped().fallen(delta_ms)
        } else {
            self.fallen(delta_ms)
        }
    }

    /// Whether the bird is at or below the lower bound of the world,
    /// `y <= -window_height / 2`, with both sides doubled so that nothing is
    /// rounded.
    pub open spec fn below_floor(self, window_height: int) -> bool {
        2 * self.y <= -window_height
    }

    /// The bird's tilt, in thousandths of a degree: see `tilt_of`.
    pub open spec fn tilt(self) -> int {
        tilt_of(self.velocity)
    }

    /// Whether a frame of `delta_ms` milliseconds leaves the bird's height and
    /// velocity within the numbers an `i64` holds.
    pub open spec fn fits_after(self, delta_ms: int, flap: bool) -> bool {
        let next = self.integrated(delta_ms, flap);
        &&& i64::MIN <= next.velocity <= i64::MAX
        &&& i64::MIN <= next.y <= i64::MAX
    }
}

/// The bird: its height and its vertical velocity.
#[derive(Clone, Copy, Debug, PartialEq, Eq, Structural)]
pub struct Bird {
    pub y: i64,
    pub velocity: i64,
}

impl View for Bird {
    type V = BirdModel;

    open spec fn view(&self) -> BirdModel {
        BirdModel { y: self.y as int, velocity: self.velocity as int }
    }
}

/// A new bird, at the origin and at rest.
pub fn spawn_bird() -> (bird: Bird)
    ensures
        bird@ == BirdModel::fresh(),
{
    Bird { y: 0, velocity: 0 }
}

impl Bird {
    /// Whether a frame of `delta_ms` milliseconds leaves the bird's height and
    /// velocity within the numbers an `i64` holds.
    pub fn can_integrate(&self, delta_ms: u32, flap: bool) -> (r: bool)
        ensures
            r == self@.fits_after(delta_ms as int, flap),
    {
        let start: i128 = if flap { FLAP_FORCE as i128 } else { self.velocity as i128 };
        let loss: i64 = GRAVITY * (delta_ms as i64);
        let velocity: i128 = start - loss as i128;
        if velocity < i64::MIN as i128 {
            return false;
        }
        assert(-0x8000_0000_0000_0000_0000_0000 <= velocity * delta_ms
            <= 0x8000_0000_0000_0000_0000_0000) by (nonlinear_arith)
            requires
                -0x8000_0000_0000_0000 <= velocity <= 0x7fff_ffff_ffff_ffff,
                0 <= delta_ms <= 0xffff_ffff,
        ;
        let y: i128 = self.y as i128 + velocity * (delta_ms as i128);
        i64::MIN as i128 <= y && y <= i64::MAX as i128
    }

    /// A flap: the velocity becomes the impulse, whatever it was.
    pub fn flap(&mut self)
        ensures
            final(self)@ == old(self)@.flapped(),
            final(self).velocity == FLAP_FORCE,
    {
        self.velocity = FLAP_FORCE;
    }

    /// One frame of the bird's motion. On a flap the velocity is first set to
    /// the impulse; then gravity is taken off the velocity, and the new
    /// velocity moves the bird.
    pub fn integrate(&mut self, delta_ms: u32, flap: bool)
        requires
            old(self)@.fits_after(delta_ms as int, flap),
        ensures
            final(self)@ == old(self)@.integrated(delta_ms as int, flap),
    {
        if flap {
            self.flap();
        }
        let velocity: i64 = self.velocity - GRAVITY * (delta_ms as i64);
        assert(-0x8000_0000_0000_0000_0000_0000 <= velocity * delta_ms
            <= 0x8000_0000_0000_0000_0000_0000) by (nonlinear_arith)
            requires
                -0x8000_0000_0000_0000 <= velocity <= 0x7fff_ffff_ffff_ffff,
                0 <= delta_ms <= 0xffff_ffff,
        ;
        let y: i128 = self.y as i128 + (velocity as i128) * (delta_ms as i128);
        self.velocity = velocity;
        self.y = y as i64;
    }

    /// Whether the bird is at or below the lower bound of a world
    /// `window_height` high.
    pub fn is_below_floor(&self, window_height: i64) -> (r: bool)
        ensures
            r == self@.below_floor(window_height as int),
    {
        2 * (self.y as i128) <= -(window_height as i128)
    }

    /// The bird's tilt, in thousandths of a degree.
    pub fn tilt(&self) -> (r: i64)
        ensures
            r == self@.tilt(),
            -MAX_TILT <= r <= MAX_TILT,
    {
        let limit: i64 = MAX_TILT / VELOCITY_ROT_DEN * VELOCITY_ROT_NUM;
        if self.velocity >= limit {
            MAX_TILT
        } else if self.velocity <= -limit {
            -MAX_TILT
        } else if self.velocity >= 0 {
            self.velocity * VELOCITY_ROT_DEN / VELOCITY_ROT_NUM
        } else {
            -((-self.velocity) * VELOCITY_ROT_DEN / VELOCITY_ROT_NUM)
        }
    }
}

/// After a flap the bird's velocity is the impulse less the frame's gravity,
/// whatever the velocity was before: two birds at one height leave a frame
/// with a flap in the same state.
pub proof fn lemma_flap_overrides_velocity(a: BirdModel, b: BirdModel, delta_ms: int)
    requires
        a.y == b.y,
    ensures
        a.flapped().velocity == FLAP_FORCE,
        a.integrated(delta_ms, true).velocity == FLAP_FORCE - GRAVITY * delta_ms,
        a.integrated(delta_ms, true) == b.integrated(delta_ms, true),
{
}

/// Without a flap the frame only takes gravity off the velocity: nothing but
/// a flap makes the bird faster upward.
pub proof fn lemma_only_a_flap_raises_velocity(a: BirdModel, delta_ms: int)
    requires
        0 <= delta_ms,
    ensures
        a.integrated(delta_ms, false).velocity == a.velocity - GRAVITY * delta_ms,
        a.integrated(delta_ms, false).velocity <= a.velocity,
{
}

} // verus!
