//! One obstacle: how it scrolls, when it is recycled, when the bird has passed
//! it and when the bird has hit it.

use vstd::prelude::*;
use crate::tuning::{
    LATTICE_PERIOD, MERCY_ZONE, OBSTACLE_CENTER, OBSTACLE_HEIGHT, OBSTACLE_SCROLL_SPEED,
    OBSTACLE_VERTICAL_OFFSET, OBSTACLE_WIDTH,
};

verus! {

/// Which member of a pair an obstacle is.
#[derive(Clone, Copy, Debug, PartialEq, Eq, Structural)]
pub enum Direction {
    /// The member above the opening; its direction flag is `+1`.
    Upper,
    /// The member below the opening; its direction flag is `-1`.
    Lower,
}

impl Direction {
    /// The direction flag as a number: `+1` for the upper member, `-1` for the
    /// lower.
    pub open spec fn flag(self) -> int {
        match self {
            Direction::Upper => 1,
            Direction::Lower => -1,
        }
    }

    pub fn sign(self) -> (r: i64)
        ensures
            r == self.flag(),
    {
        match self {
            Direction::Upper => 1,
            Direction::Lower => -1,
        }
    }
}

/// An obstacle over the mathematical integers.
pub struct ObstacleModel {
    pub x: int,
    pub y: int,
    pub pipe_direction: Direction,
}

/// Whether `offset` is a vertical offset that a draw can give.
pub open spec fn valid_offset(offset: int) -> bool {
    -OBSTACLE_VERTICAL_OFFSET <= offset < OBSTACLE_VERTICAL_OFFSET
}

/// The distance, as a non-negative number, between two coordinates.
pub open spec fn distance(a: int, b: int) -> int {
    if a >= b {
        a - b
    } else {
        b - a
    }
}

/// How far the field scrolls in `delta_ms` milliseconds.
pub open spec fn scroll_distance(delta_ms: int) -> int {
    OBSTACLE_SCROLL_SPEED * delta_ms
}

impl ObstacleModel {
    /// The height at which a member of a pair with vertical offset `offset`
    /// sits.
    pub open spec fn height_for(pipe_direction: Direction, offset: int) -> int {
        OBSTACLE_CENTER * pipe_direction.flag() + offset
    }

    /// The obstacle after the field has scrolled for `delta_ms` milliseconds.
    pub open spec fn scrolled(self, delta_ms: int) -> ObstacleModel {
        ObstacleModel { x: self.x - scroll_distance(delta_ms), ..self }
    }

    /// Whether the obstacle's right edge is left of the world's left boundary,
    /// `x + OBSTACLE_WIDTH / 2 < -window_width / 2`, with both sides doubled so
    /// that nothing is rounded.
    pub open spec fn past_left_edge(self, window_width: int) -> bool {
        2 * self.x + OBSTACLE_WIDTH < -window_width
    }

    /// The obstacle moved one lattice period ahead, at the height that the
    /// fresh `offset` gives it.
    pub open spec fn recycled(self, offset: int) -> ObstacleModel {
        ObstacleModel {
            x: self.x + LATTICE_PERIOD,
            y: Self::height_for(self.pipe_direction, offset),
            pipe_direction: self.pipe_direction,
        }
    }

    /// One frame of the obstacle: it scrolls, and is recycled if that took it
    /// past the left boundary.
    pub open spec fn advanced(self, delta_ms: int, window_width: int, offset: int) -> ObstacleModel {
        let moved = self.scrolled(delta_ms);
        if moved.past_left_edge(window_width) {
            moved.recycled(offset)
        } else {
            moved
        }
    }

    /// Whether the obstacle can scroll for `delta_ms` milliseconds and stay
    /// within the numbers an `i64` holds.
    pub open spec fn fits_after(self, delta_ms: int) -> bool {
        self.x - scroll_distance(delta_ms) >= i64::MIN
    }

    /// Whether the obstacle crossed the bird's vertical line in this frame and
    /// counts for the score: it is still ahead of the bird, by less than the
    /// frame's scroll distance, and it is the upper member of its pair.
    pub open spec fn passed_by(self, bird_x: int, delta_ms: int) -> bool {
        &&& 0 < self.x - bird_x
        &&& self.x - bird_x < scroll_distance(delta_ms)
        &&& self.pipe_direction == Direction::Upper
    }

    /// Whether a bird at `(bird_x, bird_y)` is inside the obstacle's hitbox,
    /// which is the sprite shrunk by the mercy zone.
    pub open spec fn collides_with(self, bird_x: int, bird_y: int) -> bool {
        &&& distance(self.y, bird_y) < (OBSTACLE_HEIGHT - MERCY_ZONE) / 2
        &&& distance(self.x, bird_x) < (OBSTACLE_WIDTH - MERCY_ZONE) / 2
    }
}

/// An obstacle: the middle of its sprite and which member of its pair it is.
#[derive(Clone, Copy, Debug, PartialEq, Eq, Structural)]
pub struct Obstacle {
    pub x: i64,
    pub y: i64,
    pub pipe_direction: Direction,
}

impl View for Obstacle {
    type V = ObstacleModel;

    open spec fn view(&self) -> ObstacleModel {
        ObstacleModel { x: self.x as int, y: self.y as int, pipe_direction: self.pipe_direction }
    }
}

/// A single pipe with its middle at `(x, y)`.
pub fn obstacle(x: i64, y: i64, pipe_direction: Direction) -> (o: Obstacle)
    ensures
        o == (Obstacle { x, y, pipe_direction }),
{
    Obstacle { x, y, pipe_direction }
}

impl Obstacle {
    /// Whether the obstacle counts for the score in a frame of `delta_ms`
    /// milliseconds, with the bird at `bird_x`.
    pub fn is_passed(&self, bird_x: i64, delta_ms: u32) -> (r: bool)
        ensures
            r == self@.passed_by(bird_x as int, delta_ms as int),
    {
        let ahead: i128 = self.x as i128 - bird_x as i128;
        let reach: i64 = OBSTACLE_SCROLL_SPEED * (delta_ms as i64);
        match self.pipe_direction {
            Direction::Upper => 0 < ahead && ahead < reach as i128,
            Direction::Lower => false,
        }
    }

    /// Whether a bird at `(bird_x, bird_y)` has hit the obstacle.
    pub fn collides(&self, bird_x: i64, bird_y: i64) -> (r: bool)
        ensures
            r == self@.collides_with(bird_x as int, bird_y as int),
    {
        let dy: i128 = self.y as i128 - bird_y as i128;
        let dx: i128 = self.x as i128 - bird_x as i128;
        let dy: i128 = if dy >= 0 { dy } else { -dy };
        let dx: i128 = if dx >= 0 { dx } else { -dx };
        let half_height: i128 = ((OBSTACLE_HEIGHT - MERCY_ZONE) / 2) as i128;
        let half_width: i128 = ((OBSTACLE_WIDTH - MERCY_ZONE) / 2) as i128;
        dy < half_height && dx < half_width
    }

    /// One frame of the obstacle: it scrolls left, and if its right edge is
    /// then left of the world's left boundary, it jumps one lattice period
    /// ahead and takes the height that `offset` gives it.
    pub fn advance(&mut self, delta_ms: u32, window_width: i64, offset: i64)
        requires
            old(self)@.fits_after(delta_ms as int),
            0 <= window_width,
            valid_offset(offset as int),
        ensures
            final(self)@ == old(self)@.advanced(delta_ms as int, window_width as int, offset as int),
    {
        let moved: i64 = self.x - OBSTACLE_SCROLL_SPEED * (delta_ms as i64);
        self.x = moved;
        if 2 * (moved as i128) + (OBSTACLE_WIDTH as i128) < -(window_width as i128) {
            self.x = moved + LATTICE_PERIOD;
            self.y = OBSTACLE_CENTER * self.pipe_direction.sign() + offset;
        }
    }
}

/// A recycle moves an obstacle by exactly one lattice period, so its place on
/// the lattice, the position modulo the period, is the same before and after.
pub proof fn lemma_recycle_keeps_lattice_place(o: ObstacleModel, offset: int)
    ensures
        o.recycled(offset).x == o.x + LATTICE_PERIOD,
        o.recycled(offset).x % (LATTICE_PERIOD as int) == o.x % (LATTICE_PERIOD as int),
        o.recycled(offset).pipe_direction == o.pipe_direction,
{
}

/// Over a whole frame an obstacle keeps the place on the lattice that scrolling
/// alone would give it, whether or not it is recycled.
pub proof fn lemma_advance_keeps_lattice_place(
    o: ObstacleModel,
    delta_ms: int,
    window_width: int,
    offset: int,
)
    ensures
        o.advanced(delta_ms, window_width, offset).x % (LATTICE_PERIOD as int) == (o.x
            - scroll_distance(delta_ms)) % (LATTICE_PERIOD as int),
        o.advanced(delta_ms, window_width, offset).x == o.x - scroll_distance(delta_ms)
            || o.advanced(delta_ms, window_width, offset).x == o.x - scroll_distance(delta_ms)
            + LATTICE_PERIOD,
{
}

} // verus!
