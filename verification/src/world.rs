//! The geometry of the world, fixed when the game starts.

use vstd::prelude::*;

verus! {

/// A width and a height, in position sub-units.
#[derive(Clone, Copy, Debug, PartialEq, Eq, Structural)]
pub struct Dimensions {
    pub x: i64,
    pub y: i64,
}

/// What the game knows of its window. The world's origin is the middle of the
/// window, so the world reaches half the width to either side and half the
/// height up and down.
#[derive(Clone, Copy, Debug, PartialEq, Eq, Structural)]
pub struct GameManager {
    pub window_dimensions: Dimensions,
}

impl GameManager {
    /// A window has no negative side.
    pub open spec fn wf(self) -> bool {
        &&& 0 <= self.window_dimensions.x
        &&& 0 <= self.window_dimensions.y
    }

    /// The manager of a window `width` wide and `height` high, if neither is
    /// negative.
    pub fn new(width: i64, height: i64) -> (r: Option<GameManager>)
        ensures
            r is Some <==> 0 <= width && 0 <= height,
            r matches Some(manager) ==> manager.wf() && manager.window_dimensions == (Dimensions {
                x: width,
                y: height,
            }),
    {
        if width >= 0 && height >= 0 {
            Some(GameManager { window_dimensions: Dimensions { x: width, y: height } })
        } else {
            None
        }
    }

    /// The width of the window.
    pub fn width(&self) -> (r: i64)
        ensures
            r == self.window_dimensions.x,
    {
        self.window_dimensions.x
    }

    /// The height of the window.
    pub fn height(&self) -> (r: i64)
        ensures
            r == self.window_dimensions.y,
    {
        self.window_dimensions.y
    }
}

} // verus!
