//! A side-scrolling obstacle-avoidance game, as a frame-driven simulation on
//! fixed-point integers.
//!
//! A bird falls under gravity and is thrown upward by a flap, while a field
//! of paired obstacles scrolls towards it and is recycled at the left edge of
//! the world. Passing a pair adds to the score; touching an obstacle or the
//! lower bound of the world ends the run, and the next flap starts a new one.
//!
//! Positions are counted in millionths of a world unit, velocities in
//! thousandths of a world unit per second and time in milliseconds, so that a
//! velocity times a frame's duration is a displacement with nothing rounded.
//!
//! Every type has a model over the mathematical integers, and the contracts
//! of the functions speak of the models: [`model::SimulationModel::step`] is
//! one frame of the game, [`simulation::Simulation::step`] computes it, and
//! [`simulation::Simulation::update`] computes it with freshly drawn offsets.

pub mod bird;
pub mod field;
pub mod model;
pub mod obstacle;
pub mod random;
pub mod simulation;
pub mod text;
pub mod tuning;
pub mod world;

pub use bird::Bird;
pub use model::Phase;
pub use obstacle::{Direction, Obstacle};
pub use simulation::{BirdPose, RenderSnapshot, Simulation};
pub use world::{Dimensions, GameManager};
