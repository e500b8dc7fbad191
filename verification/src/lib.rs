//! Core state machine of a grid-based snake game.
//!
//! The library owns the simulation: snake geometry, fixed-tick updates,
//! collision rules, growth and scoring, direction changes with re-entrancy
//! protection, and restart semantics. Rendering, windowing and the event
//! loop are external collaborators that only read the state through the
//! query surface and feed it elapsed time and key events.

pub mod game;
pub mod laws;
pub mod geometry;
pub mod rng;

pub use game::Collision;
pub use game::GameState;
pub use geometry::Direction;
pub use geometry::Key;
pub use geometry::Position;
