//! Verified core of a small tile-based platformer: a static collision grid
//! and an axis-separated motion resolver for a single rectangular actor.
//!
//! All lengths, positions and times are integers; the caller picks the scale
//! (the bundled front end uses thousandths of a pixel and milliseconds, so
//! that one velocity unit is one pixel per second).

mod actor;
mod grid;
mod laws;
mod motion;

pub use actor::Actor;
pub use actor::GRAVITY;
pub use actor::Input;
pub use actor::JUMP_SPEED;
pub use actor::MAX_TICK_COORD;
pub use actor::MAX_TICK_DT;
pub use actor::MAX_TICK_SPEED;
pub use actor::MOVE_SPEED;
pub use actor::tick;
pub use grid::ConfigError;
pub use grid::Grid;
pub use grid::MAX_CELL_SIZE;
pub use grid::MAX_GRID_DIM;
pub use motion::Axis;
pub use motion::BoxSize;
pub use motion::Pos;
pub use motion::is_grounded;
pub use motion::move_axis;
