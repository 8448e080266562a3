pub mod board;
pub mod control;
pub mod frame;
pub mod geometry;
pub mod player;

pub use board::{Cell, Rgba, Shade};
pub use control::{Action, Control, Pointer};
pub use frame::run_frame;
pub use geometry::{Circle, Point};
pub use player::Player;
