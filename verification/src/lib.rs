//! A perspective grid that recedes toward a vanishing point, and the state
//! of the animation that moves it.
//!
//! Every length, depth and zoom factor of a projection is an exact number.
//! A caller gives one as a `Ratio`; the library gives one back as an
//! `Exact`. Contracts speak of the real numbers that they stand for. The
//! state of the animation counts in thousandths, which hold its steps
//! exactly.
pub mod frame;
pub mod frame_laws;
pub mod grid;
pub mod perspective;
pub mod projection_laws;
pub mod ratio;

pub use frame::{Circle, Direction, FrameState, FRAME_UNIT};
pub use grid::{Point, Segment, DEFAULT_LEVELS};
pub use perspective::{Perspective, Position, MIN_DEPTH_DEN, MIN_DEPTH_NUM};
pub use ratio::{Exact, Ratio};
