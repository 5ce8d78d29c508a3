//! Frame compositing and scroll sequencing for an 8×8 LED matrix.
//!
//! A `PixelFrame` is an immutable 8×8 grid of colors. Two frames form a
//! `Clip`, which renders the window that slides from the first frame to the
//! second one. A `Scroll` is a list of at least two frames, and a
//! `FrameSequence` walks the clips of a scroll one display refresh at a time.
pub mod clip;
pub mod color;
pub mod error;
pub mod frame;
pub mod offset;
pub mod scroll;

pub use clip::Clip;
pub use color::PixelColor;
pub use error::FrameError;
pub use frame::PixelFrame;
pub use offset::Offset;
pub use scroll::{FrameDirection, FrameSequence, Scroll};
