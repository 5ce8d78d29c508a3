//! Errors reported by the compositing and scrolling operations.
use vstd::prelude::*;

verus! {

/// Why an operation was refused. Each one is a caller's mistake and is
/// reported at once; none is retried.
#[derive(Copy, Clone, Debug, PartialEq, Eq, Structural)]
pub enum FrameError {
    /// An offset magnitude outside `0..=8`.
    InvalidOffsetMagnitude,
    /// A scroll built from fewer than two frames.
    InsufficientFrames,
    /// A frame index at or past the end of a scroll.
    IndexOutOfBounds,
}

} // verus!
