//! Compositing two frames into the window that slides between them.
//!
//! The two frames of a clip are laid end to end along the axis of the
//! offset, as one strip 16 lines long, and an 8-line window is cut out of
//! it. In the leading directions (`Left`, `Top`) the strip is
//! `[first, second]` and line `i` of the window is strip line `i + n`. In
//! the trailing directions (`Right`, `Bottom`) the strip is
//! `[second, first]` and line `i` is strip line `i + 8 - n`. Either way a
//! magnitude of 0 shows the first frame and 8 the second one.
use vstd::prelude::*;
use crate::color::PixelColor;
use crate::error::FrameError;
use crate::frame::{cell_index, solid_view, PixelFrame, FRAME_CELLS, FRAME_SIDE};
use crate::offset::Offset;

verus! {

/// Where line `i` of the window comes from, at magnitude `n`: whether it is
/// a line of the first frame (else of the second one), and which line.
pub open spec fn window_source(leading: bool, n: int, i: int) -> (bool, int) {
    if leading {
        if i + n < 8 {
            (true, i + n)
        } else {
            (false, i + n - 8)
        }
    } else {
        if i < n {
            (false, i + 8 - n)
        } else {
            (true, i - n)
        }
    }
}

/// The color of cell `(row, col)` of the window at `offset`.
///
/// The line across the sliding axis is taken from its source frame; the
/// coordinate along the other axis is kept.
pub open spec fn window_cell(
    first: Seq<PixelColor>,
    second: Seq<PixelColor>,
    offset: Offset,
    row: int,
    col: int,
) -> PixelColor {
    let i = if offset.is_horizontal() { col } else { row };
    let (from_first, j) = window_source(offset.is_leading(), offset.magnitude() as int, i);
    let source = if from_first { first } else { second };
    if offset.is_horizontal() {
        source[cell_index(row, j)]
    } else {
        source[cell_index(j, col)]
    }
}

/// The window at `offset` between `first` and `second`, in row-major order.
pub open spec fn window_view(
    first: Seq<PixelColor>,
    second: Seq<PixelColor>,
    offset: Offset,
) -> Seq<PixelColor> {
    Seq::new(64, |k: int| window_cell(first, second, offset, k / 8, k % 8))
}

/// Renders the window at `offset` between two frames.
fn window(first: &PixelFrame, second: &PixelFrame, offset: Offset) -> (r: PixelFrame)
    requires
        offset.magnitude() <= 8,
    ensures
        r@ == window_view(first@, second@, offset),
{
    let (horizontal, leading, n) = match offset {
        Offset::Left(n) => (true, true, n as usize),
        Offset::Right(n) => (true, false, n as usize),
        Offset::Bottom(n) => (false, false, n as usize),
        Offset::Top(n) => (false, true, n as usize),
    };
    let mut pixels = [first.pixel(0); 64];
    let mut k: usize = 0;
    while k < FRAME_CELLS
        invariant
            k <= 64,
            n <= 8,
            horizontal == offset.is_horizontal(),
            leading == offset.is_leading(),
            n == offset.magnitude(),
            forall|m: int| 0 <= m < k ==> pixels@[m] == window_view(first@, second@, offset)[m],
        decreases 64 - k,
    {
        let row = k / FRAME_SIDE;
        let col = k % FRAME_SIDE;
        let i = if horizontal { col } else { row };
        let (from_first, j) = if leading {
            if i + n < FRAME_SIDE {
                (true, i + n)
            } else {
                (false, i + n - FRAME_SIDE)
            }
        } else {
            if i < n {
                (false, i + FRAME_SIDE - n)
            } else {
                (true, i - n)
            }
        };
        let source = if from_first { first } else { second };
        let index = if horizontal { row * FRAME_SIDE + j } else { j * FRAME_SIDE + col };
        pixels[k] = source.pixel(index);
        k = k + 1;
    }
    let r = PixelFrame::new(&pixels);
    assert(r@ =~= window_view(first@, second@, offset));
    r
}

/// A pair of frames, and the windows that slide from one to the other.
#[derive(Copy, Clone, Debug)]
pub struct Clip {
    first: PixelFrame,
    second: PixelFrame,
}

impl View for Clip {
    type V = (Seq<PixelColor>, Seq<PixelColor>);

    /// The first frame and the second one.
    closed spec fn view(&self) -> (Seq<PixelColor>, Seq<PixelColor>) {
        (self.first@, self.second@)
    }
}

impl Clip {
    /// The window of this clip at `offset`.
    pub open spec fn window_at(self, offset: Offset) -> Seq<PixelColor> {
        window_view(self@.0, self@.1, offset)
    }

    /// Creates a clip that slides from `first` to `second`.
    pub fn new(first: PixelFrame, second: PixelFrame) -> (r: Clip)
        ensures
            r@ == (first@, second@),
    {
        Clip { first, second }
    }

    /// Renders the window at `offset`.
    ///
    /// Fails with `InvalidOffsetMagnitude` when the magnitude exceeds 8.
    pub fn offset(&self, offset: Offset) -> (r: Result<PixelFrame, FrameError>)
        ensures
            offset.magnitude() <= 8 ==> (r matches Ok(f) && f@ == self.window_at(offset)),
            offset.magnitude() > 8 ==> r == Err::<PixelFrame, FrameError>(
                FrameError::InvalidOffsetMagnitude,
            ),
    {
        if offset_in_range(offset) {
            Ok(window(&self.first, &self.second, offset))
        } else {
            Err(FrameError::InvalidOffsetMagnitude)
        }
    }
}

/// True when the magnitude of `offset` is in `0..=8`.
fn offset_in_range(offset: Offset) -> (r: bool)
    ensures
        r == (offset.magnitude() <= 8),
{
    let n = match offset {
        Offset::Left(n) => n,
        Offset::Right(n) => n,
        Offset::Bottom(n) => n,
        Offset::Top(n) => n,
    };
    n as usize <= FRAME_SIDE
}

impl Clip {
    /// Both frames of a clip have 64 cells.
    pub proof fn lemma_len(self)
        ensures
            self@.0.len() == 64,
            self@.1.len() == 64,
    {
        self.first.lemma_len();
        self.second.lemma_len();
    }
}

/// Magnitude 0 shows `first` and magnitude 8 shows `second`, in every
/// direction.
pub proof fn lemma_window_view_endpoints(
    first: Seq<PixelColor>,
    second: Seq<PixelColor>,
    offset: Offset,
)
    requires
        first.len() == 64,
        second.len() == 64,
    ensures
        offset.magnitude() == 0 ==> window_view(first, second, offset) == first,
        offset.magnitude() == 8 ==> window_view(first, second, offset) == second,
{
    let w = window_view(first, second, offset);
    if offset.magnitude() == 0 {
        assert forall|k: int| 0 <= k < 64 implies w[k] == first[k] by {
            assert(cell_index(k / 8, k % 8) == k);
        }
        assert(w =~= first);
    }
    if offset.magnitude() == 8 {
        assert forall|k: int| 0 <= k < 64 implies w[k] == second[k] by {
            assert(cell_index(k / 8, k % 8) == k);
        }
        assert(w =~= second);
    }
}

/// Endpoint identity: in each of the four directions, the window at
/// magnitude 0 is the clip's first frame and the window at magnitude 8 is
/// its second frame.
pub proof fn lemma_window_endpoints(clip: Clip, offset: Offset)
    ensures
        offset.magnitude() == 0 ==> clip.window_at(offset) == clip@.0,
        offset.magnitude() == 8 ==> clip.window_at(offset) == clip@.1,
{
    clip.lemma_len();
    lemma_window_view_endpoints(clip@.0, clip@.1, offset);
}

/// Symmetry of the leading and trailing directions: sliding a clip left
/// (or up) by `n` gives the same window as sliding the clip with its two
/// frames swapped right (or down) by `8 - n`.
pub proof fn lemma_window_mirror(clip: Clip, n: u8)
    requires
        n <= 8,
    ensures
        clip.window_at(Offset::Left(n)) == window_view(
            clip@.1,
            clip@.0,
            Offset::Right((8 - n) as u8),
        ),
        clip.window_at(Offset::Top(n)) == window_view(
            clip@.1,
            clip@.0,
            Offset::Bottom((8 - n) as u8),
        ),
{
    assert(clip.window_at(Offset::Left(n)) =~= window_view(
        clip@.1,
        clip@.0,
        Offset::Right((8 - n) as u8),
    ));
    assert(clip.window_at(Offset::Top(n)) =~= window_view(
        clip@.1,
        clip@.0,
        Offset::Bottom((8 - n) as u8),
    ));
}

impl PartialEq for Clip {
    fn eq(&self, other: &Clip) -> (r: bool) {
        self.first == other.first && self.second == other.second
    }
}

impl vstd::std_specs::cmp::PartialEqSpecImpl for Clip {
    open spec fn obeys_eq_spec() -> bool {
        true
    }

    open spec fn eq_spec(&self, other: &Clip) -> bool {
        self@ == other@
    }
}

impl Eq for Clip {
}

impl PixelFrame {
    /// Renders the window at `clip_at` between this frame and `other`.
    pub fn clip(&self, other: &PixelFrame, clip_at: Offset) -> (r: Result<PixelFrame, FrameError>)
        ensures
            clip_at.magnitude() <= 8 ==> (r matches Ok(f) && f@ == window_view(self@, other@, clip_at)),
            clip_at.magnitude() > 8 ==> r == Err::<PixelFrame, FrameError>(
                FrameError::InvalidOffsetMagnitude,
            ),
    {
        self.build_clip(other).offset(clip_at)
    }

    /// Creates a clip that slides from this frame to `other`.
    pub fn build_clip(&self, other: &PixelFrame) -> (r: Clip)
        ensures
            r@ == (self@, other@),
    {
        Clip::new(*self, *other)
    }

    /// Slides this frame by `offset`, revealing a blank frame behind it.
    ///
    /// Fails with `InvalidOffsetMagnitude` when the magnitude exceeds 8.
    pub fn offset(&self, offset: Offset) -> (r: Result<PixelFrame, FrameError>)
        ensures
            offset.magnitude() <= 8 ==> (r matches Ok(f) && f@ == window_view(
                self@,
                solid_view(PixelColor::black()),
                offset,
            )),
            offset.magnitude() > 8 ==> r == Err::<PixelFrame, FrameError>(
                FrameError::InvalidOffsetMagnitude,
            ),
    {
        Clip::new(*self, PixelFrame::default()).offset(offset)
    }
}

} // verus!
