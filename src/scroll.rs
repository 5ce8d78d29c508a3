//! Scrolling a list of frames across the display.
//!
//! A `Scroll` holds at least two frames. Each adjacent pair forms a clip, so
//! `k` frames give `k - 1` clips and `(k - 1) * 8` positions. A
//! `FrameSequence` yields one frame for each position `0..=(k - 1) * 8`: at
//! position `p` below the last one it yields the window of clip `p / 8` at
//! magnitude `p % 8`, and at the last position the final frame. A frame
//! shared by two clips is yielded once, as the start of the later clip.
use vstd::prelude::*;
use crate::clip::{lemma_window_view_endpoints, window_view, Clip};
use crate::color::PixelColor;
use crate::error::FrameError;
use crate::frame::{frame_view, PixelFrame, FRAME_SIDE};
use crate::offset::Offset;

verus! {

/// The way content travels across the display.
#[derive(Copy, Clone, Debug, PartialEq, Eq, Structural)]
pub enum FrameDirection {
    RightToLeft,
    LeftToRight,
    BottomToTop,
    TopToBottom,
}

impl FrameDirection {
    /// The clip offset of magnitude `n` that moves content this way.
    ///
    /// Sliding the window one way moves the content the other way, so
    /// right-to-left travel uses `Left` offsets, left-to-right `Right`,
    /// top-to-bottom `Bottom` and bottom-to-top `Top`.
    pub open spec fn offset_of(self, n: u8) -> Offset {
        match self {
            FrameDirection::RightToLeft => Offset::Left(n),
            FrameDirection::LeftToRight => Offset::Right(n),
            FrameDirection::TopToBottom => Offset::Bottom(n),
            FrameDirection::BottomToTop => Offset::Top(n),
        }
    }
}

/// The clips of a list of frames: one per adjacent pair, in order.
pub open spec fn clips_of(frames: Seq<PixelFrame>) -> Seq<(Seq<PixelColor>, Seq<PixelColor>)> {
    Seq::new((frames.len() - 1) as nat, |i: int| (frames[i]@, frames[i + 1]@))
}

/// The frames of a scroll animation, yielded one position at a time.
#[derive(Debug)]
pub struct FrameSequence {
    clips: Vec<Clip>,
    direction: FrameDirection,
    position: usize,
}

impl FrameSequence {
    /// The clips that the sequence walks, as pairs of frames.
    pub closed spec fn clip_views(self) -> Seq<(Seq<PixelColor>, Seq<PixelColor>)> {
        self.clips@.map_values(|c: Clip| c@)
    }

    /// The direction of travel.
    pub closed spec fn direction_spec(self) -> FrameDirection {
        self.direction
    }

    /// The position whose frame comes next.
    pub closed spec fn position_spec(self) -> int {
        self.position as int
    }

    /// The last position: 8 for each clip.
    pub open spec fn total(self) -> int {
        (self.clip_views().len() * 8) as int
    }

    /// At least one clip, every position fits in `usize`, and the position
    /// is at most one past the last.
    pub open spec fn wf(self) -> bool {
        &&& self.clip_views().len() >= 1
        &&& self.total() < usize::MAX
        &&& 0 <= self.position_spec() <= self.total() + 1
    }

    /// The clip and magnitude that render position `p`.
    pub open spec fn slot(self, p: int) -> (int, u8) {
        if p == self.total() {
            (self.clip_views().len() - 1, 8u8)
        } else {
            (p / 8, (p % 8) as u8)
        }
    }

    /// The frame at position `p`, if `p` is a position of the sequence.
    pub open spec fn frame_at(self, p: int) -> Option<Seq<PixelColor>> {
        if 0 <= p <= self.total() {
            let (c, n) = self.slot(p);
            let clip = self.clip_views()[c];
            Some(window_view(clip.0, clip.1, self.direction_spec().offset_of(n)))
        } else {
            None
        }
    }

    /// The frames still to come, in order.
    pub open spec fn remaining(self) -> Seq<Seq<PixelColor>> {
        Seq::new(
            (self.total() + 1 - self.position_spec()) as nat,
            |i: int| self.frame_at(self.position_spec() + i)->Some_0,
        )
    }

    /// Creates the sequence of `scroll` in `direction`, at position 0.
    fn new(scroll: &Scroll, direction: FrameDirection) -> (r: FrameSequence)
        requires
            scroll.wf(),
        ensures
            r.wf(),
            r.clip_views() == clips_of(scroll@),
            r.direction_spec() == direction,
            r.position_spec() == 0,
    {
        let position: usize = 0;
        let clips = scroll.clips();
        FrameSequence { clips, direction, position }
    }

    /// The number of positions after the first: 8 for each clip.
    pub fn positions(&self) -> (r: usize)
        requires
            self.wf(),
        ensures
            r == self.total(),
    {
        self.clips.len() * FRAME_SIDE
    }

    /// The offset of magnitude `off` in this sequence's direction.
    fn offset(&self, off: u8) -> (r: Offset)
        ensures
            r == self.direction_spec().offset_of(off),
    {
        match self.direction {
            FrameDirection::RightToLeft => Offset::left(off),
            FrameDirection::LeftToRight => Offset::right(off),
            FrameDirection::TopToBottom => Offset::bottom(off),
            FrameDirection::BottomToTop => Offset::top(off),
        }
    }

    /// The window of clip `index` at magnitude `n`.
    fn render(&self, index: usize, n: u8) -> (r: PixelFrame)
        requires
            index < self.clip_views().len(),
            n <= 8,
        ensures
            r@ == window_view(
                self.clip_views()[index as int].0,
                self.clip_views()[index as int].1,
                self.direction_spec().offset_of(n),
            ),
    {
        self.clips[index].offset(self.offset(n)).unwrap()
    }

    /// Yields the frame at the current position and moves past it, or
    /// `None` once every position has been yielded.
    pub fn next(&mut self) -> (r: Option<PixelFrame>)
        requires
            old(self).wf(),
        ensures
            final(self).wf(),
            final(self).clip_views() == old(self).clip_views(),
            final(self).direction_spec() == old(self).direction_spec(),
            final(self).position_spec() == if old(self).position_spec() <= old(self).total() {
                old(self).position_spec() + 1
            } else {
                old(self).position_spec()
            },
            frame_view(r) == old(self).frame_at(old(self).position_spec()),
    {
        let total = self.positions();
        if self.position > total {
            None
        } else if self.position == total {
            self.position = self.position + 1;
            Some(self.render(self.clips.len() - 1, 8))
        } else {
            let p = self.position;
            self.position = p + 1;
            Some(self.render(p / FRAME_SIDE, (p % FRAME_SIDE) as u8))
        }
    }

    /// Skips `n` frames and yields the next one, as `next` would after `n`
    /// calls; `None` once the sequence is exhausted.
    pub fn nth(&mut self, n: usize) -> (r: Option<PixelFrame>)
        requires
            old(self).wf(),
        ensures
            final(self).wf(),
            final(self).clip_views() == old(self).clip_views(),
            final(self).direction_spec() == old(self).direction_spec(),
            final(self).position_spec() == if old(self).position_spec() + n <= old(self).total() {
                old(self).position_spec() + n + 1
            } else {
                old(self).total() + 1
            },
            frame_view(r) == old(self).frame_at(old(self).position_spec() + n),
    {
        let ghost start = *self;
        let mut i: usize = 0;
        while i < n
            invariant
                start == *old(self),
                i <= n,
                self.wf(),
                self.clip_views() == start.clip_views(),
                self.direction_spec() == start.direction_spec(),
                self.position_spec() == if start.position_spec() + i <= start.total() + 1 {
                    start.position_spec() + i
                } else {
                    start.total() + 1
                },
            decreases n - i,
        {
            if self.next().is_none() {
                return None;
            }
            i = i + 1;
        }
        self.next()
    }

    /// Drains the sequence and returns how many frames it yielded.
    pub fn count(self) -> (r: usize)
        requires
            self.wf(),
        ensures
            r == self.remaining().len(),
    {
        let mut seq = self;
        let mut c: usize = 0;
        loop
            invariant
                self.wf(),
                seq.wf(),
                seq.clip_views() == self.clip_views(),
                c + seq.remaining().len() == self.remaining().len(),
            ensures
                c == self.remaining().len(),
            decreases seq.total() + 1 - seq.position_spec(),
        {
            match seq.next() {
                Some(_) => {
                    c = c + 1;
                },
                None => {
                    break ;
                },
            }
        }
        c
    }

    /// The clips that the sequence walks.
    pub fn clips(&self) -> (r: &[Clip])
        ensures
            r@.map_values(|c: Clip| c@) == self.clip_views(),
    {
        self.clips.as_slice()
    }

    /// The direction of travel.
    pub fn direction(&self) -> (r: FrameDirection)
        ensures
            r == self.direction_spec(),
    {
        self.direction
    }

    /// The position whose frame comes next.
    pub fn position(&self) -> (r: usize)
        ensures
            r == self.position_spec(),
    {
        self.position
    }
}

/// A list of at least two frames to scroll across the display.
#[derive(Debug)]
pub struct Scroll {
    frames: Vec<PixelFrame>,
}

impl View for Scroll {
    type V = Seq<PixelFrame>;

    /// The frames, in order.
    closed spec fn view(&self) -> Seq<PixelFrame> {
        self.frames@
    }
}

impl Scroll {
    /// At least two frames, and the positions of its sequences fit in
    /// `usize`.
    pub open spec fn wf(self) -> bool {
        &&& self@.len() >= 2
        &&& (self@.len() - 1) * 8 < usize::MAX
    }

    /// Creates a scroll from a list of frames.
    ///
    /// Fails with `InsufficientFrames` when fewer than two frames are given.
    /// The positions of the scroll's sequences must fit in `usize`.
    pub fn new(frames: &[PixelFrame]) -> (r: Result<Scroll, FrameError>)
        requires
            (frames@.len() - 1) * 8 < usize::MAX,
        ensures
            frames@.len() >= 2 ==> (r matches Ok(s) && s@ == frames@ && s.wf()),
            frames@.len() < 2 ==> r == Err::<Scroll, FrameError>(FrameError::InsufficientFrames),
    {
        if frames.len() < 2 {
            Err(FrameError::InsufficientFrames)
        } else {
            Ok(Scroll { frames: vstd::slice::slice_to_vec(frames) })
        }
    }

    /// The clips of the scroll: one per adjacent pair of frames, in order.
    pub fn clips(&self) -> (r: Vec<Clip>)
        requires
            self.wf(),
        ensures
            r@.map_values(|c: Clip| c@) == clips_of(self@),
    {
        let mut clips: Vec<Clip> = Vec::new();
        let mut i: usize = 1;
        while i < self.frames.len()
            invariant
                1 <= i <= self@.len(),
                clips@.len() == i - 1,
                forall|j: int|
                    0 <= j < i - 1 ==> #[trigger] clips@[j]@ == (self@[j]@, self@[j + 1]@),
            decreases self@.len() - i,
        {
            clips.push(self.frames[i - 1].build_clip(&self.frames[i]));
            i = i + 1;
        }
        assert(clips@.map_values(|c: Clip| c@) =~= clips_of(self@));
        clips
    }

    /// The frames of the scroll.
    pub fn frames(&self) -> (r: &[PixelFrame])
        ensures
            r@ == self@,
    {
        self.frames.as_slice()
    }

    /// Reverses the order of the frames.
    pub fn reverse(&mut self)
        requires
            old(self).wf(),
        ensures
            final(self).wf(),
            final(self)@ == old(self)@.reverse(),
    {
        let n = self.frames.len();
        let mut reversed: Vec<PixelFrame> = Vec::new();
        let mut i: usize = n;
        while i > 0
            invariant
                n == self@.len(),
                i <= n,
                reversed@ == self@.subrange(i as int, n as int).reverse(),
            decreases i,
        {
            i = i - 1;
            reversed.push(self.frames[i]);
            assert(reversed@ =~= self@.subrange(i as int, n as int).reverse());
        }
        assert(self@.subrange(0, n as int) =~= self@);
        self.frames = reversed;
    }

    /// The number of frames.
    pub fn len(&self) -> (r: usize)
        ensures
            r == self@.len(),
    {
        self.frames.len()
    }

    /// The frame at `index`.
    ///
    /// Fails with `IndexOutOfBounds` when `index` is not below the number of
    /// frames.
    pub fn get(&self, index: usize) -> (r: Result<PixelFrame, FrameError>)
        ensures
            index < self@.len() ==> r == Ok::<PixelFrame, FrameError>(self@[index as int]),
            index >= self@.len() ==> r == Err::<PixelFrame, FrameError>(
                FrameError::IndexOutOfBounds,
            ),
    {
        if index < self.frames.len() {
            Ok(self.frames[index])
        } else {
            Err(FrameError::IndexOutOfBounds)
        }
    }

    /// The sequence that moves the frames from the right to the left.
    pub fn right_to_left(&self) -> (r: FrameSequence)
        requires
            self.wf(),
        ensures
            r.wf(),
            r.clip_views() == clips_of(self@),
            r.direction_spec() == FrameDirection::RightToLeft,
            r.position_spec() == 0,
    {
        FrameSequence::new(self, FrameDirection::RightToLeft)
    }

    /// The sequence that moves the frames from the left to the right.
    pub fn left_to_right(&self) -> (r: FrameSequence)
        requires
            self.wf(),
        ensures
            r.wf(),
            r.clip_views() == clips_of(self@),
            r.direction_spec() == FrameDirection::LeftToRight,
            r.position_spec() == 0,
    {
        FrameSequence::new(self, FrameDirection::LeftToRight)
    }

    /// The sequence that moves the frames from the top to the bottom.
    pub fn top_to_bottom(&self) -> (r: FrameSequence)
        requires
            self.wf(),
        ensures
            r.wf(),
            r.clip_views() == clips_of(self@),
            r.direction_spec() == FrameDirection::TopToBottom,
            r.position_spec() == 0,
    {
        FrameSequence::new(self, FrameDirection::TopToBottom)
    }

    /// The sequence that moves the frames from the bottom to the top.
    pub fn bottom_to_top(&self) -> (r: FrameSequence)
        requires
            self.wf(),
        ensures
            r.wf(),
            r.clip_views() == clips_of(self@),
            r.direction_spec() == FrameDirection::BottomToTop,
            r.position_spec() == 0,
    {
        FrameSequence::new(self, FrameDirection::BottomToTop)
    }
}

/// Strip construction: a list of at least two frames has one clip fewer
/// than it has frames.
pub proof fn lemma_clip_count(frames: Seq<PixelFrame>)
    requires
        frames.len() >= 2,
    ensures
        clips_of(frames).len() == frames.len() - 1,
{
}

/// Length of a scroll animation: the sequence of a scroll of `k` frames has
/// `(k - 1) * 8` positions after the first and, from its start, yields
/// `(k - 1) * 8 + 1` frames, the one at each position, before it is
/// exhausted.
pub proof fn lemma_sequence_length(scroll: Scroll, seq: FrameSequence)
    requires
        scroll.wf(),
        seq.wf(),
        seq.clip_views() == clips_of(scroll@),
        seq.position_spec() == 0,
    ensures
        seq.total() == (scroll@.len() - 1) * 8,
        seq.remaining().len() == (scroll@.len() - 1) * 8 + 1,
        forall|p: int|
            0 <= p < seq.remaining().len() ==> seq.frame_at(p) == Some(
                #[trigger] seq.remaining()[p],
            ),
        seq.frame_at(seq.total() + 1) is None,
{
}

/// Boundary uniqueness: the frame where clip `i` ends and clip `i + 1`
/// starts is rendered at exactly one position, `(i + 1) * 8`, where the
/// sequence yields that frame of the scroll. No other position renders clip
/// `i` at magnitude 8 or clip `i + 1` at magnitude 0.
pub proof fn lemma_junction_once(scroll: Scroll, seq: FrameSequence, i: int)
    requires
        scroll.wf(),
        seq.wf(),
        seq.clip_views() == clips_of(scroll@),
        0 <= i,
        i + 2 < scroll@.len(),
    ensures
        seq.frame_at((i + 1) * 8) == Some(scroll@[i + 1]@),
        forall|p: int|
            0 <= p <= seq.total() ==> ((#[trigger] seq.slot(p) == (i, 8u8) || seq.slot(p) == (
                i + 1,
                0u8,
            )) <==> p == (i + 1) * 8),
{
    let j = (i + 1) * 8;
    assert(seq.slot(j) == (i + 1, 0u8));
    scroll@[i + 1].lemma_len();
    scroll@[i + 2].lemma_len();
    let clip = seq.clip_views()[i + 1];
    lemma_window_view_endpoints(clip.0, clip.1, seq.direction_spec().offset_of(0u8));
}

} // verus!
