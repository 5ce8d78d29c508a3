//! How far a window has slid between two frames, and in which direction.
use vstd::prelude::*;

verus! {

/// A direction with a magnitude in pixels.
///
/// `Left` and `Right` slide along the columns, `Top` and `Bottom` along the
/// rows. `Left` and `Top` are the leading directions, `Right` and `Bottom`
/// the trailing ones. Only magnitudes `0..=8` can be rendered.
#[derive(Copy, Clone, Debug, PartialEq, Eq, Structural)]
pub enum Offset {
    Left(u8),
    Right(u8),
    Bottom(u8),
    Top(u8),
}

impl Offset {
    /// The magnitude, whatever the direction.
    pub open spec fn magnitude(self) -> u8 {
        match self {
            Offset::Left(n) => n,
            Offset::Right(n) => n,
            Offset::Bottom(n) => n,
            Offset::Top(n) => n,
        }
    }

    /// True when the window slides along the columns.
    pub open spec fn is_horizontal(self) -> bool {
        self is Left || self is Right
    }

    /// True when the first frame comes first along the axis.
    pub open spec fn is_leading(self) -> bool {
        self is Left || self is Top
    }

    /// An offset of `n` pixels to the left.
    pub fn left(n: u8) -> (r: Offset)
        ensures
            r == Offset::Left(n),
    {
        Offset::Left(n)
    }

    /// An offset of `n` pixels to the right.
    pub fn right(n: u8) -> (r: Offset)
        ensures
            r == Offset::Right(n),
    {
        Offset::Right(n)
    }

    /// An offset of `n` pixels to the bottom.
    pub fn bottom(n: u8) -> (r: Offset)
        ensures
            r == Offset::Bottom(n),
    {
        Offset::Bottom(n)
    }

    /// An offset of `n` pixels to the top.
    pub fn top(n: u8) -> (r: Offset)
        ensures
            r == Offset::Top(n),
    {
        Offset::Top(n)
    }
}

} // verus!
