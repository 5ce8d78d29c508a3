//! The 8×8 grid of colors shown on the display.
use vstd::prelude::*;
use crate::color::PixelColor;

verus! {

/// Number of cells in a frame: 8 rows of 8 columns.
pub const FRAME_CELLS: usize = 64;

/// Number of rows, and of columns, in a frame.
pub const FRAME_SIDE: usize = 8;

/// An 8×8 grid of colors, stored row by row.
///
/// Cell `(row, col)` lives at index `row * 8 + col`. Every array of 64
/// colors is a valid frame.
#[derive(Copy, Clone, Debug)]
pub struct PixelFrame {
    pixels: [PixelColor; 64],
}

/// Index of the cell `(row, col)` in a row-major frame.
pub open spec fn cell_index(row: int, col: int) -> int {
    row * 8 + col
}

/// The frame whose cells are all `color`.
pub open spec fn solid_view(color: PixelColor) -> Seq<PixelColor> {
    Seq::new(64, |_k: int| color)
}

/// The cells of an optional frame.
pub open spec fn frame_view(r: Option<PixelFrame>) -> Option<Seq<PixelColor>> {
    match r {
        Some(f) => Some(f@),
        None => None,
    }
}

impl View for PixelFrame {
    type V = Seq<PixelColor>;

    /// The 64 cells in row-major order.
    closed spec fn view(&self) -> Seq<PixelColor> {
        self.pixels@
    }
}

impl PixelFrame {
    /// Every frame has exactly 64 cells.
    pub proof fn lemma_len(self)
        ensures
            self@.len() == 64,
    {
    }

    /// Creates a frame from 64 colors in row-major order.
    pub fn new(pixels: &[PixelColor; 64]) -> (r: PixelFrame)
        ensures
            r@ == pixels@,
    {
        PixelFrame { pixels: *pixels }
    }

    /// Creates a frame of a single color.
    pub fn solid(color: PixelColor) -> (r: PixelFrame)
        ensures
            r@ == solid_view(color),
    {
        let r = PixelFrame { pixels: [color; 64] };
        assert(r@ =~= solid_view(color));
        r
    }

    /// The frame as 8 rows, top to bottom, each left to right.
    pub fn as_rows(&self) -> (r: [[PixelColor; 8]; 8])
        ensures
            forall|row: int, col: int|
                0 <= row < 8 && 0 <= col < 8 ==> #[trigger] r@[row]@[col] == self@[cell_index(
                    row,
                    col,
                )],
    {
        let mut rows = [[self.pixels[0]; 8]; 8];
        let mut row: usize = 0;
        while row < FRAME_SIDE
            invariant
                row <= 8,
                forall|i: int, j: int|
                    0 <= i < row && 0 <= j < 8 ==> #[trigger] rows@[i]@[j] == self@[cell_index(
                        i,
                        j,
                    )],
            decreases 8 - row,
        {
            let mut line = [self.pixels[0]; 8];
            let mut col: usize = 0;
            while col < FRAME_SIDE
                invariant
                    row < 8,
                    col <= 8,
                    forall|j: int| 0 <= j < col ==> #[trigger] line@[j] == self@[cell_index(row as int, j)],
                decreases 8 - col,
            {
                line[col] = self.pixels[row * FRAME_SIDE + col];
                col = col + 1;
            }
            rows[row] = line;
            row = row + 1;
        }
        rows
    }

    /// The frame as 8 columns, left to right, each top to bottom.
    pub fn as_columns(&self) -> (r: [[PixelColor; 8]; 8])
        ensures
            forall|col: int, row: int|
                0 <= col < 8 && 0 <= row < 8 ==> #[trigger] r@[col]@[row] == self@[cell_index(
                    row,
                    col,
                )],
    {
        let mut columns = [[self.pixels[0]; 8]; 8];
        let mut col: usize = 0;
        while col < FRAME_SIDE
            invariant
                col <= 8,
                forall|i: int, j: int|
                    0 <= i < col && 0 <= j < 8 ==> #[trigger] columns@[i]@[j] == self@[cell_index(
                        j,
                        i,
                    )],
            decreases 8 - col,
        {
            let mut line = [self.pixels[0]; 8];
            let mut row: usize = 0;
            while row < FRAME_SIDE
                invariant
                    col < 8,
                    row <= 8,
                    forall|j: int| 0 <= j < row ==> #[trigger] line@[j] == self@[cell_index(j, col as int)],
                decreases 8 - row,
            {
                line[row] = self.pixels[row * FRAME_SIDE + col];
                row = row + 1;
            }
            columns[col] = line;
            col = col + 1;
        }
        columns
    }

    /// The 64 colors in row-major order.
    pub fn to_array(&self) -> (r: [PixelColor; 64])
        ensures
            r@ == self@,
    {
        self.pixels
    }

    /// The color at row-major index `index`.
    pub fn pixel(&self, index: usize) -> (r: PixelColor)
        requires
            index < 64,
        ensures
            r == self@[index as int],
    {
        self.pixels[index]
    }
}

impl Default for PixelFrame {
    /// The blank frame: every cell black.
    fn default() -> (r: PixelFrame)
        ensures
            r@ == solid_view(PixelColor::black()),
    {
        PixelFrame::solid(PixelColor::default())
    }
}

impl PartialEq for PixelFrame {
    fn eq(&self, other: &PixelFrame) -> (r: bool) {
        let mut k: usize = 0;
        while k < FRAME_CELLS
            invariant
                k <= 64,
                forall|j: int| 0 <= j < k ==> self@[j] == other@[j],
            decreases 64 - k,
        {
            if self.pixels[k] != other.pixels[k] {
                return false;
            }
            k = k + 1;
        }
        assert(self@ =~= other@);
        true
    }
}

impl vstd::std_specs::cmp::PartialEqSpecImpl for PixelFrame {
    open spec fn obeys_eq_spec() -> bool {
        true
    }

    open spec fn eq_spec(&self, other: &PixelFrame) -> bool {
        self@ == other@
    }
}

impl Eq for PixelFrame {
}

} // verus!
