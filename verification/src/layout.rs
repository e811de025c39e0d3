//! The layout of the indicator: which bars there are, and how large.

use vstd::prelude::*;

verus! {

/// The number of indicator slots, each a run of columns of its own.
pub const SLOTS: usize = 3;

/// The bytes that one pixel takes in a frame buffer.
pub const PIXEL_BYTES: usize = 4;

/// The indicator slots, in the order of their columns.
#[derive(Clone, Copy, PartialEq, Eq, Structural, Debug)]
pub enum Slot {
    Battery,
    Volume,
    Composite,
}

impl Slot {
    /// The place of the slot among the runs of columns, counted from nought.
    pub open spec fn index(self) -> int {
        match self {
            Slot::Battery => 0,
            Slot::Volume => 1,
            Slot::Composite => 2,
        }
    }

    /// The place of the slot among the runs of columns.
    pub fn position(self) -> (i: usize)
        ensures
            i == self.index(),
            i < SLOTS,
    {
        match self {
            Slot::Battery => 0,
            Slot::Volume => 1,
            Slot::Composite => 2,
        }
    }
}

/// The measures of the grid of pixels.
///
/// Every slot has a run of `girth` columns; the first column of each run is a
/// gutter that stays at background. A bar is `length` pixels long. Beyond the
/// last run and above the bars lie `margin` more columns and rows of
/// background.
#[derive(Clone, Copy, PartialEq, Eq, Structural, Debug)]
pub struct Layout {
    girth: usize,
    length: usize,
    margin: usize,
}

/// Whether a grid of these measures, at four bytes a pixel, can be addressed.
pub open spec fn fits(girth: int, length: int, margin: int) -> bool {
    &&& SLOTS * girth + margin <= usize::MAX
    &&& length + margin <= usize::MAX
    &&& (SLOTS * girth + margin) * (length + margin) * PIXEL_BYTES <= usize::MAX
}

impl Layout {
    /// The columns of one slot, the gutter included.
    pub closed spec fn spec_girth(&self) -> usize {
        self.girth
    }

    /// The pixels of one bar.
    pub closed spec fn spec_length(&self) -> usize {
        self.length
    }

    /// The columns beyond the last slot, and the rows above the bars.
    pub closed spec fn spec_margin(&self) -> usize {
        self.margin
    }

    /// The columns of the grid: `SLOTS * girth + margin`.
    pub open spec fn columns(self) -> nat {
        (SLOTS * self.girth() + self.margin()) as nat
    }

    /// The rows of the grid: `length + margin`.
    pub open spec fn rows(self) -> nat {
        (self.length() + self.margin()) as nat
    }

    /// The columns in which bars lie: all but the margin.
    pub open spec fn bar_columns(self) -> nat {
        (SLOTS * self.girth()) as nat
    }

    /// The grid can be addressed.
    pub open spec fn wf(self) -> bool {
        fits(self.girth() as int, self.length() as int, self.margin() as int)
    }

    /// Whether column `c` is the gutter of its slot or lies in the margin.
    pub open spec fn is_blank_column(self, c: int) -> bool {
        !(0 <= c < self.bar_columns()) || c % (self.girth() as int) == 0
    }

    /// A layout of the given measures, if a grid of them can be addressed.
    pub fn new(girth: usize, length: usize, margin: usize) -> (made: Option<Layout>)
        ensures
            made is Some <==> fits(girth as int, length as int, margin as int),
            made matches Some(layout) ==> layout.wf() && layout.girth() == girth && layout.length()
                == length && layout.margin() == margin,
    {
        let bars = match SLOTS.checked_mul(girth) {
            Some(n) => n,
            None => {
                assert(!fits(girth as int, length as int, margin as int)) by (nonlinear_arith)
                    requires
                        SLOTS * girth > usize::MAX,
                        margin >= 0,
                ;
                return None;
            },
        };
        let columns = match bars.checked_add(margin) {
            Some(n) => n,
            None => {
                return None;
            },
        };
        let rows = match length.checked_add(margin) {
            Some(n) => n,
            None => {
                return None;
            },
        };
        let cells = match columns.checked_mul(rows) {
            Some(n) => n,
            None => {
                assert(columns * rows * PIXEL_BYTES > usize::MAX) by (nonlinear_arith)
                    requires
                        columns * rows > usize::MAX,
                        PIXEL_BYTES == 4,
                ;
                return None;
            },
        };
        match cells.checked_mul(PIXEL_BYTES) {
            Some(_) => Some(Layout { girth, length, margin }),
            None => None,
        }
    }

    /// The layout of the widget as it ships: three bars, two columns each,
    /// sixteen pixels long, with no margin.
    pub fn reference() -> (layout: Layout)
        ensures
            layout.wf(),
            layout.girth() == 2,
            layout.length() == 16,
            layout.margin() == 0,
    {
        Layout { girth: 2, length: 16, margin: 0 }
    }

    /// The columns of one slot, the gutter included.
    #[verifier::when_used_as_spec(spec_girth)]
    pub fn girth(&self) -> (g: usize)
        ensures
            g == self.girth(),
    {
        self.girth
    }

    /// The pixels of one bar.
    #[verifier::when_used_as_spec(spec_length)]
    pub fn length(&self) -> (l: usize)
        ensures
            l == self.length(),
    {
        self.length
    }

    /// The columns beyond the last slot, and the rows above the bars.
    #[verifier::when_used_as_spec(spec_margin)]
    pub fn margin(&self) -> (m: usize)
        ensures
            m == self.margin(),
    {
        self.margin
    }

    /// The logical width: the number of columns of the grid.
    pub fn width(&self) -> (w: usize)
        requires
            self.wf(),
        ensures
            w == self.columns(),
    {
        SLOTS * self.girth + self.margin
    }

    /// The logical height: the number of rows of the grid.
    pub fn height(&self) -> (h: usize)
        requires
            self.wf(),
        ensures
            h == self.rows(),
    {
        self.length + self.margin
    }

    /// The number of bytes of a frame buffer that holds the grid.
    pub fn byte_len(&self) -> (n: usize)
        requires
            self.wf(),
        ensures
            n == self.columns() * self.rows() * PIXEL_BYTES,
    {
        let columns = self.width();
        let rows = self.height();
        assert(columns * rows <= columns * rows * PIXEL_BYTES) by (nonlinear_arith)
            requires
                PIXEL_BYTES == 4,
                0 <= columns,
                0 <= rows,
        ;
        columns * rows * PIXEL_BYTES
    }

    /// The first column of a slot's run, which is its gutter.
    pub fn first_column(&self, slot: Slot) -> (c: usize)
        requires
            self.wf(),
        ensures
            c == slot.index() * self.girth(),
            c + self.girth() <= self.bar_columns(),
    {
        let i = slot.position();
        let girth = self.girth;
        assert(i * girth + girth <= SLOTS * girth) by (nonlinear_arith)
            requires
                i < SLOTS,
                0 <= girth,
        ;
        i * girth
    }
}

/// A column within the bars belongs to the slot `c / girth`, and that is one
/// of the slots.
pub proof fn lemma_slot_of_column(layout: Layout, c: int)
    requires
        0 <= c < layout.bar_columns(),
    ensures
        layout.girth() > 0,
        0 <= c / (layout.girth() as int) < SLOTS,
        0 <= c % (layout.girth() as int) < layout.girth(),
        c == (c / (layout.girth() as int)) * layout.girth() + c % (layout.girth() as int),
{
    let g = layout.girth() as int;
    assert(g > 0) by (nonlinear_arith)
        requires
            0 <= c < 3 * g,
    ;
    assert(0 <= c / g < 3 && 0 <= c % g < g && c == (c / g) * g + c % g) by (nonlinear_arith)
        requires
            0 <= c < 3 * g,
            g > 0,
    ;
}

} // verus!
