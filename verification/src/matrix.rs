//! The matrix composer: all bars side by side in one grid of pixels.
//!
//! The grid is held by columns. Column `c`, row `r` is the pixel `r` steps up
//! from the bottom of the `c`-th column; row nought is the bottom.

use crate::bar::{bar_pixels, composite_pixels, encode_bar, encode_composite, Segment};
use crate::color::{Color, Tone};
use crate::fraction::Fraction;
use crate::layout::{lemma_slot_of_column, Layout, PIXEL_BYTES, SLOTS};
use vstd::prelude::*;

verus! {

/// What a sampler reports of a plain indicator: how full, and in which colour.
#[derive(Clone, Copy, PartialEq, Eq, Structural, Debug)]
pub struct Sample {
    pub fraction: Fraction,
    pub color: Color,
}

impl Sample {
    /// The fraction is valid.
    pub open spec fn wf(self) -> bool {
        self.fraction.wf()
    }

    /// The bar of `length` pixels that shows the sample.
    pub open spec fn bar(self, length: nat) -> Seq<Color> {
        bar_pixels(self.fraction.filled(length), length, self.color)
    }
}

/// One sample for each slot, in the order of the slots.
#[derive(Clone, PartialEq, Eq, Debug)]
pub struct Samples {
    pub battery: Sample,
    pub volume: Sample,
    pub composite: Vec<Segment>,
}

impl Samples {
    /// The two plain samples are valid.
    pub open spec fn wf(self) -> bool {
        self.battery.wf() && self.volume.wf()
    }

    /// The bars of the three slots, each of `length` pixels.
    pub open spec fn bars(self, length: nat) -> Seq<Seq<Color>> {
        seq![
            self.battery.bar(length),
            self.volume.bar(length),
            composite_pixels(self.composite@, length),
        ]
    }
}

/// A grid with `columns` columns of `rows` pixels each.
pub open spec fn is_grid(cells: Seq<Seq<Color>>, columns: nat, rows: nat) -> bool {
    &&& cells.len() == columns
    &&& forall|c: int| 0 <= c < columns ==> (#[trigger] cells[c]).len() == rows
}

/// The pixel at column `c`, row `r` of the grid that shows `bars`: the pixel
/// `r` of the bar of slot `c / girth`, or background in a gutter, in the
/// margin and outside the grid.
pub open spec fn cell(layout: Layout, bars: Seq<Seq<Color>>, c: int, r: int) -> Color {
    if !layout.is_blank_column(c) && 0 <= r < layout.length() {
        bars[c / (layout.girth() as int)][r]
    } else {
        Tone::Background.color()
    }
}

/// The grid that shows `bars` in a layout.
pub open spec fn grid(layout: Layout, bars: Seq<Seq<Color>>) -> Seq<Seq<Color>> {
    Seq::new(layout.columns(), |c: int| Seq::new(layout.rows(), |r: int| cell(layout, bars, c, r)))
}

/// The grid that the composer makes of the samples.
pub open spec fn composed(layout: Layout, samples: Samples) -> Seq<Seq<Color>> {
    grid(layout, samples.bars(layout.length() as nat))
}

/// The grid in which every pixel is background.
pub open spec fn blank(layout: Layout) -> Seq<Seq<Color>> {
    Seq::new(
        layout.columns(),
        |c: int| Seq::new(layout.rows(), |r: int| Tone::Background.color()),
    )
}

/// The pixels of a list of columns, column by column.
pub open spec fn columns_view(columns: Seq<Vec<Color>>) -> Seq<Seq<Color>> {
    Seq::new(columns.len(), |c: int| columns[c]@)
}

/// The logical, unrotated grid of pixels of all indicator bars: columns of
/// `rows` pixels each.
#[derive(Clone, PartialEq, Eq, Debug)]
pub struct Matrix {
    rows: usize,
    columns: Vec<Vec<Color>>,
}

impl View for Matrix {
    type V = Seq<Seq<Color>>;

    closed spec fn view(&self) -> Seq<Seq<Color>> {
        columns_view(self.columns@)
    }
}

/// A column of `rows` pixels that holds a bar from the bottom up and
/// background above it.
fn column_of(bar: &Vec<Color>, rows: usize) -> (column: Vec<Color>)
    ensures
        column@ == Seq::new(
            rows as nat,
            |r: int|
                if r < bar@.len() {
                    bar@[r]
                } else {
                    Tone::Background.color()
                },
        ),
{
    let background = Tone::Background.to_color();
    let mut column: Vec<Color> = Vec::new();
    let mut r: usize = 0;
    while r < rows
        invariant
            r <= rows,
            background == Tone::Background.color(),
            column@.len() == r,
            forall|k: int|
                0 <= k < r ==> #[trigger] column@[k] == if k < bar@.len() {
                    bar@[k]
                } else {
                    background
                },
        decreases rows - r,
    {
        column.push(
            if r < bar.len() {
                bar[r]
            } else {
                background
            },
        );
        r += 1;
    }
    column
}

/// Composes the samples into a new grid: each slot's bar in the columns of
/// its run but the first, everything else at background.
pub fn compose(layout: Layout, samples: &Samples) -> (matrix: Matrix)
    requires
        layout.wf(),
        samples.wf(),
    ensures
        matrix.wf(),
        matrix.fits(layout),
        matrix@ == composed(layout, *samples),
{
    let length = layout.length();
    let girth = layout.girth();
    let rows = layout.height();
    let width = layout.width();
    let bars_end = SLOTS * girth;
    let battery = encode_bar(samples.battery.fraction, samples.battery.color, length);
    let volume = encode_bar(samples.volume.fraction, samples.volume.color, length);
    let composite = encode_composite(&samples.composite, length);
    let empty: Vec<Color> = Vec::new();
    let ghost bars = samples.bars(length as nat);
    let mut columns: Vec<Vec<Color>> = Vec::new();
    let mut c: usize = 0;
    while c < width
        invariant
            c <= width,
            width == layout.columns(),
            rows == layout.rows(),
            length == layout.length(),
            girth == layout.girth(),
            bars_end == layout.bar_columns(),
            bars == samples.bars(length as nat),
            battery@ == bars[0],
            volume@ == bars[1],
            composite@ == bars[2],
            empty@.len() == 0,
            columns@.len() == c,
            forall|k: int|
                0 <= k < c ==> (#[trigger] columns@[k])@ == Seq::new(
                    rows as nat,
                    |r: int| cell(layout, bars, k, r),
                ),
        decreases width - c,
    {
        let ghost want = Seq::new(rows as nat, |r: int| cell(layout, bars, c as int, r));
        let column = if c < bars_end && c % girth != 0 {
            proof {
                lemma_slot_of_column(layout, c as int);
            }
            let slot = c / girth;
            if slot == 0 {
                column_of(&battery, rows)
            } else if slot == 1 {
                column_of(&volume, rows)
            } else {
                column_of(&composite, rows)
            }
        } else {
            column_of(&empty, rows)
        };
        assert(column@ =~= want);
        columns.push(column);
        c += 1;
    }
    let matrix = Matrix { rows, columns };
    assert(matrix@ =~= composed(layout, *samples));
    matrix
}

impl Matrix {
    /// The pixels of one column.
    pub closed spec fn spec_rows(&self) -> usize {
        self.rows
    }

    /// The grid is whole: every column has `rows` pixels, and the bytes of
    /// all pixels can be addressed.
    pub open spec fn wf(self) -> bool {
        &&& is_grid(self@, self@.len(), self.rows() as nat)
        &&& self@.len() * self.rows() * PIXEL_BYTES <= usize::MAX
    }

    /// The grid has the measures of the layout.
    pub open spec fn fits(self, layout: Layout) -> bool {
        self@.len() == layout.columns() && self.rows() == layout.rows()
    }

    /// A grid of the layout's measures with every pixel at background.
    pub fn new(layout: Layout) -> (matrix: Matrix)
        requires
            layout.wf(),
        ensures
            matrix.wf(),
            matrix.fits(layout),
            matrix@ == blank(layout),
    {
        let rows = layout.height();
        let width = layout.width();
        let empty: Vec<Color> = Vec::new();
        let mut columns: Vec<Vec<Color>> = Vec::new();
        let mut c: usize = 0;
        while c < width
            invariant
                c <= width,
                width == layout.columns(),
                rows == layout.rows(),
                empty@.len() == 0,
                columns@.len() == c,
                forall|k: int|
                    0 <= k < c ==> (#[trigger] columns@[k])@ == Seq::new(
                        rows as nat,
                        |r: int| Tone::Background.color(),
                    ),
            decreases width - c,
        {
            let column = column_of(&empty, rows);
            assert(column@ =~= Seq::new(rows as nat, |r: int| Tone::Background.color()));
            columns.push(column);
            c += 1;
        }
        let matrix = Matrix { rows, columns };
        assert(matrix@ =~= blank(layout));
        matrix
    }

    /// A grid of the given columns, if each of them has `rows` pixels and
    /// the bytes of all pixels can be addressed.
    pub fn from_columns(columns: Vec<Vec<Color>>, rows: usize) -> (made: Option<Matrix>)
        ensures
            made is Some <==> is_grid(columns_view(columns@), columns@.len(), rows as nat)
                && columns@.len() * rows * PIXEL_BYTES <= usize::MAX,
            made matches Some(matrix) ==> matrix.wf() && matrix.rows() == rows && matrix@
                == columns_view(columns@),
    {
        let pixels = match columns.len().checked_mul(rows) {
            Some(n) => n,
            None => {
                assert(columns@.len() * rows * PIXEL_BYTES > usize::MAX) by (nonlinear_arith)
                    requires
                        columns@.len() * rows > usize::MAX,
                        PIXEL_BYTES == 4,
                ;
                return None;
            },
        };
        if pixels.checked_mul(PIXEL_BYTES).is_none() {
            return None;
        }
        let mut c: usize = 0;
        while c < columns.len()
            invariant
                c <= columns@.len(),
                forall|k: int| 0 <= k < c ==> (#[trigger] columns@[k])@.len() == rows,
            decreases columns@.len() - c,
        {
            if columns[c].len() != rows {
                assert(columns_view(columns@)[c as int].len() != rows);
                return None;
            }
            c += 1;
        }
        Some(Matrix { rows, columns })
    }

    /// The pixels of one column.
    #[verifier::when_used_as_spec(spec_rows)]
    pub fn rows(&self) -> (rows: usize)
        ensures
            rows == self.rows(),
    {
        self.rows
    }

    /// The number of columns.
    pub fn width(&self) -> (width: usize)
        ensures
            width == self@.len(),
    {
        self.columns.len()
    }

    /// The number of bytes that the pixels of the grid take.
    pub fn byte_len(&self) -> (len: usize)
        requires
            self.wf(),
        ensures
            len == self@.len() * self.rows() * PIXEL_BYTES,
    {
        let columns = self.columns.len();
        let rows = self.rows;
        assert(columns * rows <= columns * rows * PIXEL_BYTES) by (nonlinear_arith)
            requires
                PIXEL_BYTES == 4,
                0 <= columns,
                0 <= rows,
        ;
        columns * rows * PIXEL_BYTES
    }

    /// The pixel at column `c`, row `r`, if the grid has one there.
    pub fn pixel(&self, c: usize, r: usize) -> (found: Option<Color>)
        requires
            self.wf(),
        ensures
            found == if c < self@.len() && r < self.rows() {
                Some(self@[c as int][r as int])
            } else {
                None
            },
    {
        if c < self.columns.len() && r < self.rows {
            assert(self@[c as int] == self.columns@[c as int]@);
            Some(self.columns[c][r])
        } else {
            None
        }
    }

    /// The pixel at column `c`, row `r` of the grid.
    pub(crate) fn get(&self, c: usize, r: usize) -> (color: Color)
        requires
            self.wf(),
            c < self@.len(),
            r < self.rows(),
        ensures
            color == self@[c as int][r as int],
    {
        assert(self@[c as int] == self.columns@[c as int]@);
        self.columns[c][r]
    }

    /// Overwrites the grid with the composition of new samples.
    pub fn recompose(&mut self, layout: Layout, samples: &Samples)
        requires
            layout.wf(),
            samples.wf(),
        ensures
            final(self).wf(),
            final(self).fits(layout),
            final(self)@ == composed(layout, *samples),
    {
        *self = compose(layout, samples);
    }
}

} // verus!
