//! The rotator and blitter: the grid, turned by a quarter, as the bytes of a
//! frame buffer.
//!
//! The display draws a logical column as one physical row. The last logical
//! column comes first; within a physical row the logical rows follow each
//! other from the bottom up. A pixel is copied as its four bytes, unchanged.

use crate::color::Color;
use crate::layout::{Layout, PIXEL_BYTES};
use crate::matrix::Matrix;
use vstd::arithmetic::div_mod::{
    lemma_fundamental_div_mod_converse_div, lemma_fundamental_div_mod_converse_mod,
};
use vstd::prelude::*;

verus! {

/// Why a blit was refused.
#[derive(Clone, Copy, PartialEq, Eq, Structural, Debug)]
pub enum RenderError {
    /// The frame buffer has not the measures of the rotated grid.
    SizeMismatch,
}

/// The pixel that the display shows at a physical row and column: that of
/// the logical column `columns - 1 - row`, at the logical row `col`.
pub open spec fn physical_pixel(cells: Seq<Seq<Color>>, row: int, col: int) -> Color {
    cells[cells.len() - 1 - row][col]
}

/// The place of a logical cell in the frame buffer: the offset of the first
/// of its four bytes.
pub open spec fn offset(columns: nat, rows: nat, c: int, r: int) -> int {
    ((columns - 1 - c) * rows + r) * PIXEL_BYTES
}

/// The bytes of the frame buffer that shows a grid of `rows` rows: physical
/// row after physical row, `rows` pixels in each, four bytes a pixel.
pub open spec fn rotated(cells: Seq<Seq<Color>>, rows: nat) -> Seq<u8> {
    Seq::new(
        (cells.len() * rows * PIXEL_BYTES) as nat,
        |i: int|
            physical_pixel(
                cells,
                (i / (PIXEL_BYTES as int)) / (rows as int),
                (i / (PIXEL_BYTES as int)) % (rows as int),
            ).channel(i % (PIXEL_BYTES as int)),
    )
}

/// Byte `k` of the pixel at a physical row and column lies at
/// `(row * rows + col) * 4 + k`, and that place lies within the buffer.
pub proof fn lemma_address(columns: nat, rows: nat, row: int, col: int, k: int)
    requires
        0 <= row < columns,
        0 <= col < rows,
        0 <= k < PIXEL_BYTES,
    ensures
        ({
            let i = (row * rows + col) * PIXEL_BYTES + k;
            &&& 0 <= i < columns * rows * PIXEL_BYTES
            &&& i / (PIXEL_BYTES as int) == row * rows + col
            &&& i % (PIXEL_BYTES as int) == k
            &&& (i / (PIXEL_BYTES as int)) / (rows as int) == row
            &&& (i / (PIXEL_BYTES as int)) % (rows as int) == col
        }),
{
    let p = row * rows + col;
    assert(0 <= p < columns * rows) by (nonlinear_arith)
        requires
            0 <= row < columns,
            0 <= col < rows,
            p == row * rows + col,
    ;
    lemma_fundamental_div_mod_converse_div(p, rows as int, row, col);
    lemma_fundamental_div_mod_converse_mod(p, rows as int, row, col);
}

/// The rotation is exact: the four bytes of the logical cell at column `c`,
/// row `r` stand in the frame buffer at physical row `columns - 1 - c`,
/// physical column `r`.
pub proof fn lemma_rotation_places_cell(cells: Seq<Seq<Color>>, rows: nat, c: int, r: int, k: int)
    requires
        0 <= c < cells.len(),
        0 <= r < rows,
        0 <= k < PIXEL_BYTES,
    ensures
        0 <= offset(cells.len(), rows, c, r) + k < rotated(cells, rows).len(),
        rotated(cells, rows)[offset(cells.len(), rows, c, r) + k] == cells[c][r].channel(k),
{
    lemma_address(cells.len(), rows, cells.len() - 1 - c, r, k);
}

/// Read the other way: every physical pixel shows the logical cell
/// `(columns - 1 - physical row, physical column)`.
pub proof fn lemma_rotation_shows_cell(cells: Seq<Seq<Color>>, rows: nat, row: int, col: int, k: int)
    requires
        0 <= row < cells.len(),
        0 <= col < rows,
        0 <= k < PIXEL_BYTES,
    ensures
        0 <= (row * rows + col) * PIXEL_BYTES + k < rotated(cells, rows).len(),
        rotated(cells, rows)[(row * rows + col) * PIXEL_BYTES + k] == cells[cells.len() - 1
            - row][col].channel(k),
{
    lemma_address(cells.len(), rows, row, col, k);
}

/// A flat buffer of RGBA pixels in row-major order, `width` pixels in each of
/// `height` rows.
#[derive(Clone, PartialEq, Eq, Debug)]
pub struct FrameBuffer {
    width: usize,
    height: usize,
    data: Vec<u8>,
}

impl View for FrameBuffer {
    type V = Seq<u8>;

    closed spec fn view(&self) -> Seq<u8> {
        self.data@
    }
}

impl FrameBuffer {
    /// The pixels of one physical row.
    pub closed spec fn spec_width(&self) -> usize {
        self.width
    }

    /// The physical rows.
    pub closed spec fn spec_height(&self) -> usize {
        self.height
    }

    /// The buffer holds four bytes for each of its pixels.
    pub open spec fn wf(self) -> bool {
        self@.len() == self.width() * self.height() * PIXEL_BYTES
    }

    /// A buffer of the given measures with every byte nought, if its length
    /// can be addressed.
    pub fn new(width: usize, height: usize) -> (made: Option<FrameBuffer>)
        ensures
            made is Some <==> width * height * PIXEL_BYTES <= usize::MAX,
            made matches Some(frame) ==> frame.wf() && frame.width() == width && frame.height()
                == height && forall|i: int| 0 <= i < frame@.len() ==> frame@[i] == 0,
    {
        let pixels = match width.checked_mul(height) {
            Some(n) => n,
            None => {
                assert(width * height * PIXEL_BYTES > usize::MAX) by (nonlinear_arith)
                    requires
                        width * height > usize::MAX,
                        PIXEL_BYTES == 4,
                ;
                return None;
            },
        };
        match pixels.checked_mul(PIXEL_BYTES) {
            Some(len) => Some(FrameBuffer { width, height, data: zeroed(len) }),
            None => None,
        }
    }

    /// A buffer for the rotated grid of a layout: as wide as the grid is
    /// high, and as high as the grid is wide.
    pub fn for_layout(layout: Layout) -> (frame: FrameBuffer)
        requires
            layout.wf(),
        ensures
            frame.wf(),
            frame.width() == layout.rows(),
            frame.height() == layout.columns(),
            forall|i: int| 0 <= i < frame@.len() ==> frame@[i] == 0,
    {
        let width = layout.height();
        let height = layout.width();
        assert(width * height * PIXEL_BYTES == height * width * PIXEL_BYTES) by (nonlinear_arith);
        FrameBuffer { width, height, data: zeroed(layout.byte_len()) }
    }

    /// The pixels of one physical row.
    #[verifier::when_used_as_spec(spec_width)]
    pub fn width(&self) -> (w: usize)
        ensures
            w == self.width(),
    {
        self.width
    }

    /// The physical rows.
    #[verifier::when_used_as_spec(spec_height)]
    pub fn height(&self) -> (h: usize)
        ensures
            h == self.height(),
    {
        self.height
    }

    /// The bytes of the buffer.
    pub fn bytes(&self) -> (bytes: &Vec<u8>)
        ensures
            bytes@ == self@,
    {
        &self.data
    }

    /// The pixel at a physical row and column, if the buffer has one there.
    pub fn pixel(&self, row: usize, col: usize) -> (found: Option<Color>)
        requires
            self.wf(),
        ensures
            found == if row < self.height() && col < self.width() {
                let at = (row * self.width() + col) * PIXEL_BYTES;
                Some(
                    Color {
                        r: self@[at],
                        g: self@[at + 1],
                        b: self@[at + 2],
                        a: self@[at + 3],
                    },
                )
            } else {
                None
            },
    {
        if row < self.height && col < self.width {
            proof {
                lemma_address(self.height as nat, self.width as nat, row as int, col as int, 0);
                lemma_address(self.height as nat, self.width as nat, row as int, col as int, 3);
                assert(self.width * self.height == self.height * self.width) by (nonlinear_arith);
                assert(0 <= row * self.width) by (nonlinear_arith);
                assert(self.data.len() == self@.len());
            }
            let at = (row * self.width + col) * PIXEL_BYTES;
            Some(
                Color {
                    r: self.data[at],
                    g: self.data[at + 1],
                    b: self.data[at + 2],
                    a: self.data[at + 3],
                },
            )
        } else {
            None
        }
    }
}

/// `len` bytes of nought.
fn zeroed(len: usize) -> (data: Vec<u8>)
    ensures
        data@.len() == len,
        forall|i: int| 0 <= i < len ==> data@[i] == 0,
{
    let mut data: Vec<u8> = Vec::new();
    let mut i: usize = 0;
    while i < len
        invariant
            i <= len,
            data@.len() == i,
            forall|j: int| 0 <= j < i ==> data@[j] == 0,
        decreases len - i,
    {
        data.push(0);
        i += 1;
    }
    data
}

/// Writes the grid, turned by a quarter, over bytes that have its length.
fn copy_rotated(matrix: &Matrix, data: &mut Vec<u8>)
    requires
        matrix.wf(),
        old(data)@.len() == matrix@.len() * matrix.rows() * PIXEL_BYTES,
    ensures
        final(data)@ == rotated(matrix@, matrix.rows() as nat),
{
    let columns = matrix.width();
    let rows = matrix.rows();
    let ghost want = rotated(matrix@, rows as nat);
    let mut row: usize = 0;
    while row < columns
        invariant
            row <= columns,
            matrix.wf(),
            columns == matrix@.len(),
            rows == matrix.rows(),
            want == rotated(matrix@, rows as nat),
            data@.len() == want.len(),
            want.len() == columns * rows * PIXEL_BYTES,
            forall|i: int| 0 <= i < row * rows * PIXEL_BYTES ==> data@[i] == want[i],
        decreases columns - row,
    {
        let c = columns - 1 - row;
        let mut col: usize = 0;
        while col < rows
            invariant
                col <= rows,
                row < columns,
                c == columns - 1 - row,
                matrix.wf(),
                columns == matrix@.len(),
                rows == matrix.rows(),
                want == rotated(matrix@, rows as nat),
                data@.len() == want.len(),
                want.len() == columns * rows * PIXEL_BYTES,
                forall|i: int| 0 <= i < (row * rows + col) * PIXEL_BYTES ==> data@[i] == want[i],
            decreases rows - col,
        {
            let color = matrix.get(c, col);
            proof {
                lemma_address(columns as nat, rows as nat, row as int, col as int, 0);
                lemma_address(columns as nat, rows as nat, row as int, col as int, 1);
                lemma_address(columns as nat, rows as nat, row as int, col as int, 2);
                lemma_address(columns as nat, rows as nat, row as int, col as int, 3);
                assert(0 <= row * rows) by (nonlinear_arith);
            }
            let at = (row * rows + col) * PIXEL_BYTES;
            data.set(at, color.r);
            data.set(at + 1, color.g);
            data.set(at + 2, color.b);
            data.set(at + 3, color.a);
            col += 1;
        }
        assert((row * rows + rows) * PIXEL_BYTES == (row + 1) * rows * PIXEL_BYTES)
            by (nonlinear_arith);
        row += 1;
    }
    assert(data@ =~= want);
}

/// Copies the grid, turned by a quarter, into the frame buffer. The buffer
/// must be as wide as the grid is high and as high as the grid is wide;
/// one of other measures is refused and left as it is.
pub fn blit(matrix: &Matrix, frame: &mut FrameBuffer) -> (done: Result<(), RenderError>)
    requires
        matrix.wf(),
        old(frame).wf(),
    ensures
        final(frame).wf(),
        final(frame).width() == old(frame).width(),
        final(frame).height() == old(frame).height(),
        done is Ok <==> old(frame).width() == matrix.rows() && old(frame).height()
            == matrix@.len(),
        done is Ok ==> final(frame)@ == rotated(matrix@, matrix.rows() as nat),
        done is Err ==> final(frame)@ == old(frame)@,
{
    if frame.width != matrix.rows() || frame.height != matrix.width() {
        return Err(RenderError::SizeMismatch);
    }
    assert(frame.width * frame.height * PIXEL_BYTES == frame.height * frame.width * PIXEL_BYTES)
        by (nonlinear_arith);
    copy_rotated(matrix, &mut frame.data);
    Ok(())
}

/// The grid, turned by a quarter, as a stream of pixels of four bytes each.
pub fn rotate(matrix: &Matrix) -> (stream: Vec<u8>)
    requires
        matrix.wf(),
    ensures
        stream@ == rotated(matrix@, matrix.rows() as nat),
{
    let mut stream = zeroed(matrix.byte_len());
    copy_rotated(matrix, &mut stream);
    stream
}

} // verus!
