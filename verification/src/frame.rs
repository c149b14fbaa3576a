//! Decoded frames and their rendering into a grid of terminal cells.
//!
//! A frame is a rectangular pixel buffer in the channel order the decode
//! collaborator delivers: blue, green, red, one byte each, row-major.
//! Rendering turns every pixel into one cell: a glyph picked by brightness
//! and, in color mode, the id of the nearest palette entry.

use vstd::prelude::*;

use crate::color256::{Color256, Rgb, nearest_at, spec_brightness};
use crate::glyph::{GlyphMapper, spec_glyph_index};

verus! {

/// One decoded video frame: `width * height` pixels, three bytes per pixel
/// in blue-green-red order, rows stored top to bottom.
#[derive(Debug)]
pub struct Frame {
    pub width: usize,
    pub height: usize,
    pub data: Vec<u8>,
}

impl Frame {
    /// Buffer invariant: exactly three bytes for every pixel.
    pub open spec fn wf(&self) -> bool {
        self.data@.len() == self.width * self.height * 3
    }

    /// The color of the pixel at column `x`, row `y`, converted from the
    /// stored blue-green-red byte order.
    pub open spec fn spec_pixel(&self, x: int, y: int) -> Rgb {
        Rgb {
            r: self.data@[(y * self.width + x) * 3 + 2],
            g: self.data@[(y * self.width + x) * 3 + 1],
            b: self.data@[(y * self.width + x) * 3],
        }
    }

    /// Wraps a pixel buffer; refuses one whose length does not match the
    /// dimensions.
    pub fn new(width: usize, height: usize, data: Vec<u8>) -> (r: Option<Frame>)
        ensures
            r is Some <==> data@.len() == width * height * 3,
            r is Some ==> r.unwrap() == (Frame { width, height, data }),
    {
        let n = data.len();
        let count = match width.checked_mul(height) {
            Some(p) => match p.checked_mul(3) {
                Some(c) => c,
                None => {
                    return None;
                },
            },
            None => {
                proof {
                    assert(width * height * 3 >= width * height) by (nonlinear_arith);
                }
                return None;
            },
        };
        if n == count {
            Some(Frame { width, height, data })
        } else {
            None
        }
    }

    /// Reads one pixel as an RGB color.
    pub fn pixel(&self, x: usize, y: usize) -> (c: Rgb)
        requires
            self.wf(),
            x < self.width,
            y < self.height,
        ensures
            c == self.spec_pixel(x as int, y as int),
    {
        let n = self.data.len();
        proof {
            assert(y * self.width + x < self.width * self.height && (y * self.width + x) * 3
                + 2 < self.width * self.height * 3) by (nonlinear_arith)
                requires
                    x < self.width,
                    y < self.height,
            ;
        }
        let base: usize = (y * self.width + x) * 3;
        Rgb { r: self.data[base + 2], g: self.data[base + 1], b: self.data[base] }
    }
}

/// One cell of terminal output: a glyph and, in color mode, the palette id
/// to style it with (`None` in greyscale mode).
#[derive(Clone, Copy, Debug)]
pub struct TerminalCell {
    pub glyph: char,
    pub color: Option<u8>,
}

/// What rendering owes each cell: the glyph the ramp assigns to the pixel's
/// brightness, and in color mode the id of some nearest palette entry under
/// the first-minimal tie-break (`nearest_at` pins that entry uniquely).
pub open spec fn cell_ok(
    cell: TerminalCell,
    pix: Rgb,
    palette: Color256,
    mapper: GlyphMapper,
    colored: bool,
) -> bool {
    &&& cell.glyph == mapper.ramp@[spec_glyph_index(
        spec_brightness(pix) as u8,
        mapper.ramp@.len() as int,
    )]
    &&& if colored {
        exists|i: int|
            #[trigger] nearest_at(palette.colors@, pix, i) && cell.color == Some(
                palette.colors@[i].id,
            )
    } else {
        cell.color is None
    }
}

/// Renders a frame into a grid of terminal cells, one cell per pixel, rows
/// top to bottom. In color mode each cell carries the id of the nearest
/// palette entry; in greyscale mode the palette is bypassed.
pub fn render_frame(
    frame: &Frame,
    palette: &Color256,
    mapper: &GlyphMapper,
    colored: bool,
) -> (grid: Vec<Vec<TerminalCell>>)
    requires
        frame.wf(),
        palette.wf(),
        mapper.wf(),
    ensures
        grid@.len() == frame.height,
        forall|y: int| 0 <= y < grid@.len() ==> #[trigger] grid@[y]@.len() == frame.width,
        forall|y: int, x: int|
            0 <= y < grid@.len() && 0 <= x < grid@[y]@.len() ==> cell_ok(
                #[trigger] grid@[y]@[x],
                frame.spec_pixel(x, y),
                *palette,
                *mapper,
                colored,
            ),
{
    let mut grid: Vec<Vec<TerminalCell>> = Vec::new();
    let mut y: usize = 0;
    while y < frame.height
        invariant
            frame.wf(),
            palette.wf(),
            mapper.wf(),
            y <= frame.height,
            grid@.len() == y,
            forall|r: int| 0 <= r < y ==> #[trigger] grid@[r]@.len() == frame.width,
            forall|r: int, x: int|
                0 <= r < y && 0 <= x < frame.width ==> cell_ok(
                    #[trigger] grid@[r]@[x],
                    frame.spec_pixel(x, r),
                    *palette,
                    *mapper,
                    colored,
                ),
        decreases frame.height - y,
    {
        let mut row: Vec<TerminalCell> = Vec::new();
        let mut x: usize = 0;
        while x < frame.width
            invariant
                frame.wf(),
                palette.wf(),
                mapper.wf(),
                y < frame.height,
                x <= frame.width,
                row@.len() == x,
                forall|c: int|
                    0 <= c < x ==> cell_ok(
                        #[trigger] row@[c],
                        frame.spec_pixel(c, y as int),
                        *palette,
                        *mapper,
                        colored,
                    ),
            decreases frame.width - x,
        {
            let pix = frame.pixel(x, y);
            let glyph = mapper.glyph_for(pix.brightness());
            let color = if colored {
                Some(palette.approx_from_rgb(&pix).id)
            } else {
                None
            };
            row.push(TerminalCell { glyph, color });
            x += 1;
        }
        grid.push(row);
        y += 1;
    }
    grid
}

/// The glyphs of one grid row, in order.
pub open spec fn row_glyphs(row: Seq<TerminalCell>) -> Seq<char> {
    row.map_values(|c: TerminalCell| c.glyph)
}

/// The plain-text form of a grid: rows of glyphs joined by a line break
/// between consecutive rows, with no break after the final row.
pub open spec fn spec_compose(rows: Seq<Seq<TerminalCell>>) -> Seq<char>
    decreases rows.len(),
{
    if rows.len() == 0 {
        Seq::empty()
    } else if rows.len() == 1 {
        row_glyphs(rows[0])
    } else {
        spec_compose(rows.drop_last()) + seq!['\n'] + row_glyphs(rows.last())
    }
}

/// Flattens a grid into the character stream the terminal receives in
/// greyscale mode: each row left to right, a line break between rows but not
/// after the last one.
pub fn compose_plain(grid: &Vec<Vec<TerminalCell>>) -> (out: Vec<char>)
    ensures
        out@ == spec_compose(grid@.map_values(|row: Vec<TerminalCell>| row@)),
{
    let ghost rows = grid@.map_values(|row: Vec<TerminalCell>| row@);
    let mut out: Vec<char> = Vec::new();
    let mut y: usize = 0;
    while y < grid.len()
        invariant
            rows == grid@.map_values(|row: Vec<TerminalCell>| row@),
            y <= grid@.len(),
            out@ == spec_compose(rows.take(y as int)),
        decreases grid@.len() - y,
    {
        if y > 0 {
            out.push('\n');
        }
        let row = &grid[y];
        let mut x: usize = 0;
        let ghost before = out@;
        while x < row.len()
            invariant
                x <= row@.len(),
                out@ == before + row_glyphs(rows[y as int]).take(x as int),
                rows[y as int] == row@,
            decreases row@.len() - x,
        {
            out.push(row[x].glyph);
            proof {
                assert(row_glyphs(rows[y as int]).take(x + 1) =~= row_glyphs(
                    rows[y as int],
                ).take(x as int) + seq![row@[x as int].glyph]);
            }
            x += 1;
        }
        proof {
            assert(row_glyphs(rows[y as int]).take(row@.len() as int) =~= row_glyphs(
                rows[y as int],
            ));
            let t = rows.take(y + 1);
            assert(t.drop_last() =~= rows.take(y as int));
            assert(t.last() == rows[y as int]);
            if y == 0 {
                assert(spec_compose(rows.take(0)) == Seq::<char>::empty());
                assert(out@ =~= spec_compose(t));
            } else {
                assert(out@ =~= spec_compose(rows.take(y as int)) + seq!['\n'] + row_glyphs(
                    rows[y as int],
                ));
            }
        }
        y += 1;
    }
    proof {
        assert(rows.take(rows.len() as int) =~= rows);
    }
    out
}

} // verus!
