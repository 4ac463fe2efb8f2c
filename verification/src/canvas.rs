//! A fixed-size pixel grid of colors, default-initialized to black,
//! that serializes to the plain-text image format: a three-line header
//! (`P3`, the dimensions, `255`), then one line per pixel row, top row
//! first, each a single space-separated run of integer triples.

use vstd::prelude::*;

use vstd::string::StringExecFns;

use crate::color::{color_text, Color};
use crate::float::Float;
use crate::fp::ZERO_BITS;
use crate::text::{dec_nat, u64_dec};

verus! {

/// The mathematical shape of a canvas: its dimensions and its row-major
/// grid of colors.
pub struct CanvasShape {
    pub width: nat,
    pub height: nat,
    pub pixels: Seq<(u64, u64, u64)>,
}

/// The pixel at column x of row y.
pub open spec fn pixel(v: CanvasShape, x: int, y: int) -> (u64, u64, u64) {
    v.pixels[y * v.width + x]
}

/// The text of row y up to column x: the pixels' texts joined by single
/// spaces.
pub open spec fn row_prefix(v: CanvasShape, y: int, x: int) -> Seq<char>
    decreases x,
{
    if x <= 0 {
        Seq::empty()
    } else {
        row_prefix(v, y, x - 1) + (if x - 1 > 0 {
            seq![' ']
        } else {
            Seq::<char>::empty()
        }) + color_text(pixel(v, x - 1, y))
    }
}

/// The text of the first y rows, each a full row line ended by a
/// newline.
pub open spec fn rows_prefix(v: CanvasShape, y: int) -> Seq<char>
    decreases y,
{
    if y <= 0 {
        Seq::empty()
    } else {
        rows_prefix(v, y - 1) + row_prefix(v, y - 1, v.width as int) + seq!['\n']
    }
}

/// The three header lines: `P3`, the width and height, and the maximum
/// channel value 255, each ended by a newline.
pub open spec fn header_text(v: CanvasShape) -> Seq<char> {
    seq!['P', '3', '\n'] + dec_nat(v.width as int) + seq![' '] + dec_nat(v.height as int)
        + seq!['\n'] + seq!['2', '5', '5', '\n']
}

/// The whole image text: the header, then every row.
pub open spec fn ppm_text(v: CanvasShape) -> Seq<char> {
    header_text(v) + rows_prefix(v, v.height as int)
}

/// A canvas: a width-by-height grid of colors, stored row-major.
pub struct Canvas {
    data: Vec<Color>,
    width: usize,
    height: usize,
}

impl View for Canvas {
    type V = CanvasShape;

    closed spec fn view(&self) -> CanvasShape {
        CanvasShape {
            width: self.width as nat,
            height: self.height as nat,
            pixels: Seq::new(self.data@.len(), |i: int| self.data@[i]@),
        }
    }
}

impl Canvas {
    /// The stored pixels cover the grid exactly.  The constructor
    /// establishes this and every method preserves it.
    pub closed spec fn wf(&self) -> bool {
        self.data@.len() == self.width * self.height
    }

    /// Builds a width-by-height canvas with every pixel black.
    pub fn new(width: usize, height: usize) -> (r: Canvas)
        requires
            width * height <= usize::MAX,
        ensures
            r.wf(),
            r@.width == width,
            r@.height == height,
            forall|i: int|
                0 <= i < width * height ==> #[trigger] r@.pixels[i] == (
                    ZERO_BITS,
                    ZERO_BITS,
                    ZERO_BITS,
                ),
    {
        let total = width * height;
        let mut data: Vec<Color> = Vec::new();
        let mut i: usize = 0;
        while i < total
            invariant
                i <= total,
                data@.len() == i,
                forall|k: int|
                    0 <= k < i ==> #[trigger] data@[k]@ == (ZERO_BITS, ZERO_BITS, ZERO_BITS),
            decreases total - i,
        {
            data.push(
                Color::new(Float::new(ZERO_BITS), Float::new(ZERO_BITS), Float::new(ZERO_BITS)),
            );
            i = i + 1;
        }
        Canvas { data, width, height }
    }

    /// The width of the grid.
    pub fn width(&self) -> (r: usize)
        ensures
            r == self@.width,
    {
        self.width
    }

    /// The height of the grid.
    pub fn height(&self) -> (r: usize)
        ensures
            r == self@.height,
    {
        self.height
    }

    /// The pixel at (x, y).  A position outside the grid is a
    /// programmer error: the caller must stay inside the dimensions.
    pub fn pixel_at(&self, x: usize, y: usize) -> (r: &Color)
        requires
            self.wf(),
            x < self@.width,
            y < self@.height,
        ensures
            r@ == pixel(self@, x as int, y as int),
    {
        proof {
            lemma_flat_index(self@.width as int, self@.height as int, x as int, y as int);
        }
        let _len = self.data.len();
        &self.data[y * self.width + x]
    }

    /// Replaces the pixel at (x, y) and hands back the color that was
    /// there.  A position outside the grid is a programmer error.
    pub fn write_pixel(&mut self, x: usize, y: usize, c: Color) -> (r: Color)
        requires
            old(self).wf(),
            x < old(self)@.width,
            y < old(self)@.height,
        ensures
            final(self).wf(),
            final(self)@.width == old(self)@.width,
            final(self)@.height == old(self)@.height,
            final(self)@.pixels == old(self)@.pixels.update(
                y * old(self)@.width + x,
                c@,
            ),
            r@ == pixel(old(self)@, x as int, y as int),
    {
        proof {
            lemma_flat_index(self@.width as int, self@.height as int, x as int, y as int);
        }
        let _len = self.data.len();
        let idx = y * self.width + x;
        let prev = self.data[idx];
        self.data.set(idx, c);
        proof {
            assert(final(self)@.pixels =~= old(self)@.pixels.update(
                y * old(self)@.width + x,
                c@,
            ));
        }
        prev
    }

    /// Serializes the canvas to the plain-text image format, exactly as
    /// `ppm_text` states it: the header, then one line per row, top row
    /// first.  Writing the text anywhere is the caller's business; this
    /// only builds it.
    pub fn save(&self) -> (r: String)
        requires
            self.wf(),
        ensures
            r@ == ppm_text(self@),
    {
        proof {
            reveal_strlit("P3\n");
            reveal_strlit(" ");
            reveal_strlit("\n255\n");
            reveal_strlit("\n");
        }
        let mut out = String::from_str("P3\n");
        out.append(u64_dec(self.width as u64).as_str());
        out.append(" ");
        out.append(u64_dec(self.height as u64).as_str());
        out.append("\n255\n");
        proof {
            assert(out@ =~= header_text(self@));
        }
        let mut y: usize = 0;
        while y < self.height
            invariant
                self.wf(),
                y <= self@.height,
                out@ == header_text(self@) + rows_prefix(self@, y as int),
            decreases self@.height - y,
        {
            let mut line = String::new();
            let mut x: usize = 0;
            while x < self.width
                invariant
                    self.wf(),
                    y < self@.height,
                    x <= self@.width,
                    line@ == row_prefix(self@, y as int, x as int),
                decreases self@.width - x,
            {
                proof {
                    reveal_strlit(" ");
                }
                if x > 0 {
                    line.append(" ");
                }
                let pix_text = self.pixel_at(x, y).to_255();
                line.append(pix_text.as_str());
                proof {
                    assert(line@ =~= row_prefix(self@, y as int, x as int + 1));
                }
                x = x + 1;
            }
            proof {
                reveal_strlit("\n");
            }
            out.append(line.as_str());
            out.append("\n");
            proof {
                assert(out@ =~= header_text(self@) + rows_prefix(self@, y as int + 1));
            }
            y = y + 1;
        }
        out
    }
}

/// Row-major indexing stays inside the grid: with x < width and
/// y < height, the index y * width + x lies below width * height.
proof fn lemma_flat_index(width: int, height: int, x: int, y: int)
    requires
        0 <= x < width,
        0 <= y < height,
    ensures
        0 <= y * width + x < width * height,
{
    assert(y * width + x < height * width) by (nonlinear_arith)
        requires
            0 <= y < height,
            0 <= x < width,
    ;
    assert(0 <= y * width) by (nonlinear_arith)
        requires
            0 <= y,
            0 <= width,
    ;
    vstd::arithmetic::mul::lemma_mul_is_commutative(width, height);
}

} // verus!
