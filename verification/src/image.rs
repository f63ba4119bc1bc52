//! The pixel buffer and its plain-text image serialization.
//!
//! A cell of the buffer is a display color whose three channels are already
//! quantized to the integers that the text format prints; the floating-point
//! shading that produces those integers stays outside the library. The
//! serialization contract pins the output text exactly: the header
//! `P3 <width> <height> 255\n`, then every pixel in row-major order as three
//! space-separated channel values, each followed by a single space.

use vstd::prelude::*;

use crate::text::{decimal, push_decimal};

verus! {

/// A display color: red, green and blue channel values as the integers that
/// the plain-text image format prints (ordinarily in `0..=255`).
#[derive(Clone, Copy, PartialEq, Eq, Structural, Debug)]
pub struct Rgb {
    pub r: u32,
    pub g: u32,
    pub b: u32,
}

/// The text of one pixel: the three channel values in decimal, each followed
/// by one space.
pub open spec fn pixel_text(c: Rgb) -> Seq<char> {
    decimal(c.r as nat) + seq![' '] + decimal(c.g as nat) + seq![' '] + decimal(c.b as nat)
        + seq![' ']
}

/// The text of one row of pixels, left to right.
pub open spec fn row_text(row: Seq<Rgb>) -> Seq<char>
    decreases row.len(),
{
    if row.len() == 0 {
        Seq::empty()
    } else {
        row_text(row.drop_last()) + pixel_text(row.last())
    }
}

/// The text of all rows, first row first.
pub open spec fn rows_text(rows: Seq<Seq<Rgb>>) -> Seq<char>
    decreases rows.len(),
{
    if rows.len() == 0 {
        Seq::empty()
    } else {
        rows_text(rows.drop_last()) + row_text(rows.last())
    }
}

/// The header line of the text image format: `P3 <width> <height> 255\n`.
pub open spec fn header_text(width: nat, height: nat) -> Seq<char> {
    seq!['P', '3', ' '] + decimal(width) + seq![' '] + decimal(height) + seq![
        ' ',
        '2',
        '5',
        '5',
        '\n',
    ]
}

/// The whole serialized image: header, then every pixel in row-major order.
/// The width printed in the header is the length of the first row.
pub open spec fn ppm_text(rows: Seq<Seq<Rgb>>) -> Seq<char> {
    header_text(rows[0].len(), rows.len()) + rows_text(rows)
}

impl Rgb {
    pub fn new(r: u32, g: u32, b: u32) -> (c: Rgb)
        ensures
            c == (Rgb { r, g, b }),
    {
        Rgb { r, g, b }
    }

    /// The black pixel that a fresh buffer is filled with.
    pub fn new_zero() -> (c: Rgb)
        ensures
            c == (Rgb { r: 0, g: 0, b: 0 }),
    {
        Rgb { r: 0, g: 0, b: 0 }
    }

    /// The text of this pixel, exactly as the serialized image holds it.
    pub fn write_pixel(&self) -> (s: String)
        ensures
            s@ == pixel_text(*self),
    {
        let mut s = String::new();
        push_decimal(&mut s, self.r as u64);
        s.append(" ");
        push_decimal(&mut s, self.g as u64);
        s.append(" ");
        push_decimal(&mut s, self.b as u64);
        s.append(" ");
        proof {
            reveal_strlit(" ");
            assert(" "@ =~= seq![' ']);
            assert(s@ =~= pixel_text(*self));
        }
        s
    }
}

/// The image height that a width and an aspect ratio determine:
/// `width / (aspect_num / aspect_den)`, truncated to a whole number of rows.
/// The aspect ratio is passed as an exact fraction (16:9 is `16, 9`), so the
/// truncation is the integer one, `width * aspect_den / aspect_num`.
pub fn derived_height(width: u32, aspect_num: u32, aspect_den: u32) -> (h: u32)
    requires
        aspect_num > 0,
        width * aspect_den / (aspect_num as int) <= u32::MAX,
    ensures
        h == width * aspect_den / (aspect_num as int),
{
    proof {
        assert((width as int) * (aspect_den as int) <= 0xffff_ffff * 0xffff_ffff)
            by (nonlinear_arith)
            requires
                width <= 0xffff_ffffu32,
                aspect_den <= 0xffff_ffffu32,
        ;
    }
    ((width as u64) * (aspect_den as u64) / (aspect_num as u64)) as u32
}

/// The rendered image: a grid of colors, indexed by row and then by column.
pub struct Pixels {
    pub pixels: Vec<Vec<Rgb>>,
}

impl View for Pixels {
    type V = Seq<Seq<Rgb>>;

    open spec fn view(&self) -> Seq<Seq<Rgb>> {
        self.pixels@.map_values(|row: Vec<Rgb>| row@)
    }
}

impl Pixels {
    /// A `height` by `width` buffer with every cell black.
    pub fn new(width: usize, height: usize) -> (img: Pixels)
        ensures
            img@.len() == height,
            forall|y: int| 0 <= y < height ==> img@[y].len() == width,
            forall|y: int, x: int|
                0 <= y < height && 0 <= x < width ==> img@[y][x] == (Rgb { r: 0, g: 0, b: 0 }),
    {
        let mut pixels: Vec<Vec<Rgb>> = Vec::new();
        let mut y: usize = 0;
        while y < height
            invariant
                y <= height,
                pixels@.len() == y,
                forall|i: int| 0 <= i < y ==> pixels@[i]@.len() == width,
                forall|i: int, j: int|
                    0 <= i < y && 0 <= j < width ==> pixels@[i]@[j] == (Rgb { r: 0, g: 0, b: 0 }),
            decreases height - y,
        {
            let mut row: Vec<Rgb> = Vec::new();
            let mut x: usize = 0;
            while x < width
                invariant
                    x <= width,
                    row@.len() == x,
                    forall|j: int| 0 <= j < x ==> row@[j] == (Rgb { r: 0, g: 0, b: 0 }),
                decreases width - x,
            {
                row.push(Rgb::new_zero());
                x = x + 1;
            }
            pixels.push(row);
            y = y + 1;
        }
        Pixels { pixels }
    }

    /// Writes one cell: column `x` of row `y`.
    pub fn set_pixel(&mut self, x: usize, y: usize, color: Rgb)
        requires
            y < old(self)@.len(),
            x < old(self)@[y as int].len(),
        ensures
            final(self)@ == old(self)@.update(
                y as int,
                old(self)@[y as int].update(x as int, color),
            ),
    {
        self.pixels[y][x] = color;
        proof {
            assert(self@ =~= old(self)@.update(
                y as int,
                old(self)@[y as int].update(x as int, color),
            ));
        }
    }

    /// Replaces row `y` wholesale. The parallel benchmark passes render each
    /// row into a private buffer of its own; a caller that wants the canonical
    /// image to reflect such a pass writes the row buffers back with this.
    pub fn set_row(&mut self, y: usize, row: Vec<Rgb>)
        requires
            y < old(self)@.len(),
            row@.len() == old(self)@[y as int].len(),
        ensures
            final(self)@ == old(self)@.update(y as int, row@),
    {
        self.pixels[y] = row;
        proof {
            assert(self@ =~= old(self)@.update(y as int, row@));
        }
    }

    /// Serializes the buffer to the plain-text image format: the result is
    /// exactly [`ppm_text`] of the grid. The header takes its width from the
    /// first row, so the buffer may not be empty.
    pub fn write(&self) -> (s: String)
        requires
            self@.len() > 0,
        ensures
            s@ == ppm_text(self@),
    {
        let width = self.pixels[0].len();
        let height = self.pixels.len();
        let mut s = String::new();
        s.append("P3 ");
        push_decimal(&mut s, width as u64);
        s.append(" ");
        push_decimal(&mut s, height as u64);
        s.append(" 255\n");
        proof {
            reveal_strlit("P3 ");
            reveal_strlit(" ");
            reveal_strlit(" 255\n");
            assert(s@ =~= header_text(width as nat, height as nat));
        }
        let mut y: usize = 0;
        while y < height
            invariant
                y <= height,
                height == self@.len(),
                width == self@[0].len(),
                s@ == header_text(width as nat, height as nat) + rows_text(self@.take(y as int)),
            decreases height - y,
        {
            let row_len = self.pixels[y].len();
            let mut x: usize = 0;
            while x < row_len
                invariant
                    x <= row_len,
                    y < self@.len(),
                    height == self@.len(),
                    width == self@[0].len(),
                    row_len == self@[y as int].len(),
                    s@ == header_text(width as nat, height as nat) + rows_text(
                        self@.take(y as int),
                    ) + row_text(self@[y as int].take(x as int)),
                decreases row_len - x,
            {
                let p = self.pixels[y][x];
                let t = p.write_pixel();
                s.append(t.as_str());
                proof {
                    let r = self@[y as int];
                    assert(r.take(x + 1).drop_last() =~= r.take(x as int));
                    assert(r.take(x + 1).last() == r[x as int]);
                    assert(s@ =~= header_text(width as nat, height as nat) + rows_text(
                        self@.take(y as int),
                    ) + row_text(r.take(x + 1)));
                }
                x = x + 1;
            }
            proof {
                assert(self@[y as int].take(row_len as int) =~= self@[y as int]);
                assert(self@.take(y + 1).drop_last() =~= self@.take(y as int));
                assert(self@.take(y + 1).last() == self@[y as int]);
                assert(s@ =~= header_text(width as nat, height as nat) + rows_text(
                    self@.take(y + 1),
                ));
            }
            y = y + 1;
        }
        proof {
            assert(self@.take(height as int) =~= self@);
            assert(s@ =~= ppm_text(self@));
        }
        s
    }
}

} // verus!
