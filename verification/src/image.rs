//! The output buffer of a render, and its plain-text file format.

use crate::decimal::{decimal, push_decimal};
use crate::pixel::{pix_text, Pix};
use vstd::prelude::*;
use vstd::string::StringExecFns;

verus! {

/// A rectangle of pixels, stored row by row from the top.
pub struct Image {
    pub width: usize,
    pub height: usize,
    pub pixels: Vec<Vec<Pix>>,
}

/// The text of the pixels of one row, one line for each pixel.
pub open spec fn row_text(row: Seq<Pix>) -> Seq<char>
    decreases row.len(),
{
    if row.len() == 0 {
        Seq::empty()
    } else {
        row_text(row.drop_last()) + pix_text(row.last())
    }
}

/// The text of the pixels of all rows, top row first.
pub open spec fn rows_text(rows: Seq<Seq<Pix>>) -> Seq<char>
    decreases rows.len(),
{
    if rows.len() == 0 {
        Seq::empty()
    } else {
        rows_text(rows.drop_last()) + row_text(rows.last())
    }
}

/// The head of a plain-text image file: the format's name, the width and the
/// height, and the largest channel value.
pub open spec fn p3_header(width: nat, height: nat) -> Seq<char> {
    seq!['P', '3', '\n'] + decimal(width) + seq![' '] + decimal(height) + seq![
        '\n',
        '2',
        '5',
        '5',
        '\n',
    ]
}

impl View for Image {
    type V = Seq<Seq<Pix>>;

    /// The rows of the image, each a sequence of pixels.
    open spec fn view(&self) -> Seq<Seq<Pix>> {
        Seq::new(self.pixels@.len(), |r: int| self.pixels@[r]@)
    }
}

impl Image {
    /// The image has `height` rows of `width` pixels each.
    pub open spec fn wf(&self) -> bool {
        &&& self@.len() == self.height
        &&& forall|r: int| 0 <= r < self@.len() ==> (#[trigger] self@[r]).len() == self.width
    }

    /// The whole file as text.
    pub open spec fn p3_text(&self) -> Seq<char> {
        p3_header(self.width as nat, self.height as nat) + rows_text(self@)
    }

    /// A black image of the given size.
    pub fn new(width: usize, height: usize) -> (image: Image)
        ensures
            image.width == width,
            image.height == height,
            image.wf(),
            forall|r: int, c: int|
                0 <= r < height && 0 <= c < width ==> #[trigger] image@[r][c] == (Pix {
                    r: 0,
                    g: 0,
                    b: 0,
                }),
    {
        let mut pixels: Vec<Vec<Pix>> = Vec::new();
        let mut r: usize = 0;
        while r < height
            invariant
                r <= height,
                pixels@.len() == r,
                forall|i: int| 0 <= i < r ==> (#[trigger] pixels@[i])@.len() == width,
                forall|i: int, c: int|
                    0 <= i < r && 0 <= c < width ==> #[trigger] pixels@[i]@[c] == (Pix {
                        r: 0,
                        g: 0,
                        b: 0,
                    }),
            decreases height - r,
        {
            let mut row: Vec<Pix> = Vec::new();
            let mut c: usize = 0;
            while c < width
                invariant
                    c <= width,
                    row@.len() == c,
                    forall|k: int| 0 <= k < c ==> #[trigger] row@[k] == (Pix { r: 0, g: 0, b: 0 }),
                decreases width - c,
            {
                row.push(Pix::new());
                c += 1;
            }
            pixels.push(row);
            r += 1;
        }
        Image { width, height, pixels }
    }

    /// The head of the file.
    pub fn get_p3_header(&self) -> (text: String)
        ensures
            text@ == p3_header(self.width as nat, self.height as nat),
    {
        proof {
            reveal_strlit("P3\n");
            reveal_strlit(" ");
            reveal_strlit("\n255\n");
        }
        let mut text = String::new();
        text.append("P3\n");
        push_decimal(&mut text, self.width);
        text.append(" ");
        push_decimal(&mut text, self.height);
        text.append("\n255\n");
        assert(text@ =~= p3_header(self.width as nat, self.height as nat));
        text
    }

    /// The pixels as text: row by row from the top, each row from the left, one
    /// line for each pixel.
    pub fn pix_string(&self) -> (text: String)
        ensures
            text@ == rows_text(self@),
    {
        let mut text = String::new();
        let mut r: usize = 0;
        while r < self.pixels.len()
            invariant
                r <= self.pixels@.len(),
                text@ == rows_text(self@.take(r as int)),
            decreases self.pixels@.len() - r,
        {
            let row = &self.pixels[r];
            let ghost before = text@;
            let mut c: usize = 0;
            while c < row.len()
                invariant
                    c <= row@.len(),
                    text@ == before + row_text(row@.take(c as int)),
                decreases row@.len() - c,
            {
                let line = row[c].to_string();
                text.append(line.as_str());
                proof {
                    assert(row@.take(c + 1).drop_last() =~= row@.take(c as int));
                    assert(text@ =~= before + row_text(row@.take(c + 1)));
                }
                c += 1;
            }
            proof {
                assert(row@.take(row@.len() as int) =~= row@);
                assert(self@.take(r + 1).drop_last() =~= self@.take(r as int));
                assert(self@.take(r + 1).last() == row@);
            }
            r += 1;
        }
        proof {
            assert(self@.take(self.pixels@.len() as int) =~= self@);
        }
        text
    }

    /// The whole file as text: the head, then the pixels.
    pub fn get_p3(&self) -> (text: String)
        ensures
            text@ == self.p3_text(),
    {
        let mut text = self.get_p3_header();
        let body = self.pix_string();
        text.append(body.as_str());
        text
    }
}

impl core::ops::Index<usize> for Image {
    type Output = Vec<Pix>;

    /// The row with the given number, counted from the top.
    fn index(&self, index: usize) -> (row: &Vec<Pix>)
        ensures
            row@ == self@[index as int],
    {
        &self.pixels[index]
    }
}

impl vstd::std_specs::core::IndexSpecImpl<usize> for Image {
    /// The row must exist.
    open spec fn index_req(&self, index: &usize) -> bool {
        *index < self@.len()
    }
}

impl core::ops::IndexMut<usize> for Image {
    /// The row with the given number, to be changed in place.
    fn index_mut(&mut self, index: usize) -> (row: &mut Vec<Pix>)
        requires
            index < old(self)@.len(),
        ensures
            *row == old(self).pixels@[index as int],
            final(self).width == old(self).width,
            final(self).height == old(self).height,
            final(self).pixels@ == old(self).pixels@.update(index as int, *final(row)),
            final(self)@ =~= old(self)@.update(index as int, final(row)@),
    {
        &mut self.pixels[index]
    }
}

} // verus!
