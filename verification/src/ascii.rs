//! Album covers drawn in characters: the picture is decoded, turned grey and
//! scaled to the text grid by the image library, and each grey level picks a
//! character from a ramp that runs from blank to dense.

use vstd::prelude::*;
use crate::text::{push_char, views};

verus! {

/// Declares the image library's decoded picture.
#[verifier::external_type_specification]
#[verifier::external_body]
pub struct ExDynamicImage(image::DynamicImage);

/// Whether the image library can decode `data` (its format guessed from the
/// bytes).
pub uninterp spec fn image_decodes(data: Seq<u8>) -> bool;

/// Calls `image::load_from_memory`, which guesses the format from the bytes
/// and decodes the picture. The result is there exactly when decoding
/// succeeds; nothing is claimed of the picture itself.
#[verifier::external_body]
fn decode_image(data: &Vec<u8>) -> (r: Option<image::DynamicImage>)
    ensures
        r is Some <==> image_decodes(data@),
{
    image::load_from_memory(data.as_slice()).ok()
}

/// Calls `DynamicImage::grayscale`, which gives a grey version of the
/// picture. Nothing is claimed of it.
#[verifier::external_body]
fn grey_image(img: &image::DynamicImage) -> (r: image::DynamicImage) {
    img.grayscale()
}

/// Calls `image::imageops::resize` with the Lanczos filter, which scales the
/// picture to `cols` by `rows` pixels, and lists the first channel of each
/// pixel, row after row (the order in which the buffer's pixels are walked).
/// The list has `cols * rows` entries; their values are not claimed. The
/// library panics when a buffer would outgrow a vector, so the size is kept
/// well within that; buffers sized by the source picture are not bounded here.
#[verifier::external_body]
fn scaled_levels(img: &image::DynamicImage, cols: u32, rows: u32) -> (r: Vec<u8>)
    requires
        (cols as int) * (rows as int) * 16 <= isize::MAX,
    ensures
        r.len() == (cols as int) * (rows as int),
{
    image::imageops::resize(img, cols, rows, image::imageops::FilterType::Lanczos3)
        .pixels()
        .map(|p| p.0[0])
        .collect()
}

/// The ramp of characters, from blank to dense.
pub open spec fn ramp() -> Seq<char> {
    seq![' ', '.', ':', '-', '=', '+', '*', '#', '%', '@']
}

/// The character for grey level `p`: level 0 is blank, 255 the densest, the
/// levels between spread evenly (the level times nine, divided by 255).
pub open spec fn shade(p: u8) -> char {
    ramp()[(p as int * 9) / 255]
}

/// The character for grey level `p`; see [`shade`].
pub fn shade_of(p: u8) -> (c: char)
    ensures
        c == shade(p),
{
    let i = (p as u32 * 9) / 255;
    assert(i <= 9);
    if i == 0 { ' ' }
    else if i == 1 { '.' }
    else if i == 2 { ':' }
    else if i == 3 { '-' }
    else if i == 4 { '=' }
    else if i == 5 { '+' }
    else if i == 6 { '*' }
    else if i == 7 { '#' }
    else if i == 8 { '%' }
    else { '@' }
}

/// The lines of a picture of `rows` rows of `cols` grey levels each, given
/// row after row: one character per level.
pub open spec fn ascii_art(levels: Seq<u8>, cols: nat, rows: nat) -> Seq<Seq<char>> {
    Seq::new(rows, |y: int| Seq::new(cols, |x: int| shade(levels[y * cols + x])))
}

/// The lines for a grid of grey levels; see [`ascii_art`].
pub fn ascii_lines(levels: &Vec<u8>, cols: u32, rows: u32) -> (r: Vec<String>)
    requires
        levels.len() == (cols as int) * (rows as int),
    ensures
        views(r@) == ascii_art(levels@, cols as nat, rows as nat),
{
    let mut r: Vec<String> = Vec::new();
    let mut y: u32 = 0;
    while y < rows
        invariant
            y <= rows,
            levels.len() == (cols as int) * (rows as int),
            views(r@).len() == y,
            forall|k: int| 0 <= k < y ==> #[trigger] views(r@)[k] == ascii_art(levels@, cols as nat, rows as nat)[k],
        decreases rows - y,
    {
        let mut line = String::new();
        let mut x: u32 = 0;
        while x < cols
            invariant
                x <= cols,
                y < rows,
                levels.len() == (cols as int) * (rows as int),
                line@ == Seq::new(x as nat, |i: int| shade(levels@[y * cols + i])),
            decreases cols - x,
        {
            assert((y as int) * (cols as int) + (x as int) < (cols as int) * (rows as int)) by (nonlinear_arith)
                requires y < rows, x < cols;
            let at = (y as usize) * (cols as usize) + (x as usize);
            push_char(&mut line, shade_of(levels[at]));
            x = x + 1;
            assert(line@ =~= Seq::new(x as nat, |i: int| shade(levels@[y * cols + i])));
        }
        let ghost before = r@;
        let ghost lv = line@;
        r.push(line);
        assert(views(r@) =~= views(before).push(lv));
        assert(lv =~= ascii_art(levels@, cols as nat, rows as nat)[y as int]);
        y = y + 1;
    }
    assert(views(r@) =~= ascii_art(levels@, cols as nat, rows as nat));
    r
}

/// Draws a cover, given as the bytes of its file, in `rows` lines of `cols`
/// characters; `None` when the image library cannot decode the bytes.
pub fn cover_to_ascii(data: &Vec<u8>, cols: u32, rows: u32) -> (r: Option<Vec<String>>)
    requires
        (cols as int) * (rows as int) * 16 <= isize::MAX,
    ensures
        r is Some <==> image_decodes(data@),
        match r {
            Some(lines) => lines.len() == rows && forall|y: int| 0 <= y < rows ==> {
                &&& #[trigger] lines@[y]@.len() == cols
                &&& forall|x: int| 0 <= x < cols ==> ramp().contains(#[trigger] lines@[y]@[x])
            },
            None => true,
        },
{
    let img = match decode_image(data) {
        Some(i) => i,
        None => return None,
    };
    let grey = grey_image(&img);
    let levels = scaled_levels(&grey, cols, rows);
    let lines = ascii_lines(&levels, cols, rows);
    proof {
        let art = ascii_art(levels@, cols as nat, rows as nat);
        assert(views(lines@).len() == lines@.len());
        assert(lines@.len() == rows);
        assert forall|y: int| 0 <= y < rows implies {
            &&& #[trigger] lines@[y]@.len() == cols
            &&& forall|x: int| 0 <= x < cols ==> ramp().contains(#[trigger] lines@[y]@[x])
        } by {
            assert(lines@[y]@ == views(lines@)[y]);
            assert forall|x: int| 0 <= x < cols implies ramp().contains(#[trigger] lines@[y]@[x]) by {
                let i = (levels@[y * cols + x] as int * 9) / 255;
                assert(0 <= i < 10);
                assert(ramp()[i] == lines@[y]@[x]);
            }
        }
    }
    Some(lines)
}

} // verus!
