use vstd::prelude::*;
use vstd::arithmetic::div_mod::lemma_fundamental_div_mod_converse;

use crate::color::background;
use crate::color::RGB;

verus! {

/// The colour of the pixel at column `x` and row `y` of the rendered
/// buffer: the 7 by 7 grid of 70-pixel tiles sits inside a 35-pixel margin
/// on all sides, a painted tile shows the foreground colour, and everything
/// else shows the background.
pub open spec fn pixel_at(mask: Seq<bool>, fg: RGB, x: int, y: int) -> RGB {
    if 35 <= x < 525 && 35 <= y < 525 && mask[((y - 35) / 70) * 7 + (x - 35) / 70] {
        fg
    } else {
        background()
    }
}

/// The full 560 by 560 buffer a mask and a foreground colour render to,
/// row-major: entry `i` is the pixel at column `i % 560` and row `i / 560`.
pub open spec fn raster_of(mask: Seq<bool>, fg: RGB) -> Seq<RGB> {
    Seq::new(560 * 560, |i: int| pixel_at(mask, fg, i % 560, i / 560))
}

/// Every pixel of a rendered buffer shows either the background colour or
/// the foreground colour, whatever the mask.
pub proof fn lemma_pixel_two_colors(mask: Seq<bool>, fg: RGB, i: int)
    requires
        0 <= i < 560 * 560,
    ensures
        raster_of(mask, fg)[i] == fg || raster_of(mask, fg)[i] == background(),
{
}

/// An all-false mask renders to pure background: no pixel of the buffer
/// shows the foreground colour.
pub proof fn lemma_blank_mask_all_background(mask: Seq<bool>, fg: RGB, i: int)
    requires
        0 <= i < 560 * 560,
        forall|j: int| 0 <= j < 49 ==> !mask[j],
    ensures
        raster_of(mask, fg)[i] == background(),
{
    let x = i % 560;
    let y = i / 560;
    if 35 <= x < 525 && 35 <= y < 525 {
        assert(0 <= (x - 35) / 70 < 7 && 0 <= (y - 35) / 70 < 7) by (nonlinear_arith)
            requires
                35 <= x < 525,
                35 <= y < 525,
        ;
        assert(!mask[((y - 35) / 70) * 7 + (x - 35) / 70]);
    }
}

/// The background colour always occurs: the margin pixel in the top-left
/// corner is never painted.
pub proof fn lemma_background_present(mask: Seq<bool>, fg: RGB)
    ensures
        raster_of(mask, fg)[0] == background(),
{
}

/// Wherever the mask holds a painted cell, the foreground colour occurs in
/// the buffer: the top-left pixel of that cell's tile shows it.
pub proof fn lemma_foreground_present(mask: Seq<bool>, fg: RGB, r: int, c: int)
    requires
        0 <= r < 7,
        0 <= c < 7,
        mask[r * 7 + c],
    ensures
        raster_of(mask, fg)[(r * 70 + 35) * 560 + (c * 70 + 35)] == fg,
{
    let x = c * 70 + 35;
    let y = r * 70 + 35;
    lemma_fundamental_div_mod_converse(y * 560 + x, 560, y, x);
    lemma_fundamental_div_mod_converse(x - 35, 70, c, 0);
    lemma_fundamental_div_mod_converse(y - 35, 70, r, 0);
}

/// Paints the mask onto a fresh 560 by 560 buffer of red/green/blue
/// triples, row-major: each true cell of the 7 by 7 grid becomes a 70-pixel
/// foreground square offset by the 35-pixel margin, and every other pixel
/// holds the background colour.
pub fn rasterize(mask: &Vec<bool>, foreground: RGB) -> (r: Vec<RGB>)
    requires
        mask@.len() == 49,
    ensures
        r@ == raster_of(mask@, foreground),
        r@.len() == 560 * 560,
{
    let mut buf: Vec<RGB> = Vec::new();
    let mut y: usize = 0;
    while y < 560
        invariant
            y <= 560,
            mask@.len() == 49,
            buf@.len() == 560 * y,
            forall|i: int|
                0 <= i < 560 * y ==> buf@[i] == pixel_at(mask@, foreground, i % 560, i / 560),
        decreases 560 - y,
    {
        let mut x: usize = 0;
        while x < 560
            invariant
                y < 560,
                x <= 560,
                mask@.len() == 49,
                buf@.len() == 560 * y + x,
                forall|i: int|
                    0 <= i < 560 * y + x ==> buf@[i] == pixel_at(mask@, foreground, i % 560, i / 560),
            decreases 560 - x,
        {
            let px = if x >= 35 && x < 525 && y >= 35 && y < 525 {
                let col = (x - 35) / 70;
                let row = (y - 35) / 70;
                proof {
                    assert((x - 35) / 70 < 7 && (y - 35) / 70 < 7) by (nonlinear_arith)
                        requires
                            35 <= x < 525,
                            35 <= y < 525,
                    ;
                }
                if mask[row * 7 + col] {
                    foreground
                } else {
                    RGB { red: 240, green: 240, blue: 240 }
                }
            } else {
                RGB { red: 240, green: 240, blue: 240 }
            };
            proof {
                lemma_fundamental_div_mod_converse(560 * y + x, 560, y as int, x as int);
                assert(px == pixel_at(mask@, foreground, x as int, y as int));
            }
            buf.push(px);
            x = x + 1;
        }
        y = y + 1;
    }
    proof {
        assert(buf@ =~= raster_of(mask@, foreground));
    }
    buf
}

} // verus!
