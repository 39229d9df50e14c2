use vstd::prelude::*;
use vstd::arithmetic::div_mod::lemma_fundamental_div_mod;
use vstd::arithmetic::div_mod::lemma_fundamental_div_mod_converse;
use vstd::pervasive::VecAdditionalExecFns;

use crate::nibbler::nibbles_of;
use crate::nibbler::Nibbler;

verus! {

/// The left-half column a grid column mirrors onto: columns 0 to 3 stand for
/// themselves, columns 4 to 6 mirror columns 2 to 0.
pub open spec fn norm_col(col: int) -> int {
    if col <= 3 {
        col
    } else {
        6 - col
    }
}

/// The position in the nibble sequence that decides the cell at the given
/// row and column: columns are consumed in descending order 3, 2, 1, 0, rows
/// in ascending order within each column, and a mirrored pair shares one
/// nibble.
pub open spec fn cell_rank(row: int, col: int) -> int {
    (3 - norm_col(col)) * 7 + row
}

/// Whether the cell at the given row and column of the 7 by 7 grid is
/// painted: true exactly when its nibble is even.
pub open spec fn mask_bit(digest: Seq<u8>, row: int, col: int) -> bool {
    nibbles_of(digest)[cell_rank(row, col)] % 2 == 0
}

/// The 49-element pixel mask of a digest, row-major: cell `i` covers row
/// `i / 7` and column `i % 7`.
pub open spec fn mask_of(digest: Seq<u8>) -> Seq<bool> {
    Seq::new(49, |i: int| mask_bit(digest, i / 7, i % 7))
}

/// The 12-bit hue input taken from the digest: the low nibble of byte 28,
/// then all of byte 29.
pub open spec fn hue_bits_of(digest: Seq<u8>) -> int {
    (digest[28] as int % 16) * 256 + digest[29] as int
}

/// For all rows and columns of the grid, a cell and its left-right mirror
/// hold the same boolean, whatever the digest.
pub proof fn lemma_mask_symmetric(digest: Seq<u8>, r: int, c: int)
    requires
        0 <= r < 7,
        0 <= c < 7,
    ensures
        mask_of(digest)[r * 7 + c] == mask_of(digest)[r * 7 + (6 - c)],
{
    lemma_fundamental_div_mod_converse(r * 7 + c, 7, r, c);
    lemma_fundamental_div_mod_converse(r * 7 + (6 - c), 7, r, 6 - c);
    assert(norm_col(c) == norm_col(6 - c));
}

/// Derives the 7 by 7 symmetric pixel mask from the digest: the digest is
/// split into nibbles, each nibble maps to a boolean (even means painted),
/// and the booleans fill columns 3 down to 0, rows top to bottom, each value
/// written to the cell and to its mirror in the same step.
pub fn derive_mask(digest: &Vec<u8>) -> (r: Vec<bool>)
    requires
        digest@.len() == 32,
    ensures
        r@ == mask_of(digest@),
{
    let mut nib = Nibbler::new(digest.as_slice());
    let mut pixels: Vec<bool> = Vec::new();
    while pixels.len() < 49
        invariant
            pixels@.len() <= 49,
            forall|i: int| 0 <= i < pixels@.len() ==> pixels@[i] == false,
        decreases 49 - pixels@.len(),
    {
        pixels.push(false);
    }
    let mut colrev: usize = 0;
    while colrev < 4
        invariant
            colrev <= 4,
            digest@.len() == 32,
            nib.wf(),
            nib.remaining() == nibbles_of(digest@).skip(7 * colrev),
            pixels@.len() == 49,
            forall|i: int|
                0 <= i < 49 ==> pixels@[i] == (if cell_rank(i / 7, i % 7) < 7 * colrev {
                    mask_bit(digest@, i / 7, i % 7)
                } else {
                    false
                }),
        decreases 4 - colrev,
    {
        let col = 3 - colrev;
        let mut row: usize = 0;
        while row < 7
            invariant
                colrev < 4,
                col == 3 - colrev,
                row <= 7,
                digest@.len() == 32,
                nib.wf(),
                nib.remaining() == nibbles_of(digest@).skip(7 * colrev + row),
                pixels@.len() == 49,
                forall|i: int|
                    0 <= i < 49 ==> pixels@[i] == (if cell_rank(i / 7, i % 7) < 7 * colrev
                        + row {
                        mask_bit(digest@, i / 7, i % 7)
                    } else {
                        false
                    }),
            decreases 7 - row,
        {
            let ix = col + (row * 7);
            let mirror_col = 6 - col;
            let mirror_ix = mirror_col + (row * 7);
            let ghost k: int = 7 * colrev + row;
            let ghost nibs = nibbles_of(digest@);
            proof {
                assert(nibs.skip(k as int).len() == 64 - k);
                assert(nibs.skip(k as int)[0] == nibs[k as int]);
            }
            let paint = match nib.next() {
                Some(v) => v % 2 == 0,
                None => false,
            };
            proof {
                assert(nibs.skip(k as int).skip(1) =~= nibs.skip(k + 1));
                lemma_fundamental_div_mod_converse(ix as int, 7, row as int, col as int);
                lemma_fundamental_div_mod_converse(mirror_ix as int, 7, row as int, 6 - col);
                assert(paint == mask_bit(digest@, row as int, col as int));
                assert(paint == mask_bit(digest@, row as int, 6 - col));
            }
            pixels.set(ix, paint);
            pixels.set(mirror_ix, paint);
            proof {
                assert forall|i: int| 0 <= i < 49 && i != ix && i != mirror_ix implies #[trigger] cell_rank(
                    i / 7,
                    i % 7,
                ) != k by {
                    lemma_fundamental_div_mod(i, 7);
                    if cell_rank(i / 7, i % 7) == k {
                        assert(i / 7 == row && norm_col(i % 7) == col as int);
                        assert(i % 7 == col as int || i % 7 == 6 - col);
                    }
                }
            }
            row = row + 1;
        }
        colrev = colrev + 1;
    }
    proof {
        assert forall|i: int| 0 <= i < 49 implies pixels@[i] == mask_of(digest@)[i] by {
            lemma_fundamental_div_mod(i, 7);
        }
        assert(pixels@ =~= mask_of(digest@));
    }
    pixels
}

/// Extracts the three colour inputs from the digest: the 12-bit hue value
/// built from bytes 28 and 29, the saturation byte 30, and the luminance
/// byte 31. The floating-point rescaling and the HSL conversion themselves
/// are performed by the embedding application.
pub fn color_bits(digest: &Vec<u8>) -> (r: (u16, u8, u8))
    requires
        digest@.len() == 32,
    ensures
        r.0 as int == hue_bits_of(digest@),
        r.0 <= 4095,
        r.1 == digest@[30],
        r.2 == digest@[31],
{
    let b28 = digest[28];
    let b29 = digest[29];
    let first_half: u16 = ((b28 & 0x0f) as u16) << 8;
    let latter_half: u16 = b29 as u16;
    let hue = first_half | latter_half;
    proof {
        assert((((b28 & 0x0f) as u16) << 8 | b29 as u16) as int == (b28 as int % 16) * 256
            + b29 as int && (((b28 & 0x0f) as u16) << 8 | b29 as u16) <= 4095) by (bit_vector);
    }
    (hue, digest[30], digest[31])
}

} // verus!
