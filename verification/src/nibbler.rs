use vstd::prelude::*;
use vstd::slice::slice_to_vec;

verus! {

/// The sequence of 4-bit values ("nibbles") that a byte sequence splits
/// into: each byte contributes its high nibble first, then its low nibble,
/// so the result is twice as long as the input.
pub open spec fn nibbles_of(bytes: Seq<u8>) -> Seq<u8> {
    Seq::new(
        2 * bytes.len(),
        |i: int|
            if i % 2 == 0 {
                (bytes[i / 2] as int / 16) as u8
            } else {
                (bytes[i / 2] as int % 16) as u8
            },
    )
}

/// Splitting a non-empty byte sequence yields the two nibbles of the first
/// byte followed by the nibbles of the rest.
pub proof fn lemma_nibbles_of_step(bytes: Seq<u8>)
    requires
        bytes.len() > 0,
    ensures
        nibbles_of(bytes) == seq![
            (bytes[0] as int / 16) as u8,
            (bytes[0] as int % 16) as u8,
        ] + nibbles_of(bytes.skip(1)),
{
    let rhs = seq![(bytes[0] as int / 16) as u8, (bytes[0] as int % 16) as u8] + nibbles_of(
        bytes.skip(1),
    );
    assert forall|i: int| 2 <= i < 2 * bytes.len() implies nibbles_of(bytes)[i] == rhs[i] by {
        assert((i - 2) / 2 == i / 2 - 1);
        assert((i - 2) % 2 == i % 2);
    }
    assert(nibbles_of(bytes) =~= rhs);
}

/// Splits a byte sequence into nibbles, high nibble of each byte first.
/// At most one pending low nibble is held between calls to `next`.
pub struct Nibbler {
    bytes: Vec<u8>,
    pos: usize,
    pending: Option<u8>,
}

impl Nibbler {
    /// The cursor never runs past the end of the byte sequence.
    pub closed spec fn wf(&self) -> bool {
        self.pos <= self.bytes@.len()
    }

    /// The nibbles still to be produced, in order.
    pub closed spec fn remaining(&self) -> Seq<u8> {
        match self.pending {
            Some(v) => seq![v] + nibbles_of(self.bytes@.skip(self.pos as int)),
            None => nibbles_of(self.bytes@.skip(self.pos as int)),
        }
    }

    /// A fresh splitter over a copy of the given bytes, with every nibble
    /// still to come.
    pub fn new(bytes: &[u8]) -> (r: Nibbler)
        ensures
            r.wf(),
            r.remaining() == nibbles_of(bytes@),
    {
        let r = Nibbler { bytes: slice_to_vec(bytes), pos: 0, pending: None };
        proof {
            assert(r.bytes@.skip(0) =~= bytes@);
        }
        r
    }

    /// Produces the next nibble, or `None` once the bytes are exhausted.
    pub fn next(&mut self) -> (r: Option<u8>)
        requires
            old(self).wf(),
        ensures
            final(self).wf(),
            old(self).remaining().len() > 0 ==> r == Some(old(self).remaining()[0])
                && final(self).remaining() == old(self).remaining().skip(1),
            old(self).remaining().len() == 0 ==> r is None && final(self).remaining().len() == 0,
    {
        let p = self.pending;
        match p {
            Some(v) => {
                self.pending = None;
                proof {
                    assert(old(self).remaining().skip(1) =~= self.remaining());
                }
                Some(v)
            },
            None => {
                if self.pos < self.bytes.len() {
                    let b = self.bytes[self.pos];
                    self.pos = self.pos + 1;
                    self.pending = Some(b & 0x0f);
                    proof {
                        assert(b & 0x0f == b as int % 16 && b >> 4 == b as int / 16)
                            by (bit_vector);
                        let tail = old(self).bytes@.skip(old(self).pos as int);
                        lemma_nibbles_of_step(tail);
                        assert(tail.skip(1) =~= self.bytes@.skip(self.pos as int));
                        assert(old(self).remaining().skip(1) =~= self.remaining());
                    }
                    Some(b >> 4)
                } else {
                    proof {
                        assert(self.bytes@.skip(self.pos as int).len() == 0);
                    }
                    None
                }
            },
        }
    }
}

} // verus!
