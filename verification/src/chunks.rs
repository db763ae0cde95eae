//! Splitting a message into fixed-width chunks, zero-padded at the end.

use vstd::prelude::*;

use crate::constants::C;
use crate::constants::K;
use crate::conversions::lebs2ip_spec;

verus! {

/// A chunk padded on the right with `false` to exactly `K` bits.
pub open spec fn pad_chunk(bits: Seq<bool>) -> Seq<bool>
    recommends
        bits.len() <= K,
{
    bits + Seq::new((K - bits.len()) as nat, |i: int| false)
}

/// The number of `false` bits that extend a message of length `len` to the
/// next multiple of `K`.
pub open spec fn padding_len(len: nat) -> nat {
    ((K as int - len % (K as nat)) % (K as int)) as nat
}

/// A message extended on the right with `false` bits to a multiple of `K`.
pub open spec fn pad_to_multiple(bits: Seq<bool>) -> Seq<bool> {
    bits + Seq::new(padding_len(bits.len()), |i: int| false)
}

/// The integer values of the `K`-bit chunks of a message, in order; the last
/// chunk is zero-padded on the right when the message length is not a
/// multiple of `K`.
pub open spec fn chunk_vals_spec(bits: Seq<bool>) -> Seq<nat>
    decreases bits.len(),
{
    if bits.len() == 0 {
        Seq::empty()
    } else if bits.len() >= K {
        seq![lebs2ip_spec(bits.take(K as int))] + chunk_vals_spec(bits.skip(K as int))
    } else {
        seq![lebs2ip_spec(pad_chunk(bits))]
    }
}

/// Explicitly padding a message with `false` to the next multiple of `K`
/// leaves its chunk values unchanged.
pub proof fn lemma_chunk_vals_padding(bits: Seq<bool>)
    ensures
        chunk_vals_spec(pad_to_multiple(bits)) == chunk_vals_spec(bits),
    decreases bits.len(),
{
    let padded = pad_to_multiple(bits);
    if bits.len() == 0 {
        assert(padded =~= bits);
    } else if bits.len() % (K as nat) == 0 {
        assert(padded =~= bits);
    } else if bits.len() < K {
        assert(padded.len() == K);
        assert(padded.take(K as int) =~= pad_chunk(bits));
        assert(padded.skip(K as int) =~= Seq::<bool>::empty());
        assert(chunk_vals_spec(Seq::<bool>::empty()) =~= Seq::<nat>::empty());
        assert(chunk_vals_spec(padded) =~= seq![lebs2ip_spec(padded.take(K as int))]
            + Seq::<nat>::empty());
        assert(chunk_vals_spec(padded) =~= seq![lebs2ip_spec(pad_chunk(bits))]);
    } else {
        assert(padding_len(bits.len()) == padding_len((bits.len() - K as nat) as nat));
        assert(padded.take(K as int) =~= bits.take(K as int));
        assert(padded.skip(K as int) =~= pad_to_multiple(bits.skip(K as int)));
        lemma_chunk_vals_padding(bits.skip(K as int));
    }
}

/// Produces the `K`-bit chunks of a bit sequence of length at most `C * K`,
/// zero-padding the final chunk; empty input yields no chunks.
pub struct Chunks {
    bits: Vec<bool>,
    index: usize,
}

impl Chunks {
    /// The chunker hands its chunks out in order and never steps past the
    /// end of the message.
    pub closed spec fn wf(&self) -> bool {
        &&& self.index <= self.bits@.len()
        &&& self.bits@.len() <= C * K
    }

    /// The bits not yet handed out.
    pub closed spec fn remaining(&self) -> Seq<bool> {
        self.bits@.skip(self.index as int)
    }

    pub fn new(inner: Vec<bool>) -> (r: Chunks)
        requires
            inner@.len() <= C * K,
        ensures
            r.wf(),
            r.remaining() == inner@,
    {
        let ghost all = inner@;
        let r = Chunks { bits: inner, index: 0 };
        proof {
            assert(r.remaining() =~= all);
        }
        r
    }

    /// The next `K`-bit chunk, right-padded with `false` at the end of the
    /// message; `None` once the message is exhausted.
    pub fn next(&mut self) -> (r: Option<Vec<bool>>)
        requires
            old(self).wf(),
        ensures
            final(self).wf(),
            old(self).remaining().len() == 0 ==> r is None && *final(self) == *old(self),
            old(self).remaining().len() > 0 ==> {
                &&& r is Some
                &&& r.unwrap()@.len() == K
                &&& final(self).remaining().len() < old(self).remaining().len()
                &&& chunk_vals_spec(old(self).remaining()) == seq![
                    lebs2ip_spec(r.unwrap()@),
                ] + chunk_vals_spec(final(self).remaining())
            },
    {
        if self.index >= self.bits.len() {
            return None;
        }
        let ghost rem = self.remaining();
        let start = self.index;
        let mut chunk: Vec<bool> = Vec::new();
        let mut i: usize = 0;
        while i < K
            invariant
                i <= K,
                chunk@.len() == i,
                start == self.index,
                self.wf(),
                self.index < self.bits@.len(),
                forall|j: int|
                    0 <= j < i ==> chunk@[j] == (if start + j < self.bits@.len() {
                        self.bits@[start + j]
                    } else {
                        false
                    }),
            decreases K - i,
        {
            if start + i < self.bits.len() {
                let b = self.bits[start + i];
                chunk.push(b);
            } else {
                chunk.push(false);
            }
            i = i + 1;
        }
        if self.bits.len() - start >= K {
            self.index = start + K;
            proof {
                assert(chunk@ =~= rem.take(K as int));
                assert(self.remaining() =~= rem.skip(K as int));
            }
        } else {
            self.index = self.bits.len();
            proof {
                assert(chunk@ =~= pad_chunk(rem));
                assert(self.remaining() =~= Seq::<bool>::empty());
                assert(chunk_vals_spec(rem) =~= seq![lebs2ip_spec(chunk@)] + chunk_vals_spec(
                    self.remaining(),
                ));
            }
        }
        Some(chunk)
    }
}

} // verus!
