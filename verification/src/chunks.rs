//! A chunk-based walk over a byte region, and the arithmetic of
//! splitting a transfer into fixed-size chunks.

use vstd::prelude::*;

verus! {

/// The chunks of `data` under chunk size `size`: full `size`-byte
/// pieces in order, the last piece carrying the remainder. A region of
/// zero bytes has no chunks at all.
pub open spec fn chunks_of(data: Seq<u8>, size: nat) -> Seq<Seq<u8>>
    decreases data.len()
    when size > 0
{
    if data.len() == 0 {
        Seq::<Seq<u8>>::empty()
    } else if data.len() <= size {
        seq![data]
    } else {
        seq![data.take(size as int)] + chunks_of(data.skip(size as int), size)
    }
}

/// The chunks of a region reassemble to the region: nothing is lost or
/// duplicated, so the bytes received across all chunks equal the
/// declared size.
pub proof fn lemma_chunks_reassemble(data: Seq<u8>, size: nat)
    requires
        size > 0,
    ensures
        chunks_of(data, size).flatten() == data,
    decreases data.len(),
{
    reveal_with_fuel(Seq::flatten, 2);
    if data.len() == 0 {
        assert(chunks_of(data, size).flatten() =~= data);
    } else if data.len() <= size {
        assert(chunks_of(data, size) =~= seq![data]);
        assert(chunks_of(data, size).flatten() =~= data);
    } else {
        let head = data.take(size as int);
        let tail = data.skip(size as int);
        lemma_chunks_reassemble(tail, size);
        assert(chunks_of(data, size) =~= seq![head] + chunks_of(tail, size));
        assert((seq![head] + chunks_of(tail, size)).drop_first() =~= chunks_of(tail, size));
        assert(chunks_of(data, size).flatten() =~= head + chunks_of(tail, size).flatten());
        assert(head + tail =~= data);
    }
}

/// A region whose size is an exact multiple of the chunk size splits
/// into exactly `len / size` chunks, every one full: the final chunk
/// carries zero bytes beyond the last full chunk.
pub proof fn lemma_chunks_exact_multiple(data: Seq<u8>, size: nat)
    requires
        size > 0,
        data.len() % size == 0,
    ensures
        chunks_of(data, size).len() == data.len() / size,
        forall|i: int|
            0 <= i < chunks_of(data, size).len() ==> #[trigger] chunks_of(data, size)[i].len()
                == size,
    decreases data.len(),
{
    if data.len() == 0 {
    } else if data.len() <= size {
        assert(data.len() == size) by {
            if data.len() < size {
                vstd::arithmetic::div_mod::lemma_small_mod(data.len(), size);
            }
        }
        assert(data.len() / size == 1) by {
            vstd::arithmetic::div_mod::lemma_div_basics(size as int);
        }
    } else {
        let tail = data.skip(size as int);
        assert(tail.len() == data.len() - size);
        assert(tail.len() % size == 0) by {
            vstd::arithmetic::div_mod::lemma_mod_multiples_vanish(
                -1,
                data.len() as int,
                size as int,
            );
            assert((data.len() - size) % (size as int) == ((size as int) * (-1) + data.len()) % (
            size as int));
        }
        lemma_chunks_exact_multiple(tail, size);
        let d = data.len() as int / size as int;
        let t = tail.len() as int / size as int;
        assert(d == t + 1) by {
            vstd::arithmetic::div_mod::lemma_fundamental_div_mod(data.len() as int, size as int);
            vstd::arithmetic::div_mod::lemma_fundamental_div_mod(tail.len() as int, size as int);
            assert((size as int) * d == (size as int) * t + (size as int) ==> d == t + 1)
                by (nonlinear_arith)
                requires
                    size > 0,
            ;
        }
        assert(chunks_of(data, size) =~= seq![data.take(size as int)] + chunks_of(tail, size));
    }
}

/// An iterator-like walk over the chunks of a borrowed byte region.
pub struct PortalChunks<'a> {
    v: &'a [u8],
    chunk_size: usize,
}

impl<'a> PortalChunks<'a> {
    /// The bytes not yet handed out.
    pub closed spec fn remaining(&self) -> Seq<u8> {
        self.v@
    }

    /// The configured chunk size.
    pub closed spec fn size(&self) -> nat {
        self.chunk_size as nat
    }

    /// Start walking `data` in chunks of `chunk_size` bytes.
    pub fn init(data: &'a [u8], chunk_size: usize) -> (r: PortalChunks<'a>)
        ensures
            r.remaining() == data@,
            r.size() == chunk_size,
    {
        PortalChunks { v: data, chunk_size }
    }

    /// Hand out the next chunk and move the walk along; nothing is
    /// left once the region is exhausted.
    pub fn next(&mut self) -> (r: Option<&'a [u8]>)
        requires
            old(self).size() > 0,
        ensures
            final(self).size() == old(self).size(),
            old(self).remaining().len() == 0 ==> r is None && final(self).remaining() == old(self).remaining(),
            old(self).remaining().len() > 0 ==> (r matches Some(c) && {
                let taken = if old(self).remaining().len() <= old(self).size() {
                    old(self).remaining().len() as int
                } else {
                    old(self).size() as int
                };
                c@ == old(self).remaining().take(taken) && final(self).remaining() == old(self).remaining().skip(taken)
            }),
    {
        // Return up to the next chunk size.
        if self.v.len() == 0 {
            return None;
        }
        // Split to get the next chunk and move the slice along.
        let chunksz = if self.v.len() < self.chunk_size {
            self.v.len()
        } else {
            self.chunk_size
        };
        let beg = vstd::slice::slice_subrange(self.v, 0, chunksz);
        let end = vstd::slice::slice_subrange(self.v, chunksz, self.v.len());
        self.v = end;
        Some(beg)
    }
}

} // verus!
