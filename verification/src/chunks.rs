//! Chunked transfer: streamed bodies as finite sequences of byte chunks.
//!
//! A streamed copy or paste moves the payload in bounded chunks instead of
//! one buffer.  Streaming is a performance path, not a different contract:
//! the payload a chunk sequence carries is the concatenation of its chunks,
//! splitting a payload into chunks and reassembling them yields exactly the
//! payload, and an assembler that receives chunks in order ends up with the
//! same bytes a buffered transfer would have carried.

use vstd::prelude::*;
use vstd::slice::slice_subrange;
use vstd::slice::slice_to_vec;

verus! {

/// The payload that a sequence of chunks carries: the concatenation of the
/// chunks in order.
pub open spec fn payload_of(chunks: Seq<Seq<u8>>) -> Seq<u8> {
    chunks.flatten()
}

/// Split a payload into chunks of at most `chunk_size` bytes each: the
/// first chunk takes the leading bytes, the rest are split the same way.
/// Every chunk but the last is full; an empty payload yields no chunks.
pub open spec fn spec_chunks(p: Seq<u8>, chunk_size: nat) -> Seq<Seq<u8>>
    decreases p.len(),
{
    if chunk_size == 0 || p.len() == 0 {
        Seq::empty()
    } else if p.len() <= chunk_size {
        seq![p]
    } else {
        seq![p.take(chunk_size as int)] + spec_chunks(p.skip(chunk_size as int), chunk_size)
    }
}

/// Streaming is equivalent to buffering: splitting any payload into chunks
/// and concatenating them again yields exactly the payload, whatever the
/// chunk size.
pub proof fn lemma_chunking_preserves_payload(p: Seq<u8>, chunk_size: nat)
    requires
        chunk_size > 0,
    ensures
        payload_of(spec_chunks(p, chunk_size)) == p,
    decreases p.len(),
{
    if p.len() == 0 {
        assert(spec_chunks(p, chunk_size).flatten() =~= p);
    } else if p.len() <= chunk_size {
        let s = seq![p];
        s.lemma_flatten_one_element();
        assert(s.flatten() == p);
    } else {
        let head = p.take(chunk_size as int);
        let rest = p.skip(chunk_size as int);
        lemma_chunking_preserves_payload(rest, chunk_size);
        let s = seq![head] + spec_chunks(rest, chunk_size);
        assert(s.first() == head);
        assert(s.drop_first() =~= spec_chunks(rest, chunk_size));
        assert(s.flatten() == head + spec_chunks(rest, chunk_size).flatten());
        assert(head + rest =~= p);
    }
}

/// Chunks are bounded and productive: every chunk the split yields is
/// non-empty and holds at most `chunk_size` bytes, so a streamed transfer
/// bounds its peak memory use and always makes progress.
pub proof fn lemma_chunks_bounded(p: Seq<u8>, chunk_size: nat)
    requires
        chunk_size > 0,
    ensures
        forall|i: int|
            0 <= i < spec_chunks(p, chunk_size).len() ==> 0 < (#[trigger] spec_chunks(
                p,
                chunk_size,
            )[i]).len() <= chunk_size,
    decreases p.len(),
{
    if p.len() == 0 {
    } else if p.len() <= chunk_size {
    } else {
        let rest = p.skip(chunk_size as int);
        lemma_chunks_bounded(rest, chunk_size);
        let s = seq![p.take(chunk_size as int)] + spec_chunks(rest, chunk_size);
        assert forall|i: int| 0 <= i < s.len() implies 0 < (#[trigger] s[i]).len()
            <= chunk_size by {
            if i == 0 {
                assert(s[0] == p.take(chunk_size as int));
            } else {
                assert(s[i] == spec_chunks(rest, chunk_size)[i - 1]);
            }
        }
    }
}

/// Reassembles a streamed body, chunk by chunk, into the complete buffer
/// that a single adapter write needs.  The payload is applied all at once
/// or not at all: an aborted stream is simply never finished, and no
/// partial buffer reaches the adapter.
pub struct BodyAssembler {
    buf: Vec<u8>,
    parts: Ghost<Seq<Seq<u8>>>,
}

impl BodyAssembler {
    /// The chunks received so far, in arrival order.
    pub closed spec fn chunks(self) -> Seq<Seq<u8>> {
        self.parts@
    }

    /// The buffer holds exactly the payload of the chunks received so far.
    pub closed spec fn wf(self) -> bool {
        self.buf@ == payload_of(self.parts@)
    }

    /// Start an empty assembly.
    pub fn new() -> (a: Self)
        ensures
            a.wf(),
            a.chunks() == Seq::<Seq<u8>>::empty(),
    {
        let a = BodyAssembler { buf: Vec::new(), parts: Ghost(Seq::empty()) };
        proof {
            assert(a.parts@.flatten() =~= Seq::<u8>::empty());
        }
        a
    }

    /// Receive the next chunk of the streamed body.
    pub fn push_chunk(&mut self, chunk: &[u8])
        requires
            old(self).wf(),
            payload_of(old(self).chunks()).len() + chunk@.len() <= usize::MAX,
        ensures
            final(self).wf(),
            final(self).chunks() == old(self).chunks().push(chunk@),
    {
        let mut tail = slice_to_vec(chunk);
        self.buf.append(&mut tail);
        proof {
            self.parts@ = self.parts@.push(chunk@);
            old(self).parts@.lemma_flatten_push(chunk@);
        }
    }

    /// Finish the assembly: the complete buffer, equal to the concatenation
    /// of every chunk received, in order.
    pub fn finish(self) -> (r: Vec<u8>)
        requires
            self.wf(),
        ensures
            r@ == payload_of(self.chunks()),
    {
        self.buf
    }
}

/// Split a payload into chunks of at most `chunk_size` bytes for streamed
/// transfer.  The chunks carry exactly the payload, in order, and none is
/// empty or oversized.
pub fn chunk_payload(p: &[u8], chunk_size: usize) -> (r: Vec<Vec<u8>>)
    requires
        chunk_size > 0,
    ensures
        r@.map_values(|c: Vec<u8>| c@) == spec_chunks(p@, chunk_size as nat),
        payload_of(r@.map_values(|c: Vec<u8>| c@)) == p@,
        forall|k: int| 0 <= k < r@.len() ==> 0 < (#[trigger] r@[k])@.len() <= chunk_size,
{
    let ghost gcs: nat = chunk_size as nat;
    let mut r: Vec<Vec<u8>> = Vec::new();
    let mut i: usize = 0;
    proof {
        assert(p@.skip(0) =~= p@);
        assert(r@.map_values(|c: Vec<u8>| c@) + spec_chunks(p@, gcs) =~= spec_chunks(p@, gcs));
    }
    while i < p.len()
        invariant
            chunk_size > 0,
            gcs == chunk_size as nat,
            i <= p@.len(),
            spec_chunks(p@, gcs) == r@.map_values(|c: Vec<u8>| c@) + spec_chunks(
                p@.skip(i as int),
                gcs,
            ),
        decreases p@.len() - i,
    {
        let remaining = p.len() - i;
        let step = if remaining <= chunk_size {
            remaining
        } else {
            chunk_size
        };
        let piece = slice_subrange(p, i, i + step);
        let chunk = slice_to_vec(piece);
        let ghost prev = r@;
        r.push(chunk);
        proof {
            let f = |c: Vec<u8>| c@;
            let tail = p@.skip(i as int);
            assert(tail.len() == p@.len() - i);
            if tail.len() <= gcs {
                assert(spec_chunks(tail, gcs) == seq![tail]);
                assert(piece@ =~= tail);
                assert(p@.skip(i as int + step) =~= Seq::<u8>::empty());
                assert(spec_chunks(p@.skip(i as int + step), gcs) =~= Seq::<Seq<u8>>::empty());
                assert(r@.map_values(f) =~= prev.map_values(f) + seq![tail]);
            } else {
                assert(spec_chunks(tail, gcs) == seq![tail.take(gcs as int)] + spec_chunks(
                    tail.skip(gcs as int),
                    gcs,
                ));
                assert(piece@ =~= tail.take(gcs as int));
                assert(tail.skip(gcs as int) =~= p@.skip(i as int + step));
                assert(r@.map_values(f) =~= prev.map_values(f) + seq![piece@]);
            }
            assert(r@.map_values(f) + spec_chunks(p@.skip(i as int + step), gcs) =~= prev
                .map_values(f) + spec_chunks(tail, gcs));
        }
        i = i + step;
    }
    proof {
        assert(p@.skip(i as int) =~= Seq::<u8>::empty());
        assert(spec_chunks(p@.skip(i as int), gcs) =~= Seq::<Seq<u8>>::empty());
        assert(r@.map_values(|c: Vec<u8>| c@) + Seq::<Seq<u8>>::empty() =~= r@.map_values(
            |c: Vec<u8>| c@,
        ));
        lemma_chunking_preserves_payload(p@, gcs);
        lemma_chunks_bounded(p@, gcs);
        assert forall|k: int| 0 <= k < r@.len() implies 0 < (#[trigger] r@[k])@.len()
            <= chunk_size by {
            assert(r@.map_values(|c: Vec<u8>| c@)[k] == r@[k]@);
        }
    }
    r
}

} // verus!
