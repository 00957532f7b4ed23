//! Capped capture of one remote output stream. Standard output and standard
//! error are captured by two independent buffers, so a remote process that
//! floods one stream can neither corrupt nor starve the capture of the other;
//! each buffer keeps the first bytes of its own stream up to a fixed ceiling.

use vstd::prelude::*;
use vstd::math::min;

verus! {

/// The fixed per-stream byte ceiling: 1 MiB.
pub const CAPTURE_CEILING: usize = 1024 * 1024;

/// Accumulates one output stream's bytes in arrival order, hard-capped at a
/// byte ceiling so a verbose remote process cannot exhaust memory.
pub struct CaptureBuffer {
    data: Vec<u8>,
    ceiling: usize,
}

/// The concatenation of one stream's chunks, oldest first: the bytes the
/// remote side actually wrote to that stream.
pub open spec fn concat_bytes(chunks: Seq<Seq<u8>>) -> Seq<u8>
    decreases chunks.len(),
{
    if chunks.len() == 0 {
        Seq::empty()
    } else {
        concat_bytes(chunks.drop_last()) + chunks.last()
    }
}

/// The views of a vector of chunk vectors.
pub open spec fn chunk_views(chunks: Seq<Vec<u8>>) -> Seq<Seq<u8>> {
    chunks.map_values(|c: Vec<u8>| c@)
}

impl CaptureBuffer {
    /// The bytes captured so far.
    pub closed spec fn bytes(&self) -> Seq<u8> {
        self.data@
    }

    /// The byte ceiling this buffer was created with.
    pub closed spec fn cap(&self) -> int {
        self.ceiling as int
    }

    pub closed spec fn wf(&self) -> bool {
        self.data@.len() <= self.ceiling
    }

    pub fn new(ceiling: usize) -> (r: Self)
        ensures
            r.wf(),
            r.cap() == ceiling,
            r.bytes() == Seq::<u8>::empty(),
    {
        CaptureBuffer { data: Vec::new(), ceiling }
    }

    /// How many further bytes this buffer will still accept.
    pub fn remaining(&self) -> (r: usize)
        requires
            self.wf(),
        ensures
            r == self.cap() - self.bytes().len(),
    {
        self.ceiling - self.data.len()
    }

    /// Append one chunk of the stream, truncated to what fits under the
    /// ceiling; returns how many of the chunk's bytes were kept.
    pub fn push_chunk(&mut self, chunk: &[u8]) -> (took: usize)
        requires
            old(self).wf(),
        ensures
            final(self).wf(),
            final(self).cap() == old(self).cap(),
            took == min(chunk@.len() as int, old(self).cap() - old(self).bytes().len()),
            final(self).bytes() == old(self).bytes() + chunk@.take(took as int),
    {
        let mut i: usize = 0;
        while i < chunk.len() && self.data.len() < self.ceiling
            invariant
                i <= chunk@.len(),
                self.ceiling == old(self).ceiling,
                self.data@.len() == old(self).data@.len() + i,
                self.data@.len() <= self.ceiling,
                self.data@ == old(self).data@ + chunk@.take(i as int),
            decreases chunk@.len() - i,
        {
            proof {
                assert(chunk@.take(i + 1) =~= chunk@.take(i as int).push(chunk@[i as int]));
            }
            self.data.push(chunk[i]);
            i = i + 1;
        }
        i
    }

    /// Hand the captured bytes out.
    pub fn into_bytes(self) -> (r: Vec<u8>)
        ensures
            r@ == self.bytes(),
    {
        self.data
    }
}

/// Capture every chunk of one stream in arrival order. The result is the
/// stream's full contents whenever they fit under the ceiling, and exactly
/// its first `ceiling` bytes otherwise — independent of anything written to
/// the sibling stream, which has a buffer of its own.
pub fn capture_stream(chunks: &Vec<Vec<u8>>, ceiling: usize) -> (r: Vec<u8>)
    ensures
        r@ == concat_bytes(chunk_views(chunks@)).take(
            min(concat_bytes(chunk_views(chunks@)).len() as int, ceiling as int),
        ),
        concat_bytes(chunk_views(chunks@)).len() <= ceiling ==> r@ == concat_bytes(
            chunk_views(chunks@),
        ),
{
    let ghost views = chunk_views(chunks@);
    let mut buf = CaptureBuffer::new(ceiling);
    let mut i: usize = 0;
    while i < chunks.len()
        invariant
            i <= chunks@.len(),
            buf.wf(),
            buf.cap() == ceiling,
            views == chunk_views(chunks@),
            buf.bytes() == concat_bytes(views.take(i as int)).take(
                min(concat_bytes(views.take(i as int)).len() as int, ceiling as int),
            ),
        decreases chunks@.len() - i,
    {
        let ghost pre = views.take(i as int);
        buf.push_chunk(chunks[i].as_slice());
        proof {
            let post = views.take(i + 1);
            assert(post.drop_last() =~= pre);
            assert(concat_bytes(post) == concat_bytes(pre) + views[i as int]);
            assert(buf.bytes() =~= concat_bytes(post).take(
                min(concat_bytes(post).len() as int, ceiling as int),
            ));
        }
        i = i + 1;
    }
    proof {
        assert(views.take(chunks@.len() as int) =~= views);
    }
    buf.into_bytes()
}

} // verus!
