//! The streaming frame compressor: a stateful handle that accepts chunks over
//! multiple calls and must be finalized exactly once. Finalize takes the
//! encoder out of its slot, so a handle can never be finalized twice and a
//! write after finalize is a reported error that changes nothing.

use vstd::prelude::*;

use crate::errors::{FinalizeError, WriteError};
use crate::frame::{
    encoder_fed, frame_decoded, frame_encoder_finish, frame_encoder_new, frame_encoder_write,
    FrameSink,
};

verus! {

/// A streaming frame compressor over an in-memory sink.
///
/// The handle is active while the encoder slot is occupied and finished once
/// `finalize` has taken the encoder out; a finished handle stays addressable
/// but inert. Dropping a handle without finalizing releases the encoder and
/// discards its buffered output.
pub struct StreamingCompressor {
    encoder: Option<FrameSink>,
    fed: Ghost<Seq<u8>>,
}

impl StreamingCompressor {
    /// The handle still holds a live encoder.
    pub closed spec fn is_active(self) -> bool {
        self.encoder is Some
    }

    /// The order-preserving concatenation of all chunks accepted so far.
    pub closed spec fn fed_bytes(self) -> Seq<u8> {
        self.fed@
    }

    /// The ghost record of accepted bytes matches what the live encoder was
    /// actually fed.
    pub closed spec fn wf(self) -> bool {
        self.encoder matches Some(e) ==> encoder_fed(e) == self.fed@
    }

    /// Create a handle in the active state that has accepted nothing yet.
    pub fn new() -> (c: Self)
        ensures
            c.wf(),
            c.is_active(),
            c.fed_bytes() == Seq::<u8>::empty(),
    {
        StreamingCompressor { encoder: Some(frame_encoder_new()), fed: Ghost(Seq::empty()) }
    }

    /// Whether the handle has been finalized and is now inert.
    pub fn is_finished(&self) -> (b: bool)
        ensures
            b == !self.is_active(),
    {
        self.encoder.is_none()
    }

    /// Feed one chunk. While the handle is active the whole chunk is
    /// accepted, appended after everything fed before; after finalize the
    /// call fails with `AlreadyFinished` and changes nothing.
    pub fn write_chunk(&mut self, chunk: &[u8]) -> (r: Result<(), WriteError>)
        requires
            old(self).wf(),
        ensures
            final(self).wf(),
            old(self).is_active() ==> {
                &&& r is Ok
                &&& final(self).is_active()
                &&& final(self).fed_bytes() == old(self).fed_bytes() + chunk@
            },
            !old(self).is_active() ==> {
                &&& r matches Err(WriteError::AlreadyFinished)
                &&& *final(self) == *old(self)
            },
    {
        match self.encoder.take() {
            Some(mut encoder) => {
                frame_encoder_write(&mut encoder, chunk);
                self.fed = Ghost(self.fed@ + chunk@);
                self.encoder = Some(encoder);
                Ok(())
            },
            None => Err(WriteError::AlreadyFinished),
        }
    }

    /// Finalize the handle: take the encoder out of its slot (leaving the
    /// slot empty regardless of outcome), flush it, write the frame's closing
    /// metadata, and return the complete frame, which decodes back to the
    /// concatenation of all accepted chunks. A second call finds the slot
    /// empty and fails with `AlreadyFinished`.
    pub fn finalize(&mut self) -> (r: Result<Vec<u8>, FinalizeError>)
        requires
            old(self).wf(),
        ensures
            final(self).wf(),
            !final(self).is_active(),
            final(self).fed_bytes() == old(self).fed_bytes(),
            old(self).is_active() ==> (r matches Ok(v) && frame_decoded(v@) == Some(
                old(self).fed_bytes(),
            )),
            !old(self).is_active() ==> r matches Err(FinalizeError::AlreadyFinished),
    {
        match self.encoder.take() {
            Some(encoder) => Ok(frame_encoder_finish(encoder)),
            None => Err(FinalizeError::AlreadyFinished),
        }
    }
}

/// The order-preserving concatenation of a sequence of chunks.
pub open spec fn concat_chunks(chunks: Seq<Seq<u8>>) -> Seq<u8>
    decreases chunks.len(),
{
    if chunks.len() == 0 {
        Seq::empty()
    } else {
        concat_chunks(chunks.drop_last()) + chunks.last()
    }
}

/// Streaming equivalence: feeding any partition of a buffer chunk by chunk
/// through create, repeated writes, and finalize yields a frame that decodes
/// back to the order-preserving concatenation of the chunks.
pub fn compress_chunked(chunks: &Vec<Vec<u8>>) -> (r: Vec<u8>)
    ensures
        frame_decoded(r@) == Some(concat_chunks(chunks@.map_values(|c: Vec<u8>| c@))),
{
    let ghost model: Seq<Seq<u8>> = chunks@.map_values(|c: Vec<u8>| c@);
    let mut compressor = StreamingCompressor::new();
    let mut i: usize = 0;
    while i < chunks.len()
        invariant
            compressor.wf(),
            compressor.is_active(),
            i <= chunks.len(),
            model == chunks@.map_values(|c: Vec<u8>| c@),
            compressor.fed_bytes() == concat_chunks(model.take(i as int)),
        decreases chunks.len() - i,
    {
        let _ = compressor.write_chunk(chunks[i].as_slice());
        proof {
            assert(model.take(i as int + 1).drop_last() =~= model.take(i as int));
        }
        i = i + 1;
    }
    proof {
        assert(model.take(chunks@.len() as int) =~= model);
    }
    match compressor.finalize() {
        Ok(frame) => frame,
        Err(_) => Vec::new(),
    }
}

} // verus!
