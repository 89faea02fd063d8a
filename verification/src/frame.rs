//! Frame codec: self-describing LZ4 frames. The one-shot functions here feed
//! a whole buffer through an in-memory frame encoder and finalize it at once.

use vstd::prelude::*;

use crate::errors::DecodeError;

verus! {

/// An LZ4 frame encoder over an in-memory sink, held opaquely: Verus sees the
/// bytes fed into it only through `encoder_fed`.
#[verifier::external_body]
pub struct FrameSink {
    inner: lz4_flex::frame::FrameEncoder<Vec<u8>>,
}

/// The error type of the outside frame decoder.
#[verifier::external_type_specification]
#[verifier::external_body]
pub struct ExIoError(std::io::Error);

/// What decoding a byte sequence as LZ4 frame data yields: the decompressed
/// content, or nothing when the bytes are not a well-formed frame.
pub uninterp spec fn frame_decoded(s: Seq<u8>) -> Option<Seq<u8>>;

/// The bytes fed so far into an in-memory frame encoder.
pub uninterp spec fn encoder_fed(e: FrameSink) -> Seq<u8>;

/// Relies on `lz4_flex::frame::FrameEncoder::new`: a fresh encoder over an
/// empty in-memory sink has been fed nothing.
#[verifier::external_body]
pub(crate) fn frame_encoder_new() -> (e: FrameSink)
    ensures
        encoder_fed(e) == Seq::<u8>::empty(),
{
    FrameSink { inner: lz4_flex::frame::FrameEncoder::new(Vec::new()) }
}

/// Relies on `std::io::Write::write_all` for `lz4_flex::frame::FrameEncoder`:
/// the encoder consumes the whole chunk, appending it to the bytes fed; with
/// an in-memory sink no write can fail.
#[verifier::external_body]
pub(crate) fn frame_encoder_write(e: &mut FrameSink, chunk: &[u8])
    ensures
        encoder_fed(*final(e)) == encoder_fed(*old(e)) + chunk@,
{
    std::io::Write::write_all(&mut e.inner, chunk).expect("a write to an in-memory sink cannot fail");
}

/// Relies on `lz4_flex::frame::FrameEncoder::finish`: flushes buffered data,
/// writes the frame's closing metadata, and returns the sink, whose contents
/// decode back to exactly the bytes fed; with an in-memory sink finishing
/// cannot fail.
#[verifier::external_body]
pub(crate) fn frame_encoder_finish(e: FrameSink) -> (r: Vec<u8>)
    ensures
        frame_decoded(r@) == Some(encoder_fed(e)),
{
    e.inner.finish().expect("finishing an encoder over an in-memory sink cannot fail")
}

/// Relies on `lz4_flex::frame::FrameDecoder` and
/// `std::io::Read::read_to_end`: reads the frame data to its end, yielding
/// the decompressed content, and reports malformed or truncated data as an
/// error.
#[verifier::external_body]
fn frame_decompress_raw(input: &[u8]) -> (r: Result<Vec<u8>, std::io::Error>)
    ensures
        r matches Ok(v) ==> frame_decoded(input@) == Some(v@),
        r is Err ==> frame_decoded(input@) is None,
{
    let mut decoder = lz4_flex::frame::FrameDecoder::new(input);
    let mut out: Vec<u8> = Vec::new();
    match std::io::Read::read_to_end(&mut decoder, &mut out) {
        Ok(_) => Ok(out),
        Err(e) => Err(e),
    }
}

/// Relies on the `Display` implementation of `std::io::Error` for the
/// human-readable description.
#[verifier::external_body]
fn io_error_text(e: &std::io::Error) -> String {
    format!("{}", e)
}

/// Build a self-describing frame holding the whole input: the result decodes
/// back to exactly the input bytes.
pub fn compress_frame(input: &[u8]) -> (r: Vec<u8>)
    ensures
        frame_decoded(r@) == Some(input@),
{
    let mut encoder = frame_encoder_new();
    frame_encoder_write(&mut encoder, input);
    proof {
        assert(Seq::<u8>::empty() + input@ =~= input@);
    }
    frame_encoder_finish(encoder)
}

/// Decode a self-describing frame, reading until end-of-frame. Well-formed
/// frame data yields its content; malformed or truncated data is reported as
/// a `DecodeError`, never silently truncated.
pub fn decompress_frame(input: &[u8]) -> (r: Result<Vec<u8>, DecodeError>)
    ensures
        frame_decoded(input@) matches Some(x) ==> r is Ok && r->Ok_0@ == x,
        frame_decoded(input@) is None ==> r is Err,
{
    match frame_decompress_raw(input) {
        Ok(v) => Ok(v),
        Err(e) => Err(DecodeError { message: io_error_text(&e) }),
    }
}

} // verus!
