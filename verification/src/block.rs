//! One-shot block codec: length-less LZ4 block compression, where the exact
//! original length must be supplied externally on decompression.

use vstd::prelude::*;

use crate::errors::DecodeError;

verus! {

/// The bytes that LZ4 block-format compression produces for a given input.
pub uninterp spec fn block_compressed(s: Seq<u8>) -> Seq<u8>;

/// Relies on `lz4_flex::block::compress`: block-format compression whose
/// result depends on the input bytes alone.
#[verifier::external_body]
pub fn compress(input: &[u8]) -> (r: Vec<u8>)
    ensures
        r@ == block_compressed(input@),
{
    lz4_flex::block::compress(input)
}

/// The error type of the outside block decoder.
#[verifier::external_type_specification]
#[verifier::external_body]
pub struct ExDecompressError(lz4_flex::block::DecompressError);

/// Relies on `lz4_flex::block::decompress` (safe decoder): decodes a block
/// into a buffer of `capacity` bytes and truncates to the decoded length.
/// Bytes produced by `lz4_flex::block::compress` decode back to the original
/// input whenever it fits the buffer, and are rejected as too large otherwise.
#[verifier::external_body]
fn block_decompress_raw(input: &[u8], capacity: usize) -> (r: Result<
    Vec<u8>,
    lz4_flex::block::DecompressError,
>)
    ensures
        r matches Ok(v) ==> v@.len() <= capacity,
        forall|x: Seq<u8>|
            #[trigger] block_compressed(x) == input@ && x.len() <= capacity ==> r is Ok
                && r->Ok_0@ == x,
        forall|x: Seq<u8>| #[trigger] block_compressed(x) == input@ && x.len() > capacity ==> r
            is Err,
{
    lz4_flex::block::decompress(input, capacity)
}

/// Relies on the `Display` implementation of
/// `lz4_flex::block::DecompressError` for the human-readable description.
#[verifier::external_body]
fn block_error_text(e: &lz4_flex::block::DecompressError) -> String {
    format!("{}", e)
}

/// Decompress an LZ4 block. The block format carries no length header, so the
/// caller must supply the exact original length: data produced by `compress`
/// decodes successfully at that length and only at that length; malformed,
/// truncated, or size-mismatched data is reported as a `DecodeError`.
pub fn decompress(input: &[u8], expected_size: usize) -> (r: Result<Vec<u8>, DecodeError>)
    ensures
        r matches Ok(v) ==> v@.len() == expected_size,
        forall|x: Seq<u8>| #[trigger] block_compressed(x) == input@ ==> if x.len()
            == expected_size {
            r is Ok && r->Ok_0@ == x
        } else {
            r is Err
        },
{
    match block_decompress_raw(input, expected_size) {
        Ok(v) => {
            if v.len() == expected_size {
                Ok(v)
            } else {
                Err(
                    DecodeError {
                        message: "decoded length does not match the expected uncompressed size".to_owned(),
                    },
                )
            }
        },
        Err(e) => Err(DecodeError { message: block_error_text(&e) }),
    }
}

} // verus!
