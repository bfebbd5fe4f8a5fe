//! From the compressed bytes of a file to its record payload.

use vstd::prelude::*;

verus! {

/// Why a source could not be opened.
#[derive(Clone, Copy, Debug, PartialEq, Eq, Structural)]
pub enum Bi5Error {
    /// The path could not be read.
    Io,
    /// The compressed stream is malformed.
    Decompress,
    /// The payload is `len` bytes long, which is no multiple of `width`.
    Format { len: usize, width: usize },
    /// The path is neither a file nor a directory.
    NotFileOrDir,
}

#[verifier::external_type_specification]
#[verifier::external_body]
pub struct ExLzmaError(lzma_rs::error::Error);

/// The payload that an LZMA stream decompresses to, or `None` for a stream
/// that the decoder rejects.
pub uninterp spec fn lzma_decoded(compressed: Seq<u8>) -> Option<Seq<u8>>;

/// Runs `lzma_rs::lzma_decompress` on a stream held in memory. Trusted: what
/// comes back, the payload or the refusal, depends on the bytes of the stream
/// alone.
#[verifier::external_body]
fn lzma_decompress(compressed: &Vec<u8>) -> (decoded: Result<Vec<u8>, lzma_rs::error::Error>)
    ensures
        match decoded {
            Ok(payload) => lzma_decoded(compressed@) == Some(payload@),
            Err(_) => lzma_decoded(compressed@) is None,
        },
{
    let mut input: &[u8] = compressed.as_slice();
    let mut payload: Vec<u8> = Vec::new();
    match lzma_rs::lzma_decompress(&mut input, &mut payload) {
        Ok(()) => Ok(payload),
        Err(e) => Err(e),
    }
}

/// What `check_record_layout` returns for a payload.
pub open spec fn spec_checked(payload: Seq<u8>) -> Result<Seq<u8>, Bi5Error> {
    if payload.len() % 20 == 0 {
        Ok(payload)
    } else {
        Err(Bi5Error::Format { len: payload.len() as usize, width: 20 })
    }
}

/// The decompressed bytes of a file: nothing for a file of no bytes, which
/// is never handed to the decoder, and what the decoder gives for any other.
pub open spec fn spec_decompressed(compressed: Seq<u8>) -> Option<Seq<u8>> {
    if compressed.len() == 0 {
        Some(Seq::empty())
    } else {
        lzma_decoded(compressed)
    }
}

/// What `decode_payload` returns for the compressed bytes of a file.
pub open spec fn spec_payload(compressed: Seq<u8>) -> Result<Seq<u8>, Bi5Error> {
    match spec_decompressed(compressed) {
        Some(payload) => spec_checked(payload),
        None => Err(Bi5Error::Decompress),
    }
}

/// Whether `result` is `expected`, the payload taken by its view.
pub open spec fn spec_same_result(
    result: Result<Vec<u8>, Bi5Error>,
    expected: Result<Seq<u8>, Bi5Error>,
) -> bool {
    match result {
        Ok(payload) => expected == Ok::<Seq<u8>, Bi5Error>(payload@),
        Err(e) => expected == Err::<Seq<u8>, Bi5Error>(e),
    }
}

/// Accepts a payload that is a whole number of records and hands it back
/// unchanged; any other length is a format error that carries the length and
/// the record width. Nothing is cut off or filled up.
pub fn check_record_layout(payload: Vec<u8>) -> (checked: Result<Vec<u8>, Bi5Error>)
    ensures
        spec_same_result(checked, spec_checked(payload@)),
        payload@.len() % 20 != 0 ==> checked == Err::<Vec<u8>, Bi5Error>(
            Bi5Error::Format { len: payload.len(), width: 20 },
        ),
        payload@.len() % 20 == 0 ==> checked == Ok::<Vec<u8>, Bi5Error>(payload),
{
    let len: usize = payload.len();
    if len % crate::tick::TICK_WIDTH != 0 {
        Err(Bi5Error::Format { len, width: crate::tick::TICK_WIDTH })
    } else {
        Ok(payload)
    }
}

/// Decompresses the bytes of one file and checks the payload's length. An
/// empty file is an empty payload and is not handed to the decoder.
pub fn decode_payload(compressed: &Vec<u8>) -> (payload: Result<Vec<u8>, Bi5Error>)
    ensures
        spec_same_result(payload, spec_payload(compressed@)),
        compressed@.len() == 0 ==> payload is Ok,
{
    if compressed.len() == 0 {
        let empty: Vec<u8> = Vec::new();
        assert(empty@ =~= Seq::<u8>::empty());
        return Ok(empty);
    }
    match lzma_decompress(compressed) {
        Ok(decoded) => check_record_layout(decoded),
        Err(_) => Err(Bi5Error::Decompress),
    }
}

} // verus!
