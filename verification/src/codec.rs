//! Compression and decompression of a whole byte buffer as one
//! self-contained LZMA stream, through the `gmod_lzma` codec.
//!
//! The compressor's exact byte output may depend on the machine (the encoder
//! is configured with as many worker threads as there are processors), so no
//! spec function names it. What every outcome satisfies is named instead:
//! `lzma_unframe` is the deterministic decoding of a byte sequence, and the
//! compressor promises that decoding its output recovers the input.

use vstd::prelude::*;
use crate::cli::Operation;
use crate::progress::dec_rep;
use vstd::string::StringExecFns;

verus! {

/// What LZMA decoding recovers from a byte sequence: decoding is a function
/// of the bytes alone, and `Some(original)` is the only value a successful
/// decode of `data` can return.
pub uninterp spec fn lzma_unframe(data: Seq<u8>) -> Option<Seq<u8>>;

/// The compression level handed to the encoder.
pub const COMPRESSION_LEVEL: i32 = 9;

/// A stream shorter than the 5 property bytes plus the 8 length bytes cannot
/// hold an LZMA header and is always rejected by the decoder.
pub const LZMA_HEADER_LEN: usize = 13;

/// Relies on `gmod_lzma::compress`: it frames its input as one complete LZMA
/// stream which `gmod_lzma::decompress` decodes back to exactly the input
/// bytes (the crate's own round-trip examples show this), its output always
/// holds at least the 5 property bytes, the 8 length bytes and a non-empty
/// payload, and on failure it reports a numeric LZMA error code.
#[verifier::external_body]
fn lzma_compress(data: &[u8], level: i32) -> (r: Result<Vec<u8>, u64>)
    ensures
        r matches Ok(out) ==> lzma_unframe(out@) == Some(data@),
        r matches Ok(out) ==> out@.len() >= LZMA_HEADER_LEN,
{
    match gmod_lzma::compress(data, level) {
        Ok(out) => Ok(out),
        Err(code) => Err(code as u64),
    }
}

/// Relies on `gmod_lzma::decompress`: decoding a byte sequence is a
/// single-threaded function of the bytes alone, so whether it succeeds and
/// what it returns are both fixed by the input; an input shorter than the 13
/// header bytes is rejected; on failure it reports a numeric LZMA error code.
#[verifier::external_body]
fn lzma_decompress(data: &[u8]) -> (r: Result<Vec<u8>, u64>)
    ensures
        r is Ok <==> lzma_unframe(data@) is Some,
        r matches Ok(out) ==> lzma_unframe(data@) == Some(out@),
        data@.len() < LZMA_HEADER_LEN ==> r is Err,
{
    match gmod_lzma::decompress(data) {
        Ok(out) => Ok(out),
        Err(code) => Err(code as u64),
    }
}

/// Why a transform failed, with the codec's numeric error code.
#[derive(Clone, Copy, PartialEq, Eq, Structural, Debug)]
pub enum CodecError {
    /// The encoder reported the given LZMA error code.
    CompressFailed(u64),
    /// The decoder reported the given LZMA error code.
    DecompressFailed(u64),
}

impl CodecError {
    /// The error text the tool reports, with the numeric code in decimal.
    pub fn message(&self) -> (r: String)
        ensures
            self matches CodecError::CompressFailed(code) ==> r@ == "Compression failed: "@
                + dec_rep(code as nat),
            self matches CodecError::DecompressFailed(code) ==> r@
                == "Decompression failed: "@ + dec_rep(code as nat),
    {
        match self {
            CodecError::CompressFailed(code) => {
                let mut r: String = "Compression failed: ".to_owned();
                r.append(crate::progress::u64_to_string(*code).as_str());
                proof {
                    assert(r@ =~= "Compression failed: "@ + dec_rep(*code as nat));
                }
                r
            },
            CodecError::DecompressFailed(code) => {
                let mut r: String = "Decompression failed: ".to_owned();
                r.append(crate::progress::u64_to_string(*code).as_str());
                proof {
                    assert(r@ =~= "Decompression failed: "@ + dec_rep(*code as nat));
                }
                r
            },
        }
    }
}

/// Compresses `data` as one self-contained LZMA stream: decoding whatever it
/// returns recovers `data` exactly, and the stream is never shorter than its
/// own header.
pub fn compress_data(data: &Vec<u8>) -> (r: Result<Vec<u8>, CodecError>)
    ensures
        r matches Ok(out) ==> lzma_unframe(out@) == Some(data@),
        r matches Ok(out) ==> out@.len() >= LZMA_HEADER_LEN,
        r matches Err(e) ==> e matches CodecError::CompressFailed(_),
{
    match lzma_compress(data.as_slice(), COMPRESSION_LEVEL) {
        Ok(out) => Ok(out),
        Err(code) => Err(CodecError::CompressFailed(code)),
    }
}

/// Decodes one self-contained LZMA stream: it succeeds exactly on the byte
/// sequences that decode, and the result is the unique sequence `data`
/// decodes to.
pub fn decompress_data(data: &Vec<u8>) -> (r: Result<Vec<u8>, CodecError>)
    ensures
        r is Ok <==> lzma_unframe(data@) is Some,
        r matches Ok(out) ==> lzma_unframe(data@) == Some(out@),
        r matches Err(e) ==> e matches CodecError::DecompressFailed(_),
        data@.len() < LZMA_HEADER_LEN ==> r is Err,
{
    match lzma_decompress(data.as_slice()) {
        Ok(out) => Ok(out),
        Err(code) => Err(CodecError::DecompressFailed(code)),
    }
}

/// Performs the requested transform on the whole input. An empty input is
/// passed through untouched: the tool writes an empty output for an empty
/// file, for either operation. A non-empty input is framed (or decoded) as
/// one complete stream, so the result does not depend on how the input was
/// read in chunks.
pub fn run_transform(op: Operation, data: &Vec<u8>) -> (r: Result<Vec<u8>, CodecError>)
    ensures
        data@.len() == 0 ==> (r matches Ok(out) && out@.len() == 0),
        op == Operation::Compress && data@.len() > 0 ==> {
            &&& r matches Ok(out) ==> (lzma_unframe(out@) == Some(data@)
                && out@.len() >= LZMA_HEADER_LEN)
            &&& r matches Err(e) ==> e matches CodecError::CompressFailed(_)
        },
        op == Operation::Decompress && data@.len() > 0 ==> {
            &&& r is Ok <==> lzma_unframe(data@) is Some
            &&& r matches Ok(out) ==> lzma_unframe(data@) == Some(out@)
            &&& r matches Err(e) ==> e matches CodecError::DecompressFailed(_)
        },
{
    if data.len() == 0 {
        Ok(Vec::new())
    } else {
        match op {
            Operation::Compress => compress_data(data),
            Operation::Decompress => decompress_data(data),
        }
    }
}

/// Compressing and then decompressing through the tool's transform always
/// reproduces the input bytes exactly, for any input size — empty, one chunk,
/// or many chunks: whenever compression succeeds, decompression of its output
/// is owed to succeed too, so only the encoder can report an error here.
pub fn round_trip(data: &Vec<u8>) -> (r: Result<Vec<u8>, CodecError>)
    ensures
        r matches Ok(out) ==> out@ == data@,
        r matches Err(e) ==> e matches CodecError::CompressFailed(_),
{
    let compressed = match run_transform(Operation::Compress, data) {
        Ok(c) => c,
        Err(e) => {
            return Err(e);
        },
    };
    match run_transform(Operation::Decompress, &compressed) {
        Ok(out) => Ok(out),
        Err(e) => {
            proof {
                assert(false);
            }
            Err(e)
        },
    }
}

} // verus!
