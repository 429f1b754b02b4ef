//! The codec stage: lossless re-encoding of a payload according to its
//! kind. PNG payloads go through an in-process optimizer behind a trusted
//! wrapper; JPEG payloads need an external tool that only the caller can
//! run, so the stage hands them back and later judges what the tool
//! produced; all other payloads pass through unchanged.

use vstd::prelude::*;
use crate::kind::FileType;
use crate::outcome::ItemError;

verus! {

/// The bytes the PNG optimizer produces for a well-formed input. A
/// function of the input bytes alone: the optimizer's trials and its
/// choice among them are deterministic.
pub uninterp spec fn png_optimized(input: Seq<u8>) -> Seq<u8>;

/// Whether the PNG optimizer accepts an input whose chunk structure is
/// sound. A function of the input bytes alone, like the output itself.
pub uninterp spec fn png_accepted(input: Seq<u8>) -> bool;

/// The big-endian 32-bit value whose four bytes start at `off`.
pub open spec fn be_u32_at(bytes: Seq<u8>, off: int) -> int {
    (bytes[off] as int) * 0x1000000 + (bytes[off + 1] as int) * 0x10000 + (bytes[off + 2] as int)
        * 0x100 + (bytes[off + 3] as int)
}

/// Whether the chunk whose length field starts at `off` carries the name
/// `a b c d`.
pub open spec fn chunk_named(bytes: Seq<u8>, off: int, a: u8, b: u8, c: u8, d: u8) -> bool {
    bytes[off + 4] == a && bytes[off + 5] == b && bytes[off + 6] == c && bytes[off + 7] == d
}

/// The optimizer's chunk walk from `off`, judged for safety. A chunk is a
/// 4-byte length, a 4-byte name, the data, and a 4-byte checksum; the walk
/// stops at a truncated chunk or at `IEND`. The one thing the optimizer's
/// parser reads past the data's length is the leading 4 bytes of an
/// animation chunk (`fcTL` or `fdAT`), so a walk that meets such a chunk
/// with shorter data is unsafe.
pub open spec fn chunks_safe_from(bytes: Seq<u8>, off: int) -> bool
    decreases bytes.len() - off,
{
    if off < 0 || off + 4 > bytes.len() {
        true
    } else {
        let l = be_u32_at(bytes, off);
        if bytes.len() < off + 12 + l {
            true
        } else if chunk_named(bytes, off, 73u8, 69u8, 78u8, 68u8) {
            true
        } else if (chunk_named(bytes, off, 102u8, 99u8, 84u8, 76u8) || chunk_named(
            bytes,
            off,
            102u8,
            100u8,
            65u8,
            84u8,
        )) && l < 4 {
            false
        } else {
            chunks_safe_from(bytes, off + 12 + l)
        }
    }
}

/// Whether the PNG optimizer's parser stays within bounds on these bytes:
/// anything without the PNG signature is turned away before the walk, and
/// a signed file must pass the chunk walk.
pub open spec fn png_parse_safe(bytes: Seq<u8>) -> bool {
    if bytes.len() < 8 {
        true
    } else if !(bytes[0] == 0x89u8 && bytes[1] == 0x50u8 && bytes[2] == 0x4Eu8 && bytes[3]
        == 0x47u8 && bytes[4] == 0x0Du8 && bytes[5] == 0x0Au8 && bytes[6] == 0x1Au8 && bytes[7]
        == 0x0Au8) {
        true
    } else {
        chunks_safe_from(bytes, 8)
    }
}

/// The big-endian 32-bit value whose four bytes start at `off`, as
/// executable code.
fn be_u32_check(bytes: &Vec<u8>, off: usize) -> (r: u32)
    requires
        off + 4 <= bytes@.len(),
    ensures
        r as int == be_u32_at(bytes@, off as int),
{
    // binds the buffer's length so the index arithmetic is known to fit in usize
    let n: usize = bytes.len();
    (bytes[off] as u32) * 0x1000000 + (bytes[off + 1] as u32) * 0x10000 + (bytes[off + 2] as u32)
        * 0x100 + (bytes[off + 3] as u32)
}

/// Walk the chunk structure of a signed PNG file and decide whether the
/// optimizer's parser stays within bounds on it.
fn png_parse_safe_check(bytes: &Vec<u8>) -> (r: bool)
    ensures
        r == png_parse_safe(bytes@),
{
    let n = bytes.len();
    if n < 8 {
        return true;
    }
    if !(bytes[0] == 0x89u8 && bytes[1] == 0x50u8 && bytes[2] == 0x4Eu8 && bytes[3] == 0x47u8
        && bytes[4] == 0x0Du8 && bytes[5] == 0x0Au8 && bytes[6] == 0x1Au8 && bytes[7] == 0x0Au8) {
        return true;
    }
    let mut off: usize = 8;
    loop
        invariant
            8 <= off <= n,
            n == bytes@.len(),
            png_parse_safe(bytes@) == chunks_safe_from(bytes@, off as int),
        decreases n - off,
    {
        if n - off < 4 {
            return true;
        }
        let l = be_u32_check(bytes, off);
        if n - off < 12 {
            return true;
        }
        if (l as usize) > n - off - 12 {
            return true;
        }
        let a = bytes[off + 4];
        let b = bytes[off + 5];
        let c = bytes[off + 6];
        let d = bytes[off + 7];
        if a == 73u8 && b == 69u8 && c == 78u8 && d == 68u8 {
            return true;
        }
        let animation = (a == 102u8 && b == 99u8 && c == 84u8 && d == 76u8) || (a == 102u8 && b
            == 100u8 && c == 65u8 && d == 84u8);
        if animation && l < 4 {
            return false;
        }
        off = off + 12 + (l as usize);
    }
}

/// Relies on oxipng::optimize_from_memory with oxipng::Options::default():
/// losslessly re-encodes a PNG, returning bytes that depend on the input
/// alone, and an error when the input is not a well-formed PNG or the
/// optimizer rejects it; whether it accepts is a function of the input
/// alone as well. Its parser reads the first four data bytes of an
/// animation chunk without a length check, so inputs on which that walk
/// is unsafe are kept out.
#[verifier::external_body]
fn optimize_png_call(input: &Vec<u8>) -> (r: Result<Vec<u8>, String>)
    requires
        png_parse_safe(input@),
    ensures
        r is Ok <==> png_accepted(input@),
        r matches Ok(v) ==> v@ == png_optimized(input@),
{
    match oxipng::optimize_from_memory(input.as_slice(), &oxipng::Options::default()) {
        Ok(v) => Ok(v),
        Err(e) => Err(format!("{}", e)),
    }
}

/// Optimize a PNG payload. The call succeeds exactly when the chunk walk
/// is safe and the optimizer accepts the bytes; on success the result is
/// the optimizer's output for these bytes, and on failure the error is a
/// codec error.
pub fn run_png(input: &Vec<u8>) -> (r: Result<Vec<u8>, ItemError>)
    ensures
        r is Ok <==> png_parse_safe(input@) && png_accepted(input@),
        r matches Ok(v) ==> v@ == png_optimized(input@),
        r matches Err(e) ==> e is Codec,
{
    if !png_parse_safe_check(input) {
        return Err(ItemError::Codec("the input's chunk structure is malformed".to_owned()));
    }
    match optimize_png_call(input) {
        Ok(v) => Ok(v),
        Err(m) => Err(ItemError::Codec(m)),
    }
}

/// Pass a payload of no known image kind through unchanged.
pub fn run_other(input: Vec<u8>) -> (r: Vec<u8>)
    ensures
        r == input,
{
    input
}

/// Judge what the external JPEG tool produced: its output stream is the
/// optimized payload exactly when the tool exited successfully and wrote
/// something; a failed exit or an empty (truncated) stream is a codec
/// error.
pub fn collect_jpeg(exit_ok: bool, stdout: Vec<u8>) -> (r: Result<Vec<u8>, ItemError>)
    ensures
        exit_ok && stdout@.len() > 0 ==> (r matches Ok(v) && v == stdout),
        !(exit_ok && stdout@.len() > 0) ==> (r matches Err(e) && e is Codec),
{
    if exit_ok {
        if stdout.len() > 0 {
            Ok(stdout)
        } else {
            Err(ItemError::Codec("the optimizer produced no output".to_owned()))
        }
    } else {
        Err(ItemError::Codec("the optimizer exited with a failure status".to_owned()))
    }
}

/// What the codec stage decided for one payload.
pub enum CodecStep {
    /// The stage finished on its own: the optimized payload, or a codec
    /// error.
    Ready(Result<Vec<u8>, ItemError>),
    /// The payload is a JPEG: feed these bytes to the external tool and
    /// judge its output with `collect_jpeg`.
    External(Vec<u8>),
}

/// Dispatch one payload by its kind: PNGs are optimized here, unknown
/// kinds pass through unchanged, and JPEGs are handed back for the
/// external tool.
pub fn codec_step(k: FileType, input: Vec<u8>) -> (r: CodecStep)
    ensures
        k == FileType::Png ==> (r matches CodecStep::Ready(res) && (res is Ok <==> png_parse_safe(
            input@,
        ) && png_accepted(input@)) && (res matches Ok(v) ==> v@ == png_optimized(input@)) && (
        res matches Err(e) ==> e is Codec)),
        k == FileType::Other ==> (r matches CodecStep::Ready(Ok(v)) && v == input),
        k == FileType::Jpeg ==> (r matches CodecStep::External(v) && v == input),
{
    match k {
        FileType::Png => CodecStep::Ready(run_png(&input)),
        FileType::Jpeg => CodecStep::External(input),
        FileType::Other => CodecStep::Ready(Ok(run_other(input))),
    }
}

} // verus!
