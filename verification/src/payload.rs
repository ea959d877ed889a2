//! The payload decoder: the dump arrives as a text-safe encoding (base64) of
//! a compressed byte stream (gzip) of UTF-8 SQL text. `decode_payload`
//! reverses both stages and validates the text; `encode_for_transport` is the
//! service-side encoding, the exact inverse, and exists so that the round
//! trip can be stated and tested.

use vstd::prelude::*;
use vstd::utf8::{valid_utf8, decode_utf8, encode_utf8_valid_utf8, encode_utf8_decode_utf8};
use base64::Engine;
use std::io::Read;
use std::io::Write;

verus! {

/// What the standard base64 decoder yields on a given text: `Some` of the
/// decoded bytes where the text is well-formed base64, `None` otherwise.
/// The result depends on the characters of the text alone.
pub uninterp spec fn b64_decode_of(s: Seq<char>) -> Option<Seq<u8>>;

/// What gzip decompression yields on a given byte stream: `Some` of the
/// decompressed bytes where the stream is a well-formed gzip member, `None`
/// on a corrupt or truncated stream. The result depends on the bytes alone.
pub uninterp spec fn gunzip_of(b: Seq<u8>) -> Option<Seq<u8>>;

/// The error cases of the payload decoder, one per stage.
#[derive(Clone, Copy, Debug, PartialEq, Eq, Structural)]
pub enum PayloadError {
    /// The text is not well-formed base64.
    Decode,
    /// The decoded bytes are not a well-formed gzip stream.
    Decompress,
    /// The decompressed bytes are not valid UTF-8.
    Encoding,
}

/// Relies on base64's `Engine::decode` with the standard alphabet: the result
/// is a function of the input characters alone; `Ok` exactly on well-formed
/// base64 text.
#[verifier::external_body]
fn base64_decode_raw(s: &str) -> (r: Option<Vec<u8>>)
    ensures
        match r {
            Some(v) => b64_decode_of(s@) == Some(v@),
            None => b64_decode_of(s@) is None,
        },
{
    base64::engine::general_purpose::STANDARD.decode(s).ok()
}

/// Relies on base64's `Engine::encode` with the standard alphabet: decoding
/// the encoded text yields the input bytes again. The encoder's only panic is
/// an overflow computing the output length, which needs an input longer than
/// a Rust slice can be (its length is capped at `isize::MAX`).
#[verifier::external_body]
fn base64_encode_raw(b: &[u8]) -> (r: String)
    ensures
        b64_decode_of(r@) == Some(b@),
{
    base64::engine::general_purpose::STANDARD.encode(b)
}

/// Relies on flate2's `read::GzDecoder`: reading it to the end yields the
/// decompressed bytes of a well-formed gzip stream and an error otherwise;
/// the outcome is a function of the input bytes alone.
#[verifier::external_body]
fn gzip_decompress_raw(b: &[u8]) -> (r: Option<Vec<u8>>)
    ensures
        match r {
            Some(v) => gunzip_of(b@) == Some(v@),
            None => gunzip_of(b@) is None,
        },
{
    let mut decoder = flate2::read::GzDecoder::new(b);
    let mut out: Vec<u8> = Vec::new();
    match decoder.read_to_end(&mut out) {
        Ok(_) => Some(out),
        Err(_) => None,
    }
}

/// Relies on flate2's `write::GzEncoder`: decompressing the stream it
/// produces yields the input bytes again. Writing and finishing cannot fail
/// here, since the sink is an in-memory vector whose writes never error.
#[verifier::external_body]
fn gzip_compress_raw(b: &[u8]) -> (r: Vec<u8>)
    ensures
        gunzip_of(r@) == Some(b@),
{
    let mut encoder = flate2::write::GzEncoder::new(Vec::new(), flate2::Compression::default());
    encoder.write_all(b).expect("writing to an in-memory encoder cannot fail");
    encoder.finish().expect("finishing an in-memory encoder cannot fail")
}

/// Relies on std's `String::from_utf8`: `Ok` of the decoded string exactly on
/// valid UTF-8 input.
#[verifier::external_body]
fn bytes_to_string(b: Vec<u8>) -> (r: Option<String>)
    ensures
        match r {
            Some(s) => valid_utf8(b@) && s@ == decode_utf8(b@),
            None => !valid_utf8(b@),
        },
{
    String::from_utf8(b).ok()
}

/// Whether the full decoding of a payload text succeeds: the text is
/// well-formed base64, the decoded bytes a well-formed gzip stream, and the
/// decompressed bytes valid UTF-8.
pub open spec fn decode_ok(s: Seq<char>) -> bool {
    &&& b64_decode_of(s) is Some
    &&& gunzip_of(b64_decode_of(s)->Some_0) is Some
    &&& valid_utf8(gunzip_of(b64_decode_of(s)->Some_0)->Some_0)
}

/// The text a successfully decoded payload yields.
pub open spec fn decoded_text(s: Seq<char>) -> Seq<char>
    recommends
        decode_ok(s),
{
    decode_utf8(gunzip_of(b64_decode_of(s)->Some_0)->Some_0)
}

/// The error a failing decode yields: the first stage that fails names it.
pub open spec fn decode_err(s: Seq<char>) -> PayloadError {
    if b64_decode_of(s) is None {
        PayloadError::Decode
    } else if gunzip_of(b64_decode_of(s)->Some_0) is None {
        PayloadError::Decompress
    } else {
        PayloadError::Encoding
    }
}

/// Reverses the transport encoding of a payload: base64-decodes the text,
/// decompresses the gzip stream, and validates the result as UTF-8 text.
/// A malformed payload is a terminal error; each stage names its own error.
pub fn decode_payload(s: &str) -> (r: Result<String, PayloadError>)
    ensures
        r is Ok <==> decode_ok(s@),
        r matches Ok(t) ==> t@ == decoded_text(s@),
        r matches Err(e) ==> e == decode_err(s@),
{
    let raw = match base64_decode_raw(s) {
        Some(v) => v,
        None => {
            return Err(PayloadError::Decode);
        },
    };
    let bytes = match gzip_decompress_raw(raw.as_slice()) {
        Some(v) => v,
        None => {
            return Err(PayloadError::Decompress);
        },
    };
    match bytes_to_string(bytes) {
        Some(t) => Ok(t),
        None => Err(PayloadError::Encoding),
    }
}

/// The service-side encoding of a text: gzip-compress its UTF-8 bytes, then
/// base64-encode the stream. The contract states the round trip: decoding the
/// result succeeds and yields the input text again.
pub fn encode_for_transport(t: &str) -> (r: String)
    ensures
        decode_ok(r@),
        decoded_text(r@) == t@,
{
    let bytes = t.as_bytes();
    let compressed = gzip_compress_raw(bytes);
    let encoded = base64_encode_raw(compressed.as_slice());
    proof {
        encode_utf8_valid_utf8(t@);
        encode_utf8_decode_utf8(t@);
    }
    encoded
}

} // verus!
