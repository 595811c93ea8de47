//! Encodings of bytes and text that outside code computes: base64, gzip,
//! trimming and lossy UTF-8 decoding.

use base64::Engine;
use std::io::Write;
use vstd::prelude::*;

verus! {

/// The standard base64 text, with padding, of a sequence of bytes.
pub uninterp spec fn base64_text(bytes: Seq<u8>) -> Seq<char>;

/// The bytes that a standard base64 text with padding stands for; nothing
/// where the text is not such a text.
pub uninterp spec fn base64_bytes(text: Seq<char>) -> Option<Seq<u8>>;

/// The gzip stream that `flate2` writes into memory for a sequence of bytes
/// at its fastest compression level, with the default header; nothing where
/// the encoder reports an error.
pub uninterp spec fn gzip_bytes(bytes: Seq<u8>) -> Option<Seq<u8>>;

/// A text without its leading and trailing white space, as `str::trim`
/// defines it.
pub uninterp spec fn trimmed(text: Seq<char>) -> Seq<char>;

/// The text that a sequence of bytes decodes to as UTF-8, with the
/// replacement character in place of each invalid part.
pub uninterp spec fn lossy_text(bytes: Seq<u8>) -> Seq<char>;

/// `Engine::encode` of `base64::engine::general_purpose::STANDARD`. The
/// length bound keeps the encoded length within `usize`, where the engine
/// would panic.
#[verifier::external_body]
pub(crate) fn base64_encode(bytes: &[u8]) -> (r: String)
    requires
        bytes@.len() <= isize::MAX,
    ensures
        r@ == base64_text(bytes@),
{
    base64::engine::general_purpose::STANDARD.encode(bytes)
}

/// `Engine::decode` of `base64::engine::general_purpose::STANDARD`: the
/// decoded bytes, or nothing where the engine reports an error.
#[verifier::external_body]
pub(crate) fn base64_decode(text: &str) -> (r: Option<Vec<u8>>)
    ensures
        r matches Some(bytes) ==> base64_bytes(text@) == Some(bytes@),
        r is None ==> base64_bytes(text@) is None,
{
    base64::engine::general_purpose::STANDARD.decode(text.as_bytes()).ok()
}

/// `flate2::write::GzEncoder` over a `Vec<u8>` at `Compression::fast()`:
/// writes all the bytes and finishes the stream. Nothing is returned where
/// the encoder reports an error; whether it does depends on the bytes alone,
/// since the stream is written into memory.
#[verifier::external_body]
pub(crate) fn gzip_compress(bytes: &[u8]) -> (r: Option<Vec<u8>>)
    ensures
        r matches Some(out) ==> gzip_bytes(bytes@) == Some(out@),
        r is None ==> gzip_bytes(bytes@) is None,
{
    let mut encoder = flate2::write::GzEncoder::new(Vec::new(), flate2::Compression::fast());
    encoder.write_all(bytes).ok()?;
    encoder.finish().ok()
}

/// `str::trim`.
#[verifier::external_body]
pub(crate) fn trim_text(text: &str) -> (r: &str)
    ensures
        r@ == trimmed(text@),
{
    text.trim()
}

/// `String::from_utf8_lossy`, as an owned string.
#[verifier::external_body]
pub(crate) fn decode_lossy(bytes: &[u8]) -> (r: String)
    ensures
        r@ == lossy_text(bytes@),
{
    String::from_utf8_lossy(bytes).into_owned()
}

} // verus!
