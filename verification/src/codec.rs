//! The two outside encodings that a record travels in: base64 text and gzip.
use std::io::Read;
use vstd::prelude::*;

verus! {

/// The error of `base64::decode`.
#[verifier::external_type_specification]
#[verifier::external_body]
pub struct ExDecodeError(base64::DecodeError);

/// The error of a read from a gzip stream.
#[verifier::external_type_specification]
#[verifier::external_body]
pub struct ExIoError(std::io::Error);

/// The file signature of gzip data: two identification bytes, then the method, which is always
/// deflate.
pub open spec fn has_gzip_signature(data: Seq<u8>) -> bool {
    data.len() >= 3 && data[0] == 0x1f && data[1] == 0x8b && data[2] == 0x08
}

/// The text that `base64::encode` gives for these bytes.
pub uninterp spec fn base64_text(data: Seq<u8>) -> Seq<char>;

/// The bytes that `base64::decode` finds in this text, or `None` where it refuses the text.
pub uninterp spec fn base64_bytes(text: Seq<char>) -> Option<Seq<u8>>;

/// Whether `flate2::read::GzEncoder` at its fast level can be read to its end over these bytes.
pub uninterp spec fn compresses(data: Seq<u8>) -> bool;

/// What `flate2::read::MultiGzDecoder` reads from these bytes up to their end, or `None` where a
/// read fails.
pub uninterp spec fn gunzipped(data: Seq<u8>) -> Option<Seq<u8>>;

/// Calls `base64::encode`: the standard alphabet, padded. Claimed: the text is a function of the
/// bytes, and `base64::decode` gives the bytes back. `base64::encode` fills a buffer of four
/// characters for each three bytes begun, and panics where that is over what a buffer can hold,
/// `isize::MAX` bytes.
#[verifier::external_body]
pub(crate) fn base64_encode(data: &[u8]) -> (text: String)
    requires
        data@.len() <= isize::MAX / 4 * 3,
    ensures
        text@ == base64_text(data@),
        base64_bytes(text@) == Some(data@),
{
    base64::encode(data)
}

/// Calls `base64::decode`. Claimed: whether it succeeds, and with which bytes, is a function of
/// the text.
#[verifier::external_body]
pub(crate) fn base64_decode(text: &str) -> (decoded: Result<Vec<u8>, base64::DecodeError>)
    ensures
        match decoded {
            Ok(data) => base64_bytes(text@) == Some(data@),
            Err(_) => base64_bytes(text@) is None,
        },
{
    base64::decode(text)
}

/// Reads a `flate2::read::GzEncoder` to its end. Claimed, as long as memory lasts: whether the read
/// succeeds is a function of `data`, since a slice cannot fail to be read and nothing else enters
/// the compressor. Claimed of the compressed bytes: they begin with the signature, and
/// `flate2::read::MultiGzDecoder` gives `data` back. Which of the many such byte strings it is, and
/// on which data the compressor would fail, is left unsaid.
#[verifier::external_body]
pub(crate) fn gzip(data: &[u8]) -> (compressed: Result<Vec<u8>, std::io::Error>)
    ensures
        compressed is Ok <==> compresses(data@),
        compressed matches Ok(bytes) ==> has_gzip_signature(bytes@) && gunzipped(bytes@) == Some(
            data@,
        ),
{
    let mut bytes = Vec::new();
    flate2::read::GzEncoder::new(data, flate2::Compression::fast()).read_to_end(&mut bytes)?;
    Ok(bytes)
}

/// Reads a `flate2::read::MultiGzDecoder` to its end. Claimed, as long as memory lasts: whether
/// the read succeeds, and with which bytes, is a function of `data`; and it succeeds only on data
/// with the signature, which the decoder checks first.
#[verifier::external_body]
pub(crate) fn gunzip(data: &[u8]) -> (decompressed: Result<Vec<u8>, std::io::Error>)
    ensures
        match decompressed {
            Ok(bytes) => gunzipped(data@) == Some(bytes@),
            Err(_) => gunzipped(data@) is None,
        },
        decompressed is Ok ==> has_gzip_signature(data@),
{
    let mut bytes = Vec::new();
    flate2::read::MultiGzDecoder::new(data).read_to_end(&mut bytes)?;
    Ok(bytes)
}

} // verus!
