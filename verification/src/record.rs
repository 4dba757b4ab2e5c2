//! A record of a delivery: base64 text around bytes that may be compressed.
use crate::codec::{base64_decode, base64_encode, gunzip, gzip};
use crate::compression::Compression;
use vstd::prelude::*;

verus! {

/// Why a record could not be decoded.
#[derive(Clone, Copy, Debug, PartialEq, Eq, Structural)]
pub enum RecordDecodeError {
    /// The record is no base64 text.
    Base64,
    /// The record's bytes do not decompress by the scheme that they have to follow.
    Decompression { compression: Compression },
}

/// Why a record could not be encoded.
pub enum RecordEncodeError {
    /// The compressor failed.
    Compression(std::io::Error),
    /// The record's text would be longer than memory can hold.
    TooLong,
}

/// What a record stands for, given the bytes under its base64 text and what decompressing those
/// bytes gives (`None` where they do not decompress).
pub open spec fn payload(
    bytes: Seq<u8>,
    compression: Compression,
    decompressed: Option<Seq<u8>>,
) -> Result<Seq<u8>, RecordDecodeError> {
    if bytes.len() == 0 {
        Ok(bytes)
    } else {
        match compression {
            Compression::Uncompressed => Ok(bytes),
            Compression::Gzip => match decompressed {
                Some(plain) => Ok(plain),
                None => Err(RecordDecodeError::Decompression { compression }),
            },
            Compression::Auto => match decompressed {
                Some(plain) if crate::codec::has_gzip_signature(bytes) => Ok(plain),
                _ => Ok(bytes),
            },
        }
    }
}

/// What a record with this base64 text stands for.
pub open spec fn decoded(text: Seq<char>, compression: Compression) -> Result<
    Seq<u8>,
    RecordDecodeError,
> {
    match crate::codec::base64_bytes(text) {
        Some(bytes) => payload(bytes, compression, crate::codec::gunzipped(bytes)),
        None => Err(RecordDecodeError::Base64),
    }
}

/// The model of a decoding result: its bytes, or its error.
pub open spec fn outcome(result: Result<Vec<u8>, RecordDecodeError>) -> Result<
    Seq<u8>,
    RecordDecodeError,
> {
    match result {
        Ok(bytes) => Ok(bytes@),
        Err(error) => Err(error),
    }
}

/// Whether the data carries the file signature of gzip.
pub fn is_gzip(data: &[u8]) -> (found: bool)
    ensures
        found == crate::codec::has_gzip_signature(data@),
        found <==> data@.len() >= 3 && data@[0] == 0x1f && data@[1] == 0x8b && data@[2] == 0x08,
{
    data.len() >= 3 && data[0] == 0x1f && data[1] == 0x8b && data[2] == 0x08
}

/// What a record stands for, once its bytes are known and, where `compression` has them
/// decompressed, what that gave.
pub fn select_payload(
    bytes: Vec<u8>,
    compression: Compression,
    decompressed: Option<Vec<u8>>,
) -> (result: Result<Vec<u8>, RecordDecodeError>)
    ensures
        outcome(result) == payload(
            bytes@,
            compression,
            match decompressed {
                Some(plain) => Some(plain@),
                None => None,
            },
        ),
        bytes@.len() == 0 || compression == Compression::Uncompressed ==> (result matches Ok(kept)
            && kept@ == bytes@),
        bytes@.len() > 0 && compression == Compression::Gzip ==> match decompressed {
            Some(plain) => result matches Ok(given) && given@ == plain@,
            None => result matches Err(error) && error == (RecordDecodeError::Decompression {
                compression,
            }),
        },
        compression == Compression::Auto ==> match decompressed {
            Some(plain) if bytes@.len() >= 3 && bytes@[0] == 0x1f && bytes@[1] == 0x8b && bytes@[2]
                == 0x08 => result matches Ok(given) && given@ == plain@,
            _ => result matches Ok(kept) && kept@ == bytes@,
        },
{
    if bytes.len() == 0 {
        return Ok(bytes);
    }
    match compression {
        Compression::Uncompressed => Ok(bytes),
        Compression::Gzip => match decompressed {
            Some(plain) => Ok(plain),
            None => Err(RecordDecodeError::Decompression { compression }),
        },
        Compression::Auto => {
            if is_gzip(bytes.as_slice()) {
                match decompressed {
                    Some(plain) => Ok(plain),
                    None => Ok(bytes),
                }
            } else {
                Ok(bytes)
            }
        },
    }
}

/// Decodes a record: takes its bytes out of the base64 text, and decompresses them as
/// `compression` has it.
///
/// Text that is no base64 is refused, whatever the scheme. No other text is refused but under
/// `Gzip`, which refuses all bytes that do not decompress, and so all without the signature of
/// gzip; an empty record is taken to be empty under every scheme.
pub fn decode_record(data: &str, compression: Compression) -> (result: Result<
    Vec<u8>,
    RecordDecodeError,
>)
    ensures
        outcome(result) == decoded(data@, compression),
        compression != Compression::Gzip ==> (result is Err <==> crate::codec::base64_bytes(
            data@,
        ) is None),
        compression == Compression::Gzip ==> (crate::codec::base64_bytes(data@) matches Some(bytes)
            ==> bytes.len() > 0 && !crate::codec::has_gzip_signature(bytes) ==> result == Err::<
            Vec<u8>,
            RecordDecodeError,
        >(RecordDecodeError::Decompression { compression })),
        match crate::codec::base64_bytes(data@) {
            None => result matches Err(error) && error == RecordDecodeError::Base64,
            Some(bytes) => {
                &&& bytes.len() == 0 || compression == Compression::Uncompressed ==> (
                result matches Ok(kept) && kept@ == bytes)
                &&& bytes.len() > 0 && compression == Compression::Gzip ==> (
                match crate::codec::gunzipped(bytes) {
                    Some(plain) => result matches Ok(given) && given@ == plain,
                    None => result matches Err(error) && error == (
                    RecordDecodeError::Decompression { compression }),
                })
                &&& compression == Compression::Auto ==> (match crate::codec::gunzipped(bytes) {
                    Some(plain) if bytes.len() >= 3 && bytes[0] == 0x1f && bytes[1] == 0x8b
                        && bytes[2] == 0x08 => result matches Ok(given) && given@ == plain,
                    _ => result matches Ok(kept) && kept@ == bytes,
                })
            },
        },
{
    let bytes = match base64_decode(data) {
        Ok(bytes) => bytes,
        Err(_) => return Err(RecordDecodeError::Base64),
    };
    let attempt = match compression {
        Compression::Uncompressed => false,
        Compression::Gzip => true,
        Compression::Auto => is_gzip(bytes.as_slice()),
    };
    let decompressed = if attempt {
        match gunzip(bytes.as_slice()) {
            Ok(plain) => Some(plain),
            Err(_) => None,
        }
    } else {
        None
    };
    select_payload(bytes, compression, decompressed)
}

/// The bytes that base64 text can be made of: four characters for each three bytes begun, and at
/// most `isize::MAX` of them.
pub open spec fn fits_in_text(bytes: Seq<u8>) -> bool {
    bytes.len() <= isize::MAX / 4 * 3
}

/// Encodes a record as Firehose delivers it: compressed by the given scheme, then as base64 text.
/// An empty record stays empty under every scheme.
///
/// Decoded by the same scheme the record comes back, and if it was compressed, by `Auto` too. The
/// text is that of gzip data which decompresses to the record, and is refused as too long only
/// where such data does not fit. The compressor's error comes only where it ran and failed.
pub fn encode_record(record: &[u8], compression: Compression) -> (result: Result<
    String,
    RecordEncodeError,
>)
    requires
        compression != Compression::Auto,
    ensures
        result matches Ok(text) ==> decoded(text@, compression) == Ok::<Seq<u8>, RecordDecodeError>(
            record@,
        ),
        result matches Ok(text) ==> compression == Compression::Gzip ==> decoded(
            text@,
            Compression::Auto,
        ) == Ok::<Seq<u8>, RecordDecodeError>(record@),
        compression == Compression::Uncompressed || record@.len() == 0 ==> match result {
            Ok(text) => text@ == crate::codec::base64_text(record@) && fits_in_text(record@),
            Err(error) => error is TooLong && !fits_in_text(record@),
        },
        compression == Compression::Gzip && record@.len() > 0 ==> match result {
            Ok(text) => crate::codec::compresses(record@) && exists|bytes: Seq<u8>| #[trigger]
                crate::codec::gunzipped(bytes) == Some(record@) && crate::codec::has_gzip_signature(
                    bytes,
                ) && fits_in_text(bytes) && text@ == crate::codec::base64_text(bytes),
            Err(RecordEncodeError::TooLong) => crate::codec::compresses(record@) && exists|
                bytes: Seq<u8>,
            | #[trigger]
                crate::codec::gunzipped(bytes) == Some(record@) && crate::codec::has_gzip_signature(
                    bytes,
                ) && !fits_in_text(bytes),
            Err(RecordEncodeError::Compression(_)) => !crate::codec::compresses(record@),
        },
        compression == Compression::Uncompressed || record@.len() == 0 ==> (result is Ok
            <==> record@.len() <= isize::MAX / 4 * 3),
        result matches Ok(text) ==> (crate::codec::base64_bytes(text@) matches Some(bytes) && {
            &&& compression == Compression::Uncompressed || record@.len() == 0 ==> bytes == record@
            &&& compression == Compression::Gzip && record@.len() > 0 ==> crate::codec::gunzipped(
                bytes,
            ) == Some(record@) && bytes.len() >= 3 && bytes[0] == 0x1f && bytes[1] == 0x8b
                && bytes[2] == 0x08
        }),
        compression == Compression::Gzip && record@.len() > 0 ==> (result matches Err(error)
            ==> error is TooLong ==> exists|bytes: Seq<u8>| #[trigger]
            crate::codec::gunzipped(bytes) == Some(record@) && bytes.len() > isize::MAX / 4 * 3),
{
    if let Compression::Gzip = compression {
        if record.len() > 0 {
            return match gzip(record) {
                Ok(bytes) => encode_payload(bytes.as_slice()),
                Err(error) => Err(RecordEncodeError::Compression(error)),
            };
        }
    }
    encode_payload(record)
}

/// The base64 text of the bytes of a record.
pub fn encode_payload(bytes: &[u8]) -> (result: Result<String, RecordEncodeError>)
    ensures
        match result {
            Ok(text) => fits_in_text(bytes@) && text@ == crate::codec::base64_text(bytes@)
                && crate::codec::base64_bytes(text@) == Some(bytes@),
            Err(error) => error is TooLong && !fits_in_text(bytes@),
        },
        result is Ok <==> bytes@.len() <= isize::MAX / 4 * 3,
        result matches Ok(text) ==> crate::codec::base64_bytes(text@) == Some(bytes@),
{
    let longest: usize = isize::MAX as usize / 4 * 3;
    if bytes.len() <= longest {
        Ok(base64_encode(bytes))
    } else {
        Err(RecordEncodeError::TooLong)
    }
}

/// Under `Auto` no record is refused for its bytes: those that do not decompress, and those without
/// the signature, are forwarded as they came.
pub proof fn law_auto_refuses_nothing(bytes: Seq<u8>, decompressed: Option<Seq<u8>>)
    ensures
        payload(bytes, Compression::Auto, decompressed) is Ok,
        decompressed is None || !crate::codec::has_gzip_signature(bytes) ==> payload(
            bytes,
            Compression::Auto,
            decompressed,
        ) == Ok::<Seq<u8>, RecordDecodeError>(bytes),
{
}

/// `Gzip` refuses a record if and only if there is something in it that does not decompress. Data
/// that carries the signature and decompresses is taken alike by `Gzip` and `Auto`.
pub proof fn law_gzip_refuses_what_is_not_compressed(
    bytes: Seq<u8>,
    decompressed: Option<Seq<u8>>,
)
    ensures
        payload(bytes, Compression::Gzip, decompressed) is Err <==> bytes.len() > 0 && decompressed
            is None,
        decompressed is Some && crate::codec::has_gzip_signature(bytes) ==> payload(
            bytes,
            Compression::Gzip,
            decompressed,
        ) == payload(bytes, Compression::Auto, decompressed),
{
}

/// `Uncompressed` forwards every record as it came, compressed ones too.
pub proof fn law_uncompressed_leaves_bytes_alone(bytes: Seq<u8>, decompressed: Option<Seq<u8>>)
    ensures
        payload(bytes, Compression::Uncompressed, decompressed) == Ok::<
            Seq<u8>,
            RecordDecodeError,
        >(bytes),
{
}

/// An empty record is empty under every scheme.
pub proof fn law_empty_record_is_empty(compression: Compression, decompressed: Option<Seq<u8>>)
    ensures
        payload(Seq::empty(), compression, decompressed) == Ok::<Seq<u8>, RecordDecodeError>(
            Seq::empty(),
        ),
{
}

/// Bytes fit exactly where their text does: the four characters for each three bytes begun are at
/// most as many as a buffer can hold.
pub proof fn law_bytes_fit_where_their_text_does(bytes: Seq<u8>)
    ensures
        fits_in_text(bytes) <==> (bytes.len() + 2) / 3 * 4 <= isize::MAX,
{
}

/// A record that is not gzip data, or does not decompress, is forwarded under `Auto` as it came:
/// what decoding its text gives is the bytes under the text.
pub proof fn law_auto_forwards_plain_records_as_they_came(text: Seq<char>, bytes: Seq<u8>)
    requires
        crate::codec::base64_bytes(text) == Some(bytes),
        crate::codec::gunzipped(bytes) is None || !(bytes.len() >= 3 && bytes[0] == 0x1f && bytes[1]
            == 0x8b && bytes[2] == 0x08),
    ensures
        decoded(text, Compression::Auto) == Ok::<Seq<u8>, RecordDecodeError>(bytes),
{
}

/// Gzip data is decompressed under `Auto` and `Gzip` alike, and comes out whole: what decoding its
/// text gives is all that decompressing the bytes gives.
pub proof fn law_gzip_records_are_decompressed(
    text: Seq<char>,
    bytes: Seq<u8>,
    plain: Seq<u8>,
)
    requires
        crate::codec::base64_bytes(text) == Some(bytes),
        crate::codec::gunzipped(bytes) == Some(plain),
        bytes.len() >= 3 && bytes[0] == 0x1f && bytes[1] == 0x8b && bytes[2] == 0x08,
    ensures
        decoded(text, Compression::Auto) == Ok::<Seq<u8>, RecordDecodeError>(plain),
        decoded(text, Compression::Gzip) == Ok::<Seq<u8>, RecordDecodeError>(plain),
{
}

/// What each scheme makes of the text of a record. `Uncompressed` gives its bytes; `Gzip` gives
/// what they decompress to or refuses them, and lets an empty record be empty; text that is no
/// base64 is refused under all schemes, and for nothing else.
pub proof fn law_text_of_a_record_is_decoded(text: Seq<char>, compression: Compression)
    ensures
        crate::codec::base64_bytes(text) is None <==> decoded(text, compression) == Err::<
            Seq<u8>,
            RecordDecodeError,
        >(RecordDecodeError::Base64),
        crate::codec::base64_bytes(text) matches Some(bytes) ==> {
            &&& decoded(text, Compression::Uncompressed) == Ok::<Seq<u8>, RecordDecodeError>(bytes)
            &&& bytes.len() == 0 ==> decoded(text, compression) == Ok::<
                Seq<u8>,
                RecordDecodeError,
            >(bytes)
            &&& bytes.len() > 0 ==> (match crate::codec::gunzipped(bytes) {
                Some(plain) => decoded(text, Compression::Gzip) == Ok::<
                    Seq<u8>,
                    RecordDecodeError,
                >(plain),
                None => decoded(text, Compression::Gzip) == Err::<Seq<u8>, RecordDecodeError>(
                    RecordDecodeError::Decompression { compression: Compression::Gzip },
                ),
            })
            &&& decoded(text, Compression::Auto) is Ok
        },
{
}

/// Whatever the scheme, decoding makes nothing up: what it gives is the bytes under the text, or
/// what these decompress to.
pub proof fn law_decoding_makes_nothing_up(text: Seq<char>, compression: Compression)
    ensures
        decoded(text, compression) matches Ok(given) ==> (crate::codec::base64_bytes(
            text,
        ) matches Some(bytes) && (given == bytes || crate::codec::gunzipped(bytes) == Some(given))),
{
}

/// A result of decoding and its model hold the same bytes, or the same error.
pub proof fn law_outcome_is_the_result(result: Result<Vec<u8>, RecordDecodeError>)
    ensures
        result matches Ok(bytes) ==> outcome(result) == Ok::<Seq<u8>, RecordDecodeError>(bytes@),
        result matches Err(error) ==> outcome(result) == Err::<Seq<u8>, RecordDecodeError>(error),
{
}


} // verus!
