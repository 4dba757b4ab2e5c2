//! Records: base64 text around bytes that may be compressed.
use aws_kinesis_firehose::compression::Compression;
use aws_kinesis_firehose::record::{
    decode_record, encode_record, is_gzip, select_payload, RecordDecodeError,
};

const SCHEMES: [Compression; 3] =
    [Compression::Auto, Compression::Uncompressed, Compression::Gzip];

fn refused(compression: Compression) -> Result<Vec<u8>, RecordDecodeError> {
    Err(RecordDecodeError::Decompression { compression })
}

#[test]
fn encoded_records_decode() {
    for record in [&b""[..], &b"a"[..], &b"hello"[..], &[0u8; 70_000][..]] {
        let plain = encode_record(record, Compression::Uncompressed).ok().unwrap();
        assert_eq!(decode_record(&plain, Compression::Uncompressed), Ok(record.to_vec()));
        assert_eq!(decode_record(&plain, Compression::Auto), Ok(record.to_vec()));
        let compressed = encode_record(record, Compression::Gzip).ok().unwrap();
        assert_eq!(decode_record(&compressed, Compression::Gzip), Ok(record.to_vec()));
        assert_eq!(decode_record(&compressed, Compression::Auto), Ok(record.to_vec()));
        let kept = decode_record(&compressed, Compression::Uncompressed).unwrap();
        assert_eq!(is_gzip(&kept), !record.is_empty());
    }
}

#[test]
fn plain_records_are_base64_text() {
    assert_eq!(encode_record(b"hello", Compression::Uncompressed).ok().unwrap(), "aGVsbG8=");
    assert_eq!(decode_record("aGVsbG8=", Compression::Uncompressed), Ok(b"hello".to_vec()));
}

#[test]
fn text_that_is_no_base64_is_refused() {
    for compression in SCHEMES {
        assert_eq!(decode_record("%%%", compression), Err(RecordDecodeError::Base64));
    }
}

#[test]
fn empty_records_stay_empty() {
    for compression in SCHEMES {
        assert_eq!(decode_record("", compression), Ok(Vec::new()));
    }
}

#[test]
fn gzip_refuses_what_does_not_decompress() {
    assert_eq!(decode_record("aGVsbG8=", Compression::Gzip), refused(Compression::Gzip));
    let broken = base64::encode([0x1fu8, 0x8b, 0x08, 0xff, 0xff]);
    assert_eq!(decode_record(&broken, Compression::Gzip), refused(Compression::Gzip));
}

#[test]
fn records_that_only_look_compressed_are_forwarded_as_they_came() {
    let bytes = [0x1fu8, 0x8b, 0x08, 0xff, 0xff];
    assert_eq!(decode_record(&base64::encode(bytes), Compression::Auto), Ok(bytes.to_vec()));
}

#[test]
fn compressed_members_are_joined() {
    let mut bytes = base64::decode(encode_record(b"ab", Compression::Gzip).ok().unwrap()).unwrap();
    bytes.extend(base64::decode(encode_record(b"cd", Compression::Gzip).ok().unwrap()).unwrap());
    assert_eq!(decode_record(&base64::encode(bytes), Compression::Gzip), Ok(b"abcd".to_vec()));
}

#[test]
fn signature_is_three_bytes() {
    assert!(is_gzip(&[0x1f, 0x8b, 0x08]));
    assert!(is_gzip(&[0x1f, 0x8b, 0x08, 0x00]));
    assert!(!is_gzip(&[0x1f, 0x8b]));
    assert!(!is_gzip(&[0x1f, 0x8b, 0x07]));
    assert!(!is_gzip(&[]));
}

#[test]
fn payload_follows_the_scheme() {
    let signed = vec![0x1fu8, 0x8b, 0x08, 0x00];
    let plain = Some(vec![1u8]);
    assert_eq!(select_payload(signed.clone(), Compression::Auto, plain.clone()), Ok(vec![1]));
    assert_eq!(select_payload(signed.clone(), Compression::Auto, None), Ok(signed.clone()));
    assert_eq!(select_payload(vec![2], Compression::Auto, plain.clone()), Ok(vec![2]));
    assert_eq!(select_payload(vec![2], Compression::Gzip, plain.clone()), Ok(vec![1]));
    assert_eq!(select_payload(vec![2], Compression::Gzip, None), refused(Compression::Gzip));
    assert_eq!(select_payload(vec![2], Compression::Uncompressed, plain.clone()), Ok(vec![2]));
    assert_eq!(select_payload(Vec::new(), Compression::Gzip, None), Ok(Vec::new()));
}
