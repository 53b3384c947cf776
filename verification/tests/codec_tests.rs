use closeshare::codec::{decode, encode, incoming_length, CodecError, MAX_MESSAGE_SIZE};
use closeshare::compression::{compress, decompress};
use closeshare::integrity::{calculate_checksum, verify_checksum};

#[test]
fn frames_start_with_big_endian_length() {
    assert_eq!(encode(b"abc").unwrap(), vec![0, 0, 0, 3, b'a', b'b', b'c']);
    assert_eq!(encode(b"").unwrap(), vec![0, 0, 0, 0]);
    let payload = vec![9u8; 0x1_0203];
    let framed = encode(&payload).unwrap();
    assert_eq!(&framed[..4], &[0, 1, 2, 3]);
    assert_eq!(&framed[4..], &payload[..]);
}

#[test]
fn oversized_messages_are_refused() {
    let payload = vec![0u8; MAX_MESSAGE_SIZE + 1];
    match encode(&payload) {
        Err(CodecError::MessageTooLarge(n)) => assert_eq!(n, MAX_MESSAGE_SIZE + 1),
        other => panic!("unexpected {:?}", other.map(|v| v.len())),
    }
    let payload = vec![0u8; MAX_MESSAGE_SIZE];
    assert_eq!(encode(&payload).unwrap().len(), MAX_MESSAGE_SIZE + 4);
}

#[test]
fn decode_reads_back_what_encode_framed() {
    for p in [&b""[..], b"x", b"hello world"] {
        let framed = encode(p).unwrap();
        assert_eq!(decode(&framed).unwrap(), p.to_vec());
        let mut longer = framed.clone();
        longer.extend_from_slice(b"trailing");
        assert_eq!(decode(&longer).unwrap(), p.to_vec());
    }
}

#[test]
fn short_input_is_incomplete() {
    assert!(matches!(decode(&[]), Err(CodecError::Incomplete)));
    assert!(matches!(decode(&[0, 0, 0]), Err(CodecError::Incomplete)));
    assert!(matches!(decode(&[0, 0, 0, 5, 1, 2]), Err(CodecError::Incomplete)));
    assert_eq!(decode(&[0, 0, 0, 2, 1, 2]).unwrap(), vec![1, 2]);
}

#[test]
fn incoming_headers_are_checked() {
    assert_eq!(incoming_length([0, 0, 1, 0]).unwrap(), 256);
    assert_eq!(incoming_length([0x06, 0x40, 0, 0]).unwrap(), MAX_MESSAGE_SIZE);
    assert!(matches!(
        incoming_length([0x06, 0x40, 0, 1]),
        Err(CodecError::MessageTooLarge(n)) if n == MAX_MESSAGE_SIZE + 1
    ));
    assert!(matches!(
        incoming_length([0xff, 0xff, 0xff, 0xff]),
        Err(CodecError::MessageTooLarge(4294967295))
    ));
}

#[test]
fn io_errors_convert() {
    let e: CodecError = std::io::Error::new(std::io::ErrorKind::Other, "boom").into();
    assert!(matches!(e, CodecError::Io(_)));
}

#[test]
fn checksum_is_lowercase_blake3_hex() {
    assert_eq!(
        calculate_checksum(b""),
        "af1349b9f5f9a1a6a0404dea36dcc9499bcb25c9adc112b7cc9a93cae41f3262"
    );
    assert_eq!(calculate_checksum(b"abc"), blake3::hash(b"abc").to_hex().to_string());
    assert_eq!(calculate_checksum(b"abc").len(), 64);
}

#[test]
fn checksums_verify_only_their_payload() {
    let sum = calculate_checksum(b"payload");
    assert!(verify_checksum(b"payload", &sum));
    assert!(!verify_checksum(b"payloae", &sum));
    assert!(!verify_checksum(b"payload", &sum.to_uppercase()));
    assert!(!verify_checksum(b"payload", ""));
}

#[test]
fn decompress_inverts_compress() {
    let data: Vec<u8> = (0..10000u32).map(|i| (i % 13) as u8).collect();
    let c = compress(&data).unwrap();
    assert_ne!(c, data);
    assert!(c.len() < data.len());
    assert_eq!(decompress(&c).unwrap(), data);
    assert_eq!(decompress(&compress(b"").unwrap()).unwrap(), Vec::<u8>::new());
}

#[test]
fn garbage_does_not_decompress() {
    assert!(decompress(b"definitely not zstd").is_err());
}
