use vexide_simulator_protocol::payload::{decode_bytes, encode_bytes, PayloadError};

#[test]
fn base64_of_known_bytes() {
    assert_eq!(encode_bytes(b"some bytes"), "c29tZSBieXRlcw==");
    assert_eq!(encode_bytes(b"hello world~"), "aGVsbG8gd29ybGR+");
    assert_eq!(decode_bytes("aGVsbG8gd29ybGR+"), Ok(b"hello world~".to_vec()));
}

#[test]
fn base64_round_trip_of_empty() {
    let text = encode_bytes(&[]);
    assert_eq!(text, "");
    assert_eq!(decode_bytes(&text), Ok(vec![]));
}

#[test]
fn base64_round_trip_of_single_byte() {
    let text = encode_bytes(&[0x5a]);
    assert_eq!(text, "Wg==");
    assert_eq!(decode_bytes(&text), Ok(vec![0x5a]));
}

#[test]
fn base64_round_trip_of_all_ones() {
    let bytes = vec![0xffu8; 64];
    let text = encode_bytes(&bytes);
    assert_ne!(text.as_bytes(), &bytes[..]);
    assert_eq!(decode_bytes(&text), Ok(bytes));
}

#[test]
fn base64_round_trip_of_a_kilobyte() {
    let mut bytes: Vec<u8> = Vec::new();
    let mut state: u32 = 0x2545_f491;
    for _ in 0..1024 {
        state ^= state << 13;
        state ^= state >> 17;
        state ^= state << 5;
        bytes.push((state & 0xff) as u8);
    }
    let text = encode_bytes(&bytes);
    assert_eq!(text.len(), 1368);
    assert_eq!(decode_bytes(&text), Ok(bytes));
}

#[test]
fn base64_round_trip_of_non_utf8() {
    let bytes = vec![0xc3u8, 0x28, 0xa0, 0xa1, 0x00];
    assert_eq!(decode_bytes(&encode_bytes(&bytes)), Ok(bytes));
}

#[test]
fn malformed_base64_is_refused_with_its_reason() {
    assert_eq!(
        decode_bytes("a!=="),
        Err(PayloadError::InvalidByte { offset: 1, byte: b'!' })
    );
    assert_eq!(decode_bytes("Wg"), Err(PayloadError::InvalidPadding));
    assert_eq!(
        decode_bytes("Wh=="),
        Err(PayloadError::InvalidLastSymbol { offset: 1, byte: b'h' })
    );
    assert_eq!(decode_bytes("W"), Err(PayloadError::InvalidLength { length: 1 }));
}

#[test]
fn serial_data_carries_its_bytes() {
    let message = vexide_simulator_protocol::payload::SerialData::new(3, b"hello");
    assert_eq!(message.channel, 3);
    assert_eq!(message.data, "aGVsbG8=");
    assert_eq!(message.to_bytes(), Ok(b"hello".to_vec()));
}

#[test]
fn serial_data_with_corrupt_text_says_why() {
    let message = vexide_simulator_protocol::payload::SerialData { channel: 0, data: "aGVsbG8".to_string() };
    assert_eq!(message.to_bytes(), Err(PayloadError::InvalidPadding));
}

#[test]
fn code_signature_carries_its_bytes() {
    let signature = vexide_simulator_protocol::payload::VCodeSig::new(&[0, 1, 2, 253, 254, 255]);
    assert_eq!(signature.0, "AAEC/f7/");
    assert_eq!(signature.to_bytes(), Ok(vec![0, 1, 2, 253, 254, 255]));
    let corrupt = vexide_simulator_protocol::payload::VCodeSig("****".to_string());
    assert_eq!(corrupt.to_bytes(), Err(PayloadError::InvalidByte { offset: 0, byte: b'*' }));
}
