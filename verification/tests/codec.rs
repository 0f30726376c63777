use secret_sum::codec::{decode_unsigned32_little_endian, encode_unsigned32_little_endian};

#[test]
fn decodes_four_little_endian_bytes() {
    assert_eq!(decode_unsigned32_little_endian(&vec![5, 0, 0, 0]), Ok(5));
    assert_eq!(
        decode_unsigned32_little_endian(&vec![0x78, 0x56, 0x34, 0x12]),
        Ok(0x12345678)
    );
    assert_eq!(
        decode_unsigned32_little_endian(&vec![0xff, 0xff, 0xff, 0xff]),
        Ok(u32::MAX)
    );
    assert_eq!(decode_unsigned32_little_endian(&vec![0, 0, 0, 0]), Ok(0));
}

#[test]
fn encodes_to_four_little_endian_bytes() {
    assert_eq!(encode_unsigned32_little_endian(5), vec![5, 0, 0, 0]);
    assert_eq!(
        encode_unsigned32_little_endian(0x12345678),
        vec![0x78, 0x56, 0x34, 0x12]
    );
    assert_eq!(
        encode_unsigned32_little_endian(u32::MAX),
        vec![0xff, 0xff, 0xff, 0xff]
    );
}

#[test]
fn round_trips_through_encoding() {
    for value in [0u32, 1, 5, 19, 256, 65535, 0x12345678, u32::MAX] {
        let bytes = encode_unsigned32_little_endian(value);
        assert_eq!(bytes.len(), 4);
        assert_eq!(decode_unsigned32_little_endian(&bytes), Ok(value));
    }
}

#[test]
fn rejects_any_length_other_than_four() {
    for bytes in [vec![], vec![5], vec![5, 0, 0], vec![5, 0, 0, 0, 0]] {
        let expected_length = bytes.len();
        let r = decode_unsigned32_little_endian(&bytes);
        match r {
            Err(e) => assert_eq!(e.observed_length, expected_length),
            Ok(v) => panic!("expected a decode error, got {}", v),
        }
    }
}
