use bmpow::encoding::{from_be_bytes, to_be_bytes};

#[test]
fn encodes_most_significant_byte_first() {
    assert_eq!(to_be_bytes(0x0102_0304_0506_0708), [1u8, 2, 3, 4, 5, 6, 7, 8]);
    assert_eq!(to_be_bytes(1), [0u8, 0, 0, 0, 0, 0, 0, 1]);
    assert_eq!(to_be_bytes(0x0100_0000_0000_0000), [1u8, 0, 0, 0, 0, 0, 0, 0]);
}

#[test]
fn encodes_the_extremes() {
    assert_eq!(to_be_bytes(0), [0u8; 8]);
    assert_eq!(to_be_bytes(u64::MAX), [0xffu8; 8]);
}

#[test]
fn encoding_agrees_with_the_standard_library() {
    let samples: [u64; 6] = [0, 1, 255, 256, 0xdead_beef_0bad_cafe, u64::MAX];
    for value in samples {
        assert_eq!(to_be_bytes(value), value.to_be_bytes());
    }
}

#[test]
fn decodes_most_significant_byte_first() {
    assert_eq!(from_be_bytes(&[1u8, 2, 3, 4, 5, 6, 7, 8]), 0x0102_0304_0506_0708);
    assert_eq!(from_be_bytes(&[0u8, 0, 0, 0, 0, 0, 1, 2]), 258);
    assert_eq!(from_be_bytes(&[0xffu8; 8]), u64::MAX);
    assert_eq!(from_be_bytes(&[0u8; 8]), 0);
}

#[test]
fn decoding_undoes_encoding() {
    let samples: [u64; 7] = [0, 1, 0xff, 0x100, 0x1234_5678_9abc_def0, u64::MAX - 1, u64::MAX];
    for value in samples {
        assert_eq!(from_be_bytes(&to_be_bytes(value)), value);
    }
}

#[test]
fn encoding_undoes_decoding() {
    let bytes: [u8; 8] = [0x80, 0x00, 0x7f, 0x01, 0xfe, 0x10, 0x00, 0xff];
    assert_eq!(to_be_bytes(from_be_bytes(&bytes)), bytes);
}
