use frodo::MidiError;
use frodo::Vql;

#[test]
fn try_from_valid_value() {
    let input = 0x123456;
    let vql = Vql::try_from(input);
    assert!(vql.is_ok());
    assert_eq!(vql.unwrap().value(), input);
}

#[test]
fn try_from_invalid_value() {
    let input = Vql::MAX + 1;
    let vql = Vql::try_from(input);
    assert!(vql.is_err());
    match vql {
        Err(MidiError::InvalidVqlInput(v)) => assert_eq!(v, input),
        _ => panic!("Unexpected error variant"),
    }
}

#[test]
fn encode_one_byte() {
    let vql = Vql::try_from(0x7F).unwrap(); // 127
    let bytes = vql.encode_bytes();
    assert_eq!(bytes, vec![0x7F]);
}

#[test]
fn encode_two_bytes() {
    let vql = Vql::try_from(0x80).unwrap(); // 128
    let bytes = vql.encode_bytes();
    assert_eq!(bytes, vec![0x81, 0x00]);
}

#[test]
fn encode_three_bytes() {
    let vql = Vql::try_from(0x4000).unwrap(); // 16384
    let bytes = vql.encode_bytes();
    assert_eq!(bytes, vec![0x81, 0x80, 0x00]);
}

#[test]
fn encode_four_bytes() {
    let vql = Vql::try_from(0x200000).unwrap(); // 2_097_152
    let bytes = vql.encode_bytes();
    assert_eq!(bytes, vec![0x81, 0x80, 0x80, 0x00]);
}

#[test]
fn encode_len_correctness() {
    assert_eq!(Vql::try_from(0x7F).unwrap().encode_len(), 1);
    assert_eq!(Vql::try_from(0x80).unwrap().encode_len(), 2);
    assert_eq!(Vql::try_from(0x4000).unwrap().encode_len(), 3);
    assert_eq!(Vql::try_from(0x200000).unwrap().encode_len(), 4);
}

#[test]
fn vlq_boundaries() {
    assert_eq!(Vql::try_from(0).unwrap().encode_bytes(), vec![0x00]);
    assert_eq!(Vql::try_from(0x7F).unwrap().encode_bytes(), vec![0x7F]);
    assert_eq!(Vql::try_from(0x80).unwrap().encode_bytes(), vec![0x81, 0x00]);
    assert_eq!(Vql::try_from(0x2000).unwrap().encode_bytes(), vec![0xC0, 0x00]);
    assert_eq!(Vql::try_from(0x3FFF).unwrap().encode_bytes(), vec![0xFF, 0x7F]);
    assert_eq!(
        Vql::try_from(0x4000).unwrap().encode_bytes(),
        vec![0x81, 0x80, 0x00]
    );
    assert_eq!(
        Vql::try_from(0x1FFFFF).unwrap().encode_bytes(),
        vec![0xFF, 0xFF, 0x7F]
    );
    assert_eq!(
        Vql::try_from(0x200000).unwrap().encode_bytes(),
        vec![0x81, 0x80, 0x80, 0x00]
    );
    assert_eq!(
        Vql::try_from(0x0FFFFFFF).unwrap().encode_bytes(),
        vec![0xFF, 0xFF, 0xFF, 0x7F]
    );
    match Vql::try_from(0x10000000) {
        Err(MidiError::InvalidVqlInput(v)) => assert_eq!(v, 0x10000000),
        _ => panic!("expected InvalidVqlInput"),
    }
}

#[test]
fn vlq_encoding_shape() {
    // Every encoding: length per the range table, continuation bit set on
    // all bytes but the last, clear on the last, and no bare 0x80 lead.
    for &v in &[0u32, 1, 0x7F, 0x80, 0x1234, 0x3FFF, 0x4000, 0x123456, 0x1FFFFF, 0x200000,
        0xABCDEF0 & 0x0FFFFFFF, 0x0FFFFFFF]
    {
        let vql = Vql::try_from(v).unwrap();
        let bytes = vql.encode_bytes();
        assert_eq!(bytes.len(), vql.encode_len());
        let expected_len = match v {
            0..=0x7F => 1,
            0x80..=0x3FFF => 2,
            0x4000..=0x1FFFFF => 3,
            _ => 4,
        };
        assert_eq!(bytes.len(), expected_len);
        for (i, b) in bytes.iter().enumerate() {
            if i + 1 == bytes.len() {
                assert!(b & 0x80 == 0);
            } else {
                assert!(b & 0x80 != 0);
            }
        }
        if bytes.len() > 1 {
            assert_ne!(bytes[0], 0x80);
        }
    }
}

#[test]
fn vlq_decode_round_trip() {
    for &v in &[0u32, 1, 0x7F, 0x80, 0x2000, 0x3FFF, 0x4000, 0x123456, 0x1FFFFF, 0x200000,
        0x0FFFFFFF]
    {
        let vql = Vql::try_from(v).unwrap();
        let bytes = vql.encode_bytes();
        let (decoded, consumed) = Vql::decode(bytes.as_slice()).unwrap();
        assert_eq!(decoded, vql);
        assert_eq!(consumed, bytes.len());
    }
}

#[test]
fn vlq_decode_rejects_unterminated_input() {
    assert!(Vql::decode(&[]).is_none());
    assert!(Vql::decode(&[0x81]).is_none());
    assert!(Vql::decode(&[0x81, 0x80, 0x80, 0x80]).is_none());
    // A terminal byte later than the fourth is too late.
    assert!(Vql::decode(&[0x81, 0x80, 0x80, 0x80, 0x00]).is_none());
}

#[test]
fn encode_scratch_buffer_is_right_aligned() {
    let vql = Vql::try_from(0x80).unwrap();
    assert_eq!(vql.encode(), [0x00, 0x00, 0x81, 0x00]);
    assert_eq!(Vql::zero().encode(), [0x00, 0x00, 0x00, 0x00]);
    assert_eq!(Vql::zero().value(), 0);
}
