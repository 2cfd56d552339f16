use frodo::ChunkType;
use frodo::Header;
use frodo::MidiError;
use frodo::MidiFormat;

#[test]
fn chunk_type() {
    assert_eq!(ChunkType::Header.as_bytes(), [0x4D, 0x54, 0x68, 0x64]); // 'MThd'
    assert_eq!(ChunkType::Track.as_bytes(), [0x4D, 0x54, 0x72, 0x6B]); // 'MTrk'
}

#[test]
fn header_maker() {
    let _smf_header = Header::new(MidiFormat::SingleTrack, 1, 1);
}

#[test]
fn header_encoding() {
    let header = Header::new(MidiFormat::SingleTrack, 1, 480).unwrap();
    let bytes = header.to_bytes();
    assert_eq!(
        bytes,
        vec![
            0x4D, 0x54, 0x68, 0x64, 0x00, 0x00, 0x00, 0x06, 0x00, 0x00, 0x00, 0x01, 0x01, 0xE0,
        ]
    );
    assert_eq!(Header::from_bytes(bytes.as_slice()).unwrap(), header);
}

#[test]
fn header_round_trip_smpte_division() {
    // A negative division stores an SMPTE timing pair; it must survive the
    // byte round trip unchanged.
    let header = Header::new(MidiFormat::MultipleTrack, 3, -7680).unwrap();
    let bytes = header.to_bytes();
    assert_eq!(Header::from_bytes(bytes.as_slice()).unwrap(), header);

    let header2 = Header::new(MidiFormat::MultipleSong, 0xFFFF, i16::MIN).unwrap();
    let bytes2 = header2.to_bytes();
    assert_eq!(Header::from_bytes(bytes2.as_slice()).unwrap(), header2);
}

#[test]
fn header_rejects_wrong_length_field() {
    let bytes = vec![
        0x4D, 0x54, 0x68, 0x64, 0x00, 0x00, 0x00, 0x07, 0x00, 0x00, 0x00, 0x01, 0x01, 0xE0,
    ];
    assert_eq!(
        Header::from_bytes(bytes.as_slice()).unwrap_err(),
        MidiError::InvalidHeaderByte
    );
}

#[test]
fn header_rejects_short_input_and_bad_magic() {
    assert_eq!(
        Header::from_bytes(&[0x4D, 0x54, 0x68, 0x64]).unwrap_err(),
        MidiError::InvalidHeaderByte
    );
    let bad_magic = vec![
        0x4D, 0x54, 0x72, 0x6B, 0x00, 0x00, 0x00, 0x06, 0x00, 0x00, 0x00, 0x01, 0x01, 0xE0,
    ];
    assert_eq!(
        Header::from_bytes(bad_magic.as_slice()).unwrap_err(),
        MidiError::InvalidHeaderByte
    );
}

#[test]
fn header_rejects_format_above_two() {
    let bytes = vec![
        0x4D, 0x54, 0x68, 0x64, 0x00, 0x00, 0x00, 0x06, 0x00, 0x03, 0x00, 0x01, 0x01, 0xE0,
    ];
    assert_eq!(
        Header::from_bytes(bytes.as_slice()).unwrap_err(),
        MidiError::InvalidHeaderByte
    );
    assert_eq!(
        MidiFormat::try_from(3).unwrap_err(),
        MidiError::InvalidFormat
    );
}
