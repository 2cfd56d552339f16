use frodo::Channel;
use frodo::ChannelMessage;
use frodo::EventType;
use frodo::Header;
use frodo::MetaEvent;
use frodo::MidiFormat;
use frodo::MidiMessage;
use frodo::Note;
use frodo::Smf;
use frodo::Track;
use frodo::TrackEvent;
use frodo::Velocity;
use frodo::Vql;

#[test]
fn channel_status_round_trip() {
    let channel = Channel::new(3).unwrap();
    let note = Note::new(60).unwrap();
    let velocity = Velocity::new(100).unwrap();
    let event = EventType::Midi(MidiMessage::Channel {
        channel,
        message: ChannelMessage::NoteOn { note, velocity },
    });
    let bytes = event.to_bytes();
    assert_eq!(bytes, vec![0x93, 0x3C, 0x64]);

    let (decoded, consumed) = MidiMessage::from_bytes(bytes.as_slice()).unwrap();
    assert_eq!(
        decoded,
        MidiMessage::Channel { channel, message: ChannelMessage::NoteOn { note, velocity } }
    );
    assert_eq!(consumed, 3);
}

#[test]
fn pitch_bend_byte_order() {
    let channel = Channel::new(0).unwrap();
    let event = EventType::Midi(MidiMessage::Channel {
        channel,
        message: ChannelMessage::PitchBend { value: 0x2000 },
    });
    assert_eq!(event.to_bytes(), vec![0xE0, 0x00, 0x40]);
}

#[test]
fn pitch_bend_round_trips_through_bytes() {
    let channel = Channel::new(5).unwrap();
    let message = MidiMessage::Channel {
        channel,
        message: ChannelMessage::PitchBend { value: 0x1A12 },
    };
    let bytes = EventType::Midi(message).to_bytes();
    assert_eq!(bytes, vec![0xE5, 0x12, 0x34]);
    let (decoded, consumed) = MidiMessage::from_bytes(bytes.as_slice()).unwrap();
    assert_eq!(decoded, message);
    assert_eq!(consumed, 3);
}

#[test]
fn meta_end_of_track() {
    assert_eq!(TrackEvent::end_track().to_bytes(), vec![0x00, 0xFF, 0x2F, 0x00]);
}

#[test]
fn meta_event_payloads() {
    assert_eq!(
        MetaEvent::SetTempo(500000).to_bytes(),
        vec![0xFF, 0x51, 0x03, 0x07, 0xA1, 0x20]
    );
    // A tempo above 24 bits keeps only its low 3 bytes.
    assert_eq!(
        MetaEvent::SetTempo(0x11223344).to_bytes(),
        vec![0xFF, 0x51, 0x03, 0x22, 0x33, 0x44]
    );
    assert_eq!(
        MetaEvent::TimeSignature {
            numerator: 6,
            denominator: 8,
            clocks_per_tick: 24,
            thirty_seconds_per_24_clocks: 8,
        }
        .to_bytes(),
        vec![0xFF, 0x58, 0x04, 6, 3, 24, 8]
    );
    assert_eq!(
        MetaEvent::KeySignature { sharps: -3, is_major: false }.to_bytes(),
        vec![0xFF, 0x59, 0x02, 0xFD, 0x01]
    );
    assert_eq!(
        MetaEvent::KeySignature { sharps: 2, is_major: true }.to_bytes(),
        vec![0xFF, 0x59, 0x02, 0x02, 0x00]
    );
    assert_eq!(
        MetaEvent::TrackName(vec![0x53, 0x6F, 0x6C, 0x6F]).to_bytes(),
        vec![0xFF, 0x03, 0x04, 0x53, 0x6F, 0x6C, 0x6F]
    );
    assert_eq!(
        MetaEvent::Unknown { event_type: 0x7F, data: vec![1, 2] }.to_bytes(),
        vec![0xFF, 0x7F, 0x02, 1, 2]
    );
}

#[test]
fn sysex_bytes_pass_through() {
    let raw = vec![0xF0, 0x03, 0x01, 0x02, 0x03, 0xF7];
    assert_eq!(EventType::Sysex(raw.clone()).to_bytes(), raw);
}

#[test]
fn track_event_prepends_delta_time() {
    let channel = Channel::new(0).unwrap();
    let note = Note::new(60).unwrap();
    let velocity = Velocity::new(64).unwrap();
    let event = TrackEvent::note_on(
        Vql::try_from(0x80).unwrap(),
        channel,
        note,
        velocity,
    );
    assert_eq!(event.to_bytes(), vec![0x81, 0x00, 0x90, 0x3C, 0x40]);

    let off = TrackEvent::note_off(Vql::zero(), channel, note, Velocity::new(0).unwrap());
    assert_eq!(off.to_bytes(), vec![0x00, 0x80, 0x3C, 0x00]);
}

#[test]
fn minimal_track_chunk() {
    let track = Track::new(vec![TrackEvent::end_track()]);
    assert_eq!(
        track.to_bytes(),
        vec![0x4D, 0x54, 0x72, 0x6B, 0x00, 0x00, 0x00, 0x04, 0x00, 0xFF, 0x2F, 0x00]
    );
    assert_eq!(track.length(), 4);
}

#[test]
fn track_length_field_is_sum_of_event_lengths() {
    let channel = Channel::new(1).unwrap();
    let note = Note::new(72).unwrap();
    let velocity = Velocity::new(90).unwrap();
    let events = vec![
        TrackEvent::note_on(Vql::try_from(0).unwrap(), channel, note, velocity),
        TrackEvent::note_off(Vql::try_from(0x80).unwrap(), channel, note, velocity),
        TrackEvent::end_track(),
    ];
    let expected_sum: usize = events.iter().map(|e| e.to_bytes().len()).sum();
    let track = Track::new(events);
    assert_eq!(track.length(), expected_sum);

    let bytes = track.to_bytes();
    assert_eq!(bytes.len(), 8 + expected_sum);
    let length_field = u32::from_be_bytes([bytes[4], bytes[5], bytes[6], bytes[7]]);
    assert_eq!(length_field as usize, expected_sum);
}

#[test]
fn track_with_name_prepends_meta_event() {
    let track = Track::new(vec![TrackEvent::end_track()]).with_name("Solo");
    assert_eq!(track.name, "Solo");
    let bytes = track.to_bytes();
    assert_eq!(
        bytes,
        vec![
            0x4D, 0x54, 0x72, 0x6B, 0x00, 0x00, 0x00, 0x0C, 0x00, 0xFF, 0x03, 0x04, 0x53, 0x6F,
            0x6C, 0x6F, 0x00, 0xFF, 0x2F, 0x00,
        ]
    );
}

#[test]
fn track_set_name_adds_no_event() {
    let mut track = Track::new(vec![TrackEvent::end_track()]);
    let before = track.to_bytes();
    track.set_name("Quiet");
    assert_eq!(track.name, "Quiet");
    assert_eq!(track.to_bytes(), before);
}

#[test]
fn add_event_appends_without_updating_length() {
    let mut track = Track::default();
    assert_eq!(track.length(), 0);
    track.add_event(TrackEvent::end_track());
    // The recorded length is computed at construction only.
    assert_eq!(track.length(), 0);
    // The emitted chunk still measures the events themselves.
    assert_eq!(
        track.to_bytes(),
        vec![0x4D, 0x54, 0x72, 0x6B, 0x00, 0x00, 0x00, 0x04, 0x00, 0xFF, 0x2F, 0x00]
    );
}

#[test]
fn smf_emits_header_then_tracks() {
    let header = Header::new(MidiFormat::SingleTrack, 1, 480).unwrap();
    let track = Track::new(vec![TrackEvent::end_track()]);
    let expected: Vec<u8> = header
        .to_bytes()
        .into_iter()
        .chain(track.to_bytes().into_iter())
        .collect();
    let smf = Smf::new(header, vec![track]);
    assert_eq!(smf.to_bytes(), expected);
}

#[test]
fn smf_from_slice_clones_tracks() {
    let header = Header::new(MidiFormat::MultipleTrack, 2, 96).unwrap();
    let tracks = vec![
        Track::new(vec![TrackEvent::end_track()]),
        Track::new(vec![TrackEvent::end_track()]).with_name("B"),
    ];
    let smf = Smf::from_slice(header, tracks.as_slice());
    let direct = Smf::new(header, tracks);
    assert_eq!(smf.to_bytes(), direct.to_bytes());
}

#[test]
fn meta_event_constructor_uses_delta_zero() {
    let event = TrackEvent::meta_event(MetaEvent::SetTempo(500000));
    assert_eq!(event.v_time.value(), 0);
    assert_eq!(event.to_bytes(), vec![0x00, 0xFF, 0x51, 0x03, 0x07, 0xA1, 0x20]);

    let named = TrackEvent::track_name("Jo");
    assert_eq!(named.to_bytes(), vec![0x00, 0xFF, 0x03, 0x02, 0x4A, 0x6F]);
}
