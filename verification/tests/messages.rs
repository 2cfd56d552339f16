use frodo::Channel;
use frodo::ChannelMessage;
use frodo::Control;
use frodo::MidiError;
use frodo::MidiEvent;
use frodo::MidiMessage;
use frodo::MidiValueKind;
use frodo::Note;
use frodo::Pressure;
use frodo::Program;
use frodo::RealTimeMessage;
use frodo::Status;
use frodo::SystemCommonEvent;
use frodo::Velocity;

#[test]
fn seven_bit_bounds_are_exact() {
    for v in 0..=255u8 {
        assert_eq!(Note::new(v).is_ok(), v <= 127);
        assert_eq!(Velocity::new(v).is_ok(), v <= 127);
        assert_eq!(Pressure::new(v).is_ok(), v <= 127);
        assert_eq!(Program::new(v).is_ok(), v <= 127);
        assert_eq!(Control::new(v).is_ok(), v <= 127);
    }
    assert_eq!(
        Note::new(128).unwrap_err(),
        MidiError::InvalidMidiValue { kind: MidiValueKind::Note, value: 128 }
    );
    assert_eq!(Velocity::new(127).unwrap().value(), 127);
}

#[test]
fn status_byte_rejects_clear_high_bit() {
    assert_eq!(
        Status::from_status_byte(0x7F).unwrap_err(),
        MidiError::InvalidStatusByte
    );
    assert_eq!(
        Status::from_status_byte(0x00).unwrap_err(),
        MidiError::InvalidStatusByte
    );
}

#[test]
fn status_byte_decodes_each_region() {
    let channel = Channel::new(3).unwrap();
    assert_eq!(
        Status::from_status_byte(0x93).unwrap(),
        Status::Channel { event_type: 1, channel }
    );
    assert_eq!(
        Status::from_status_byte(0xF3).unwrap(),
        Status::SystemCommon(SystemCommonEvent::SongSelect)
    );
    assert_eq!(
        Status::from_status_byte(0xFA).unwrap(),
        Status::RealTime(RealTimeMessage::Start)
    );
}

#[test]
fn status_round_trips_through_its_byte() {
    let channel = Channel::new(9).unwrap();
    let cases = [
        Status::channel(6, channel),
        Status::channel(0, Channel::new(0).unwrap()),
        Status::system_common(SystemCommonEvent::SysExStart),
        Status::system_common(SystemCommonEvent::EndOfSysEx),
        Status::real_time(RealTimeMessage::TimingClock),
        Status::real_time(RealTimeMessage::Reset),
    ];
    for status in cases {
        assert_eq!(Status::from_status_byte(status.to_status_byte()).unwrap(), status);
    }
}

#[test]
fn midi_event_codes_are_stable() {
    assert_eq!(MidiEvent::NoteOff.code(), 0);
    assert_eq!(MidiEvent::PitchBend.code(), 6);
    assert_eq!(MidiEvent::try_from(3).unwrap(), MidiEvent::ControlChange);
    assert_eq!(MidiEvent::try_from(7).unwrap_err(), MidiError::InvalidEvent(7));
}

#[test]
fn system_common_and_real_time_bounds() {
    assert_eq!(
        SystemCommonEvent::try_from(7).unwrap(),
        SystemCommonEvent::EndOfSysEx
    );
    assert_eq!(
        SystemCommonEvent::try_from(8).unwrap_err(),
        MidiError::InvalidSystemCommonEvent(8)
    );
    assert_eq!(
        RealTimeMessage::try_from(0xF8).unwrap(),
        RealTimeMessage::TimingClock
    );
    assert_eq!(
        RealTimeMessage::try_from(0x90).unwrap_err(),
        MidiError::InvalidRealTimeMessage(0x90)
    );
}

#[test]
fn channel_message_data_parsing() {
    let note = Note::new(60).unwrap();
    let velocity = Velocity::new(100).unwrap();
    assert_eq!(
        ChannelMessage::from_event_type(1, &[60, 100]).unwrap(),
        (ChannelMessage::NoteOn { note, velocity }, 2)
    );
    let program = Program::new(5).unwrap();
    assert_eq!(
        ChannelMessage::from_event_type(4, &[5]).unwrap(),
        (ChannelMessage::ProgramChange { program }, 1)
    );
    assert_eq!(
        ChannelMessage::from_event_type(6, &[0x00, 0x40]).unwrap(),
        (ChannelMessage::PitchBend { value: 0x2000 }, 2)
    );
    assert_eq!(
        ChannelMessage::from_event_type(0, &[200, 10]).unwrap_err(),
        MidiError::InvalidMidiValue { kind: MidiValueKind::Note, value: 200 }
    );
    assert_eq!(
        ChannelMessage::from_event_type(0, &[10, 200]).unwrap_err(),
        MidiError::InvalidMidiValue { kind: MidiValueKind::Velocity, value: 200 }
    );
    assert_eq!(
        ChannelMessage::from_event_type(7, &[0, 0]).unwrap_err(),
        MidiError::InvalidEvent(7)
    );
}

#[test]
fn midi_message_from_bytes_consumes_status_and_data() {
    let channel = Channel::new(3).unwrap();
    let note = Note::new(60).unwrap();
    let velocity = Velocity::new(100).unwrap();
    let (message, consumed) = MidiMessage::from_bytes(&[0x93, 0x3C, 0x64]).unwrap();
    assert_eq!(
        message,
        MidiMessage::Channel { channel, message: ChannelMessage::NoteOn { note, velocity } }
    );
    assert_eq!(consumed, 3);

    let (sys, one) = MidiMessage::from_bytes(&[0xF6]).unwrap();
    assert_eq!(sys, MidiMessage::SystemCommon(SystemCommonEvent::TuneRequest));
    assert_eq!(one, 1);

    let (rt, also_one) = MidiMessage::from_bytes(&[0xFE]).unwrap();
    assert_eq!(rt, MidiMessage::RealTime(RealTimeMessage::ActiveSensing));
    assert_eq!(also_one, 1);

    assert_eq!(
        MidiMessage::from_bytes(&[0x13]).unwrap_err(),
        MidiError::InvalidStatusByte
    );
}
