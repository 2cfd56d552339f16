//! The message model: the status-byte codec, channel voice messages with
//! their data bytes, and the composite MIDI message.
//!
//! A status byte has its high bit set. Bytes 0x80..=0xEF carry a channel
//! voice message: the middle three bits are the event-kind code and the low
//! nibble is the channel. Bytes 0xF0..=0xF7 are system-common, identified by
//! their low nibble, and 0xF8..=0xFF are real-time messages.

use vstd::prelude::*;

use crate::channel::Channel;
use crate::domain::Control;
use crate::domain::Note;
use crate::domain::Pressure;
use crate::domain::Program;
use crate::domain::Velocity;
use crate::error::MidiError;
use crate::error::MidiValueKind;
use crate::real_time::spec_real_time_byte;
use crate::real_time::spec_real_time_try_from;
use crate::real_time::RealTimeMessage;
use crate::system_common::spec_system_common_code;
use crate::system_common::spec_system_common_try_from;
use crate::system_common::SystemCommonEvent;
use vstd::slice::slice_subrange;

verus! {

/// The decoded form of a status byte: either a channel voice event kind with
/// its channel, or the tag of a system-common or real-time message.
#[derive(Debug, Clone, Copy, PartialEq, Eq, Structural)]
pub enum Status {
    Channel { event_type: u8, channel: Channel },
    SystemCommon(SystemCommonEvent),
    RealTime(RealTimeMessage),
}

/// Whether a status value is well formed: a channel event kind is 0..=6 and
/// its channel is in range.
pub open spec fn spec_status_wf(s: Status) -> bool {
    match s {
        Status::Channel { event_type, channel } => event_type <= 6 && channel.wf(),
        Status::SystemCommon(_) => true,
        Status::RealTime(_) => true,
    }
}

/// The one status byte a status value encodes to.
pub open spec fn spec_to_status_byte(s: Status) -> u8 {
    match s {
        Status::Channel { event_type, channel } => (0x80 + (event_type as int) * 16
            + channel.0) as u8,
        Status::SystemCommon(sys) => (0xF0 + spec_system_common_code(sys)) as u8,
        Status::RealTime(rt) => spec_real_time_byte(rt),
    }
}

/// The status value a byte decodes to, or the error: bytes without the high
/// bit are no status byte at all.
pub open spec fn spec_from_status_byte(byte: u8) -> Result<Status, MidiError> {
    if byte < 0x80 {
        Err(MidiError::InvalidStatusByte)
    } else if byte <= 0xEF {
        Ok(
            Status::Channel {
                event_type: ((byte / 16) % 8) as u8,
                channel: Channel((byte % 16) as u8),
            },
        )
    } else if byte <= 0xF7 {
        match spec_system_common_try_from((byte % 16) as u8) {
            Ok(sys) => Ok(Status::SystemCommon(sys)),
            Err(e) => Err(e),
        }
    } else {
        match spec_real_time_try_from(byte) {
            Ok(rt) => Ok(Status::RealTime(rt)),
            Err(e) => Err(e),
        }
    }
}

impl Status {
    /// Whether this status value is well formed.
    pub open spec fn wf(self) -> bool {
        spec_status_wf(self)
    }

    /// Builds the channel-voice status for an event kind and a channel.
    pub fn channel(event_type: u8, channel: Channel) -> (r: Self)
        ensures
            r == (Status::Channel { event_type, channel }),
    {
        Status::Channel { event_type, channel }
    }

    /// Builds the status for a system-common event.
    pub fn system_common(sys_comm: SystemCommonEvent) -> (r: Self)
        ensures
            r == Status::SystemCommon(sys_comm),
    {
        Status::SystemCommon(sys_comm)
    }

    /// Builds the status for a real-time message.
    pub fn real_time(real_time: RealTimeMessage) -> (r: Self)
        ensures
            r == Status::RealTime(real_time),
    {
        Status::RealTime(real_time)
    }

    /// Decodes a status byte. Fails exactly on bytes with the high bit clear;
    /// every decoded status is well formed.
    pub fn from_status_byte(byte: u8) -> (r: Result<Self, MidiError>)
        ensures
            r == spec_from_status_byte(byte),
            r is Ok <==> byte >= 0x80,
            r matches Ok(s) ==> s.wf(),
    {
        if byte < 0x80 {
            return Err(MidiError::InvalidStatusByte);
        }
        if byte <= 0xEF {
            let event_type: u8 = (byte / 16) % 8;
            assert(event_type <= 6);
            let channel = match Channel::new(byte % 16) {
                Ok(c) => c,
                Err(e) => { return Err(e) },
            };
            Ok(Status::Channel { event_type, channel })
        } else if byte <= 0xF7 {
            match SystemCommonEvent::try_from(byte % 16) {
                Ok(sys) => Ok(Status::SystemCommon(sys)),
                Err(e) => Err(e),
            }
        } else {
            match RealTimeMessage::try_from(byte) {
                Ok(rt) => Ok(Status::RealTime(rt)),
                Err(e) => Err(e),
            }
        }
    }

    /// Encodes this status as its one status byte.
    pub fn to_status_byte(&self) -> (r: u8)
        requires
            self.wf(),
        ensures
            r == spec_to_status_byte(*self),
    {
        match self {
            Status::Channel { event_type, channel } => 0x80 + event_type * 16 + channel.value(),
            Status::SystemCommon(sys) => 0xF0 + sys.code(),
            Status::RealTime(rt) => rt.byte(),
        }
    }
}

/// Decoding inverts encoding: every well-formed status value is reproduced
/// from its own status byte.
pub proof fn lemma_status_round_trip(s: Status)
    requires
        spec_status_wf(s),
    ensures
        spec_from_status_byte(spec_to_status_byte(s)) == Ok::<Status, MidiError>(s),
{
    match s {
        Status::Channel { event_type, channel } => {
            let b = spec_to_status_byte(s);
            assert(b == 0x80 + (event_type as int) * 16 + channel.0);
            assert(0x80 <= b <= 0xEF);
            assert((b as int) / 16 == 8 + event_type && (b as int) % 16 == channel.0)
                by (nonlinear_arith)
                requires
                    event_type <= 6,
                    channel.0 <= 15,
                    b == 0x80 + (event_type as int) * 16 + channel.0,
            ;
        },
        Status::SystemCommon(sys) => {
            match sys {
                SystemCommonEvent::SysExStart => {},
                SystemCommonEvent::MTCQuarterFrame => {},
                SystemCommonEvent::SongPositionPointer => {},
                SystemCommonEvent::SongSelect => {},
                SystemCommonEvent::Undefined1 => {},
                SystemCommonEvent::Undefined2 => {},
                SystemCommonEvent::TuneRequest => {},
                SystemCommonEvent::EndOfSysEx => {},
            }
        },
        Status::RealTime(rt) => {
            match rt {
                RealTimeMessage::TimingClock => {},
                RealTimeMessage::Reserved1 => {},
                RealTimeMessage::Start => {},
                RealTimeMessage::Continue => {},
                RealTimeMessage::Stop => {},
                RealTimeMessage::Reserved2 => {},
                RealTimeMessage::ActiveSensing => {},
                RealTimeMessage::Reset => {},
            }
        },
    }
}

/// The status of a composite message: the event kind and channel of a
/// channel voice message, or the tag of a system-common or real-time one.
pub open spec fn spec_status_of(m: MidiMessage) -> Status {
    match m {
        MidiMessage::Channel { channel, message } => Status::Channel {
            event_type: spec_event_type(message),
            channel,
        },
        MidiMessage::SystemCommon(evt) => Status::SystemCommon(evt),
        MidiMessage::RealTime(rt) => Status::RealTime(rt),
    }
}

/// Decoding the status byte of any well-formed message reproduces its
/// event kind and channel, or its system tag.
pub proof fn lemma_midi_message_status_round_trip(m: MidiMessage)
    requires
        spec_midi_message_wf(m),
    ensures
        spec_from_status_byte(spec_to_status_byte(spec_status_of(m))) == Ok::<Status, MidiError>(
            spec_status_of(m),
        ),
{
    lemma_status_round_trip(spec_status_of(m));
}

/// A channel voice message with its typed payload. Each variant maps to the
/// event-kind code 0..=6 in the order listed.
#[derive(Debug, Clone, Copy, PartialEq, Eq, Hash, Structural)]
pub enum ChannelMessage {
    NoteOff { note: Note, velocity: Velocity },
    NoteOn { note: Note, velocity: Velocity },
    PolyphonicKeyPressure { note: Note, pressure: Pressure },
    ControlChange { control: Control, value: Control },
    ProgramChange { program: Program },
    ChannelPressure { pressure: Pressure },
    PitchBend { value: u16 },
}

/// Whether a channel message is well formed: every data field is in its
/// 7-bit range, and a pitch-bend value fits in 14 bits.
pub open spec fn spec_channel_message_wf(m: ChannelMessage) -> bool {
    match m {
        ChannelMessage::NoteOff { note, velocity } => note.wf() && velocity.wf(),
        ChannelMessage::NoteOn { note, velocity } => note.wf() && velocity.wf(),
        ChannelMessage::PolyphonicKeyPressure { note, pressure } => note.wf() && pressure.wf(),
        ChannelMessage::ControlChange { control, value } => control.wf() && value.wf(),
        ChannelMessage::ProgramChange { program } => program.wf(),
        ChannelMessage::ChannelPressure { pressure } => pressure.wf(),
        ChannelMessage::PitchBend { value } => value <= 0x3FFF,
    }
}

/// The event-kind code 0..=6 of a channel message.
pub open spec fn spec_event_type(m: ChannelMessage) -> u8 {
    match m {
        ChannelMessage::NoteOff { .. } => 0,
        ChannelMessage::NoteOn { .. } => 1,
        ChannelMessage::PolyphonicKeyPressure { .. } => 2,
        ChannelMessage::ControlChange { .. } => 3,
        ChannelMessage::ProgramChange { .. } => 4,
        ChannelMessage::ChannelPressure { .. } => 5,
        ChannelMessage::PitchBend { .. } => 6,
    }
}

/// The data bytes that follow the status byte of a channel message. A
/// pitch-bend value is split least-significant 7 bits first.
pub open spec fn spec_data_bytes(m: ChannelMessage) -> Seq<u8> {
    match m {
        ChannelMessage::NoteOff { note, velocity } => seq![note.0, velocity.0],
        ChannelMessage::NoteOn { note, velocity } => seq![note.0, velocity.0],
        ChannelMessage::PolyphonicKeyPressure { note, pressure } => seq![note.0, pressure.0],
        ChannelMessage::ControlChange { control, value } => seq![control.0, value.0],
        ChannelMessage::ProgramChange { program } => seq![program.0],
        ChannelMessage::ChannelPressure { pressure } => seq![pressure.0],
        ChannelMessage::PitchBend { value } => seq![
            (value % 128) as u8,
            ((value / 128) % 128) as u8,
        ],
    }
}

/// How many data bytes the channel-event kind `event_type` consumes.
pub open spec fn spec_data_len(event_type: u8) -> int {
    if event_type == 4 || event_type == 5 {
        1
    } else {
        2
    }
}

/// The channel message parsed from an event-kind code and the data bytes
/// that follow the status byte, with the count of data bytes consumed.
/// Each data byte must satisfy its target primitive's range invariant.
pub open spec fn spec_from_event_type(event_type: u8, data: Seq<u8>) -> Result<
    (ChannelMessage, usize),
    MidiError,
>
    recommends
        event_type <= 6 ==> data.len() >= spec_data_len(event_type),
{
    if event_type == 0 {
        if data[0] > 127 {
            Err(MidiError::InvalidMidiValue { kind: MidiValueKind::Note, value: data[0] })
        } else if data[1] > 127 {
            Err(MidiError::InvalidMidiValue { kind: MidiValueKind::Velocity, value: data[1] })
        } else {
            Ok((ChannelMessage::NoteOff { note: Note(data[0]), velocity: Velocity(data[1]) }, 2))
        }
    } else if event_type == 1 {
        if data[0] > 127 {
            Err(MidiError::InvalidMidiValue { kind: MidiValueKind::Note, value: data[0] })
        } else if data[1] > 127 {
            Err(MidiError::InvalidMidiValue { kind: MidiValueKind::Velocity, value: data[1] })
        } else {
            Ok((ChannelMessage::NoteOn { note: Note(data[0]), velocity: Velocity(data[1]) }, 2))
        }
    } else if event_type == 2 {
        if data[0] > 127 {
            Err(MidiError::InvalidMidiValue { kind: MidiValueKind::Note, value: data[0] })
        } else if data[1] > 127 {
            Err(MidiError::InvalidMidiValue { kind: MidiValueKind::Pressure, value: data[1] })
        } else {
            Ok(
                (
                    ChannelMessage::PolyphonicKeyPressure {
                        note: Note(data[0]),
                        pressure: Pressure(data[1]),
                    },
                    2,
                ),
            )
        }
    } else if event_type == 3 {
        if data[0] > 127 {
            Err(MidiError::InvalidMidiValue { kind: MidiValueKind::Control, value: data[0] })
        } else if data[1] > 127 {
            Err(MidiError::InvalidMidiValue { kind: MidiValueKind::Control, value: data[1] })
        } else {
            Ok(
                (
                    ChannelMessage::ControlChange {
                        control: Control(data[0]),
                        value: Control(data[1]),
                    },
                    2,
                ),
            )
        }
    } else if event_type == 4 {
        if data[0] > 127 {
            Err(MidiError::InvalidMidiValue { kind: MidiValueKind::Program, value: data[0] })
        } else {
            Ok((ChannelMessage::ProgramChange { program: Program(data[0]) }, 1))
        }
    } else if event_type == 5 {
        if data[0] > 127 {
            Err(MidiError::InvalidMidiValue { kind: MidiValueKind::Pressure, value: data[0] })
        } else {
            Ok((ChannelMessage::ChannelPressure { pressure: Pressure(data[0]) }, 1))
        }
    } else if event_type == 6 {
        Ok(
            (
                ChannelMessage::PitchBend { value: ((data[1] as u16) << 7) | (data[0] as u16) },
                2,
            ),
        )
    } else {
        Err(MidiError::InvalidEvent(event_type))
    }
}

impl ChannelMessage {
    /// Whether this channel message is well formed.
    pub open spec fn wf(self) -> bool {
        spec_channel_message_wf(self)
    }

    /// The event-kind code 0..=6 of this message.
    pub fn event_type(&self) -> (r: u8)
        ensures
            r == spec_event_type(*self),
    {
        match self {
            ChannelMessage::NoteOff { .. } => 0,
            ChannelMessage::NoteOn { .. } => 1,
            ChannelMessage::PolyphonicKeyPressure { .. } => 2,
            ChannelMessage::ControlChange { .. } => 3,
            ChannelMessage::ProgramChange { .. } => 4,
            ChannelMessage::ChannelPressure { .. } => 5,
            ChannelMessage::PitchBend { .. } => 6,
        }
    }

    /// Parses the data bytes that follow a status byte whose event-kind code
    /// is `event_type`. Returns the message and how many data bytes it
    /// consumed; the caller adds one for the status byte itself.
    pub fn from_event_type(event_type: u8, data: &[u8]) -> (r: Result<
        (ChannelMessage, usize),
        MidiError,
    >)
        requires
            event_type <= 6 ==> data@.len() >= spec_data_len(event_type),
        ensures
            r == spec_from_event_type(event_type, data@),
    {
        match event_type {
            0 => {
                let note = match Note::new(data[0]) {
                    Ok(n) => n,
                    Err(e) => { return Err(e) },
                };
                let velocity = match Velocity::new(data[1]) {
                    Ok(v) => v,
                    Err(e) => { return Err(e) },
                };
                Ok((ChannelMessage::NoteOff { note, velocity }, 2))
            },
            1 => {
                let note = match Note::new(data[0]) {
                    Ok(n) => n,
                    Err(e) => { return Err(e) },
                };
                let velocity = match Velocity::new(data[1]) {
                    Ok(v) => v,
                    Err(e) => { return Err(e) },
                };
                Ok((ChannelMessage::NoteOn { note, velocity }, 2))
            },
            2 => {
                let note = match Note::new(data[0]) {
                    Ok(n) => n,
                    Err(e) => { return Err(e) },
                };
                let pressure = match Pressure::new(data[1]) {
                    Ok(p) => p,
                    Err(e) => { return Err(e) },
                };
                Ok((ChannelMessage::PolyphonicKeyPressure { note, pressure }, 2))
            },
            3 => {
                let control = match Control::new(data[0]) {
                    Ok(c) => c,
                    Err(e) => { return Err(e) },
                };
                let value = match Control::new(data[1]) {
                    Ok(v) => v,
                    Err(e) => { return Err(e) },
                };
                Ok((ChannelMessage::ControlChange { control, value }, 2))
            },
            4 => {
                let program = match Program::new(data[0]) {
                    Ok(p) => p,
                    Err(e) => { return Err(e) },
                };
                Ok((ChannelMessage::ProgramChange { program }, 1))
            },
            5 => {
                let pressure = match Pressure::new(data[0]) {
                    Ok(p) => p,
                    Err(e) => { return Err(e) },
                };
                Ok((ChannelMessage::ChannelPressure { pressure }, 1))
            },
            6 => {
                let value: u16 = ((data[1] as u16) << 7) | (data[0] as u16);
                Ok((ChannelMessage::PitchBend { value }, 2))
            },
            _ => Err(MidiError::InvalidEvent(event_type)),
        }
    }
}

/// Parsing inverts encoding at the data-byte level: every well-formed
/// channel message is reproduced from its own event-kind code and data
/// bytes, consuming exactly those bytes.
pub proof fn lemma_channel_message_round_trip(m: ChannelMessage)
    requires
        spec_channel_message_wf(m),
    ensures
        spec_from_event_type(spec_event_type(m), spec_data_bytes(m)) == Ok::<
            (ChannelMessage, usize),
            MidiError,
        >((m, spec_data_len(spec_event_type(m)) as usize)),
{
    match m {
        ChannelMessage::NoteOff { .. } => {},
        ChannelMessage::NoteOn { .. } => {},
        ChannelMessage::PolyphonicKeyPressure { .. } => {},
        ChannelMessage::ControlChange { .. } => {},
        ChannelMessage::ProgramChange { .. } => {},
        ChannelMessage::ChannelPressure { .. } => {},
        ChannelMessage::PitchBend { value } => {
            let d0: u8 = (value % 128) as u8;
            let d1: u8 = ((value / 128) % 128) as u8;
            let a: u16 = d1 as u16;
            let b: u16 = d0 as u16;
            assert(a == value / 128 && b == value % 128);
            assert((a << 7) | b == a * 128 + b) by (bit_vector)
                requires
                    a <= 127,
                    b <= 127,
            ;
            assert(((d1 as u16) << 7) | (d0 as u16) == value);
        },
    }
}

/// The composite message: a channel voice message addressed to a channel, or
/// a system-common or real-time message.
#[derive(Debug, Clone, Copy, PartialEq, Eq, Hash, Structural)]
pub enum MidiMessage {
    Channel { channel: Channel, message: ChannelMessage },
    SystemCommon(SystemCommonEvent),
    RealTime(RealTimeMessage),
}

/// Whether a composite message is well formed.
pub open spec fn spec_midi_message_wf(m: MidiMessage) -> bool {
    match m {
        MidiMessage::Channel { channel, message } => channel.wf() && message.wf(),
        MidiMessage::SystemCommon(_) => true,
        MidiMessage::RealTime(_) => true,
    }
}

/// How many bytes past the status byte parsing a message starting at
/// `status_byte` consumes before it can fail for any reason other than a bad
/// status byte.
pub open spec fn spec_needed_data_len(status_byte: u8) -> int {
    if 0x80 <= status_byte <= 0xEF {
        spec_data_len(((status_byte / 16) % 8) as u8)
    } else {
        0
    }
}

/// The composite message parsed from a byte sequence that starts with a
/// status byte, with the total count of bytes consumed (status byte
/// included).
pub open spec fn spec_midi_from_bytes(bytes: Seq<u8>) -> Result<(MidiMessage, usize), MidiError>
    recommends
        bytes.len() >= 1 + spec_needed_data_len(bytes[0]),
{
    match spec_from_status_byte(bytes[0]) {
        Err(e) => Err(e),
        Ok(Status::Channel { event_type, channel }) => {
            match spec_from_event_type(event_type, bytes.skip(1)) {
                Ok((msg, len)) => Ok(
                    (MidiMessage::Channel { channel, message: msg }, (len + 1) as usize),
                ),
                Err(e) => Err(e),
            }
        },
        Ok(Status::SystemCommon(evt)) => Ok((MidiMessage::SystemCommon(evt), 1)),
        Ok(Status::RealTime(rt)) => Ok((MidiMessage::RealTime(rt), 1)),
    }
}

impl MidiMessage {
    /// Whether this composite message is well formed.
    pub open spec fn wf(self) -> bool {
        spec_midi_message_wf(self)
    }

    /// Parses one message from the front of a byte sequence: the status byte,
    /// then the data bytes its kind calls for. Returns the message and the
    /// total count of bytes consumed.
    pub fn from_bytes(bytes: &[u8]) -> (r: Result<(Self, usize), MidiError>)
        requires
            bytes@.len() >= 1,
            bytes@.len() >= 1 + spec_needed_data_len(bytes@[0]),
        ensures
            r == spec_midi_from_bytes(bytes@),
    {
        let status = match Status::from_status_byte(bytes[0]) {
            Ok(s) => s,
            Err(e) => { return Err(e) },
        };
        match status {
            Status::Channel { event_type, channel } => {
                let data = slice_subrange(bytes, 1, bytes.len());
                assert(data@ =~= bytes@.skip(1));
                match ChannelMessage::from_event_type(event_type, data) {
                    Ok((msg, len)) => Ok((MidiMessage::Channel { channel, message: msg }, len + 1)),
                    Err(e) => Err(e),
                }
            },
            Status::SystemCommon(evt) => Ok((MidiMessage::SystemCommon(evt), 1)),
            Status::RealTime(rt) => Ok((MidiMessage::RealTime(rt), 1)),
        }
    }
}

} // verus!
