//! The seven channel-event kinds and their stable 3-bit codes.

use vstd::prelude::*;

use crate::error::MidiError;

verus! {

/// The kind of a channel voice message. Each variant maps to a stable
/// event-kind code 0..=6 in the order listed; that mapping is the external
/// identity of the variant.
#[derive(Debug, Clone, Copy, PartialEq, Eq, Structural)]
pub enum MidiEvent {
    NoteOff,
    NoteOn,
    PolyphonicKeyPressure,
    ControlChange,
    ProgramChange,
    ChannelPressure,
    PitchBend,
}

/// The event-kind code of each variant, 0..=6.
pub open spec fn spec_midi_event_code(e: MidiEvent) -> u8 {
    match e {
        MidiEvent::NoteOff => 0,
        MidiEvent::NoteOn => 1,
        MidiEvent::PolyphonicKeyPressure => 2,
        MidiEvent::ControlChange => 3,
        MidiEvent::ProgramChange => 4,
        MidiEvent::ChannelPressure => 5,
        MidiEvent::PitchBend => 6,
    }
}

/// The variant whose code a byte is, or the error for a byte above 6.
pub open spec fn spec_midi_event_try_from(value: u8) -> Result<MidiEvent, MidiError> {
    if value == 0 {
        Ok(MidiEvent::NoteOff)
    } else if value == 1 {
        Ok(MidiEvent::NoteOn)
    } else if value == 2 {
        Ok(MidiEvent::PolyphonicKeyPressure)
    } else if value == 3 {
        Ok(MidiEvent::ControlChange)
    } else if value == 4 {
        Ok(MidiEvent::ProgramChange)
    } else if value == 5 {
        Ok(MidiEvent::ChannelPressure)
    } else if value == 6 {
        Ok(MidiEvent::PitchBend)
    } else {
        Err(MidiError::InvalidEvent(value))
    }
}

impl MidiEvent {
    /// The event-kind code of this variant, 0..=6.
    pub fn code(&self) -> (r: u8)
        ensures
            r == spec_midi_event_code(*self),
    {
        match self {
            MidiEvent::NoteOff => 0,
            MidiEvent::NoteOn => 1,
            MidiEvent::PolyphonicKeyPressure => 2,
            MidiEvent::ControlChange => 3,
            MidiEvent::ProgramChange => 4,
            MidiEvent::ChannelPressure => 5,
            MidiEvent::PitchBend => 6,
        }
    }

    /// Decodes an event-kind code: succeeds exactly on bytes 0..=6.
    pub fn try_from(value: u8) -> (r: Result<Self, MidiError>)
        ensures
            r == spec_midi_event_try_from(value),
            r is Ok <==> value <= 6,
            r is Ok ==> spec_midi_event_code(r->Ok_0) == value,
    {
        match value {
            0 => Ok(MidiEvent::NoteOff),
            1 => Ok(MidiEvent::NoteOn),
            2 => Ok(MidiEvent::PolyphonicKeyPressure),
            3 => Ok(MidiEvent::ControlChange),
            4 => Ok(MidiEvent::ProgramChange),
            5 => Ok(MidiEvent::ChannelPressure),
            6 => Ok(MidiEvent::PitchBend),
            _ => Err(MidiError::InvalidEvent(value)),
        }
    }
}

} // verus!
