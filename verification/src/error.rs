//! The error taxonomy: every validation failure of the library is one
//! variant of [`MidiError`].

use vstd::prelude::*;

verus! {

/// Names the bounded 7-bit primitive whose construction failed.
#[derive(Debug, Clone, Copy, PartialEq, Eq, Structural)]
pub enum MidiValueKind {
    Note,
    Velocity,
    Pressure,
    Program,
    Control,
}

/// Every failure the library can report.
#[derive(Debug, Clone, Copy, PartialEq, Eq, Structural)]
pub enum MidiError {
    /// A channel byte above 15.
    InvalidChannel(u8),
    /// A 7-bit value out of range; the kind names the primitive.
    InvalidMidiValue { kind: MidiValueKind, value: u8 },
    /// A channel-event kind outside 0..=6.
    InvalidEvent(u8),
    /// The low nibble of a system-common status byte outside 0..=7.
    InvalidSystemCommonEvent(u8),
    /// A byte outside 0xF8..=0xFF where a real-time message was expected.
    InvalidRealTimeMessage(u8),
    /// A status byte whose high bit is zero.
    InvalidStatusByte,
    /// A malformed MThd chunk.
    InvalidHeaderByte,
    /// A format field outside {0, 1, 2}.
    InvalidFormat,
    /// A variable-length-quantity source value above 0x0FFF_FFFF.
    InvalidVqlInput(u32),
    /// A string that does not name a valid pitch.
    InvalidNote,
}

} // verus!
