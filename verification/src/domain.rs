//! The bounded 7-bit data values carried by channel voice messages.
//!
//! Each primitive wraps one byte with the invariant that the high bit is
//! clear, so a value of one of these types is always a legal MIDI data byte.

use vstd::prelude::*;

use crate::error::MidiError;
use crate::error::MidiValueKind;

verus! {

/// A MIDI note number, 0..=127.
#[derive(Debug, Clone, Copy, PartialEq, Eq, PartialOrd, Ord, Hash, Structural)]
pub struct Note(pub u8);

/// A key velocity, 0..=127.
#[derive(Debug, Clone, Copy, PartialEq, Eq, PartialOrd, Ord, Hash, Structural)]
pub struct Velocity(pub u8);

/// An aftertouch pressure, 0..=127.
#[derive(Debug, Clone, Copy, PartialEq, Eq, PartialOrd, Ord, Hash, Structural)]
pub struct Pressure(pub u8);

/// A program (patch) number, 0..=127.
#[derive(Debug, Clone, Copy, PartialEq, Eq, PartialOrd, Ord, Hash, Structural)]
pub struct Program(pub u8);

/// A controller number or controller value, 0..=127.
#[derive(Debug, Clone, Copy, PartialEq, Eq, PartialOrd, Ord, Hash, Structural)]
pub struct Control(pub u8);

impl Note {
    /// Whether the wrapped byte satisfies the 7-bit range invariant.
    pub open spec fn wf(self) -> bool {
        self.0 <= 127
    }

    /// Validating constructor: succeeds exactly on bytes 0..=127.
    pub fn new(value: u8) -> (r: Result<Self, MidiError>)
        ensures
            value <= 127 <==> r is Ok,
            value <= 127 ==> r == Ok::<Note, MidiError>(Note(value)),
            value > 127 ==> r == Err::<Note, MidiError>(
                MidiError::InvalidMidiValue { kind: MidiValueKind::Note, value },
            ),
    {
        if value <= 127 {
            Ok(Note(value))
        } else {
            Err(MidiError::InvalidMidiValue { kind: MidiValueKind::Note, value })
        }
    }

    /// The wrapped byte.
    pub fn value(&self) -> (r: u8)
        ensures
            r == self.0,
    {
        self.0
    }
}

impl Velocity {
    /// Whether the wrapped byte satisfies the 7-bit range invariant.
    pub open spec fn wf(self) -> bool {
        self.0 <= 127
    }

    /// Validating constructor: succeeds exactly on bytes 0..=127.
    pub fn new(value: u8) -> (r: Result<Self, MidiError>)
        ensures
            value <= 127 <==> r is Ok,
            value <= 127 ==> r == Ok::<Velocity, MidiError>(Velocity(value)),
            value > 127 ==> r == Err::<Velocity, MidiError>(
                MidiError::InvalidMidiValue { kind: MidiValueKind::Velocity, value },
            ),
    {
        if value <= 127 {
            Ok(Velocity(value))
        } else {
            Err(MidiError::InvalidMidiValue { kind: MidiValueKind::Velocity, value })
        }
    }

    /// The wrapped byte.
    pub fn value(&self) -> (r: u8)
        ensures
            r == self.0,
    {
        self.0
    }
}

impl Pressure {
    /// Whether the wrapped byte satisfies the 7-bit range invariant.
    pub open spec fn wf(self) -> bool {
        self.0 <= 127
    }

    /// Validating constructor: succeeds exactly on bytes 0..=127.
    pub fn new(value: u8) -> (r: Result<Self, MidiError>)
        ensures
            value <= 127 <==> r is Ok,
            value <= 127 ==> r == Ok::<Pressure, MidiError>(Pressure(value)),
            value > 127 ==> r == Err::<Pressure, MidiError>(
                MidiError::InvalidMidiValue { kind: MidiValueKind::Pressure, value },
            ),
    {
        if value <= 127 {
            Ok(Pressure(value))
        } else {
            Err(MidiError::InvalidMidiValue { kind: MidiValueKind::Pressure, value })
        }
    }

    /// The wrapped byte.
    pub fn value(&self) -> (r: u8)
        ensures
            r == self.0,
    {
        self.0
    }
}

impl Program {
    /// Whether the wrapped byte satisfies the 7-bit range invariant.
    pub open spec fn wf(self) -> bool {
        self.0 <= 127
    }

    /// Validating constructor: succeeds exactly on bytes 0..=127.
    pub fn new(value: u8) -> (r: Result<Self, MidiError>)
        ensures
            value <= 127 <==> r is Ok,
            value <= 127 ==> r == Ok::<Program, MidiError>(Program(value)),
            value > 127 ==> r == Err::<Program, MidiError>(
                MidiError::InvalidMidiValue { kind: MidiValueKind::Program, value },
            ),
    {
        if value <= 127 {
            Ok(Program(value))
        } else {
            Err(MidiError::InvalidMidiValue { kind: MidiValueKind::Program, value })
        }
    }

    /// The wrapped byte.
    pub fn value(&self) -> (r: u8)
        ensures
            r == self.0,
    {
        self.0
    }
}

impl Control {
    /// Whether the wrapped byte satisfies the 7-bit range invariant.
    pub open spec fn wf(self) -> bool {
        self.0 <= 127
    }

    /// Validating constructor: succeeds exactly on bytes 0..=127.
    pub fn new(value: u8) -> (r: Result<Self, MidiError>)
        ensures
            value <= 127 <==> r is Ok,
            value <= 127 ==> r == Ok::<Control, MidiError>(Control(value)),
            value > 127 ==> r == Err::<Control, MidiError>(
                MidiError::InvalidMidiValue { kind: MidiValueKind::Control, value },
            ),
    {
        if value <= 127 {
            Ok(Control(value))
        } else {
            Err(MidiError::InvalidMidiValue { kind: MidiValueKind::Control, value })
        }
    }

    /// The wrapped byte.
    pub fn value(&self) -> (r: u8)
        ensures
            r == self.0,
    {
        self.0
    }
}

} // verus!
