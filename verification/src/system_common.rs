//! System-common messages: status bytes 0xF0..=0xF7, identified by their
//! low nibble.

use vstd::prelude::*;

use crate::error::MidiError;

verus! {

/// The eight low-nibble codes 0..=7 of system-common status bytes.
#[derive(Debug, Clone, Copy, PartialEq, Eq, Hash, Structural)]
pub enum SystemCommonEvent {
    SysExStart,
    MTCQuarterFrame,
    SongPositionPointer,
    SongSelect,
    Undefined1,
    Undefined2,
    TuneRequest,
    EndOfSysEx,
}

/// The low-nibble code of each variant, 0..=7.
pub open spec fn spec_system_common_code(e: SystemCommonEvent) -> u8 {
    match e {
        SystemCommonEvent::SysExStart => 0,
        SystemCommonEvent::MTCQuarterFrame => 1,
        SystemCommonEvent::SongPositionPointer => 2,
        SystemCommonEvent::SongSelect => 3,
        SystemCommonEvent::Undefined1 => 4,
        SystemCommonEvent::Undefined2 => 5,
        SystemCommonEvent::TuneRequest => 6,
        SystemCommonEvent::EndOfSysEx => 7,
    }
}

/// The variant whose code a byte is, or the error for a byte above 7.
pub open spec fn spec_system_common_try_from(value: u8) -> Result<SystemCommonEvent, MidiError> {
    if value == 0 {
        Ok(SystemCommonEvent::SysExStart)
    } else if value == 1 {
        Ok(SystemCommonEvent::MTCQuarterFrame)
    } else if value == 2 {
        Ok(SystemCommonEvent::SongPositionPointer)
    } else if value == 3 {
        Ok(SystemCommonEvent::SongSelect)
    } else if value == 4 {
        Ok(SystemCommonEvent::Undefined1)
    } else if value == 5 {
        Ok(SystemCommonEvent::Undefined2)
    } else if value == 6 {
        Ok(SystemCommonEvent::TuneRequest)
    } else if value == 7 {
        Ok(SystemCommonEvent::EndOfSysEx)
    } else {
        Err(MidiError::InvalidSystemCommonEvent(value))
    }
}

impl SystemCommonEvent {
    /// The low-nibble code of this variant, 0..=7.
    pub fn code(&self) -> (r: u8)
        ensures
            r == spec_system_common_code(*self),
    {
        match self {
            SystemCommonEvent::SysExStart => 0,
            SystemCommonEvent::MTCQuarterFrame => 1,
            SystemCommonEvent::SongPositionPointer => 2,
            SystemCommonEvent::SongSelect => 3,
            SystemCommonEvent::Undefined1 => 4,
            SystemCommonEvent::Undefined2 => 5,
            SystemCommonEvent::TuneRequest => 6,
            SystemCommonEvent::EndOfSysEx => 7,
        }
    }

    /// Decodes a low-nibble code: succeeds exactly on bytes 0..=7.
    pub fn try_from(value: u8) -> (r: Result<Self, MidiError>)
        ensures
            r == spec_system_common_try_from(value),
            r is Ok <==> value <= 7,
            r is Ok ==> spec_system_common_code(r->Ok_0) == value,
    {
        match value {
            0 => Ok(SystemCommonEvent::SysExStart),
            1 => Ok(SystemCommonEvent::MTCQuarterFrame),
            2 => Ok(SystemCommonEvent::SongPositionPointer),
            3 => Ok(SystemCommonEvent::SongSelect),
            4 => Ok(SystemCommonEvent::Undefined1),
            5 => Ok(SystemCommonEvent::Undefined2),
            6 => Ok(SystemCommonEvent::TuneRequest),
            7 => Ok(SystemCommonEvent::EndOfSysEx),
            _ => Err(MidiError::InvalidSystemCommonEvent(value)),
        }
    }
}

} // verus!
