//! Real-time messages: the whole status bytes 0xF8..=0xFF.

use vstd::prelude::*;

use crate::error::MidiError;

verus! {

/// The eight real-time messages, one per status byte 0xF8..=0xFF.
#[derive(Debug, Clone, Copy, PartialEq, Eq, Hash, Structural)]
pub enum RealTimeMessage {
    TimingClock,
    Reserved1,
    Start,
    Continue,
    Stop,
    Reserved2,
    ActiveSensing,
    Reset,
}

/// The status byte of each variant, 0xF8..=0xFF.
pub open spec fn spec_real_time_byte(e: RealTimeMessage) -> u8 {
    match e {
        RealTimeMessage::TimingClock => 0xF8,
        RealTimeMessage::Reserved1 => 0xF9,
        RealTimeMessage::Start => 0xFA,
        RealTimeMessage::Continue => 0xFB,
        RealTimeMessage::Stop => 0xFC,
        RealTimeMessage::Reserved2 => 0xFD,
        RealTimeMessage::ActiveSensing => 0xFE,
        RealTimeMessage::Reset => 0xFF,
    }
}

/// The variant whose status byte a byte is, or the error for a byte outside
/// 0xF8..=0xFF.
pub open spec fn spec_real_time_try_from(value: u8) -> Result<RealTimeMessage, MidiError> {
    if value == 0xF8 {
        Ok(RealTimeMessage::TimingClock)
    } else if value == 0xF9 {
        Ok(RealTimeMessage::Reserved1)
    } else if value == 0xFA {
        Ok(RealTimeMessage::Start)
    } else if value == 0xFB {
        Ok(RealTimeMessage::Continue)
    } else if value == 0xFC {
        Ok(RealTimeMessage::Stop)
    } else if value == 0xFD {
        Ok(RealTimeMessage::Reserved2)
    } else if value == 0xFE {
        Ok(RealTimeMessage::ActiveSensing)
    } else if value == 0xFF {
        Ok(RealTimeMessage::Reset)
    } else {
        Err(MidiError::InvalidRealTimeMessage(value))
    }
}

impl RealTimeMessage {
    /// The status byte of this variant, 0xF8..=0xFF.
    pub fn byte(&self) -> (r: u8)
        ensures
            r == spec_real_time_byte(*self),
    {
        match self {
            RealTimeMessage::TimingClock => 0xF8,
            RealTimeMessage::Reserved1 => 0xF9,
            RealTimeMessage::Start => 0xFA,
            RealTimeMessage::Continue => 0xFB,
            RealTimeMessage::Stop => 0xFC,
            RealTimeMessage::Reserved2 => 0xFD,
            RealTimeMessage::ActiveSensing => 0xFE,
            RealTimeMessage::Reset => 0xFF,
        }
    }

    /// Decodes a status byte: succeeds exactly on bytes 0xF8..=0xFF.
    pub fn try_from(value: u8) -> (r: Result<Self, MidiError>)
        ensures
            r == spec_real_time_try_from(value),
            r is Ok <==> value >= 0xF8,
            r is Ok ==> spec_real_time_byte(r->Ok_0) == value,
    {
        match value {
            0xF8 => Ok(RealTimeMessage::TimingClock),
            0xF9 => Ok(RealTimeMessage::Reserved1),
            0xFA => Ok(RealTimeMessage::Start),
            0xFB => Ok(RealTimeMessage::Continue),
            0xFC => Ok(RealTimeMessage::Stop),
            0xFD => Ok(RealTimeMessage::Reserved2),
            0xFE => Ok(RealTimeMessage::ActiveSensing),
            0xFF => Ok(RealTimeMessage::Reset),
            _ => Err(MidiError::InvalidRealTimeMessage(value)),
        }
    }
}

} // verus!
