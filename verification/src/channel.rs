//! The 4-bit MIDI channel identifier.

use vstd::prelude::*;

use crate::error::MidiError;

verus! {

/// A MIDI channel: a byte no greater than 0x0F.
#[derive(Debug, Clone, Copy, PartialEq, Eq, PartialOrd, Ord, Hash, Structural)]
pub struct Channel(pub u8);

impl Channel {
    /// Whether the wrapped byte satisfies the channel range invariant.
    pub open spec fn wf(self) -> bool {
        self.0 <= 0x0F
    }

    /// Validating constructor: succeeds exactly on bytes 0..=15.
    pub fn new(value: u8) -> (r: Result<Self, MidiError>)
        ensures
            value <= 0x0F <==> r is Ok,
            value <= 0x0F ==> r == Ok::<Channel, MidiError>(Channel(value)),
            value > 0x0F ==> r == Err::<Channel, MidiError>(MidiError::InvalidChannel(value)),
    {
        if value <= 0x0F {
            Ok(Channel(value))
        } else {
            Err(MidiError::InvalidChannel(value))
        }
    }

    /// The wrapped byte.
    pub fn value(&self) -> (r: u8)
        ensures
            r == self.0,
    {
        self.0
    }
}

} // verus!
