//! Parsing a pitch name such as `"C4"`, `"D#3"` or `"Bb1"` into a MIDI
//! note number.
//!
//! A pitch name is a note letter, an optional `#` or `b` accidental, and a
//! single decimal octave digit. The note number is
//! `(octave + 1) * 12 + index`, where the index is the semitone within the
//! octave; a result above 127 is out of MIDI range.

use vstd::prelude::*;

use crate::domain::Note;
use crate::error::MidiError;
use crate::error::MidiValueKind;
use vstd::string::StringSliceAdditionalSpecFns;

verus! {

/// The semitone index 0..=11 named by a note letter with an optional
/// accidental, or `None` for anything else. `Cb` and `B#` are not in the
/// table, matching the names the parser accepts.
pub open spec fn spec_note_index(s: Seq<u8>) -> Option<u8> {
    if s.len() == 1 {
        if s[0] == 67 {  // C
            Some(0u8)
        } else if s[0] == 68 {  // D
            Some(2u8)
        } else if s[0] == 69 {  // E
            Some(4u8)
        } else if s[0] == 70 {  // F
            Some(5u8)
        } else if s[0] == 71 {  // G
            Some(7u8)
        } else if s[0] == 65 {  // A
            Some(9u8)
        } else if s[0] == 66 {  // B
            Some(11u8)
        } else {
            None
        }
    } else if s.len() == 2 {
        if s[0] == 67 && s[1] == 35 {  // C#
            Some(1u8)
        } else if s[0] == 68 && s[1] == 98 {  // Db
            Some(1u8)
        } else if s[0] == 68 && s[1] == 35 {  // D#
            Some(3u8)
        } else if s[0] == 69 && s[1] == 98 {  // Eb
            Some(3u8)
        } else if s[0] == 70 && s[1] == 35 {  // F#
            Some(6u8)
        } else if s[0] == 71 && s[1] == 98 {  // Gb
            Some(6u8)
        } else if s[0] == 71 && s[1] == 35 {  // G#
            Some(8u8)
        } else if s[0] == 65 && s[1] == 98 {  // Ab
            Some(8u8)
        } else if s[0] == 65 && s[1] == 35 {  // A#
            Some(10u8)
        } else if s[0] == 66 && s[1] == 98 {  // Bb
            Some(10u8)
        } else {
            None
        }
    } else {
        None
    }
}

/// The note parsed from the UTF-8 bytes of a pitch name: everything but the
/// final octave digit names the semitone, and a note number above 127 is
/// rejected as an out-of-range MIDI value.
pub open spec fn spec_parse_note(bytes: Seq<u8>) -> Result<Note, MidiError> {
    if bytes.len() < 2 {
        Err(MidiError::InvalidNote)
    } else if !(48 <= bytes.last() <= 57) {
        Err(MidiError::InvalidNote)
    } else {
        match spec_note_index(bytes.take(bytes.len() - 1)) {
            None => Err(MidiError::InvalidNote),
            Some(index) => {
                let midi = ((bytes.last() - 48 + 1) * 12 + index) as u8;
                if midi <= 127 {
                    Ok(Note(midi))
                } else {
                    Err(MidiError::InvalidMidiValue { kind: MidiValueKind::Note, value: midi })
                }
            },
        }
    }
}

impl Note {
    /// Parses a pitch name such as `"C4"` into its note number; `"C4"` is
    /// note 60. Fails with `InvalidNote` on anything that is not a note
    /// letter, an optional accidental and one octave digit, and with an
    /// out-of-range error on a pitch above the MIDI range.
    pub fn try_from(value: &str) -> (r: Result<Note, MidiError>)
        ensures
            r == spec_parse_note(value.spec_bytes()),
    {
        let bytes = value.as_bytes();
        if bytes.len() < 2 {
            return Err(MidiError::InvalidNote);
        }
        let octave_byte = bytes[bytes.len() - 1];
        if octave_byte < 48 || octave_byte > 57 {
            return Err(MidiError::InvalidNote);
        }
        let octave = octave_byte - 48;

        let note_len = bytes.len() - 1;
        let index: Option<u8> = if note_len == 1 {
            match bytes[0] {
                67 => Some(0),
                68 => Some(2),
                69 => Some(4),
                70 => Some(5),
                71 => Some(7),
                65 => Some(9),
                66 => Some(11),
                _ => None,
            }
        } else if note_len == 2 {
            let b0 = bytes[0];
            let b1 = bytes[1];
            if b0 == 67 && b1 == 35 {
                Some(1)
            } else if b0 == 68 && b1 == 98 {
                Some(1)
            } else if b0 == 68 && b1 == 35 {
                Some(3)
            } else if b0 == 69 && b1 == 98 {
                Some(3)
            } else if b0 == 70 && b1 == 35 {
                Some(6)
            } else if b0 == 71 && b1 == 98 {
                Some(6)
            } else if b0 == 71 && b1 == 35 {
                Some(8)
            } else if b0 == 65 && b1 == 98 {
                Some(8)
            } else if b0 == 65 && b1 == 35 {
                Some(10)
            } else if b0 == 66 && b1 == 98 {
                Some(10)
            } else {
                None
            }
        } else {
            None
        };

        proof {
            let prefix = value.spec_bytes().take(value.spec_bytes().len() - 1);
            assert(prefix.len() == note_len);
            if note_len == 1 {
                assert(prefix[0] == bytes@[0]);
            } else if note_len == 2 {
                assert(prefix[0] == bytes@[0] && prefix[1] == bytes@[1]);
            }
            assert(index == spec_note_index(prefix));
        }

        match index {
            None => Err(MidiError::InvalidNote),
            Some(idx) => {
                let midi: u8 = (octave + 1) * 12 + idx;
                if midi <= 127 {
                    Ok(Note(midi))
                } else {
                    Err(MidiError::InvalidMidiValue { kind: MidiValueKind::Note, value: midi })
                }
            },
        }
    }
}

} // verus!
