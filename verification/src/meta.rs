//! Meta-events: non-playable events carried inside a track chunk.
//!
//! A meta-event serializes as the `0xFF` marker, a one-byte type code, the
//! variable-length-quantity length of its payload, then the payload itself.

use vstd::prelude::*;

use crate::track::spec_vlq_bytes;
use crate::track::Vql;

verus! {

/// A meta-event: the enumerated subset the library models, plus an opaque
/// escape hatch for every other type code.
#[derive(Debug)]
pub enum MetaEvent {
    /// Type 0x03: the track's display name, raw bytes.
    TrackName(Vec<u8>),
    /// Type 0x2F: marks the end of a track; empty payload.
    EndOfTrack,
    /// Type 0x51: tempo in microseconds per quarter note; the payload is the
    /// low 24 bits, big-endian.
    SetTempo(u32),
    /// Type 0x58: time signature. The denominator is stored as its base-2
    /// logarithm; it must be a power of two, which is the caller's
    /// responsibility.
    TimeSignature {
        numerator: u8,
        denominator: u8,
        clocks_per_tick: u8,
        thirty_seconds_per_24_clocks: u8,
    },
    /// Type 0x59: key signature. `sharps` counts sharps (positive) or flats
    /// (negative).
    KeySignature { sharps: i8, is_major: bool },
    /// Any other type code, with its payload carried through untouched.
    Unknown { event_type: u8, data: Vec<u8> },
}

/// The mathematical shape of a meta-event: the same variants with payload
/// bytes as sequences.
pub enum MetaEventView {
    TrackName(Seq<u8>),
    EndOfTrack,
    SetTempo(u32),
    TimeSignature {
        numerator: u8,
        denominator: u8,
        clocks_per_tick: u8,
        thirty_seconds_per_24_clocks: u8,
    },
    KeySignature { sharps: i8, is_major: bool },
    Unknown { event_type: u8, data: Seq<u8> },
}

impl View for MetaEvent {
    type V = MetaEventView;

    open spec fn view(&self) -> MetaEventView {
        match self {
            MetaEvent::TrackName(d) => MetaEventView::TrackName(d@),
            MetaEvent::EndOfTrack => MetaEventView::EndOfTrack,
            MetaEvent::SetTempo(t) => MetaEventView::SetTempo(*t),
            MetaEvent::TimeSignature {
                numerator,
                denominator,
                clocks_per_tick,
                thirty_seconds_per_24_clocks,
            } => MetaEventView::TimeSignature {
                numerator: *numerator,
                denominator: *denominator,
                clocks_per_tick: *clocks_per_tick,
                thirty_seconds_per_24_clocks: *thirty_seconds_per_24_clocks,
            },
            MetaEvent::KeySignature { sharps, is_major } => MetaEventView::KeySignature {
                sharps: *sharps,
                is_major: *is_major,
            },
            MetaEvent::Unknown { event_type, data } => MetaEventView::Unknown {
                event_type: *event_type,
                data: data@,
            },
        }
    }
}

/// The floor of the base-2 logarithm of a byte, with 0 for input 0: the
/// form in which a time signature's denominator is stored.
pub open spec fn spec_log2_floor(d: u8) -> u8 {
    if d >= 128 {
        7
    } else if d >= 64 {
        6
    } else if d >= 32 {
        5
    } else if d >= 16 {
        4
    } else if d >= 8 {
        3
    } else if d >= 4 {
        2
    } else if d >= 2 {
        1
    } else {
        0
    }
}

/// The floor of the base-2 logarithm of a byte, with 0 for input 0.
pub fn log2_floor(d: u8) -> (r: u8)
    ensures
        r == spec_log2_floor(d),
{
    if d >= 128 {
        7
    } else if d >= 64 {
        6
    } else if d >= 32 {
        5
    } else if d >= 16 {
        4
    } else if d >= 8 {
        3
    } else if d >= 4 {
        2
    } else if d >= 2 {
        1
    } else {
        0
    }
}

/// The unsigned byte that stores a signed sharps count, reinterpreted in
/// two's complement.
pub open spec fn spec_sharps_byte(sharps: i8) -> u8 {
    if sharps >= 0 {
        sharps as u8
    } else {
        (sharps + 256) as u8
    }
}

/// The one-byte type code of a meta-event.
pub open spec fn spec_meta_type_byte(m: MetaEventView) -> u8 {
    match m {
        MetaEventView::TrackName(_) => 0x03,
        MetaEventView::EndOfTrack => 0x2F,
        MetaEventView::SetTempo(_) => 0x51,
        MetaEventView::TimeSignature { .. } => 0x58,
        MetaEventView::KeySignature { .. } => 0x59,
        MetaEventView::Unknown { event_type, .. } => event_type,
    }
}

/// The payload bytes of a meta-event.
pub open spec fn spec_meta_payload(m: MetaEventView) -> Seq<u8> {
    match m {
        MetaEventView::TrackName(d) => d,
        MetaEventView::EndOfTrack => Seq::<u8>::empty(),
        MetaEventView::SetTempo(t) => seq![
            ((t / 0x10000) % 256) as u8,
            ((t / 256) % 256) as u8,
            (t % 256) as u8,
        ],
        MetaEventView::TimeSignature {
            numerator,
            denominator,
            clocks_per_tick,
            thirty_seconds_per_24_clocks,
        } => seq![
            numerator,
            spec_log2_floor(denominator),
            clocks_per_tick,
            thirty_seconds_per_24_clocks,
        ],
        MetaEventView::KeySignature { sharps, is_major } => seq![
            spec_sharps_byte(sharps),
            if is_major {
                0u8
            } else {
                1u8
            },
        ],
        MetaEventView::Unknown { data, .. } => data,
    }
}

/// The full serialized form of a meta-event: marker, type code,
/// variable-length payload length, payload.
pub open spec fn spec_meta_bytes(m: MetaEventView) -> Seq<u8>
    recommends
        spec_meta_payload(m).len() <= 0x0FFF_FFFF,
{
    seq![0xFFu8, spec_meta_type_byte(m)] + spec_vlq_bytes(spec_meta_payload(m).len() as u32)
        + spec_meta_payload(m)
}

impl MetaEvent {
    /// Whether this meta-event can be serialized: its payload length fits
    /// the 28-bit variable-length quantity.
    pub open spec fn wf(self) -> bool {
        spec_meta_payload(self@).len() <= 0x0FFF_FFFF
    }

    /// Serializes this meta-event: `0xFF`, the type code, the payload
    /// length as a variable-length quantity, then the payload.
    pub fn to_bytes(&self) -> (r: Vec<u8>)
        requires
            self.wf(),
        ensures
            r@ == spec_meta_bytes(self@),
    {
        let mut bytes: Vec<u8> = Vec::new();
        bytes.push(0xFF);

        let (type_byte, mut data): (u8, Vec<u8>) = match self {
            MetaEvent::TrackName(d) => (0x03, d.clone()),
            MetaEvent::EndOfTrack => (0x2F, Vec::new()),
            MetaEvent::SetTempo(t) => {
                let mut v: Vec<u8> = Vec::new();
                v.push(((*t / 0x10000) % 256) as u8);
                v.push(((*t / 256) % 256) as u8);
                v.push((*t % 256) as u8);
                (0x51, v)
            },
            MetaEvent::TimeSignature {
                numerator,
                denominator,
                clocks_per_tick,
                thirty_seconds_per_24_clocks,
            } => {
                let mut v: Vec<u8> = Vec::new();
                v.push(*numerator);
                v.push(log2_floor(*denominator));
                v.push(*clocks_per_tick);
                v.push(*thirty_seconds_per_24_clocks);
                (0x58, v)
            },
            MetaEvent::KeySignature { sharps, is_major } => {
                let mut v: Vec<u8> = Vec::new();
                let s = *sharps;
                if s >= 0 {
                    v.push(s as u8);
                } else {
                    v.push(((s as i16) + 256) as u8);
                }
                v.push(if *is_major { 0 } else { 1 });
                (0x59, v)
            },
            MetaEvent::Unknown { event_type, data } => (*event_type, data.clone()),
        };
        proof {
            assert(data@ =~= spec_meta_payload(self@));
        }

        bytes.push(type_byte);
        let len_vql = Vql(data.len() as u32);
        let mut len_bytes = len_vql.encode_bytes();
        bytes.append(&mut len_bytes);
        bytes.append(&mut data);

        proof {
            assert(bytes@ =~= spec_meta_bytes(self@));
        }
        bytes
    }
}

impl Clone for MetaEvent {
    /// A clone denotes the same meta-event: the views are equal.
    fn clone(&self) -> (r: Self)
        ensures
            r@ == self@,
    {
        let r = match self {
            MetaEvent::TrackName(d) => MetaEvent::TrackName(d.clone()),
            MetaEvent::EndOfTrack => MetaEvent::EndOfTrack,
            MetaEvent::SetTempo(t) => MetaEvent::SetTempo(*t),
            MetaEvent::TimeSignature {
                numerator,
                denominator,
                clocks_per_tick,
                thirty_seconds_per_24_clocks,
            } => MetaEvent::TimeSignature {
                numerator: *numerator,
                denominator: *denominator,
                clocks_per_tick: *clocks_per_tick,
                thirty_seconds_per_24_clocks: *thirty_seconds_per_24_clocks,
            },
            MetaEvent::KeySignature { sharps, is_major } => MetaEvent::KeySignature {
                sharps: *sharps,
                is_major: *is_major,
            },
            MetaEvent::Unknown { event_type, data } => MetaEvent::Unknown {
                event_type: *event_type,
                data: data.clone(),
            },
        };
        proof {
            assert(r@ =~= self@);
        }
        r
    }
}

} // verus!
