//! The `MThd` header chunk: a fixed 14-byte descriptor of the file.

use vstd::prelude::*;

use crate::chunktype::spec_chunk_type_bytes;
use crate::chunktype::ChunkType;
use crate::error::MidiError;
use crate::track::spec_u32_be;

verus! {

/// The SMF format field: single track, multiple track, or multiple song.
#[derive(Debug, Clone, Copy, PartialEq, Eq, Structural)]
pub enum MidiFormat {
    SingleTrack,
    MultipleTrack,
    MultipleSong,
}

/// The 16-bit code of each format, 0..=2.
pub open spec fn spec_format_code(f: MidiFormat) -> u16 {
    match f {
        MidiFormat::SingleTrack => 0,
        MidiFormat::MultipleTrack => 1,
        MidiFormat::MultipleSong => 2,
    }
}

/// The format a 16-bit code names, or the error for a code above 2.
pub open spec fn spec_format_try_from(value: u16) -> Result<MidiFormat, MidiError> {
    if value == 0 {
        Ok(MidiFormat::SingleTrack)
    } else if value == 1 {
        Ok(MidiFormat::MultipleTrack)
    } else if value == 2 {
        Ok(MidiFormat::MultipleSong)
    } else {
        Err(MidiError::InvalidFormat)
    }
}

impl MidiFormat {
    /// The 16-bit code of this format, 0..=2.
    pub fn code(&self) -> (r: u16)
        ensures
            r == spec_format_code(*self),
    {
        match self {
            MidiFormat::SingleTrack => 0,
            MidiFormat::MultipleTrack => 1,
            MidiFormat::MultipleSong => 2,
        }
    }

    /// Decodes a format code: succeeds exactly on 0, 1 and 2.
    pub fn try_from(value: u16) -> (r: Result<Self, MidiError>)
        ensures
            r == spec_format_try_from(value),
            r is Ok <==> value <= 2,
            r is Ok ==> spec_format_code(r->Ok_0) == value,
    {
        match value {
            0 => Ok(MidiFormat::SingleTrack),
            1 => Ok(MidiFormat::MultipleTrack),
            2 => Ok(MidiFormat::MultipleSong),
            _ => Err(MidiError::InvalidFormat),
        }
    }
}

/// The big-endian bytes of a 16-bit field.
pub open spec fn spec_u16_be(v: u16) -> Seq<u8> {
    seq![((v / 256) % 256) as u8, (v % 256) as u8]
}

/// The unsigned 16-bit reinterpretation of a signed division field, in
/// two's complement.
pub open spec fn spec_i16_to_u16(v: i16) -> u16 {
    if v >= 0 {
        v as u16
    } else {
        (v + 0x1_0000) as u16
    }
}

/// The signed 16-bit value read from two big-endian bytes, in two's
/// complement.
pub open spec fn spec_i16_from_be(hi: u8, lo: u8) -> i16 {
    if hi * 256 + lo < 0x8000 {
        (hi * 256 + lo) as i16
    } else {
        (hi * 256 + lo - 0x1_0000) as i16
    }
}

/// The `MThd` chunk descriptor: format, track count, and division. The
/// division is ticks-per-quarter-note when positive; when negative it is an
/// SMPTE division, stored raw and not interpreted.
#[derive(Debug, Clone, Copy, PartialEq, Eq, Structural)]
pub struct Header {
    pub chunk_type: ChunkType,
    pub length: u32,
    pub format: MidiFormat,
    pub track_count: u16,
    pub division: i16,
}

/// The 14 bytes of a header chunk: the chunk-type bytes, the big-endian
/// length, then format, track count and division, each big-endian.
pub open spec fn spec_header_bytes(h: Header) -> Seq<u8> {
    spec_chunk_type_bytes(h.chunk_type) + spec_u32_be(h.length) + spec_u16_be(
        spec_format_code(h.format),
    ) + spec_u16_be(h.track_count) + spec_u16_be(spec_i16_to_u16(h.division))
}

/// The header parsed from at least 14 leading bytes, or `InvalidHeaderByte`
/// for short input, wrong magic, a length field other than 6, or a format
/// outside {0, 1, 2}.
pub open spec fn spec_header_decode(bytes: Seq<u8>) -> Result<Header, MidiError> {
    if bytes.len() < 14 {
        Err(MidiError::InvalidHeaderByte)
    } else if bytes.subrange(0, 4) != spec_chunk_type_bytes(ChunkType::Header) {
        Err(MidiError::InvalidHeaderByte)
    } else if bytes[4] * 0x100_0000 + bytes[5] * 0x1_0000 + bytes[6] * 256 + bytes[7] != 6 {
        Err(MidiError::InvalidHeaderByte)
    } else {
        match spec_format_try_from((bytes[8] * 256 + bytes[9]) as u16) {
            Err(_) => Err(MidiError::InvalidHeaderByte),
            Ok(format) => Ok(
                Header {
                    chunk_type: ChunkType::Header,
                    length: 6,
                    format,
                    track_count: (bytes[10] * 256 + bytes[11]) as u16,
                    division: spec_i16_from_be(bytes[12], bytes[13]),
                },
            ),
        }
    }
}

impl Header {
    /// The fixed length field of every header chunk.
    pub const FIXED_HEADER_LENGTH: u32 = 6;

    /// Whether this header is well formed: a header chunk with the fixed
    /// length 6.
    pub open spec fn wf(self) -> bool {
        self.chunk_type == ChunkType::Header && self.length == 6
    }

    /// Builds a header. The format is already typed, so construction always
    /// succeeds.
    pub fn new(format: MidiFormat, track_count: u16, division: i16) -> (r: Result<
        Self,
        MidiError,
    >)
        ensures
            r == Ok::<Header, MidiError>(
                Header {
                    chunk_type: ChunkType::Header,
                    length: 6,
                    format,
                    track_count,
                    division,
                },
            ),
    {
        Ok(
            Self {
                chunk_type: ChunkType::Header,
                length: Header::FIXED_HEADER_LENGTH,
                format,
                track_count,
                division,
            },
        )
    }

    /// Emits the 14 header bytes, big-endian throughout.
    pub fn to_bytes(&self) -> (r: Vec<u8>)
        ensures
            r@ == spec_header_bytes(*self),
    {
        let mut bytes: Vec<u8> = Vec::new();
        let magic = self.chunk_type.as_bytes();
        bytes.push(magic[0]);
        bytes.push(magic[1]);
        bytes.push(magic[2]);
        bytes.push(magic[3]);
        let l = self.length;
        bytes.push(((l / 0x100_0000) % 256) as u8);
        bytes.push(((l / 0x1_0000) % 256) as u8);
        bytes.push(((l / 256) % 256) as u8);
        bytes.push((l % 256) as u8);
        let f = self.format.code();
        bytes.push((f / 256) as u8);
        bytes.push((f % 256) as u8);
        let t = self.track_count;
        bytes.push((t / 256) as u8);
        bytes.push((t % 256) as u8);
        let d: u16 = if self.division >= 0 {
            self.division as u16
        } else {
            ((self.division as i32) + 0x1_0000) as u16
        };
        bytes.push((d / 256) as u8);
        bytes.push((d % 256) as u8);
        proof {
            assert(bytes@ =~= spec_header_bytes(*self));
        }
        bytes
    }

    /// Parses a header from at least 14 leading bytes: the magic, the fixed
    /// length 6, then format, track count and division.
    pub fn from_bytes(bytes: &[u8]) -> (r: Result<Self, MidiError>)
        ensures
            r == spec_header_decode(bytes@),
            r matches Ok(h) ==> h.wf(),
    {
        if bytes.len() < 14 {
            return Err(MidiError::InvalidHeaderByte);
        }

        let magic_ok = bytes[0] == 0x4D && bytes[1] == 0x54 && bytes[2] == 0x68 && bytes[3]
            == 0x64;
        proof {
            let m = bytes@.subrange(0, 4);
            assert(m.len() == 4 && m[0] == bytes@[0] && m[1] == bytes@[1] && m[2] == bytes@[2]
                && m[3] == bytes@[3]);
            if magic_ok {
                assert(m =~= spec_chunk_type_bytes(ChunkType::Header));
            }
        }
        if !magic_ok {
            return Err(MidiError::InvalidHeaderByte);
        }

        let length: u32 = (bytes[4] as u32) * 0x100_0000 + (bytes[5] as u32) * 0x1_0000 + (
        bytes[6] as u32) * 256 + (bytes[7] as u32);
        if length != 6 {
            return Err(MidiError::InvalidHeaderByte);
        }

        let format_val: u16 = (bytes[8] as u16) * 256 + (bytes[9] as u16);
        let format = match MidiFormat::try_from(format_val) {
            Ok(f) => f,
            Err(_) => { return Err(MidiError::InvalidHeaderByte) },
        };

        let track_count: u16 = (bytes[10] as u16) * 256 + (bytes[11] as u16);
        let du: u16 = (bytes[12] as u16) * 256 + (bytes[13] as u16);
        let division: i16 = if du < 0x8000 {
            du as i16
        } else {
            ((du as i32) - 0x1_0000) as i16
        };

        Ok(Self { chunk_type: ChunkType::Header, length, format, track_count, division })
    }
}

/// Parsing inverts emission: every well-formed header is reconstructed from
/// its own 14 bytes.
pub proof fn lemma_header_round_trip(h: Header)
    requires
        h.wf(),
    ensures
        spec_header_decode(spec_header_bytes(h)) == Ok::<Header, MidiError>(h),
{
    let bytes = spec_header_bytes(h);
    assert(bytes.len() == 14);
    assert(bytes.subrange(0, 4) =~= spec_chunk_type_bytes(ChunkType::Header));
    assert(bytes[4] == 0 && bytes[5] == 0 && bytes[6] == 0 && bytes[7] == 6);

    let f = spec_format_code(h.format);
    assert(bytes[8] == (f / 256) % 256 && bytes[9] == f % 256);
    assert(bytes[8] * 256 + bytes[9] == f);
    match h.format {
        MidiFormat::SingleTrack => {},
        MidiFormat::MultipleTrack => {},
        MidiFormat::MultipleSong => {},
    }

    let t = h.track_count;
    assert(bytes[10] * 256 + bytes[11] == t);

    let d = spec_i16_to_u16(h.division);
    assert(bytes[12] * 256 + bytes[13] == d);
    assert(spec_i16_from_be(bytes[12], bytes[13]) == h.division);
}

} // verus!
