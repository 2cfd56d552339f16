//! The four-byte ASCII identifiers of SMF chunks.

use vstd::prelude::*;

verus! {

/// The chunk kind: the `MThd` header chunk or an `MTrk` track chunk.
#[derive(Debug, Clone, Copy, PartialEq, Eq, Structural)]
pub enum ChunkType {
    Header,
    Track,
}

/// The four ASCII bytes that open a chunk of the given kind:
/// `MThd` for the header, `MTrk` for a track.
pub open spec fn spec_chunk_type_bytes(c: ChunkType) -> Seq<u8> {
    match c {
        ChunkType::Header => seq![0x4Du8, 0x54u8, 0x68u8, 0x64u8],
        ChunkType::Track => seq![0x4Du8, 0x54u8, 0x72u8, 0x6Bu8],
    }
}

impl ChunkType {
    /// The four ASCII bytes of this chunk kind.
    pub fn as_bytes(&self) -> (r: [u8; 4])
        ensures
            r@ == spec_chunk_type_bytes(*self),
    {
        let r: [u8; 4] = match self {
            ChunkType::Header => [0x4D, 0x54, 0x68, 0x64],
            ChunkType::Track => [0x4D, 0x54, 0x72, 0x6B],
        };
        proof {
            assert(r@ =~= spec_chunk_type_bytes(*self));
        }
        r
    }
}

} // verus!
