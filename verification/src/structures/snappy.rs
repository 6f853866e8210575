//! Chunks of a Snappy framed stream: a type byte, then the length of the chunk data as a 24 bit
//! little endian integer
use crate::structures::common::{read_u24_le, u24_le_at};
use vstd::prelude::*;

verus! {

/// Every chunk starts with a four byte header
pub const CHUNK_HEADER_SIZE: usize = 4;

/// The chunk that identifies a stream
pub const STREAM_IDENTIFIER: u8 = 0xFF;

/// The stream identifier's data is "sNaPpY"
pub const STREAM_IDENTIFIER_SIZE: usize = 6;

/// Compressed and uncompressed data chunks start with a four byte checksum
pub const CHECKSUM_SIZE: usize = 4;

/// The header of a chunk
pub struct SnappyChunk {
    pub chunk_type: u8,
    pub header_size: usize,
    pub data_size: usize,
}

/// Whether a chunk of this type may have this much data: the stream identifier has exactly its
/// six bytes, data chunks (types 0 and 1) at least their checksum, types 2 to 0x7F are reserved
/// and may not be skipped, and the other types (skippable and padding) may hold anything
pub open spec fn chunk_allowed(chunk_type: u8, data_size: nat) -> bool {
    if chunk_type == STREAM_IDENTIFIER {
        data_size == STREAM_IDENTIFIER_SIZE
    } else if chunk_type <= 1 {
        data_size >= CHECKSUM_SIZE
    } else {
        chunk_type >= 0x80
    }
}

/// The size, header included, of the chunk that starts at `pos`, where one does
pub open spec fn chunk_size_at(data: Seq<u8>, pos: int) -> Option<nat> {
    if 0 <= pos && pos + CHUNK_HEADER_SIZE <= data.len() && chunk_allowed(
        data[pos],
        u24_le_at(data, pos + 1),
    ) {
        Some(CHUNK_HEADER_SIZE as nat + u24_le_at(data, pos + 1))
    } else {
        None
    }
}

/// Parses the chunk header at the start of `chunk_data`
pub fn parse_snappy_chunk(chunk_data: &[u8]) -> (result: Result<SnappyChunk, ()>)
    ensures
        result is Ok <==> chunk_size_at(chunk_data@, 0) is Some,
        result matches Ok(chunk) ==> {
            &&& chunk.chunk_type == chunk_data@[0]
            &&& chunk.header_size == CHUNK_HEADER_SIZE
            &&& chunk.data_size == u24_le_at(chunk_data@, 1)
        },
{
    if chunk_data.len() < CHUNK_HEADER_SIZE {
        return Err(());
    }
    let chunk_type = chunk_data[0];
    let data_size = read_u24_le(chunk_data, 1) as usize;
    let allowed = if chunk_type == STREAM_IDENTIFIER {
        data_size == STREAM_IDENTIFIER_SIZE
    } else if chunk_type <= 1 {
        data_size >= CHECKSUM_SIZE
    } else {
        chunk_type >= 0x80
    };
    if allowed {
        Ok(SnappyChunk { chunk_type, header_size: CHUNK_HEADER_SIZE, data_size })
    } else {
        Err(())
    }
}

} // verus!
