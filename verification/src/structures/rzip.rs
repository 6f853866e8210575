//! rzip file headers: the magic, the version of the format and the size of the data before it
//! was compressed
use crate::structures::common::{pattern_at, read_u32, u32_at, Endianness};
use crate::text::matches_at;
use vstd::prelude::*;

verus! {

/// The magic, two version bytes and a 32 bit big endian size
pub const RZIP_HEADER_SIZE: usize = 10;

/// "RZIP"
pub open spec fn rzip_magic_bytes() -> Seq<u8> {
    seq![0x52u8, 0x5A, 0x49, 0x50]
}

/// The fields of an rzip header
pub struct RzipHeader {
    pub major_version: u8,
    pub minor_version: u8,
    pub uncompressed_size: u32,
}

/// The header at the start of `data`, where the data holds one
pub open spec fn rzip_header(data: Seq<u8>) -> Option<RzipHeader> {
    if data.len() >= RZIP_HEADER_SIZE && matches_at(data, rzip_magic_bytes(), 0) {
        Some(
            RzipHeader {
                major_version: data[4],
                minor_version: data[5],
                uncompressed_size: u32_at(data, 6, Endianness::Big) as u32,
            },
        )
    } else {
        None
    }
}

/// Parses the header at the start of `rzip_data`
pub fn parse_rzip_header(rzip_data: &[u8]) -> (result: Result<RzipHeader, ()>)
    ensures
        result is Ok <==> rzip_header(rzip_data@) is Some,
        result matches Ok(header) ==> rzip_header(rzip_data@) == Some(header),
{
    let magic = vec![0x52u8, 0x5A, 0x49, 0x50];
    if rzip_data.len() < RZIP_HEADER_SIZE || !pattern_at(rzip_data, magic.as_slice(), 0) {
        return Err(());
    }
    Ok(
        RzipHeader {
            major_version: rzip_data[4],
            minor_version: rzip_data[5],
            uncompressed_size: read_u32(rzip_data, 6, Endianness::Big),
        },
    )
}

} // verus!
