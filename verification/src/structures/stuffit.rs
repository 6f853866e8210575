//! Classic StuffIt archive headers: the magic, the number of files, the length of the whole
//! archive, and a second signature, "rLau", all big endian
use crate::structures::common::{read_u16, read_u32, u16_at, u32_at, Endianness};
use vstd::prelude::*;

verus! {

/// The magic, the file count, the archive length and the second signature
pub const STUFFIT_HEADER_SIZE: usize = 14;

/// The fields of a classic archive header
pub struct StuffItHeader {
    pub file_count: u16,
    pub total_size: usize,
}

/// The header at the start of `data`, where the data holds one: "SIT!" or "SITD", then the file
/// count, the archive length, and "rLau"
pub open spec fn stuffit_header(data: Seq<u8>) -> Option<StuffItHeader> {
    if data.len() >= STUFFIT_HEADER_SIZE && data[0] == 0x53 && data[1] == 0x49 && data[2] == 0x54
        && (data[3] == 0x21 || data[3] == 0x44) && data[10] == 0x72 && data[11] == 0x4C && data[12]
        == 0x61 && data[13] == 0x75 {
        Some(
            StuffItHeader {
                file_count: u16_at(data, 4, Endianness::Big) as u16,
                total_size: u32_at(data, 6, Endianness::Big) as usize,
            },
        )
    } else {
        None
    }
}

/// Parses the header at the start of `stuffit_data`
pub fn parse_stuffit_header(stuffit_data: &[u8]) -> (result: Result<StuffItHeader, ()>)
    ensures
        result is Ok <==> stuffit_header(stuffit_data@) is Some,
        result matches Ok(header) ==> stuffit_header(stuffit_data@) == Some(header),
{
    if stuffit_data.len() < STUFFIT_HEADER_SIZE || stuffit_data[0] != 0x53 || stuffit_data[1]
        != 0x49 || stuffit_data[2] != 0x54 || (stuffit_data[3] != 0x21 && stuffit_data[3] != 0x44)
        || stuffit_data[10] != 0x72 || stuffit_data[11] != 0x4C || stuffit_data[12] != 0x61
        || stuffit_data[13] != 0x75 {
        return Err(());
    }
    Ok(
        StuffItHeader {
            file_count: read_u16(stuffit_data, 4, Endianness::Big),
            total_size: read_u32(stuffit_data, 6, Endianness::Big) as usize,
        },
    )
}

} // verus!
