//! TIFF headers: a byte order mark, the version 42, and the offset of the first image file
//! directory, which starts with the number of its entries
use crate::structures::common::{read_u16, read_u32, u16_at, u32_at, Endianness};
use vstd::prelude::*;

verus! {

/// The byte order mark, the version and the offset of the first directory
pub const TIFF_HEADER_SIZE: usize = 8;

/// The fields of a TIFF header, with the entry count of the first directory
pub struct TIFFHeader {
    pub endianness: Endianness,
    pub directory_offset: usize,
    pub entry_count: u16,
}

/// The byte order that the first four bytes announce: "II" and 42 little endian, or "MM" and 42
/// big endian
pub open spec fn tiff_byte_order(data: Seq<u8>) -> Option<Endianness> {
    if data[0] == 0x49 && data[1] == 0x49 && data[2] == 0x2A && data[3] == 0 {
        Some(Endianness::Little)
    } else if data[0] == 0x4D && data[1] == 0x4D && data[2] == 0 && data[3] == 0x2A {
        Some(Endianness::Big)
    } else {
        None
    }
}

/// The header at the start of `data`, where the data holds one: the first directory lies after
/// the header and inside the data, and has at least one entry
pub open spec fn tiff_header(data: Seq<u8>) -> Option<TIFFHeader> {
    if data.len() >= TIFF_HEADER_SIZE {
        match tiff_byte_order(data) {
            Some(endianness) => {
                let directory = u32_at(data, 4, endianness);
                if TIFF_HEADER_SIZE <= directory && directory + 2 <= data.len() && u16_at(
                    data,
                    directory as int,
                    endianness,
                ) > 0 {
                    Some(
                        TIFFHeader {
                            endianness,
                            directory_offset: directory as usize,
                            entry_count: u16_at(data, directory as int, endianness) as u16,
                        },
                    )
                } else {
                    None
                }
            },
            None => None,
        }
    } else {
        None
    }
}

/// Parses the header at the start of `tiff_data`
pub fn parse_tiff_header(tiff_data: &[u8]) -> (result: Result<TIFFHeader, ()>)
    ensures
        result is Ok <==> tiff_header(tiff_data@) is Some,
        result matches Ok(header) ==> tiff_header(tiff_data@) == Some(header),
{
    if tiff_data.len() < TIFF_HEADER_SIZE {
        return Err(());
    }
    let endianness = if tiff_data[0] == 0x49 && tiff_data[1] == 0x49 && tiff_data[2] == 0x2A
        && tiff_data[3] == 0 {
        Endianness::Little
    } else if tiff_data[0] == 0x4D && tiff_data[1] == 0x4D && tiff_data[2] == 0 && tiff_data[3]
        == 0x2A {
        Endianness::Big
    } else {
        return Err(());
    };
    let directory_offset = read_u32(tiff_data, 4, endianness) as usize;
    if directory_offset < TIFF_HEADER_SIZE || directory_offset > tiff_data.len() || 2
        > tiff_data.len() - directory_offset {
        return Err(());
    }
    let entry_count = read_u16(tiff_data, directory_offset, endianness);
    if entry_count == 0 {
        return Err(());
    }
    Ok(TIFFHeader { endianness, directory_offset, entry_count })
}

} // verus!
