//! Sony PlayStation executables: a one sector header, then the text section that is loaded
use crate::structures::common::{pattern_at, read_u32, u32_at, Endianness};
use crate::text::matches_at;
use vstd::prelude::*;

verus! {

/// The header takes one sector
pub const PSX_HEADER_SIZE: usize = 0x800;

/// "PS-X EXE"
pub open spec fn psx_magic_bytes() -> Seq<u8> {
    seq![0x50u8, 0x53, 0x2D, 0x58, 0x20, 0x45, 0x58, 0x45]
}

/// The fields of the header: the initial program counter, where the text section is loaded and
/// how long it is
pub struct PSXHeader {
    pub header_size: usize,
    pub entry_point: u32,
    pub text_address: u32,
    pub text_size: usize,
}

/// The header at the start of `data`, where the data holds one
pub open spec fn psx_header(data: Seq<u8>) -> Option<PSXHeader> {
    if data.len() >= PSX_HEADER_SIZE && matches_at(data, psx_magic_bytes(), 0) {
        Some(
            PSXHeader {
                header_size: PSX_HEADER_SIZE,
                entry_point: u32_at(data, 0x10, Endianness::Little) as u32,
                text_address: u32_at(data, 0x18, Endianness::Little) as u32,
                text_size: u32_at(data, 0x1C, Endianness::Little) as usize,
            },
        )
    } else {
        None
    }
}

/// Parses the header at the start of `psx_data`
pub fn parse_psx_header(psx_data: &[u8]) -> (result: Result<PSXHeader, ()>)
    ensures
        result is Ok <==> psx_header(psx_data@) is Some,
        result matches Ok(header) ==> psx_header(psx_data@) == Some(header),
{
    let magic = vec![0x50u8, 0x53, 0x2D, 0x58, 0x20, 0x45, 0x58, 0x45];
    if psx_data.len() < PSX_HEADER_SIZE || !pattern_at(psx_data, magic.as_slice(), 0) {
        return Err(());
    }
    Ok(
        PSXHeader {
            header_size: PSX_HEADER_SIZE,
            entry_point: read_u32(psx_data, 0x10, Endianness::Little),
            text_address: read_u32(psx_data, 0x18, Endianness::Little),
            text_size: read_u32(psx_data, 0x1C, Endianness::Little) as usize,
        },
    )
}

} // verus!
