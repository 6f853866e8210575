//! InstallShield cabinet headers: the magic, the version of the cabinet, and where the cabinet
//! descriptor lies and how long it is
use crate::structures::common::{pattern_at, read_u32, u32_at, Endianness};
use crate::text::matches_at;
use vstd::prelude::*;

verus! {

/// The magic and four 32 bit little endian fields
pub const INSTALLSHIELD_HEADER_SIZE: usize = 20;

/// "ISc("
pub open spec fn installshield_magic_bytes() -> Seq<u8> {
    seq![0x49u8, 0x53, 0x63, 0x28]
}

/// The fields of a cabinet header
pub struct InstallShieldHeader {
    pub version: u32,
    pub descriptor_offset: usize,
    pub descriptor_size: usize,
}

/// The header at the start of `data`, where the data holds one
pub open spec fn installshield_header(data: Seq<u8>) -> Option<InstallShieldHeader> {
    if data.len() >= INSTALLSHIELD_HEADER_SIZE && matches_at(data, installshield_magic_bytes(), 0) {
        Some(
            InstallShieldHeader {
                version: u32_at(data, 4, Endianness::Little) as u32,
                descriptor_offset: u32_at(data, 12, Endianness::Little) as usize,
                descriptor_size: u32_at(data, 16, Endianness::Little) as usize,
            },
        )
    } else {
        None
    }
}

/// Parses the header at the start of `cabinet_data`
pub fn parse_installshield_header(cabinet_data: &[u8]) -> (result: Result<
    InstallShieldHeader,
    (),
>)
    ensures
        result is Ok <==> installshield_header(cabinet_data@) is Some,
        result matches Ok(header) ==> installshield_header(cabinet_data@) == Some(header),
{
    let magic = vec![0x49u8, 0x53, 0x63, 0x28];
    if cabinet_data.len() < INSTALLSHIELD_HEADER_SIZE || !pattern_at(
        cabinet_data,
        magic.as_slice(),
        0,
    ) {
        return Err(());
    }
    Ok(
        InstallShieldHeader {
            version: read_u32(cabinet_data, 4, Endianness::Little),
            descriptor_offset: read_u32(cabinet_data, 12, Endianness::Little) as usize,
            descriptor_size: read_u32(cabinet_data, 16, Endianness::Little) as usize,
        },
    )
}

} // verus!
