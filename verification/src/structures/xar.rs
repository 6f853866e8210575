//! XAR archive headers: the magic, the size of the header, the version of the format, the
//! lengths of the compressed table of contents, and the checksum algorithm, all big endian
use crate::structures::common::{
    pattern_at, read_u16, read_u32, read_u64_be, u16_at, u32_at, u64_be_at, Endianness,
};
use crate::text::matches_at;
use vstd::prelude::*;

verus! {

/// The fields before the optional name of the checksum algorithm
pub const XAR_HEADER_SIZE: usize = 28;

/// The only version of the format
pub const XAR_VERSION: u16 = 1;

/// "xar!"
pub open spec fn xar_magic_bytes() -> Seq<u8> {
    seq![0x78u8, 0x61, 0x72, 0x21]
}

/// The checksum algorithms, by number
pub open spec fn checksum_name(algorithm: nat) -> Option<Seq<char>> {
    if algorithm == 0 {
        Some("none"@)
    } else if algorithm == 1 {
        Some("sha1"@)
    } else if algorithm == 2 {
        Some("md5"@)
    } else if algorithm == 3 {
        Some("other"@)
    } else {
        None
    }
}

/// The fields of a XAR header
pub struct XARHeader {
    pub header_size: usize,
    pub version: u16,
    pub toc_compressed_size: usize,
    pub toc_uncompressed_size: u64,
    pub checksum_algorithm: u32,
}

/// The header at the start of `data`, where the data holds one: version 1, a header size that
/// covers the fields, a known checksum algorithm, and a header and compressed table of contents
/// whose length fits in a `usize`
pub open spec fn xar_header(data: Seq<u8>) -> Option<XARHeader> {
    if data.len() >= XAR_HEADER_SIZE && matches_at(data, xar_magic_bytes(), 0) {
        let header_size = u16_at(data, 4, Endianness::Big);
        let version = u16_at(data, 6, Endianness::Big);
        let toc_compressed_size = u64_be_at(data, 8);
        let algorithm = u32_at(data, 24, Endianness::Big);
        if version == XAR_VERSION && header_size >= XAR_HEADER_SIZE && header_size
            + toc_compressed_size <= usize::MAX && checksum_name(algorithm) is Some {
            Some(
                XARHeader {
                    header_size: header_size as usize,
                    version: version as u16,
                    toc_compressed_size: toc_compressed_size as usize,
                    toc_uncompressed_size: u64_be_at(data, 16) as u64,
                    checksum_algorithm: algorithm as u32,
                },
            )
        } else {
            None
        }
    } else {
        None
    }
}

/// Parses the header at the start of `xar_data`
pub fn parse_xar_header(xar_data: &[u8]) -> (result: Result<XARHeader, ()>)
    ensures
        result is Ok <==> xar_header(xar_data@) is Some,
        result matches Ok(header) ==> xar_header(xar_data@) == Some(header),
{
    let magic = vec![0x78u8, 0x61, 0x72, 0x21];
    if xar_data.len() < XAR_HEADER_SIZE || !pattern_at(xar_data, magic.as_slice(), 0) {
        return Err(());
    }
    let header_size = read_u16(xar_data, 4, Endianness::Big);
    let version = read_u16(xar_data, 6, Endianness::Big);
    let toc_compressed_size = read_u64_be(xar_data, 8);
    let toc_uncompressed_size = read_u64_be(xar_data, 16);
    let checksum_algorithm = read_u32(xar_data, 24, Endianness::Big);
    if version != XAR_VERSION || (header_size as usize) < XAR_HEADER_SIZE || checksum_algorithm > 3 {
        return Err(());
    }
    if toc_compressed_size > (usize::MAX - header_size as usize) as u64 {
        return Err(());
    }
    Ok(
        XARHeader {
            header_size: header_size as usize,
            version,
            toc_compressed_size: toc_compressed_size as usize,
            toc_uncompressed_size,
            checksum_algorithm,
        },
    )
}

/// The name of a checksum algorithm that a header holds
pub fn checksum_algorithm_name(algorithm: u32) -> (name: &'static str)
    requires
        checksum_name(algorithm as nat) is Some,
    ensures
        Some(name@) == checksum_name(algorithm as nat),
{
    if algorithm == 0 {
        "none"
    } else if algorithm == 1 {
        "sha1"
    } else if algorithm == 2 {
        "md5"
    } else {
        "other"
    }
}

} // verus!
