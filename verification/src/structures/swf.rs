//! Adobe Flash SWF headers: a signature that says how the body is compressed, the version of the
//! format and the length of the whole file once decompressed
use crate::structures::common::{read_u32, u32_at, Endianness};
use vstd::prelude::*;

verus! {

/// The signature, the version and the file length
pub const SWF_HEADER_SIZE: usize = 8;

/// How the body of the file is compressed: "FWS" files are not, "CWS" files with zlib, "ZWS"
/// files with LZMA
#[derive(Debug, Clone, Copy, PartialEq, Eq)]
pub enum SWFCompression {
    Uncompressed,
    Zlib,
    Lzma,
}

/// How the compression is named in descriptions
pub open spec fn compression_name(compression: SWFCompression) -> Seq<char> {
    match compression {
        SWFCompression::Uncompressed => "uncompressed"@,
        SWFCompression::Zlib => "zlib"@,
        SWFCompression::Lzma => "lzma"@,
    }
}

impl SWFCompression {
    /// The name of the compression
    pub fn name(&self) -> (name: &'static str)
        ensures
            name@ == compression_name(*self),
    {
        match self {
            SWFCompression::Uncompressed => "uncompressed",
            SWFCompression::Zlib => "zlib",
            SWFCompression::Lzma => "lzma",
        }
    }
}

/// The fields of an SWF header
pub struct SWFHeader {
    pub compression: SWFCompression,
    pub version: u8,
    pub file_size: usize,
}

/// The compression that the first byte of the signature names
pub open spec fn compression_of(first: u8) -> Option<SWFCompression> {
    if first == 0x46 {
        Some(SWFCompression::Uncompressed)
    } else if first == 0x43 {
        Some(SWFCompression::Zlib)
    } else if first == 0x5A {
        Some(SWFCompression::Lzma)
    } else {
        None
    }
}

/// The header at the start of `data`, where the data holds one: "FWS", "CWS" or "ZWS", the
/// version, and the file length as a 32 bit little endian integer
pub open spec fn swf_header(data: Seq<u8>) -> Option<SWFHeader> {
    if data.len() >= SWF_HEADER_SIZE && data[1] == 0x57 && data[2] == 0x53 {
        match compression_of(data[0]) {
            Some(compression) => Some(
                SWFHeader {
                    compression,
                    version: data[3],
                    file_size: u32_at(data, 4, Endianness::Little) as usize,
                },
            ),
            None => None,
        }
    } else {
        None
    }
}

/// Parses the header at the start of `swf_data`
pub fn parse_swf_header(swf_data: &[u8]) -> (result: Result<SWFHeader, ()>)
    ensures
        result is Ok <==> swf_header(swf_data@) is Some,
        result matches Ok(header) ==> swf_header(swf_data@) == Some(header),
{
    if swf_data.len() < SWF_HEADER_SIZE || swf_data[1] != 0x57 || swf_data[2] != 0x53 {
        return Err(());
    }
    let compression = if swf_data[0] == 0x46 {
        SWFCompression::Uncompressed
    } else if swf_data[0] == 0x43 {
        SWFCompression::Zlib
    } else if swf_data[0] == 0x5A {
        SWFCompression::Lzma
    } else {
        return Err(());
    };
    Ok(
        SWFHeader {
            compression,
            version: swf_data[3],
            file_size: read_u32(swf_data, 4, Endianness::Little) as usize,
        },
    )
}

} // verus!
