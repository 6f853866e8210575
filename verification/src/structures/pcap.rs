//! Libpcap capture files: a file header, then packet records, each a record header and the bytes
//! that were captured of the packet
use crate::structures::common::{read_u16, read_u32, u16_at, u32_at, Endianness};
use vstd::prelude::*;

verus! {

/// The file header is twenty four bytes long
pub const LIBPCAP_HEADER_SIZE: usize = 24;

/// Each packet record starts with a sixteen byte header
pub const LIBPCAP_RECORD_HEADER_SIZE: usize = 16;

/// The only major version of the format, and the last minor version of it
pub const LIBPCAP_MAJOR_VERSION: u16 = 2;

pub const LIBPCAP_MAX_MINOR_VERSION: u16 = 4;

/// How finely the packet timestamps are given
#[derive(Debug, Clone, Copy, PartialEq, Eq)]
pub enum TimestampResolution {
    Microsecond,
    Nanosecond,
}

/// How the resolution is named in descriptions
pub open spec fn resolution_name(resolution: TimestampResolution) -> Seq<char> {
    match resolution {
        TimestampResolution::Microsecond => "microsecond"@,
        TimestampResolution::Nanosecond => "nanosecond"@,
    }
}

impl TimestampResolution {
    /// The name of the resolution, "microsecond" or "nanosecond"
    pub fn name(&self) -> (name: &'static str)
        ensures
            name@ == resolution_name(*self),
    {
        match self {
            TimestampResolution::Microsecond => "microsecond",
            TimestampResolution::Nanosecond => "nanosecond",
        }
    }
}

/// The fields of a libpcap file header
pub struct LibpcapHeader {
    pub header_size: usize,
    pub endianness: Endianness,
    pub major_version: u16,
    pub minor_version: u16,
    pub timestamp_resolution: TimestampResolution,
    pub link_type: u32,
    pub snap_length: usize,
}

/// What the magic number in the first four bytes says: the byte order of the file, and the
/// resolution of its timestamps. 0xA1B2C3D4 marks microseconds, 0xA1B23C4D nanoseconds.
pub open spec fn magic_kind(data: Seq<u8>) -> Option<(Endianness, TimestampResolution)> {
    if data[0] == 0xA1 && data[1] == 0xB2 && data[2] == 0xC3 && data[3] == 0xD4 {
        Some((Endianness::Big, TimestampResolution::Microsecond))
    } else if data[0] == 0xD4 && data[1] == 0xC3 && data[2] == 0xB2 && data[3] == 0xA1 {
        Some((Endianness::Little, TimestampResolution::Microsecond))
    } else if data[0] == 0xA1 && data[1] == 0xB2 && data[2] == 0x3C && data[3] == 0x4D {
        Some((Endianness::Big, TimestampResolution::Nanosecond))
    } else if data[0] == 0x4D && data[1] == 0x3C && data[2] == 0xB2 && data[3] == 0xA1 {
        Some((Endianness::Little, TimestampResolution::Nanosecond))
    } else {
        None
    }
}

/// The file header at the start of `data`, where there is one: a known magic number and
/// version 2.0 to 2.4 of the format
pub open spec fn libpcap_header(data: Seq<u8>) -> Option<LibpcapHeader> {
    if data.len() < LIBPCAP_HEADER_SIZE {
        None
    } else {
        match magic_kind(data) {
            None => None,
            Some((endianness, resolution)) => {
                let major = u16_at(data, 4, endianness);
                let minor = u16_at(data, 6, endianness);
                if major == LIBPCAP_MAJOR_VERSION && minor <= LIBPCAP_MAX_MINOR_VERSION {
                    Some(
                        LibpcapHeader {
                            header_size: LIBPCAP_HEADER_SIZE,
                            endianness,
                            major_version: major as u16,
                            minor_version: minor as u16,
                            timestamp_resolution: resolution,
                            link_type: u32_at(data, 20, endianness) as u32,
                            snap_length: u32_at(data, 16, endianness) as usize,
                        },
                    )
                } else {
                    None
                }
            },
        }
    }
}

/// The byte order of an accepted capture is the one in which its first four bytes read as the
/// magic number 0xA1B2C3D4, for microsecond timestamps, or 0xA1B23C4D, for nanosecond ones; its
/// version, snap length and link type are read in that byte order
pub proof fn lemma_libpcap_byte_order(data: Seq<u8>)
    requires
        libpcap_header(data) is Some,
    ensures
        ({
            let header = libpcap_header(data)->0;
            let magic = u32_at(data, 0, header.endianness);
            &&& magic == 0xA1B2C3D4 || magic == 0xA1B23C4D
            &&& header.timestamp_resolution == TimestampResolution::Nanosecond <==> magic
                == 0xA1B23C4D
            &&& header.major_version == 2
            &&& header.minor_version == u16_at(data, 6, header.endianness)
            &&& header.minor_version <= 4
            &&& header.snap_length == u32_at(data, 16, header.endianness)
            &&& header.link_type == u32_at(data, 20, header.endianness)
        }),
{
}

/// Every capture whose magic number reads 0xA1B2C3D4 or 0xA1B23C4D in some byte order, and whose
/// version read in that byte order is 2.0 to 2.4, is accepted, in that byte order
pub proof fn lemma_libpcap_header_accepted(data: Seq<u8>, endianness: Endianness)
    requires
        data.len() >= LIBPCAP_HEADER_SIZE,
        u32_at(data, 0, endianness) == 0xA1B2C3D4 || u32_at(data, 0, endianness) == 0xA1B23C4D,
        u16_at(data, 4, endianness) == 2,
        u16_at(data, 6, endianness) <= 4,
    ensures
        libpcap_header(data) matches Some(header) && header.endianness == endianness
            && (header.timestamp_resolution == TimestampResolution::Nanosecond <==> u32_at(
            data,
            0,
            endianness,
        ) == 0xA1B23C4D),
{
    let (b0, b1, b2, b3) = (data[0], data[1], data[2], data[3]);
    match endianness {
        Endianness::Little => {
            lemma_bytes_of_number(b0, b1, b2, b3, u32_at(data, 0, endianness));
        },
        Endianness::Big => {
            lemma_bytes_of_number(b3, b2, b1, b0, u32_at(data, 0, endianness));
        },
    }
}

/// The four bytes of a 32 bit number, least significant first, are its base 256 digits
proof fn lemma_bytes_of_number(b0: u8, b1: u8, b2: u8, b3: u8, n: nat)
    requires
        b0 + b1 * 0x100 + b2 * 0x10000 + b3 * 0x1000000 == n,
    ensures
        b0 == n % 0x100,
        b1 == (n / 0x100) % 0x100,
        b2 == (n / 0x10000) % 0x100,
        b3 == n / 0x1000000,
{
    assert(b0 == n % 0x100 && b1 == (n / 0x100) % 0x100 && b2 == (n / 0x10000) % 0x100 && b3 == n
        / 0x1000000) by (nonlinear_arith)
        requires
            b0 + b1 * 0x100 + b2 * 0x10000 + b3 * 0x1000000 == n,
            b0 < 0x100,
            b1 < 0x100,
            b2 < 0x100,
            b3 < 0x100,
    ;
}

/// Parses the file header at the start of `pcap_data`
pub fn parse_libpcap_header(pcap_data: &[u8]) -> (result: Result<LibpcapHeader, ()>)
    ensures
        result is Ok <==> libpcap_header(pcap_data@) is Some,
        result matches Ok(header) ==> libpcap_header(pcap_data@) == Some(header),
{
    if pcap_data.len() < LIBPCAP_HEADER_SIZE {
        return Err(());
    }
    let (endianness, timestamp_resolution) = if pcap_data[0] == 0xA1 && pcap_data[1] == 0xB2
        && pcap_data[2] == 0xC3 && pcap_data[3] == 0xD4 {
        (Endianness::Big, TimestampResolution::Microsecond)
    } else if pcap_data[0] == 0xD4 && pcap_data[1] == 0xC3 && pcap_data[2] == 0xB2 && pcap_data[3]
        == 0xA1 {
        (Endianness::Little, TimestampResolution::Microsecond)
    } else if pcap_data[0] == 0xA1 && pcap_data[1] == 0xB2 && pcap_data[2] == 0x3C && pcap_data[3]
        == 0x4D {
        (Endianness::Big, TimestampResolution::Nanosecond)
    } else if pcap_data[0] == 0x4D && pcap_data[1] == 0x3C && pcap_data[2] == 0xB2 && pcap_data[3]
        == 0xA1 {
        (Endianness::Little, TimestampResolution::Nanosecond)
    } else {
        return Err(());
    };
    let major_version = read_u16(pcap_data, 4, endianness);
    let minor_version = read_u16(pcap_data, 6, endianness);
    if major_version != LIBPCAP_MAJOR_VERSION || minor_version > LIBPCAP_MAX_MINOR_VERSION {
        return Err(());
    }
    let snap_length = read_u32(pcap_data, 16, endianness) as usize;
    let link_type = read_u32(pcap_data, 20, endianness);
    Ok(
        LibpcapHeader {
            header_size: LIBPCAP_HEADER_SIZE,
            endianness,
            major_version,
            minor_version,
            timestamp_resolution,
            link_type,
            snap_length,
        },
    )
}

/// The header of a packet record
pub struct LibpcapRecord {
    pub header_size: usize,
    pub data_size: usize,
}

/// The size, header included, of the packet record that starts at `pos`, where one does: the
/// bytes captured of the packet (at offset 8) are no more than the snap length allows and no more
/// than the packet had (at offset 12)
pub open spec fn record_size_at(
    data: Seq<u8>,
    pos: int,
    endianness: Endianness,
    snap_length: int,
) -> Option<nat> {
    if 0 <= pos && pos + LIBPCAP_RECORD_HEADER_SIZE <= data.len() && u32_at(
        data,
        pos + 8,
        endianness,
    ) <= snap_length && u32_at(data, pos + 8, endianness) <= u32_at(data, pos + 12, endianness) {
        Some(LIBPCAP_RECORD_HEADER_SIZE as nat + u32_at(data, pos + 8, endianness))
    } else {
        None
    }
}

/// Parses the packet record header at the start of `record_data`
pub fn parse_libpcap_record(
    record_data: &[u8],
    endianness: Endianness,
    snap_length: usize,
) -> (result: Result<LibpcapRecord, ()>)
    ensures
        result is Ok <==> record_size_at(record_data@, 0, endianness, snap_length as int) is Some,
        result matches Ok(record) ==> {
            &&& record.header_size == LIBPCAP_RECORD_HEADER_SIZE
            &&& record.data_size == u32_at(record_data@, 8, endianness)
        },
{
    if record_data.len() < LIBPCAP_RECORD_HEADER_SIZE {
        return Err(());
    }
    let included_length = read_u32(record_data, 8, endianness) as usize;
    let original_length = read_u32(record_data, 12, endianness) as usize;
    if included_length > snap_length || included_length > original_length {
        return Err(());
    }
    Ok(LibpcapRecord { header_size: LIBPCAP_RECORD_HEADER_SIZE, data_size: included_length })
}

/// Every Pcap-NG block is its type, its total length, its body, and its total length again
pub const PCAPNG_BLOCK_MIN_SIZE: usize = 12;

/// The section header block is at least its type, length, byte order magic, version and section
/// length, and the trailing length
pub const PCAPNG_SECTION_HEADER_MIN_SIZE: usize = 28;

/// The byte order magic of a section, as a number in the byte order of the section
pub const PCAPNG_BYTE_ORDER_MAGIC: u32 = 0x1A2B3C4D;

/// The only major version of the format
pub const PCAPNG_MAJOR_VERSION: u16 = 1;

/// The byte order of the section whose header starts `data`, where one does: the block type
/// 0x0A0D0D0A, the byte order magic at offset 8 in either byte order, and major version 1
pub open spec fn section_byte_order(data: Seq<u8>) -> Option<Endianness> {
    if data.len() >= PCAPNG_SECTION_HEADER_MIN_SIZE && data[0] == 0x0A && data[1] == 0x0D
        && data[2] == 0x0D && data[3] == 0x0A {
        if u32_at(data, 8, Endianness::Little) == PCAPNG_BYTE_ORDER_MAGIC && u16_at(
            data,
            12,
            Endianness::Little,
        ) == PCAPNG_MAJOR_VERSION {
            Some(Endianness::Little)
        } else if u32_at(data, 8, Endianness::Big) == PCAPNG_BYTE_ORDER_MAGIC && u16_at(
            data,
            12,
            Endianness::Big,
        ) == PCAPNG_MAJOR_VERSION {
            Some(Endianness::Big)
        } else {
            None
        }
    } else {
        None
    }
}

/// Parses the section header at the start of `pcapng_data`, and returns its byte order
pub fn parse_pcapng_section_header(pcapng_data: &[u8]) -> (result: Result<Endianness, ()>)
    ensures
        result is Ok <==> section_byte_order(pcapng_data@) is Some,
        result matches Ok(endianness) ==> section_byte_order(pcapng_data@) == Some(endianness),
{
    if pcapng_data.len() < PCAPNG_SECTION_HEADER_MIN_SIZE || pcapng_data[0] != 0x0A
        || pcapng_data[1] != 0x0D || pcapng_data[2] != 0x0D || pcapng_data[3] != 0x0A {
        return Err(());
    }
    if read_u32(pcapng_data, 8, Endianness::Little) == PCAPNG_BYTE_ORDER_MAGIC && read_u16(
        pcapng_data,
        12,
        Endianness::Little,
    ) == PCAPNG_MAJOR_VERSION {
        Ok(Endianness::Little)
    } else if read_u32(pcapng_data, 8, Endianness::Big) == PCAPNG_BYTE_ORDER_MAGIC && read_u16(
        pcapng_data,
        12,
        Endianness::Big,
    ) == PCAPNG_MAJOR_VERSION {
        Ok(Endianness::Big)
    } else {
        Err(())
    }
}

/// The size of the whole block that starts at `pos`, where one does: a total length of at least
/// twelve bytes and a multiple of four, inside the data, and repeated at the end of the block
pub open spec fn block_size_at(data: Seq<u8>, pos: int, endianness: Endianness) -> Option<nat> {
    if 0 <= pos && pos + PCAPNG_BLOCK_MIN_SIZE <= data.len() {
        let length = u32_at(data, pos + 4, endianness);
        if length >= PCAPNG_BLOCK_MIN_SIZE && length % 4 == 0 && pos + length <= data.len()
            && u32_at(data, pos + length - 4, endianness) == length {
            Some(length)
        } else {
            None
        }
    } else {
        None
    }
}

/// Parses the block at the start of `block_data`, and returns its size
pub fn parse_pcapng_block(block_data: &[u8], endianness: Endianness) -> (result: Result<usize, ()>)
    ensures
        result is Ok <==> block_size_at(block_data@, 0, endianness) is Some,
        result matches Ok(size) ==> block_size_at(block_data@, 0, endianness) == Some(size as nat),
{
    if block_data.len() < PCAPNG_BLOCK_MIN_SIZE {
        return Err(());
    }
    let length = read_u32(block_data, 4, endianness) as usize;
    if length < PCAPNG_BLOCK_MIN_SIZE || length % 4 != 0 || length > block_data.len() {
        return Err(());
    }
    if read_u32(block_data, length - 4, endianness) as usize != length {
        return Err(());
    }
    Ok(length)
}

} // verus!
