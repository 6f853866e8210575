//! ISO9660 volume descriptors: a set of sector sized descriptors that starts 32 KiB into the
//! image, each with a type byte, the identifier "CD001" and version 1
use crate::common::{cstring, get_cstring_bytes};
use crate::structures::common::{read_u16, read_u32, u16_at, u32_at, Endianness};
use crate::text::{all_printable, check_all_printable, trim_spaces, trimmed};
use vstd::prelude::*;

verus! {

/// The volume descriptor set starts after the system area of sixteen sectors
pub const DESCRIPTOR_SET_OFFSET: usize = 0x8000;

/// Each volume descriptor is one sector long
pub const SECTOR_SIZE: usize = 2048;

/// Descriptor types
pub const BOOT_RECORD_TYPE: u8 = 0;

pub const PRIMARY_VOLUME_TYPE: u8 = 1;

pub const TERMINATOR_TYPE: u8 = 255;

/// The type byte, the identifier and the version
pub const DESCRIPTOR_HEADER_SIZE: usize = 7;

/// Where a boot record holds its boot system identifier, and how long that field is
pub const BOOT_SYSTEM_IDENTIFIER_OFFSET: usize = 7;

pub const BOOT_SYSTEM_IDENTIFIER_SIZE: usize = 32;

/// Where a primary volume descriptor holds the number of logical blocks of the volume, little
/// endian and then big endian
pub const VOLUME_SPACE_SIZE_OFFSET: usize = 80;

/// Where it holds the size of a logical block, little endian and then big endian
pub const LOGICAL_BLOCK_SIZE_OFFSET: usize = 128;

/// The part of a primary volume descriptor that gives the size of the image
pub const PRIMARY_VOLUME_HEADER_SIZE: usize = 132;

/// A volume descriptor starts at `offset`: its identifier is "CD001" and its version is 1
pub open spec fn is_descriptor_at(data: Seq<u8>, offset: int) -> bool {
    &&& 0 <= offset
    &&& offset + DESCRIPTOR_HEADER_SIZE <= data.len()
    &&& data[offset + 1] == 0x43
    &&& data[offset + 2] == 0x44
    &&& data[offset + 3] == 0x30
    &&& data[offset + 4] == 0x30
    &&& data[offset + 5] == 0x31
    &&& data[offset + 6] == 1
}

/// Checks whether a volume descriptor starts at `offset` of `iso_data`
pub fn is_iso_descriptor(iso_data: &[u8], offset: usize) -> (is_descriptor: bool)
    ensures
        is_descriptor == is_descriptor_at(iso_data@, offset as int),
{
    offset <= iso_data.len() && DESCRIPTOR_HEADER_SIZE <= iso_data.len() - offset && iso_data[offset
        + 1] == 0x43 && iso_data[offset + 2] == 0x44 && iso_data[offset + 3] == 0x30 && iso_data[offset
        + 4] == 0x30 && iso_data[offset + 5] == 0x31 && iso_data[offset + 6] == 1
}

/// The size of the image that the primary volume descriptor at `offset` describes, where there is
/// one: its block count and block size, each stored in both byte orders, agree with themselves,
/// the block size is not zero, and the size of the image fits in a `usize`
pub open spec fn iso_image_size(data: Seq<u8>, offset: int) -> Option<nat> {
    if is_descriptor_at(data, offset) && data[offset] == PRIMARY_VOLUME_TYPE && offset
        + PRIMARY_VOLUME_HEADER_SIZE <= data.len() {
        let blocks = u32_at(data, offset + VOLUME_SPACE_SIZE_OFFSET, Endianness::Little);
        let block_size = u16_at(data, offset + LOGICAL_BLOCK_SIZE_OFFSET, Endianness::Little);
        if blocks == u32_at(data, offset + VOLUME_SPACE_SIZE_OFFSET + 4, Endianness::Big)
            && block_size == u16_at(data, offset + LOGICAL_BLOCK_SIZE_OFFSET + 2, Endianness::Big)
            && block_size != 0 && blocks * block_size <= usize::MAX {
            Some(blocks * block_size)
        } else {
            None
        }
    } else {
        None
    }
}

/// The fields of a primary volume descriptor that a signature needs
pub struct ISOHeader {
    pub image_size: usize,
}

/// Parses the primary volume descriptor at `descriptor_offset` of `iso_data`
pub fn parse_iso_header(iso_data: &[u8], descriptor_offset: usize) -> (result: Result<
    ISOHeader,
    (),
>)
    ensures
        result is Ok <==> iso_image_size(iso_data@, descriptor_offset as int) is Some,
        result matches Ok(header) ==> Some(header.image_size as nat) == iso_image_size(
            iso_data@,
            descriptor_offset as int,
        ),
{
    if !is_iso_descriptor(iso_data, descriptor_offset) || iso_data[descriptor_offset]
        != PRIMARY_VOLUME_TYPE || PRIMARY_VOLUME_HEADER_SIZE > iso_data.len() - descriptor_offset {
        return Err(());
    }
    let blocks = read_u32(iso_data, descriptor_offset + VOLUME_SPACE_SIZE_OFFSET, Endianness::Little);
    let blocks_be = read_u32(
        iso_data,
        descriptor_offset + VOLUME_SPACE_SIZE_OFFSET + 4,
        Endianness::Big,
    );
    let block_size = read_u16(
        iso_data,
        descriptor_offset + LOGICAL_BLOCK_SIZE_OFFSET,
        Endianness::Little,
    );
    let block_size_be = read_u16(
        iso_data,
        descriptor_offset + LOGICAL_BLOCK_SIZE_OFFSET + 2,
        Endianness::Big,
    );
    if blocks != blocks_be || block_size != block_size_be || block_size == 0 {
        return Err(());
    }
    match (blocks as usize).checked_mul(block_size as usize) {
        Some(image_size) => Ok(ISOHeader { image_size }),
        None => Err(()),
    }
}

/// The boot system identifier of the boot record at the start of the descriptor set, where there
/// is one: the identifier field up to its first NULL byte must be printable, and it is given
/// without the spaces that pad it
pub open spec fn boot_system_identifier(iso_data: Seq<u8>) -> Option<Seq<u8>> {
    let offset = DESCRIPTOR_SET_OFFSET as int;
    let start = offset + BOOT_SYSTEM_IDENTIFIER_OFFSET;
    let end = start + BOOT_SYSTEM_IDENTIFIER_SIZE;
    if is_descriptor_at(iso_data, offset) && iso_data[offset] == BOOT_RECORD_TYPE && end
        <= iso_data.len() && all_printable(cstring(iso_data.subrange(start, end))) {
        Some(trim_spaces(cstring(iso_data.subrange(start, end))))
    } else {
        None
    }
}

/// The fields of a boot record
pub struct ISOBootRecord {
    pub boot_system_identifier: Vec<u8>,
}

/// Parses the boot record at the start of the descriptor set of `iso_data`
pub fn parse_iso_boot_record(iso_data: &[u8]) -> (result: Result<ISOBootRecord, ()>)
    ensures
        result is Ok <==> boot_system_identifier(iso_data@) is Some,
        result matches Ok(record) ==> Some(record.boot_system_identifier@)
            == boot_system_identifier(iso_data@),
{
    let start = DESCRIPTOR_SET_OFFSET + BOOT_SYSTEM_IDENTIFIER_OFFSET;
    let end = start + BOOT_SYSTEM_IDENTIFIER_SIZE;
    if !is_iso_descriptor(iso_data, DESCRIPTOR_SET_OFFSET) || iso_data[DESCRIPTOR_SET_OFFSET]
        != BOOT_RECORD_TYPE || end > iso_data.len() {
        return Err(());
    }
    let identifier = get_cstring_bytes(iso_data, start, end);
    if !check_all_printable(identifier.as_slice()) {
        return Err(());
    }
    Ok(ISOBootRecord { boot_system_identifier: trimmed(identifier.as_slice()) })
}

/// The first primary volume descriptor of the descriptor set, searched from `offset`: the walk
/// goes from sector to sector and gives up at the set terminator or at a sector that holds no
/// volume descriptor
pub open spec fn primary_descriptor_from(iso_data: Seq<u8>, offset: nat) -> Option<nat>
    decreases iso_data.len() + SECTOR_SIZE - offset,
{
    if !is_descriptor_at(iso_data, offset as int) {
        None
    } else if iso_data[offset as int] == PRIMARY_VOLUME_TYPE {
        Some(offset)
    } else if iso_data[offset as int] == TERMINATOR_TYPE {
        None
    } else {
        primary_descriptor_from(iso_data, offset + SECTOR_SIZE as nat)
    }
}

/// Finds the primary volume descriptor of `iso_data`
pub fn find_primary_volume_descriptor(iso_data: &[u8]) -> (descriptor_offset: Option<usize>)
    ensures
        match descriptor_offset {
            Some(d) => primary_descriptor_from(iso_data@, DESCRIPTOR_SET_OFFSET as nat) == Some(
                d as nat,
            ),
            None => primary_descriptor_from(iso_data@, DESCRIPTOR_SET_OFFSET as nat) is None,
        },
{
    let mut offset: usize = DESCRIPTOR_SET_OFFSET;
    loop
        invariant
            primary_descriptor_from(iso_data@, DESCRIPTOR_SET_OFFSET as nat)
                == primary_descriptor_from(iso_data@, offset as nat),
        decreases iso_data.len() + SECTOR_SIZE - offset,
    {
        if !is_iso_descriptor(iso_data, offset) {
            return None;
        }
        if iso_data[offset] == PRIMARY_VOLUME_TYPE {
            return Some(offset);
        }
        if iso_data[offset] == TERMINATOR_TYPE {
            return None;
        }
        if SECTOR_SIZE > iso_data.len() - offset {
            assert(primary_descriptor_from(iso_data@, (offset + SECTOR_SIZE) as nat) is None);
            return None;
        }
        offset = offset + SECTOR_SIZE;
    }
}

} // verus!
