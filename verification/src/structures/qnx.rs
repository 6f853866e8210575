//! QNX images and file systems: the startup header of an IFS image, the root directory entry of
//! a QNX4 file system, and the super block of a QNX6 file system
use crate::structures::common::{read_u16, read_u32, u16_at, u32_at, Endianness};
use vstd::prelude::*;

verus! {

/// The part of the IFS startup header that is read: up to and including the stored size
pub const IFS_HEADER_SIZE: usize = 0x28;

/// The startup header signature, and its version
pub const IFS_SIGNATURE: u32 = 0x00FF7EEB;

pub const IFS_VERSION: u16 = 1;

/// The fields of an IFS startup header that give the size of the image
pub struct IFSHeader {
    pub total_size: usize,
}

/// The startup header at the start of `data`, where there is one: the signature and version 1,
/// little endian; the image is as long as the stored size at offset 0x24 says
pub open spec fn ifs_header(data: Seq<u8>) -> Option<IFSHeader> {
    if data.len() >= IFS_HEADER_SIZE && u32_at(data, 0, Endianness::Little) == IFS_SIGNATURE
        && u16_at(data, 4, Endianness::Little) == IFS_VERSION {
        Some(IFSHeader { total_size: u32_at(data, 0x24, Endianness::Little) as usize })
    } else {
        None
    }
}

/// Parses the startup header at the start of `ifs_data`
pub fn parse_ifs_header(ifs_data: &[u8]) -> (result: Result<IFSHeader, ()>)
    ensures
        result is Ok <==> ifs_header(ifs_data@) is Some,
        result matches Ok(header) ==> ifs_header(ifs_data@) == Some(header),
{
    if ifs_data.len() < IFS_HEADER_SIZE || read_u32(ifs_data, 0, Endianness::Little) != IFS_SIGNATURE
        || read_u16(ifs_data, 4, Endianness::Little) != IFS_VERSION {
        return Err(());
    }
    Ok(IFSHeader { total_size: read_u32(ifs_data, 0x24, Endianness::Little) as usize })
}

/// The part of the QNX6 super block that is read: up to and including the block count
pub const QNX6_SUPER_BLOCK_SIZE: usize = 0x40;

/// The super block magic, as a number in the byte order of the file system
pub const QNX6_MAGIC: u32 = 0x22111968;

/// The fields of a QNX6 super block
pub struct QNX6SuperBlock {
    pub endianness: Endianness,
    pub block_size: u32,
    pub block_count: u32,
}

/// The super block at the start of `data` in the given byte order, where there is one: the
/// magic, and a block size (at 0x30) of 512, 1024, 2048 or 4096 bytes; the block count is at 0x3C
pub open spec fn qnx6_super_block(data: Seq<u8>, endianness: Endianness) -> Option<
    QNX6SuperBlock,
> {
    let block_size = u32_at(data, 0x30, endianness);
    if data.len() >= QNX6_SUPER_BLOCK_SIZE && u32_at(data, 0, endianness) == QNX6_MAGIC && (
    block_size == 512 || block_size == 1024 || block_size == 2048 || block_size == 4096) {
        Some(
            QNX6SuperBlock {
                endianness,
                block_size: block_size as u32,
                block_count: u32_at(data, 0x3C, endianness) as u32,
            },
        )
    } else {
        None
    }
}

/// Parses the super block at the start of `qnx_data`, in the given byte order
pub fn parse_qnx6_super_block(qnx_data: &[u8], endianness: Endianness) -> (result: Result<
    QNX6SuperBlock,
    (),
>)
    ensures
        result is Ok <==> qnx6_super_block(qnx_data@, endianness) is Some,
        result matches Ok(block) ==> qnx6_super_block(qnx_data@, endianness) == Some(block),
{
    if qnx_data.len() < QNX6_SUPER_BLOCK_SIZE || read_u32(qnx_data, 0, endianness) != QNX6_MAGIC {
        return Err(());
    }
    let block_size = read_u32(qnx_data, 0x30, endianness);
    if block_size != 512 && block_size != 1024 && block_size != 2048 && block_size != 4096 {
        return Err(());
    }
    Ok(
        QNX6SuperBlock {
            endianness,
            block_size,
            block_count: read_u32(qnx_data, 0x3C, endianness),
        },
    )
}

/// A QNX4 file system starts with a boot block, and the root directory entry starts the block
/// after it
pub const QNX4_BLOCK_SIZE: usize = 0x200;

/// A directory entry starts with a sixteen byte name, then the size of the file
pub const QNX4_NAME_SIZE: usize = 16;

/// The fields of the root directory entry
pub struct QNX4RootDir {
    pub size: u32,
}

/// The root directory entry of the file system whose boot block starts `data`, where there is
/// one: its name is "/"
pub open spec fn qnx4_root_dir(data: Seq<u8>) -> Option<QNX4RootDir> {
    let entry = QNX4_BLOCK_SIZE as int;
    if data.len() >= entry + QNX4_NAME_SIZE + 4 && data[entry] == 0x2F && data[entry + 1] == 0 {
        Some(QNX4RootDir { size: u32_at(data, entry + QNX4_NAME_SIZE, Endianness::Little) as u32 })
    } else {
        None
    }
}

/// Parses the root directory entry of the file system whose boot block starts `qnx_data`
pub fn parse_qnx4_root_dir(qnx_data: &[u8]) -> (result: Result<QNX4RootDir, ()>)
    ensures
        result is Ok <==> qnx4_root_dir(qnx_data@) is Some,
        result matches Ok(root) ==> qnx4_root_dir(qnx_data@) == Some(root),
{
    if qnx_data.len() < QNX4_BLOCK_SIZE + QNX4_NAME_SIZE + 4 || qnx_data[QNX4_BLOCK_SIZE] != 0x2F
        || qnx_data[QNX4_BLOCK_SIZE + 1] != 0 {
        return Err(());
    }
    Ok(
        QNX4RootDir {
            size: read_u32(qnx_data, QNX4_BLOCK_SIZE + QNX4_NAME_SIZE, Endianness::Little),
        },
    )
}

} // verus!
