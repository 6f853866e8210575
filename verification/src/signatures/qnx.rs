//! QNX IFS images and QNX4/QNX6 file systems
use crate::signatures::common::{
    magics_are, SignatureError, SignatureResult, CONFIDENCE_LOW, CONFIDENCE_MEDIUM,
};
use crate::structures::common::{endianness_name, pattern_at, Endianness};
use crate::structures::qnx::{
    ifs_header, parse_ifs_header, parse_qnx4_root_dir, parse_qnx6_super_block, qnx4_root_dir,
    qnx6_super_block,
};
use crate::text::{dec, matches_at, push_dec};
use vstd::prelude::*;
use vstd::slice::slice_subrange;
use vstd::string::StringExecFns;

verus! {

/// Human readable descriptions
pub const IFS_DESCRIPTION: &'static str = "QNX IFS image";

pub const QNX4_DESCRIPTION: &'static str = "QNX4 file system";

pub const QNX6_DESCRIPTION: &'static str = "QNX6 file system";

/// QNX IFS magic bytes
///
/// Assumes little endian. Includes the magic bytes (u32) and version number (u16), which must
/// be 1.
pub fn qnx_ifs_magic() -> (magics: Vec<Vec<u8>>)
    ensures
        magics_are(magics, seq![seq![0xEBu8, 0x7E, 0xFF, 0x00, 0x01, 0x00]]),
{
    vec![vec![0xEB, 0x7E, 0xFF, 0x00, 0x01, 0x00]]
}

/// QNX4 boot block magic bytes
///
/// This is just an x86 jump instruction; the root directory entry is what validates the match.
pub fn qnx4_magic() -> (magics: Vec<Vec<u8>>)
    ensures
        magics_are(magics, seq![seq![0xEBu8, 0x10, 0x90, 0x00]]),
{
    vec![vec![0xEB, 0x10, 0x90, 0x00]]
}

/// QNX6 super block magic bytes, little and big endian
pub fn qnx6_magic() -> (magics: Vec<Vec<u8>>)
    ensures
        magics_are(
            magics,
            seq![
                seq![0x68u8, 0x19, 0x11, 0x22],
                seq![0x22u8, 0x11, 0x19, 0x68],
            ],
        ),
{
    vec![
        vec![0x68, 0x19, 0x11, 0x22],
        vec![0x22, 0x11, 0x19, 0x68],
    ]
}

/// Validate a QNX IFS image signature: the image must all be there
pub fn qnx_ifs_parser(file_data: &[u8], offset: usize) -> (result: Result<
    SignatureResult,
    SignatureError,
>)
    requires
        offset <= file_data.len(),
    ensures
        result is Ok <==> {
            let header = ifs_header(file_data@.subrange(offset as int, file_data.len() as int));
            header is Some && header->0.total_size <= file_data.len() - offset
        },
        result matches Ok(r) ==> {
            let header = ifs_header(file_data@.subrange(offset as int, file_data.len() as int))->0;
            r.describes(
                offset as int,
                header.total_size as int,
                IFS_DESCRIPTION@ + ", total size: "@ + dec(header.total_size as nat) + " bytes"@,
                CONFIDENCE_LOW,
            )
        },
{
    let available_data = file_data.len() - offset;
    let ifs_data = slice_subrange(file_data, offset, file_data.len());
    if let Ok(ifs_header) = parse_ifs_header(ifs_data) {
        if ifs_header.total_size <= available_data {
            let mut result = SignatureResult::new(offset, IFS_DESCRIPTION, CONFIDENCE_LOW);
            result.size = ifs_header.total_size;
            result.description.append(", total size: ");
            push_dec(&mut result.description, ifs_header.total_size as u64);
            result.description.append(" bytes");
            return Ok(result);
        }
    }
    Err(SignatureError)
}

/// Validate a QNX4 file system signature
///
/// The size of the file system is not described anywhere in the boot block, so the size is left
/// unknown; only the root directory entry is available to validate the match.
pub fn qnx4_parser(file_data: &[u8], offset: usize) -> (result: Result<
    SignatureResult,
    SignatureError,
>)
    requires
        offset <= file_data.len(),
    ensures
        result is Ok <==> qnx4_root_dir(file_data@.subrange(offset as int, file_data.len() as int))
            is Some,
        result matches Ok(r) ==> {
            let root = qnx4_root_dir(file_data@.subrange(offset as int, file_data.len() as int))->0;
            r.describes(
                offset as int,
                0,
                QNX4_DESCRIPTION@ + ", root directory size: "@ + dec(root.size as nat) + " bytes"@,
                CONFIDENCE_MEDIUM,
            )
        },
{
    let qnx_data = slice_subrange(file_data, offset, file_data.len());
    match parse_qnx4_root_dir(qnx_data) {
        Err(_) => Err(SignatureError),
        Ok(root_dir) => {
            let mut result = SignatureResult::new(offset, QNX4_DESCRIPTION, CONFIDENCE_MEDIUM);
            result.description.append(", root directory size: ");
            push_dec(&mut result.description, root_dir.size as u64);
            result.description.append(" bytes");
            Ok(result)
        },
    }
}

/// The byte order of the super block that starts at `offset`: little endian where the bytes of
/// the magic are 68 19 11 22, big endian otherwise
pub open spec fn qnx6_endianness(data: Seq<u8>, offset: int) -> Endianness {
    if matches_at(data, seq![0x68u8, 0x19, 0x11, 0x22], offset) {
        Endianness::Little
    } else {
        Endianness::Big
    }
}

/// Validate a QNX6 file system signature
///
/// The super block describes the number of file system blocks, but not how much of the image
/// precedes it, nor the size of the super block area, so the size is left unknown.
pub fn qnx6_parser(file_data: &[u8], offset: usize) -> (result: Result<
    SignatureResult,
    SignatureError,
>)
    requires
        offset <= file_data.len(),
    ensures
        result is Ok <==> qnx6_super_block(
            file_data@.subrange(offset as int, file_data.len() as int),
            qnx6_endianness(file_data@, offset as int),
        ) is Some,
        result matches Ok(r) ==> {
            let block = qnx6_super_block(
                file_data@.subrange(offset as int, file_data.len() as int),
                qnx6_endianness(file_data@, offset as int),
            )->0;
            r.describes(
                offset as int,
                0,
                QNX6_DESCRIPTION@ + ", "@ + endianness_name(block.endianness)
                    + " endian, block size: "@ + dec(block.block_size as nat) + " bytes, block count: "@
                    + dec(block.block_count as nat),
                CONFIDENCE_MEDIUM,
            )
        },
{
    let little_endian_magic = vec![0x68u8, 0x19, 0x11, 0x22];
    let endianness = if pattern_at(file_data, little_endian_magic.as_slice(), offset) {
        Endianness::Little
    } else {
        Endianness::Big
    };
    let qnx_data = slice_subrange(file_data, offset, file_data.len());
    match parse_qnx6_super_block(qnx_data, endianness) {
        Err(_) => Err(SignatureError),
        Ok(super_block) => {
            let mut result = SignatureResult::new(offset, QNX6_DESCRIPTION, CONFIDENCE_MEDIUM);
            result.description.append(", ");
            result.description.append(super_block.endianness.name());
            result.description.append(" endian, block size: ");
            push_dec(&mut result.description, super_block.block_size as u64);
            result.description.append(" bytes, block count: ");
            push_dec(&mut result.description, super_block.block_count as u64);
            Ok(result)
        },
    }
}

} // verus!
