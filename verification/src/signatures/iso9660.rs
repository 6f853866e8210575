//! ISO9660 volumes and their boot records
use crate::signatures::common::{
    magics_are, SignatureError, SignatureResult, CONFIDENCE_HIGH,
};
use crate::structures::iso9660::{
    boot_system_identifier, find_primary_volume_descriptor, is_descriptor_at, is_iso_descriptor,
    iso_image_size, parse_iso_boot_record, parse_iso_header, primary_descriptor_from,
    DESCRIPTOR_SET_OFFSET, SECTOR_SIZE,
};
use crate::text::{chars_of, dec, push_bytes, push_dec};
use vstd::prelude::*;
use vstd::slice::slice_subrange;
use vstd::string::StringExecFns;

verus! {

/// Human readable descriptions
pub const DESCRIPTION: &'static str = "ISO9660 primary volume";

pub const BOOT_RECORD_DESCRIPTION: &'static str = "ISO9660 boot record";

/// ISOs start with these magic bytes
pub fn iso_magic() -> (magics: Vec<Vec<u8>>)
    ensures
        magics_are(magics, seq![seq![0x01u8, 0x43, 0x44, 0x30, 0x30, 0x31, 0x01, 0x00]]),
{
    vec![vec![0x01, 0x43, 0x44, 0x30, 0x30, 0x31, 0x01, 0x00]]
}

/// Boot record volume descriptors start with these magic bytes
pub fn iso_boot_record_magic() -> (magics: Vec<Vec<u8>>)
    ensures
        magics_are(magics, seq![seq![0x00u8, 0x43, 0x44, 0x30, 0x30, 0x31, 0x01]]),
{
    vec![vec![0x00, 0x43, 0x44, 0x30, 0x30, 0x31, 0x01]]
}

/// The image whose descriptor set starts at `offset`: the data from the start of its system area
pub open spec fn image_at(data: Seq<u8>, offset: int) -> Seq<u8> {
    data.subrange(offset - DESCRIPTOR_SET_OFFSET, data.len() as int)
}

/// Validate ISO signatures
///
/// The descriptor set starts `DESCRIPTOR_SET_OFFSET` bytes into the image, so that many bytes have
/// to exist before the match; where the primary volume descriptor parses, the match is an image of
/// the size it describes.
pub fn iso_parser(file_data: &[u8], offset: usize) -> (result: Result<
    SignatureResult,
    SignatureError,
>)
    requires
        offset <= file_data.len(),
    ensures
        result is Ok <==> offset >= DESCRIPTOR_SET_OFFSET && iso_image_size(
            image_at(file_data@, offset as int),
            DESCRIPTOR_SET_OFFSET as int,
        ) is Some,
        result matches Ok(r) ==> {
            let size = iso_image_size(
                image_at(file_data@, offset as int),
                DESCRIPTOR_SET_OFFSET as int,
            )->0;
            r.describes(
                offset - DESCRIPTOR_SET_OFFSET,
                size as int,
                DESCRIPTION@ + ", total size: "@ + dec(size) + " bytes"@,
                CONFIDENCE_HIGH,
            )
        },
{
    if offset >= DESCRIPTOR_SET_OFFSET {
        let image_offset = offset - DESCRIPTOR_SET_OFFSET;
        let iso_data = slice_subrange(file_data, image_offset, file_data.len());
        if let Ok(iso_header) = parse_iso_header(iso_data, DESCRIPTOR_SET_OFFSET) {
            let mut result = SignatureResult::new(image_offset, DESCRIPTION, CONFIDENCE_HIGH);
            result.size = iso_header.image_size;
            result.description.append(", total size: ");
            push_dec(&mut result.description, iso_header.image_size as u64);
            result.description.append(" bytes");
            return Ok(result);
        }
    }
    Err(SignatureError)
}

/// The size of an image, where its primary volume descriptor is found and parses
pub open spec fn described_image_size(iso_data: Seq<u8>) -> Option<nat> {
    match primary_descriptor_from(iso_data, DESCRIPTOR_SET_OFFSET as nat) {
        Some(descriptor_offset) => iso_image_size(iso_data, descriptor_offset as int),
        None => None,
    }
}

/// How a boot record is described: with its boot system identifier where that is not empty, and
/// with the size of the image where that is known
pub open spec fn boot_record_description(identifier: Seq<u8>, size: Option<nat>) -> Seq<char> {
    let named = if identifier.len() > 0 {
        BOOT_RECORD_DESCRIPTION@ + ", boot system identifier: \""@ + chars_of(identifier)
            + "\""@
    } else {
        BOOT_RECORD_DESCRIPTION@
    };
    match size {
        Some(n) => named + ", total size: "@ + dec(n) + " bytes"@,
        None => named,
    }
}

/// A boot record starts an image where `DESCRIPTOR_SET_OFFSET` bytes come before it, the sector
/// before it holds no volume descriptor, and it parses
pub open spec fn starts_image(data: Seq<u8>, offset: int) -> bool {
    &&& offset >= DESCRIPTOR_SET_OFFSET
    &&& !is_descriptor_at(image_at(data, offset), DESCRIPTOR_SET_OFFSET - SECTOR_SIZE)
    &&& boot_system_identifier(image_at(data, offset)) is Some
}

/// Validate ISO boot record signatures
///
/// A boot record is only the start of the volume descriptor set if the preceding sector is not
/// itself a volume descriptor. Boot records that follow a primary volume descriptor, which is the
/// usual El Torito layout, belong to an ISO that starts a sector earlier and are reported as part
/// of that image instead. The size of the image is only described by the primary volume
/// descriptor, which is somewhere further along in the descriptor set; without it the size is
/// left unknown.
pub fn iso_boot_record_parser(file_data: &[u8], offset: usize) -> (result: Result<
    SignatureResult,
    SignatureError,
>)
    requires
        offset <= file_data.len(),
    ensures
        result is Ok <==> starts_image(file_data@, offset as int),
        result matches Ok(r) ==> {
            let iso_data = image_at(file_data@, offset as int);
            let size = described_image_size(iso_data);
            &&& r.offset == offset - DESCRIPTOR_SET_OFFSET
            &&& r.size == (match size {
                Some(n) => n,
                None => 0,
            })
            &&& r.description@ == boot_record_description(
                boot_system_identifier(iso_data)->0,
                size,
            )
            &&& r.confidence == CONFIDENCE_HIGH
            &&& !r.extraction_declined
        },
{
    if offset < DESCRIPTOR_SET_OFFSET {
        return Err(SignatureError);
    }
    let image_offset = offset - DESCRIPTOR_SET_OFFSET;
    let iso_data = slice_subrange(file_data, image_offset, file_data.len());
    if is_iso_descriptor(iso_data, DESCRIPTOR_SET_OFFSET - SECTOR_SIZE) {
        return Err(SignatureError);
    }
    let boot_record = match parse_iso_boot_record(iso_data) {
        Ok(boot_record) => boot_record,
        Err(_) => return Err(SignatureError),
    };
    let mut result = SignatureResult::new(image_offset, BOOT_RECORD_DESCRIPTION, CONFIDENCE_HIGH);
    if boot_record.boot_system_identifier.len() > 0 {
        result.description.append(", boot system identifier: \"");
        push_bytes(&mut result.description, boot_record.boot_system_identifier.as_slice());
        result.description.append("\"");
    }
    if let Some(descriptor_offset) = find_primary_volume_descriptor(iso_data) {
        if let Ok(iso_header) = parse_iso_header(iso_data, descriptor_offset) {
            result.size = iso_header.image_size;
            result.description.append(", total size: ");
            push_dec(&mut result.description, iso_header.image_size as u64);
            result.description.append(" bytes");
        }
    }
    Ok(result)
}

/// A boot record in the sector after a primary volume descriptor, the usual El Torito layout,
/// belongs to the image of that descriptor: where the descriptor parses as the start of an image,
/// the boot record after it is not taken for the start of another one
pub proof fn lemma_boot_record_after_primary_volume(data: Seq<u8>, image_offset: int)
    requires
        0 <= image_offset,
        image_offset + DESCRIPTOR_SET_OFFSET + SECTOR_SIZE <= data.len(),
        iso_image_size(
            image_at(data, image_offset + DESCRIPTOR_SET_OFFSET),
            DESCRIPTOR_SET_OFFSET as int,
        ) is Some,
    ensures
        !starts_image(data, image_offset + DESCRIPTOR_SET_OFFSET + SECTOR_SIZE),
{
    let primary_image = image_at(data, image_offset + DESCRIPTOR_SET_OFFSET);
    let boot_image = image_at(data, image_offset + DESCRIPTOR_SET_OFFSET + SECTOR_SIZE);
    assert(is_descriptor_at(primary_image, DESCRIPTOR_SET_OFFSET as int));
    assert(is_descriptor_at(boot_image, DESCRIPTOR_SET_OFFSET - SECTOR_SIZE));
}

} // verus!
