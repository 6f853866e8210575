//! Windows CE images, installers and memory segments
use crate::signatures::common::{
    magics_are, SignatureError, SignatureResult, CONFIDENCE_HIGH, CONFIDENCE_MEDIUM,
};
use crate::structures::wince::{
    architecture, architecture_name, image_header, installer_header, memory_segment_header,
    parse_wince_header, parse_wince_installer_header, parse_wince_memory_segment_header,
    records_end, wince_records_end, IMAGE_HEADER_SIZE,
};
use crate::text::{dec, hex_digits, push_dec, push_hex_digits};
use vstd::prelude::*;
use vstd::slice::slice_subrange;
use vstd::string::StringExecFns;

verus! {

/// Human readable descriptions
pub const DESCRIPTION: &'static str = "Windows CE binary image";

pub const INSTALLER_DESCRIPTION: &'static str = "Microsoft WinCE installer";

pub const MEMORY_SEGMENT_DESCRIPTION: &'static str = "Windows CE memory segment header";

/// Windows CE magic bytes
pub fn wince_magic() -> (magics: Vec<Vec<u8>>)
    ensures
        magics_are(magics, seq![seq![0x42u8, 0x30, 0x30, 0x30, 0x46, 0x46, 0x0A]]),
{
    vec![vec![0x42, 0x30, 0x30, 0x30, 0x46, 0x46, 0x0A]]
}

/// Windows CE installer magic bytes
pub fn wince_installer_magic() -> (magics: Vec<Vec<u8>>)
    ensures
        magics_are(magics, seq![seq![0x4Du8, 0x53, 0x43, 0x45, 0x00, 0x00, 0x00, 0x00]]),
{
    vec![vec![0x4D, 0x53, 0x43, 0x45, 0x00, 0x00, 0x00, 0x00]]
}

/// Windows CE memory segment magic bytes; the signature is preceded by a NULL byte
pub fn wince_memory_segment_magic() -> (magics: Vec<Vec<u8>>)
    ensures
        magics_are(magics, seq![seq![0x00u8, 0x45, 0x43, 0x45, 0x43]]),
{
    vec![vec![0x00, 0x45, 0x43, 0x45, 0x43]]
}

/// The signature is at a fixed offset from the start of the ROM image
pub const SIGNATURE_OFFSET: usize = 63;

/// Validate a Windows CE memory segment header
///
/// The ROM image starts `SIGNATURE_OFFSET` bytes before the signature, so that many bytes have to
/// exist before the match. The table of contents is described by an address rather than by an
/// offset into the image, so it says nothing about how large the image is; the size is left
/// unknown.
pub fn wince_memory_segment_parser(file_data: &[u8], offset: usize) -> (result: Result<
    SignatureResult,
    SignatureError,
>)
    requires
        offset <= file_data.len(),
    ensures
        result is Ok <==> offset >= SIGNATURE_OFFSET && memory_segment_header(
            file_data@.subrange(offset as int, file_data.len() as int),
        ) is Some,
        result matches Ok(r) ==> {
            let header = memory_segment_header(
                file_data@.subrange(offset as int, file_data.len() as int),
            )->0;
            r.describes(
                offset - SIGNATURE_OFFSET,
                0,
                MEMORY_SEGMENT_DESCRIPTION@ + ", TOC address: 0x"@ + hex_digits(
                    header.toc_address as nat,
                ),
                CONFIDENCE_MEDIUM,
            )
        },
{
    if offset >= SIGNATURE_OFFSET {
        let segment_data = slice_subrange(file_data, offset, file_data.len());
        if let Ok(segment_header) = parse_wince_memory_segment_header(segment_data) {
            let mut result = SignatureResult::new(
                offset - SIGNATURE_OFFSET,
                MEMORY_SEGMENT_DESCRIPTION,
                CONFIDENCE_MEDIUM,
            );
            result.description.append(", TOC address: 0x");
            push_hex_digits(&mut result.description, segment_header.toc_address as u64);
            return Ok(result);
        }
    }
    Err(SignatureError)
}

/// Validate a Windows CE installer header
///
/// The documentation available for this header does not agree on which field holds the length
/// of the installer, so the size is left unknown.
pub fn wince_installer_parser(file_data: &[u8], offset: usize) -> (result: Result<
    SignatureResult,
    SignatureError,
>)
    requires
        offset <= file_data.len(),
    ensures
        result is Ok <==> installer_header(file_data@.subrange(offset as int, file_data.len() as int))
            is Some,
        result matches Ok(r) ==> {
            let header = installer_header(
                file_data@.subrange(offset as int, file_data.len() as int),
            )->0;
            r.describes(
                offset as int,
                0,
                INSTALLER_DESCRIPTION@ + ", "@ + architecture_name(header.architecture as nat)->0
                    + ", file count: "@ + dec(header.file_count as nat)
                    + ", registry entry count: "@ + dec(header.registry_entry_count as nat),
                CONFIDENCE_HIGH,
            )
        },
{
    let installer_data = slice_subrange(file_data, offset, file_data.len());
    match parse_wince_installer_header(installer_data) {
        Err(_) => Err(SignatureError),
        Ok(installer_header) => match architecture(installer_header.architecture) {
            Some(name) => {
                let mut result = SignatureResult::new(
                    offset,
                    INSTALLER_DESCRIPTION,
                    CONFIDENCE_HIGH,
                );
                result.description.append(", ");
                result.description.append(name);
                result.description.append(", file count: ");
                push_dec(&mut result.description, installer_header.file_count as u64);
                result.description.append(", registry entry count: ");
                push_dec(&mut result.description, installer_header.registry_entry_count as u64);
                Ok(result)
            },
            None => Err(SignatureError),
        },
    }
}

/// Validates the Windows CE header
///
/// Walking the records of the image is a dry run of dumping them: where it reaches the record
/// that ends the image, with every checksum right, this is an image, as long as the walk was.
pub fn wince_parser(file_data: &[u8], offset: usize) -> (result: Result<
    SignatureResult,
    SignatureError,
>)
    requires
        offset <= file_data.len(),
    ensures
        result is Ok <==> {
            let image = file_data@.subrange(offset as int, file_data.len() as int);
            image_header(image) is Some && records_end(image, IMAGE_HEADER_SIZE as nat) is Some
        },
        result matches Ok(r) ==> {
            let image = file_data@.subrange(offset as int, file_data.len() as int);
            let header = image_header(image)->0;
            let size = records_end(image, IMAGE_HEADER_SIZE as nat)->0;
            r.describes(
                offset as int,
                size as int,
                DESCRIPTION@ + ", base address: 0x"@ + hex_digits(header.base_address as nat)
                    + ", image size: "@ + dec(header.image_size as nat) + " bytes, file size: "@
                    + dec(size) + " bytes"@,
                CONFIDENCE_HIGH,
            )
        },
{
    let image_data = slice_subrange(file_data, offset, file_data.len());
    let total_size = match wince_records_end(image_data) {
        Some(total_size) => total_size,
        None => return Err(SignatureError),
    };
    match parse_wince_header(image_data) {
        Err(_) => Err(SignatureError),
        Ok(wince_header) => {
            let mut result = SignatureResult::new(offset, DESCRIPTION, CONFIDENCE_HIGH);
            result.size = total_size;
            result.description.append(", base address: 0x");
            push_hex_digits(&mut result.description, wince_header.base_address as u64);
            result.description.append(", image size: ");
            push_dec(&mut result.description, wince_header.image_size as u64);
            result.description.append(" bytes, file size: ");
            push_dec(&mut result.description, total_size as u64);
            result.description.append(" bytes");
            Ok(result)
        },
    }
}

} // verus!
