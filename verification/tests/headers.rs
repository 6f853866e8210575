use binwalk::signatures::common::{CONFIDENCE_HIGH, CONFIDENCE_MEDIUM};
use binwalk::signatures::der::der_parser;
use binwalk::signatures::gpg::gpg_trustdb_parser;
use binwalk::signatures::installshield::installshield_parser;
use binwalk::signatures::pe::pe_parser;
use binwalk::signatures::psx::psx_parser;
use binwalk::signatures::qnx::{qnx4_parser, qnx6_parser, qnx_ifs_parser};
use binwalk::signatures::rzip::rzip_parser;
use binwalk::signatures::sqlite::sqlite3_parser;
use binwalk::signatures::stuffit::stuffit_parser;
use binwalk::signatures::swf::swf_parser;
use binwalk::signatures::tiff::tiff_parser;
use binwalk::signatures::wince::{wince_installer_parser, wince_memory_segment_parser, wince_parser};
use binwalk::signatures::xar::xar_parser;

fn psx_executable() -> Vec<u8> {
    let mut data = b"PS-X EXE".to_vec();
    data.resize(0x800, 0);
    data[0x10..0x14].copy_from_slice(b"\x00\x00\x01\x80");
    data[0x18..0x1C].copy_from_slice(b"\x00\x00\x01\x80");
    data[0x1C..0x20].copy_from_slice(b"\x00\x08\x00\x00");
    data
}

#[test]
fn psx_executable_with_its_text() {
    let mut data = psx_executable();
    data.resize(0x1000, 0);
    let result = psx_parser(&data, 0).unwrap();
    assert_eq!(result.size, 4096);
    assert_eq!(result.confidence, CONFIDENCE_HIGH);
    assert_eq!(
        result.description,
        "Sony PlayStation executable, entry point: 0x80010000, load address: 0x80010000, total size: 4096 bytes"
    );
}

#[test]
fn psx_executable_cut_short() {
    let data = psx_executable();
    let result = psx_parser(&data, 0).unwrap();
    assert_eq!(result.size, 0);
    assert!(result.description.ends_with("total size: 4096 bytes"));
    assert!(psx_parser(&data[..0x7FF], 0).is_err());
}

#[test]
fn rzip_header_fields() {
    let result = rzip_parser(b"..RZIP\x02\x01\x00\x00\x10\x00", 2).unwrap();
    assert_eq!(result.offset, 2);
    assert_eq!(result.size, 0);
    assert_eq!(result.confidence, CONFIDENCE_MEDIUM);
    assert_eq!(result.description, "rzip compressed data, version: 2.1, uncompressed size: 4096 bytes");
    assert!(rzip_parser(b"RZIP\x02\x01\x00\x00\x10", 0).is_err());
    assert!(rzip_parser(b"RZIp\x02\x01\x00\x00\x10\x00", 0).is_err());
}

fn sqlite3_database(page_size: &[u8], page_count: u8, length: usize) -> Vec<u8> {
    let mut data = b"SQLite format 3\x00".to_vec();
    data.resize(length, 0);
    data[16..18].copy_from_slice(page_size);
    data[31] = page_count;
    data
}

#[test]
fn sqlite3_database_pages() {
    let data = sqlite3_database(b"\x10\x00", 2, 8192);
    let result = sqlite3_parser(&data, 0).unwrap();
    assert_eq!(result.size, 8192);
    assert_eq!(
        result.description,
        "SQLite 3.x database, page size: 4096 bytes, page count: 2, total size: 8192 bytes"
    );
    // A page size field of 1 stands for 65536, and pages that are not there are not counted
    let data = sqlite3_database(b"\x00\x01", 3, 100);
    let result = sqlite3_parser(&data, 0).unwrap();
    assert_eq!(result.size, 0);
    assert_eq!(
        result.description,
        "SQLite 3.x database, page size: 65536 bytes, page count: 3, total size: 196608 bytes"
    );
    assert!(sqlite3_parser(&sqlite3_database(b"\x03\xE8", 1, 1000), 0).is_err());
    assert!(sqlite3_parser(&sqlite3_database(b"\x10\x00", 1, 99), 0).is_err());
}

#[test]
fn swf_uncompressed_file() {
    let mut data = b"FWS\x0A\x14\x00\x00\x00".to_vec();
    data.resize(20, 0);
    let result = swf_parser(&data, 0).unwrap();
    assert_eq!(result.size, 20);
    assert_eq!(result.description, "Adobe Flash SWF file, version: 10, uncompressed, file size: 20 bytes");
    assert!(swf_parser(&data[..10], 0).is_err());
}

#[test]
fn swf_compressed_file() {
    let result = swf_parser(b"CWS\x09\xE8\x03\x00\x00xx", 0).unwrap();
    assert_eq!(result.size, 0);
    assert_eq!(result.description, "Adobe Flash SWF file, version: 9, zlib, file size: 1000 bytes");
    let result = swf_parser(b"ZWS\x0D\xE8\x03\x00\x00", 0).unwrap();
    assert_eq!(result.description, "Adobe Flash SWF file, version: 13, lzma, file size: 1000 bytes");
    assert!(swf_parser(b"XWS\x0D\xE8\x03\x00\x00", 0).is_err());
}

#[test]
fn tiff_first_directory() {
    let result = tiff_parser(b"II*\x00\x08\x00\x00\x00\x03\x00", 0).unwrap();
    assert_eq!(result.size, 0);
    assert_eq!(result.confidence, CONFIDENCE_MEDIUM);
    assert_eq!(result.description, "TIFF image data, little endian, first directory: 3 entries at offset 8");
    let result = tiff_parser(b"MM\x00\x2A\x00\x00\x00\x08\x00\x05", 0).unwrap();
    assert_eq!(result.description, "TIFF image data, big endian, first directory: 5 entries at offset 8");
    assert!(tiff_parser(b"II*\x00\x08\x00\x00\x00\x00\x00", 0).is_err());
    assert!(tiff_parser(b"II*\x00\x04\x00\x00\x00\x03\x00", 0).is_err());
    assert!(tiff_parser(b"II*\x00\x09\x00\x00\x00\x03\x00", 0).is_err());
}

#[test]
fn installshield_cabinet_ends_with_its_descriptor() {
    let mut data = b"ISc(\x0C\x60\x00\x01\x00\x00\x00\x00\x20\x00\x00\x00\x10\x00\x00\x00".to_vec();
    data.resize(48, 0);
    let result = installshield_parser(&data, 0).unwrap();
    assert_eq!(result.size, 48);
    assert_eq!(result.description, "InstallShield cabinet archive, version: 0x100600C, total size: 48 bytes");
    assert!(installshield_parser(&data[..47], 0).is_err());
}

fn xar_header(header_size: u8, version: u8, checksum: u8) -> Vec<u8> {
    let mut data = b"xar!\x00".to_vec();
    data.push(header_size);
    data.extend(b"\x00");
    data.push(version);
    data.extend(b"\x00\x00\x00\x00\x00\x00\x01\x00");
    data.extend(b"\x00\x00\x00\x00\x00\x00\x04\x00");
    data.extend(b"\x00\x00\x00");
    data.push(checksum);
    data
}

#[test]
fn xar_header_and_table_of_contents() {
    let result = xar_parser(&xar_header(28, 1, 1), 0).unwrap();
    assert_eq!(result.size, 284);
    assert_eq!(result.confidence, CONFIDENCE_HIGH);
    assert_eq!(
        result.description,
        "XAR archive, version: 1, checksum algorithm: sha1, table of contents: 256 bytes compressed, 1024 bytes uncompressed"
    );
    let result = xar_parser(&xar_header(64, 1, 3), 0).unwrap();
    assert_eq!(result.size, 320);
    assert!(result.description.contains("checksum algorithm: other"));
}

#[test]
fn xar_rejects_unknown_headers() {
    assert!(xar_parser(&xar_header(28, 2, 1), 0).is_err());
    assert!(xar_parser(&xar_header(28, 1, 4), 0).is_err());
    assert!(xar_parser(&xar_header(20, 1, 0), 0).is_err());
    assert!(xar_parser(&xar_header(28, 1, 0)[..27], 0).is_err());
}

#[test]
fn stuffit_classic_archive() {
    let mut data = b"SIT!\x00\x03\x00\x00\x00\x20rLau".to_vec();
    data.resize(32, 0);
    let result = stuffit_parser(&data, 0).unwrap();
    assert_eq!(result.size, 32);
    assert_eq!(result.confidence, CONFIDENCE_HIGH);
    assert_eq!(result.description, "StuffIt archive, file count: 3, total size: 32 bytes");
    assert!(stuffit_parser(&data[..31], 0).is_err());
    let mut data = b"SITD\x00\x03\x00\x00\x00\x20rLaX".to_vec();
    data.resize(32, 0);
    assert!(stuffit_parser(&data, 0).is_err());
}

#[test]
fn stuffit_version_5_banner() {
    let result = stuffit_parser(b"xxStuffIt (c)1997", 2).unwrap();
    assert_eq!(result.size, 0);
    assert_eq!(result.confidence, CONFIDENCE_MEDIUM);
    assert_eq!(result.description, "StuffIt archive, version 5");
}

fn pe_binary(machine: &[u8]) -> Vec<u8> {
    let mut data = b"MZ".to_vec();
    data.resize(0x80, 0);
    data[0x24] = 0x12;
    data[0x3C] = 0x40;
    data[0x40..0x44].copy_from_slice(b"PE\x00\x00");
    data[0x44..0x46].copy_from_slice(machine);
    data
}

#[test]
fn pe_binary_machine_type() {
    let result = pe_parser(&pe_binary(b"\x64\x86"), 0).unwrap();
    assert_eq!(result.size, 0);
    assert_eq!(result.confidence, CONFIDENCE_MEDIUM);
    assert_eq!(result.description, "Windows PE binary, machine type: AMD x86-64");
    let result = pe_parser(&pe_binary(b"\x4C\x01"), 0).unwrap();
    assert_eq!(result.description, "Windows PE binary, machine type: Intel x86");
}

#[test]
fn pe_binary_rejects_other_dos_headers() {
    assert!(pe_parser(&pe_binary(b"\x34\x12"), 0).is_err());
    let mut data = pe_binary(b"\x64\x86");
    data[0x20] = 1;
    assert!(pe_parser(&data, 0).is_err());
    let mut data = pe_binary(b"\x64\x86");
    data[0x3C] = 0x7C;
    assert!(pe_parser(&data, 0).is_err());
    let mut data = pe_binary(b"\x64\x86");
    data[0x41] = b'X';
    assert!(pe_parser(&data, 0).is_err());
}

#[test]
fn der_structures_by_contents() {
    let key = b"\x30\x82\x00\x08\x02\x01\x00\x30\x00\x04\x00\x00";
    let result = der_parser(key, 0).unwrap();
    assert_eq!(result.size, 12);
    assert_eq!(result.confidence, CONFIDENCE_MEDIUM);
    assert_eq!(result.description, "Private key in DER format (PKCS#8), total size: 12 bytes");
    let mut certificate = b"\x30\x82\x00\x10\x30\x82\x00\x0C\xA0\x03\x02\x01\x02".to_vec();
    certificate.resize(20, 0);
    let result = der_parser(&certificate, 0).unwrap();
    assert_eq!(result.description, "Certificate in DER format (x509 v3), total size: 20 bytes");
    let signature = b"\x30\x82\x00\x0B\x06\x09\x2A\x86\x48\x86\xF7\x0D\x01\x07\x02";
    let result = der_parser(signature, 0).unwrap();
    assert_eq!(result.size, 15);
    assert_eq!(result.description, "Object signature in DER format (PKCS#7), total size: 15 bytes");
}

#[test]
fn der_rejects_unknown_or_cut_structures() {
    assert!(der_parser(b"\x30\x82\x00\x09\x02\x01\x00\x30\x00\x04\x00\x00", 0).is_err());
    assert!(der_parser(b"\x30\x82\x00\x08\x02\x01\x01\x30\x00\x04\x00\x00", 0).is_err());
}

#[test]
fn qnx_ifs_image_size() {
    let mut data = b"\xEB\x7E\xFF\x00\x01\x00".to_vec();
    data.resize(0x40, 0);
    data[0x24] = 0x40;
    let result = qnx_ifs_parser(&data, 0).unwrap();
    assert_eq!(result.size, 64);
    assert_eq!(result.confidence, 0);
    assert_eq!(result.description, "QNX IFS image, total size: 64 bytes");
    assert!(qnx_ifs_parser(&data[..0x3F], 0).is_err());
    data[4] = 2;
    assert!(qnx_ifs_parser(&data, 0).is_err());
}

#[test]
fn qnx6_super_blocks_in_both_byte_orders() {
    let mut data = b"\x68\x19\x11\x22".to_vec();
    data.resize(0x40, 0);
    data[0x30..0x34].copy_from_slice(b"\x00\x10\x00\x00");
    data[0x3C] = 0x10;
    let result = qnx6_parser(&data, 0).unwrap();
    assert_eq!(result.size, 0);
    assert_eq!(result.description, "QNX6 file system, little endian, block size: 4096 bytes, block count: 16");
    let mut data = b"\x22\x11\x19\x68".to_vec();
    data.resize(0x40, 0);
    data[0x30..0x34].copy_from_slice(b"\x00\x00\x04\x00");
    data[0x3F] = 0x20;
    let result = qnx6_parser(&data, 0).unwrap();
    assert_eq!(result.description, "QNX6 file system, big endian, block size: 1024 bytes, block count: 32");
    data[0x32] = 0x0B;
    assert!(qnx6_parser(&data, 0).is_err());
}

#[test]
fn wince_memory_segment_toc_address() {
    let mut data = vec![0u8; 63];
    data.extend(b"\x00ECEC\x00\x10\x00\x80");
    let result = wince_memory_segment_parser(&data, 63).unwrap();
    assert_eq!(result.offset, 0);
    assert_eq!(result.size, 0);
    assert_eq!(result.description, "Windows CE memory segment header, TOC address: 0x80001000");
    assert!(wince_memory_segment_parser(b"\x00ECEC\x00\x10\x00\x80", 0).is_err());
    assert!(wince_memory_segment_parser(&data[..71], 63).is_err());
}

#[test]
fn gpg_trustdb_version_record() {
    let mut data = b"\x01gpg\x03\x03\x01\x05\x01".to_vec();
    data.resize(40, 0);
    let result = gpg_trustdb_parser(&data, 0).unwrap();
    assert_eq!(result.size, 0);
    assert_eq!(result.confidence, CONFIDENCE_MEDIUM);
    assert_eq!(result.description, "GPG key trust database, version: 3, trust model: pgp");
    data[8] = 9;
    assert!(gpg_trustdb_parser(&data, 0).is_err());
    data[8] = 0;
    data[4] = 2;
    assert!(gpg_trustdb_parser(&data, 0).is_err());
}

#[test]
fn wince_installer_counts() {
    let mut data = b"MSCE\x00\x00\x00\x00".to_vec();
    data.resize(100, 0);
    data[20..22].copy_from_slice(b"\x11\x0A");
    data[52] = 7;
    data[56] = 12;
    let result = wince_installer_parser(&data, 0).unwrap();
    assert_eq!(result.size, 0);
    assert_eq!(result.confidence, CONFIDENCE_HIGH);
    assert_eq!(
        result.description,
        "Microsoft WinCE installer, StrongARM, file count: 7, registry entry count: 12"
    );
    data[20] = 0x12;
    assert!(wince_installer_parser(&data, 0).is_err());
    assert!(wince_installer_parser(&data[..57], 0).is_err());
}

fn wince_image(checksum: u8) -> Vec<u8> {
    let mut data = b"B000FF\n\x00\x00\x00\x80\x00\x10\x00\x00".to_vec();
    data.extend(b"\x00\x10\x00\x80\x04\x00\x00\x00");
    data.extend([checksum, 0, 0, 0]);
    data.extend(b"\x01\x02\x03\x04");
    data.extend(b"\x00\x00\x00\x00\x00\x10\x00\x80\x00\x00\x00\x00");
    data
}

#[test]
fn wince_image_records() {
    let mut data = wince_image(10);
    data.extend(b"trailing");
    let result = wince_parser(&data, 0).unwrap();
    assert_eq!(result.size, 43);
    assert_eq!(result.confidence, CONFIDENCE_HIGH);
    assert_eq!(
        result.description,
        "Windows CE binary image, base address: 0x80000000, image size: 4096 bytes, file size: 43 bytes"
    );
}

#[test]
fn wince_image_needs_right_checksums_and_an_end() {
    assert!(wince_parser(&wince_image(11), 0).is_err());
    let data = wince_image(10);
    assert!(wince_parser(&data[..42], 0).is_err());
}

#[test]
fn qnx4_root_directory() {
    let mut data = b"\xEB\x10\x90\x00".to_vec();
    data.resize(0x240, 0);
    data[0x200] = b'/';
    data[0x210..0x214].copy_from_slice(b"\x00\x04\x00\x00");
    let result = qnx4_parser(&data, 0).unwrap();
    assert_eq!(result.size, 0);
    assert_eq!(result.description, "QNX4 file system, root directory size: 1024 bytes");
    data[0x201] = b'x';
    assert!(qnx4_parser(&data, 0).is_err());
    assert!(qnx4_parser(&data[..0x213], 0).is_err());
}
