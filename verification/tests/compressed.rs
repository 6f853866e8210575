use binwalk::signatures::lrzip::{lrzip_magic, lrzip_parser};
use binwalk::signatures::lzip::{lzip_magic, lzip_parser};
use binwalk::signatures::lzma::lzma_magic;
use binwalk::signatures::lzma_new::{lzma_new_magic, lzma_new_parser};
use binwalk::signatures::pack200::{pack200_magic, pack200_parser};
use binwalk::signatures::common::{CONFIDENCE_MEDIUM};

#[test]
fn lzip_smallest_dictionary() {
    let data: Vec<u8> = vec![0x4C, 0x5A, 0x49, 0x50, 0x01, 0x0C];
    let result = lzip_parser(&data, 0).unwrap();
    assert_eq!(result.offset, 0);
    assert_eq!(result.size, 0);
    assert_eq!(result.confidence, CONFIDENCE_MEDIUM);
    assert_eq!(
        result.description,
        "lzip compressed data, version: 1, dictionary size: 4096 bytes"
    );
}

#[test]
fn lzip_dictionary_less_a_fraction() {
    // Base 2^20, less 3/16 of it
    let data: Vec<u8> = vec![0x00, 0x4C, 0x5A, 0x49, 0x50, 0x01, 0x74];
    let result = lzip_parser(&data, 1).unwrap();
    assert_eq!(result.offset, 1);
    assert_eq!(
        result.description,
        "lzip compressed data, version: 1, dictionary size: 851968 bytes"
    );
}

#[test]
fn lzip_rejects_bad_headers() {
    // Unknown version
    assert!(lzip_parser(&[0x4C, 0x5A, 0x49, 0x50, 0x02, 0x0C], 0).is_err());
    // Dictionary base below and above the range
    assert!(lzip_parser(&[0x4C, 0x5A, 0x49, 0x50, 0x01, 0x0B], 0).is_err());
    assert!(lzip_parser(&[0x4C, 0x5A, 0x49, 0x50, 0x01, 0x1E], 0).is_err());
    // Truncated
    assert!(lzip_parser(&[0x4C, 0x5A, 0x49, 0x50, 0x01], 0).is_err());
}

#[test]
fn lzip_largest_dictionary() {
    let result = lzip_parser(&[0x4C, 0x5A, 0x49, 0x50, 0x01, 0x1D], 0).unwrap();
    assert_eq!(
        result.description,
        "lzip compressed data, version: 1, dictionary size: 536870912 bytes"
    );
}

#[test]
fn lrzip_versions() {
    let result = lrzip_parser(&[0x4C, 0x52, 0x5A, 0x49, 0x00, 0x06], 0).unwrap();
    assert_eq!(result.description, "lrzip compressed data, version: 0.6");
    assert_eq!(result.size, 0);
    assert!(lrzip_parser(&[0x4C, 0x52, 0x5A, 0x49, 0x02, 0x06], 0).is_err());
    assert!(lrzip_parser(&[0x4C, 0x52, 0x5A, 0x49, 0x01, 0x15], 0).is_err());
    assert!(lrzip_parser(&[0x4C, 0x52, 0x5A, 0x49, 0x01], 0).is_err());
}

#[test]
fn lzma_new_properties() {
    let mut data: Vec<u8> = vec![0xFF, 0x4C, 0x5A, 0x4D, 0x41, 0x00, 0x5D];
    let result = lzma_new_parser(&data, 0).unwrap();
    assert_eq!(
        result.description,
        "LZMA compressed data, alternative header, properties: 0x5D"
    );
    data[6] = 0x05;
    let result = lzma_new_parser(&data, 0).unwrap();
    assert_eq!(
        result.description,
        "LZMA compressed data, alternative header, properties: 0x05"
    );
    data[6] = 225;
    assert!(lzma_new_parser(&data, 0).is_err());
    assert!(lzma_new_parser(&data[..6], 0).is_err());
}

#[test]
fn pack200_versions() {
    let result = pack200_parser(&[0xCA, 0xFE, 0xD0, 0x0D, 0x07, 0x96], 0).unwrap();
    assert_eq!(
        result.description,
        "JAR archive compressed with pack200, version: 150.7"
    );
    assert!(pack200_parser(&[0xCA, 0xFE, 0xD0, 0x0D, 0x08, 0x96], 0).is_err());
    assert!(pack200_parser(&[0xCA, 0xFE, 0xD0, 0x0D, 0x07, 0x97], 0).is_err());
    assert!(pack200_parser(&[0xCA, 0xFE, 0xD0, 0x0D, 0x07], 0).is_err());
}

#[test]
fn compressed_magics() {
    assert_eq!(lzip_magic(), vec![b"LZIP".to_vec()]);
    assert_eq!(lrzip_magic(), vec![b"LRZI".to_vec()]);
    assert_eq!(lzma_new_magic(), vec![b"\xFFLZMA\x00".to_vec()]);
    assert_eq!(pack200_magic(), vec![b"\xCA\xFE\xD0\x0D".to_vec()]);
}

#[test]
fn lzma_magic_combinations() {
    let magics = lzma_magic();
    assert_eq!(magics.len(), 46 * 12);
    assert_eq!(magics[0], vec![0x51, 0x00, 0x00, 0x00, 0x10]);
    assert_eq!(magics[1], vec![0x51, 0x00, 0x00, 0x00, 0x20]);
    assert_eq!(magics[11], vec![0x51, 0x00, 0x00, 0x01, 0x00]);
    assert_eq!(magics[12 * 4 + 5], vec![0x5D, 0x00, 0x00, 0x80, 0x00]);
    assert_eq!(magics[46 * 12 - 1], vec![0xD8, 0x00, 0x00, 0x01, 0x00]);
    for magic in &magics {
        assert_eq!(magic.len(), 5);
    }
    // No signature appears twice
    let mut sorted = magics.clone();
    sorted.sort();
    sorted.dedup();
    assert_eq!(sorted.len(), magics.len());
}
