use binwalk::signatures::bittorrent::bittorrent_parser;
use binwalk::signatures::ebml::ebml_parser;
use binwalk::signatures::iso9660::{iso_boot_record_parser, iso_parser};
use binwalk::signatures::pcap::{libpcap_parser, pcapng_parser};
use binwalk::signatures::snappy::snappy_parser;

fn snappy_identifier() -> Vec<u8> {
    b"\xFF\x06\x00\x00sNaPpY".to_vec()
}

#[test]
fn snappy_stream_walks_chunks() {
    let mut data = b"junk".to_vec();
    data.extend(snappy_identifier());
    data.extend(b"\x00\x05\x00\x00\x01\x02\x03\x04\x05");
    data.extend(b"\x05\x00\x00\x00");
    let result = snappy_parser(&data, 4).unwrap();
    assert_eq!(result.offset, 4);
    assert_eq!(result.size, 19);
    assert_eq!(result.description, "Snappy compressed data, chunk count: 2, total size: 19 bytes");
}

#[test]
fn snappy_stream_leaves_out_a_truncated_chunk() {
    let mut data = snappy_identifier();
    data.extend(b"\x01\x10\x00\x00\x01\x02");
    let result = snappy_parser(&data, 0).unwrap();
    assert_eq!(result.size, 10);
    assert_eq!(result.description, "Snappy compressed data, chunk count: 1, total size: 10 bytes");
}

#[test]
fn snappy_stream_needs_a_chunk() {
    assert!(snappy_parser(b"\xFF\x07\x00\x00sNaPpY!", 0).is_err());
    assert!(snappy_parser(b"\x00\x02\x00\x00ab", 0).is_err());
    assert!(snappy_parser(b"", 0).is_err());
}

fn le_capture_header() -> Vec<u8> {
    let mut data = b"\xD4\xC3\xB2\xA1\x02\x00\x04\x00".to_vec();
    data.extend([0u8; 8]);
    data.extend(b"\xFF\xFF\x00\x00\x01\x00\x00\x00");
    data
}

#[test]
fn libpcap_capture_little_endian() {
    let mut data = le_capture_header();
    data.extend([0u8; 8]);
    data.extend(b"\x04\x00\x00\x00\x04\x00\x00\x00abcd");
    data.extend([0u8; 8]);
    data.extend(b"\x64\x00\x00\x00\x64\x00\x00\x00abc");
    let result = libpcap_parser(&data, 0).unwrap();
    assert_eq!(result.offset, 0);
    assert_eq!(result.size, 44);
    assert_eq!(
        result.description,
        "Libpcap capture file, little endian, version: 2.4, microsecond timestamps, link type: 1, snap length: 65535, total size: 44 bytes"
    );
}

#[test]
fn libpcap_capture_big_endian_nanoseconds() {
    let mut data = b"xx\xA1\xB2\x3C\x4D\x00\x02\x00\x04".to_vec();
    data.extend([0u8; 8]);
    data.extend(b"\x00\x00\x00\x10\x00\x00\x00\x71");
    // A record that captured more than the snap length allows ends the walk
    data.extend([0u8; 8]);
    data.extend(b"\x00\x00\x00\x20\x00\x00\x00\x20");
    data.extend([0u8; 32]);
    let result = libpcap_parser(&data, 2).unwrap();
    assert_eq!(result.offset, 2);
    assert_eq!(result.size, 24);
    assert_eq!(
        result.description,
        "Libpcap capture file, big endian, version: 2.4, nanosecond timestamps, link type: 113, snap length: 16, total size: 24 bytes"
    );
}

#[test]
fn libpcap_capture_rejects_bad_headers() {
    let mut data = le_capture_header();
    data[4] = 3;
    assert!(libpcap_parser(&data, 0).is_err());
    let mut data = le_capture_header();
    data[6] = 5;
    assert!(libpcap_parser(&data, 0).is_err());
    let data = le_capture_header();
    assert!(libpcap_parser(&data[..20], 0).is_err());
    let mut data = le_capture_header();
    data[0] = 0xD5;
    assert!(libpcap_parser(&data, 0).is_err());
}

fn iso_image(boot_identifier: &[u8], with_primary: bool) -> Vec<u8> {
    let mut data = vec![0u8; 0x8000 + 3 * 2048];
    data[0x8000..0x8007].copy_from_slice(b"\x00CD001\x01");
    data[0x8007..0x8007 + boot_identifier.len()].copy_from_slice(boot_identifier);
    if with_primary {
        data[0x8800..0x8808].copy_from_slice(b"\x01CD001\x01\x00");
        data[0x8800 + 80..0x8800 + 88].copy_from_slice(b"\x64\x00\x00\x00\x00\x00\x00\x64");
        data[0x8800 + 128..0x8800 + 132].copy_from_slice(b"\x00\x08\x08\x00");
        data[0x9000..0x9007].copy_from_slice(b"\xFFCD001\x01");
    } else {
        data[0x8800..0x8807].copy_from_slice(b"\xFFCD001\x01");
    }
    data
}

#[test]
fn iso_boot_record_with_primary_volume() {
    let data = iso_image(b"EL TORITO SPECIFICATION   ", true);
    let result = iso_boot_record_parser(&data, 0x8000).unwrap();
    assert_eq!(result.offset, 0);
    assert_eq!(result.size, 204800);
    assert_eq!(
        result.description,
        "ISO9660 boot record, boot system identifier: \"EL TORITO SPECIFICATION\", total size: 204800 bytes"
    );
}

#[test]
fn iso_boot_record_without_primary_volume() {
    let data = iso_image(b"", false);
    let result = iso_boot_record_parser(&data, 0x8000).unwrap();
    assert_eq!(result.size, 0);
    assert_eq!(result.description, "ISO9660 boot record");
}

#[test]
fn iso_boot_record_must_start_the_set() {
    let data = iso_image(b"EL TORITO SPECIFICATION", true);
    assert!(iso_boot_record_parser(&data, 0x7FFF).is_err());
    let mut data = iso_image(b"EL TORITO SPECIFICATION", true);
    data[0x7800..0x7807].copy_from_slice(b"\x01CD001\x01");
    assert!(iso_boot_record_parser(&data, 0x8000).is_err());
    let data = iso_image(b"EL\x01TORITO", true);
    assert!(iso_boot_record_parser(&data, 0x8000).is_err());
}

#[test]
fn iso_primary_volume() {
    let mut data = vec![0u8; 0x800];
    data.extend(iso_image(b"", true));
    // The primary volume descriptor sits a sector after the start of the descriptor set
    let result = iso_parser(&data, 0x9000).unwrap();
    assert_eq!(result.offset, 0x1000);
    assert_eq!(result.size, 204800);
    assert_eq!(result.description, "ISO9660 primary volume, total size: 204800 bytes");
    assert!(iso_parser(&data, 0x7000).is_err());
    let mut bad = data.clone();
    bad[0x9000 + 84] = 1;
    assert!(iso_parser(&bad, 0x9000).is_err());
}

#[test]
fn bittorrent_dictionary_size() {
    let data = b"..d8:announce3:url4:infod4:name1:aeexyz";
    let result = bittorrent_parser(data, 2).unwrap();
    assert_eq!(result.offset, 2);
    assert_eq!(result.size, 34);
    assert_eq!(result.description, "BitTorrent file, total size: 34 bytes");
    // Cutting the data right after the torrent leaves it as it was
    assert_eq!(bittorrent_parser(&data[..36], 2).unwrap().size, 34);
    assert!(bittorrent_parser(&data[..35], 2).is_err());
    let result = bittorrent_parser(b"d8:announcei-42e4:listl1:ai7eeee", 0).unwrap();
    assert_eq!(result.size, 31);
    // A dictionary key has to be a byte string
    assert!(bittorrent_parser(b"d8:announcei-42el1:ai7eee", 0).is_err());
}

#[test]
fn bittorrent_rejects_broken_values() {
    assert!(bittorrent_parser(b"d8:announce3:url", 0).is_err());
    assert!(bittorrent_parser(b"d8:announce9:urle", 0).is_err());
    assert!(bittorrent_parser(b"d8:announcei1ei2ee", 0).is_err());
    assert!(bittorrent_parser(b"d8:announceiee", 0).is_err());
    assert!(bittorrent_parser(b"d8:announcex", 0).is_err());
}

fn ebml_children(doc_type: &[u8]) -> Vec<u8> {
    let mut children = b"\x42\x86\x81\x01\x42\x82".to_vec();
    children.push(0x80 | doc_type.len() as u8);
    children.extend(doc_type);
    children.extend(b"\x42\x87\x81\x04");
    children
}

#[test]
fn ebml_header_doc_type() {
    let children = ebml_children(b"matroska");
    let mut data = b"\x1A\x45\xDF\xA3".to_vec();
    data.push(0x80 | children.len() as u8);
    data.extend(&children);
    data.extend(b"\x18\x53\x80\x67segment");
    let result = ebml_parser(&data, 0).unwrap();
    assert_eq!(result.size, 0);
    assert_eq!(result.description, "EBML data, doc type: \"matroska\", header size: 24 bytes");
    // The size of the header may take more than one byte
    let mut data = b"\x1A\x45\xDF\xA3\x40".to_vec();
    data.push(children.len() as u8);
    data.extend(&children);
    let result = ebml_parser(&data, 0).unwrap();
    assert_eq!(result.description, "EBML data, doc type: \"matroska\", header size: 25 bytes");
}

#[test]
fn ebml_header_needs_a_doc_type() {
    let mut data = b"\x1A\x45\xDF\xA3\x84\x42\x86\x81\x01".to_vec();
    assert!(ebml_parser(&data, 0).is_err());
    data = b"\x1A\x45\xDF\xA3\x90\x42\x86\x81\x01".to_vec();
    assert!(ebml_parser(&data, 0).is_err());
    let children = ebml_children(b"web\x01");
    let mut data = b"\x1A\x45\xDF\xA3".to_vec();
    data.push(0x80 | children.len() as u8);
    data.extend(&children);
    assert!(ebml_parser(&data, 0).is_err());
}

fn pcapng_capture() -> Vec<u8> {
    let mut data = b"\x0A\x0D\x0D\x0A\x1C\x00\x00\x00\x4D\x3C\x2B\x1A\x01\x00\x00\x00".to_vec();
    data.extend([0xFFu8; 8]);
    data.extend(b"\x1C\x00\x00\x00");
    data.extend(b"\x01\x00\x00\x00\x14\x00\x00\x00\x01\x00\x00\x00\x00\x00\x04\x00\x14\x00\x00\x00");
    data
}

#[test]
fn pcapng_whole_file_is_not_carved() {
    let data = pcapng_capture();
    let result = pcapng_parser(&data, 0).unwrap();
    assert_eq!(result.size, 48);
    assert!(result.extraction_declined);
    assert_eq!(result.description, "Pcap-NG capture file, total size: 48 bytes");
}

#[test]
fn pcapng_capture_inside_a_file() {
    let mut data = b"..".to_vec();
    data.extend(pcapng_capture());
    data.extend(b"\x02\x00\x00\x00\x40\x00\x00\x00abcd");
    let result = pcapng_parser(&data, 2).unwrap();
    assert_eq!(result.offset, 2);
    assert_eq!(result.size, 48);
    assert!(!result.extraction_declined);
    let mut big = b"\x0A\x0D\x0D\x0A\x00\x00\x00\x1C\x1A\x2B\x3C\x4D\x00\x01\x00\x00".to_vec();
    big.extend([0xFFu8; 8]);
    big.extend(b"\x00\x00\x00\x1C");
    big.extend(b"xx");
    let result = pcapng_parser(&big, 0).unwrap();
    assert_eq!(result.size, 28);
    assert!(!result.extraction_declined);
}

#[test]
fn pcapng_needs_a_whole_section_header() {
    let mut data = pcapng_capture();
    data[24] = 0x20;
    assert!(pcapng_parser(&data, 0).is_err());
    let mut data = pcapng_capture();
    data[8] = 0x4E;
    assert!(pcapng_parser(&data, 0).is_err());
    assert!(pcapng_parser(&pcapng_capture()[..27], 0).is_err());
}

#[test]
fn iso_boot_record_after_primary_volume_belongs_to_it() {
    let mut data = vec![0u8; 0x8000 + 3 * 2048];
    data[0x8000..0x8008].copy_from_slice(b"\x01CD001\x01\x00");
    data[0x8000 + 80..0x8000 + 88].copy_from_slice(b"\x64\x00\x00\x00\x00\x00\x00\x64");
    data[0x8000 + 128..0x8000 + 132].copy_from_slice(b"\x00\x08\x08\x00");
    data[0x8800..0x8807].copy_from_slice(b"\x00CD001\x01");
    data[0x8807..0x8810].copy_from_slice(b"EL TORITO");
    assert_eq!(iso_parser(&data, 0x8000).unwrap().offset, 0);
    assert!(iso_boot_record_parser(&data, 0x8800).is_err());
}
