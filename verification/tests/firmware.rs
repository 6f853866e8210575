use binwalk::signatures::common::{CONFIDENCE_HIGH, CONFIDENCE_LOW};
use binwalk::signatures::ecos::{exception_handler_parser, string_reference_magic, string_reference_parser};
use binwalk::signatures::pgp::pgp_armor_parser;
use binwalk::signatures::screnc::screnc_parser;
use binwalk::signatures::vxworks::{os_version_parser, wind_kernel_parser};
use binwalk::signatures::xilinx::{xilinx_magic, xilinx_parser};

#[test]
fn ecos_exception_handler_endianness() {
    let result = exception_handler_parser(b"\x00\x68\x1A\x40", 0).unwrap();
    assert_eq!(result.description, "eCos kernel exception handler, MIPS little endian");
    let result = exception_handler_parser(b"\x40\x1A\x68\x00", 0).unwrap();
    assert_eq!(result.description, "eCos kernel exception handler, MIPS big endian");
    assert_eq!(result.confidence, CONFIDENCE_LOW);
}

#[test]
fn ecos_string_reference() {
    let data = b"\x00eCos RTOS 2.0\x00more";
    let result = string_reference_parser(data, 1).unwrap();
    assert_eq!(result.size, 13);
    assert_eq!(result.description, "eCos RTOS string reference: \"eCos RTOS 2.0\"");
    // Part of a longer word, either way round
    assert!(string_reference_parser(b"xecos\x00", 1).is_err());
    assert!(string_reference_parser(b"ecosystem\x00", 0).is_err());
    // Unprintable
    assert!(string_reference_parser(b"eCos\x01\x00", 0).is_err());
    assert_eq!(string_reference_magic().len(), 3);
}

#[test]
fn ecos_string_needs_a_terminator() {
    let mut data = b"eCos ".to_vec();
    data.extend(vec![b'a'; 200]);
    assert!(string_reference_parser(&data, 0).is_err());
    // Data that ends before a terminator holds no string reference either
    assert!(string_reference_parser(b"eCos", 0).is_err());
    let result = string_reference_parser(b"eCos\x00", 0).unwrap();
    assert_eq!(result.size, 4);
}

#[test]
fn screnc_header() {
    let result = screnc_parser(b"#@~^AAAAAA==rest", 0).unwrap();
    assert_eq!(result.description, "Windows Script encoded data");
    assert_eq!(result.size, 0);
    assert!(screnc_parser(b"#@~^AA*AAA==", 0).is_err());
    assert!(screnc_parser(b"#@~^AAAAAA=", 0).is_err());
    assert!(screnc_parser(b"#@~^AAAAAA=-", 0).is_err());
    assert!(screnc_parser(b"#@~^AAA", 0).is_err());
}

#[test]
fn wind_kernel_version() {
    let result = wind_kernel_parser(b"WIND version 2.5\x00", 0).unwrap();
    assert_eq!(result.size, 16);
    assert_eq!(result.description, "VxWorks WIND kernel version 2.5");
    assert!(wind_kernel_parser(b"WIND version \x00", 0).is_err());
    assert!(wind_kernel_parser(b"WIND vers", 0).is_err());
}

#[test]
fn vxworks_version_banner() {
    let mut data = b"VxWorks\x006.9\x00\x00\x00\x00\x00VxWorks\x00".to_vec();
    data.extend(vec![0u8; 8]);
    data.extend(b"Jan 01 2020, 12:00:00\x00".to_vec());
    let result = os_version_parser(&data, 0).unwrap();
    assert_eq!(result.size, 53);
    assert_eq!(
        result.description,
        "VxWorks operating system version: \"6.9\", compiled: \"Jan 01 2020, 12:00:00\""
    );
    assert_eq!(result.confidence, CONFIDENCE_HIGH);
    // Without a creation date
    let result = os_version_parser(&data[..30], 0).unwrap();
    assert_eq!(result.size, 32);
    assert_eq!(result.description, "VxWorks operating system version: \"6.9\"");
    // Without the second runtime name
    assert!(os_version_parser(&data[..20], 0).is_err());
    // A version that fills its field
    let long = b"VxWorks\x0012345678VxWorks\x00";
    assert!(os_version_parser(long, 0).is_err());
}

#[test]
fn xilinx_dummy_words() {
    let data = b"\x00\xFF\xFF\xFF\xFF\xFF\xFF\xFF\xFF\xFF\xFF\xFF\xFF\xAA\x99\x55\x66";
    let result = xilinx_parser(data, 9).unwrap();
    assert_eq!(result.offset, 1);
    assert_eq!(
        result.description,
        "Xilinx Virtex/Spartan FPGA bitstream, 3 dummy words before the sync word"
    );
    let result = xilinx_parser(b"\xFF\xFF\xFF\xFF\xAA\x99\x55\x66", 0).unwrap();
    assert_eq!(result.offset, 0);
    assert_eq!(
        result.description,
        "Xilinx Virtex/Spartan FPGA bitstream, 1 dummy words before the sync word"
    );
    assert_eq!(xilinx_magic(), vec![b"\xFF\xFF\xFF\xFF\xAA\x99\x55\x66".to_vec()]);
}

#[test]
fn pgp_public_key_block() {
    let data = b"junk-----BEGIN PGP PUBLIC KEY BLOCK-----\n\nmQINBF\n-----END PGP PUBLIC KEY BLOCK-----\r\n\r\nafter";
    let result = pgp_armor_parser(data, 4).unwrap();
    let expected_size = data.len() - 4 - 5;
    assert_eq!(result.size, expected_size);
    assert_eq!(
        result.description,
        format!(
            "PGP armored data, type: \"PGP PUBLIC KEY BLOCK\", total size: {} bytes",
            expected_size
        )
    );
}

#[test]
fn pgp_cleartext_signature() {
    let data = b"-----BEGIN PGP SIGNED MESSAGE-----\nHash: SHA256\n\nhello\n-----BEGIN PGP SIGNATURE-----\nabc\n-----END PGP SIGNATURE-----";
    let result = pgp_armor_parser(data, 0).unwrap();
    assert_eq!(result.size, data.len());
    assert_eq!(
        result.description,
        format!(
            "PGP armored data, type: \"PGP SIGNED MESSAGE\", total size: {} bytes",
            data.len()
        )
    );
}

#[test]
fn pgp_rejects_bad_armor() {
    // No tail marker
    assert!(pgp_armor_parser(b"-----BEGIN PGP MESSAGE-----\nabc\n", 0).is_err());
    // Lower case type
    assert!(pgp_armor_parser(b"-----BEGIN PGP message-----\n-----END PGP message-----", 0).is_err());
    // Header line that is not UTF-8
    assert!(pgp_armor_parser(b"-----BEGIN PGP MESSAGE-----\n\xFF\n-----END PGP MESSAGE-----", 0).is_err());
    // Too short for a header
    assert!(pgp_armor_parser(b"-----BEGIN", 0).is_err());
}

#[test]
fn pgp_multi_part_message() {
    let data = b"-----BEGIN PGP MESSAGE, PART 1/2-----\nabc\n-----END PGP MESSAGE, PART 1/2-----\n";
    let result = pgp_armor_parser(data, 0).unwrap();
    assert_eq!(result.size, data.len());
}
