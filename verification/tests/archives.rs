use binwalk::signatures::afx::{afx_magic, afx_parser};
use binwalk::signatures::arj_jar::{arj_jar_magic, arj_jar_parser, arj_jar_sfx_magic, arj_jar_sfx_parser};
use binwalk::signatures::common::{CONFIDENCE_HIGH, CONFIDENCE_LOW, CONFIDENCE_MEDIUM};
use binwalk::signatures::iriver::{iriver_magic, iriver_parser};
use binwalk::signatures::kgb::{kgb_magic, kgb_parser};
use binwalk::signatures::legacy_archives::{
    borg_magic, borg_parser, bsa_magic, bsa_parser, hpack_magic, hpack_parser, jam_magic,
    jam_parser, lbr_magic, lbr_parser, parity_magic, parity_parser,
};
use binwalk::signatures::mcrypt::{mcrypt22_magic, mcrypt22_parser, mcrypt25_magic, mcrypt25_parser};
use binwalk::signatures::stuffit::{stuffit_magic, stuffit_segment_magic, stuffit_segment_parser};
use binwalk::signatures::tar_snapshot::{tar_snapshot_magic, tar_snapshot_parser};

#[test]
fn afx_starts_before_the_signature() {
    let data = b"\x00\x00-afx data";
    let result = afx_parser(data, 2).unwrap();
    assert_eq!(result.offset, 0);
    assert_eq!(result.size, 0);
    assert_eq!(result.confidence, CONFIDENCE_LOW);
    assert_eq!(result.description, "AFX compressed data");
    assert!(afx_parser(data, 1).is_err());
    assert!(afx_parser(data, data.len() + 1).is_err());
    assert_eq!(afx_magic(), vec![b"-afx".to_vec()]);
}

#[test]
fn arj_jar_archives() {
    let result = arj_jar_parser(&[], 20).unwrap();
    assert_eq!(result.offset, 6);
    assert_eq!(result.description, "JAR archive (ARJ Software)");
    assert_eq!(result.confidence, CONFIDENCE_MEDIUM);
    assert!(arj_jar_parser(&[], 13).is_err());
    let result = arj_jar_sfx_parser(&[], 3).unwrap();
    assert_eq!(result.offset, 3);
    assert_eq!(result.confidence, CONFIDENCE_LOW);
    assert_eq!(result.description, "JAR archive (ARJ Software), self extracting");
    assert_eq!(arj_jar_magic(), vec![b"\x1AJar\x1B".to_vec()]);
    assert_eq!(arj_jar_sfx_magic(), vec![b"JARCS".to_vec()]);
}

#[test]
fn kgb_version_is_trimmed() {
    let data = b"KGB_arch - 1.2.3 \x00\x00";
    let result = kgb_parser(data, 0).unwrap();
    assert_eq!(result.description, "KGB archive, version: 1.2.3");
    assert_eq!(result.size, 0);
    assert!(kgb_parser(b"KGB_arch -   \x00", 0).is_err());
    assert!(kgb_parser(b"KGB_arch -", 0).is_err());
    assert!(kgb_parser(b"KGB_arch", 0).is_err());
    assert_eq!(kgb_magic(), vec![b"KGB_arch -".to_vec()]);
}

#[test]
fn kgb_version_is_bounded() {
    let data = b"KGB_arch -ABCDEFGHIJKLMNOPQRSTUVWXYZ";
    let result = kgb_parser(data, 0).unwrap();
    assert_eq!(result.description, "KGB archive, version: ABCDEFGHIJKLMNOP");
}

#[test]
fn iriver_name() {
    let data = b"iRivDBMusic  DB\x00\x01\x02";
    let result = iriver_parser(data, 0).unwrap();
    assert_eq!(result.description, "iRiver database file, name: \"Music  DB\"");
    assert!(iriver_parser(b"iRivDB\x00name", 0).is_err());
    assert!(iriver_parser(b"iRivD", 0).is_err());
    assert_eq!(iriver_magic(), vec![b"iRivDB".to_vec()]);
}

#[test]
fn legacy_archives() {
    assert_eq!(hpack_parser(&[], 5).unwrap().description, "HPACK archive");
    assert_eq!(jam_parser(&[], 5).unwrap().confidence, CONFIDENCE_MEDIUM);
    assert_eq!(parity_parser(&[], 5).unwrap().description, "PARity archive");
    assert_eq!(borg_parser(&[], 5).unwrap().description, "Borg backup archive segment");
    assert_eq!(lbr_parser(&[], 5).unwrap().description, "LBR archive");
    let result = bsa_parser(b"BSA\x00\x67\x00\x00\x00", 0).unwrap();
    assert_eq!(result.description, "BSA archive, version: 103");
    assert!(bsa_parser(b"BSA\x00", 0).is_err());
    assert_eq!(hpack_magic(), vec![b"HPAK".to_vec()]);
    assert_eq!(jam_magic(), vec![b"\xE9\x2C\x01JAM".to_vec()]);
    assert_eq!(parity_magic(), vec![b"PAR\x00".to_vec()]);
    assert_eq!(borg_magic(), vec![b"BORG_SEG".to_vec()]);
    assert_eq!(bsa_magic().len(), 2);
    assert_eq!(lbr_magic(), vec![b"\x00           ".to_vec()]);
}

#[test]
fn mcrypt25_algorithm() {
    let data = b"\x00m\x03\x00\x0Crijndael-128rest";
    let result = mcrypt25_parser(data, 0).unwrap();
    assert_eq!(result.description, "mcrypt 2.5 encrypted data, algorithm: \"rijndael-128\"");
    assert_eq!(result.size, 0);
    // Undefined flags, empty and unprintable names, and a name past the end of the data
    assert!(mcrypt25_parser(b"\x00m\x03\x02\x0Crijndael-128", 0).is_err());
    assert!(mcrypt25_parser(b"\x00m\x03\x00\x00rijndael-128", 0).is_err());
    assert!(mcrypt25_parser(b"\x00m\x03\x00\x05ab cd", 0).is_err());
    assert!(mcrypt25_parser(b"\x00m\x03\x00\x0Crijndael", 0).is_err());
    assert!(mcrypt25_parser(b"\x00m\x03\x00\x21rijndael-128", 0).is_err());
    let result = mcrypt22_parser(&[], 0).unwrap();
    assert_eq!(result.description, "mcrypt 2.2 encrypted data");
    assert_eq!(mcrypt25_magic(), vec![b"\x00m\x03".to_vec()]);
    assert_eq!(mcrypt22_magic(), vec![b"\x00m\x02".to_vec()]);
}

#[test]
fn stuffit_segments() {
    let result = stuffit_segment_parser(&[], 7).unwrap();
    assert_eq!(result.offset, 7);
    assert_eq!(result.description, "StuffIt Deluxe segment");
    assert_eq!(stuffit_magic().len(), 3);
    assert_eq!(stuffit_segment_magic(), vec![b"Sef".to_vec()]);
}

#[test]
fn tar_snapshot_header_line() {
    let data = b"GNU tar-1.35-2\n0\n";
    let result = tar_snapshot_parser(data, 0).unwrap();
    assert_eq!(
        result.description,
        "GNU tar incremental snapshot, written by GNU tar-1.35, snapshot format: 2"
    );
    assert_eq!(result.confidence, CONFIDENCE_HIGH);
    let result = tar_snapshot_parser(b"GNU tar-1.35-+01\n", 0).unwrap();
    assert_eq!(
        result.description,
        "GNU tar incremental snapshot, written by GNU tar-1.35, snapshot format: 1"
    );
    // A newer format, no format at all, no newline and unprintable text
    assert!(tar_snapshot_parser(b"GNU tar-1.35-3\n", 0).is_err());
    assert!(tar_snapshot_parser(b"GNU tar-1.35-\n", 0).is_err());
    assert!(tar_snapshot_parser(b"GNU tar-1.35-2", 0).is_err());
    assert!(tar_snapshot_parser(b"GNU tar-1.\x0135-2\n", 0).is_err());
    assert!(tar_snapshot_parser(b"GNU tar-1.35-99999999999999999999999\n", 0).is_err());
    assert_eq!(tar_snapshot_magic(), vec![b"GNU tar-".to_vec()]);
}
