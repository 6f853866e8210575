use binwalk::common::{get_cstring, is_offset_safe};
use binwalk::signatures::base64_table::{
    sercomm_table_magic, sercomm_table_parser, standard_table_magic, standard_table_parser,
};
use binwalk::signatures::common::{CONFIDENCE_HIGH, CONFIDENCE_LOW};
use binwalk::signatures::des::{
    des_pc1_magic, des_pc1_parser, des_pc2_magic, des_pc2_parser, des_sp1_magic, des_sp1_parser,
    des_sp2_magic, des_sp2_parser,
};
use binwalk::signatures::mysql::{frm_parser, isam_data_parser, isam_index_parser, misam_data_parser, misam_index_parser};
use binwalk::signatures::nagra::{nagra_constant_key_parser, nagra_pk_parser};
use binwalk::signatures::sqlite::{sqlite2_parser, sqlite3_magic};
use binwalk::signatures::xen::xen_parser;
use binwalk::signatures::zyxel_voice::zyxel_voice_parser;

#[test]
fn base64_tables() {
    let result = standard_table_parser(&[], 10).unwrap();
    assert_eq!(result.offset, 10);
    assert_eq!(result.size, 64);
    assert_eq!(result.confidence, CONFIDENCE_HIGH);
    assert_eq!(result.description, "Base64 standard index table");
    let result = sercomm_table_parser(&[], 10).unwrap();
    assert_eq!(result.size, 65);
    assert_eq!(result.size, sercomm_table_magic()[0].len());
    assert_eq!(result.description, "Base64 SerComm index table");
    assert_eq!(
        standard_table_magic(),
        vec![b"ABCDEFGHIJKLMNOPQRSTUVWXYZabcdefghijklmnopqrstuvwxyz0123456789+/".to_vec()]
    );
    assert_eq!(
        sercomm_table_magic(),
        vec![b"ACEGIKMOQSUWYBDFHJLNPRTVXZacegikmoqsuwybdfhjlnprtvxz0246813579=+/".to_vec()]
    );
}

#[test]
fn des_tables_are_their_signatures() {
    assert_eq!(des_pc1_parser(&[], 0).unwrap().size, des_pc1_magic()[0].len());
    assert_eq!(des_pc2_parser(&[], 0).unwrap().size, des_pc2_magic()[0].len());
    for magic in des_sp1_magic() {
        assert_eq!(des_sp1_parser(&[], 0).unwrap().size, magic.len());
    }
    for magic in des_sp2_magic() {
        assert_eq!(des_sp2_parser(&[], 0).unwrap().size, magic.len());
    }
    assert_eq!(des_pc1_parser(&[], 3).unwrap().description, "DES PC1 permutation table");
    assert_eq!(des_sp2_parser(&[], 3).unwrap().description, "DES SP2 table");
}

#[test]
fn des_sp_tables_in_both_byte_orders() {
    for tables in [des_sp1_magic(), des_sp2_magic()] {
        let (big, little) = (&tables[0], &tables[1]);
        for word in 0..8 {
            for byte in 0..4 {
                assert_eq!(little[4 * word + byte], big[4 * word + 3 - byte]);
            }
        }
    }
}

#[test]
fn constant_signatures() {
    assert_eq!(nagra_pk_parser(&[], 0).unwrap().description, "Nagra PK");
    assert_eq!(nagra_constant_key_parser(&[], 0).unwrap().description, "Nagra Constant_KEY");
    assert_eq!(frm_parser(&[], 0).unwrap().description, "MySQL table definition file");
    assert_eq!(misam_index_parser(&[], 0).unwrap().description, "MySQL MISAM index file");
    assert_eq!(misam_data_parser(&[], 0).unwrap().description, "MySQL MISAM compressed data file");
    assert_eq!(isam_index_parser(&[], 0).unwrap().description, "MySQL ISAM index file");
    assert_eq!(isam_data_parser(&[], 0).unwrap().confidence, CONFIDENCE_LOW);
    assert_eq!(xen_parser(&[], 2).unwrap().description, "Xen saved domain file");
    assert_eq!(zyxel_voice_parser(&[], 2).unwrap().description, "ZyXEL voice data");
    assert_eq!(sqlite2_parser(&[], 2).unwrap().description, "SQLite 2.x database");
    assert_eq!(sqlite3_magic(), vec![b"SQLite format 3\x00".to_vec()]);
}

#[test]
fn cstrings() {
    assert_eq!(get_cstring(b"abc\x00def"), "abc");
    assert_eq!(get_cstring(b"abc"), "abc");
    assert_eq!(get_cstring(b"\x00abc"), "");
    assert_eq!(get_cstring(b"\xE9t\x00"), "\u{e9}t");
}

#[test]
fn offsets_of_a_walk() {
    assert!(is_offset_safe(10, 0, None));
    assert!(is_offset_safe(10, 9, Some(3)));
    assert!(!is_offset_safe(10, 10, None));
    assert!(!is_offset_safe(10, 3, Some(3)));
    assert!(!is_offset_safe(10, 2, Some(3)));
}
