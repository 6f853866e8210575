//! One module per file format: the magic bytes that a search looks for, and the parser that
//! decides whether a match of them is that format.
pub mod common;
pub mod afx;
pub mod arj_jar;
pub mod base64_table;
pub mod bittorrent;
pub mod console;
pub mod der;
pub mod des;
pub mod ebml;
pub mod ecos;
pub mod gpg;
pub mod installshield;
pub mod iriver;
pub mod iso9660;
pub mod kgb;
pub mod legacy_archives;
pub mod lrzip;
pub mod lzip;
pub mod lzma;
pub mod lzma_new;
pub mod mcrypt;
pub mod mysql;
pub mod nagra;
pub mod pack200;
pub mod pcap;
pub mod pe;
pub mod pgp;
pub mod psx;
pub mod qnx;
pub mod rtk;
pub mod rzip;
pub mod samsung_toc;
pub mod screnc;
pub mod snappy;
pub mod sqlite;
pub mod stuffit;
pub mod swf;
pub mod tar_snapshot;
pub mod tiff;
pub mod vxworks;
pub mod wince;
pub mod xar;
pub mod xen;
pub mod xilinx;
pub mod zyxel_voice;
