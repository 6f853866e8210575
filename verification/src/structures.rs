//! The on-disk structures that signature parsers read: each a function from bytes to the fields
//! of the structure, or an error where the bytes are not one
pub mod bencode;
pub mod common;
pub mod der;
pub mod ebml;
pub mod gpg;
pub mod installshield;
pub mod iso9660;
pub mod pcap;
pub mod pe;
pub mod psx;
pub mod qnx;
pub mod rzip;
pub mod snappy;
pub mod sqlite;
pub mod stuffit;
pub mod swf;
pub mod tiff;
pub mod wince;
pub mod xar;
