//! SQLite 3 database headers: a one hundred byte header at the start of the first page
use crate::structures::common::{pattern_at, read_u16, read_u32, u16_at, u32_at, Endianness};
use crate::text::matches_at;
use vstd::prelude::*;

verus! {

/// The database header is one hundred bytes long
pub const SQLITE3_HEADER_SIZE: usize = 100;

/// "SQLite format 3" and a NULL byte
pub open spec fn sqlite3_magic_bytes() -> Seq<u8> {
    seq![
        0x53u8, 0x51, 0x4C, 0x69, 0x74, 0x65, 0x20, 0x66, 0x6F, 0x72, 0x6D, 0x61, 0x74, 0x20, 0x33,
        0x00,
    ]
}

/// A page size field is a power of two from 512 to 32768, or 1, which stands for 65536
pub open spec fn page_size_of(field: nat) -> Option<nat> {
    if field == 1 {
        Some(65536)
    } else if field == 512 || field == 1024 || field == 2048 || field == 4096 || field == 8192
        || field == 16384 || field == 32768 {
        Some(field)
    } else {
        None
    }
}

/// The fields of the header that give the size of the database
pub struct SQLite3Header {
    pub page_size: u64,
    pub page_count: u64,
}

/// The header at the start of `data`, where the data holds one
pub open spec fn sqlite3_header(data: Seq<u8>) -> Option<SQLite3Header> {
    if data.len() >= SQLITE3_HEADER_SIZE && matches_at(data, sqlite3_magic_bytes(), 0) {
        match page_size_of(u16_at(data, 16, Endianness::Big)) {
            Some(page_size) => Some(
                SQLite3Header {
                    page_size: page_size as u64,
                    page_count: u32_at(data, 28, Endianness::Big) as u64,
                },
            ),
            None => None,
        }
    } else {
        None
    }
}

/// Parses the header at the start of `sqlite_data`
pub fn parse_sqlite3_header(sqlite_data: &[u8]) -> (result: Result<SQLite3Header, ()>)
    ensures
        result is Ok <==> sqlite3_header(sqlite_data@) is Some,
        result matches Ok(header) ==> sqlite3_header(sqlite_data@) == Some(header),
        result matches Ok(header) ==> header.page_size <= 65536 && header.page_count <= u32::MAX,
{
    let magic = vec![
        0x53u8, 0x51, 0x4C, 0x69, 0x74, 0x65, 0x20, 0x66, 0x6F, 0x72, 0x6D, 0x61, 0x74, 0x20, 0x33,
        0x00,
    ];
    if sqlite_data.len() < SQLITE3_HEADER_SIZE || !pattern_at(sqlite_data, magic.as_slice(), 0) {
        return Err(());
    }
    let field = read_u16(sqlite_data, 16, Endianness::Big);
    let page_size: u64 = if field == 1 {
        65536
    } else if field == 512 || field == 1024 || field == 2048 || field == 4096 || field == 8192
        || field == 16384 || field == 32768 {
        field as u64
    } else {
        return Err(());
    };
    let page_count = read_u32(sqlite_data, 28, Endianness::Big) as u64;
    Ok(SQLite3Header { page_size, page_count })
}

} // verus!
