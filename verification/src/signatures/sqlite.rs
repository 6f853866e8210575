//! SQLite databases
use crate::signatures::common::{
    magics_are, SignatureError, SignatureResult, CONFIDENCE_HIGH, CONFIDENCE_MEDIUM,
};
use crate::structures::sqlite::{parse_sqlite3_header, sqlite3_header, SQLite3Header};
use crate::text::{dec, push_dec};
use vstd::prelude::*;
use vstd::slice::slice_subrange;
use vstd::string::StringExecFns;

verus! {

/// Human readable descriptions
pub const V3_DESCRIPTION: &'static str = "SQLite 3.x database";

pub const V2_DESCRIPTION: &'static str = "SQLite 2.x database";

/// SQLite 3 databases start with this
pub fn sqlite3_magic() -> (magics: Vec<Vec<u8>>)
    ensures
        magics_are(magics, seq![seq![
            0x53u8, 0x51, 0x4C, 0x69, 0x74, 0x65, 0x20, 0x66, 0x6F, 0x72, 0x6D, 0x61, 0x74, 0x20,
            0x33, 0x00,
        ]]),
{
    vec![vec![
        0x53, 0x51, 0x4C, 0x69, 0x74, 0x65, 0x20, 0x66, 0x6F, 0x72, 0x6D, 0x61, 0x74, 0x20, 0x33,
        0x00,
    ]]
}

/// SQLite 2 databases start with this text
pub fn sqlite2_magic() -> (magics: Vec<Vec<u8>>)
    ensures
        magics_are(magics, seq![seq![
            0x2Au8, 0x2A, 0x20, 0x54, 0x68, 0x69, 0x73, 0x20, 0x66, 0x69, 0x6C, 0x65, 0x20, 0x63,
            0x6F, 0x6E, 0x74, 0x61, 0x69, 0x6E, 0x73, 0x20, 0x61, 0x6E, 0x20, 0x53, 0x51, 0x4C,
            0x69, 0x74, 0x65,
        ]]),
{
    vec![vec![
        0x2A, 0x2A, 0x20, 0x54, 0x68, 0x69, 0x73, 0x20, 0x66, 0x69, 0x6C, 0x65, 0x20, 0x63, 0x6F,
        0x6E, 0x74, 0x61, 0x69, 0x6E, 0x73, 0x20, 0x61, 0x6E, 0x20, 0x53, 0x51, 0x4C, 0x69, 0x74,
        0x65,
    ]]
}

/// The size of the database that the header describes: its pages
pub open spec fn database_size(header: SQLite3Header) -> int {
    header.page_size * header.page_count
}

/// How a database is described
pub open spec fn sqlite3_description(header: SQLite3Header) -> Seq<char> {
    V3_DESCRIPTION@ + ", page size: "@ + dec(header.page_size as nat) + " bytes, page count: "@
        + dec(header.page_count as nat) + ", total size: "@ + dec(database_size(header) as nat)
        + " bytes"@
}

/// Validate a SQLite 3 database signature
///
/// The header records how many pages the database has, but that count is only current if the
/// file has not been written by an older library, so it is only trusted when the pages it
/// describes are actually there.
pub fn sqlite3_parser(file_data: &[u8], offset: usize) -> (result: Result<
    SignatureResult,
    SignatureError,
>)
    requires
        offset <= file_data.len(),
    ensures
        result is Ok <==> sqlite3_header(file_data@.subrange(offset as int, file_data.len() as int))
            is Some,
        result matches Ok(r) ==> {
            let header = sqlite3_header(
                file_data@.subrange(offset as int, file_data.len() as int),
            )->0;
            r.describes(
                offset as int,
                if database_size(header) <= file_data.len() - offset {
                    database_size(header)
                } else {
                    0
                },
                sqlite3_description(header),
                CONFIDENCE_HIGH,
            )
        },
{
    let available_data = file_data.len() - offset;
    let sqlite_data = slice_subrange(file_data, offset, file_data.len());
    match parse_sqlite3_header(sqlite_data) {
        Err(_) => Err(SignatureError),
        Ok(sqlite_header) => {
            let page_size = sqlite_header.page_size;
            let page_count = sqlite_header.page_count;
            assert(page_size * page_count <= 65536 * 0xFFFF_FFFF) by (nonlinear_arith)
                requires
                    page_size <= 65536,
                    page_count <= 0xFFFF_FFFF,
            ;
            let database_size: u64 = page_size * page_count;
            let mut result = SignatureResult::new(offset, V3_DESCRIPTION, CONFIDENCE_HIGH);
            if database_size <= available_data as u64 {
                result.size = database_size as usize;
            }
            result.description.append(", page size: ");
            push_dec(&mut result.description, page_size);
            result.description.append(" bytes, page count: ");
            push_dec(&mut result.description, page_count);
            result.description.append(", total size: ");
            push_dec(&mut result.description, database_size);
            result.description.append(" bytes");
            Ok(result)
        },
    }
}

/// Validate a SQLite 2 database signature
///
/// A version 2 database begins with a line of text and a binary header that is not documented
/// anywhere reliable, so there is nothing to validate and no size to report.
pub fn sqlite2_parser(_file_data: &[u8], offset: usize) -> (result: Result<
    SignatureResult,
    SignatureError,
>)
    ensures
        result matches Ok(r) && r.describes(offset as int, 0, V2_DESCRIPTION@, CONFIDENCE_MEDIUM),
{
    Ok(SignatureResult::new(offset, V2_DESCRIPTION, CONFIDENCE_MEDIUM))
}

} // verus!
