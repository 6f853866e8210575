//! Base64 index tables, standard and the scrambled one of SerComm firmware
use crate::signatures::common::{magics_are, SignatureError, SignatureResult, CONFIDENCE_HIGH};
use vstd::prelude::*;

verus! {

/// Human readable descriptions
pub const STANDARD_DESCRIPTION: &'static str = "Base64 standard index table";

pub const SERCOMM_DESCRIPTION: &'static str = "Base64 SerComm index table";

/// Each table is a constant, which is the whole of its signature: the standard one is sixty four
/// bytes long
pub const TABLE_SIZE: usize = 64;

/// The SerComm table has one byte more, an "=" among its symbols
pub const SERCOMM_TABLE_SIZE: usize = 65;

/// The index table of a standard Base64 implementation
pub fn standard_table_magic() -> (magics: Vec<Vec<u8>>)
    ensures
        magics_are(magics, seq![standard_table()]),
{
    vec![vec![
        0x41, 0x42, 0x43, 0x44, 0x45, 0x46, 0x47, 0x48, 0x49, 0x4A, 0x4B, 0x4C, 0x4D, 0x4E, 0x4F,
        0x50, 0x51, 0x52, 0x53, 0x54, 0x55, 0x56, 0x57, 0x58, 0x59, 0x5A, 0x61, 0x62, 0x63, 0x64,
        0x65, 0x66, 0x67, 0x68, 0x69, 0x6A, 0x6B, 0x6C, 0x6D, 0x6E, 0x6F, 0x70, 0x71, 0x72, 0x73,
        0x74, 0x75, 0x76, 0x77, 0x78, 0x79, 0x7A, 0x30, 0x31, 0x32, 0x33, 0x34, 0x35, 0x36, 0x37,
        0x38, 0x39, 0x2B, 0x2F,
    ]]
}

/// The scrambled index table that SerComm firmware uses in place of it
pub fn sercomm_table_magic() -> (magics: Vec<Vec<u8>>)
    ensures
        magics_are(magics, seq![sercomm_table()]),
{
    vec![vec![
        0x41, 0x43, 0x45, 0x47, 0x49, 0x4B, 0x4D, 0x4F, 0x51, 0x53, 0x55, 0x57, 0x59, 0x42, 0x44,
        0x46, 0x48, 0x4A, 0x4C, 0x4E, 0x50, 0x52, 0x54, 0x56, 0x58, 0x5A, 0x61, 0x63, 0x65, 0x67,
        0x69, 0x6B, 0x6D, 0x6F, 0x71, 0x73, 0x75, 0x77, 0x79, 0x62, 0x64, 0x66, 0x68, 0x6A, 0x6C,
        0x6E, 0x70, 0x72, 0x74, 0x76, 0x78, 0x7A, 0x30, 0x32, 0x34, 0x36, 0x38, 0x31, 0x33, 0x35,
        0x37, 0x39, 0x3D, 0x2B, 0x2F,
    ]]
}

/// The index table of a standard Base64 implementation: A-Z, a-z, 0-9, "+" and "/"
pub open spec fn standard_table() -> Seq<u8> {
    seq![
        0x41u8, 0x42, 0x43, 0x44, 0x45, 0x46, 0x47, 0x48, 0x49, 0x4A, 0x4B, 0x4C, 0x4D, 0x4E, 0x4F,
        0x50, 0x51, 0x52, 0x53, 0x54, 0x55, 0x56, 0x57, 0x58, 0x59, 0x5A, 0x61, 0x62, 0x63, 0x64,
        0x65, 0x66, 0x67, 0x68, 0x69, 0x6A, 0x6B, 0x6C, 0x6D, 0x6E, 0x6F, 0x70, 0x71, 0x72, 0x73,
        0x74, 0x75, 0x76, 0x77, 0x78, 0x79, 0x7A, 0x30, 0x31, 0x32, 0x33, 0x34, 0x35, 0x36, 0x37,
        0x38, 0x39, 0x2B, 0x2F,
    ]
}

/// The SerComm table: the capitals, then the small letters, then the digits, each set taken at
/// even places first and odd places second, then "=", "+" and "/"
pub open spec fn sercomm_table() -> Seq<u8> {
    seq![
        0x41u8, 0x43, 0x45, 0x47, 0x49, 0x4B, 0x4D, 0x4F, 0x51, 0x53, 0x55, 0x57, 0x59, 0x42,
        0x44, 0x46, 0x48, 0x4A, 0x4C, 0x4E, 0x50, 0x52, 0x54, 0x56, 0x58, 0x5A, 0x61, 0x63,
        0x65, 0x67, 0x69, 0x6B, 0x6D, 0x6F, 0x71, 0x73, 0x75, 0x77, 0x79, 0x62, 0x64, 0x66,
        0x68, 0x6A, 0x6C, 0x6E, 0x70, 0x72, 0x74, 0x76, 0x78, 0x7A, 0x30, 0x32, 0x34, 0x36,
        0x38, 0x31, 0x33, 0x35, 0x37, 0x39, 0x3D, 0x2B, 0x2F,
    ]
}

/// The index that standard Base64 decoding gives a character
pub open spec fn standard_index(c: u8) -> int {
    if 0x41 <= c <= 0x5A {
        c - 0x41
    } else if 0x61 <= c <= 0x7A {
        c - 0x61 + 26
    } else if 0x30 <= c <= 0x39 {
        c - 0x30 + 52
    } else if c == 0x2B {
        62
    } else {
        63
    }
}

/// The standard table is the whole of its signature, so a match of it is `TABLE_SIZE` bytes,
/// and it is the index table of Base64: decoding the character at each index gives back that
/// index, so no character appears twice
pub proof fn lemma_standard_table()
    ensures
        standard_table().len() == TABLE_SIZE,
        forall|i: int| 0 <= i < TABLE_SIZE ==> standard_index(#[trigger] standard_table()[i]) == i,
{
}

/// The SerComm table is the whole of its signature too, so a match of it is
/// `SERCOMM_TABLE_SIZE` bytes, and no byte appears twice in it
pub proof fn lemma_sercomm_table()
    ensures
        sercomm_table().len() == SERCOMM_TABLE_SIZE,
        forall|i: int, j: int|
            0 <= i < j < SERCOMM_TABLE_SIZE ==> #[trigger] sercomm_table()[i]
                != #[trigger] sercomm_table()[j],
{
}

/// Validate a standard Base64 index table signature
pub fn standard_table_parser(_file_data: &[u8], offset: usize) -> (result: Result<
    SignatureResult,
    SignatureError,
>)
    ensures
        result matches Ok(r) && r.describes(
            offset as int,
            TABLE_SIZE as int,
            STANDARD_DESCRIPTION@,
            CONFIDENCE_HIGH,
        ),
{
    Ok(index_table(offset, TABLE_SIZE, STANDARD_DESCRIPTION))
}

/// Validate a SerComm Base64 index table signature
pub fn sercomm_table_parser(_file_data: &[u8], offset: usize) -> (result: Result<
    SignatureResult,
    SignatureError,
>)
    ensures
        result matches Ok(r) && r.describes(
            offset as int,
            SERCOMM_TABLE_SIZE as int,
            SERCOMM_DESCRIPTION@,
            CONFIDENCE_HIGH,
        ),
{
    Ok(index_table(offset, SERCOMM_TABLE_SIZE, SERCOMM_DESCRIPTION))
}

/// A match of a table is the table itself
fn index_table(offset: usize, size: usize, description: &str) -> (result: SignatureResult)
    ensures
        result.describes(offset as int, size as int, description@, CONFIDENCE_HIGH),
{
    let mut result = SignatureResult::new(offset, description, CONFIDENCE_HIGH);
    result.size = size;
    result
}

} // verus!
