//! Constant tables of the DES algorithm
//!
//! Each table is a constant of the algorithm, so each of them is the whole of its signature and
//! its length is the size reported for it. The SP tables are indexed as words, so they appear in
//! one of two byte orders (big endian first, then little endian); the permutation tables are
//! indexed as bytes and so read the same either way.
use crate::signatures::common::{magics_are, SignatureError, SignatureResult, CONFIDENCE_HIGH};
use vstd::prelude::*;

verus! {

/// Human readable descriptions
pub const PC1_DESCRIPTION: &'static str = "DES PC1 permutation table";

pub const PC2_DESCRIPTION: &'static str = "DES PC2 permutation table";

pub const SP1_DESCRIPTION: &'static str = "DES SP1 table";

pub const SP2_DESCRIPTION: &'static str = "DES SP2 table";

/// The sizes of the tables
pub const PC1_SIZE: usize = 56;

pub const PC2_SIZE: usize = 48;

pub const SP_SIZE: usize = 32;

/// The DES PC1 permutation table
pub open spec fn pc1_table() -> Seq<u8> {
    seq![
        0x38u8, 0x30, 0x28, 0x20, 0x18, 0x10, 0x08, 0x00, 0x39, 0x31, 0x29, 0x21, 0x19, 0x11,
        0x09, 0x01, 0x3A, 0x32, 0x2A, 0x22, 0x1A, 0x12, 0x0A, 0x02, 0x3B, 0x33, 0x2B, 0x23,
        0x3E, 0x36, 0x2E, 0x26, 0x1E, 0x16, 0x0E, 0x06, 0x3D, 0x35, 0x2D, 0x25, 0x1D, 0x15,
        0x0D, 0x05, 0x3C, 0x34, 0x2C, 0x24, 0x1C, 0x14, 0x0C, 0x04, 0x1B, 0x13, 0x0B, 0x03,
    ]
}

/// The DES PC2 permutation table
pub open spec fn pc2_table() -> Seq<u8> {
    seq![
        0x0Du8, 0x10, 0x0A, 0x17, 0x00, 0x04, 0x02, 0x1B, 0x0E, 0x05, 0x14, 0x09, 0x16, 0x12,
        0x0B, 0x03, 0x19, 0x07, 0x0F, 0x06, 0x1A, 0x13, 0x0C, 0x01, 0x28, 0x33, 0x1E, 0x24,
        0x2E, 0x36, 0x1D, 0x27, 0x32, 0x2C, 0x20, 0x2F, 0x2B, 0x30, 0x26, 0x37, 0x21, 0x34,
        0x2D, 0x29, 0x31, 0x23, 0x1C, 0x1F,
    ]
}

/// The DES SP1 table, big endian
pub open spec fn sp1_table_be() -> Seq<u8> {
    seq![
        0x01u8, 0x01, 0x04, 0x00, 0x00, 0x00, 0x00, 0x00, 0x00, 0x01, 0x00, 0x00, 0x01, 0x01,
        0x04, 0x04, 0x01, 0x01, 0x00, 0x04, 0x00, 0x01, 0x04, 0x04, 0x00, 0x00, 0x00, 0x04,
        0x00, 0x01, 0x00, 0x00,
    ]
}

/// The DES SP1 table, little endian
pub open spec fn sp1_table_le() -> Seq<u8> {
    seq![
        0x00u8, 0x04, 0x01, 0x01, 0x00, 0x00, 0x00, 0x00, 0x00, 0x00, 0x01, 0x00, 0x04, 0x04,
        0x01, 0x01, 0x04, 0x00, 0x01, 0x01, 0x04, 0x04, 0x01, 0x00, 0x04, 0x00, 0x00, 0x00,
        0x00, 0x00, 0x01, 0x00,
    ]
}

/// The DES SP2 table, big endian
pub open spec fn sp2_table_be() -> Seq<u8> {
    seq![
        0x80u8, 0x10, 0x80, 0x20, 0x80, 0x00, 0x80, 0x00, 0x00, 0x00, 0x80, 0x00, 0x00, 0x10,
        0x80, 0x20, 0x00, 0x10, 0x00, 0x00, 0x00, 0x00, 0x00, 0x20, 0x80, 0x10, 0x00, 0x20,
        0x80, 0x00, 0x80, 0x20,
    ]
}

/// The DES SP2 table, little endian
pub open spec fn sp2_table_le() -> Seq<u8> {
    seq![
        0x20u8, 0x80, 0x10, 0x80, 0x00, 0x80, 0x00, 0x80, 0x00, 0x80, 0x00, 0x00, 0x20, 0x80,
        0x10, 0x00, 0x00, 0x00, 0x10, 0x00, 0x20, 0x00, 0x00, 0x00, 0x20, 0x00, 0x10, 0x80,
        0x20, 0x80, 0x00, 0x80,
    ]
}

/// DES PC1 permutation table
pub fn des_pc1_magic() -> (magics: Vec<Vec<u8>>)
    ensures
        magics_are(magics, seq![pc1_table()]),
{
    let magics = vec![
        vec![
            0x38, 0x30, 0x28, 0x20, 0x18, 0x10, 0x08, 0x00, 0x39, 0x31, 0x29, 0x21, 0x19, 0x11,
            0x09, 0x01, 0x3A, 0x32, 0x2A, 0x22, 0x1A, 0x12, 0x0A, 0x02, 0x3B, 0x33, 0x2B, 0x23,
            0x3E, 0x36, 0x2E, 0x26, 0x1E, 0x16, 0x0E, 0x06, 0x3D, 0x35, 0x2D, 0x25, 0x1D, 0x15,
            0x0D, 0x05, 0x3C, 0x34, 0x2C, 0x24, 0x1C, 0x14, 0x0C, 0x04, 0x1B, 0x13, 0x0B, 0x03,
        ],
    ];
    assert(magics@[0]@ == pc1_table());
    magics
}

/// DES PC2 permutation table
pub fn des_pc2_magic() -> (magics: Vec<Vec<u8>>)
    ensures
        magics_are(magics, seq![pc2_table()]),
{
    let magics = vec![
        vec![
            0x0D, 0x10, 0x0A, 0x17, 0x00, 0x04, 0x02, 0x1B, 0x0E, 0x05, 0x14, 0x09, 0x16, 0x12,
            0x0B, 0x03, 0x19, 0x07, 0x0F, 0x06, 0x1A, 0x13, 0x0C, 0x01, 0x28, 0x33, 0x1E, 0x24,
            0x2E, 0x36, 0x1D, 0x27, 0x32, 0x2C, 0x20, 0x2F, 0x2B, 0x30, 0x26, 0x37, 0x21, 0x34,
            0x2D, 0x29, 0x31, 0x23, 0x1C, 0x1F,
        ],
    ];
    assert(magics@[0]@ == pc2_table());
    magics
}

/// DES SP1 table, big endian and then little endian
pub fn des_sp1_magic() -> (magics: Vec<Vec<u8>>)
    ensures
        magics_are(magics, seq![sp1_table_be(), sp1_table_le()]),
{
    let magics = vec![
        vec![
            0x01, 0x01, 0x04, 0x00, 0x00, 0x00, 0x00, 0x00, 0x00, 0x01, 0x00, 0x00, 0x01, 0x01,
            0x04, 0x04, 0x01, 0x01, 0x00, 0x04, 0x00, 0x01, 0x04, 0x04, 0x00, 0x00, 0x00, 0x04,
            0x00, 0x01, 0x00, 0x00,
        ],
        vec![
            0x00, 0x04, 0x01, 0x01, 0x00, 0x00, 0x00, 0x00, 0x00, 0x00, 0x01, 0x00, 0x04, 0x04,
            0x01, 0x01, 0x04, 0x00, 0x01, 0x01, 0x04, 0x04, 0x01, 0x00, 0x04, 0x00, 0x00, 0x00,
            0x00, 0x00, 0x01, 0x00,
        ],
    ];
    assert(magics@[0]@ == sp1_table_be());
    assert(magics@[1]@ == sp1_table_le());
    magics
}

/// DES SP2 table, big endian and then little endian
pub fn des_sp2_magic() -> (magics: Vec<Vec<u8>>)
    ensures
        magics_are(magics, seq![sp2_table_be(), sp2_table_le()]),
{
    let magics = vec![
        vec![
            0x80, 0x10, 0x80, 0x20, 0x80, 0x00, 0x80, 0x00, 0x00, 0x00, 0x80, 0x00, 0x00, 0x10,
            0x80, 0x20, 0x00, 0x10, 0x00, 0x00, 0x00, 0x00, 0x00, 0x20, 0x80, 0x10, 0x00, 0x20,
            0x80, 0x00, 0x80, 0x20,
        ],
        vec![
            0x20, 0x80, 0x10, 0x80, 0x00, 0x80, 0x00, 0x80, 0x00, 0x80, 0x00, 0x00, 0x20, 0x80,
            0x10, 0x00, 0x00, 0x00, 0x10, 0x00, 0x20, 0x00, 0x00, 0x00, 0x20, 0x00, 0x10, 0x80,
            0x20, 0x80, 0x00, 0x80,
        ],
    ];
    assert(magics@[0]@ == sp2_table_be());
    assert(magics@[1]@ == sp2_table_le());
    magics
}


/// Validate a DES PC1 permutation table signature
pub fn des_pc1_parser(_file_data: &[u8], offset: usize) -> (result: Result<
    SignatureResult,
    SignatureError,
>)
    ensures
        result matches Ok(r) && r.describes(
            offset as int,
            PC1_SIZE as int,
            PC1_DESCRIPTION@,
            CONFIDENCE_HIGH,
        ),
{
    Ok(des_table(offset, PC1_DESCRIPTION, PC1_SIZE))
}

/// Validate a DES PC2 permutation table signature
pub fn des_pc2_parser(_file_data: &[u8], offset: usize) -> (result: Result<
    SignatureResult,
    SignatureError,
>)
    ensures
        result matches Ok(r) && r.describes(
            offset as int,
            PC2_SIZE as int,
            PC2_DESCRIPTION@,
            CONFIDENCE_HIGH,
        ),
{
    Ok(des_table(offset, PC2_DESCRIPTION, PC2_SIZE))
}

/// Validate a DES SP1 table signature
pub fn des_sp1_parser(_file_data: &[u8], offset: usize) -> (result: Result<
    SignatureResult,
    SignatureError,
>)
    ensures
        result matches Ok(r) && r.describes(
            offset as int,
            SP_SIZE as int,
            SP1_DESCRIPTION@,
            CONFIDENCE_HIGH,
        ),
{
    Ok(des_table(offset, SP1_DESCRIPTION, SP_SIZE))
}

/// Validate a DES SP2 table signature
pub fn des_sp2_parser(_file_data: &[u8], offset: usize) -> (result: Result<
    SignatureResult,
    SignatureError,
>)
    ensures
        result matches Ok(r) && r.describes(
            offset as int,
            SP_SIZE as int,
            SP2_DESCRIPTION@,
            CONFIDENCE_HIGH,
        ),
{
    Ok(des_table(offset, SP2_DESCRIPTION, SP_SIZE))
}

/// A table is a constant, so a match on it is the table itself
fn des_table(offset: usize, description: &str, size: usize) -> (result: SignatureResult)
    ensures
        result.describes(offset as int, size as int, description@, CONFIDENCE_HIGH),
{
    let mut result = SignatureResult::new(offset, description, CONFIDENCE_HIGH);
    result.size = size;
    result
}

/// A match of a table is the table itself: the size that each parser reports is the length of
/// the signature of its table, in either byte order
pub proof fn lemma_table_sizes()
    ensures
        pc1_table().len() == PC1_SIZE,
        pc2_table().len() == PC2_SIZE,
        sp1_table_be().len() == SP_SIZE,
        sp1_table_le().len() == SP_SIZE,
        sp2_table_be().len() == SP_SIZE,
        sp2_table_le().len() == SP_SIZE,
{
}

/// The SP tables are indexed as words, so the little endian signature of each of them is the
/// big endian one with the four bytes of each word in reverse order
pub proof fn lemma_sp_byte_orders()
    ensures
        forall|w: int, b: int|
            0 <= w < SP_SIZE / 4 && 0 <= b < 4 ==> #[trigger] sp1_table_le()[4 * w + b]
                == sp1_table_be()[4 * w + 3 - b],
        forall|w: int, b: int|
            0 <= w < SP_SIZE / 4 && 0 <= b < 4 ==> #[trigger] sp2_table_le()[4 * w + b]
                == sp2_table_be()[4 * w + 3 - b],
{
    assert forall|w: int, b: int|
        0 <= w < SP_SIZE / 4 && 0 <= b < 4 implies #[trigger] sp1_table_le()[4 * w + b]
        == sp1_table_be()[4 * w + 3 - b] by {
        assert(0 <= w < 8 && 0 <= b < 4);
    }
    assert forall|w: int, b: int|
        0 <= w < SP_SIZE / 4 && 0 <= b < 4 implies #[trigger] sp2_table_le()[4 * w + b]
        == sp2_table_be()[4 * w + 3 - b] by {
        assert(0 <= w < 8 && 0 <= b < 4);
    }
}

} // verus!
