//! AFX compressed data
use crate::signatures::common::{
    magics_are, SignatureError, SignatureResult, CONFIDENCE_LOW,
};
use vstd::prelude::*;

verus! {

/// Human readable description
pub const DESCRIPTION: &'static str = "AFX compressed data";

/// The signature sits this many bytes into the file
pub const MAGIC_OFFSET: usize = 2;

/// AFX compressed files carry this signature: "-afx"
pub fn afx_magic() -> (magics: Vec<Vec<u8>>)
    ensures
        magics_are(magics, seq![seq![0x2Du8, 0x61, 0x66, 0x78]]),
{
    vec![vec![0x2D, 0x61, 0x66, 0x78]]
}

/// Validate an AFX signature: the file starts two bytes before the signature, and those bytes
/// have to be there. There is nothing else to validate, and no size is reported.
pub fn afx_parser(file_data: &[u8], offset: usize) -> (result: Result<
    SignatureResult,
    SignatureError,
>)
    ensures
        match result {
            Ok(r) => {
                &&& MAGIC_OFFSET <= offset <= file_data.len()
                &&& r.describes(offset - MAGIC_OFFSET, 0, DESCRIPTION@, CONFIDENCE_LOW)
            },
            Err(_) => offset < MAGIC_OFFSET || offset > file_data.len(),
        },
{
    // The file starts before the signature
    if offset < MAGIC_OFFSET {
        return Err(SignatureError);
    }
    if offset > file_data.len() {
        return Err(SignatureError);
    }
    Ok(SignatureResult::new(offset - MAGIC_OFFSET, DESCRIPTION, CONFIDENCE_LOW))
}

} // verus!
