//! Windows Script encoded data
use crate::signatures::common::{magics_are, SignatureError, SignatureResult, CONFIDENCE_MEDIUM};
use crate::text::{is_alphanumeric, is_alphanumeric_byte};
use vstd::prelude::*;

verus! {

/// Human readable description
pub const DESCRIPTION: &'static str = "Windows Script encoded data";

/// The marker is followed by the length of the encoded script, as six characters of base64, and
/// then by two more characters that close the header: "=="
pub const LENGTH_OFFSET: usize = 4;

pub const LENGTH_SIZE: usize = 6;

pub const HEADER_TERMINATOR_SIZE: usize = 2;

/// Encoded scripts start with this marker
pub fn screnc_magic() -> (magics: Vec<Vec<u8>>)
    ensures
        magics_are(magics, seq![seq![0x23u8, 0x40, 0x7E, 0x5E]]),
{
    vec![vec![0x23, 0x40, 0x7E, 0x5E]]
}

/// The characters of base64
pub open spec fn is_base64_char(b: u8) -> bool {
    is_alphanumeric(b) || b == 0x2B || b == 0x2F
}

/// The header at `offset` has its length as base64, closed by "=="
pub open spec fn screnc_header_valid(data: Seq<u8>, offset: int) -> bool {
    let length_end = offset + LENGTH_OFFSET + LENGTH_SIZE;
    &&& length_end + HEADER_TERMINATOR_SIZE <= data.len()
    &&& forall|i: int|
        offset + LENGTH_OFFSET <= i < length_end ==> is_base64_char(#[trigger] data[i])
    &&& data[length_end] == 0x3D
    &&& data[length_end + 1] == 0x3D
}

/// Validate a Windows Script encoded data signature
///
/// The length is encoded with the same substitution table as the script itself, which is not
/// worth reproducing here just to report a size.
pub fn screnc_parser(file_data: &[u8], offset: usize) -> (result: Result<
    SignatureResult,
    SignatureError,
>)
    requires
        offset + LENGTH_OFFSET + LENGTH_SIZE + HEADER_TERMINATOR_SIZE <= usize::MAX,
    ensures
        screnc_header_valid(file_data@, offset as int) ==> (result matches Ok(r) && r.describes(
            offset as int,
            0,
            DESCRIPTION@,
            CONFIDENCE_MEDIUM,
        )),
        !screnc_header_valid(file_data@, offset as int) ==> result is Err,
{
    let length_start = offset + LENGTH_OFFSET;
    let length_end = length_start + LENGTH_SIZE;
    if length_end > file_data.len() {
        return Err(SignatureError);
    }
    // The length is base64, so every character of it has to be one
    let mut i: usize = length_start;
    while i < length_end
        invariant
            length_start <= i <= length_end,
            length_end <= file_data.len(),
            length_start == offset + LENGTH_OFFSET,
            length_end == length_start + LENGTH_SIZE,
            forall|k: int| length_start <= k < i ==> is_base64_char(#[trigger] file_data@[k]),
        decreases length_end - i,
    {
        let b = file_data[i];
        if !(is_alphanumeric_byte(b) || b == 0x2B || b == 0x2F) {
            return Err(SignatureError);
        }
        i = i + 1;
    }
    if length_end + HEADER_TERMINATOR_SIZE > file_data.len() {
        return Err(SignatureError);
    }
    if file_data[length_end] != 0x3D || file_data[length_end + 1] != 0x3D {
        return Err(SignatureError);
    }
    Ok(SignatureResult::new(offset, DESCRIPTION, CONFIDENCE_MEDIUM))
}

} // verus!
