//! Data encrypted by mcrypt, versions 2.5 and 2.2
use crate::signatures::common::{
    byte_at, get_byte, magics_are, SignatureError, SignatureResult, CONFIDENCE_MEDIUM,
};
use crate::text::{all_graphic, check_all_graphic, chars_of, push_bytes};
use crate::common::slice_range;
use vstd::prelude::*;
use vstd::string::StringExecFns;

verus! {

/// Human readable descriptions
pub const V25_DESCRIPTION: &'static str = "mcrypt 2.5 encrypted data";

pub const V22_DESCRIPTION: &'static str = "mcrypt 2.2 encrypted data";

/// A flag byte follows the magic, and the name of the algorithm follows that as a length
/// prefixed string; the name is what makes the match worth reporting.
pub const FLAGS_OFFSET: usize = 3;

pub const NAME_LENGTH_OFFSET: usize = 4;

pub const MAX_NAME_LENGTH: usize = 32;

/// Files written by mcrypt 2.5 start with this
pub fn mcrypt25_magic() -> (magics: Vec<Vec<u8>>)
    ensures
        magics_are(magics, seq![seq![0x00u8, 0x6D, 0x03]]),
{
    vec![vec![0x00, 0x6D, 0x03]]
}

/// Files written by mcrypt 2.2 start with this
pub fn mcrypt22_magic() -> (magics: Vec<Vec<u8>>)
    ensures
        magics_are(magics, seq![seq![0x00u8, 0x6D, 0x02]]),
{
    vec![vec![0x00, 0x6D, 0x02]]
}

/// What a valid mcrypt 2.5 header at `offset` holds: the flag byte and the algorithm name
pub open spec fn mcrypt25_header(data: Seq<u8>, offset: int) -> Option<(u8, Seq<u8>)> {
    match byte_at(data, offset + NAME_LENGTH_OFFSET) {
        None => None,
        Some(name_length) => {
            let name_start = offset + NAME_LENGTH_OFFSET + 1;
            let name_end = name_start + name_length;
            if name_length == 0 || name_length > MAX_NAME_LENGTH || name_end > data.len() {
                None
            } else if !all_graphic(data.subrange(name_start, name_end)) {
                None
            } else if data[offset + FLAGS_OFFSET] > 1 {
                // The flag byte only has its low bit defined
                None
            } else {
                Some((data[offset + FLAGS_OFFSET], data.subrange(name_start, name_end)))
            }
        },
    }
}

/// Validate an mcrypt 2.5 signature
///
/// The header does not describe how much encrypted data follows it, so no size is reported.
pub fn mcrypt25_parser(file_data: &[u8], offset: usize) -> (result: Result<
    SignatureResult,
    SignatureError,
>)
    requires
        offset + NAME_LENGTH_OFFSET + 1 + MAX_NAME_LENGTH <= usize::MAX,
    ensures
        match mcrypt25_header(file_data@, offset as int) {
            Some((_, name)) => result matches Ok(r) && r.describes(
                offset as int,
                0,
                V25_DESCRIPTION@ + ", algorithm: \""@ + chars_of(name) + "\""@,
                CONFIDENCE_MEDIUM,
            ),
            None => result is Err,
        },
{
    let name_length = match get_byte(file_data, offset + NAME_LENGTH_OFFSET) {
        Some(name_length) => name_length as usize,
        None => return Err(SignatureError),
    };
    if name_length == 0 || name_length > MAX_NAME_LENGTH {
        return Err(SignatureError);
    }
    let name_start = offset + NAME_LENGTH_OFFSET + 1;
    if name_start + name_length > file_data.len() {
        return Err(SignatureError);
    }
    if !check_all_graphic(file_data, name_start, name_start + name_length) {
        return Err(SignatureError);
    }
    let algorithm = slice_range(file_data, name_start, name_start + name_length);

    // The flag byte only has its low bit defined
    let flags = match get_byte(file_data, offset + FLAGS_OFFSET) {
        Some(flags) => flags,
        None => return Err(SignatureError),
    };
    if flags > 1 {
        return Err(SignatureError);
    }
    let mut result = SignatureResult::new(offset, V25_DESCRIPTION, CONFIDENCE_MEDIUM);
    result.description.append(", algorithm: \"");
    push_bytes(&mut result.description, algorithm.as_slice());
    result.description.append("\"");
    Ok(result)
}

/// Validate an mcrypt 2.2 signature
///
/// The 2.2 header names its algorithm by number rather than by name, and the numbering is only
/// meaningful to that release, so there is nothing here worth reporting beyond the format itself;
/// the magic is three bytes, so it is only matched at the start of a file.
pub fn mcrypt22_parser(_file_data: &[u8], offset: usize) -> (result: Result<
    SignatureResult,
    SignatureError,
>)
    ensures
        result matches Ok(r) && r.describes(offset as int, 0, V22_DESCRIPTION@, CONFIDENCE_MEDIUM),
{
    Ok(SignatureResult::new(offset, V22_DESCRIPTION, CONFIDENCE_MEDIUM))
}

} // verus!
