//! iRiver database files
use crate::signatures::common::{magics_are, SignatureError, SignatureResult, CONFIDENCE_MEDIUM};
use crate::text::{chars_of, printable_run, push_bytes, read_printable_run, trim_spaces, trimmed};
use vstd::prelude::*;
use vstd::string::StringExecFns;

verus! {

/// Human readable description
pub const DESCRIPTION: &'static str = "iRiver database file";

/// The magic is followed by the name of the database, as printable text; the layout of the rest
/// of the header is not documented, and it does not describe the length of the file.
pub const NAME_OFFSET: usize = 6;

pub const MAX_NAME_SIZE: usize = 32;

/// iRiver database files start with this
pub fn iriver_magic() -> (magics: Vec<Vec<u8>>)
    ensures
        magics_are(magics, seq![seq![0x69u8, 0x52, 0x69, 0x76, 0x44, 0x42]]),
{
    vec![vec![0x69, 0x52, 0x69, 0x76, 0x44, 0x42]]
}

/// The name of a database whose magic is at `offset`: the printable text that follows the magic,
/// without its surrounding spaces
pub open spec fn iriver_name(data: Seq<u8>, offset: int) -> Seq<u8> {
    trim_spaces(printable_run(data, offset + NAME_OFFSET, MAX_NAME_SIZE as int))
}

/// Validate an iRiver database signature: the database has to have a name
pub fn iriver_parser(file_data: &[u8], offset: usize) -> (result: Result<
    SignatureResult,
    SignatureError,
>)
    requires
        offset + NAME_OFFSET + MAX_NAME_SIZE <= usize::MAX,
    ensures
        match result {
            Ok(r) => {
                &&& offset + NAME_OFFSET <= file_data.len()
                &&& iriver_name(file_data@, offset as int).len() > 0
                &&& r.describes(
                    offset as int,
                    0,
                    DESCRIPTION@ + ", name: \""@ + chars_of(iriver_name(file_data@, offset as int))
                        + "\""@,
                    CONFIDENCE_MEDIUM,
                )
            },
            Err(_) => offset + NAME_OFFSET > file_data.len() || iriver_name(
                file_data@,
                offset as int,
            ).len() == 0,
        },
{
    let name = match read_printable_run(file_data, offset + NAME_OFFSET, MAX_NAME_SIZE) {
        Some(name) => trimmed(name.as_slice()),
        None => return Err(SignatureError),
    };
    if name.len() == 0 {
        return Err(SignatureError);
    }
    let mut result = SignatureResult::new(offset, DESCRIPTION, CONFIDENCE_MEDIUM);
    result.description.append(", name: \"");
    push_bytes(&mut result.description, name.as_slice());
    result.description.append("\"");
    Ok(result)
}

} // verus!
