//! The eCos real time operating system: its kernel exception handlers, and strings that name it
use crate::common::{cstring, get_cstring_bytes};
use crate::signatures::common::{magics_are, SignatureError, SignatureResult, CONFIDENCE_LOW};
use crate::text::{
    all_printable, check_all_printable, chars_of, is_alphanumeric, is_alphanumeric_byte,
    push_bytes,
};
use vstd::prelude::*;
use vstd::string::StringExecFns;

verus! {

/// Human readable descriptions
pub const EXCEPTION_HANDLER_DESCRIPTION: &'static str = "eCos kernel exception handler";

pub const STRING_REFERENCE_DESCRIPTION: &'static str = "eCos RTOS string reference";

/// Size of the magic bytes of a string reference
pub const MAGIC_SIZE: usize = 4;

/// Only this much of a string is of interest; it also bounds the search for the terminator
pub const MAX_STRING_SIZE: usize = 128;

/// Strings that reference eCos: "ecos", "eCos" and "ECOS"
pub fn string_reference_magic() -> (magics: Vec<Vec<u8>>)
    ensures
        magics_are(
            magics,
            seq![
                seq![0x65u8, 0x63, 0x6F, 0x73],
                seq![0x65u8, 0x43, 0x6F, 0x73],
                seq![0x45u8, 0x43, 0x4F, 0x53],
            ],
        ),
{
    vec![vec![0x65, 0x63, 0x6F, 0x73], vec![0x65, 0x43, 0x6F, 0x73], vec![0x45, 0x43, 0x4F, 0x53]]
}

/// Big and little endian magic byte signatures for eCos kernel exception handlers (MIPS only)
///
/// ```text
/// mfc0    $k0, Cause       # Cause of last exception
/// nop                      # Some versions of eCos omit the nop
/// andi    $k0, 0x7F
/// li      $k1, 0xXXXXXXXX
/// add     $k1, $k0
/// lw      $k1, 0($k1)
/// jr      $k1
/// nop
/// ```
pub fn exception_handler_magic() -> (magics: Vec<Vec<u8>>)
    ensures
        magics_are(
            magics,
            seq![
                seq![0x00u8, 0x68, 0x1A, 0x40, 0x00, 0x00, 0x00, 0x00, 0x7F, 0x00, 0x5A, 0x33],
                seq![0x00u8, 0x68, 0x1A, 0x40, 0x7F, 0x00, 0x5A, 0x33],
                seq![0x40u8, 0x1A, 0x68, 0x00, 0x00, 0x00, 0x00, 0x00, 0x33, 0x5A, 0x00, 0x7F],
                seq![0x40u8, 0x1A, 0x68, 0x00, 0x33, 0x5A, 0x00, 0x7F],
            ],
        ),
{
    vec![
        vec![0x00, 0x68, 0x1A, 0x40, 0x00, 0x00, 0x00, 0x00, 0x7F, 0x00, 0x5A, 0x33],
        vec![0x00, 0x68, 0x1A, 0x40, 0x7F, 0x00, 0x5A, 0x33],
        vec![0x40, 0x1A, 0x68, 0x00, 0x00, 0x00, 0x00, 0x00, 0x33, 0x5A, 0x00, 0x7F],
        vec![0x40, 0x1A, 0x68, 0x00, 0x33, 0x5A, 0x00, 0x7F],
    ]
}

/// The byte order of an exception handler: a little endian one starts with a zero byte
pub open spec fn handler_endianness(first_byte: u8) -> Seq<char> {
    if first_byte == 0 {
        "little"@
    } else {
        "big"@
    }
}

/// Parses the eCos exception handler signature, reporting its byte order
pub fn exception_handler_parser(file_data: &[u8], offset: usize) -> (result: Result<
    SignatureResult,
    SignatureError,
>)
    requires
        offset < file_data.len(),
    ensures
        result matches Ok(r) && r.describes(
            offset as int,
            0,
            EXCEPTION_HANDLER_DESCRIPTION@ + ", MIPS "@ + handler_endianness(
                file_data@[offset as int],
            ) + " endian"@,
            CONFIDENCE_LOW,
        ),
{
    let mut result = SignatureResult::new(offset, EXCEPTION_HANDLER_DESCRIPTION, CONFIDENCE_LOW);
    let endianness: &str = if file_data[offset] == 0 {
        "little"
    } else {
        "big"
    };
    result.description.append(", MIPS ");
    result.description.append(endianness);
    result.description.append(" endian");
    Ok(result)
}

/// The window a string reference is read from: at most `MAX_STRING_SIZE` bytes from `offset`
pub open spec fn reference_window(data: Seq<u8>, offset: int) -> Seq<u8> {
    let end = if offset + MAX_STRING_SIZE < data.len() {
        offset + MAX_STRING_SIZE
    } else {
        data.len() as int
    };
    data.subrange(offset, end)
}

/// The string that starts at `offset`: the text of the window up to its terminator
pub open spec fn reference_string(data: Seq<u8>, offset: int) -> Seq<u8> {
    cstring(reference_window(data, offset))
}

/// A string reference is a word of its own, terminated by a NULL byte inside the window,
/// printable, and the magic is not the start of a longer word
pub open spec fn is_string_reference(data: Seq<u8>, offset: int) -> bool {
    let s = reference_string(data, offset);
    &&& !(offset > 0 && is_alphanumeric(data[offset - 1]))
    &&& s.len() < reference_window(data, offset).len()
    &&& all_printable(s)
    &&& !(s.len() > MAGIC_SIZE && is_alphanumeric(s[MAGIC_SIZE as int]))
}

/// Parses eCos string references
///
/// The magic bytes have to be a word of their own to be a reference to eCos, else every
/// "ecosystem" in a file would match. A string that has no terminator inside the window, or that
/// contains anything unprintable, is not a string reference.
pub fn string_reference_parser(file_data: &[u8], offset: usize) -> (result: Result<
    SignatureResult,
    SignatureError,
>)
    requires
        offset <= file_data.len(),
        offset + MAX_STRING_SIZE <= usize::MAX,
    ensures
        is_string_reference(file_data@, offset as int) ==> (result matches Ok(r) && r.describes(
            offset as int,
            reference_string(file_data@, offset as int).len() as int,
            STRING_REFERENCE_DESCRIPTION@ + ": \""@ + chars_of(
                reference_string(file_data@, offset as int),
            ) + "\""@,
            CONFIDENCE_LOW,
        )),
        !is_string_reference(file_data@, offset as int) ==> result is Err,
{
    if offset > 0 && is_alphanumeric_byte(file_data[offset - 1]) {
        return Err(SignatureError);
    }
    let string_end = if offset + MAX_STRING_SIZE < file_data.len() {
        offset + MAX_STRING_SIZE
    } else {
        file_data.len()
    };
    let ecos_string = get_cstring_bytes(file_data, offset, string_end);
    proof {
        crate::common::lemma_cstring_len(file_data@.subrange(offset as int, string_end as int));
    }
    if ecos_string.len() < string_end - offset && check_all_printable(ecos_string.as_slice()) && !(
    ecos_string.len() > MAGIC_SIZE && is_alphanumeric_byte(ecos_string[MAGIC_SIZE])) {
        let mut result = SignatureResult::new(
            offset,
            STRING_REFERENCE_DESCRIPTION,
            CONFIDENCE_LOW,
        );
        result.size = ecos_string.len();
        result.description.append(": \"");
        push_bytes(&mut result.description, ecos_string.as_slice());
        result.description.append("\"");
        return Ok(result);
    }
    Err(SignatureError)
}

/// A string reference covers the string and nothing more: it lies within the data, it is shorter
/// than the window, it holds no NULL byte, and a NULL byte follows it in the data
pub proof fn lemma_reference_within_data(data: Seq<u8>, offset: int)
    requires
        0 <= offset <= data.len(),
        is_string_reference(data, offset),
    ensures
        offset + reference_string(data, offset).len() < data.len(),
        reference_string(data, offset).len() < MAX_STRING_SIZE,
        data[offset + reference_string(data, offset).len()] == 0,
        reference_string(data, offset) == data.subrange(
            offset,
            offset + reference_string(data, offset).len(),
        ),
        forall|k: int|
            0 <= k < reference_string(data, offset).len() ==> #[trigger] reference_string(
                data,
                offset,
            )[k] != 0,
{
    let end = if offset + MAX_STRING_SIZE < data.len() {
        offset + MAX_STRING_SIZE
    } else {
        data.len() as int
    };
    crate::common::lemma_cstring_len(data.subrange(offset, end));
    assert(reference_string(data, offset) =~= data.subrange(
        offset,
        offset + reference_string(data, offset).len(),
    ));
}

} // verus!
