//! GNU tar incremental snapshots
use crate::common::slice_range;
use crate::signatures::common::{magics_are, SignatureError, SignatureResult, CONFIDENCE_HIGH};
use crate::text::{
    all_printable, check_all_printable, chars_of, dec, find_byte, find_last_byte, first_index_of,
    last_index_of, parse_unsigned, parse_unsigned_capped, push_bytes, push_dec,
};
use vstd::prelude::*;
use vstd::string::StringExecFns;

verus! {

/// Human readable description
pub const DESCRIPTION: &'static str = "GNU tar incremental snapshot";

/// The first line of a snapshot names the version of tar that wrote it and the version of the
/// snapshot format, as in "GNU tar-1.35-2"; it has to end within this many bytes
pub const MAX_HEADER_LINE: usize = 64;

pub const MAX_SNAPSHOT_FORMAT: u64 = 2;

/// Snapshot files start with this
pub fn tar_snapshot_magic() -> (magics: Vec<Vec<u8>>)
    ensures
        magics_are(magics, seq![seq![0x47u8, 0x4E, 0x55, 0x20, 0x74, 0x61, 0x72, 0x2D]]),
{
    vec![vec![0x47, 0x4E, 0x55, 0x20, 0x74, 0x61, 0x72, 0x2D]]
}

/// The first line of the snapshot at `offset`, without its newline, where the line ends within
/// `MAX_HEADER_LINE` bytes
pub open spec fn header_line(data: Seq<u8>, offset: int) -> Option<Seq<u8>> {
    let window_end = if offset + MAX_HEADER_LINE < data.len() {
        offset + MAX_HEADER_LINE
    } else {
        data.len() as int
    };
    if offset > data.len() {
        None
    } else {
        match first_index_of(data.subrange(offset, window_end), 0x0A) {
            Some(line_length) => Some(data.subrange(offset, offset + line_length)),
            None => None,
        }
    }
}

/// What the header line of a snapshot says: the version of tar, the text before the last `-`,
/// and the version of the snapshot format, the number after it
pub open spec fn snapshot_header(data: Seq<u8>, offset: int) -> Option<(Seq<u8>, nat)> {
    match header_line(data, offset) {
        None => None,
        Some(line) => if !all_printable(line) {
            None
        } else {
            match last_index_of(line, 0x2D) {
                None => None,
                Some(dash) => match parse_unsigned(line.subrange(dash + 1, line.len() as int)) {
                    Some(format) => if format <= MAX_SNAPSHOT_FORMAT {
                        Some((line.take(dash), format))
                    } else {
                        None
                    },
                    None => None,
                },
            }
        },
    }
}

/// Validate a GNU tar incremental snapshot signature
///
/// The line has to be terminated within the window, and to be printable text. What follows the
/// first line is a list of the directories in the archive, whose length is not described
/// anywhere, so the size is left unknown.
pub fn tar_snapshot_parser(file_data: &[u8], offset: usize) -> (result: Result<
    SignatureResult,
    SignatureError,
>)
    requires
        offset + MAX_HEADER_LINE <= usize::MAX,
    ensures
        match snapshot_header(file_data@, offset as int) {
            Some((tar_version, format)) => result matches Ok(r) && r.describes(
                offset as int,
                0,
                DESCRIPTION@ + ", written by "@ + chars_of(tar_version) + ", snapshot format: "@
                    + dec(format),
                CONFIDENCE_HIGH,
            ),
            None => result is Err,
        },
{
    if offset > file_data.len() {
        return Err(SignatureError);
    }
    let window_end = if offset + MAX_HEADER_LINE < file_data.len() {
        offset + MAX_HEADER_LINE
    } else {
        file_data.len()
    };
    let line_length = match find_byte(file_data, offset, window_end, 0x0A) {
        Some(line_length) => line_length,
        None => return Err(SignatureError),
    };
    proof {
        crate::text::lemma_first_index_in_bounds(
            file_data@.subrange(offset as int, window_end as int),
            0x0A,
        );
    }
    let header_line = slice_range(file_data, offset, offset + line_length);
    if !check_all_printable(header_line.as_slice()) {
        return Err(SignatureError);
    }
    // The snapshot format version is the last field of the line
    let dash = match find_last_byte(header_line.as_slice(), 0x2D) {
        Some(dash) => dash,
        None => return Err(SignatureError),
    };
    proof {
        crate::text::lemma_last_index_in_bounds(header_line@, 0x2D);
    }
    let format_text = slice_range(header_line.as_slice(), dash + 1, header_line.len());
    let snapshot_format = match parse_unsigned_capped(format_text.as_slice(), 1000) {
        Some(snapshot_format) => snapshot_format,
        None => return Err(SignatureError),
    };
    if snapshot_format > MAX_SNAPSHOT_FORMAT {
        return Err(SignatureError);
    }
    let tar_version = slice_range(header_line.as_slice(), 0, dash);
    let mut result = SignatureResult::new(offset, DESCRIPTION, CONFIDENCE_HIGH);
    result.description.append(", written by ");
    push_bytes(&mut result.description, tar_version.as_slice());
    result.description.append(", snapshot format: ");
    push_dec(&mut result.description, snapshot_format);
    Ok(result)
}

} // verus!
