//! VxWorks: WIND kernel versions, operating system version banners and symbol tables
use crate::common::{cstring, get_cstring_bytes, text_len, text_length};
use crate::signatures::common::{
    magics_are, SignatureError, SignatureResult, CONFIDENCE_HIGH, CONFIDENCE_LOW,
};
use crate::text::{chars_of, push_bytes};
use vstd::prelude::*;
use vstd::string::StringExecFns;

verus! {

/// Human readable descriptions
pub const SYMTAB_DESCRIPTION: &'static str = "VxWorks symbol table";

pub const WIND_KERNEL_DESCRIPTION: &'static str = "VxWorks WIND kernel version";

pub const OS_VERSION_DESCRIPTION: &'static str = "VxWorks operating system version";

/// Length of the WIND kernel magic bytes
pub const WIND_MAGIC_SIZE: usize = 13;

/// The version banner is a series of fixed size fields: the runtime name, which is the magic,
/// the version string, the runtime name again, and then the date the image was built.
pub const VERSION_OFFSET: usize = 8;

pub const RUNTIME_NAME_OFFSET: usize = 16;

pub const CREATION_DATE_OFFSET: usize = 32;

/// The length of the runtime name, "VxWorks"
pub const RUNTIME_NAME_SIZE: usize = 7;

/// The version has to fit in the field that follows the magic bytes
pub const MAX_VERSION_SIZE: usize = 8;

/// Sane limit on the length of the creation date string
pub const MAX_CREATION_DATE_SIZE: usize = 64;

/// VxWorks operating system version banner magic: the NULL terminated runtime name that starts
/// the version banner
pub fn os_version_magic() -> (magics: Vec<Vec<u8>>)
    ensures
        magics_are(magics, seq![seq![0x56u8, 0x78, 0x57, 0x6F, 0x72, 0x6B, 0x73, 0x00]]),
{
    vec![vec![0x56, 0x78, 0x57, 0x6F, 0x72, 0x6B, 0x73, 0x00]]
}

/// WIND kernel version magic: "WIND version "
pub fn wind_kernel_magic() -> (magics: Vec<Vec<u8>>)
    ensures
        magics_are(magics, seq![seq![
            0x57u8, 0x49, 0x4E, 0x44, 0x20, 0x76, 0x65, 0x72, 0x73, 0x69, 0x6F, 0x6E, 0x20,
        ]]),
{
    vec![vec![0x57, 0x49, 0x4E, 0x44, 0x20, 0x76, 0x65, 0x72, 0x73, 0x69, 0x6F, 0x6E, 0x20]]
}

/// VxWorks symbol table magic bytes: the type and group fields of a symbol table entry, for
/// both big and little endian targets
pub fn symbol_table_magic() -> (magics: Vec<Vec<u8>>)
    ensures
        magics_are(
            magics,
            seq![
                seq![0x00u8, 0x00, 0x05, 0x00, 0x00, 0x00, 0x00, 0x00],
                seq![0x00u8, 0x00, 0x07, 0x00, 0x00, 0x00, 0x00, 0x00],
                seq![0x00u8, 0x00, 0x09, 0x00, 0x00, 0x00, 0x00, 0x00],
                seq![0x00u8, 0x05, 0x00, 0x00, 0x00, 0x00, 0x00, 0x00],
                seq![0x00u8, 0x07, 0x00, 0x00, 0x00, 0x00, 0x00, 0x00],
                seq![0x00u8, 0x09, 0x00, 0x00, 0x00, 0x00, 0x00, 0x00],
            ],
        ),
{
    vec![
        vec![0x00, 0x00, 0x05, 0x00, 0x00, 0x00, 0x00, 0x00],
        vec![0x00, 0x00, 0x07, 0x00, 0x00, 0x00, 0x00, 0x00],
        vec![0x00, 0x00, 0x09, 0x00, 0x00, 0x00, 0x00, 0x00],
        vec![0x00, 0x05, 0x00, 0x00, 0x00, 0x00, 0x00, 0x00],
        vec![0x00, 0x07, 0x00, 0x00, 0x00, 0x00, 0x00, 0x00],
        vec![0x00, 0x09, 0x00, 0x00, 0x00, 0x00, 0x00, 0x00],
    ]
}

/// The version string that follows the WIND kernel magic at `offset`
pub open spec fn wind_version(data: Seq<u8>, offset: int) -> Seq<u8> {
    cstring(data.subrange(offset + WIND_MAGIC_SIZE, data.len() as int))
}

/// Validates WIND kernel version signatures: the magic bytes should be followed by a string
/// containing the wind kernel version, which is what the size covers
pub fn wind_kernel_parser(file_data: &[u8], offset: usize) -> (result: Result<
    SignatureResult,
    SignatureError,
>)
    requires
        offset + WIND_MAGIC_SIZE <= usize::MAX,
        WIND_MAGIC_SIZE + 2 * file_data.len() <= usize::MAX,
    ensures
        offset + WIND_MAGIC_SIZE > file_data.len() ==> result is Err,
        offset + WIND_MAGIC_SIZE <= file_data.len() ==> if wind_version(
            file_data@,
            offset as int,
        ).len() == 0 {
            result is Err
        } else {
            result matches Ok(r) && r.describes(
                offset as int,
                WIND_MAGIC_SIZE + text_len(wind_version(file_data@, offset as int)),
                WIND_KERNEL_DESCRIPTION@ + " "@ + chars_of(wind_version(file_data@, offset as int)),
                CONFIDENCE_LOW,
            )
        },
{
    let version_offset: usize = offset + WIND_MAGIC_SIZE;
    if version_offset > file_data.len() {
        return Err(SignatureError);
    }
    let version_string = get_cstring_bytes(file_data, version_offset, file_data.len());
    proof {
        crate::common::lemma_cstring_len(
            file_data@.subrange(version_offset as int, file_data.len() as int),
        );
    }
    if version_string.len() == 0 {
        return Err(SignatureError);
    }
    let version_length = text_length(version_string.as_slice());
    proof {
        crate::common::lemma_text_len_bound(version_string@);
    }
    let mut result = SignatureResult::new(offset, WIND_KERNEL_DESCRIPTION, CONFIDENCE_LOW);
    result.size = WIND_MAGIC_SIZE + version_length;
    result.description.append(" ");
    push_bytes(&mut result.description, version_string.as_slice());
    Ok(result)
}

/// A version banner at `offset`: the runtime name appears a second time, after the version
/// string, which is not empty and fits in its field
pub open spec fn banner_version(data: Seq<u8>, offset: int) -> Option<Seq<u8>> {
    let banner = data.subrange(offset, data.len() as int);
    if banner.len() < RUNTIME_NAME_OFFSET + RUNTIME_NAME_SIZE {
        None
    } else if banner.subrange(
        RUNTIME_NAME_OFFSET as int,
        (RUNTIME_NAME_OFFSET + RUNTIME_NAME_SIZE) as int,
    ) != seq![0x56u8, 0x78, 0x57, 0x6F, 0x72, 0x6B, 0x73] {
        None
    } else {
        let version = cstring(banner.subrange(VERSION_OFFSET as int, RUNTIME_NAME_OFFSET as int));
        if version.len() == 0 || text_len(version) >= MAX_VERSION_SIZE {
            None
        } else {
            Some(version)
        }
    }
}

/// The creation date of the banner at `offset`, which is optional: a non-empty string of less
/// than `MAX_CREATION_DATE_SIZE` bytes after the fixed fields
pub open spec fn banner_creation_date(data: Seq<u8>, offset: int) -> Option<Seq<u8>> {
    let banner = data.subrange(offset, data.len() as int);
    let date_end = if CREATION_DATE_OFFSET + MAX_CREATION_DATE_SIZE < banner.len() {
        (CREATION_DATE_OFFSET + MAX_CREATION_DATE_SIZE) as int
    } else {
        banner.len() as int
    };
    if banner.len() < CREATION_DATE_OFFSET {
        None
    } else {
        let date = cstring(banner.subrange(CREATION_DATE_OFFSET as int, date_end));
        if date.len() == 0 || text_len(date) >= MAX_CREATION_DATE_SIZE {
            None
        } else {
            Some(date)
        }
    }
}

/// Validates VxWorks operating system version signatures
///
/// The banner covers its fixed fields and, where there is one, the creation date.
pub fn os_version_parser(file_data: &[u8], offset: usize) -> (result: Result<
    SignatureResult,
    SignatureError,
>)
    requires
        offset <= file_data.len(),
    ensures
        match banner_version(file_data@, offset as int) {
            None => result is Err,
            Some(version) => result matches Ok(r) && match banner_creation_date(
                file_data@,
                offset as int,
            ) {
                None => r.describes(
                    offset as int,
                    CREATION_DATE_OFFSET as int,
                    OS_VERSION_DESCRIPTION@ + ": \""@ + chars_of(version) + "\""@,
                    CONFIDENCE_HIGH,
                ),
                Some(date) => r.describes(
                    offset as int,
                    CREATION_DATE_OFFSET + text_len(date),
                    OS_VERSION_DESCRIPTION@ + ": \""@ + chars_of(version) + "\""@
                        + ", compiled: \""@ + chars_of(date) + "\""@,
                    CONFIDENCE_HIGH,
                ),
            },
        },
{
    let ghost banner = file_data@.subrange(offset as int, file_data.len() as int);
    let available = file_data.len() - offset;
    if available < RUNTIME_NAME_OFFSET + RUNTIME_NAME_SIZE {
        return Err(SignatureError);
    }
    let name_start = offset + RUNTIME_NAME_OFFSET;
    let runtime_name: [u8; 7] = [0x56, 0x78, 0x57, 0x6F, 0x72, 0x6B, 0x73];
    let mut i: usize = 0;
    while i < RUNTIME_NAME_SIZE
        invariant
            i <= RUNTIME_NAME_SIZE,
            name_start + RUNTIME_NAME_SIZE <= file_data.len(),
            name_start == offset + RUNTIME_NAME_OFFSET,
            runtime_name@ == seq![0x56u8, 0x78, 0x57, 0x6F, 0x72, 0x6B, 0x73],
            banner == file_data@.subrange(offset as int, file_data.len() as int),
            forall|k: int| 0 <= k < i ==> file_data@[name_start + k] == runtime_name@[k],
        decreases RUNTIME_NAME_SIZE - i,
    {
        if file_data[name_start + i] != runtime_name[i] {
            assert(banner.subrange(
                RUNTIME_NAME_OFFSET as int,
                (RUNTIME_NAME_OFFSET + RUNTIME_NAME_SIZE) as int,
            )[i as int] != runtime_name@[i as int]);
            return Err(SignatureError);
        }
        i = i + 1;
    }
    assert(banner.subrange(
        RUNTIME_NAME_OFFSET as int,
        (RUNTIME_NAME_OFFSET + RUNTIME_NAME_SIZE) as int,
    ) =~= seq![0x56u8, 0x78, 0x57, 0x6F, 0x72, 0x6B, 0x73]);

    // A banner with no version string in it is of no use
    let version = get_cstring_bytes(file_data, offset + VERSION_OFFSET, name_start);
    assert(banner.subrange(VERSION_OFFSET as int, RUNTIME_NAME_OFFSET as int)
        =~= file_data@.subrange(offset + VERSION_OFFSET, name_start as int));
    proof {
        crate::common::lemma_cstring_len(
            file_data@.subrange(offset + VERSION_OFFSET, name_start as int),
        );
    }
    let version_length = text_length(version.as_slice());
    if version.len() == 0 || version_length >= MAX_VERSION_SIZE {
        return Err(SignatureError);
    }
    let mut result = SignatureResult::new(offset, OS_VERSION_DESCRIPTION, CONFIDENCE_HIGH);
    result.size = CREATION_DATE_OFFSET;
    result.description.append(": \"");
    push_bytes(&mut result.description, version.as_slice());
    result.description.append("\"");

    // The creation date is optional
    if available >= CREATION_DATE_OFFSET {
        let date_end = if CREATION_DATE_OFFSET + MAX_CREATION_DATE_SIZE < available {
            CREATION_DATE_OFFSET + MAX_CREATION_DATE_SIZE
        } else {
            available
        };
        let creation_date = get_cstring_bytes(
            file_data,
            offset + CREATION_DATE_OFFSET,
            offset + date_end,
        );
        assert(banner.subrange(CREATION_DATE_OFFSET as int, date_end as int)
            =~= file_data@.subrange(offset + CREATION_DATE_OFFSET, offset + date_end));
        proof {
            crate::common::lemma_cstring_len(
                file_data@.subrange(offset + CREATION_DATE_OFFSET, offset + date_end),
            );
        }
        let date_length = text_length(creation_date.as_slice());
        if creation_date.len() != 0 && date_length < MAX_CREATION_DATE_SIZE {
            result.size = result.size + date_length;
            result.description.append(", compiled: \"");
            push_bytes(&mut result.description, creation_date.as_slice());
            result.description.append("\"");
        }
    }
    Ok(result)
}

/// The WIND kernel version that the parser reports lies within the data where the version string
/// is ASCII: the magic and the string are all that the size covers
pub proof fn lemma_wind_version_within_data(data: Seq<u8>, offset: int)
    requires
        0 <= offset,
        offset + WIND_MAGIC_SIZE <= data.len(),
        forall|i: int|
            0 <= i < wind_version(data, offset).len() ==> #[trigger] wind_version(data, offset)[i]
                < 0x80,
    ensures
        offset + WIND_MAGIC_SIZE + text_len(wind_version(data, offset)) <= data.len(),
{
    crate::common::lemma_cstring_len(data.subrange(offset + WIND_MAGIC_SIZE, data.len() as int));
    crate::common::lemma_text_len_ascii(wind_version(data, offset));
}

/// A version banner that the parser accepts lies within the data where the data holds its fixed
/// fields and its creation date, if any, is ASCII
pub proof fn lemma_banner_within_data(data: Seq<u8>, offset: int)
    requires
        0 <= offset,
        offset + CREATION_DATE_OFFSET <= data.len(),
        banner_creation_date(data, offset) matches Some(date) ==> forall|i: int|
            0 <= i < date.len() ==> #[trigger] date[i] < 0x80,
    ensures
        banner_creation_date(data, offset) matches Some(date) ==> offset + CREATION_DATE_OFFSET
            + text_len(date) <= data.len(),
{
    if let Some(date) = banner_creation_date(data, offset) {
        let banner = data.subrange(offset, data.len() as int);
        let date_end = if CREATION_DATE_OFFSET + MAX_CREATION_DATE_SIZE < banner.len() {
            (CREATION_DATE_OFFSET + MAX_CREATION_DATE_SIZE) as int
        } else {
            banner.len() as int
        };
        crate::common::lemma_cstring_len(banner.subrange(CREATION_DATE_OFFSET as int, date_end));
        crate::common::lemma_text_len_ascii(date);
    }
}

} // verus!
