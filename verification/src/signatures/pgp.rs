//! PGP armored data
use crate::common::slice_range;
use crate::signatures::common::{magics_are, SignatureError, SignatureResult, CONFIDENCE_HIGH};
use crate::text::{chars_of, dec, find_pattern, first_match, matches_at, push_bytes, push_dec};
use aho_corasick::AhoCorasick;
use vstd::prelude::*;
use vstd::string::StringExecFns;
use vstd::utf8::valid_utf8;

verus! {

/// Human readable description
pub const DESCRIPTION: &'static str = "PGP armored data";

/// "-----BEGIN " and the trailing "-----" that surround the armor type
pub const HEADER_PREFIX_SIZE: usize = 11;

pub const MARKER_SUFFIX_SIZE: usize = 5;

/// No armor type comes close to this long; multi part message types are the longest
pub const MAX_ARMOR_TYPE_LEN: usize = 64;

/// All PGP armor headers start with this string
pub fn pgp_armor_magic() -> (magics: Vec<Vec<u8>>)
    ensures
        magics_are(magics, seq![seq![
            0x2Du8, 0x2D, 0x2D, 0x2D, 0x2D, 0x42, 0x45, 0x47, 0x49, 0x4E, 0x20, 0x50, 0x47, 0x50,
            0x20,
        ]]),
{
    vec![vec![
        0x2D, 0x2D, 0x2D, 0x2D, 0x2D, 0x42, 0x45, 0x47, 0x49, 0x4E, 0x20, 0x50, 0x47, 0x50, 0x20,
    ]]
}

/// "-----", which ends the header line and both ends of the tail marker
pub open spec fn marker_suffix() -> Seq<u8> {
    seq![0x2Du8, 0x2D, 0x2D, 0x2D, 0x2D]
}

/// "-----END ", which starts the tail marker
pub open spec fn tail_prefix() -> Seq<u8> {
    seq![0x2Du8, 0x2D, 0x2D, 0x2D, 0x2D, 0x45, 0x4E, 0x44, 0x20]
}

/// "PGP SIGNED MESSAGE": cleartext signatures are the one armor type whose tail marker is not the
/// header's counterpart
pub open spec fn cleartext_header() -> Seq<u8> {
    seq![
        0x50u8, 0x47, 0x50, 0x20, 0x53, 0x49, 0x47, 0x4E, 0x45, 0x44, 0x20, 0x4D, 0x45, 0x53, 0x53,
        0x41, 0x47, 0x45,
    ]
}

/// "PGP SIGNATURE", the tail of cleartext signatures
pub open spec fn cleartext_tail() -> Seq<u8> {
    seq![0x50u8, 0x47, 0x50, 0x20, 0x53, 0x49, 0x47, 0x4E, 0x41, 0x54, 0x55, 0x52, 0x45]
}

/// Armor types are upper case ASCII; the comma, digits and forward slash are only used by multi
/// part messages, e.g. "PGP MESSAGE, PART 1/3"
pub open spec fn is_armor_type_char(b: u8) -> bool {
    (0x41 <= b <= 0x5A) || (0x30 <= b <= 0x39) || b == 0x20 || b == 0x2C || b == 0x2F
}

/// The header line of armored data: what follows "-----BEGIN ", read for at most the longest
/// armor type and the trailing "-----"
pub open spec fn header_window(armor_data: Seq<u8>) -> Seq<u8> {
    let end = if HEADER_PREFIX_SIZE + MAX_ARMOR_TYPE_LEN + MARKER_SUFFIX_SIZE < armor_data.len() {
        (HEADER_PREFIX_SIZE + MAX_ARMOR_TYPE_LEN + MARKER_SUFFIX_SIZE) as int
    } else {
        armor_data.len() as int
    };
    armor_data.subrange(HEADER_PREFIX_SIZE as int, end)
}

/// The armor type of a PGP armor header, e.g. "PGP PUBLIC KEY BLOCK": the text before the
/// trailing "-----", in a header line that is UTF-8 text; a candidate whose header line ends
/// before the trailing "-----" is found has none
pub open spec fn armor_type(armor_data: Seq<u8>) -> Option<Seq<u8>> {
    if armor_data.len() < HEADER_PREFIX_SIZE {
        None
    } else if !valid_utf8(header_window(armor_data)) {
        None
    } else {
        match first_match(header_window(armor_data), marker_suffix()) {
            None => None,
            Some(suffix_index) => {
                let t = header_window(armor_data).take(suffix_index);
                if t.len() > 0 && (forall|i: int|
                    0 <= i < t.len() ==> is_armor_type_char(#[trigger] t[i])) {
                    Some(t)
                } else {
                    None
                }
            },
        }
    }
}

/// The tail marker that terminates armored data of this type
pub open spec fn tail_marker(armor_type: Seq<u8>) -> Seq<u8> {
    tail_prefix() + (if armor_type == cleartext_header() {
        cleartext_tail()
    } else {
        armor_type
    }) + marker_suffix()
}

/// The number of newline characters, carriage return or line feed, from `start` on
pub open spec fn newline_run(data: Seq<u8>, start: int) -> nat
    decreases data.len() - start,
{
    if start < 0 || start >= data.len() || !(data[start] == 0x0D || data[start] == 0x0A) {
        0
    } else {
        1 + newline_run(data, start + 1)
    }
}

/// The total size of armored data: up to the end of the first tail marker, and any newline
/// characters after it
pub open spec fn armor_size(armor_data: Seq<u8>, tail_marker: Seq<u8>) -> Option<int> {
    match first_match(armor_data, tail_marker) {
        Some(i) => Some(i + tail_marker.len() + newline_run(armor_data, i + tail_marker.len())),
        None => None,
    }
}

/// What a valid armor at `offset` is: its type, and its total size
pub open spec fn pgp_armor(data: Seq<u8>, offset: int) -> Option<(Seq<u8>, int)> {
    let armor_data = data.subrange(offset, data.len() as int);
    match armor_type(armor_data) {
        None => None,
        Some(t) => match armor_size(armor_data, tail_marker(t)) {
            Some(size) => Some((t, size)),
            None => None,
        },
    }
}

/// Validate a PGP armored data signature
///
/// Armored data must be terminated by its tail marker; requiring it both validates the match and
/// provides the size of the data.
pub fn pgp_armor_parser(file_data: &[u8], offset: usize) -> (result: Result<
    SignatureResult,
    SignatureError,
>)
    requires
        offset <= file_data.len(),
    ensures
        match pgp_armor(file_data@, offset as int) {
            Some((armor_type, size)) => result matches Ok(r) && r.describes(
                offset as int,
                size,
                DESCRIPTION@ + ", type: \""@ + chars_of(armor_type) + "\", total size: "@ + dec(
                    size as nat,
                ) + " bytes"@,
                CONFIDENCE_HIGH,
            ),
            None => result is Err,
        },
{
    let armor_data = slice_range(file_data, offset, file_data.len());

    // Identify which type of armored data this is
    let armor_type = get_armor_type(armor_data.as_slice())?;

    // Build the tail marker that terminates this armored data
    let tail_marker = build_tail_marker(armor_type.as_slice());
    let size = find_armor_tail(armor_data.as_slice(), tail_marker.as_slice())?;

    let mut result = SignatureResult::new(offset, DESCRIPTION, CONFIDENCE_HIGH);
    result.size = size;
    result.description.append(", type: \"");
    push_bytes(&mut result.description, armor_type.as_slice());
    result.description.append("\", total size: ");
    push_dec(&mut result.description, size as u64);
    result.description.append(" bytes");
    Ok(result)
}

/// Whether `bytes` are UTF-8 text, which is what `std::str::from_utf8` accepts: it returns `Ok`
/// exactly for a valid UTF-8 encoding, as `valid_utf8` states it
#[verifier::external_body]
fn is_utf8(bytes: &[u8]) -> (valid: bool)
    ensures
        valid == valid_utf8(bytes@),
{
    std::str::from_utf8(bytes).is_ok()
}

/// Returns the armor type of a PGP armor header, e.g. "PGP PUBLIC KEY BLOCK"
fn get_armor_type(armor_data: &[u8]) -> (armor: Result<Vec<u8>, SignatureError>)
    ensures
        match armor_type(armor_data@) {
            Some(t) => armor matches Ok(a) && a@ == t,
            None => armor is Err,
        },
        armor matches Ok(a) ==> a@.len() <= MAX_ARMOR_TYPE_LEN + MARKER_SUFFIX_SIZE,
{
    if armor_data.len() < HEADER_PREFIX_SIZE {
        return Err(SignatureError);
    }
    let header_end = if HEADER_PREFIX_SIZE + MAX_ARMOR_TYPE_LEN + MARKER_SUFFIX_SIZE
        < armor_data.len() {
        HEADER_PREFIX_SIZE + MAX_ARMOR_TYPE_LEN + MARKER_SUFFIX_SIZE
    } else {
        armor_data.len()
    };
    let header = slice_range(armor_data, HEADER_PREFIX_SIZE, header_end);
    assert(header@ == header_window(armor_data@));

    // Only the header line is of interest, and it must be terminated by the trailing "-----"
    if !is_utf8(header.as_slice()) {
        return Err(SignatureError);
    }
    let suffix: [u8; 5] = [0x2D, 0x2D, 0x2D, 0x2D, 0x2D];
    assert(suffix@ == marker_suffix());
    let suffix_index = match find_pattern(header.as_slice(), &suffix) {
        Some(suffix_index) => suffix_index,
        None => return Err(SignatureError),
    };
    proof {
        crate::text::lemma_first_match(header@, marker_suffix());
    }
    let armor_type = slice_range(header.as_slice(), 0, suffix_index);
    assert(armor_type@ =~= header@.take(suffix_index as int));
    if armor_type.len() == 0 {
        return Err(SignatureError);
    }
    let mut i: usize = 0;
    while i < armor_type.len()
        invariant
            i <= armor_type.len(),
            armor_type@ == header_window(armor_data@).take(suffix_index as int),
            armor_data@.len() >= HEADER_PREFIX_SIZE,
            valid_utf8(header_window(armor_data@)),
            first_match(header_window(armor_data@), marker_suffix()) == Some(suffix_index as int),
            forall|k: int| 0 <= k < i ==> is_armor_type_char(#[trigger] armor_type@[k]),
        decreases armor_type.len() - i,
    {
        let c = armor_type[i];
        if !((0x41 <= c && c <= 0x5A) || (0x30 <= c && c <= 0x39) || c == 0x20 || c == 0x2C || c
            == 0x2F) {
            assert(!is_armor_type_char(
                header_window(armor_data@).take(suffix_index as int)[i as int],
            ));
            return Err(SignatureError);
        }
        i = i + 1;
    }
    Ok(armor_type)
}

/// Builds the tail marker that terminates armored data of this type
fn build_tail_marker(armor_type: &[u8]) -> (marker: Vec<u8>)
    ensures
        marker@ == tail_marker(armor_type@),
{
    let signed_message: [u8; 18] = [
        0x50, 0x47, 0x50, 0x20, 0x53, 0x49, 0x47, 0x4E, 0x45, 0x44, 0x20, 0x4D, 0x45, 0x53, 0x53,
        0x41, 0x47, 0x45,
    ];
    let signature: [u8; 13] = [
        0x50, 0x47, 0x50, 0x20, 0x53, 0x49, 0x47, 0x4E, 0x41, 0x54, 0x55, 0x52, 0x45,
    ];
    let mut marker: Vec<u8> = vec![0x2D, 0x2D, 0x2D, 0x2D, 0x2D, 0x45, 0x4E, 0x44, 0x20];
    let is_cleartext = bytes_equal(armor_type, &signed_message);
    assert(signed_message@ == cleartext_header());
    assert(signature@ == cleartext_tail());
    let tail_type: &[u8] = if is_cleartext {
        &signature
    } else {
        armor_type
    };
    append_bytes(&mut marker, tail_type);
    append_bytes(&mut marker, &[0x2D, 0x2D, 0x2D, 0x2D, 0x2D]);
    assert(marker@ =~= tail_marker(armor_type@));
    marker
}

/// Whether two byte strings are equal
fn bytes_equal(a: &[u8], b: &[u8]) -> (equal: bool)
    ensures
        equal == (a@ == b@),
{
    if a.len() != b.len() {
        return false;
    }
    let mut i: usize = 0;
    while i < a.len()
        invariant
            i <= a.len(),
            a.len() == b.len(),
            forall|k: int| 0 <= k < i ==> a@[k] == b@[k],
        decreases a.len() - i,
    {
        if a[i] != b[i] {
            return false;
        }
        i = i + 1;
    }
    assert(a@ =~= b@);
    true
}

/// Appends a byte string
fn append_bytes(v: &mut Vec<u8>, bytes: &[u8])
    ensures
        final(v)@ == old(v)@ + bytes@,
{
    let mut i: usize = 0;
    while i < bytes.len()
        invariant
            i <= bytes.len(),
            v@ == old(v)@ + bytes@.take(i as int),
        decreases bytes.len() - i,
    {
        v.push(bytes[i]);
        assert(bytes@.take(i + 1) =~= bytes@.take(i as int).push(bytes@[i as int]));
        i = i + 1;
    }
    assert(bytes@.take(bytes.len() as int) =~= bytes@);
}

/// The first occurrence of `needle` in `haystack`, found with `aho_corasick`: an automaton built
/// by `AhoCorasick::new` from the one pattern `needle`, and the first match that its `find_iter`
/// yields, by its `start`. With the standard match semantics of `new` that match is the first
/// one to end, and with a single pattern, whose matches all have its length, that is the one
/// that starts first; there is none where the pattern does not occur. `new` only fails past
/// limits on the number and length of patterns and states (near `i32::MAX`), far above the one
/// short pattern that `requires` admits, so its `unwrap` does not panic.
#[verifier::external_body]
fn find_first_occurrence(haystack: &[u8], needle: &[u8]) -> (found: Option<usize>)
    requires
        0 < needle.len() <= 4096,
    ensures
        found matches Some(i) ==> first_match(haystack@, needle@) == Some(i as int),
        found is None ==> first_match(haystack@, needle@) is None,
{
    let grep = AhoCorasick::new(vec![needle]).unwrap();
    grep.find_iter(haystack).next().map(|m| m.start())
}

/// Returns the total size of the armored data, including its tail marker and any trailing
/// newlines
fn find_armor_tail(armor_data: &[u8], tail_marker: &[u8]) -> (size: Result<usize, SignatureError>)
    requires
        0 < tail_marker.len() <= 4096,
    ensures
        size matches Ok(s) ==> armor_size(armor_data@, tail_marker@) == Some(s as int),
        size is Err ==> armor_size(armor_data@, tail_marker@) is None,
        size matches Ok(s) ==> s <= armor_data.len(),
{
    let tail_start = match find_first_occurrence(armor_data, tail_marker) {
        Some(tail_start) => tail_start,
        None => return Err(SignatureError),
    };
    proof {
        crate::text::lemma_first_match(armor_data@, tail_marker@);
        assert(matches_at(armor_data@, tail_marker@, tail_start as int));
    }
    assert(tail_start + tail_marker.len() <= armor_data.len());
    let mut armor_size: usize = tail_start + tail_marker.len();

    // Include any trailing newline characters in the total size
    while armor_size < armor_data.len() && (armor_data[armor_size] == 0x0D || armor_data[armor_size]
        == 0x0A)
        invariant
            tail_start + tail_marker.len() <= armor_size <= armor_data.len(),
            newline_run(armor_data@, (tail_start + tail_marker.len()) as int) == (armor_size - (
            tail_start + tail_marker.len())) + newline_run(armor_data@, armor_size as int),
        decreases armor_data.len() - armor_size,
    {
        armor_size = armor_size + 1;
    }
    Ok(armor_size)
}

/// Armored data ends with its tail marker: the size that the parser reports lies within the data,
/// and the tail marker is the first one after the match, followed only by newline characters up
/// to the end of the armor
pub proof fn lemma_armor_ends_with_tail(data: Seq<u8>, offset: int)
    requires
        0 <= offset <= data.len(),
    ensures
        pgp_armor(data, offset) matches Some((armor_type, size)) ==> {
            let armor_data = data.subrange(offset, data.len() as int);
            let marker = tail_marker(armor_type);
            &&& offset + size <= data.len()
            &&& first_match(armor_data, marker) matches Some(i)
            &&& matches_at(armor_data, marker, i)
            &&& forall|j: int| 0 <= j < i ==> !#[trigger] matches_at(armor_data, marker, j)
            &&& size == i + marker.len() + newline_run(armor_data, i + marker.len())
            &&& forall|k: int|
                i + marker.len() <= k < size ==> (#[trigger] armor_data[k] == 0x0D || armor_data[k]
                    == 0x0A)
        },
{
    if let Some((armor_type, size)) = pgp_armor(data, offset) {
        let armor_data = data.subrange(offset, data.len() as int);
        let marker = tail_marker(armor_type);
        crate::text::lemma_first_match(armor_data, marker);
        let i = first_match(armor_data, marker)->0;
        lemma_newline_run(armor_data, i + marker.len());
    }
}

/// What `newline_run` counts: newline characters, up to the end of the data at most
pub proof fn lemma_newline_run(data: Seq<u8>, start: int)
    requires
        0 <= start <= data.len(),
    ensures
        start + newline_run(data, start) <= data.len(),
        forall|k: int|
            start <= k < start + newline_run(data, start) ==> (#[trigger] data[k] == 0x0D
                || data[k] == 0x0A),
    decreases data.len() - start,
{
    if start < data.len() && (data[start] == 0x0D || data[start] == 0x0A) {
        lemma_newline_run(data, start + 1);
    }
}

} // verus!
