//! Helpers shared by the parsers: reading NULL terminated strings out of file data, and deciding
//! whether the next offset of a walk over a series of records is still worth visiting.
use crate::text::{chars_of, push_bytes};
use vstd::prelude::*;

verus! {

/// The number of bytes of `raw_data` that precede its first NULL byte (all of them if it has none)
pub open spec fn cstring_len(raw_data: Seq<u8>) -> nat
    decreases raw_data.len(),
{
    if raw_data.len() == 0 || raw_data[0] == 0 {
        0
    } else {
        1 + cstring_len(raw_data.drop_first())
    }
}

/// The C string at the start of `raw_data`: the bytes before its first NULL byte
pub open spec fn cstring(raw_data: Seq<u8>) -> Seq<u8> {
    raw_data.take(cstring_len(raw_data) as int)
}

/// The length in bytes of the UTF-8 encoding of file data read as text, one character per byte:
/// bytes below 0x80 take one byte, the others two
pub open spec fn text_len(bytes: Seq<u8>) -> nat
    decreases bytes.len(),
{
    if bytes.len() == 0 {
        0
    } else {
        text_len(bytes.drop_last()) + if bytes.last() < 0x80 {
            1nat
        } else {
            2nat
        }
    }
}

/// What `cstring_len` counts: non-NULL bytes, then a NULL byte or the end of the data
pub proof fn lemma_cstring_len(raw_data: Seq<u8>)
    ensures
        cstring_len(raw_data) <= raw_data.len(),
        forall|i: int| 0 <= i < cstring_len(raw_data) ==> raw_data[i] != 0,
        cstring_len(raw_data) < raw_data.len() ==> raw_data[cstring_len(raw_data) as int] == 0,
    decreases raw_data.len(),
{
    if raw_data.len() > 0 && raw_data[0] != 0 {
        lemma_cstring_len(raw_data.drop_first());
        assert forall|i: int| 0 <= i < cstring_len(raw_data) implies raw_data[i] != 0 by {
            if i > 0 {
                assert(raw_data[i] == raw_data.drop_first()[i - 1]);
            }
        }
    }
}

/// Text read as ASCII is as long in UTF-8 as it is in bytes
pub proof fn lemma_text_len_ascii(bytes: Seq<u8>)
    requires
        forall|i: int| 0 <= i < bytes.len() ==> #[trigger] bytes[i] < 0x80,
    ensures
        text_len(bytes) == bytes.len(),
    decreases bytes.len(),
{
    if bytes.len() > 0 {
        lemma_text_len_ascii(bytes.drop_last());
    }
}

/// Text read one character per byte is at most twice as long in UTF-8
pub proof fn lemma_text_len_bound(bytes: Seq<u8>)
    ensures
        text_len(bytes) <= 2 * bytes.len(),
    decreases bytes.len(),
{
    if bytes.len() > 0 {
        lemma_text_len_bound(bytes.drop_last());
    }
}

/// Returns the number of bytes of `raw_data` that precede its first NULL byte
pub fn cstring_length(raw_data: &[u8]) -> (n: usize)
    ensures
        n == cstring_len(raw_data@),
{
    let mut i: usize = 0;
    assert(raw_data@.skip(0) =~= raw_data@);
    while i < raw_data.len() && raw_data[i] != 0
        invariant
            i <= raw_data.len(),
            cstring_len(raw_data@) == i + cstring_len(raw_data@.skip(i as int)),
        decreases raw_data.len() - i,
    {
        assert(raw_data@.skip(i as int).drop_first() =~= raw_data@.skip(i + 1));
        i = i + 1;
    }
    i
}

/// Get a C-style NULL-terminated string from the provided bytes; the terminating NULL byte is not
/// part of it, and each byte becomes the character with its code
pub fn get_cstring(raw_data: &[u8]) -> (string: String)
    ensures
        string@ == chars_of(cstring(raw_data@)),
{
    let length = cstring_length(raw_data);
    proof {
        lemma_cstring_len(raw_data@);
    }
    let mut string = String::new();
    push_bytes(&mut string, slice_prefix(raw_data, length).as_slice());
    string
}

/// Copies the C string at the start of `data[start..end]`: the bytes before its first NULL byte
pub fn get_cstring_bytes(data: &[u8], start: usize, end: usize) -> (string: Vec<u8>)
    requires
        start <= end <= data.len(),
    ensures
        string@ == cstring(data@.subrange(start as int, end as int)),
{
    let window = slice_range(data, start, end);
    let length = cstring_length(window.as_slice());
    proof {
        lemma_cstring_len(window@);
    }
    slice_prefix(window.as_slice(), length)
}

/// Returns the length in bytes of the UTF-8 encoding of `bytes` read as text, one character per
/// byte
pub fn text_length(bytes: &[u8]) -> (n: usize)
    requires
        bytes.len() <= usize::MAX / 2,
    ensures
        n == text_len(bytes@),
{
    let mut n: usize = 0;
    let mut i: usize = 0;
    while i < bytes.len()
        invariant
            i <= bytes.len(),
            bytes.len() <= usize::MAX / 2,
            n == text_len(bytes@.take(i as int)),
            n <= 2 * i,
        decreases bytes.len() - i,
    {
        assert(bytes@.take(i + 1).drop_last() =~= bytes@.take(i as int));
        if bytes[i] < 0x80 {
            n = n + 1;
        } else {
            n = n + 2;
        }
        i = i + 1;
    }
    assert(bytes@.take(bytes.len() as int) =~= bytes@);
    n
}

/// Copies the first `n` bytes of `data`
pub fn slice_prefix(data: &[u8], n: usize) -> (r: Vec<u8>)
    requires
        n <= data.len(),
    ensures
        r@ == data@.take(n as int),
{
    slice_range(data, 0, n)
}

/// Copies `data[start..end]`
pub fn slice_range(data: &[u8], start: usize, end: usize) -> (r: Vec<u8>)
    requires
        start <= end <= data.len(),
    ensures
        r@ == data@.subrange(start as int, end as int),
{
    let mut r: Vec<u8> = Vec::new();
    let mut i: usize = start;
    while i < end
        invariant
            start <= i <= end,
            end <= data.len(),
            r@ == data@.subrange(start as int, i as int),
        decreases end - i,
    {
        r.push(data[i]);
        assert(data@.subrange(start as int, i + 1) =~= data@.subrange(start as int, i as int).push(
            data@[i as int],
        ));
        i = i + 1;
    }
    r
}

/// The next offset of a walk is worth visiting if it is inside the data and past the previous one
pub open spec fn offset_is_safe(
    available_data: int,
    next_offset: int,
    last_offset: Option<usize>,
) -> bool {
    &&& next_offset < available_data
    &&& (last_offset matches Some(previous_offset) ==> previous_offset < next_offset)
}

/// Checks that the next offset of a walk over file data is inside the data and, where there was a
/// previous offset, that the walk has moved forward from it; this keeps such walks finite
pub fn is_offset_safe(
    available_data: usize,
    next_offset: usize,
    last_offset: Option<usize>,
) -> (safe: bool)
    ensures
        safe == offset_is_safe(available_data as int, next_offset as int, last_offset),
{
    if let Some(previous_offset) = last_offset {
        if previous_offset >= next_offset {
            return false;
        }
    }
    next_offset < available_data
}

} // verus!
