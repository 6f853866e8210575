//! Building the human readable descriptions of matches: decimal and hexadecimal numbers, text
//! taken byte for byte from file data, and the character classes that decide what counts as text.
use vstd::prelude::*;

verus! {

/// `String::push` appends the given character to the end of the string, as its documentation
/// says; this is all that is claimed of it
pub assume_specification[ String::push ](s: &mut String, ch: char)
    ensures
        final(s)@ == old(s)@.push(ch),
;

/// The character whose code is the byte, which is how a byte of file data becomes text
pub open spec fn byte_char(b: u8) -> char {
    b as char
}

/// File data read as text, one character per byte
pub open spec fn chars_of(bytes: Seq<u8>) -> Seq<char> {
    bytes.map_values(|b: u8| byte_char(b))
}

/// The digit character of a value below ten
pub open spec fn digit_char(d: nat) -> char {
    ((48 + d) as u8) as char
}

/// The upper case hexadecimal digit character of a value below sixteen
pub open spec fn hex_digit_char(d: nat) -> char {
    if d < 10 {
        ((48 + d) as u8) as char
    } else {
        ((55 + d) as u8) as char
    }
}

/// A number written in decimal, with no leading zeros
pub open spec fn dec(n: nat) -> Seq<char>
    decreases n,
{
    if n < 10 {
        seq![digit_char(n)]
    } else {
        dec(n / 10).push(digit_char(n % 10))
    }
}

/// A number written in upper case hexadecimal digits, with no leading zeros
pub open spec fn hex_digits(n: nat) -> Seq<char>
    decreases n,
{
    if n < 16 {
        seq![hex_digit_char(n)]
    } else {
        hex_digits(n / 16).push(hex_digit_char(n % 16))
    }
}

/// A byte written as `0x` and two upper case hexadecimal digits
pub open spec fn hex_byte(b: u8) -> Seq<char> {
    if b < 16 {
        seq!['0', 'x', '0'] + hex_digits(b as nat)
    } else {
        seq!['0', 'x'] + hex_digits(b as nat)
    }
}

/// Printable ASCII, other than the space
pub open spec fn is_graphic(b: u8) -> bool {
    0x21 <= b <= 0x7E
}

/// Printable ASCII, the space included
pub open spec fn is_printable(b: u8) -> bool {
    is_graphic(b) || b == 0x20
}

/// ASCII letters and digits
pub open spec fn is_alphanumeric(b: u8) -> bool {
    (0x30 <= b <= 0x39) || (0x41 <= b <= 0x5A) || (0x61 <= b <= 0x7A)
}

/// Text made only of printable ASCII
pub open spec fn all_printable(s: Seq<u8>) -> bool {
    forall|i: int| 0 <= i < s.len() ==> is_printable(#[trigger] s[i])
}

/// Text made only of printable ASCII other than the space
pub open spec fn all_graphic(s: Seq<u8>) -> bool {
    forall|i: int| 0 <= i < s.len() ==> is_graphic(#[trigger] s[i])
}

/// The printable ASCII that starts at `start` in the data, read for at most `max_size` bytes
pub open spec fn printable_run(data: Seq<u8>, start: int, max_size: int) -> Seq<u8> {
    let end = if start + max_size < data.len() {
        start + max_size
    } else {
        data.len() as int
    };
    let window = data.subrange(start, end);
    window.take(printable_prefix_len(window) as int)
}

/// The length of the longest prefix of `s` that is printable ASCII
pub open spec fn printable_prefix_len(s: Seq<u8>) -> nat
    decreases s.len(),
{
    if s.len() == 0 || !is_printable(s[0]) {
        0
    } else {
        1 + printable_prefix_len(s.drop_first())
    }
}

/// The number of leading spaces of `s`
pub open spec fn leading_spaces(s: Seq<u8>) -> nat
    decreases s.len(),
{
    if s.len() == 0 || s[0] != 0x20 {
        0
    } else {
        1 + leading_spaces(s.drop_first())
    }
}

/// The number of trailing spaces of `s`
pub open spec fn trailing_spaces(s: Seq<u8>) -> nat
    decreases s.len(),
{
    if s.len() == 0 || s.last() != 0x20 {
        0
    } else {
        1 + trailing_spaces(s.drop_last())
    }
}

/// `s` without its leading and trailing spaces
pub open spec fn trim_spaces(s: Seq<u8>) -> Seq<u8> {
    let front = leading_spaces(s) as int;
    if front == s.len() {
        Seq::empty()
    } else {
        s.subrange(front, s.len() - trailing_spaces(s))
    }
}

/// The index of the first `b` in `s`, where there is one
pub open spec fn first_index_of(s: Seq<u8>, b: u8) -> Option<int>
    decreases s.len(),
{
    if s.len() == 0 {
        None
    } else if s[0] == b {
        Some(0)
    } else {
        match first_index_of(s.drop_first(), b) {
            Some(i) => Some(i + 1),
            None => None,
        }
    }
}

/// The index of the last `b` in `s`, where there is one
pub open spec fn last_index_of(s: Seq<u8>, b: u8) -> Option<int>
    decreases s.len(),
{
    if s.len() == 0 {
        None
    } else if s.last() == b {
        Some(s.len() - 1)
    } else {
        last_index_of(s.drop_last(), b)
    }
}

/// `pattern` occurs at index `i` of `s`
pub open spec fn matches_at(s: Seq<u8>, pattern: Seq<u8>, i: int) -> bool {
    &&& 0 <= i
    &&& i + pattern.len() <= s.len()
    &&& s.subrange(i, i + pattern.len()) == pattern
}

/// The first index, from `i` on, at which `pattern` occurs in `s`
pub open spec fn find_from(s: Seq<u8>, pattern: Seq<u8>, i: int) -> Option<int>
    decreases s.len() - i + 1,
{
    if i < 0 || i + pattern.len() > s.len() {
        None
    } else if matches_at(s, pattern, i) {
        Some(i)
    } else {
        find_from(s, pattern, i + 1)
    }
}

/// The first index at which `pattern` occurs in `s`, where it occurs at all
pub open spec fn first_match(s: Seq<u8>, pattern: Seq<u8>) -> Option<int> {
    find_from(s, pattern, 0)
}

/// What `find_from` finds is the first occurrence from `i` on, and where it finds nothing there
/// is none
pub proof fn lemma_find_from(s: Seq<u8>, pattern: Seq<u8>, i: int)
    requires
        0 <= i,
    ensures
        find_from(s, pattern, i) matches Some(k) ==> {
            &&& i <= k
            &&& matches_at(s, pattern, k)
            &&& forall|j: int| i <= j < k ==> !#[trigger] matches_at(s, pattern, j)
        },
        find_from(s, pattern, i) is None ==> forall|j: int| i <= j ==> !#[trigger] matches_at(
            s,
            pattern,
            j,
        ),
    decreases s.len() - i + 1,
{
    if i + pattern.len() <= s.len() && !matches_at(s, pattern, i) {
        lemma_find_from(s, pattern, i + 1);
        assert forall|j: int|
            i <= j && (j < i + 1 || j + pattern.len() > s.len()) implies !matches_at(
            s,
            pattern,
            j,
        ) by {}
    }
}

/// The first match is the least index at which the pattern occurs
pub proof fn lemma_first_match(s: Seq<u8>, pattern: Seq<u8>)
    ensures
        first_match(s, pattern) matches Some(k) ==> {
            &&& matches_at(s, pattern, k)
            &&& forall|j: int| 0 <= j < k ==> !#[trigger] matches_at(s, pattern, j)
        },
        first_match(s, pattern) is None ==> forall|j: int| !#[trigger] matches_at(s, pattern, j),
{
    lemma_find_from(s, pattern, 0);
}

/// ASCII decimal digits
pub open spec fn is_digit(b: u8) -> bool {
    0x30 <= b <= 0x39
}

/// The value of a run of decimal digits
pub open spec fn digits_value(s: Seq<u8>) -> nat
    decreases s.len(),
{
    if s.len() == 0 {
        0
    } else {
        digits_value(s.drop_last()) * 10 + (s.last() - 0x30) as nat
    }
}

/// Text made only of decimal digits
pub open spec fn all_digits(s: Seq<u8>) -> bool {
    forall|i: int| 0 <= i < s.len() ==> is_digit(#[trigger] s[i])
}

/// The digits of an unsigned integer written as text: what follows an optional `+` sign
pub open spec fn unsigned_digits(s: Seq<u8>) -> Seq<u8> {
    if s.len() > 0 && s[0] == 0x2B {
        s.drop_first()
    } else {
        s
    }
}

/// What an unsigned integer parsed from text is: an optional `+` sign followed by one or more
/// decimal digits, and nothing else
pub open spec fn parse_unsigned(s: Seq<u8>) -> Option<nat> {
    let digits = unsigned_digits(s);
    if digits.len() > 0 && all_digits(digits) {
        Some(digits_value(digits))
    } else {
        None
    }
}

/// An index that `first_index_of` finds is inside the sequence and holds the byte
pub proof fn lemma_first_index_in_bounds(s: Seq<u8>, b: u8)
    ensures
        first_index_of(s, b) matches Some(i) ==> 0 <= i < s.len() && s[i] == b,
    decreases s.len(),
{
    if s.len() > 0 && s[0] != b {
        lemma_first_index_in_bounds(s.drop_first(), b);
    }
}

/// An index that `last_index_of` finds is inside the sequence and holds the byte
pub proof fn lemma_last_index_in_bounds(s: Seq<u8>, b: u8)
    ensures
        last_index_of(s, b) matches Some(i) ==> 0 <= i < s.len() && s[i] == b,
    decreases s.len(),
{
    if s.len() > 0 && s.last() != b {
        lemma_last_index_in_bounds(s.drop_last(), b);
    }
}

pub fn is_graphic_byte(b: u8) -> (r: bool)
    ensures
        r == is_graphic(b),
{
    0x21 <= b && b <= 0x7E
}

pub fn is_printable_byte(b: u8) -> (r: bool)
    ensures
        r == is_printable(b),
{
    (0x21 <= b && b <= 0x7E) || b == 0x20
}

pub fn is_alphanumeric_byte(b: u8) -> (r: bool)
    ensures
        r == is_alphanumeric(b),
{
    (0x30 <= b && b <= 0x39) || (0x41 <= b && b <= 0x5A) || (0x61 <= b && b <= 0x7A)
}

/// Whether every byte of `data[start..end]` is printable ASCII other than the space
pub fn check_all_graphic(data: &[u8], start: usize, end: usize) -> (r: bool)
    requires
        start <= end <= data.len(),
    ensures
        r == all_graphic(data@.subrange(start as int, end as int)),
{
    let mut i: usize = start;
    while i < end
        invariant
            start <= i <= end,
            end <= data.len(),
            forall|j: int| start <= j < i ==> is_graphic(#[trigger] data@[j]),
        decreases end - i,
    {
        if !is_graphic_byte(data[i]) {
            assert(data@.subrange(start as int, end as int)[i - start] == data@[i as int]);
            return false;
        }
        i = i + 1;
    }
    assert forall|k: int| 0 <= k < end - start implies is_graphic(
        #[trigger] data@.subrange(start as int, end as int)[k],
    ) by {
        assert(data@.subrange(start as int, end as int)[k] == data@[start + k]);
    }
    true
}

/// Reads the printable ASCII that starts at `start` in the data, for at most `max_size` bytes;
/// `None` where `start` is past the end of the data
pub fn read_printable_run(data: &[u8], start: usize, max_size: usize) -> (run: Option<Vec<u8>>)
    requires
        start + max_size <= usize::MAX,
    ensures
        match run {
            Some(run) => start <= data.len() && run@ == printable_run(
                data@,
                start as int,
                max_size as int,
            ),
            None => start > data.len(),
        },
{
    if start > data.len() {
        return None;
    }
    let end = if start + max_size < data.len() {
        start + max_size
    } else {
        data.len()
    };
    let n = printable_prefix_length(data, start, end);
    let mut run: Vec<u8> = Vec::new();
    let mut i: usize = start;
    while i < start + n
        invariant
            start <= i <= start + n,
            start + n <= end <= data.len(),
            run@ == data@.subrange(start as int, i as int),
        decreases start + n - i,
    {
        run.push(data[i]);
        assert(data@.subrange(start as int, i + 1) =~= data@.subrange(start as int, i as int).push(
            data@[i as int],
        ));
        i = i + 1;
    }
    assert(data@.subrange(start as int, end as int).take(n as int) =~= data@.subrange(
        start as int,
        (start + n) as int,
    ));
    Some(run)
}

/// Whether every byte of `s` is printable ASCII
pub fn check_all_printable(s: &[u8]) -> (r: bool)
    ensures
        r == all_printable(s@),
{
    let mut i: usize = 0;
    while i < s.len()
        invariant
            i <= s.len(),
            forall|j: int| 0 <= j < i ==> is_printable(#[trigger] s@[j]),
        decreases s.len() - i,
    {
        if !is_printable_byte(s[i]) {
            return false;
        }
        i = i + 1;
    }
    true
}

proof fn lemma_leading_spaces_bound(s: Seq<u8>)
    ensures
        leading_spaces(s) <= s.len(),
        forall|i: int| 0 <= i < leading_spaces(s) ==> s[i] == 0x20,
        leading_spaces(s) < s.len() ==> s[leading_spaces(s) as int] != 0x20,
    decreases s.len(),
{
    if s.len() > 0 && s[0] == 0x20 {
        lemma_leading_spaces_bound(s.drop_first());
        assert forall|i: int| 0 <= i < leading_spaces(s) implies s[i] == 0x20 by {
            if i > 0 {
                assert(s[i] == s.drop_first()[i - 1]);
            }
        }
    }
}

proof fn lemma_trailing_spaces_bound(s: Seq<u8>)
    ensures
        trailing_spaces(s) <= s.len(),
        forall|i: int| s.len() - trailing_spaces(s) <= i < s.len() ==> s[i] == 0x20,
        trailing_spaces(s) < s.len() ==> s[s.len() - 1 - trailing_spaces(s)] != 0x20,
    decreases s.len(),
{
    if s.len() > 0 && s.last() == 0x20 {
        lemma_trailing_spaces_bound(s.drop_last());
        assert forall|i: int| s.len() - trailing_spaces(s) <= i < s.len() implies s[i]
            == 0x20 by {
            if i < s.len() - 1 {
                assert(s[i] == s.drop_last()[i]);
            }
        }
    }
}

/// The number of leading spaces of `s`
pub fn count_leading_spaces(s: &[u8]) -> (n: usize)
    ensures
        n == leading_spaces(s@),
{
    let mut i: usize = 0;
    assert(s@.skip(0) =~= s@);
    while i < s.len() && s[i] == 0x20
        invariant
            i <= s.len(),
            leading_spaces(s@) == i + leading_spaces(s@.skip(i as int)),
        decreases s.len() - i,
    {
        assert(s@.skip(i as int).drop_first() =~= s@.skip(i + 1));
        i = i + 1;
    }
    i
}

/// The number of trailing spaces of `s`
pub fn count_trailing_spaces(s: &[u8]) -> (n: usize)
    ensures
        n == trailing_spaces(s@),
{
    let mut i: usize = s.len();
    assert(s@.take(s.len() as int) =~= s@);
    while i > 0 && s[i - 1] == 0x20
        invariant
            i <= s.len(),
            trailing_spaces(s@) == (s.len() - i) + trailing_spaces(s@.take(i as int)),
        decreases i,
    {
        assert(s@.take(i as int).drop_last() =~= s@.take(i - 1));
        i = i - 1;
    }
    s.len() - i
}

/// The length of the longest prefix of `data[start..end]` that is printable ASCII
pub fn printable_prefix_length(data: &[u8], start: usize, end: usize) -> (n: usize)
    requires
        start <= end <= data.len(),
    ensures
        n == printable_prefix_len(data@.subrange(start as int, end as int)),
        start + n <= end,
{
    let ghost w = data@.subrange(start as int, end as int);
    let mut i: usize = start;
    assert(w.skip(0) =~= w);
    while i < end && is_printable_byte(data[i])
        invariant
            start <= i <= end,
            end <= data.len(),
            w == data@.subrange(start as int, end as int),
            printable_prefix_len(w) == (i - start) + printable_prefix_len(w.skip(i - start)),
        decreases end - i,
    {
        assert(w.skip(i - start).drop_first() =~= w.skip(i + 1 - start));
        i = i + 1;
    }
    if i < end {
        assert(w.skip(i - start)[0] == data@[i as int]);
    }
    i - start
}

/// Returns the index of the first `b` in `data[start..end]`, where there is one
pub fn find_byte(data: &[u8], start: usize, end: usize, b: u8) -> (r: Option<usize>)
    requires
        start <= end <= data.len(),
    ensures
        r matches Some(i) ==> first_index_of(data@.subrange(start as int, end as int), b) == Some(
            i as int,
        ),
        r is None ==> first_index_of(data@.subrange(start as int, end as int), b) is None,
{
    let ghost w = data@.subrange(start as int, end as int);
    let mut i: usize = start;
    assert(w.skip(0) =~= w);
    while i < end
        invariant
            start <= i <= end,
            end <= data.len(),
            w == data@.subrange(start as int, end as int),
            first_index_of(w, b) == match first_index_of(w.skip(i - start), b) {
                Some(k) => Some(k + (i - start)),
                None => None,
            },
        decreases end - i,
    {
        if data[i] == b {
            assert(w.skip(i - start)[0] == data@[i as int]);
            return Some(i - start);
        }
        assert(w.skip(i - start).drop_first() =~= w.skip(i + 1 - start));
        i = i + 1;
    }
    None
}

/// Returns the first index at which `pattern` occurs in `s`, where it occurs at all
pub fn find_pattern(s: &[u8], pattern: &[u8]) -> (r: Option<usize>)
    ensures
        r matches Some(i) ==> first_match(s@, pattern@) == Some(i as int),
        r is None ==> first_match(s@, pattern@) is None,
{
    if pattern.len() > s.len() {
        return None;
    }
    let mut i: usize = 0;
    while i <= s.len() - pattern.len()
        invariant
            pattern.len() <= s.len(),
            i <= s.len() - pattern.len() + 1,
            first_match(s@, pattern@) == find_from(s@, pattern@, i as int),
        decreases s.len() - i,
    {
        let mut j: usize = 0;
        let mut equal = true;
        while j < pattern.len()
            invariant
                j <= pattern.len(),
                i + pattern.len() <= s.len(),
                equal == (forall|k: int| 0 <= k < j ==> s@[i + k] == pattern@[k]),
            decreases pattern.len() - j,
        {
            if s[i + j] != pattern[j] {
                equal = false;
            }
            j = j + 1;
        }
        if equal {
            assert(s@.subrange(i as int, i + pattern.len()) =~= pattern@);
            return Some(i);
        }
        assert(!matches_at(s@, pattern@, i as int)) by {
            let k = choose|k: int| 0 <= k < pattern.len() && s@[i + k] != pattern@[k];
            assert(s@.subrange(i as int, i + pattern.len())[k] != pattern@[k]);
        }
        i = i + 1;
    }
    None
}

/// Returns the index of the last `b` in `s`, where there is one
pub fn find_last_byte(s: &[u8], b: u8) -> (r: Option<usize>)
    ensures
        r matches Some(i) ==> last_index_of(s@, b) == Some(i as int),
        r is None ==> last_index_of(s@, b) is None,
{
    let mut i: usize = s.len();
    assert(s@.take(s.len() as int) =~= s@);
    while i > 0
        invariant
            i <= s.len(),
            last_index_of(s@, b) == last_index_of(s@.take(i as int), b),
        decreases i,
    {
        if s[i - 1] == b {
            return Some(i - 1);
        }
        assert(s@.take(i as int).drop_last() =~= s@.take(i - 1));
        i = i - 1;
    }
    None
}

/// Parses an unsigned integer from text; values above `cap` are reported as `cap`
pub fn parse_unsigned_capped(s: &[u8], cap: u64) -> (r: Option<u64>)
    requires
        cap < u64::MAX / 10,
    ensures
        match parse_unsigned(s@) {
            Some(v) => r == Some(if v < cap { v as u64 } else { cap }),
            None => r is None,
        },
{
    let start: usize = if s.len() > 0 && s[0] == 0x2B {
        1
    } else {
        0
    };
    let ghost digits = s@.subrange(start as int, s.len() as int);
    assert(digits =~= unsigned_digits(s@));
    if start == s.len() {
        return None;
    }
    let mut value: u64 = 0;
    let mut i: usize = start;
    while i < s.len()
        invariant
            start <= i <= s.len(),
            cap < u64::MAX / 10,
            digits == s@.subrange(start as int, s.len() as int),
            digits == unsigned_digits(s@),
            forall|k: int| start <= k < i ==> is_digit(#[trigger] s@[k]),
            value == if digits_value(s@.subrange(start as int, i as int)) < cap {
                digits_value(s@.subrange(start as int, i as int))
            } else {
                cap as nat
            },
        decreases s.len() - i,
    {
        if !(0x30 <= s[i] && s[i] <= 0x39) {
            assert(digits[i - start] == s@[i as int]);
            assert(!is_digit(digits[i - start]));
            return None;
        }
        let ghost prefix = s@.subrange(start as int, i as int);
        let ghost next = s@.subrange(start as int, i + 1);
        assert(next.drop_last() =~= prefix);
        assert(digits_value(next) == digits_value(prefix) * 10 + (s@[i as int] - 0x30) as nat);
        if value >= cap {
            assert(digits_value(prefix) * 10 >= digits_value(prefix)) by (nonlinear_arith);
            value = cap;
        } else {
            let candidate: u64 = value * 10 + (s[i] - 0x30) as u64;
            value = if candidate < cap {
                candidate
            } else {
                cap
            };
        }
        i = i + 1;
    }
    assert forall|k: int| 0 <= k < digits.len() implies is_digit(#[trigger] digits[k]) by {
        assert(digits[k] == s@[start + k]);
    }
    Some(value)
}

/// Appends a number, written in decimal
pub fn push_dec(s: &mut String, n: u64)
    ensures
        final(s)@ == old(s)@ + dec(n as nat),
    decreases n,
{
    if n >= 10 {
        push_dec(s, n / 10);
    }
    let d: u8 = (n % 10) as u8;
    s.push((48 + d) as char);
    assert(final(s)@ =~= old(s)@ + dec(n as nat));
}

/// Appends the upper case hexadecimal digits of a number
pub fn push_hex_digits(s: &mut String, n: u64)
    ensures
        final(s)@ == old(s)@ + hex_digits(n as nat),
    decreases n,
{
    if n >= 16 {
        push_hex_digits(s, n / 16);
    }
    let d: u8 = (n % 16) as u8;
    if d < 10 {
        s.push((48 + d) as char);
    } else {
        s.push((55 + d) as char);
    }
    assert(final(s)@ =~= old(s)@ + hex_digits(n as nat));
}

/// Appends a byte, written as `0x` and two upper case hexadecimal digits
pub fn push_hex_byte(s: &mut String, b: u8)
    ensures
        final(s)@ == old(s)@ + hex_byte(b),
{
    s.push('0');
    s.push('x');
    if b < 16 {
        s.push('0');
    }
    push_hex_digits(s, b as u64);
    assert(final(s)@ =~= old(s)@ + hex_byte(b));
}

/// Appends file data as text, one character per byte
pub fn push_bytes(s: &mut String, bytes: &[u8])
    ensures
        final(s)@ == old(s)@ + chars_of(bytes@),
{
    let mut i: usize = 0;
    while i < bytes.len()
        invariant
            i <= bytes.len(),
            s@ == old(s)@ + chars_of(bytes@.take(i as int)),
        decreases bytes.len() - i,
    {
        s.push(bytes[i] as char);
        assert(chars_of(bytes@.take(i + 1)) =~= chars_of(bytes@.take(i as int)).push(
            byte_char(bytes@[i as int]),
        ));
        i = i + 1;
    }
    assert(bytes@.take(bytes.len() as int) =~= bytes@);
}

/// Text that is printable ASCII, without its leading and trailing spaces
pub fn trimmed(bytes: &[u8]) -> (r: Vec<u8>)
    ensures
        r@ == trim_spaces(bytes@),
{
    proof {
        lemma_leading_spaces_bound(bytes@);
        lemma_trailing_spaces_bound(bytes@);
    }
    let front = count_leading_spaces(bytes);
    if front == bytes.len() {
        return Vec::new();
    }
    let back = count_trailing_spaces(bytes);
    assert(front + back <= bytes.len()) by {
        if front + back > bytes.len() {
            let k = bytes.len() - 1 - back;
            assert(0 <= k < front);
            assert(bytes@[k as int] == 0x20);
        }
    }
    let mut r: Vec<u8> = Vec::new();
    let mut i: usize = front;
    while i < bytes.len() - back
        invariant
            front <= i <= bytes.len() - back,
            front + back <= bytes.len(),
            r@ == bytes@.subrange(front as int, i as int),
        decreases bytes.len() - back - i,
    {
        r.push(bytes[i]);
        assert(bytes@.subrange(front as int, i + 1) =~= bytes@.subrange(
            front as int,
            i as int,
        ).push(bytes@[i as int]));
        i = i + 1;
    }
    r
}

} // verus!
