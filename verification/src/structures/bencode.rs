//! Bencoded values, as BitTorrent files hold them: integers `i<digits>e`, byte strings
//! `<length>:<bytes>`, lists `l<values>e` and dictionaries `d<string><value>...e`
use crate::text::{digits_value, is_digit};
use vstd::prelude::*;

verus! {

/// The bytes that open and close the values
pub const INTEGER_START: u8 = 0x69;

pub const LIST_START: u8 = 0x6C;

pub const DICTIONARY_START: u8 = 0x64;

pub const END: u8 = 0x65;

pub const STRING_SEPARATOR: u8 = 0x3A;

pub const MINUS: u8 = 0x2D;

/// How many decimal digits follow one another from `pos`
pub open spec fn digit_run(data: Seq<u8>, pos: nat) -> nat
    decreases data.len() - pos,
{
    if pos < data.len() && is_digit(data[pos as int]) {
        1 + digit_run(data, pos + 1)
    } else {
        0
    }
}

/// Where the integer whose digits start at `pos` ends: an optional minus sign, one or more
/// digits and the end marker
pub open spec fn integer_end(data: Seq<u8>, pos: nat) -> Option<nat> {
    let start = if pos < data.len() && data[pos as int] == MINUS {
        pos + 1
    } else {
        pos
    };
    let digits = digit_run(data, start);
    if digits > 0 && start + digits < data.len() && data[(start + digits) as int] == END {
        Some(start + digits + 1)
    } else {
        None
    }
}

/// Where the byte string that starts at `pos` ends: its length in decimal digits, the separator,
/// and that many bytes, all inside the data
pub open spec fn string_end(data: Seq<u8>, pos: nat) -> Option<nat> {
    let digits = digit_run(data, pos);
    if digits > 0 && pos + digits < data.len() && data[(pos + digits) as int] == STRING_SEPARATOR {
        let length = digits_value(data.subrange(pos as int, (pos + digits) as int));
        if pos + digits + 1 + length <= data.len() {
            Some(pos + digits + 1 + length)
        } else {
            None
        }
    } else {
        None
    }
}

/// Where the bencoded value that starts at `pos` ends, where one does
pub open spec fn value_end(data: Seq<u8>, pos: nat) -> Option<nat>
    decreases data.len() - pos, 0nat,
{
    if pos >= data.len() {
        None
    } else if data[pos as int] == INTEGER_START {
        integer_end(data, pos + 1)
    } else if is_digit(data[pos as int]) {
        string_end(data, pos)
    } else if data[pos as int] == LIST_START {
        items_end(data, pos + 1, false)
    } else if data[pos as int] == DICTIONARY_START {
        items_end(data, pos + 1, true)
    } else {
        None
    }
}

/// Where the items of a list or dictionary, from `pos` on, end with the end marker: the values of
/// a list, or the keys (byte strings) and values of a dictionary. A value always ends after it
/// starts, which the walk checks to move on.
pub open spec fn items_end(data: Seq<u8>, pos: nat, dictionary: bool) -> Option<nat>
    decreases data.len() - pos, 1nat,
{
    if pos >= data.len() {
        None
    } else if data[pos as int] == END {
        Some(pos + 1)
    } else {
        let value_start = if dictionary {
            string_end(data, pos)
        } else {
            Some(pos)
        };
        match value_start {
            None => None,
            Some(start) => match value_end(data, start) {
                None => None,
                Some(end) => if pos < end <= data.len() {
                    items_end(data, end, dictionary)
                } else {
                    None
                },
            },
        }
    }
}

/// A bencoded value that parses lies inside the data and ends after it starts, so the check that
/// the walk over items makes never turns one away
pub proof fn lemma_value_end_bounds(data: Seq<u8>, pos: nat)
    ensures
        value_end(data, pos) matches Some(end) ==> pos < end <= data.len(),
    decreases data.len() - pos, 0nat,
{
    if pos < data.len() && (data[pos as int] == LIST_START || data[pos as int]
        == DICTIONARY_START) {
        lemma_items_end_bounds(data, pos + 1, data[pos as int] == DICTIONARY_START);
    }
}

/// The items of a list or dictionary that parse, with their end marker, lie inside the data
pub proof fn lemma_items_end_bounds(data: Seq<u8>, pos: nat, dictionary: bool)
    ensures
        items_end(data, pos, dictionary) matches Some(end) ==> pos < end <= data.len(),
    decreases data.len() - pos, 1nat,
{
    if pos < data.len() && data[pos as int] != END {
        let value_start = if dictionary {
            string_end(data, pos)
        } else {
            Some(pos)
        };
        if let Some(start) = value_start {
            if let Some(end) = value_end(data, start) {
                if pos < end <= data.len() {
                    lemma_items_end_bounds(data, end, dictionary);
                }
            }
        }
    }
}

/// A number written in decimal digits, most significant first, with no leading zeros
pub open spec fn decimal_bytes(n: nat) -> Seq<u8>
    decreases n,
{
    if n < 10 {
        seq![(0x30 + n) as u8]
    } else {
        decimal_bytes(n / 10).push((0x30 + n % 10) as u8)
    }
}

/// Decimal digits read back as the number they write
proof fn lemma_decimal_bytes(n: nat)
    ensures
        decimal_bytes(n).len() >= 1,
        forall|i: int| 0 <= i < decimal_bytes(n).len() ==> is_digit(#[trigger] decimal_bytes(n)[i]),
        digits_value(decimal_bytes(n)) == n,
    decreases n,
{
    let s = decimal_bytes(n);
    let last = (0x30 + n % 10) as u8;
    assert(last == 0x30 + n % 10);
    if n < 10 {
        assert(s.drop_last() =~= Seq::<u8>::empty());
        assert(s.last() == last);
        assert(digits_value(s) == digits_value(s.drop_last()) * 10 + (s.last() - 0x30) as nat);
    } else {
        lemma_decimal_bytes(n / 10);
        assert(s.drop_last() =~= decimal_bytes(n / 10));
        assert(s.last() == last);
        assert(digits_value(s) == digits_value(s.drop_last()) * 10 + (s.last() - 0x30) as nat);
        assert((n / 10) * 10 + n % 10 == n);
    }
}

/// In digits followed by a byte that is not one, the run from `i` goes to the end of the digits
proof fn lemma_digit_run_to(data: Seq<u8>, i: nat, k: nat)
    requires
        i <= k < data.len(),
        forall|j: int| i <= j < k ==> is_digit(#[trigger] data[j]),
        !is_digit(data[k as int]),
    ensures
        digit_run(data, i) == k - i,
    decreases k - i,
{
    if i < k {
        lemma_digit_run_to(data, i + 1, k);
    }
}

/// A byte string is read whole, whatever its length: its length written in decimal, a colon and
/// that many bytes make one bencoded value that ends right after the bytes
pub proof fn lemma_byte_string_round_trip(bytes: Seq<u8>)
    ensures
        value_end(decimal_bytes(bytes.len()) + seq![STRING_SEPARATOR] + bytes, 0) == Some(
            decimal_bytes(bytes.len()).len() + 1 + bytes.len(),
        ),
{
    let digits = decimal_bytes(bytes.len());
    let data = digits + seq![STRING_SEPARATOR] + bytes;
    let k = digits.len();
    lemma_decimal_bytes(bytes.len());
    assert forall|j: int| 0 <= j < k implies is_digit(#[trigger] data[j]) by {
        assert(data[j] == digits[j]);
    }
    assert(data[k as int] == STRING_SEPARATOR);
    lemma_digit_run_to(data, 0, k);
    assert(data.subrange(0, k as int) =~= digits);
    assert(data[0] == digits[0]);
}

/// An integer is read whole, whatever its digits: "i", an optional minus sign, the number in
/// decimal and "e" make one bencoded value that ends right after the "e"
pub proof fn lemma_integer_round_trip(n: nat, negative: bool)
    ensures
        ({
            let sign = if negative {
                seq![MINUS]
            } else {
                Seq::<u8>::empty()
            };
            let data = seq![INTEGER_START] + sign + decimal_bytes(n) + seq![END];
            value_end(data, 0) == Some(data.len())
        }),
{
    let sign = if negative {
        seq![MINUS]
    } else {
        Seq::<u8>::empty()
    };
    let digits = decimal_bytes(n);
    let data = seq![INTEGER_START] + sign + digits + seq![END];
    let start = 1 + sign.len();
    let k = digits.len();
    lemma_decimal_bytes(n);
    assert forall|j: int| start <= j < start + k implies is_digit(#[trigger] data[j]) by {
        assert(data[j] == digits[j - start]);
    }
    assert(data[(start + k) as int] == END);
    lemma_digit_run_to(data, start as nat, (start + k) as nat);
    assert(data[0] == INTEGER_START);
    if negative {
        assert(data[1] == MINUS);
    } else {
        assert(data[1] == digits[0]);
    }
}

/// A run of digits that ends inside `d` is the same run wherever `d` is placed
proof fn lemma_digit_run_embedded(p: Seq<u8>, d: Seq<u8>, x: Seq<u8>, pos: nat)
    requires
        pos + digit_run(d, pos) < d.len(),
    ensures
        digit_run(p + d + x, p.len() + pos) == digit_run(d, pos),
    decreases d.len() - pos,
{
    let data = p + d + x;
    assert(data[(p.len() + pos) as int] == d[pos as int]);
    if is_digit(d[pos as int]) {
        lemma_digit_run_embedded(p, d, x, pos + 1);
    }
}

/// What a bencoded value is does not depend on where it is: a value that ends inside `d` is the
/// same value, shifted, when bytes come before and after `d`
pub proof fn lemma_value_end_embedded(p: Seq<u8>, d: Seq<u8>, x: Seq<u8>, pos: nat)
    requires
        value_end(d, pos) is Some,
    ensures
        value_end(p + d + x, p.len() + pos) == Some(p.len() + value_end(d, pos)->0),
    decreases d.len() - pos, 0nat,
{
    let data = p + d + x;
    let first = d[pos as int];
    assert(data[(p.len() + pos) as int] == first);
    if first == INTEGER_START {
        let start: nat = if pos + 1 < d.len() && d[pos + 1int] == MINUS {
            pos + 2
        } else {
            pos + 1
        };
        if pos + 1 < d.len() {
            assert(data[(p.len() + pos + 1) as int] == d[pos + 1int]);
        }
        lemma_digit_run_embedded(p, d, x, start);
        let digits = digit_run(d, start);
        assert(data[(p.len() + start + digits) as int] == d[(start + digits) as int]);
    } else if is_digit(first) {
        lemma_string_end_embedded(p, d, x, pos);
    } else {
        lemma_items_end_embedded(p, d, x, pos + 1, first == DICTIONARY_START);
    }
}

/// A byte string that ends inside `d` is the same byte string wherever `d` is placed
proof fn lemma_string_end_embedded(p: Seq<u8>, d: Seq<u8>, x: Seq<u8>, pos: nat)
    requires
        string_end(d, pos) is Some,
    ensures
        string_end(p + d + x, p.len() + pos) == Some(p.len() + string_end(d, pos)->0),
{
    let data = p + d + x;
    let digits = digit_run(d, pos);
    lemma_digit_run_embedded(p, d, x, pos);
    assert(data[(p.len() + pos + digits) as int] == d[(pos + digits) as int]);
    assert(data.subrange((p.len() + pos) as int, (p.len() + pos + digits) as int) =~= d.subrange(
        pos as int,
        (pos + digits) as int,
    ));
}

/// The items of a list or dictionary that end inside `d` are the same items wherever `d` is
/// placed
pub proof fn lemma_items_end_embedded(
    p: Seq<u8>,
    d: Seq<u8>,
    x: Seq<u8>,
    pos: nat,
    dictionary: bool,
)
    requires
        items_end(d, pos, dictionary) is Some,
    ensures
        items_end(p + d + x, p.len() + pos, dictionary) == Some(
            p.len() + items_end(d, pos, dictionary)->0,
        ),
    decreases d.len() - pos, 1nat,
{
    let data = p + d + x;
    assert(data[(p.len() + pos) as int] == d[pos as int]);
    if d[pos as int] != END {
        let value_start = if dictionary {
            string_end(d, pos)
        } else {
            Some(pos)
        };
        let start = value_start->0;
        let end = value_end(d, start)->0;
        if dictionary {
            lemma_string_end_embedded(p, d, x, pos);
        }
        lemma_value_end_bounds(d, start);
        lemma_value_end_embedded(p, d, x, start);
        lemma_items_end_embedded(p, d, x, end, dictionary);
    }
}

/// A bencoded value never starts with the end marker
proof fn lemma_value_not_end(d: Seq<u8>, pos: nat)
    requires
        value_end(d, pos) is Some,
    ensures
        d[pos as int] != END,
        pos < d.len(),
{
}

/// A list holds its values: "l", two whole values and "e" make one bencoded value that ends
/// right after the "e"
pub proof fn lemma_list_of_values(a: Seq<u8>, b: Seq<u8>)
    requires
        value_end(a, 0) == Some(a.len()),
        value_end(b, 0) == Some(b.len()),
    ensures
        value_end(seq![LIST_START] + a + b + seq![END], 0) == Some(a.len() + b.len() + 2),
{
    let data = seq![LIST_START] + a + b + seq![END];
    lemma_value_not_end(a, 0);
    lemma_value_not_end(b, 0);
    assert(data =~= seq![LIST_START] + a + (b + seq![END]));
    lemma_value_end_embedded(seq![LIST_START], a, b + seq![END], 0);
    assert(data =~= (seq![LIST_START] + a) + b + seq![END]);
    lemma_value_end_embedded(seq![LIST_START] + a, b, seq![END], 0);
    assert(data[0] == LIST_START);
    assert(data[1] == a[0]);
    assert(data[(1 + a.len()) as int] == b[0]);
    assert(data[(1 + a.len() + b.len()) as int] == END);
    assert(items_end(data, (1 + a.len() + b.len()) as nat, false) == Some(a.len() + b.len() + 2));
    assert(items_end(data, (1 + a.len()) as nat, false) == Some(a.len() + b.len() + 2));
}

/// A dictionary holds its entries: "d", a byte string key, a whole value and "e" make one
/// bencoded value that ends right after the "e"
pub proof fn lemma_dictionary_entry(key: Seq<u8>, value: Seq<u8>)
    requires
        value_end(value, 0) == Some(value.len()),
    ensures
        ({
            let k = decimal_bytes(key.len()) + seq![STRING_SEPARATOR] + key;
            value_end(seq![DICTIONARY_START] + k + value + seq![END], 0) == Some(
                k.len() + value.len() + 2,
            )
        }),
{
    let k = decimal_bytes(key.len()) + seq![STRING_SEPARATOR] + key;
    let data = seq![DICTIONARY_START] + k + value + seq![END];
    lemma_byte_string_round_trip(key);
    assert(value_end(k, 0) == string_end(k, 0)) by {
        lemma_decimal_bytes(key.len());
        assert(k[0] == decimal_bytes(key.len())[0]);
    }
    assert(data =~= seq![DICTIONARY_START] + k + (value + seq![END]));
    lemma_string_end_embedded(seq![DICTIONARY_START], k, value + seq![END], 0);
    lemma_value_not_end(k, 0);
    assert(data =~= (seq![DICTIONARY_START] + k) + value + seq![END]);
    lemma_value_end_embedded(seq![DICTIONARY_START] + k, value, seq![END], 0);
    lemma_value_not_end(value, 0);
    assert(data[0] == DICTIONARY_START);
    assert(data[1] == k[0]);
    assert(data[(1 + k.len() + value.len()) as int] == END);
    assert(items_end(data, (1 + k.len() + value.len()) as nat, true) == Some(k.len() + value.len() + 2));
}

/// Dictionary keys are byte strings: a dictionary whose first entry starts with anything but a
/// digit is no value
pub proof fn lemma_dictionary_key_is_string(data: Seq<u8>)
    requires
        data.len() >= 2,
        data[0] == DICTIONARY_START,
        data[1] != END,
        !is_digit(data[1]),
    ensures
        value_end(data, 0) is None,
{
    assert(digit_run(data, 1) == 0);
}

/// A run of digits that ends before `n` is the same run in the first `n` bytes
proof fn lemma_digit_run_prefix(data: Seq<u8>, pos: nat, n: nat)
    requires
        pos + digit_run(data, pos) < n <= data.len(),
    ensures
        digit_run(data.take(n as int), pos) == digit_run(data, pos),
    decreases data.len() - pos,
{
    if pos < data.len() && is_digit(data[pos as int]) {
        lemma_digit_run_prefix(data, pos + 1, n);
    }
}

/// A byte string that ends by `n` is the same byte string in the first `n` bytes
proof fn lemma_string_end_prefix(data: Seq<u8>, pos: nat, n: nat)
    requires
        string_end(data, pos) matches Some(end) && end <= n <= data.len(),
    ensures
        string_end(data.take(n as int), pos) == string_end(data, pos),
{
    let digits = digit_run(data, pos);
    lemma_digit_run_prefix(data, pos, n);
    assert(data.take(n as int).subrange(pos as int, (pos + digits) as int) =~= data.subrange(
        pos as int,
        (pos + digits) as int,
    ));
}

/// What a bencoded value is does not depend on the bytes after it: cutting the data anywhere
/// after the end of a value leaves the value as it was
pub proof fn lemma_value_end_prefix(data: Seq<u8>, pos: nat, n: nat)
    requires
        value_end(data, pos) matches Some(end) && end <= n <= data.len(),
    ensures
        value_end(data.take(n as int), pos) == value_end(data, pos),
    decreases data.len() - pos, 0nat,
{
    let first = data[pos as int];
    if first == INTEGER_START {
        let start = if data[pos + 1int] == MINUS {
            pos + 2
        } else {
            pos + 1
        };
        lemma_digit_run_prefix(data, start as nat, n);
    } else if is_digit(first) {
        lemma_string_end_prefix(data, pos, n);
    } else {
        lemma_items_end_prefix(data, pos + 1, first == DICTIONARY_START, n);
    }
}

/// The same holds of the items of a list or dictionary
pub proof fn lemma_items_end_prefix(data: Seq<u8>, pos: nat, dictionary: bool, n: nat)
    requires
        items_end(data, pos, dictionary) matches Some(end) && end <= n <= data.len(),
    ensures
        items_end(data.take(n as int), pos, dictionary) == items_end(data, pos, dictionary),
    decreases data.len() - pos, 1nat,
{
    if data[pos as int] != END {
        let value_start = if dictionary {
            string_end(data, pos)
        } else {
            Some(pos)
        };
        let start = value_start->0;
        let value = value_end(data, start)->0;
        lemma_items_end_bounds(data, value, dictionary);
        lemma_value_end_bounds(data, start);
        if dictionary {
            lemma_string_end_prefix(data, pos, n);
        }
        lemma_value_end_prefix(data, start, n);
        lemma_items_end_prefix(data, value, dictionary, n);
    }
}

/// Counts the decimal digits that follow one another from `pos`
fn digit_run_length(data: &[u8], pos: usize) -> (n: usize)
    requires
        pos <= data.len(),
    ensures
        n == digit_run(data@, pos as nat),
        pos + n <= data.len(),
        forall|k: int| pos <= k < pos + n ==> is_digit(#[trigger] data@[k]),
{
    let mut i: usize = pos;
    while i < data.len() && 0x30 <= data[i] && data[i] <= 0x39
        invariant
            pos <= i <= data.len(),
            digit_run(data@, pos as nat) == (i - pos) + digit_run(data@, i as nat),
            forall|k: int| pos <= k < i ==> is_digit(#[trigger] data@[k]),
        decreases data.len() - i,
    {
        i = i + 1;
    }
    i - pos
}

/// The value of the decimal digits `data[start..end]`, or `cap` where that is more
fn capped_digits_value(data: &[u8], start: usize, end: usize, cap: u128) -> (v: u128)
    requires
        start <= end <= data.len(),
        cap <= u64::MAX,
        forall|k: int| start <= k < end ==> is_digit(#[trigger] data@[k]),
    ensures
        v == if digits_value(data@.subrange(start as int, end as int)) < cap {
            digits_value(data@.subrange(start as int, end as int))
        } else {
            cap as nat
        },
{
    let mut v: u128 = 0;
    let mut i: usize = start;
    while i < end
        invariant
            start <= i <= end <= data.len(),
            cap <= u64::MAX,
            forall|k: int| start <= k < end ==> is_digit(#[trigger] data@[k]),
            v == if digits_value(data@.subrange(start as int, i as int)) < cap {
                digits_value(data@.subrange(start as int, i as int))
            } else {
                cap as nat
            },
        decreases end - i,
    {
        assert(data@.subrange(start as int, i + 1).drop_last() =~= data@.subrange(
            start as int,
            i as int,
        ));
        assert(is_digit(data@[i as int]));
        assert(data@.subrange(start as int, i + 1).last() == data@[i as int]);
        let digit: u128 = (data[i] - 0x30) as u128;
        assert(digits_value(data@.subrange(start as int, i + 1)) == digits_value(
            data@.subrange(start as int, i as int),
        ) * 10 + digit);
        let next = v * 10 + digit;
        v = if next < cap {
            next
        } else {
            cap
        };
        i = i + 1;
    }
    v
}

/// Finds where the byte string that starts at `pos` ends
fn bencoded_string_end(data: &[u8], pos: usize) -> (end: Option<usize>)
    requires
        pos <= data.len(),
    ensures
        end matches Some(e) ==> string_end(data@, pos as nat) == Some(e as nat),
        end is None ==> string_end(data@, pos as nat) is None,
{
    let digits = digit_run_length(data, pos);
    if digits == 0 || pos + digits >= data.len() || data[pos + digits] != STRING_SEPARATOR {
        return None;
    }
    let available = data.len() - (pos + digits + 1);
    let length = capped_digits_value(data, pos, pos + digits, available as u128 + 1);
    if length > available as u128 {
        return None;
    }
    Some(pos + digits + 1 + length as usize)
}

/// Finds where the integer whose digits start at `pos` ends
fn bencoded_integer_end(data: &[u8], pos: usize) -> (end: Option<usize>)
    requires
        pos <= data.len(),
    ensures
        end matches Some(e) ==> integer_end(data@, pos as nat) == Some(e as nat),
        end is None ==> integer_end(data@, pos as nat) is None,
{
    let start = if pos < data.len() && data[pos] == MINUS {
        pos + 1
    } else {
        pos
    };
    let digits = digit_run_length(data, start);
    if digits > 0 && start + digits < data.len() && data[start + digits] == END {
        Some(start + digits + 1)
    } else {
        None
    }
}

/// Finds where the bencoded value that starts at `pos` ends
fn bencoded_value_end(data: &[u8], pos: usize) -> (end: Option<usize>)
    requires
        pos <= data.len(),
    ensures
        end matches Some(e) ==> value_end(data@, pos as nat) == Some(e as nat) && pos < e
            <= data.len(),
        end is None ==> value_end(data@, pos as nat) is None,
    decreases data.len() - pos,
{
    if pos >= data.len() {
        return None;
    }
    let first = data[pos];
    if first == INTEGER_START {
        return bencoded_integer_end(data, pos + 1);
    }
    if 0x30 <= first && first <= 0x39 {
        return bencoded_string_end(data, pos);
    }
    if first != LIST_START && first != DICTIONARY_START {
        return None;
    }
    let dictionary = first == DICTIONARY_START;
    let mut item: usize = pos + 1;
    loop
        invariant
            pos < item <= data.len(),
            value_end(data@, pos as nat) == items_end(data@, item as nat, dictionary),
        decreases data.len() - item,
    {
        if item >= data.len() {
            return None;
        }
        if data[item] == END {
            return Some(item + 1);
        }
        let value_start = if dictionary {
            match bencoded_string_end(data, item) {
                Some(key_end) => key_end,
                None => return None,
            }
        } else {
            item
        };
        match bencoded_value_end(data, value_start) {
            Some(value_end) => {
                item = value_end;
            },
            None => return None,
        }
    }
}

/// Parses the bencoded value at the start of `data`, and returns its size
pub fn parse_bencoded_value(data: &[u8]) -> (result: Result<usize, ()>)
    ensures
        result matches Ok(size) ==> value_end(data@, 0) == Some(size as nat),
        result is Err ==> value_end(data@, 0) is None,
{
    match bencoded_value_end(data, 0) {
        Some(size) => Ok(size),
        None => Err(()),
    }
}

} // verus!
