//! EBML headers: the header element, whose size is a variable length integer, and whose children
//! include the document type; every element is an ID, a size and that many bytes of data
use crate::common::{cstring, cstring_len, get_cstring_bytes, lemma_cstring_len};
use crate::structures::common::pattern_at;
use crate::text::{all_printable, check_all_printable, is_printable, matches_at};
use vstd::arithmetic::power2::{lemma2_to64, lemma2_to64_rest, pow2};
use vstd::prelude::*;

verus! {

/// The ID of the EBML header element
pub open spec fn ebml_header_id() -> Seq<u8> {
    seq![0x1Au8, 0x45, 0xDF, 0xA3]
}

/// The length of the header element's ID
pub const EBML_ID_SIZE: usize = 4;

/// An element ID is at most four bytes long
pub const MAX_ID_SIZE: usize = 4;

/// How long the variable length integer whose first byte is `first` is: one byte more than the
/// zero bits before the first set bit; a zero byte starts none
pub open spec fn vint_length(first: u8) -> nat {
    if first >= 0x80 {
        1
    } else if first >= 0x40 {
        2
    } else if first >= 0x20 {
        3
    } else if first >= 0x10 {
        4
    } else if first >= 0x08 {
        5
    } else if first >= 0x04 {
        6
    } else if first >= 0x02 {
        7
    } else if first >= 0x01 {
        8
    } else {
        0
    }
}

/// The bit that marks the length of a variable length integer in its first byte
pub open spec fn vint_marker(length: nat) -> nat {
    if length == 1 {
        0x80
    } else if length == 2 {
        0x40
    } else if length == 3 {
        0x20
    } else if length == 4 {
        0x10
    } else if length == 5 {
        0x08
    } else if length == 6 {
        0x04
    } else if length == 7 {
        0x02
    } else {
        0x01
    }
}

/// `value` followed by the `n` big endian bytes that start at `start`
pub open spec fn be_extend(value: nat, data: Seq<u8>, start: int, n: nat) -> nat
    decreases n,
{
    if n == 0 {
        value
    } else {
        be_extend(value, data, start, (n - 1) as nat) * 0x100 + data[start + n - 1] as nat
    }
}

/// The variable length integer at `pos`, where one is there: its length in bytes and its value,
/// the bits after the marker
pub open spec fn vint_at(data: Seq<u8>, pos: int) -> Option<(nat, nat)> {
    if 0 <= pos < data.len() {
        let length = vint_length(data[pos]);
        if length > 0 && pos + length <= data.len() {
            Some(
                (
                    length,
                    be_extend(
                        (data[pos] - vint_marker(length)) as nat,
                        data,
                        pos + 1,
                        (length - 1) as nat,
                    ),
                ),
            )
        } else {
            None
        }
    } else {
        None
    }
}

/// A variable length integer is one byte longer than the zero bits before the first set bit of
/// its first byte: a first byte `b` starts an integer of `length` bytes exactly when
/// 2^(8 - length) <= b < 2^(9 - length), and a zero byte starts none
pub proof fn lemma_vint_length(first: u8)
    ensures
        first == 0 <==> vint_length(first) == 0,
        first != 0 ==> 1 <= vint_length(first) <= 8 && pow2((8 - vint_length(first)) as nat)
            <= first < pow2((9 - vint_length(first)) as nat),
{
    lemma2_to64();
}

/// The number that some bytes write, most significant first
pub open spec fn big_endian(bytes: Seq<u8>) -> nat
    decreases bytes.len(),
{
    if bytes.len() == 0 {
        0
    } else {
        big_endian(bytes.drop_last()) * 0x100 + bytes.last() as nat
    }
}

/// Reading one more byte of the data
proof fn lemma_big_endian_step(data: Seq<u8>, k: nat)
    requires
        k < data.len(),
    ensures
        big_endian(data.take(k + 1int)) == big_endian(data.take(k as int)) * 0x100 + data[k as int],
{
    assert(data.take(k + 1int).drop_last() =~= data.take(k as int));
}

/// Every value that fits a variable length integer of 1 to 8 bytes is read back: where the first
/// `length` bytes of the data write the number 2^(7 * length) + `value`, that is the length marker
/// bit followed by `value`, the integer there is `length` bytes long and its value is `value`
pub proof fn lemma_vint_round_trip(data: Seq<u8>, length: nat, value: nat)
    requires
        1 <= length <= 8,
        length <= data.len(),
        value < pow2(7 * length),
        big_endian(data.take(length as int)) == pow2(7 * length) + value,
    ensures
        vint_at(data, 0) == Some((length, value)),
{
    lemma2_to64();
    lemma2_to64_rest();
    reveal_with_fuel(be_extend, 8);
    assert(data.take(0) =~= Seq::<u8>::empty());
    lemma_big_endian_step(data, 0);
    if length >= 2 {
        lemma_big_endian_step(data, 1);
    }
    if length >= 3 {
        lemma_big_endian_step(data, 2);
    }
    if length >= 4 {
        lemma_big_endian_step(data, 3);
    }
    if length >= 5 {
        lemma_big_endian_step(data, 4);
    }
    if length >= 6 {
        lemma_big_endian_step(data, 5);
    }
    if length >= 7 {
        lemma_big_endian_step(data, 6);
    }
    if length >= 8 {
        lemma_big_endian_step(data, 7);
    }
    if length == 1 {
        let rest: int = 0;
        assert(big_endian(data.take(1)) == data[0] * 0x1 + rest);
        assert(0 <= rest < 0x1);
        assert(pow2(7 * length) == 0x80 * 0x1);
        lemma_first_byte(data[0] as int, rest, 0x1, 0x80, value as int);
        assert(vint_length(data[0]) == 1);
        assert(be_extend((data[0] - 0x80) as nat, data, 1, 0) == (data[0] - 0x80) * 0x1 + rest);
    } else if length == 2 {
        let rest: int = data[1] as int;
        assert(big_endian(data.take(2)) == data[0] * 0x100 + rest);
        assert(0 <= rest < 0x100);
        assert(pow2(7 * length) == 0x40 * 0x100);
        lemma_first_byte(data[0] as int, rest, 0x100, 0x40, value as int);
        assert(vint_length(data[0]) == 2);
        assert(be_extend((data[0] - 0x40) as nat, data, 1, 1) == (data[0] - 0x40) * 0x100 + rest);
    } else if length == 3 {
        let rest: int = data[1] * 0x100 + data[2];
        assert(big_endian(data.take(3)) == data[0] * 0x10000 + rest);
        assert(0 <= rest < 0x10000);
        assert(pow2(7 * length) == 0x20 * 0x10000);
        lemma_first_byte(data[0] as int, rest, 0x10000, 0x20, value as int);
        assert(vint_length(data[0]) == 3);
        assert(be_extend((data[0] - 0x20) as nat, data, 1, 2) == (data[0] - 0x20) * 0x10000 + rest);
    } else if length == 4 {
        let rest: int = data[1] * 0x10000 + data[2] * 0x100 + data[3];
        assert(big_endian(data.take(4)) == data[0] * 0x1000000 + rest);
        assert(0 <= rest < 0x1000000);
        assert(pow2(7 * length) == 0x10 * 0x1000000);
        lemma_first_byte(data[0] as int, rest, 0x1000000, 0x10, value as int);
        assert(vint_length(data[0]) == 4);
        assert(be_extend((data[0] - 0x10) as nat, data, 1, 3) == (data[0] - 0x10) * 0x1000000 + rest);
    } else if length == 5 {
        let rest: int = data[1] * 0x1000000 + data[2] * 0x10000 + data[3] * 0x100 + data[4];
        assert(big_endian(data.take(5)) == data[0] * 0x100000000 + rest);
        assert(0 <= rest < 0x100000000);
        assert(pow2(7 * length) == 0x8 * 0x100000000);
        lemma_first_byte(data[0] as int, rest, 0x100000000, 0x8, value as int);
        assert(vint_length(data[0]) == 5);
        assert(be_extend((data[0] - 0x8) as nat, data, 1, 4) == (data[0] - 0x8) * 0x100000000 + rest);
    } else if length == 6 {
        let rest: int = data[1] * 0x100000000 + data[2] * 0x1000000 + data[3] * 0x10000 + data[4] * 0x100 + data[5];
        assert(big_endian(data.take(6)) == data[0] * 0x10000000000 + rest);
        assert(0 <= rest < 0x10000000000);
        assert(pow2(7 * length) == 0x4 * 0x10000000000);
        lemma_first_byte(data[0] as int, rest, 0x10000000000, 0x4, value as int);
        assert(vint_length(data[0]) == 6);
        assert(be_extend((data[0] - 0x4) as nat, data, 1, 5) == (data[0] - 0x4) * 0x10000000000 + rest);
    } else if length == 7 {
        let rest: int = data[1] * 0x10000000000 + data[2] * 0x100000000 + data[3] * 0x1000000 + data[4] * 0x10000 + data[5] * 0x100 + data[6];
        assert(big_endian(data.take(7)) == data[0] * 0x1000000000000 + rest);
        assert(0 <= rest < 0x1000000000000);
        assert(pow2(7 * length) == 0x2 * 0x1000000000000);
        lemma_first_byte(data[0] as int, rest, 0x1000000000000, 0x2, value as int);
        assert(vint_length(data[0]) == 7);
        assert(be_extend((data[0] - 0x2) as nat, data, 1, 6) == (data[0] - 0x2) * 0x1000000000000 + rest);
    } else if length == 8 {
        let rest: int = data[1] * 0x1000000000000 + data[2] * 0x10000000000 + data[3] * 0x100000000 + data[4] * 0x1000000 + data[5] * 0x10000 + data[6] * 0x100 + data[7];
        assert(big_endian(data.take(8)) == data[0] * 0x100000000000000 + rest);
        assert(0 <= rest < 0x100000000000000);
        assert(pow2(7 * length) == 0x1 * 0x100000000000000);
        lemma_first_byte(data[0] as int, rest, 0x100000000000000, 0x1, value as int);
        assert(vint_length(data[0]) == 8);
        assert(be_extend((data[0] - 0x1) as nat, data, 1, 7) == (data[0] - 0x1) * 0x100000000000000 + rest);
    }
}

/// The first byte of a number of `scale` times 256 written after a marker bit: where the number
/// is the marker, `marker * scale`, plus a value below it, the first byte lies between the marker
/// and twice the marker, and the value is what follows the marker bit
proof fn lemma_first_byte(first: int, rest: int, scale: int, marker: int, value: int)
    requires
        0 <= rest < scale,
        0 <= value < marker * scale,
        0 < marker,
        first * scale + rest == marker * scale + value,
    ensures
        marker <= first < 2 * marker,
        value == (first - marker) * scale + rest,
{
    assert(marker <= first < 2 * marker) by (nonlinear_arith)
        requires
            0 <= rest < scale,
            0 <= value < marker * scale,
            0 < marker,
            first * scale + rest == marker * scale + value,
    ;
    assert(value == (first - marker) * scale + rest) by (nonlinear_arith)
        requires
            first * scale + rest == marker * scale + value,
    ;
}

/// Extending with more bytes never makes a value smaller
pub proof fn lemma_be_extend_grows(value: nat, data: Seq<u8>, start: int, m: nat, n: nat)
    requires
        m <= n,
    ensures
        be_extend(value, data, start, m) <= be_extend(value, data, start, n),
    decreases n,
{
    if m < n {
        lemma_be_extend_grows(value, data, start, m, (n - 1) as nat);
    }
}

/// The document type among the children of the header, from `pos` to `end`: the data of the first
/// child whose ID is 0x4282, up to its first NULL byte. Each child must lie inside the header.
pub open spec fn doc_type_from(data: Seq<u8>, pos: nat, end: nat) -> Option<Seq<u8>>
    decreases end - pos,
{
    if pos >= end || end > data.len() {
        None
    } else {
        let id_length = vint_length(data[pos as int]);
        if id_length == 0 || id_length > MAX_ID_SIZE || pos + id_length > end {
            None
        } else {
            match vint_at(data, (pos + id_length) as int) {
                None => None,
                Some((size_length, size)) => {
                    let data_start = pos + id_length + size_length;
                    let data_end = data_start + size;
                    if data_end > end {
                        None
                    } else if id_length == 2 && data[pos as int] == 0x42 && data[pos + 1int] == 0x82 {
                        Some(cstring(data.subrange(data_start as int, data_end as int)))
                    } else {
                        doc_type_from(data, data_end as nat, end)
                    }
                },
            }
        }
    }
}

/// The header at the start of `data`, where there is one: its size, ID and size field included,
/// and its document type, which must be printable
pub open spec fn ebml_header(data: Seq<u8>) -> Option<(nat, Seq<u8>)> {
    if matches_at(data, ebml_header_id(), 0) {
        match vint_at(data, EBML_ID_SIZE as int) {
            None => None,
            Some((size_length, size)) => {
                let header_size = EBML_ID_SIZE + size_length + size;
                if header_size <= data.len() {
                    match doc_type_from(data, (EBML_ID_SIZE + size_length) as nat, header_size as nat) {
                        Some(doc_type) => if all_printable(doc_type) {
                            Some((header_size as nat, doc_type))
                        } else {
                            None
                        },
                        None => None,
                    }
                } else {
                    None
                }
            },
        }
    } else {
        None
    }
}

/// A header that holds a DocType child reports that document type and its own whole length:
/// the header ID, a one byte size, then the DocType ID 0x4282, a one byte size and the printable
/// document type make a header of that type as long as those bytes
pub proof fn lemma_doc_type_header(doc_type: Seq<u8>)
    requires
        doc_type.len() <= 100,
        all_printable(doc_type),
    ensures
        ({
            let children = seq![0x42u8, 0x82, (0x80 + doc_type.len()) as u8] + doc_type;
            let data = ebml_header_id() + seq![(0x80 + children.len()) as u8] + children;
            ebml_header(data) == Some((data.len(), doc_type))
        }),
{
    let children = seq![0x42u8, 0x82, (0x80 + doc_type.len()) as u8] + doc_type;
    let data = ebml_header_id() + seq![(0x80 + children.len()) as u8] + children;
    assert(data.subrange(0, 4) =~= ebml_header_id());
    assert(data[4] == 0x80 + children.len());
    assert(vint_at(data, 4) == Some((1nat, children.len())));
    assert(data[5] == 0x42 && data[6] == 0x82);
    assert(data[7] == 0x80 + doc_type.len());
    assert(vint_at(data, 7) == Some((1nat, doc_type.len())));
    assert(data.subrange(8, data.len() as int) =~= doc_type);
    lemma_cstring_len(doc_type);
    if cstring_len(doc_type) < doc_type.len() {
        assert(is_printable(doc_type[cstring_len(doc_type) as int]));
    }
    assert(cstring(doc_type) =~= doc_type);
}

/// Reads the variable length integer at `pos`, where its value is at most `cap`
fn read_vint(data: &[u8], pos: usize, cap: usize) -> (vint: Option<(usize, usize)>)
    ensures
        vint matches Some((length, value)) ==> vint_at(data@, pos as int) == Some(
            (length as nat, value as nat),
        ) && value <= cap,
        vint is None ==> (vint_at(data@, pos as int) matches Some((l, v)) ==> v > cap),
{
    if pos >= data.len() {
        return None;
    }
    let first = data[pos];
    let (length, marker): (usize, u8) = if first >= 0x80 {
        (1, 0x80)
    } else if first >= 0x40 {
        (2, 0x40)
    } else if first >= 0x20 {
        (3, 0x20)
    } else if first >= 0x10 {
        (4, 0x10)
    } else if first >= 0x08 {
        (5, 0x08)
    } else if first >= 0x04 {
        (6, 0x04)
    } else if first >= 0x02 {
        (7, 0x02)
    } else if first >= 0x01 {
        (8, 0x01)
    } else {
        return None;
    };
    if length > data.len() - pos {
        return None;
    }
    let ghost start_value = (first - marker) as nat;
    let mut value: u128 = (first - marker) as u128;
    let mut k: usize = 1;
    while k < length
        invariant
            1 <= k <= length <= 8,
            pos + length <= data.len(),
            vint_length(data@[pos as int]) == length,
            start_value == (data@[pos as int] - vint_marker(length as nat)) as nat,
            value == be_extend(start_value, data@, pos + 1, (k - 1) as nat),
            value < 0x1_00_0000_0000_0000_0000,
        decreases length - k,
    {
        if value > cap as u128 {
            proof {
                lemma_be_extend_grows(
                    start_value,
                    data@,
                    pos + 1,
                    (k - 1) as nat,
                    (length - 1) as nat,
                );
            }
            return None;
        }
        value = value * 0x100 + data[pos + k] as u128;
        k = k + 1;
    }
    if value > cap as u128 {
        return None;
    }
    Some((length, value as usize))
}

/// Finds the document type among the children of the header, from `pos` to `end`
fn find_doc_type(data: &[u8], pos: usize, end: usize) -> (doc_type: Option<Vec<u8>>)
    requires
        pos <= end <= data.len(),
    ensures
        match doc_type_from(data@, pos as nat, end as nat) {
            Some(d) => doc_type matches Some(v) && v@ == d,
            None => doc_type is None,
        },
{
    let mut p: usize = pos;
    loop
        invariant
            pos <= p <= end <= data.len(),
            doc_type_from(data@, pos as nat, end as nat) == doc_type_from(
                data@,
                p as nat,
                end as nat,
            ),
        decreases end - p,
    {
        if p >= end {
            return None;
        }
        let first = data[p];
        let id_length: usize = if first >= 0x80 {
            1
        } else if first >= 0x40 {
            2
        } else if first >= 0x20 {
            3
        } else if first >= 0x10 {
            4
        } else {
            return None;
        };
        if id_length > end - p {
            return None;
        }
        let room = end - (p + id_length);
        let (size_length, size) = match read_vint(data, p + id_length, room) {
            Some(vint) => vint,
            None => return None,
        };
        if size_length > room || size > room - size_length {
            return None;
        }
        let data_start = p + id_length + size_length;
        let data_end = data_start + size;
        if id_length == 2 && first == 0x42 && data[p + 1] == 0x82 {
            return Some(get_cstring_bytes(data, data_start, data_end));
        }
        p = data_end;
    }
}

/// The fields of an EBML header
pub struct EBMLHeader {
    pub header_size: usize,
    pub doc_type: Vec<u8>,
}

/// Parses the header at the start of `ebml_data`
pub fn parse_ebml_header(ebml_data: &[u8]) -> (result: Result<EBMLHeader, ()>)
    ensures
        match ebml_header(ebml_data@) {
            Some((size, doc_type)) => result matches Ok(header) && header.header_size == size
                && header.doc_type@ == doc_type,
            None => result is Err,
        },
{
    let magic = vec![0x1Au8, 0x45, 0xDF, 0xA3];
    if !pattern_at(ebml_data, magic.as_slice(), 0) {
        return Err(());
    }
    let room = ebml_data.len() - EBML_ID_SIZE;
    let (size_length, size) = match read_vint(ebml_data, EBML_ID_SIZE, room) {
        Some(vint) => vint,
        None => return Err(()),
    };
    if size_length > room || size > room - size_length {
        return Err(());
    }
    let children_start = EBML_ID_SIZE + size_length;
    let header_size = children_start + size;
    let doc_type = match find_doc_type(ebml_data, children_start, header_size) {
        Some(doc_type) => doc_type,
        None => return Err(()),
    };
    if !check_all_printable(doc_type.as_slice()) {
        return Err(());
    }
    Ok(EBMLHeader { header_size, doc_type })
}

} // verus!
