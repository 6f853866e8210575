//! Reading integers out of file data
use crate::text::matches_at;
use vstd::prelude::*;

verus! {

/// The byte order of a multi-byte integer
#[derive(Debug, Clone, Copy, PartialEq, Eq)]
pub enum Endianness {
    Little,
    Big,
}

/// How the byte order is named in descriptions
pub open spec fn endianness_name(endianness: Endianness) -> Seq<char> {
    match endianness {
        Endianness::Little => "little"@,
        Endianness::Big => "big"@,
    }
}

impl Endianness {
    /// The name of the byte order, "little" or "big"
    pub fn name(&self) -> (name: &'static str)
        ensures
            name@ == endianness_name(*self),
    {
        match self {
            Endianness::Little => "little",
            Endianness::Big => "big",
        }
    }
}

/// The unsigned 16 bit integer stored at `i`
pub open spec fn u16_at(data: Seq<u8>, i: int, endianness: Endianness) -> nat {
    match endianness {
        Endianness::Little => (data[i] + data[i + 1] * 0x100) as nat,
        Endianness::Big => (data[i] * 0x100 + data[i + 1]) as nat,
    }
}

/// The unsigned 24 bit little endian integer stored at `i`
pub open spec fn u24_le_at(data: Seq<u8>, i: int) -> nat {
    (data[i] + data[i + 1] * 0x100 + data[i + 2] * 0x10000) as nat
}

/// The unsigned 32 bit integer stored at `i`
pub open spec fn u32_at(data: Seq<u8>, i: int, endianness: Endianness) -> nat {
    match endianness {
        Endianness::Little => (data[i] + data[i + 1] * 0x100 + data[i + 2] * 0x10000 + data[i + 3]
            * 0x1000000) as nat,
        Endianness::Big => (data[i] * 0x1000000 + data[i + 1] * 0x10000 + data[i + 2] * 0x100
            + data[i + 3]) as nat,
    }
}

/// Reads the unsigned 16 bit integer at `i`
pub fn read_u16(data: &[u8], i: usize, endianness: Endianness) -> (value: u16)
    requires
        i + 2 <= data.len(),
    ensures
        value == u16_at(data@, i as int, endianness),
{
    let b0: u16 = data[i] as u16;
    let b1: u16 = data[i + 1] as u16;
    match endianness {
        Endianness::Little => b0 + b1 * 0x100,
        Endianness::Big => b0 * 0x100 + b1,
    }
}

/// Reads the unsigned 24 bit little endian integer at `i`
pub fn read_u24_le(data: &[u8], i: usize) -> (value: u32)
    requires
        i + 3 <= data.len(),
    ensures
        value == u24_le_at(data@, i as int),
{
    let b0: u32 = data[i] as u32;
    let b1: u32 = data[i + 1] as u32;
    let b2: u32 = data[i + 2] as u32;
    b0 + b1 * 0x100 + b2 * 0x10000
}

/// Reads the unsigned 32 bit integer at `i`
pub fn read_u32(data: &[u8], i: usize, endianness: Endianness) -> (value: u32)
    requires
        i + 4 <= data.len(),
    ensures
        value == u32_at(data@, i as int, endianness),
{
    let b0: u32 = data[i] as u32;
    let b1: u32 = data[i + 1] as u32;
    let b2: u32 = data[i + 2] as u32;
    let b3: u32 = data[i + 3] as u32;
    match endianness {
        Endianness::Little => b0 + b1 * 0x100 + b2 * 0x10000 + b3 * 0x1000000,
        Endianness::Big => b0 * 0x1000000 + b1 * 0x10000 + b2 * 0x100 + b3,
    }
}

/// The unsigned 64 bit big endian integer stored at `i`
pub open spec fn u64_be_at(data: Seq<u8>, i: int) -> nat {
    u32_at(data, i, Endianness::Big) * 0x1_0000_0000 + u32_at(data, i + 4, Endianness::Big)
}

/// Reads the unsigned 64 bit big endian integer at `i`
pub fn read_u64_be(data: &[u8], i: usize) -> (value: u64)
    requires
        i + 8 <= data.len(),
    ensures
        value == u64_be_at(data@, i as int),
{
    let high = read_u32(data, i, Endianness::Big) as u64;
    let low = read_u32(data, i + 4, Endianness::Big) as u64;
    high * 0x1_0000_0000 + low
}

/// Checks whether `pattern` occurs at `i` of `data`
pub fn pattern_at(data: &[u8], pattern: &[u8], i: usize) -> (found: bool)
    ensures
        found == matches_at(data@, pattern@, i as int),
{
    if i > data.len() || pattern.len() > data.len() - i {
        return false;
    }
    let mut k: usize = 0;
    while k < pattern.len()
        invariant
            k <= pattern.len(),
            i + pattern.len() <= data.len(),
            forall|j: int| 0 <= j < k ==> data@[i + j] == pattern@[j],
        decreases pattern.len() - k,
    {
        if data[i + k] != pattern[k] {
            assert(data@.subrange(i as int, i + pattern.len())[k as int] != pattern@[k as int]);
            return false;
        }
        k = k + 1;
    }
    assert(data@.subrange(i as int, i + pattern.len()) =~= pattern@);
    true
}

} // verus!
