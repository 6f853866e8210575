//! Windows PE binaries: a DOS header, whose last field is the offset of the PE header, which
//! starts with "PE", two NULL bytes and the machine type
use crate::structures::common::{read_u16, read_u32, u16_at, u32_at, Endianness};
use vstd::prelude::*;

verus! {

/// The DOS header is sixty four bytes long
pub const DOS_HEADER_SIZE: usize = 0x40;

/// Where the DOS header holds the offset of the PE header
pub const PE_HEADER_OFFSET_FIELD: usize = 0x3C;

/// The PE signature and the machine type
pub const PE_SIGNATURE_SIZE: usize = 6;

/// The machine types of the PE format that are known here, by name
pub open spec fn machine_type_name(machine: nat) -> Option<Seq<char>> {
    if machine == 0x014C {
        Some("Intel x86"@)
    } else if machine == 0x8664 {
        Some("AMD x86-64"@)
    } else if machine == 0x0200 {
        Some("Intel Itanium"@)
    } else if machine == 0x01C0 {
        Some("ARM"@)
    } else if machine == 0x01C2 {
        Some("ARM Thumb"@)
    } else if machine == 0x01C4 {
        Some("ARM Thumb-2"@)
    } else if machine == 0xAA64 {
        Some("ARM64"@)
    } else if machine == 0x0166 {
        Some("MIPS"@)
    } else if machine == 0x01F0 {
        Some("PowerPC"@)
    } else if machine == 0x01A6 {
        Some("Hitachi SH4"@)
    } else if machine == 0x0EBC {
        Some("EFI byte code"@)
    } else {
        None
    }
}

/// The name of a known machine type
pub fn machine_name(machine: u16) -> (name: Option<&'static str>)
    ensures
        match name {
            Some(n) => machine_type_name(machine as nat) == Some(n@),
            None => machine_type_name(machine as nat) is None,
        },
{
    if machine == 0x014C {
        Some("Intel x86")
    } else if machine == 0x8664 {
        Some("AMD x86-64")
    } else if machine == 0x0200 {
        Some("Intel Itanium")
    } else if machine == 0x01C0 {
        Some("ARM")
    } else if machine == 0x01C2 {
        Some("ARM Thumb")
    } else if machine == 0x01C4 {
        Some("ARM Thumb-2")
    } else if machine == 0xAA64 {
        Some("ARM64")
    } else if machine == 0x0166 {
        Some("MIPS")
    } else if machine == 0x01F0 {
        Some("PowerPC")
    } else if machine == 0x01A6 {
        Some("Hitachi SH4")
    } else if machine == 0x0EBC {
        Some("EFI byte code")
    } else {
        None
    }
}

/// The reserved words of the DOS header, which must be zero
pub open spec fn is_reserved(i: int) -> bool {
    (0x1C <= i < 0x24) || (0x28 <= i < 0x3C)
}

/// The fields of a PE binary that a signature needs
pub struct PEHeader {
    pub machine: u16,
}

/// The PE header that the DOS header at the start of `data` leads to, where there is one: "MZ",
/// reserved words that are zero, and at the offset it holds "PE", two NULL bytes and a known
/// machine type
pub open spec fn pe_header(data: Seq<u8>) -> Option<PEHeader> {
    let pe = u32_at(data, PE_HEADER_OFFSET_FIELD as int, Endianness::Little) as int;
    if data.len() >= DOS_HEADER_SIZE && data[0] == 0x4D && data[1] == 0x5A && (forall|i: int|
        is_reserved(i) ==> #[trigger] data[i] == 0) && pe + PE_SIGNATURE_SIZE <= data.len()
        && data[pe as int] == 0x50 && data[pe + 1] == 0x45 && data[pe + 2] == 0 && data[pe + 3]
        == 0 && machine_type_name(u16_at(data, pe + 4, Endianness::Little)) is Some {
        Some(PEHeader { machine: u16_at(data, pe + 4, Endianness::Little) as u16 })
    } else {
        None
    }
}

/// Parses the PE header of the binary at the start of `pe_data`
pub fn parse_pe_header(pe_data: &[u8]) -> (result: Result<PEHeader, ()>)
    ensures
        result is Ok <==> pe_header(pe_data@) is Some,
        result matches Ok(header) ==> pe_header(pe_data@) == Some(header),
{
    if pe_data.len() < DOS_HEADER_SIZE || pe_data[0] != 0x4D || pe_data[1] != 0x5A {
        return Err(());
    }
    let mut i: usize = 0x1C;
    while i < 0x3C
        invariant
            0x1C <= i <= 0x3C,
            pe_data.len() >= DOS_HEADER_SIZE,
            forall|j: int| 0x1C <= j < i && is_reserved(j) ==> #[trigger] pe_data@[j] == 0,
        decreases 0x3C - i,
    {
        if is_reserved_byte(i) && pe_data[i] != 0 {
            assert(is_reserved(i as int));
            return Err(());
        }
        i = i + 1;
    }
    let pe = read_u32(pe_data, PE_HEADER_OFFSET_FIELD, Endianness::Little) as usize;
    if pe > pe_data.len() || PE_SIGNATURE_SIZE > pe_data.len() - pe || pe_data[pe] != 0x50
        || pe_data[pe + 1] != 0x45 || pe_data[pe + 2] != 0 || pe_data[pe + 3] != 0 {
        return Err(());
    }
    let machine = read_u16(pe_data, pe + 4, Endianness::Little);
    match machine_name(machine) {
        Some(_) => Ok(PEHeader { machine }),
        None => Err(()),
    }
}

/// Whether byte `i` of the DOS header is part of its reserved words
fn is_reserved_byte(i: usize) -> (reserved: bool)
    ensures
        reserved == is_reserved(i as int),
{
    (0x1C <= i && i < 0x24) || (0x28 <= i && i < 0x3C)
}

} // verus!
