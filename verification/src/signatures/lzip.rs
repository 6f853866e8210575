//! lzip compressed data
use crate::signatures::common::{
    byte_at, get_byte, magics_are, SignatureError, SignatureResult, CONFIDENCE_MEDIUM,
};
use crate::text::{dec, push_dec};
use vstd::arithmetic::power2::pow2;
use vstd::prelude::*;
use vstd::string::StringExecFns;

verus! {

/// Human readable description
pub const DESCRIPTION: &'static str = "lzip compressed data";

/// Only one version of the format has been defined
pub const SUPPORTED_VERSION: u8 = 1;

pub const VERSION_OFFSET: usize = 4;

pub const DICTIONARY_SIZE_OFFSET: usize = 5;

/// The base of the dictionary size is a power of two in this range
pub const MIN_DICTIONARY_BASE: u8 = 12;

pub const MAX_DICTIONARY_BASE: u8 = 29;

/// lzip members start with these magic bytes
pub fn lzip_magic() -> (magics: Vec<Vec<u8>>)
    ensures
        magics_are(magics, seq![seq![0x4Cu8, 0x5A, 0x49, 0x50]]),
{
    vec![vec![0x4C, 0x5A, 0x49, 0x50]]
}

/// The exponent of the power of two that a coded dictionary size is based on: its low five bits
pub open spec fn dictionary_base(coded: u8) -> nat {
    (coded % 32) as nat
}

/// The numerator of the sixteenths taken off the power of two: the high three bits
pub open spec fn dictionary_fraction(coded: u8) -> nat {
    (coded / 32) as nat
}

/// The dictionary size is a power of two, less a fraction in sixteenths of that power of two
pub open spec fn dictionary_size(coded: u8) -> int {
    pow2(dictionary_base(coded)) - (pow2(dictionary_base(coded)) / 16) * dictionary_fraction(coded)
}

/// A header is valid where its version is the supported one and the base of its dictionary size
/// is in range
pub open spec fn lzip_header_valid(version: u8, coded: u8) -> bool {
    &&& version == SUPPORTED_VERSION
    &&& MIN_DICTIONARY_BASE <= dictionary_base(coded) <= MAX_DICTIONARY_BASE
}

/// Validate an lzip signature
///
/// The size of a member is only recorded in the trailer that ends it, which cannot be located
/// without decompressing the member, so the size is left unknown.
pub fn lzip_parser(file_data: &[u8], offset: usize) -> (result: Result<
    SignatureResult,
    SignatureError,
>)
    requires
        offset + DICTIONARY_SIZE_OFFSET <= usize::MAX,
    ensures
        match (
            byte_at(file_data@, offset + VERSION_OFFSET),
            byte_at(file_data@, offset + DICTIONARY_SIZE_OFFSET),
        ) {
            (Some(version), Some(coded)) => if lzip_header_valid(version, coded) {
                result matches Ok(r) && r.describes(
                    offset as int,
                    0,
                    DESCRIPTION@ + ", version: "@ + dec(version as nat) + ", dictionary size: "@
                        + dec(dictionary_size(coded) as nat) + " bytes"@,
                    CONFIDENCE_MEDIUM,
                )
            } else {
                result is Err
            },
            _ => result is Err,
        },
{
    let version = match get_byte(file_data, offset + VERSION_OFFSET) {
        Some(version) => version,
        None => return Err(SignatureError),
    };
    let coded_dictionary_size = match get_byte(file_data, offset + DICTIONARY_SIZE_OFFSET) {
        Some(coded_dictionary_size) => coded_dictionary_size,
        None => return Err(SignatureError),
    };

    // The exponent is in the low five bits of the field and the numerator of the fraction is in
    // the high three
    let dictionary_base: u8 = coded_dictionary_size & 0x1F;
    let dictionary_fraction: u8 = (coded_dictionary_size >> 5) & 0x07;
    assert(coded_dictionary_size & 0x1F == coded_dictionary_size % 32 && (coded_dictionary_size
        >> 5) & 0x07 == coded_dictionary_size / 32) by (bit_vector);

    if version != SUPPORTED_VERSION || dictionary_base < MIN_DICTIONARY_BASE || dictionary_base
        > MAX_DICTIONARY_BASE {
        return Err(SignatureError);
    }

    let base_size: u64 = 1u64 << (dictionary_base as u64);
    proof {
        vstd::arithmetic::power2::lemma_pow2_strictly_increases(dictionary_base as nat, 30);
        vstd::arithmetic::power2::lemma2_to64();
        vstd::bits::lemma_u64_shl_is_mul(1u64, dictionary_base as u64);
    }
    let sixteenth: u64 = base_size / 16;
    assert(sixteenth * (dictionary_fraction as u64) <= base_size) by (nonlinear_arith)
        requires
            sixteenth == base_size / 16,
            dictionary_fraction <= 7,
    ;
    let dictionary_size: u64 = base_size - sixteenth * (dictionary_fraction as u64);

    let mut result = SignatureResult::new(offset, DESCRIPTION, CONFIDENCE_MEDIUM);
    result.description.append(", version: ");
    push_dec(&mut result.description, version as u64);
    result.description.append(", dictionary size: ");
    push_dec(&mut result.description, dictionary_size);
    result.description.append(" bytes");
    Ok(result)
}

} // verus!
