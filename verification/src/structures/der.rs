//! DER encoded keys, certificates and signatures: an outer sequence whose length is given in two
//! bytes, and whose first element tells what it holds
use crate::structures::common::{pattern_at, read_u16, u16_at, Endianness};
use crate::text::matches_at;
use vstd::prelude::*;

verus! {

/// The sequence tag, the long form length marker and the two length bytes
pub const DER_HEADER_SIZE: usize = 4;

/// What a DER structure holds
#[derive(Debug, Clone, Copy, PartialEq, Eq)]
pub enum DERContents {
    PrivateKey,
    Certificate,
    Signature,
}

/// A PKCS#8 private key starts with its version, the integer 0
pub open spec fn private_key_start() -> Seq<u8> {
    seq![0x02u8, 0x01, 0x00]
}

/// An x509 certificate starts with the sequence of the signed certificate, whose first element
/// is the explicitly tagged version 3
pub open spec fn certificate_version() -> Seq<u8> {
    seq![0xA0u8, 0x03, 0x02, 0x01, 0x02]
}

/// A PKCS#7 signature starts with the object identifier of signed data, 1.2.840.113549.1.7.2
pub open spec fn signed_data_oid() -> Seq<u8> {
    seq![0x06u8, 0x09, 0x2A, 0x86, 0x48, 0x86, 0xF7, 0x0D, 0x01, 0x07, 0x02]
}

/// What the first element of the outer sequence says the structure holds
pub open spec fn der_contents(data: Seq<u8>) -> Option<DERContents> {
    if matches_at(data, private_key_start(), DER_HEADER_SIZE as int) {
        Some(DERContents::PrivateKey)
    } else if matches_at(data, seq![0x30u8, 0x82], DER_HEADER_SIZE as int) && matches_at(
        data,
        certificate_version(),
        DER_HEADER_SIZE + 4,
    ) {
        Some(DERContents::Certificate)
    } else if matches_at(data, signed_data_oid(), DER_HEADER_SIZE as int) {
        Some(DERContents::Signature)
    } else {
        None
    }
}

/// The outer sequence of a DER structure
pub struct DERHeader {
    pub total_size: usize,
    pub contents: DERContents,
}

/// The structure at the start of `data`, where there is one: a sequence with a two byte length,
/// whose contents are known; its size is the header and the length it gives
pub open spec fn der_structure(data: Seq<u8>) -> Option<DERHeader> {
    if data.len() >= DER_HEADER_SIZE && data[0] == 0x30 && data[1] == 0x82 {
        match der_contents(data) {
            Some(contents) => Some(
                DERHeader {
                    total_size: (DER_HEADER_SIZE + u16_at(data, 2, Endianness::Big)) as usize,
                    contents,
                },
            ),
            None => None,
        }
    } else {
        None
    }
}

/// Parses the DER structure at the start of `der_data`
pub fn parse_der_structure(der_data: &[u8]) -> (result: Result<DERHeader, ()>)
    ensures
        result is Ok <==> der_structure(der_data@) is Some,
        result matches Ok(header) ==> der_structure(der_data@) == Some(header),
{
    if der_data.len() < DER_HEADER_SIZE || der_data[0] != 0x30 || der_data[1] != 0x82 {
        return Err(());
    }
    let private_key = vec![0x02u8, 0x01, 0x00];
    let sequence = vec![0x30u8, 0x82];
    let version = vec![0xA0u8, 0x03, 0x02, 0x01, 0x02];
    let oid = vec![0x06u8, 0x09, 0x2A, 0x86, 0x48, 0x86, 0xF7, 0x0D, 0x01, 0x07, 0x02];
    let contents = if pattern_at(der_data, private_key.as_slice(), DER_HEADER_SIZE) {
        DERContents::PrivateKey
    } else if pattern_at(der_data, sequence.as_slice(), DER_HEADER_SIZE) && pattern_at(
        der_data,
        version.as_slice(),
        DER_HEADER_SIZE + 4,
    ) {
        DERContents::Certificate
    } else if pattern_at(der_data, oid.as_slice(), DER_HEADER_SIZE) {
        DERContents::Signature
    } else {
        return Err(());
    };
    let length = read_u16(der_data, 2, Endianness::Big) as usize;
    Ok(DERHeader { total_size: DER_HEADER_SIZE + length, contents })
}

} // verus!
