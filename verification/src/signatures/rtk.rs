//! RTK firmware headers and Realtek ROME bootloader headers
use crate::signatures::common::magics_are;
use vstd::prelude::*;

verus! {

/// Human readable descriptions
pub const DESCRIPTION: &'static str = "RTK firmware header";

pub const ROME_DESCRIPTION: &'static str = "Realtek ROME bootloader firmware header";

/// ROME bootloader magic bytes; these are specific to each product that uses the bootloader:
/// "G614" for the Netgear KWGR614, and 0x59A0E842 for the Linksys WRT54GX
pub fn rome_magic() -> (magics: Vec<Vec<u8>>)
    ensures
        magics_are(
            magics,
            seq![
                seq![0x47u8, 0x36, 0x31, 0x34],
                seq![0x59u8, 0xA0, 0xE8, 0x42],
            ],
        ),
{
    vec![
        vec![0x47, 0x36, 0x31, 0x34],
        vec![0x59, 0xA0, 0xE8, 0x42],
    ]
}

/// RTK firmware images always start with these bytes
pub fn rtk_magic() -> (magics: Vec<Vec<u8>>)
    ensures
        magics_are(magics, seq![seq![0x52u8, 0x54, 0x4B, 0x30]]),
{
    vec![vec![0x52, 0x54, 0x4B, 0x30]]
}

} // verus!
