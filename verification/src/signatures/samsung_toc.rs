//! Samsung modem TOC indexes
use crate::signatures::common::magics_are;
use vstd::prelude::*;

verus! {

/// Human readable description
pub const DESCRIPTION: &'static str = "Samsung modem TOC index";

/// The first entry of the index describes the index itself, and is named for it
pub fn samsung_toc_magic() -> (magics: Vec<Vec<u8>>)
    ensures
        magics_are(magics, seq![seq![0x54u8, 0x4F, 0x43, 0x00, 0x00, 0x00, 0x00]]),
{
    vec![vec![0x54, 0x4F, 0x43, 0x00, 0x00, 0x00, 0x00]]
}

} // verus!
