//! LZMA compressed data
use crate::signatures::common::magics_are;
use vstd::prelude::*;

verus! {

/// Human readable description
pub const DESCRIPTION: &'static str = "LZMA compressed data";

/// Known LZMA properties bytes.
///
/// The properties byte encodes the lc, lp and pb values as ((pb * 5) + lp) * 9 + lc. Only a
/// subset of the possible combinations are ever produced by real encoders; this is the list of
/// values that have been observed in the wild.
pub open spec fn known_properties() -> Seq<u8> {
    seq![
        0x51u8, 0x5A, 0x5B, 0x5C, 0x5D, 0x5E, 0x63, 0x64, 0x65, 0x66, 0x6C, 0x6D, 0x6E, 0x75, 0x76,
        0x7E, 0x87, 0x88, 0x89, 0x8A, 0x8B, 0x90, 0x91, 0x92, 0x93, 0x99, 0x9A, 0x9B, 0xA2, 0xA3,
        0xAB, 0xB4, 0xB5, 0xB6, 0xB7, 0xB8, 0xBD, 0xBE, 0xBF, 0xC0, 0xC6, 0xC7, 0xC8, 0xCF, 0xD0,
        0xD8,
    ]
}

/// The dictionary sizes that real encoders use
pub open spec fn known_dictionary_sizes() -> Seq<u32> {
    seq![
        0x10_00_00_00u32,
        0x20_00_00_00,
        0x01_00_00_00,
        0x02_00_00_00,
        0x04_00_00_00,
        0x00_80_00_00,
        0x00_40_00_00,
        0x00_20_00_00,
        0x00_10_00_00,
        0x00_08_00_00,
        0x00_02_00_00,
        0x00_01_00_00,
    ]
}

/// The four bytes of a value, least significant first
pub open spec fn le_bytes(value: u32) -> Seq<u8> {
    seq![
        (value % 256) as u8,
        (value / 256 % 256) as u8,
        (value / 65536 % 256) as u8,
        (value / 16777216 % 256) as u8,
    ]
}

/// The signature of a properties byte and a dictionary size: the byte, then the size in little
/// endian
pub open spec fn lzma_signature(property: u8, dictionary_size: u32) -> Seq<u8> {
    seq![property] + le_bytes(dictionary_size)
}

/// Builds a list of common LZMA magic bytes (properties + dictionary sizes)
///
/// This means having a lot of LZMA signatures, but they are less prone to false positives than
/// searching for a more generic, but shorter, signature, such as b"\x5d\x00\x00". This results
/// in less validation of false positives, improving analysis times. The signatures come property
/// by property, and for each property one per dictionary size, in the order of the lists above.
pub fn lzma_magic() -> (magic_signatures: Vec<Vec<u8>>)
    ensures
        magic_signatures@.len() == known_properties().len()
            * known_dictionary_sizes().len(),
        forall|p: int, d: int|
            0 <= p < known_properties().len() && 0 <= d < known_dictionary_sizes().len()
                ==> #[trigger] magic_signatures@[p * known_dictionary_sizes().len() + d]@
                == lzma_signature(known_properties()[p], known_dictionary_sizes()[d]),
{
    let supported_properties: Vec<u8> = vec![
        0x51, 0x5A, 0x5B, 0x5C, 0x5D, 0x5E, 0x63, 0x64, 0x65, 0x66, 0x6C, 0x6D, 0x6E, 0x75, 0x76,
        0x7E, 0x87, 0x88, 0x89, 0x8A, 0x8B, 0x90, 0x91, 0x92, 0x93, 0x99, 0x9A, 0x9B, 0xA2, 0xA3,
        0xAB, 0xB4, 0xB5, 0xB6, 0xB7, 0xB8, 0xBD, 0xBE, 0xBF, 0xC0, 0xC6, 0xC7, 0xC8, 0xCF, 0xD0,
        0xD8,
    ];
    let supported_dictionary_sizes: Vec<u32> = vec![
        0x10_00_00_00,
        0x20_00_00_00,
        0x01_00_00_00,
        0x02_00_00_00,
        0x04_00_00_00,
        0x00_80_00_00,
        0x00_40_00_00,
        0x00_20_00_00,
        0x00_10_00_00,
        0x00_08_00_00,
        0x00_02_00_00,
        0x00_01_00_00,
    ];
    assert(supported_properties@ == known_properties());
    assert(supported_dictionary_sizes@ == known_dictionary_sizes());
    let ghost n_sizes = known_dictionary_sizes().len() as int;
    let mut magic_signatures: Vec<Vec<u8>> = Vec::new();
    let mut p: usize = 0;
    while p < supported_properties.len()
        invariant
            p <= supported_properties.len(),
            supported_properties@ == known_properties(),
            supported_dictionary_sizes@ == known_dictionary_sizes(),
            n_sizes == 12,
            magic_signatures@.len() == p * n_sizes,
            forall|q: int, d: int|
                0 <= q < p && 0 <= d < n_sizes ==> #[trigger] magic_signatures@[q * n_sizes + d]@
                    == lzma_signature(known_properties()[q], known_dictionary_sizes()[d]),
        decreases supported_properties.len() - p,
    {
        let property = supported_properties[p];
        let mut d: usize = 0;
        while d < supported_dictionary_sizes.len()
            invariant
                p < supported_properties.len(),
                d <= supported_dictionary_sizes.len(),
                property == known_properties()[p as int],
                supported_properties@ == known_properties(),
                supported_dictionary_sizes@ == known_dictionary_sizes(),
                n_sizes == 12,
                magic_signatures@.len() == p * n_sizes + d,
                forall|q: int, e: int|
                    0 <= q < p && 0 <= e < n_sizes ==> #[trigger] magic_signatures@[q * n_sizes
                        + e]@ == lzma_signature(
                        known_properties()[q],
                        known_dictionary_sizes()[e],
                    ),
                forall|e: int|
                    0 <= e < d ==> #[trigger] magic_signatures@[p * n_sizes + e]@ == lzma_signature(
                        property,
                        known_dictionary_sizes()[e],
                    ),
            decreases supported_dictionary_sizes.len() - d,
        {
            let dictionary_size = supported_dictionary_sizes[d];
            let magic: Vec<u8> = vec![
                property,
                (dictionary_size % 256) as u8,
                (dictionary_size / 256 % 256) as u8,
                (dictionary_size / 65536 % 256) as u8,
                (dictionary_size / 16777216 % 256) as u8,
            ];
            assert(magic@ =~= lzma_signature(property, dictionary_size));
            let ghost before = magic_signatures@;
            magic_signatures.push(magic);
            assert forall|q: int, e: int|
                0 <= q < p && 0 <= e < n_sizes implies #[trigger] magic_signatures@[q * n_sizes
                + e]@ == lzma_signature(known_properties()[q], known_dictionary_sizes()[e]) by {
                assert(q * n_sizes + e < p * n_sizes) by (nonlinear_arith)
                    requires
                        0 <= q < p,
                        0 <= e < n_sizes,
                ;
                assert(magic_signatures@[q * n_sizes + e] == before[q * n_sizes + e]);
            }
            assert forall|e: int|
                0 <= e < d + 1 implies #[trigger] magic_signatures@[p * n_sizes + e]@
                == lzma_signature(property, known_dictionary_sizes()[e]) by {
                if e < d {
                    assert(magic_signatures@[p * n_sizes + e] == before[p * n_sizes + e]);
                }
            }
            d = d + 1;
        }
        assert forall|q: int, e: int|
            0 <= q < p + 1 && 0 <= e < n_sizes implies #[trigger] magic_signatures@[q * n_sizes
            + e]@ == lzma_signature(known_properties()[q], known_dictionary_sizes()[e]) by {
            if q == p {
                assert(magic_signatures@[p * n_sizes + e]@ == lzma_signature(
                    property,
                    known_dictionary_sizes()[e],
                ));
            }
        }
        assert((p + 1) * n_sizes == p * n_sizes + n_sizes) by (nonlinear_arith);
        p = p + 1;
    }
    magic_signatures
}

/// The little endian bytes of a value determine it
pub proof fn lemma_le_bytes_injective(a: u32, b: u32)
    requires
        le_bytes(a) == le_bytes(b),
    ensures
        a == b,
{
    assert(le_bytes(a)[0] == le_bytes(b)[0]);
    assert(le_bytes(a)[1] == le_bytes(b)[1]);
    assert(le_bytes(a)[2] == le_bytes(b)[2]);
    assert(le_bytes(a)[3] == le_bytes(b)[3]);
    assert(((a % 256) as u8 == (b % 256) as u8 && (a / 256 % 256) as u8 == (b / 256 % 256) as u8
        && (a / 65536 % 256) as u8 == (b / 65536 % 256) as u8 && (a / 16777216 % 256) as u8 == (b
        / 16777216 % 256) as u8) ==> a == b) by (bit_vector);
}

/// No signature appears twice in the list that `lzma_magic` builds: signatures of different
/// properties differ in their first byte, and those of different dictionary sizes in the bytes
/// of the size
pub proof fn lemma_lzma_signatures_distinct(p1: int, d1: int, p2: int, d2: int)
    requires
        0 <= p1 < known_properties().len(),
        0 <= p2 < known_properties().len(),
        0 <= d1 < known_dictionary_sizes().len(),
        0 <= d2 < known_dictionary_sizes().len(),
        p1 != p2 || d1 != d2,
    ensures
        lzma_signature(known_properties()[p1], known_dictionary_sizes()[d1]) != lzma_signature(
            known_properties()[p2],
            known_dictionary_sizes()[d2],
        ),
{
    let s1 = lzma_signature(known_properties()[p1], known_dictionary_sizes()[d1]);
    let s2 = lzma_signature(known_properties()[p2], known_dictionary_sizes()[d2]);
    if s1 == s2 {
        assert(s1[0] == s2[0]);
        assert(known_properties()[p1] == known_properties()[p2]);
        assert(p1 == p2);
        assert(s1.subrange(1, 5) =~= le_bytes(known_dictionary_sizes()[d1]));
        assert(s2.subrange(1, 5) =~= le_bytes(known_dictionary_sizes()[d2]));
        lemma_le_bytes_injective(known_dictionary_sizes()[d1], known_dictionary_sizes()[d2]);
        assert(d1 == d2);
    }
}

} // verus!
