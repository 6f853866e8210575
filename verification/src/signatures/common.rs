//! What every signature parser returns: where a match starts, how large it is when that is
//! known, a description of it, and how much confidence the match deserves.
use vstd::prelude::*;
use vstd::string::StringExecFns;

verus! {

/// Confidence levels of a match
pub const CONFIDENCE_LOW: u8 = 0;

pub const CONFIDENCE_MEDIUM: u8 = 128;

pub const CONFIDENCE_HIGH: u8 = 250;

/// A validated match of a signature
#[derive(Debug)]
pub struct SignatureResult {
    /// Where the matched data starts in the file
    pub offset: usize,
    /// The size of the matched data; zero where it is unknown
    pub size: usize,
    /// A human readable description of the matched data
    pub description: String,
    /// How much confidence the match deserves
    pub confidence: u8,
    /// Set where the match is the whole file, so that carving it out again would gain nothing
    pub extraction_declined: bool,
}

/// A match that turned out not to be the signature it looked like
#[derive(Debug, Clone, Copy, PartialEq, Eq)]
pub struct SignatureError;

impl SignatureResult {
    /// The result has these offset, size, description and confidence, and its extraction is not
    /// declined
    pub open spec fn describes(
        &self,
        offset: int,
        size: int,
        description: Seq<char>,
        confidence: u8,
    ) -> bool {
        &&& self.offset == offset
        &&& self.size == size
        &&& self.description@ == description
        &&& self.confidence == confidence
        &&& !self.extraction_declined
    }

    /// A result at `offset` of unknown size, described by `description` alone
    pub fn new(offset: usize, description: &str, confidence: u8) -> (result: Self)
        ensures
            result.describes(offset as int, 0, description@, confidence),
    {
        SignatureResult {
            offset,
            size: 0,
            description: String::from_str(description),
            confidence,
            extraction_declined: false,
        }
    }
}

/// The byte at `index` of the data, where there is one
pub open spec fn byte_at(data: Seq<u8>, index: int) -> Option<u8> {
    if 0 <= index < data.len() {
        Some(data[index])
    } else {
        None
    }
}

/// Returns the byte at `index` of the data, where there is one
pub fn get_byte(data: &[u8], index: usize) -> (b: Option<u8>)
    ensures
        b == byte_at(data@, index as int),
{
    if index < data.len() {
        Some(data[index])
    } else {
        None
    }
}

/// A list of magic signatures holds exactly these byte sequences, in this order
pub open spec fn magics_are(magics: Vec<Vec<u8>>, expected: Seq<Seq<u8>>) -> bool {
    &&& magics@.len() == expected.len()
    &&& forall|i: int| 0 <= i < expected.len() ==> #[trigger] magics@[i]@ == expected[i]
}

} // verus!
