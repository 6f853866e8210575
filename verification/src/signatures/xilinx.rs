//! Xilinx Virtex/Spartan FPGA bitstreams
use crate::signatures::common::{magics_are, SignatureError, SignatureResult, CONFIDENCE_HIGH};
use crate::text::{dec, push_dec};
use vstd::prelude::*;
use vstd::string::StringExecFns;

verus! {

/// Human readable description
pub const DESCRIPTION: &'static str = "Xilinx Virtex/Spartan FPGA bitstream";

/// The size of the dummy word, 0xFFFFFFFF, that pads the bus before the sync word
pub const DUMMY_WORD_SIZE: usize = 4;

/// A bitstream is preceded by a run of dummy words and then the word that synchronises the device
pub fn xilinx_magic() -> (magics: Vec<Vec<u8>>)
    ensures
        magics_are(magics, seq![seq![0xFFu8, 0xFF, 0xFF, 0xFF, 0xAA, 0x99, 0x55, 0x66]]),
{
    vec![vec![0xFF, 0xFF, 0xFF, 0xFF, 0xAA, 0x99, 0x55, 0x66]]
}

/// There is a dummy word at `start` in the data
pub open spec fn dummy_word_at(data: Seq<u8>, start: int) -> bool {
    &&& 0 <= start
    &&& start + DUMMY_WORD_SIZE <= data.len()
    &&& forall|i: int| start <= i < start + DUMMY_WORD_SIZE ==> #[trigger] data[i] == 0xFF
}

/// There is a dummy word `j` words before `offset`
pub open spec fn dummy_word_before(data: Seq<u8>, offset: int, j: int) -> bool {
    dummy_word_at(data, offset - j * DUMMY_WORD_SIZE)
}

/// The number of dummy words that end at `offset`, counting back from the `count`th one before
/// it, plus `count`
pub open spec fn dummy_words_from(data: Seq<u8>, offset: int, count: nat) -> nat
    decreases offset - count * DUMMY_WORD_SIZE + DUMMY_WORD_SIZE,
{
    if offset >= count * DUMMY_WORD_SIZE && dummy_word_at(data, offset - count * DUMMY_WORD_SIZE) {
        dummy_words_from(data, offset, count + 1)
    } else {
        count
    }
}

/// The number of dummy words of a bitstream whose sync word matched at `offset`: the one in the
/// magic, and those that precede it
pub open spec fn dummy_words(data: Seq<u8>, offset: int) -> nat {
    dummy_words_from(data, offset, 1)
}

/// Validate a Xilinx bitstream signature
///
/// The sync word is preceded by a run of dummy words, so the bitstream starts at the first of
/// them rather than at the match. What follows the sync word is a series of configuration
/// commands whose total length is not described anywhere in the stream, so no size is reported.
pub fn xilinx_parser(file_data: &[u8], offset: usize) -> (result: Result<
    SignatureResult,
    SignatureError,
>)
    requires
        offset + DUMMY_WORD_SIZE <= usize::MAX,
    ensures
        result matches Ok(r) && r.describes(
            offset - (dummy_words(file_data@, offset as int) - 1) * DUMMY_WORD_SIZE,
            0,
            DESCRIPTION@ + ", "@ + dec(dummy_words(file_data@, offset as int))
                + " dummy words before the sync word"@,
            CONFIDENCE_HIGH,
        ),
        offset - (dummy_words(file_data@, offset as int) - 1) * DUMMY_WORD_SIZE >= 0,
{
    let mut dummy_words: usize = 1;
    while offset >= dummy_words * DUMMY_WORD_SIZE
        invariant
            1 <= dummy_words,
            (dummy_words - 1) * DUMMY_WORD_SIZE <= offset,
            offset + DUMMY_WORD_SIZE <= usize::MAX,
            dummy_words_from(file_data@, offset as int, 1) == dummy_words_from(
                file_data@,
                offset as int,
                dummy_words as nat,
            ),
        ensures
            1 <= dummy_words,
            (dummy_words - 1) * DUMMY_WORD_SIZE <= offset,
            dummy_words_from(file_data@, offset as int, 1) == dummy_words,
        decreases offset + DUMMY_WORD_SIZE - dummy_words * DUMMY_WORD_SIZE,
    {
        let word_start = offset - dummy_words * DUMMY_WORD_SIZE;
        if word_start + DUMMY_WORD_SIZE <= file_data.len() && file_data[word_start] == 0xFF
            && file_data[word_start + 1] == 0xFF && file_data[word_start + 2] == 0xFF
            && file_data[word_start + 3] == 0xFF {
            assert(dummy_word_at(file_data@, word_start as int));
            dummy_words = dummy_words + 1;
        } else {
            assert(!dummy_word_at(file_data@, word_start as int)) by {
                if word_start + DUMMY_WORD_SIZE <= file_data.len() {
                    assert(file_data@[word_start as int] != 0xFF || file_data@[word_start + 1]
                        != 0xFF || file_data@[word_start + 2] != 0xFF || file_data@[word_start + 3]
                        != 0xFF);
                }
            }
            assert(dummy_words_from(file_data@, offset as int, dummy_words as nat) == dummy_words);
            break;
        }
    }
    let mut result = SignatureResult::new(
        offset - (dummy_words - 1) * DUMMY_WORD_SIZE,
        DESCRIPTION,
        CONFIDENCE_HIGH,
    );
    result.description.append(", ");
    push_dec(&mut result.description, dummy_words as u64);
    result.description.append(" dummy words before the sync word");
    Ok(result)
}

/// The bitstream that the parser reports starts at the first of the run of dummy words before the
/// sync word: each of the words that it counts before the match is a dummy word, the word before
/// the first of them is not one, and the start is inside the data
pub proof fn lemma_bitstream_start(data: Seq<u8>, offset: int)
    requires
        offset >= 0,
    ensures
        forall|j: int|
            1 <= j < dummy_words(data, offset) ==> #[trigger] dummy_word_before(data, offset, j),
        !(offset >= dummy_words(data, offset) * DUMMY_WORD_SIZE && dummy_word_before(
            data,
            offset,
            dummy_words(data, offset) as int,
        )),
        dummy_words(data, offset) >= 1,
        offset - (dummy_words(data, offset) - 1) * DUMMY_WORD_SIZE >= 0,
{
    lemma_dummy_words_maximal(data, offset, 1);
}

/// Counting on from `count` dummy words before the match finds a run that is as long as it can
/// be
proof fn lemma_dummy_words_maximal(data: Seq<u8>, offset: int, count: nat)
    requires
        count >= 1,
        offset >= (count - 1) * DUMMY_WORD_SIZE,
        forall|j: int| 1 <= j < count ==> #[trigger] dummy_word_before(data, offset, j),
    ensures
        forall|j: int|
            1 <= j < dummy_words_from(data, offset, count) ==> #[trigger] dummy_word_before(
                data,
                offset,
                j,
            ),
        !(offset >= dummy_words_from(data, offset, count) * DUMMY_WORD_SIZE && dummy_word_at(
            data,
            offset - dummy_words_from(data, offset, count) * DUMMY_WORD_SIZE,
        )),
        dummy_words_from(data, offset, count) >= count,
        offset >= (dummy_words_from(data, offset, count) - 1) * DUMMY_WORD_SIZE,
    decreases offset - count * DUMMY_WORD_SIZE + DUMMY_WORD_SIZE,
{
    if offset >= count * DUMMY_WORD_SIZE && dummy_word_at(data, offset - count * DUMMY_WORD_SIZE) {
        assert(dummy_word_before(data, offset, count as int));
        lemma_dummy_words_maximal(data, offset, count + 1);
    }
}

} // verus!
