//! Snappy framed streams
use crate::common::is_offset_safe;
use crate::signatures::common::{
    magics_are, SignatureError, SignatureResult, CONFIDENCE_HIGH,
};
use crate::structures::snappy::{chunk_size_at, parse_snappy_chunk, CHUNK_HEADER_SIZE};
use crate::text::{dec, push_dec};
use vstd::prelude::*;
use vstd::slice::slice_subrange;
use vstd::string::StringExecFns;

verus! {

/// Human readable description
pub const DESCRIPTION: &'static str = "Snappy compressed data";

/// Snappy framed streams start with a stream identifier chunk
pub fn snappy_magic() -> (magics: Vec<Vec<u8>>)
    ensures
        magics_are(magics, seq![seq![
            0xFFu8, 0x06, 0x00, 0x00, 0x73, 0x4E, 0x61, 0x50, 0x70, 0x59,
        ]]),
{
    vec![vec![0xFF, 0x06, 0x00, 0x00, 0x73, 0x4E, 0x61, 0x50, 0x70, 0x59]]
}

/// The walk over the chunks of a stream from `pos`: how many whole chunks follow one another
/// there, and where the last of them ends. The walk stops at the end of the data, at bytes that
/// are no chunk header, and at a chunk that the data cuts short.
pub open spec fn chunk_walk(stream: Seq<u8>, pos: nat) -> (nat, nat)
    decreases stream.len() - pos,
{
    if pos < stream.len() {
        match chunk_size_at(stream, pos as int) {
            Some(size) => if pos + size <= stream.len() {
                let rest = chunk_walk(stream, pos + size);
                (rest.0 + 1, rest.1)
            } else {
                (0, pos)
            },
            None => (0, pos),
        }
    } else {
        (0, pos)
    }
}

/// The stream that starts at `offset`, as far as the data goes
pub open spec fn stream_at(data: Seq<u8>, offset: int) -> Seq<u8> {
    data.subrange(offset, data.len() as int)
}

/// How many whole chunks the stream at `offset` has
pub open spec fn stream_chunk_count(data: Seq<u8>, offset: int) -> nat {
    chunk_walk(stream_at(data, offset), 0).0
}

/// How many bytes those chunks take
pub open spec fn stream_size(data: Seq<u8>, offset: int) -> nat {
    chunk_walk(stream_at(data, offset), 0).1
}

/// A walk never leaves the stream, and each chunk it counts takes at least a chunk header: a match
/// lies within the data, and is at least four bytes per chunk
pub proof fn lemma_chunk_walk_bounds(stream: Seq<u8>, pos: nat)
    requires
        pos <= stream.len(),
    ensures
        pos + CHUNK_HEADER_SIZE * chunk_walk(stream, pos).0 <= chunk_walk(stream, pos).1,
        chunk_walk(stream, pos).1 <= stream.len(),
    decreases stream.len() - pos,
{
    if pos < stream.len() {
        if let Some(size) = chunk_size_at(stream, pos as int) {
            if pos + size <= stream.len() {
                lemma_chunk_walk_bounds(stream, pos + size);
            }
        }
    }
}

/// The stream identifier chunk: type 0xFF, six bytes of data, "sNaPpY"
pub open spec fn stream_identifier() -> Seq<u8> {
    seq![0xFFu8, 0x06, 0x00, 0x00, 0x73, 0x4E, 0x61, 0x50, 0x70, 0x59]
}

/// Both kinds of data chunk are walked, and so are the skippable and padding chunks: a stream
/// identifier followed by a whole compressed (type 0) or uncompressed (type 1) data chunk, whose
/// data is its four byte checksum and any bytes after it, or by a whole chunk of type 0x80 to
/// 0xFE, of any length, is a stream of two chunks that takes all of those bytes
pub proof fn lemma_data_chunk_walked(chunk_type: u8, b0: u8, b1: u8, b2: u8, chunk_data: Seq<u8>)
    requires
        chunk_data.len() == b0 + b1 * 0x100 + b2 * 0x10000,
        (chunk_type <= 1 && chunk_data.len() >= 4) || (0x80 <= chunk_type <= 0xFE),
    ensures
        ({
            let stream = stream_identifier() + seq![chunk_type, b0, b1, b2] + chunk_data;
            chunk_walk(stream, 0) == (2nat, stream.len())
        }),
{
    let stream = stream_identifier() + seq![chunk_type, b0, b1, b2] + chunk_data;
    assert(stream[0] == 0xFF && stream[1] == 6 && stream[2] == 0 && stream[3] == 0);
    assert(chunk_size_at(stream, 0) == Some(10nat));
    assert(stream[10] == chunk_type && stream[11] == b0 && stream[12] == b1 && stream[13] == b2);
    assert(chunk_size_at(stream, 10) == Some(4 + chunk_data.len()));
    assert(chunk_walk(stream, (14 + chunk_data.len()) as nat) == (0nat, stream.len()));
    assert(chunk_walk(stream, 10) == (1nat, stream.len()));
}

/// Chunks of the reserved types 0x02 to 0x7F cannot be skipped, so the walk ends before one,
/// whatever it holds: after a stream identifier, such a chunk leaves a stream of one chunk
pub proof fn lemma_reserved_chunk_ends_walk(chunk_type: u8, rest: Seq<u8>)
    requires
        0x02 <= chunk_type <= 0x7F,
    ensures
        ({
            let stream = stream_identifier() + seq![chunk_type] + rest;
            chunk_walk(stream, 0) == (1nat, 10nat)
        }),
{
    let stream = stream_identifier() + seq![chunk_type] + rest;
    assert(stream[0] == 0xFF && stream[1] == 6 && stream[2] == 0 && stream[3] == 0);
    assert(chunk_size_at(stream, 0) == Some(10nat));
    assert(stream[10] == chunk_type);
    assert(chunk_size_at(stream, 10) is None);
    assert(chunk_walk(stream, 10) == (0nat, 10nat));
}

/// A stream identifier is six bytes of data, "sNaPpY", and nothing else: a first chunk of type
/// 0xFF with any other length is no stream
pub proof fn lemma_identifier_length(b0: u8, b1: u8, b2: u8, rest: Seq<u8>)
    requires
        b0 + b1 * 0x100 + b2 * 0x10000 != 6,
    ensures
        chunk_walk(seq![0xFFu8, b0, b1, b2] + rest, 0).0 == 0,
{
    let stream = seq![0xFFu8, b0, b1, b2] + rest;
    assert(stream[0] == 0xFF && stream[1] == b0 && stream[2] == b1 && stream[3] == b2);
    assert(chunk_size_at(stream, 0) is None);
}

/// Validate a Snappy framed stream signature
///
/// A framed stream does not record its own length, but it is a series of length prefixed chunks,
/// so walking them gives both the size of the stream and confidence in the match. The stream
/// identifier itself is the first chunk; anything less is not a stream.
pub fn snappy_parser(file_data: &[u8], offset: usize) -> (result: Result<
    SignatureResult,
    SignatureError,
>)
    requires
        offset <= file_data.len(),
    ensures
        stream_chunk_count(file_data@, offset as int) > 0 ==> (result matches Ok(r) && r.describes(
            offset as int,
            stream_size(file_data@, offset as int) as int,
            DESCRIPTION@ + ", chunk count: "@ + dec(stream_chunk_count(file_data@, offset as int))
                + ", total size: "@ + dec(stream_size(file_data@, offset as int)) + " bytes"@,
            CONFIDENCE_HIGH,
        )),
        stream_chunk_count(file_data@, offset as int) == 0 ==> result is Err,
{
    let stream_data = slice_subrange(file_data, offset, file_data.len());
    let ghost stream = stream_data@;
    let available_data = stream_data.len();
    let mut stream_size: usize = 0;
    let mut previous_stream_size: Option<usize> = None;
    let mut chunk_count: usize = 0;

    while is_offset_safe(available_data, stream_size, previous_stream_size)
        invariant
            stream == stream_data@,
            available_data == stream.len(),
            stream_size <= available_data,
            chunk_count <= stream_size,
            previous_stream_size matches Some(p) ==> p < stream_size,
            chunk_walk(stream, 0).0 == chunk_count + chunk_walk(stream, stream_size as nat).0,
            chunk_walk(stream, 0).1 == chunk_walk(stream, stream_size as nat).1,
        ensures
            chunk_walk(stream, stream_size as nat).0 == 0,
            chunk_walk(stream, stream_size as nat).1 == stream_size,
        decreases available_data - stream_size,
    {
        let chunk_data = slice_subrange(stream_data, stream_size, available_data);
        assert(chunk_size_at(chunk_data@, 0) == chunk_size_at(stream, stream_size as int));
        match parse_snappy_chunk(chunk_data) {
            Err(_) => {
                break ;
            },
            Ok(chunk) => {
                let chunk_size = chunk.header_size + chunk.data_size;
                // Don't include a truncated chunk in the reported size
                if chunk_size > available_data - stream_size {
                    break ;
                }
                previous_stream_size = Some(stream_size);
                stream_size = stream_size + chunk_size;
                chunk_count = chunk_count + 1;
            },
        }
    }

    if chunk_count > 0 {
        let mut result = SignatureResult::new(offset, DESCRIPTION, CONFIDENCE_HIGH);
        result.size = stream_size;
        result.description.append(", chunk count: ");
        push_dec(&mut result.description, chunk_count as u64);
        result.description.append(", total size: ");
        push_dec(&mut result.description, stream_size as u64);
        result.description.append(" bytes");
        return Ok(result);
    }
    Err(SignatureError)
}

} // verus!
