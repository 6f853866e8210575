//! BitTorrent files
use crate::signatures::common::{magics_are, SignatureError, SignatureResult, CONFIDENCE_HIGH};
use crate::structures::bencode::{parse_bencoded_value, value_end};
use crate::text::{dec, push_dec};
use vstd::prelude::*;
use vstd::slice::slice_subrange;
use vstd::string::StringExecFns;

verus! {

/// Human readable description
pub const DESCRIPTION: &'static str = "BitTorrent file";

/// Torrent files are a bencoded dictionary whose first key is the tracker URL
pub fn bittorrent_magic() -> (magics: Vec<Vec<u8>>)
    ensures
        magics_are(magics, seq![seq![
            0x64u8, 0x38, 0x3A, 0x61, 0x6E, 0x6E, 0x6F, 0x75, 0x6E, 0x63, 0x65,
        ]]),
{
    vec![vec![0x64, 0x38, 0x3A, 0x61, 0x6E, 0x6E, 0x6F, 0x75, 0x6E, 0x63, 0x65]]
}

/// Validate a BitTorrent file signature
///
/// The whole file is one bencoded dictionary, so walking it both validates the match and gives
/// the size of the torrent.
pub fn bittorrent_parser(file_data: &[u8], offset: usize) -> (result: Result<
    SignatureResult,
    SignatureError,
>)
    requires
        offset <= file_data.len(),
    ensures
        result is Ok <==> value_end(file_data@.subrange(offset as int, file_data.len() as int), 0)
            is Some,
        result matches Ok(r) ==> {
            let size = value_end(
                file_data@.subrange(offset as int, file_data.len() as int),
                0,
            )->0;
            r.describes(
                offset as int,
                size as int,
                DESCRIPTION@ + ", total size: "@ + dec(size) + " bytes"@,
                CONFIDENCE_HIGH,
            )
        },
{
    let torrent_data = slice_subrange(file_data, offset, file_data.len());
    match parse_bencoded_value(torrent_data) {
        Ok(torrent_size) => {
            let mut result = SignatureResult::new(offset, DESCRIPTION, CONFIDENCE_HIGH);
            result.size = torrent_size;
            result.description.append(", total size: ");
            push_dec(&mut result.description, torrent_size as u64);
            result.description.append(" bytes");
            Ok(result)
        },
        Err(_) => Err(SignatureError),
    }
}

} // verus!
