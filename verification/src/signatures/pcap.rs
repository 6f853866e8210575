//! Packet captures, libpcap and Pcap-NG
use crate::common::is_offset_safe;
use crate::signatures::common::{
    magics_are, SignatureError, SignatureResult, CONFIDENCE_HIGH,
};
use crate::structures::common::{endianness_name, u32_at, Endianness};
use crate::structures::pcap::{
    block_size_at, libpcap_header, parse_libpcap_header, parse_libpcap_record,
    parse_pcapng_block, parse_pcapng_section_header, record_size_at, resolution_name,
    section_byte_order, LibpcapHeader,
};
use crate::text::{dec, push_dec};
use vstd::prelude::*;
use vstd::slice::slice_subrange;
use vstd::string::StringExecFns;

verus! {

/// Human readable descriptions
pub const PCAPNG_DESCRIPTION: &'static str = "Pcap-NG capture file";

pub const LIBPCAP_DESCRIPTION: &'static str = "Libpcap capture file";

/// Libpcap files start with these magic bytes, in either byte order, with a second pair of magics
/// for captures whose timestamps are in nanoseconds
pub fn libpcap_magic() -> (magics: Vec<Vec<u8>>)
    ensures
        magics_are(
            magics,
            seq![
                seq![0xA1u8, 0xB2, 0xC3, 0xD4],
                seq![0xD4u8, 0xC3, 0xB2, 0xA1],
                seq![0xA1u8, 0xB2, 0x3C, 0x4D],
                seq![0x4Du8, 0x3C, 0xB2, 0xA1],
            ],
        ),
{
    vec![
        vec![0xA1, 0xB2, 0xC3, 0xD4],
        vec![0xD4, 0xC3, 0xB2, 0xA1],
        vec![0xA1, 0xB2, 0x3C, 0x4D],
        vec![0x4D, 0x3C, 0xB2, 0xA1],
    ]
}

/// Pcap-NG files always start with these bytes
pub fn pcapng_magic() -> (magics: Vec<Vec<u8>>)
    ensures
        magics_are(magics, seq![seq![0x0Au8, 0x0D, 0x0D, 0x0A]]),
{
    vec![vec![0x0A, 0x0D, 0x0D, 0x0A]]
}

/// Where the walk over the packet records from `pos` ends: after the last of the records that
/// follow one another whole. The walk stops at the end of the data, at bytes that are no record
/// header, and at a record that the data cuts short.
pub open spec fn record_walk(
    capture: Seq<u8>,
    pos: nat,
    endianness: Endianness,
    snap_length: int,
) -> nat
    decreases capture.len() - pos,
{
    if pos < capture.len() {
        match record_size_at(capture, pos as int, endianness, snap_length) {
            Some(size) => if pos + size <= capture.len() {
                record_walk(capture, pos + size, endianness, snap_length)
            } else {
                pos
            },
            None => pos,
        }
    } else {
        pos
    }
}

/// A walk over packet records never goes back, and never leaves the capture: the size of a capture
/// is at least its file header and at most the data there is
pub proof fn lemma_record_walk_bounds(
    capture: Seq<u8>,
    pos: nat,
    endianness: Endianness,
    snap_length: int,
)
    ensures
        pos <= record_walk(capture, pos, endianness, snap_length),
        pos <= capture.len() ==> record_walk(capture, pos, endianness, snap_length)
            <= capture.len(),
    decreases capture.len() - pos,
{
    if pos < capture.len() {
        if let Some(size) = record_size_at(capture, pos as int, endianness, snap_length) {
            if pos + size <= capture.len() {
                lemma_record_walk_bounds(capture, pos + size, endianness, snap_length);
            }
        }
    }
}

/// A whole packet record, which captured no more than the snap length allows and no more than
/// the packet had, is walked over: the capture goes on after its sixteen byte header and the
/// bytes it captured
pub proof fn lemma_record_walked(
    capture: Seq<u8>,
    pos: nat,
    endianness: Endianness,
    snap_length: int,
)
    requires
        pos + 16 + u32_at(capture, pos + 8int, endianness) <= capture.len(),
        u32_at(capture, pos + 8int, endianness) <= snap_length,
        u32_at(capture, pos + 8int, endianness) <= u32_at(capture, pos + 12int, endianness),
    ensures
        record_walk(capture, pos, endianness, snap_length) == record_walk(
            capture,
            pos + 16 + u32_at(capture, pos + 8int, endianness),
            endianness,
            snap_length,
        ),
{
}

/// The walk ends before a record that captured more than the snap length allows, or more than
/// the packet had, or that the data cuts short
pub proof fn lemma_record_walk_stops(
    capture: Seq<u8>,
    pos: nat,
    endianness: Endianness,
    snap_length: int,
)
    requires
        pos < capture.len(),
        u32_at(capture, pos + 8int, endianness) > snap_length || u32_at(capture, pos + 8int, endianness)
            > u32_at(capture, pos + 12int, endianness) || pos + 16 + u32_at(
            capture,
            pos + 8int,
            endianness,
        ) > capture.len(),
    ensures
        record_walk(capture, pos, endianness, snap_length) == pos,
{
}

/// The size of a capture: its file header and the longest run of whole packet records after it
pub open spec fn libpcap_size(
    capture: Seq<u8>,
    header_size: nat,
    endianness: Endianness,
    snap_length: int,
) -> nat {
    record_walk(capture, header_size, endianness, snap_length)
}

/// How a capture is described
pub open spec fn libpcap_description(header: LibpcapHeader, size: nat) -> Seq<char> {
    LIBPCAP_DESCRIPTION@ + ", "@ + endianness_name(header.endianness) + " endian, version: "@
        + dec(header.major_version as nat) + "."@ + dec(header.minor_version as nat) + ", "@
        + resolution_name(header.timestamp_resolution) + " timestamps, link type: "@ + dec(
        header.link_type as nat,
    ) + ", snap length: "@ + dec(header.snap_length as nat) + ", total size: "@ + dec(size)
        + " bytes"@
}

/// Parses and validates a libpcap file
///
/// A libpcap file does not record its own length, so the packet records that follow the file
/// header are walked to find where the capture ends.
pub fn libpcap_parser(file_data: &[u8], offset: usize) -> (result: Result<
    SignatureResult,
    SignatureError,
>)
    requires
        offset <= file_data.len(),
    ensures
        result is Ok <==> libpcap_header(file_data@.subrange(offset as int, file_data.len() as int))
            is Some,
        result matches Ok(r) ==> {
            let capture = file_data@.subrange(offset as int, file_data.len() as int);
            let header = libpcap_header(capture)->0;
            let size = libpcap_size(
                capture,
                header.header_size as nat,
                header.endianness,
                header.snap_length as int,
            );
            r.describes(
                offset as int,
                size as int,
                libpcap_description(header, size),
                CONFIDENCE_HIGH,
            )
        },
{
    let pcap_data = slice_subrange(file_data, offset, file_data.len());
    match parse_libpcap_header(pcap_data) {
        Err(_) => Err(SignatureError),
        Ok(pcap_header) => {
            let capture_size = get_libpcap_size(
                pcap_data,
                pcap_header.header_size,
                pcap_header.endianness,
                pcap_header.snap_length,
            );
            let mut result = SignatureResult::new(offset, LIBPCAP_DESCRIPTION, CONFIDENCE_HIGH);
            result.size = capture_size;
            result.description.append(", ");
            result.description.append(pcap_header.endianness.name());
            result.description.append(" endian, version: ");
            push_dec(&mut result.description, pcap_header.major_version as u64);
            result.description.append(".");
            push_dec(&mut result.description, pcap_header.minor_version as u64);
            result.description.append(", ");
            result.description.append(pcap_header.timestamp_resolution.name());
            result.description.append(" timestamps, link type: ");
            push_dec(&mut result.description, pcap_header.link_type as u64);
            result.description.append(", snap length: ");
            push_dec(&mut result.description, pcap_header.snap_length as u64);
            result.description.append(", total size: ");
            push_dec(&mut result.description, capture_size as u64);
            result.description.append(" bytes");
            Ok(result)
        },
    }
}

/// Walks the packet records of a libpcap file and returns the total size of the capture
fn get_libpcap_size(
    pcap_data: &[u8],
    header_size: usize,
    endianness: Endianness,
    snap_length: usize,
) -> (size: usize)
    ensures
        size == libpcap_size(pcap_data@, header_size as nat, endianness, snap_length as int),
{
    let mut capture_size: usize = header_size;
    let mut previous_capture_size: Option<usize> = None;
    let available_data = pcap_data.len();

    // Loop while there is still data and while the offsets are sane
    while is_offset_safe(available_data, capture_size, previous_capture_size)
        invariant
            available_data == pcap_data@.len(),
            previous_capture_size matches Some(p) ==> p < capture_size && capture_size
                <= available_data,
            libpcap_size(pcap_data@, header_size as nat, endianness, snap_length as int)
                == record_walk(pcap_data@, capture_size as nat, endianness, snap_length as int),
        ensures
            record_walk(pcap_data@, capture_size as nat, endianness, snap_length as int)
                == capture_size,
        decreases available_data - capture_size,
    {
        let record_data = slice_subrange(pcap_data, capture_size, available_data);
        assert(record_size_at(record_data@, 0, endianness, snap_length as int) == record_size_at(
            pcap_data@,
            capture_size as int,
            endianness,
            snap_length as int,
        ));
        // Parsing fails once the data no longer looks like a packet record
        match parse_libpcap_record(record_data, endianness, snap_length) {
            Err(_) => {
                break ;
            },
            Ok(record) => {
                // Don't include a truncated record in the reported size
                let remaining_data = available_data - capture_size;
                if record.data_size > remaining_data || record.header_size > remaining_data
                    - record.data_size {
                    break ;
                }
                let record_size = record.header_size + record.data_size;
                previous_capture_size = Some(capture_size);
                capture_size = capture_size + record_size;
            },
        }
    }
    capture_size
}

/// Where the walk over the blocks of a Pcap-NG capture from `pos` ends: after the last of the
/// whole blocks that follow one another
pub open spec fn block_walk(capture: Seq<u8>, pos: nat, endianness: Endianness) -> nat
    decreases capture.len() - pos,
{
    if pos < capture.len() {
        match block_size_at(capture, pos as int, endianness) {
            Some(size) => block_walk(capture, pos + size, endianness),
            None => pos,
        }
    } else {
        pos
    }
}

/// A walk over Pcap-NG blocks never goes back, and never leaves the capture
pub proof fn lemma_block_walk_bounds(capture: Seq<u8>, pos: nat, endianness: Endianness)
    ensures
        pos <= block_walk(capture, pos, endianness),
        pos <= capture.len() ==> block_walk(capture, pos, endianness) <= capture.len(),
    decreases capture.len() - pos,
{
    if pos < capture.len() {
        if let Some(size) = block_size_at(capture, pos as int, endianness) {
            lemma_block_walk_bounds(capture, pos + size, endianness);
        }
    }
}

/// The size of the Pcap-NG capture at the start of `capture`, where one starts there: a section
/// header that is a whole block, and the blocks that follow it whole
pub open spec fn pcapng_size(capture: Seq<u8>) -> Option<nat> {
    match section_byte_order(capture) {
        Some(endianness) => if block_size_at(capture, 0, endianness) is Some {
            Some(block_walk(capture, 0, endianness))
        } else {
            None
        },
        None => None,
    }
}

/// Walks the blocks of a Pcap-NG capture and returns its size
fn get_pcapng_size(pcapng_data: &[u8]) -> (size: Option<usize>)
    ensures
        match pcapng_size(pcapng_data@) {
            Some(n) => size matches Some(s) && s == n,
            None => size is None,
        },
{
    let endianness = match parse_pcapng_section_header(pcapng_data) {
        Ok(endianness) => endianness,
        Err(_) => return None,
    };
    if parse_pcapng_block(pcapng_data, endianness).is_err() {
        return None;
    }
    let available_data = pcapng_data.len();
    let mut capture_size: usize = 0;
    while capture_size < available_data
        invariant
            available_data == pcapng_data@.len(),
            capture_size <= available_data,
            block_walk(pcapng_data@, 0, endianness) == block_walk(
                pcapng_data@,
                capture_size as nat,
                endianness,
            ),
        ensures
            block_walk(pcapng_data@, capture_size as nat, endianness) == capture_size,
        decreases available_data - capture_size,
    {
        let block_data = slice_subrange(pcapng_data, capture_size, available_data);
        assert(block_size_at(block_data@, 0, endianness) == block_size_at(
            pcapng_data@,
            capture_size as int,
            endianness,
        ));
        match parse_pcapng_block(block_data, endianness) {
            Err(_) => {
                break ;
            },
            Ok(block_size) => {
                capture_size = capture_size + block_size;
            },
        }
    }
    Some(capture_size)
}

/// Parses and validates the Pcap-NG file
///
/// Walking the blocks from the section header is a dry run of carving the capture out; where it
/// succeeds, this is almost certainly a capture. Where the capture is the whole file, there is no
/// need to carve it out to yet another file.
pub fn pcapng_parser(file_data: &[u8], offset: usize) -> (result: Result<
    SignatureResult,
    SignatureError,
>)
    requires
        offset <= file_data.len(),
    ensures
        result is Ok <==> pcapng_size(file_data@.subrange(offset as int, file_data.len() as int))
            is Some,
        result matches Ok(r) ==> {
            let size = pcapng_size(file_data@.subrange(offset as int, file_data.len() as int))->0;
            &&& r.offset == offset
            &&& r.size == size
            &&& r.description@ == PCAPNG_DESCRIPTION@ + ", total size: "@ + dec(size) + " bytes"@
            &&& r.confidence == CONFIDENCE_HIGH
            &&& r.extraction_declined == (offset == 0 && size == file_data.len())
        },
{
    let pcapng_data = slice_subrange(file_data, offset, file_data.len());
    match get_pcapng_size(pcapng_data) {
        None => Err(SignatureError),
        Some(pcap_size) => {
            let mut result = SignatureResult::new(offset, PCAPNG_DESCRIPTION, CONFIDENCE_HIGH);
            if offset == 0 && pcap_size == file_data.len() {
                result.extraction_declined = true;
            }
            result.size = pcap_size;
            result.description.append(", total size: ");
            push_dec(&mut result.description, pcap_size as u64);
            result.description.append(" bytes");
            Ok(result)
        },
    }
}

} // verus!
