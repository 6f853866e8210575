//! Windows CE structures: memory segment headers, a NULL byte and "ECEC" then the address of the
//! table of contents of the ROM image; and installer headers, "MSCE" then the target processor
//! and the numbers of entries of each kind, all little endian
use crate::structures::common::{pattern_at, read_u16, read_u32, u16_at, u32_at, Endianness};
use crate::text::matches_at;
use vstd::prelude::*;

verus! {

/// The signature and the address of the table of contents
pub const MEMORY_SEGMENT_HEADER_SIZE: usize = 9;

/// A NULL byte and "ECEC"
pub open spec fn memory_segment_magic_bytes() -> Seq<u8> {
    seq![0x00u8, 0x45, 0x43, 0x45, 0x43]
}

/// The fields of a memory segment header
pub struct WinCEMemorySegmentHeader {
    pub toc_address: u32,
}

/// The header at the start of `data`, where there is one
pub open spec fn memory_segment_header(data: Seq<u8>) -> Option<WinCEMemorySegmentHeader> {
    if data.len() >= MEMORY_SEGMENT_HEADER_SIZE && matches_at(
        data,
        memory_segment_magic_bytes(),
        0,
    ) {
        Some(WinCEMemorySegmentHeader { toc_address: u32_at(data, 5, Endianness::Little) as u32 })
    } else {
        None
    }
}

/// Parses the header at the start of `segment_data`
pub fn parse_wince_memory_segment_header(segment_data: &[u8]) -> (result: Result<
    WinCEMemorySegmentHeader,
    (),
>)
    ensures
        result is Ok <==> memory_segment_header(segment_data@) is Some,
        result matches Ok(header) ==> memory_segment_header(segment_data@) == Some(header),
{
    let magic = vec![0x00u8, 0x45, 0x43, 0x45, 0x43];
    if segment_data.len() < MEMORY_SEGMENT_HEADER_SIZE || !pattern_at(
        segment_data,
        magic.as_slice(),
        0,
    ) {
        return Err(());
    }
    Ok(WinCEMemorySegmentHeader { toc_address: read_u32(segment_data, 5, Endianness::Little) })
}

/// The installer header fields that are read: up to and including the registry value count
pub const INSTALLER_HEADER_SIZE: usize = 58;

/// "MSCE" and a reserved word of zero
pub open spec fn installer_magic_bytes() -> Seq<u8> {
    seq![0x4Du8, 0x53, 0x43, 0x45, 0x00, 0x00, 0x00, 0x00]
}

/// The processors an installer can target, by the number in its header
pub open spec fn architecture_name(architecture: nat) -> Option<Seq<char>> {
    if architecture == 0 {
        Some("any architecture"@)
    } else if architecture == 103 {
        Some("SH3"@)
    } else if architecture == 104 {
        Some("SH4"@)
    } else if architecture == 386 {
        Some("Intel 386"@)
    } else if architecture == 486 {
        Some("Intel 486"@)
    } else if architecture == 586 {
        Some("Intel Pentium"@)
    } else if architecture == 4000 {
        Some("MIPS R4000"@)
    } else if architecture == 2577 {
        Some("StrongARM"@)
    } else {
        None
    }
}

/// The name of a processor that an installer targets
pub fn architecture(code: u32) -> (name: Option<&'static str>)
    ensures
        match name {
            Some(n) => architecture_name(code as nat) == Some(n@),
            None => architecture_name(code as nat) is None,
        },
{
    if code == 0 {
        Some("any architecture")
    } else if code == 103 {
        Some("SH3")
    } else if code == 104 {
        Some("SH4")
    } else if code == 386 {
        Some("Intel 386")
    } else if code == 486 {
        Some("Intel 486")
    } else if code == 586 {
        Some("Intel Pentium")
    } else if code == 4000 {
        Some("MIPS R4000")
    } else if code == 2577 {
        Some("StrongARM")
    } else {
        None
    }
}

/// The fields of an installer header
pub struct WinCEInstallerHeader {
    pub architecture: u32,
    pub file_count: u16,
    pub registry_entry_count: u16,
}

/// The installer header at the start of `data`, where there is one: the magic and a known target
/// processor (at offset 20); the file count is at offset 52 and the registry value count at 56
pub open spec fn installer_header(data: Seq<u8>) -> Option<WinCEInstallerHeader> {
    if data.len() >= INSTALLER_HEADER_SIZE && matches_at(data, installer_magic_bytes(), 0)
        && architecture_name(u32_at(data, 20, Endianness::Little)) is Some {
        Some(
            WinCEInstallerHeader {
                architecture: u32_at(data, 20, Endianness::Little) as u32,
                file_count: u16_at(data, 52, Endianness::Little) as u16,
                registry_entry_count: u16_at(data, 56, Endianness::Little) as u16,
            },
        )
    } else {
        None
    }
}

/// Parses the installer header at the start of `installer_data`
pub fn parse_wince_installer_header(installer_data: &[u8]) -> (result: Result<
    WinCEInstallerHeader,
    (),
>)
    ensures
        result is Ok <==> installer_header(installer_data@) is Some,
        result matches Ok(header) ==> installer_header(installer_data@) == Some(header),
{
    let magic = vec![0x4Du8, 0x53, 0x43, 0x45, 0x00, 0x00, 0x00, 0x00];
    if installer_data.len() < INSTALLER_HEADER_SIZE || !pattern_at(
        installer_data,
        magic.as_slice(),
        0,
    ) {
        return Err(());
    }
    let code = read_u32(installer_data, 20, Endianness::Little);
    if architecture(code).is_none() {
        return Err(());
    }
    Ok(
        WinCEInstallerHeader {
            architecture: code,
            file_count: read_u16(installer_data, 52, Endianness::Little),
            registry_entry_count: read_u16(installer_data, 56, Endianness::Little),
        },
    )
}

/// "B000FF" and a newline, then the image address and length
pub const IMAGE_HEADER_SIZE: usize = 15;

/// Each record of an image is its address, its length and its checksum, then its data
pub const RECORD_HEADER_SIZE: usize = 12;

/// "B000FF\n"
pub open spec fn image_magic_bytes() -> Seq<u8> {
    seq![0x42u8, 0x30, 0x30, 0x30, 0x46, 0x46, 0x0A]
}

/// The fields of an image header
pub struct WinCEHeader {
    pub base_address: u32,
    pub image_size: u32,
}

/// The image header at the start of `data`, where there is one
pub open spec fn image_header(data: Seq<u8>) -> Option<WinCEHeader> {
    if data.len() >= IMAGE_HEADER_SIZE && matches_at(data, image_magic_bytes(), 0) {
        Some(
            WinCEHeader {
                base_address: u32_at(data, 7, Endianness::Little) as u32,
                image_size: u32_at(data, 11, Endianness::Little) as u32,
            },
        )
    } else {
        None
    }
}

/// Parses the image header at the start of `image_data`
pub fn parse_wince_header(image_data: &[u8]) -> (result: Result<WinCEHeader, ()>)
    ensures
        result is Ok <==> image_header(image_data@) is Some,
        result matches Ok(header) ==> image_header(image_data@) == Some(header),
{
    let magic = vec![0x42u8, 0x30, 0x30, 0x30, 0x46, 0x46, 0x0A];
    if image_data.len() < IMAGE_HEADER_SIZE || !pattern_at(image_data, magic.as_slice(), 0) {
        return Err(());
    }
    Ok(
        WinCEHeader {
            base_address: read_u32(image_data, 7, Endianness::Little),
            image_size: read_u32(image_data, 11, Endianness::Little),
        },
    )
}

/// The sum of the `n` bytes that start at `start`
pub open spec fn byte_sum(data: Seq<u8>, start: int, n: nat) -> nat
    decreases n,
{
    if n == 0 {
        0
    } else {
        byte_sum(data, start, (n - 1) as nat) + data[start + n - 1] as nat
    }
}

/// Where the records of an image, from `pos` on, end: each record lies inside the data and its
/// checksum is the sum of its data bytes, modulo 2^32, up to the record with address zero, which
/// ends the image and holds no data
pub open spec fn records_end(data: Seq<u8>, pos: nat) -> Option<nat>
    decreases data.len() - pos,
{
    if pos + RECORD_HEADER_SIZE > data.len() {
        None
    } else if u32_at(data, pos as int, Endianness::Little) == 0 {
        Some(pos + RECORD_HEADER_SIZE as nat)
    } else {
        let length = u32_at(data, pos + 4int, Endianness::Little);
        let data_start = pos + RECORD_HEADER_SIZE as nat;
        if data_start + length <= data.len() && u32_at(data, pos + 8int, Endianness::Little)
            == byte_sum(data, data_start as int, length) % 0x1_0000_0000 {
            records_end(data, data_start + length)
        } else {
            None
        }
    }
}

/// The records of an image, where they end, end after they start and inside the data, and a
/// whole record header before their end
pub proof fn lemma_records_end_bounds(data: Seq<u8>, pos: nat)
    ensures
        records_end(data, pos) matches Some(end) ==> pos + RECORD_HEADER_SIZE <= end
            <= data.len(),
    decreases data.len() - pos,
{
    if pos + RECORD_HEADER_SIZE <= data.len() && u32_at(data, pos as int, Endianness::Little) != 0 {
        let length = u32_at(data, pos + 4int, Endianness::Little);
        if pos + RECORD_HEADER_SIZE + length <= data.len() {
            lemma_records_end_bounds(data, pos + RECORD_HEADER_SIZE as nat + length);
        }
    }
}

/// The sum of some bytes
pub open spec fn sum_of(bytes: Seq<u8>) -> nat {
    bytes.fold_left(0nat, |total: nat, b: u8| (total + b) as nat)
}

/// `byte_sum` adds up exactly the bytes it covers
proof fn lemma_byte_sum_is_sum(data: Seq<u8>, start: int, n: nat)
    requires
        0 <= start,
        start + n <= data.len(),
    ensures
        byte_sum(data, start, n) == sum_of(data.subrange(start, start + n)),
    decreases n,
{
    if n > 0 {
        lemma_byte_sum_is_sum(data, start, (n - 1) as nat);
        assert(data.subrange(start, start + n).drop_last() =~= data.subrange(
            start,
            start + n - 1,
        ));
    }
}

/// A record whose checksum is the sum of its data bytes modulo 2^32, whatever that sum is, and
/// which the end record follows, is walked to the end of the end record
pub proof fn lemma_checksummed_record_walked(data: Seq<u8>, pos: nat)
    requires
        pos + RECORD_HEADER_SIZE <= data.len(),
        u32_at(data, pos as int, Endianness::Little) != 0,
        pos + RECORD_HEADER_SIZE + u32_at(data, pos + 4int, Endianness::Little)
            + RECORD_HEADER_SIZE <= data.len(),
        u32_at(data, pos + 8int, Endianness::Little) == sum_of(
            data.subrange(
                pos + RECORD_HEADER_SIZE,
                pos + RECORD_HEADER_SIZE + u32_at(data, pos + 4int, Endianness::Little),
            ),
        ) % 0x1_0000_0000,
        u32_at(
            data,
            pos + RECORD_HEADER_SIZE + u32_at(data, pos + 4int, Endianness::Little),
            Endianness::Little,
        ) == 0,
    ensures
        records_end(data, pos) == Some(
            (pos + RECORD_HEADER_SIZE + u32_at(data, pos + 4int, Endianness::Little)
                + RECORD_HEADER_SIZE) as nat,
        ),
{
    let length = u32_at(data, pos + 4int, Endianness::Little);
    let end = (pos + RECORD_HEADER_SIZE + length) as nat;
    lemma_byte_sum_is_sum(data, pos + RECORD_HEADER_SIZE, length);
    assert(records_end(data, end) == Some(end + RECORD_HEADER_SIZE as nat));
}

/// A record whose checksum is not the sum of its data bytes modulo 2^32 is not part of an image:
/// the walk fails there
pub proof fn lemma_bad_checksum_rejected(data: Seq<u8>, pos: nat)
    requires
        pos + RECORD_HEADER_SIZE <= data.len(),
        u32_at(data, pos as int, Endianness::Little) != 0,
        pos + RECORD_HEADER_SIZE + u32_at(data, pos + 4int, Endianness::Little) <= data.len(),
        u32_at(data, pos + 8int, Endianness::Little) != sum_of(
            data.subrange(
                pos + RECORD_HEADER_SIZE,
                pos + RECORD_HEADER_SIZE + u32_at(data, pos + 4int, Endianness::Little),
            ),
        ) % 0x1_0000_0000,
    ensures
        records_end(data, pos) is None,
{
    let length = u32_at(data, pos + 4int, Endianness::Little);
    lemma_byte_sum_is_sum(data, pos + RECORD_HEADER_SIZE, length);
}

/// Sums the `n` bytes that start at `start`
fn sum_bytes(data: &[u8], start: usize, n: usize) -> (sum: u64)
    requires
        start + n <= data.len(),
        n <= u32::MAX,
    ensures
        sum == byte_sum(data@, start as int, n as nat),
{
    let mut sum: u64 = 0;
    let mut k: usize = 0;
    while k < n
        invariant
            k <= n <= u32::MAX,
            start + n <= data.len(),
            sum == byte_sum(data@, start as int, k as nat),
            sum <= 255 * k,
        decreases n - k,
    {
        sum = sum + data[start + k] as u64;
        k = k + 1;
    }
    sum
}

/// Walks the records of the image at the start of `image_data`, and returns where they end
pub fn wince_records_end(image_data: &[u8]) -> (end: Option<usize>)
    ensures
        match records_end(image_data@, IMAGE_HEADER_SIZE as nat) {
            Some(e) => end matches Some(n) && n == e,
            None => end is None,
        },
{
    let mut pos: usize = IMAGE_HEADER_SIZE;
    loop
        invariant
            records_end(image_data@, IMAGE_HEADER_SIZE as nat) == records_end(
                image_data@,
                pos as nat,
            ),
        decreases image_data.len() - pos,
    {
        if pos > image_data.len() || RECORD_HEADER_SIZE > image_data.len() - pos {
            return None;
        }
        if read_u32(image_data, pos, Endianness::Little) == 0 {
            return Some(pos + RECORD_HEADER_SIZE);
        }
        let length = read_u32(image_data, pos + 4, Endianness::Little) as usize;
        let checksum = read_u32(image_data, pos + 8, Endianness::Little);
        let data_start = pos + RECORD_HEADER_SIZE;
        if length > image_data.len() - data_start {
            return None;
        }
        if sum_bytes(image_data, data_start, length) % 0x1_0000_0000 != checksum as u64 {
            return None;
        }
        pos = data_start + length;
    }
}

} // verus!
