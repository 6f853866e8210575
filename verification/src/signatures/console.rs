//! Game console ROM images and Xbox files
use crate::common::{cstring, get_cstring_bytes};
use crate::signatures::common::{
    magics_are, SignatureError, SignatureResult, CONFIDENCE_HIGH, CONFIDENCE_MEDIUM,
};
use crate::text::{all_printable, check_all_printable, chars_of, push_bytes, trim_spaces, trimmed};
use vstd::prelude::*;
use vstd::string::StringExecFns;

verus! {

/// Human readable descriptions
pub const GAMEBOY_DESCRIPTION: &'static str = "Game Boy ROM";

pub const GBA_DESCRIPTION: &'static str = "Game Boy Advance ROM";

pub const MEGADRIVE_DESCRIPTION: &'static str = "Sega Mega Drive/Genesis ROM";

pub const NDS_DESCRIPTION: &'static str = "Nintendo DS ROM";

pub const XBE_DESCRIPTION: &'static str = "Microsoft Xbox executable";

pub const XIP_DESCRIPTION: &'static str = "Microsoft Xbox XIP data";

pub const XTF_DESCRIPTION: &'static str = "Microsoft Xbox XTF data";

/// The Nintendo logo that a Game Boy cartridge is checked against sits at this offset
pub const GAMEBOY_MAGIC_OFFSET: usize = 0x104;

/// A Mega Drive cartridge names its console at this offset
pub const MEGADRIVE_MAGIC_OFFSET: usize = 0x100;

/// The Game Boy cartridge title follows the logo
pub const GAMEBOY_TITLE_OFFSET: usize = 0x134;

pub const GAMEBOY_TITLE_SIZE: usize = 15;

/// Where a Game Boy Advance cartridge holds its title
pub const GBA_TITLE_OFFSET: usize = 0xA0;

pub const GBA_TITLE_SIZE: usize = 12;

/// The console name of a Mega Drive cartridge is followed by the name of the system, and later
/// by the game's own name
pub const MEGADRIVE_SYSTEM_NAME_SIZE: usize = 16;

pub const MEGADRIVE_DOMESTIC_NAME_OFFSET: usize = 0x120;

pub const MEGADRIVE_DOMESTIC_NAME_SIZE: usize = 48;

/// The logo of a Nintendo DS cartridge sits this far into the header, which begins with the
/// title of the game
pub const NDS_LOGO_OFFSET: usize = 0xC0;

pub const NDS_TITLE_SIZE: usize = 12;

/// The first bytes of the Nintendo logo of a Game Boy cartridge
pub fn gameboy_magic() -> (magics: Vec<Vec<u8>>)
    ensures
        magics_are(magics, seq![seq![0xCEu8, 0xED, 0x66, 0x66, 0xCC, 0x0D, 0x00, 0x0B]]),
{
    vec![vec![0xCE, 0xED, 0x66, 0x66, 0xCC, 0x0D, 0x00, 0x0B]]
}

/// A Game Boy Advance cartridge begins with a branch and then its own copy of the logo
pub fn gba_magic() -> (magics: Vec<Vec<u8>>)
    ensures
        magics_are(magics, seq![seq![
            0x2Eu8, 0x00, 0x00, 0xEA, 0x24, 0xFF, 0xAE, 0x51, 0x69, 0x9A,
        ]]),
{
    vec![vec![0x2E, 0x00, 0x00, 0xEA, 0x24, 0xFF, 0xAE, 0x51, 0x69, 0x9A]]
}

/// A Mega Drive cartridge names the console it is for
pub fn megadrive_magic() -> (magics: Vec<Vec<u8>>)
    ensures
        magics_are(magics, seq![seq![0x53u8, 0x45, 0x47, 0x41]]),
{
    vec![vec![0x53, 0x45, 0x47, 0x41]]
}

/// A Nintendo DS cartridge carries the same logo, at its own offset
pub fn nds_magic() -> (magics: Vec<Vec<u8>>)
    ensures
        magics_are(magics, seq![seq![0x24u8, 0xFF, 0xAE, 0x51, 0x69, 0x9A, 0xA2, 0x21]]),
{
    vec![vec![0x24, 0xFF, 0xAE, 0x51, 0x69, 0x9A, 0xA2, 0x21]]
}

/// Xbox executables and data files each start with their own magic
pub fn xbe_magic() -> (magics: Vec<Vec<u8>>)
    ensures
        magics_are(magics, seq![seq![0x58u8, 0x42, 0x45, 0x48]]),
{
    vec![vec![0x58, 0x42, 0x45, 0x48]]
}

pub fn xip_magic() -> (magics: Vec<Vec<u8>>)
    ensures
        magics_are(magics, seq![seq![0x58u8, 0x49, 0x50, 0x30]]),
{
    vec![vec![0x58, 0x49, 0x50, 0x30]]
}

pub fn xtf_magic() -> (magics: Vec<Vec<u8>>)
    ensures
        magics_are(magics, seq![seq![0x58u8, 0x54, 0x46, 0x30, 0x00, 0x00, 0x00]]),
{
    vec![vec![0x58, 0x54, 0x46, 0x30, 0x00, 0x00, 0x00]]
}

/// A title field of `size` bytes at `offset`: printable text padded with NULLs or spaces. There
/// is none where the field runs past the data, or where its text is empty or not printable.
pub open spec fn title_field(data: Seq<u8>, offset: int, size: int) -> Option<Seq<u8>> {
    if offset + size > data.len() {
        None
    } else {
        let text = cstring(data.subrange(offset, offset + size));
        if text.len() == 0 || !all_printable(text) {
            None
        } else {
            Some(trim_spaces(text))
        }
    }
}

/// What a description says of a title, where there is one
pub open spec fn titled(label: Seq<char>, title: Option<Seq<u8>>) -> Seq<char> {
    match title {
        Some(t) => label + chars_of(t) + "\""@,
        None => Seq::empty(),
    }
}

/// Validate a Game Boy ROM signature: the ROM starts before the logo, and its title is reported
/// where it is printable text
pub fn gameboy_parser(file_data: &[u8], offset: usize) -> (result: Result<
    SignatureResult,
    SignatureError,
>)
    requires
        offset >= GAMEBOY_MAGIC_OFFSET ==> offset - GAMEBOY_MAGIC_OFFSET + GAMEBOY_TITLE_OFFSET
            + GAMEBOY_TITLE_SIZE <= usize::MAX,
    ensures
        offset < GAMEBOY_MAGIC_OFFSET ==> result is Err,
        offset >= GAMEBOY_MAGIC_OFFSET ==> (result matches Ok(r) && r.describes(
            offset - GAMEBOY_MAGIC_OFFSET,
            0,
            GAMEBOY_DESCRIPTION@ + titled(
                ", title: \""@,
                title_field(
                    file_data@,
                    offset - GAMEBOY_MAGIC_OFFSET + GAMEBOY_TITLE_OFFSET,
                    GAMEBOY_TITLE_SIZE as int,
                ),
            ),
            CONFIDENCE_HIGH,
        )),
{
    if offset < GAMEBOY_MAGIC_OFFSET {
        return Err(SignatureError);
    }
    let rom_start = offset - GAMEBOY_MAGIC_OFFSET;
    let mut result = rom(rom_start, GAMEBOY_DESCRIPTION, CONFIDENCE_HIGH);
    let title = read_title(file_data, rom_start + GAMEBOY_TITLE_OFFSET, GAMEBOY_TITLE_SIZE);
    append_title(&mut result.description, ", title: \"", &title);
    Ok(result)
}

/// Validate a Game Boy Advance ROM signature; its title is reported where it is printable text
pub fn gba_parser(file_data: &[u8], offset: usize) -> (result: Result<
    SignatureResult,
    SignatureError,
>)
    requires
        offset + GBA_TITLE_OFFSET + GBA_TITLE_SIZE <= usize::MAX,
    ensures
        result matches Ok(r) && r.describes(
            offset as int,
            0,
            GBA_DESCRIPTION@ + titled(
                ", title: \""@,
                title_field(file_data@, offset + GBA_TITLE_OFFSET, GBA_TITLE_SIZE as int),
            ),
            CONFIDENCE_HIGH,
        ),
{
    let mut result = rom(offset, GBA_DESCRIPTION, CONFIDENCE_HIGH);
    let title = read_title(file_data, offset + GBA_TITLE_OFFSET, GBA_TITLE_SIZE);
    append_title(&mut result.description, ", title: \"", &title);
    Ok(result)
}

/// Validate a Mega Drive ROM signature
///
/// The system name that follows the console name has to be printable text, which is what tells
/// this from any other "SEGA"; the game's own name is reported where it is printable text.
pub fn megadrive_parser(file_data: &[u8], offset: usize) -> (result: Result<
    SignatureResult,
    SignatureError,
>)
    requires
        offset + MEGADRIVE_SYSTEM_NAME_SIZE <= usize::MAX,
        offset >= MEGADRIVE_MAGIC_OFFSET ==> offset - MEGADRIVE_MAGIC_OFFSET
            + MEGADRIVE_DOMESTIC_NAME_OFFSET + MEGADRIVE_DOMESTIC_NAME_SIZE <= usize::MAX,
    ensures
        offset < MEGADRIVE_MAGIC_OFFSET ==> result is Err,
        offset >= MEGADRIVE_MAGIC_OFFSET ==> match title_field(
            file_data@,
            offset as int,
            MEGADRIVE_SYSTEM_NAME_SIZE as int,
        ) {
            None => result is Err,
            Some(system_name) => result matches Ok(r) && r.describes(
                offset - MEGADRIVE_MAGIC_OFFSET,
                0,
                MEGADRIVE_DESCRIPTION@ + ", system: \""@ + chars_of(system_name) + "\""@ + titled(
                    ", title: \""@,
                    title_field(
                        file_data@,
                        offset - MEGADRIVE_MAGIC_OFFSET + MEGADRIVE_DOMESTIC_NAME_OFFSET,
                        MEGADRIVE_DOMESTIC_NAME_SIZE as int,
                    ),
                ),
                CONFIDENCE_MEDIUM,
            ),
        },
{
    if offset < MEGADRIVE_MAGIC_OFFSET {
        return Err(SignatureError);
    }
    let rom_start = offset - MEGADRIVE_MAGIC_OFFSET;
    let system_name = match read_title(file_data, offset, MEGADRIVE_SYSTEM_NAME_SIZE) {
        Some(system_name) => system_name,
        None => return Err(SignatureError),
    };
    let mut result = rom(rom_start, MEGADRIVE_DESCRIPTION, CONFIDENCE_MEDIUM);
    result.description.append(", system: \"");
    push_bytes(&mut result.description, system_name.as_slice());
    result.description.append("\"");
    let title = read_title(
        file_data,
        rom_start + MEGADRIVE_DOMESTIC_NAME_OFFSET,
        MEGADRIVE_DOMESTIC_NAME_SIZE,
    );
    append_title(&mut result.description, ", title: \"", &title);
    Ok(result)
}

/// Validate a Nintendo DS ROM signature: the ROM starts before the logo, with the title, which
/// is reported where it is printable text
pub fn nds_parser(file_data: &[u8], offset: usize) -> (result: Result<
    SignatureResult,
    SignatureError,
>)
    ensures
        offset < NDS_LOGO_OFFSET ==> result is Err,
        offset >= NDS_LOGO_OFFSET ==> (result matches Ok(r) && r.describes(
            offset - NDS_LOGO_OFFSET,
            0,
            NDS_DESCRIPTION@ + titled(
                ", title: \""@,
                title_field(file_data@, offset - NDS_LOGO_OFFSET, NDS_TITLE_SIZE as int),
            ),
            CONFIDENCE_HIGH,
        )),
{
    if offset < NDS_LOGO_OFFSET {
        return Err(SignatureError);
    }
    let rom_start = offset - NDS_LOGO_OFFSET;
    let mut result = rom(rom_start, NDS_DESCRIPTION, CONFIDENCE_HIGH);
    let title = read_title(file_data, rom_start, NDS_TITLE_SIZE);
    append_title(&mut result.description, ", title: \"", &title);
    Ok(result)
}

/// Validate an Xbox executable signature
pub fn xbe_parser(_file_data: &[u8], offset: usize) -> (result: Result<
    SignatureResult,
    SignatureError,
>)
    ensures
        result matches Ok(r) && r.describes(offset as int, 0, XBE_DESCRIPTION@, CONFIDENCE_MEDIUM),
{
    Ok(rom(offset, XBE_DESCRIPTION, CONFIDENCE_MEDIUM))
}

/// Validate an Xbox XIP signature
pub fn xip_parser(_file_data: &[u8], offset: usize) -> (result: Result<
    SignatureResult,
    SignatureError,
>)
    ensures
        result matches Ok(r) && r.describes(offset as int, 0, XIP_DESCRIPTION@, CONFIDENCE_MEDIUM),
{
    Ok(rom(offset, XIP_DESCRIPTION, CONFIDENCE_MEDIUM))
}

/// Validate an Xbox XTF signature
pub fn xtf_parser(_file_data: &[u8], offset: usize) -> (result: Result<
    SignatureResult,
    SignatureError,
>)
    ensures
        result matches Ok(r) && r.describes(offset as int, 0, XTF_DESCRIPTION@, CONFIDENCE_MEDIUM),
{
    Ok(rom(offset, XTF_DESCRIPTION, CONFIDENCE_MEDIUM))
}

/// None of these headers describes the length of the image, so none of them reports a size
fn rom(offset: usize, description: &str, confidence: u8) -> (result: SignatureResult)
    ensures
        result.describes(offset as int, 0, description@, confidence),
{
    SignatureResult::new(offset, description, confidence)
}

/// Read a title field, which is printable text padded with NULLs or spaces
fn read_title(file_data: &[u8], offset: usize, size: usize) -> (title: Option<Vec<u8>>)
    requires
        offset + size <= usize::MAX,
    ensures
        title matches Some(t) ==> title_field(file_data@, offset as int, size as int) == Some(t@),
        title is None ==> title_field(file_data@, offset as int, size as int) is None,
{
    if offset + size > file_data.len() {
        return None;
    }
    let text = get_cstring_bytes(file_data, offset, offset + size);
    if text.len() == 0 || !check_all_printable(text.as_slice()) {
        return None;
    }
    Some(trimmed(text.as_slice()))
}

/// Appends what a description says of a title, where there is one
fn append_title(description: &mut String, label: &str, title: &Option<Vec<u8>>)
    ensures
        final(description)@ == old(description)@ + titled(
            label@,
            match title {
                Some(t) => Some(t@),
                None => None,
            },
        ),
{
    if let Some(t) = title {
        description.append(label);
        push_bytes(description, t.as_slice());
        description.append("\"");
    } else {
        assert(final(description)@ =~= old(description)@ + Seq::<char>::empty());
    }
}

} // verus!
