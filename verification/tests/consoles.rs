use binwalk::signatures::common::{CONFIDENCE_HIGH, CONFIDENCE_MEDIUM};
use binwalk::signatures::console::{
    gameboy_magic, gameboy_parser, gba_magic, gba_parser, megadrive_magic, megadrive_parser,
    nds_magic, nds_parser, xbe_magic, xbe_parser, xip_magic, xip_parser, xtf_magic, xtf_parser,
};

fn put(data: &mut Vec<u8>, at: usize, bytes: &[u8]) {
    data[at..at + bytes.len()].copy_from_slice(bytes);
}

#[test]
fn gameboy_title() {
    let mut data = vec![0u8; 0x150];
    put(&mut data, 0x104, b"\xCE\xED\x66\x66\xCC\x0D\x00\x0B");
    put(&mut data, 0x134, b"POKEMON RED");
    let result = gameboy_parser(&data, 0x104).unwrap();
    assert_eq!(result.offset, 0);
    assert_eq!(result.size, 0);
    assert_eq!(result.confidence, CONFIDENCE_HIGH);
    assert_eq!(result.description, "Game Boy ROM, title: \"POKEMON RED\"");
    assert!(gameboy_parser(&data, 0x103).is_err());
}

#[test]
fn gameboy_without_title() {
    let mut data = vec![0u8; 0x150];
    let result = gameboy_parser(&data, 0x104).unwrap();
    assert_eq!(result.description, "Game Boy ROM");
    // Unprintable titles and titles past the end of the data are left out
    put(&mut data, 0x134, b"AB\x01");
    assert_eq!(gameboy_parser(&data, 0x104).unwrap().description, "Game Boy ROM");
    assert_eq!(gameboy_parser(&data[..0x140], 0x104).unwrap().description, "Game Boy ROM");
}

#[test]
fn gba_title_is_trimmed() {
    let mut data = vec![0u8; 0xC0];
    put(&mut data, 0xA0, b"  ZELDA     ");
    let result = gba_parser(&data, 0).unwrap();
    assert_eq!(result.description, "Game Boy Advance ROM, title: \"ZELDA\"");
    // A title of spaces alone is printable, and trims to nothing
    put(&mut data, 0xA0, b"            ");
    assert_eq!(gba_parser(&data, 0).unwrap().description, "Game Boy Advance ROM, title: \"\"");
}

#[test]
fn megadrive_system_and_title() {
    let mut data = vec![0x20u8; 0x200];
    put(&mut data, 0x100, b"SEGA MEGA DRIVE ");
    put(&mut data, 0x120, b"SONIC THE HEDGEHOG");
    let result = megadrive_parser(&data, 0x100).unwrap();
    assert_eq!(result.offset, 0);
    assert_eq!(result.confidence, CONFIDENCE_MEDIUM);
    assert_eq!(
        result.description,
        "Sega Mega Drive/Genesis ROM, system: \"SEGA MEGA DRIVE\", title: \"SONIC THE HEDGEHOG\""
    );
    put(&mut data, 0x105, b"\x07");
    assert!(megadrive_parser(&data, 0x100).is_err());
    assert!(megadrive_parser(&data, 0xFF).is_err());
}

#[test]
fn nds_title() {
    let mut data = vec![0u8; 0x100];
    put(&mut data, 0, b"NEW MARIO");
    let result = nds_parser(&data, 0xC0).unwrap();
    assert_eq!(result.offset, 0);
    assert_eq!(result.description, "Nintendo DS ROM, title: \"NEW MARIO\"");
    assert!(nds_parser(&data, 0xBF).is_err());
}

#[test]
fn xbox_files() {
    assert_eq!(xbe_parser(&[], 1).unwrap().description, "Microsoft Xbox executable");
    assert_eq!(xip_parser(&[], 1).unwrap().description, "Microsoft Xbox XIP data");
    assert_eq!(xtf_parser(&[], 1).unwrap().description, "Microsoft Xbox XTF data");
    assert_eq!(xbe_parser(&[], 1).unwrap().offset, 1);
}

#[test]
fn console_magics() {
    assert_eq!(gameboy_magic(), vec![b"\xCE\xED\x66\x66\xCC\x0D\x00\x0B".to_vec()]);
    assert_eq!(gba_magic(), vec![b"\x2E\x00\x00\xEA\x24\xFF\xAE\x51\x69\x9A".to_vec()]);
    assert_eq!(megadrive_magic(), vec![b"SEGA".to_vec()]);
    assert_eq!(nds_magic(), vec![b"\x24\xFF\xAE\x51\x69\x9A\xA2\x21".to_vec()]);
    assert_eq!(xbe_magic(), vec![b"XBEH".to_vec()]);
    assert_eq!(xip_magic(), vec![b"XIP0".to_vec()]);
    assert_eq!(xtf_magic(), vec![b"XTF0\x00\x00\x00".to_vec()]);
}
