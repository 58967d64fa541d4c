use nes_core::rom::header::{FormatError, Header};
use nes_core::rom::rom::{load_char, load_program, Mirroring, Rom};

fn image(program_units: u8, char_units: u8, flags6: u8, flags7: u8) -> Vec<u8> {
    let mut bytes = vec![78, 69, 83, 26, program_units, char_units, flags6, flags7];
    bytes.resize(16, 0);
    let program = program_units as usize * 0x4000;
    let chr = char_units as usize * 0x2000;
    for i in 0..program {
        bytes.push((i % 251) as u8);
    }
    for i in 0..chr {
        bytes.push((i % 241) as u8 ^ 0x5A);
    }
    bytes
}

#[test]
fn new_success() {
    // "N" "E" "S" "\x1A" "5" "3"
    let rom_bytes = [78, 69, 83, 26, 53, 51];
    assert_eq!(rom_bytes, *"NES\x1A53".as_bytes());

    let header = Header::new(&rom_bytes.to_vec()).unwrap();
    assert_eq!(
        header,
        Header {
            nes_header_const: [rom_bytes[0], rom_bytes[1], rom_bytes[2], rom_bytes[3],],
            program_size: (rom_bytes[4] as u32) * 0x4000,
            char_size: (rom_bytes[5] as u32) * 0x2000,
        }
    );
}

#[test]
fn new_format_error() {
    // "N" "X" "S" "\x1A" "5" "3"
    let rom_bytes = [78, 88, 83, 26, 53, 51];
    assert_eq!(rom_bytes, *"NXS\x1A53".as_bytes());

    let ines_header = Header::new(&rom_bytes.to_vec());
    assert!(match ines_header {
        Err(_error) => true,
        _ => false,
    });
}

#[test]
fn header_sizes_are_exact() {
    let header = Header::new(&vec![78, 69, 83, 26, 2, 1]).unwrap();
    assert_eq!(header.program_size, 32768);
    assert_eq!(header.char_size, 8192);
    let largest = Header::new(&vec![78, 69, 83, 26, 255, 255]).unwrap();
    assert_eq!(largest.program_size, 255 * 16384);
    assert_eq!(largest.char_size, 255 * 8192);
}

#[test]
fn header_errors() {
    assert_eq!(Header::new(&vec![78, 88, 83, 26, 1, 1]), Err(FormatError::BadMagic));
    assert_eq!(Header::new(&vec![78, 69, 83, 27, 1, 1]), Err(FormatError::BadMagic));
    assert_eq!(Header::new(&vec![78, 69, 83, 26, 1]), Err(FormatError::Truncated));
    assert_eq!(Header::new(&vec![]), Err(FormatError::Truncated));
    assert_eq!(Header::new(&vec![0, 0, 0]), Err(FormatError::Truncated));
}

#[test]
fn program_and_character_data_follow_the_header() {
    let bytes = image(1, 1, 0, 0);
    let header = Header::new(&bytes).unwrap();
    let program = load_program(&bytes, &header).unwrap();
    let chr = load_char(&bytes, &header).unwrap();
    assert_eq!(program.len(), 0x4000);
    assert_eq!(chr.len(), 0x2000);
    assert_eq!(program[..], bytes[16..16 + 0x4000]);
    assert_eq!(chr[..], bytes[16 + 0x4000..]);
    assert_eq!(program[300], (300 % 251) as u8);
    assert_eq!(chr[0], 0x5A);
}

#[test]
fn truncated_regions_are_rejected() {
    let mut bytes = image(1, 1, 0, 0);
    bytes.pop();
    let header = Header::new(&bytes).unwrap();
    assert!(load_program(&bytes, &header).is_ok());
    assert_eq!(load_char(&bytes, &header), Err(FormatError::Truncated));
    assert_eq!(Rom::from_bytes(&bytes).err(), Some(FormatError::Truncated));
    bytes.truncate(16 + 0x3FFF);
    assert_eq!(load_program(&bytes, &header), Err(FormatError::Truncated));
    assert_eq!(Rom::from_bytes(&bytes).err(), Some(FormatError::Truncated));
    bytes.truncate(10);
    assert_eq!(load_program(&bytes, &header), Err(FormatError::Truncated));
    assert_eq!(load_char(&bytes, &header), Err(FormatError::Truncated));
}

#[test]
fn rom_from_bytes_reads_all_fields() {
    let bytes = image(2, 1, 0b0011_0001, 0b0101_0000);
    let rom = Rom::from_bytes(&bytes).unwrap();
    assert_eq!(rom.header.nes_header_const, [78, 69, 83, 26]);
    assert_eq!(rom.header.program_size, 0x8000);
    assert_eq!(rom.header.char_size, 0x2000);
    assert_eq!(rom.program_data[..], bytes[16..16 + 0x8000]);
    assert_eq!(rom.char_data[..], bytes[16 + 0x8000..]);
    assert_eq!(rom.mapper, 0x53);
    assert_eq!(rom.screen_mirroring, Mirroring::VERTICAL);
}

#[test]
fn rom_mirroring_modes() {
    assert_eq!(
        Rom::from_bytes(&image(1, 0, 0, 0)).unwrap().screen_mirroring,
        Mirroring::HORIZONTAL
    );
    assert_eq!(
        Rom::from_bytes(&image(1, 0, 1, 0)).unwrap().screen_mirroring,
        Mirroring::VERTICAL
    );
    assert_eq!(
        Rom::from_bytes(&image(1, 0, 0b1000, 0)).unwrap().screen_mirroring,
        Mirroring::FOUR_SCREEN
    );
    assert_eq!(
        Rom::from_bytes(&image(1, 0, 0b1001, 0)).unwrap().screen_mirroring,
        Mirroring::FOUR_SCREEN
    );
}

#[test]
fn rom_bad_magic_comes_before_truncation() {
    let mut bytes = image(1, 0, 0, 0);
    bytes[1] = 88;
    bytes.truncate(20);
    assert_eq!(Rom::from_bytes(&bytes).err(), Some(FormatError::BadMagic));
    assert_eq!(Rom::from_bytes(&vec![78, 69]).err(), Some(FormatError::Truncated));
}

#[test]
fn rom_without_character_data() {
    let rom = Rom::from_bytes(&image(1, 0, 0, 0)).unwrap();
    assert_eq!(rom.char_data.len(), 0);
    assert_eq!(rom.program_data.len(), 0x4000);
    assert_eq!(rom.mapper, 0);
}
