use vstd::prelude::*;
use super::header::{Header, FormatError, header_error, announced_program_size, announced_char_size};

verus! {

/// Length of the fixed header that precedes the program data.
pub const NES_HEADER_SIZE: usize = 0x10;

/// How the four logical nametables alias into the two physical ones.
#[allow(non_camel_case_types)]
#[derive(Debug, PartialEq, Eq, Structural, Clone, Copy)]
pub enum Mirroring {
    VERTICAL,
    HORIZONTAL,
    FOUR_SCREEN,
}

/// A cartridge: program data, character data, mapper id and mirroring mode.
#[derive(Debug)]
pub struct Rom {
    pub header: Header,
    pub program_data: Vec<u8>,
    pub char_data: Vec<u8>,
    pub mapper: u8,
    pub screen_mirroring: Mirroring,
}

/// The contents of a cartridge as mathematical values.
pub ghost struct RomModel {
    pub magic: Seq<u8>,
    pub program_size: int,
    pub char_size: int,
    pub program: Seq<u8>,
    pub chr: Seq<u8>,
    pub mapper: u8,
    pub mirroring: Mirroring,
}

impl View for Rom {
    type V = RomModel;

    open spec fn view(&self) -> RomModel {
        RomModel {
            magic: self.header.nes_header_const@,
            program_size: self.header.program_size as int,
            char_size: self.header.char_size as int,
            program: self.program_data@,
            chr: self.char_data@,
            mapper: self.mapper,
            mirroring: self.screen_mirroring,
        }
    }
}

/// Mapper id: the high nibble of byte 7 above the high nibble of byte 6.
pub open spec fn mapper_of(flags6: u8, flags7: u8) -> u8 {
    (flags7 & 0xF0) | (flags6 >> 4)
}

/// Mirroring mode: bit 3 of byte 6 selects four-screen and overrides bit 0,
/// which selects vertical over horizontal.
pub open spec fn mirroring_of(flags6: u8) -> Mirroring {
    if flags6 & 0b1000 != 0 {
        Mirroring::FOUR_SCREEN
    } else if flags6 & 0b1 != 0 {
        Mirroring::VERTICAL
    } else {
        Mirroring::HORIZONTAL
    }
}

/// Total length of an image whose header is the first bytes of `bytes`.
pub open spec fn announced_len(bytes: Seq<u8>) -> int
    recommends
        bytes.len() >= 6,
{
    0x10 + announced_program_size(bytes) + announced_char_size(bytes)
}

/// What parsing an image fails with, if it fails.
pub open spec fn parse_error(bytes: Seq<u8>) -> Option<FormatError> {
    if header_error(bytes) is Some {
        header_error(bytes)
    } else if bytes.len() < announced_len(bytes) {
        Some(FormatError::Truncated)
    } else {
        None
    }
}

/// The cartridge that a well-formed image describes.
pub open spec fn parsed(bytes: Seq<u8>) -> RomModel
    recommends
        parse_error(bytes) is None,
{
    let program_end = 0x10 + announced_program_size(bytes);
    RomModel {
        magic: bytes.subrange(0, 4),
        program_size: announced_program_size(bytes),
        char_size: announced_char_size(bytes),
        program: bytes.subrange(0x10, program_end),
        chr: bytes.subrange(program_end, announced_len(bytes)),
        mapper: mapper_of(bytes[6], bytes[7]),
        mirroring: mirroring_of(bytes[6]),
    }
}

/// Copies `buffer[start..end]` into a new vector.
fn copy_range(buffer: &[u8], start: usize, end: usize) -> (out: Vec<u8>)
    requires
        start <= end <= buffer@.len(),
    ensures
        out@ == buffer@.subrange(start as int, end as int),
{
    let mut out: Vec<u8> = Vec::new();
    let mut i: usize = start;
    while i < end
        invariant
            start <= i <= end <= buffer@.len(),
            out@ == buffer@.subrange(start as int, i as int),
        decreases end - i,
    {
        out.push(buffer[i]);
        i += 1;
        assert(out@ =~= buffer@.subrange(start as int, i as int));
    }
    out
}

/// The program data: `program_size` bytes that follow the fixed header.
/// `Truncated` exactly when the buffer ends before them.
pub fn load_program(buffer: &[u8], header: &Header) -> (r: Result<Vec<u8>, FormatError>)
    ensures
        buffer@.len() < 0x10 + header.program_size ==> r == Err::<Vec<u8>, FormatError>(
            FormatError::Truncated,
        ),
        buffer@.len() >= 0x10 + header.program_size ==> r is Ok && r->Ok_0@ == buffer@.subrange(
            0x10,
            0x10 + header.program_size,
        ),
{
    let size: usize = header.program_size as usize;
    if buffer.len() < NES_HEADER_SIZE || buffer.len() - NES_HEADER_SIZE < size {
        return Err(FormatError::Truncated);
    }
    Ok(copy_range(buffer, NES_HEADER_SIZE, NES_HEADER_SIZE + size))
}

/// The character data: `char_size` bytes that follow the program data.
/// `Truncated` exactly when the buffer ends before them.
pub fn load_char(buffer: &[u8], header: &Header) -> (r: Result<Vec<u8>, FormatError>)
    ensures
        buffer@.len() < 0x10 + header.program_size + header.char_size ==> r == Err::<
            Vec<u8>,
            FormatError,
        >(FormatError::Truncated),
        buffer@.len() >= 0x10 + header.program_size + header.char_size ==> r is Ok
            && r->Ok_0@ == buffer@.subrange(
            0x10 + header.program_size,
            0x10 + header.program_size + header.char_size,
        ),
{
    let program: usize = header.program_size as usize;
    let size: usize = header.char_size as usize;
    if buffer.len() < NES_HEADER_SIZE || buffer.len() - NES_HEADER_SIZE < program
        || buffer.len() - NES_HEADER_SIZE - program < size {
        return Err(FormatError::Truncated);
    }
    let start: usize = NES_HEADER_SIZE + program;
    Ok(copy_range(buffer, start, start + size))
}

impl Rom {
    /// Parses a whole cartridge image held in memory: header, program data,
    /// character data, mapper id and mirroring mode.
    pub fn from_bytes(bytes: &Vec<u8>) -> (r: Result<Rom, FormatError>)
        ensures
            match parse_error(bytes@) {
                Some(e) => r == Err::<Rom, FormatError>(e),
                None => r is Ok && r->Ok_0@ == parsed(bytes@),
            },
    {
        let header = match Header::new(bytes) {
            Ok(h) => h,
            Err(e) => { return Err(e); },
        };
        let program_data = match load_program(bytes.as_slice(), &header) {
            Ok(p) => p,
            Err(e) => { return Err(e); },
        };
        let char_data = match load_char(bytes.as_slice(), &header) {
            Ok(c) => c,
            Err(e) => { return Err(e); },
        };
        let flags6: u8 = bytes[6];
        let flags7: u8 = bytes[7];
        let mapper: u8 = (flags7 & 0xF0) | (flags6 >> 4);
        let screen_mirroring = if flags6 & 0b1000 != 0 {
            Mirroring::FOUR_SCREEN
        } else if flags6 & 0b1 != 0 {
            Mirroring::VERTICAL
        } else {
            Mirroring::HORIZONTAL
        };
        Ok(Rom { header, program_data, char_data, mapper, screen_mirroring })
    }
}

} // verus!
