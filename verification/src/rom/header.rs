use vstd::prelude::*;

verus! {

/// Why a cartridge image was rejected.
#[derive(Debug, Clone, Copy, PartialEq, Eq, Structural)]
pub enum FormatError {
    /// The image does not begin with the bytes `N`, `E`, `S`, `0x1A`.
    BadMagic,
    /// The image ends before the data that its header announces.
    Truncated,
}

/// The leading fields of a cartridge image.
#[derive(Debug, PartialEq)]
pub struct Header {
    /// The four magic bytes as they were read.
    pub nes_header_const: [u8; 4],
    /// Size of the program data in bytes.
    pub program_size: u32,
    /// Size of the character data in bytes.
    pub char_size: u32,
}

/// Number of bytes `Header::new` needs to see.
pub const HEADER_FIELDS: usize = 6;

/// Bytes per unit of program data.
pub const PROGRAM_UNIT: u32 = 0x4000;

/// Bytes per unit of character data.
pub const CHAR_UNIT: u32 = 0x2000;

/// The bytes begin with the magic constant.
pub open spec fn has_magic(bytes: Seq<u8>) -> bool {
    &&& bytes.len() >= 4
    &&& bytes[0] == 78
    &&& bytes[1] == 69
    &&& bytes[2] == 83
    &&& bytes[3] == 26
}

/// Program size in bytes that the header bytes announce.
pub open spec fn announced_program_size(bytes: Seq<u8>) -> int
    recommends
        bytes.len() >= 6,
{
    bytes[4] * 0x4000
}

/// Character size in bytes that the header bytes announce.
pub open spec fn announced_char_size(bytes: Seq<u8>) -> int
    recommends
        bytes.len() >= 6,
{
    bytes[5] * 0x2000
}

/// What reading a header from `bytes` fails with, if it fails.
pub open spec fn header_error(bytes: Seq<u8>) -> Option<FormatError> {
    if bytes.len() < 6 {
        Some(FormatError::Truncated)
    } else if !has_magic(bytes) {
        Some(FormatError::BadMagic)
    } else {
        None
    }
}

impl Header {
    /// Reads the magic constant and the two size fields from the start of an
    /// image. Fewer than six bytes are `Truncated`; a wrong constant is
    /// `BadMagic`.
    pub fn new(buf: &Vec<u8>) -> (r: Result<Header, FormatError>)
        ensures
            match header_error(buf@) {
                Some(e) => r == Err::<Header, FormatError>(e),
                None => r is Ok && r->Ok_0.nes_header_const@ == buf@.subrange(0, 4)
                    && r->Ok_0.program_size == announced_program_size(buf@)
                    && r->Ok_0.char_size == announced_char_size(buf@),
            },
    {
        if buf.len() < HEADER_FIELDS {
            return Err(FormatError::Truncated);
        }
        let magic: [u8; 4] = [buf[0], buf[1], buf[2], buf[3]];
        if magic[0] != 78 || magic[1] != 69 || magic[2] != 83 || magic[3] != 26 {
            return Err(FormatError::BadMagic);
        }
        let program_units: u32 = buf[4] as u32;
        let char_units: u32 = buf[5] as u32;
        assert(magic@ =~= buf@.subrange(0, 4));
        Ok(Header {
            nes_header_const: magic,
            program_size: program_units * PROGRAM_UNIT,
            char_size: char_units * CHAR_UNIT,
        })
    }
}

} // verus!
