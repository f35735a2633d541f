//! The sixteen bytes with which a cartridge image starts.

use crate::error::INESError;
use vstd::prelude::*;

verus! {

/// The length of the header in bytes.
pub const INES_HEADER_SIZE: usize = 16;

/// The signature: the letters N, E, S and the end-of-file byte of DOS.
pub open spec fn signature() -> Seq<u8> {
    seq![0x4Eu8, 0x45u8, 0x53u8, 0x1Au8]
}

/// The header of a cartridge image.
#[derive(Eq, PartialEq, Debug)]
pub struct INESHeader {
    /// Bytes 0 to 3: the signature.
    pub nes: [u8; 4],
    /// Byte 4: the size of program ROM in units of 16 KB.
    pub program_rom_size: u8,
    /// Byte 5: the size of pattern ROM in units of 8 KB.
    pub character_rom_size: u8,
    /// Byte 6: mapper, mirroring, battery, trainer.
    pub flag6: u8,
    /// Byte 7: mapper, console type.
    pub flag7: u8,
    /// Byte 8: the size of program RAM.
    pub flag8: u8,
    /// Byte 9: the television system.
    pub flag9: u8,
    /// Byte 10: the television system, presence of program RAM.
    pub flag10: u8,
    /// Bytes 11 to 15: padding.
    pub padding: [u8; 5],
}

impl INESHeader {
    /// Whether the header holds the sixteen bytes `buf`, field by field.
    pub open spec fn holds(&self, buf: Seq<u8>) -> bool {
        &&& self.nes@ == buf.subrange(0, 4)
        &&& self.program_rom_size == buf[4]
        &&& self.character_rom_size == buf[5]
        &&& self.flag6 == buf[6]
        &&& self.flag7 == buf[7]
        &&& self.flag8 == buf[8]
        &&& self.flag9 == buf[9]
        &&& self.flag10 == buf[10]
        &&& self.padding@ == buf.subrange(11, 16)
    }

    /// Reads a header. Sixteen bytes that do not start with the signature
    /// are refused.
    pub fn parser(buf: &[u8; 16]) -> (r: Result<INESHeader, INESError>)
        ensures
            buf@.subrange(0, 4) == signature() ==> r is Ok && r->Ok_0.holds(buf@),
            buf@.subrange(0, 4) != signature() ==> r == Err::<INESHeader, INESError>(
                INESError::NotFound,
            ),
    {
        if buf[0] != 0x4E || buf[1] != 0x45 || buf[2] != 0x53 || buf[3] != 0x1A {
            proof {
                let head = buf@.subrange(0, 4);
                assert(head[0] == buf@[0] && head[1] == buf@[1] && head[2] == buf@[2] && head[3]
                    == buf@[3]);
            }
            return Err(INESError::NotFound);
        }
        let header = INESHeader {
            nes: [buf[0], buf[1], buf[2], buf[3]],
            program_rom_size: buf[4],
            character_rom_size: buf[5],
            flag6: buf[6],
            flag7: buf[7],
            flag8: buf[8],
            flag9: buf[9],
            flag10: buf[10],
            padding: [buf[11], buf[12], buf[13], buf[14], buf[15]],
        };
        assert(buf@.subrange(0, 4) =~= signature());
        assert(header.nes@ =~= buf@.subrange(0, 4));
        assert(header.padding@ =~= buf@.subrange(11, 16));
        Ok(header)
    }
}

} // verus!
