//! A cartridge image: header, program ROM, pattern ROM.

use super::header::{signature, INESHeader};
use crate::error::INESError;
use vstd::prelude::*;

verus! {

/// The bytes of one unit of program ROM.
pub const INES_PROGRAM_UNIT_SIZE: usize = 0x4000;

/// The bytes of one unit of pattern ROM.
pub const INES_CHARACTER_UNIT_SIZE: usize = 0x2000;

/// A cartridge image taken apart.
#[derive(Eq, PartialEq, Debug)]
pub struct INES {
    pub header: INESHeader,
    /// Always empty: an image is read as one without a trainer.
    pub trainer: Vec<u8>,
    pub program_rom_data: Vec<u8>,
    pub character_rom_data: Vec<u8>,
}

/// Where program ROM ends in an image: behind the header and as many units
/// of program ROM as byte 4 says.
pub open spec fn program_end(buf: Seq<u8>) -> int {
    16 + 0x4000 * buf[4]
}

/// Where pattern ROM ends in an image: behind program ROM and as many units
/// of pattern ROM as byte 5 says.
pub open spec fn character_end(buf: Seq<u8>) -> int {
    program_end(buf) + 0x2000 * buf[5]
}

/// Takes an image apart. The image itself is left as it is.
///
/// An image of less than sixteen bytes, or of fewer bytes than its header
/// announces, is refused as truncated; one of sixteen bytes or more that does
/// not start with the signature is refused as not found.
pub fn parser(buf: &mut Vec<u8>) -> (r: Result<INES, INESError>)
    ensures
        final(buf)@ == old(buf)@,
        old(buf)@.len() < 16 ==> r == Err::<INES, INESError>(INESError::Truncated),
        old(buf)@.len() >= 16 && old(buf)@.subrange(0, 4) != signature() ==> r == Err::<
            INES,
            INESError,
        >(INESError::NotFound),
        old(buf)@.len() >= 16 && old(buf)@.subrange(0, 4) == signature() && old(buf)@.len()
            < character_end(old(buf)@) ==> r == Err::<INES, INESError>(INESError::Truncated),
        old(buf)@.len() >= 16 && old(buf)@.subrange(0, 4) == signature() && old(buf)@.len()
            >= character_end(old(buf)@) ==> r is Ok && r->Ok_0.header.holds(
            old(buf)@.subrange(0, 16),
        ) && r->Ok_0.trainer@ == Seq::<u8>::empty() && r->Ok_0.program_rom_data@ == old(
            buf,
        )@.subrange(16, program_end(old(buf)@)) && r->Ok_0.character_rom_data@ == old(
            buf,
        )@.subrange(program_end(old(buf)@), character_end(old(buf)@)),
{
    if buf.len() < 16 {
        return Err(INESError::Truncated);
    }
    let header_buf: [u8; 16] = [
        buf[0],
        buf[1],
        buf[2],
        buf[3],
        buf[4],
        buf[5],
        buf[6],
        buf[7],
        buf[8],
        buf[9],
        buf[10],
        buf[11],
        buf[12],
        buf[13],
        buf[14],
        buf[15],
    ];
    assert(header_buf@ =~= buf@.subrange(0, 16));
    assert(header_buf@.subrange(0, 4) =~= buf@.subrange(0, 4));
    let h = match INESHeader::parser(&header_buf) {
        Ok(h) => h,
        Err(e) => {
            return Err(e);
        },
    };
    let program_data_size: usize = INES_PROGRAM_UNIT_SIZE * (h.program_rom_size as usize);
    let character_data_size_offset: usize = 16 + program_data_size;
    let character_data_size: usize = INES_CHARACTER_UNIT_SIZE * (h.character_rom_size as usize);
    let end: usize = character_data_size_offset + character_data_size;
    if buf.len() < end {
        return Err(INESError::Truncated);
    }
    let program_rom_data = copy_of(buf.as_slice(), 16, character_data_size_offset);
    let character_rom_data = copy_of(buf.as_slice(), character_data_size_offset, end);
    Ok(INES { header: h, trainer: Vec::new(), program_rom_data, character_rom_data })
}

/// A copy of the bytes of `buf` from `from` up to `to`.
pub fn copy_of(buf: &[u8], from: usize, to: usize) -> (r: Vec<u8>)
    requires
        from <= to <= buf@.len(),
    ensures
        r@ == buf@.subrange(from as int, to as int),
{
    let mut out: Vec<u8> = Vec::new();
    let mut i: usize = from;
    while i < to
        invariant
            from <= i <= to <= buf@.len(),
            out@ == buf@.subrange(from as int, i as int),
        decreases to - i,
    {
        out.push(buf[i]);
        i += 1;
        assert(out@ =~= buf@.subrange(from as int, i as int));
    }
    out
}

} // verus!
