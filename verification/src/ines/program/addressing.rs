//! Reading an operand out of program bytes, mode by mode.
//!
//! What is read here depends on the program bytes alone. Index registers and
//! pointers in memory are applied later, when the instruction is carried out.

use super::operand::Operand;
use crate::binary::u8u8_to_u16;
use crate::binary::util::word;
use vstd::prelude::*;

verus! {

/// The sixteen bits of an integer.
pub open spec fn wrap16(v: int) -> u16 {
    (v % 0x1_0000) as u16
}

/// A displacement byte as a signed number: from 128 on it counts down from
/// zero.
pub open spec fn signed(displacement: u8) -> int {
    if displacement >= 128 {
        displacement - 256
    } else {
        displacement as int
    }
}

/// Where a branch at `addr` with the given displacement byte leads: the
/// displacement is counted from the instruction that follows the two bytes of
/// the branch. The result lives in the address space in which `addr` does.
pub open spec fn relative_target(addr: int, displacement: u8) -> u16 {
    wrap16(addr + 2 + signed(displacement))
}

/// The address whose low byte follows the opcode at `addr` and whose high
/// byte comes after it.
pub open spec fn absolute_at(bytes: Seq<u8>, addr: int) -> u16 {
    word(bytes[addr + 2], bytes[addr + 1])
}

/// The address in page zero whose low byte follows the opcode at `addr`.
pub open spec fn zero_page_at(bytes: Seq<u8>, addr: int) -> u16 {
    word(0, bytes[addr + 1])
}

/// Program bytes from which operands can be read. `addr` is the place of the
/// opcode byte.
pub trait Addresing {
    /// The program bytes.
    spec fn bytes(&self) -> Seq<u8>;

    /// The instruction works on the accumulator.
    fn accumulator(&self, addr: usize) -> (r: Operand)
        ensures
            r == Operand::NONE,
    ;

    /// The byte after the opcode is the value itself.
    fn immediate(&self, addr: usize) -> (r: Operand)
        requires
            addr + 1 < self.bytes().len(),
        ensures
            r == Operand::Data(self.bytes()[addr + 1]),
    ;

    /// The two bytes after the opcode are the address, low byte first.
    fn absolute(&self, addr: usize) -> (r: Operand)
        requires
            addr + 2 < self.bytes().len(),
        ensures
            r == Operand::Addr(absolute_at(self.bytes(), addr as int)),
    ;

    /// The byte after the opcode is an address in page zero.
    fn zero_page(&self, addr: usize) -> (r: Operand)
        requires
            addr + 1 < self.bytes().len(),
        ensures
            r == Operand::Addr(zero_page_at(self.bytes(), addr as int)),
    ;

    /// As `zero_page`: the index register is added later.
    fn indexed_zero_page(&self, addr: usize) -> (r: Operand)
        requires
            addr + 1 < self.bytes().len(),
        ensures
            r == Operand::Addr(zero_page_at(self.bytes(), addr as int)),
    ;

    /// As `absolute`: the index register is added later.
    fn indexed_absolute(&self, addr: usize) -> (r: Operand)
        requires
            addr + 2 < self.bytes().len(),
        ensures
            r == Operand::Addr(absolute_at(self.bytes(), addr as int)),
    ;

    /// The instruction names no operand.
    fn implied(&self, addr: usize) -> (r: Operand)
        ensures
            r == Operand::NONE,
    ;

    /// The byte after the opcode is a signed displacement from the next
    /// instruction.
    fn relative(&self, addr: usize) -> (r: Operand)
        requires
            addr + 1 < self.bytes().len(),
        ensures
            r == Operand::Addr(relative_target(addr as int, self.bytes()[addr + 1])),
    ;

    /// The byte after the opcode is the place in page zero, before X is
    /// added, of the pointer to the operand.
    fn indexed_indirect(&self, addr: usize) -> (r: Operand)
        requires
            addr + 1 < self.bytes().len(),
        ensures
            r == Operand::Addr(zero_page_at(self.bytes(), addr as int)),
    ;

    /// The byte after the opcode is the place in page zero of a pointer, to
    /// which Y is added later.
    fn indirect_indexed(&self, addr: usize) -> (r: Operand)
        requires
            addr + 1 < self.bytes().len(),
        ensures
            r == Operand::Addr(zero_page_at(self.bytes(), addr as int)),
    ;

    /// The two bytes after the opcode are the place of a pointer to the
    /// operand.
    fn absolute_indirect(&self, addr: usize) -> (r: Operand)
        requires
            addr + 2 < self.bytes().len(),
        ensures
            r == Operand::Addr(absolute_at(self.bytes(), addr as int)),
    ;

    /// The opcode is not defined.
    fn none(&self, addr: usize) -> (r: Operand)
        ensures
            r == Operand::NONE,
    ;
}

impl Addresing for &[u8] {
    open spec fn bytes(&self) -> Seq<u8> {
        self@
    }

    fn accumulator(&self, addr: usize) -> (r: Operand) {
        Operand::NONE
    }

    fn immediate(&self, addr: usize) -> (r: Operand) {
        Operand::Data(self[addr + 1])
    }

    fn absolute(&self, addr: usize) -> (r: Operand) {
        let lower = self[addr + 1];
        let upper = self[addr + 2];
        Operand::Addr(u8u8_to_u16(upper, lower))
    }

    fn zero_page(&self, addr: usize) -> (r: Operand) {
        Operand::Addr(u8u8_to_u16(0x00, self[addr + 1]))
    }

    fn indexed_zero_page(&self, addr: usize) -> (r: Operand) {
        self.zero_page(addr)
    }

    fn indexed_absolute(&self, addr: usize) -> (r: Operand) {
        self.absolute(addr)
    }

    fn implied(&self, addr: usize) -> (r: Operand) {
        Operand::NONE
    }

    fn relative(&self, addr: usize) -> (r: Operand) {
        let v = self[addr + 1] as u16;
        let next_program = ((addr % 0x1_0000) as u16).wrapping_add(2);
        Operand::Addr(
            if v >= 0b1000_0000 {
                next_program.wrapping_add(v).wrapping_sub(256)
            } else {
                next_program.wrapping_add(v)
            },
        )
    }

    fn indexed_indirect(&self, addr: usize) -> (r: Operand) {
        self.zero_page(addr)
    }

    fn indirect_indexed(&self, addr: usize) -> (r: Operand) {
        self.zero_page(addr)
    }

    fn absolute_indirect(&self, addr: usize) -> (r: Operand) {
        self.absolute(addr)
    }

    fn none(&self, addr: usize) -> (r: Operand) {
        Operand::NONE
    }
}

} // verus!
