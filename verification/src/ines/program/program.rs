//! One decoded instruction.

use super::addressing::{absolute_at, relative_target, wrap16, zero_page_at, Addresing};
use super::mode::Mode;
use super::operand::Operand;
use super::order_set::{order_set_of, OrderSet, OrderSets};
use crate::error::AccessError;
use crate::binary::text::{hex_padded, push_hex_padded};
use vstd::prelude::*;

verus! {

/// The bus address at which the first byte of cartridge program ROM is
/// seen: the program counter's origin.
pub const PROGRAM_ORIGIN: u16 = 0x8000;

/// An instruction as it stands in program ROM, before any register is
/// consulted.
#[derive(Copy, Clone, PartialEq, Eq, Debug, Structural)]
pub struct Program {
    /// The opcode byte.
    pub order_set_index: u8,
    /// What the opcode byte stands for.
    pub orderset: OrderSet,
    /// The operand as far as the program bytes give it.
    pub operand: Operand,
    /// The place of the opcode byte, counted from the start of program ROM.
    pub addr: u16,
}

/// The operand that the bytes after the opcode at `addr` give under `mode`.
/// A branch target is a bus address: the program origin is added to it.
pub open spec fn operand_at(bytes: Seq<u8>, addr: int, mode: Mode) -> Operand {
    match mode {
        Mode::Implied | Mode::Accumulator | Mode::NONE => Operand::NONE,
        Mode::Immediate => Operand::Data(bytes[addr + 1]),
        Mode::ZeroPage | Mode::ZeroPageX | Mode::ZeroPageY | Mode::IndirectX | Mode::IndirectY =>
            Operand::Addr(zero_page_at(bytes, addr)),
        Mode::Absolute | Mode::AbsoluteX | Mode::AbsoluteY | Mode::Indirect => Operand::Addr(
            absolute_at(bytes, addr),
        ),
        Mode::Relative => Operand::Addr(
            wrap16(PROGRAM_ORIGIN + relative_target(addr, bytes[addr + 1])),
        ),
    }
}

/// Whether a whole instruction stands at `point`: its opcode byte and all the
/// bytes that the opcode asks for lie inside `rom`.
pub open spec fn instruction_fits(rom: Seq<u8>, point: int) -> bool {
    0 <= point < rom.len() && point + order_set_of(rom[point]).length <= rom.len()
}

/// The instruction that stands at `point`.
pub open spec fn program_at(rom: Seq<u8>, point: int) -> Program {
    Program {
        order_set_index: rom[point],
        orderset: order_set_of(rom[point]),
        operand: operand_at(rom, point, order_set_of(rom[point]).mode),
        addr: point as u16,
    }
}

impl Program {
    /// Decodes the instruction whose opcode byte stands at `point`. Fails
    /// when the instruction does not lie inside `rom` whole.
    pub fn parse(table: &OrderSets, rom: &[u8], point: u16) -> (r: Result<Program, AccessError>)
        ensures
            instruction_fits(rom@, point as int) ==> r == Ok::<Program, AccessError>(
                program_at(rom@, point as int),
            ),
            !instruction_fits(rom@, point as int) ==> r == Err::<Program, AccessError>(
                AccessError::Unmapped,
            ),
    {
        let point_usize = point as usize;
        if point_usize >= rom.len() {
            return Err(AccessError::Unmapped);
        }
        let order_set_index = rom[point_usize];
        let orderset = table.lookup(order_set_index);
        proof {
            super::order_set::lemma_length_follows_mode(order_set_index);
        }
        if orderset.length > rom.len() - point_usize {
            return Err(AccessError::Unmapped);
        }
        let operand = Self::operand(&rom, point_usize, orderset.mode);
        Ok(Program { order_set_index, orderset, operand, addr: point })
    }

    /// Reads the operand of the instruction at `addr` out of `buf`.
    pub fn operand<T>(buf: &T, addr: usize, mode: Mode) -> (r: Operand) where T: Addresing
        requires
            addr + mode.operand_bytes() < buf.bytes().len(),
        ensures
            r == operand_at(buf.bytes(), addr as int, mode),
    {
        match mode {
            Mode::Implied => buf.implied(addr),
            Mode::Accumulator => buf.accumulator(addr),
            Mode::Immediate => buf.immediate(addr),
            Mode::ZeroPage => buf.zero_page(addr),
            Mode::ZeroPageX => buf.indexed_zero_page(addr),
            Mode::ZeroPageY => buf.indexed_zero_page(addr),
            Mode::Absolute => buf.absolute(addr),
            Mode::AbsoluteX => buf.indexed_absolute(addr),
            Mode::AbsoluteY => buf.indexed_absolute(addr),
            Mode::Relative => {
                let target = buf.relative(addr).addr();
                Operand::Addr(PROGRAM_ORIGIN.wrapping_add(target))
            },
            Mode::Indirect => buf.absolute_indirect(addr),
            Mode::IndirectX => buf.indexed_indirect(addr),
            Mode::IndirectY => buf.indirect_indexed(addr),
            Mode::NONE => buf.none(addr),
        }
    }
}

impl Program {
    /// The place, the opcode byte, what it stands for, and the operand.
    pub open spec fn text(self) -> Seq<char> {
        "@"@ + hex_padded(self.addr as nat, 4) + " #"@ + hex_padded(self.order_set_index as nat, 2)
            + " => "@ + self.orderset.text() + " "@ + self.operand.text()
    }

    /// The instruction as text.
    pub fn to_string(&self) -> (r: String)
        ensures
            r@ == self.text(),
    {
        let mut s = String::new();
        s.push_str("@");
        push_hex_padded(&mut s, self.addr as usize, 4);
        s.push_str(" #");
        push_hex_padded(&mut s, self.order_set_index as usize, 2);
        s.push_str(" => ");
        let orderset = self.orderset.to_string();
        s.push_str(orderset.as_str());
        s.push_str(" ");
        let operand = self.operand.to_string();
        s.push_str(operand.as_str());
        assert(s@ =~= self.text());
        s
    }
}

} // verus!
