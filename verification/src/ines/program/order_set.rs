//! The opcode table: what each of the 256 opcode bytes stands for.

use super::command::Command;
use super::mode::Mode;
use vstd::prelude::*;

verus! {

/// What one opcode byte stands for.
#[derive(Copy, Clone, PartialEq, Eq, Debug, Structural)]
pub struct OrderSet {
    /// How the operand is found.
    pub mode: Mode,
    /// What is done with it.
    pub cmd: Command,
    /// The length of the instruction in bytes, the opcode byte included.
    pub length: usize,
    /// The base cost in clock cycles.
    pub clock: usize,
}

impl OrderSet {
    pub fn new(mode: Mode, cmd: Command, length: usize, clock: usize) -> (r: Self)
        ensures
            r == (OrderSet { mode, cmd, length, clock }),
    {
        OrderSet { mode, cmd, length, clock }
    }

    /// The entry of an opcode that is not defined: a one-byte instruction
    /// that does nothing.
    pub open spec fn spec_none() -> Self {
        OrderSet { mode: Mode::NONE, cmd: Command::NOP, length: 1, clock: 1 }
    }

    /// The entry of an opcode that is not defined.
    #[verifier::when_used_as_spec(spec_none)]
    pub fn none() -> (r: Self)
        ensures
            r == Self::spec_none(),
    {
        OrderSet::new(Mode::NONE, Command::NOP, 1, 1)
    }
}

/// The table itself: the entry of every opcode byte.
pub open spec fn order_set_of(opcode: u8) -> OrderSet {
    match opcode {
        0x00 => OrderSet { mode: Mode::Implied, cmd: Command::BRK, length: 1, clock: 7 },
        0x01 => OrderSet { mode: Mode::IndirectX, cmd: Command::ORA, length: 2, clock: 6 },
        0x05 => OrderSet { mode: Mode::ZeroPage, cmd: Command::ORA, length: 2, clock: 3 },
        0x06 => OrderSet { mode: Mode::ZeroPage, cmd: Command::ASL, length: 2, clock: 5 },
        0x08 => OrderSet { mode: Mode::Implied, cmd: Command::PHP, length: 1, clock: 3 },
        0x09 => OrderSet { mode: Mode::Immediate, cmd: Command::ORA, length: 2, clock: 2 },
        0x0a => OrderSet { mode: Mode::Accumulator, cmd: Command::ASL, length: 1, clock: 2 },
        0x0d => OrderSet { mode: Mode::Absolute, cmd: Command::ORA, length: 3, clock: 4 },
        0x0e => OrderSet { mode: Mode::Absolute, cmd: Command::ASL, length: 3, clock: 6 },
        0x10 => OrderSet { mode: Mode::Relative, cmd: Command::BPL, length: 2, clock: 2 },
        0x11 => OrderSet { mode: Mode::IndirectY, cmd: Command::ORA, length: 2, clock: 5 },
        0x15 => OrderSet { mode: Mode::ZeroPageX, cmd: Command::ORA, length: 2, clock: 4 },
        0x16 => OrderSet { mode: Mode::ZeroPageX, cmd: Command::ASL, length: 2, clock: 6 },
        0x18 => OrderSet { mode: Mode::Implied, cmd: Command::CLC, length: 1, clock: 2 },
        0x19 => OrderSet { mode: Mode::AbsoluteY, cmd: Command::ORA, length: 3, clock: 4 },
        0x1d => OrderSet { mode: Mode::AbsoluteX, cmd: Command::ORA, length: 3, clock: 4 },
        0x1e => OrderSet { mode: Mode::AbsoluteX, cmd: Command::ASL, length: 3, clock: 6 },
        0x20 => OrderSet { mode: Mode::Absolute, cmd: Command::JSR, length: 3, clock: 6 },
        0x21 => OrderSet { mode: Mode::IndirectX, cmd: Command::AND, length: 2, clock: 6 },
        0x24 => OrderSet { mode: Mode::ZeroPage, cmd: Command::BIT, length: 2, clock: 3 },
        0x25 => OrderSet { mode: Mode::ZeroPage, cmd: Command::AND, length: 2, clock: 3 },
        0x26 => OrderSet { mode: Mode::ZeroPage, cmd: Command::ROL, length: 2, clock: 5 },
        0x28 => OrderSet { mode: Mode::Implied, cmd: Command::PLP, length: 1, clock: 4 },
        0x29 => OrderSet { mode: Mode::Immediate, cmd: Command::AND, length: 2, clock: 2 },
        0x2a => OrderSet { mode: Mode::Accumulator, cmd: Command::ROL, length: 1, clock: 2 },
        0x2c => OrderSet { mode: Mode::Absolute, cmd: Command::BIT, length: 3, clock: 4 },
        0x2d => OrderSet { mode: Mode::Absolute, cmd: Command::AND, length: 3, clock: 4 },
        0x2e => OrderSet { mode: Mode::Absolute, cmd: Command::ROL, length: 3, clock: 6 },
        0x30 => OrderSet { mode: Mode::Relative, cmd: Command::BMI, length: 2, clock: 2 },
        0x31 => OrderSet { mode: Mode::IndirectX, cmd: Command::AND, length: 2, clock: 5 },
        0x35 => OrderSet { mode: Mode::ZeroPageX, cmd: Command::AND, length: 2, clock: 4 },
        0x36 => OrderSet { mode: Mode::ZeroPageX, cmd: Command::ROL, length: 2, clock: 6 },
        0x38 => OrderSet { mode: Mode::Implied, cmd: Command::SEC, length: 1, clock: 2 },
        0x39 => OrderSet { mode: Mode::AbsoluteY, cmd: Command::AND, length: 3, clock: 4 },
        0x3d => OrderSet { mode: Mode::AbsoluteX, cmd: Command::AND, length: 3, clock: 4 },
        0x3e => OrderSet { mode: Mode::AbsoluteX, cmd: Command::ROL, length: 3, clock: 6 },
        0x40 => OrderSet { mode: Mode::Implied, cmd: Command::RTI, length: 1, clock: 6 },
        0x41 => OrderSet { mode: Mode::IndirectX, cmd: Command::EOR, length: 2, clock: 6 },
        0x45 => OrderSet { mode: Mode::ZeroPage, cmd: Command::EOR, length: 2, clock: 3 },
        0x46 => OrderSet { mode: Mode::ZeroPage, cmd: Command::LSR, length: 2, clock: 5 },
        0x48 => OrderSet { mode: Mode::Implied, cmd: Command::PHA, length: 1, clock: 3 },
        0x49 => OrderSet { mode: Mode::Immediate, cmd: Command::EOR, length: 2, clock: 2 },
        0x4a => OrderSet { mode: Mode::Accumulator, cmd: Command::LSR, length: 1, clock: 2 },
        0x4c => OrderSet { mode: Mode::Absolute, cmd: Command::JMP, length: 3, clock: 3 },
        0x4d => OrderSet { mode: Mode::Absolute, cmd: Command::EOR, length: 3, clock: 4 },
        0x4e => OrderSet { mode: Mode::Absolute, cmd: Command::LSR, length: 3, clock: 6 },
        0x50 => OrderSet { mode: Mode::Relative, cmd: Command::BVC, length: 2, clock: 2 },
        0x51 => OrderSet { mode: Mode::IndirectY, cmd: Command::EOR, length: 2, clock: 5 },
        0x55 => OrderSet { mode: Mode::ZeroPageX, cmd: Command::EOR, length: 2, clock: 4 },
        0x56 => OrderSet { mode: Mode::ZeroPageX, cmd: Command::LSR, length: 2, clock: 6 },
        0x58 => OrderSet { mode: Mode::Implied, cmd: Command::CLI, length: 1, clock: 2 },
        0x59 => OrderSet { mode: Mode::AbsoluteY, cmd: Command::EOR, length: 3, clock: 4 },
        0x5d => OrderSet { mode: Mode::AbsoluteX, cmd: Command::EOR, length: 3, clock: 4 },
        0x5e => OrderSet { mode: Mode::AbsoluteX, cmd: Command::LSR, length: 3, clock: 6 },
        0x60 => OrderSet { mode: Mode::Implied, cmd: Command::RTS, length: 1, clock: 6 },
        0x61 => OrderSet { mode: Mode::IndirectX, cmd: Command::ADC, length: 2, clock: 6 },
        0x65 => OrderSet { mode: Mode::ZeroPage, cmd: Command::ADC, length: 2, clock: 3 },
        0x66 => OrderSet { mode: Mode::ZeroPage, cmd: Command::ROR, length: 2, clock: 5 },
        0x68 => OrderSet { mode: Mode::Implied, cmd: Command::PLA, length: 1, clock: 4 },
        0x69 => OrderSet { mode: Mode::Immediate, cmd: Command::ADC, length: 2, clock: 2 },
        0x6a => OrderSet { mode: Mode::Accumulator, cmd: Command::ROR, length: 1, clock: 2 },
        0x6c => OrderSet { mode: Mode::Indirect, cmd: Command::JMP, length: 3, clock: 5 },
        0x6d => OrderSet { mode: Mode::Absolute, cmd: Command::ADC, length: 3, clock: 4 },
        0x6e => OrderSet { mode: Mode::Absolute, cmd: Command::ROR, length: 3, clock: 6 },
        0x70 => OrderSet { mode: Mode::Relative, cmd: Command::BVS, length: 2, clock: 2 },
        0x71 => OrderSet { mode: Mode::IndirectY, cmd: Command::ADC, length: 2, clock: 5 },
        0x75 => OrderSet { mode: Mode::ZeroPageX, cmd: Command::ADC, length: 2, clock: 4 },
        0x76 => OrderSet { mode: Mode::ZeroPageX, cmd: Command::ROR, length: 2, clock: 6 },
        0x78 => OrderSet { mode: Mode::Implied, cmd: Command::SEI, length: 1, clock: 2 },
        0x79 => OrderSet { mode: Mode::AbsoluteY, cmd: Command::ADC, length: 3, clock: 4 },
        0x7d => OrderSet { mode: Mode::AbsoluteX, cmd: Command::ADC, length: 3, clock: 4 },
        0x7e => OrderSet { mode: Mode::AbsoluteX, cmd: Command::ROR, length: 3, clock: 6 },
        0x81 => OrderSet { mode: Mode::IndirectX, cmd: Command::STA, length: 2, clock: 6 },
        0x84 => OrderSet { mode: Mode::ZeroPage, cmd: Command::STY, length: 2, clock: 3 },
        0x85 => OrderSet { mode: Mode::ZeroPage, cmd: Command::STA, length: 2, clock: 3 },
        0x86 => OrderSet { mode: Mode::ZeroPage, cmd: Command::STX, length: 2, clock: 3 },
        0x88 => OrderSet { mode: Mode::Implied, cmd: Command::DEY, length: 1, clock: 2 },
        0x8a => OrderSet { mode: Mode::Implied, cmd: Command::TXA, length: 1, clock: 2 },
        0x8c => OrderSet { mode: Mode::Absolute, cmd: Command::STY, length: 3, clock: 4 },
        0x8d => OrderSet { mode: Mode::Absolute, cmd: Command::STA, length: 3, clock: 4 },
        0x8e => OrderSet { mode: Mode::Absolute, cmd: Command::STX, length: 3, clock: 4 },
        0x90 => OrderSet { mode: Mode::Relative, cmd: Command::BCC, length: 2, clock: 2 },
        0x91 => OrderSet { mode: Mode::IndirectY, cmd: Command::STA, length: 2, clock: 5 },
        0x94 => OrderSet { mode: Mode::ZeroPageX, cmd: Command::STY, length: 2, clock: 4 },
        0x95 => OrderSet { mode: Mode::ZeroPageX, cmd: Command::STA, length: 2, clock: 4 },
        0x96 => OrderSet { mode: Mode::ZeroPageY, cmd: Command::STX, length: 2, clock: 4 },
        0x98 => OrderSet { mode: Mode::Implied, cmd: Command::TYA, length: 1, clock: 2 },
        0x99 => OrderSet { mode: Mode::AbsoluteY, cmd: Command::STA, length: 3, clock: 4 },
        0x9a => OrderSet { mode: Mode::Implied, cmd: Command::TXS, length: 1, clock: 2 },
        0x9d => OrderSet { mode: Mode::AbsoluteX, cmd: Command::STA, length: 3, clock: 4 },
        0xa0 => OrderSet { mode: Mode::Immediate, cmd: Command::LDY, length: 2, clock: 2 },
        0xa1 => OrderSet { mode: Mode::IndirectX, cmd: Command::LDA, length: 2, clock: 6 },
        0xa2 => OrderSet { mode: Mode::Immediate, cmd: Command::LDX, length: 2, clock: 2 },
        0xa4 => OrderSet { mode: Mode::ZeroPage, cmd: Command::LDY, length: 2, clock: 3 },
        0xa5 => OrderSet { mode: Mode::ZeroPage, cmd: Command::LDA, length: 2, clock: 3 },
        0xa6 => OrderSet { mode: Mode::ZeroPage, cmd: Command::LDX, length: 2, clock: 3 },
        0xa8 => OrderSet { mode: Mode::Implied, cmd: Command::TAY, length: 1, clock: 2 },
        0xa9 => OrderSet { mode: Mode::Immediate, cmd: Command::LDA, length: 2, clock: 2 },
        0xaa => OrderSet { mode: Mode::Implied, cmd: Command::TAX, length: 1, clock: 2 },
        0xac => OrderSet { mode: Mode::Absolute, cmd: Command::LDY, length: 3, clock: 4 },
        0xad => OrderSet { mode: Mode::Absolute, cmd: Command::LDA, length: 3, clock: 4 },
        0xae => OrderSet { mode: Mode::Absolute, cmd: Command::LDX, length: 3, clock: 4 },
        0xb0 => OrderSet { mode: Mode::Relative, cmd: Command::BCS, length: 2, clock: 2 },
        0xb1 => OrderSet { mode: Mode::IndirectX, cmd: Command::LDA, length: 2, clock: 5 },
        0xb4 => OrderSet { mode: Mode::ZeroPageX, cmd: Command::LDY, length: 2, clock: 4 },
        0xb5 => OrderSet { mode: Mode::ZeroPageX, cmd: Command::LDA, length: 2, clock: 4 },
        0xb6 => OrderSet { mode: Mode::ZeroPageY, cmd: Command::LDX, length: 2, clock: 4 },
        0xb8 => OrderSet { mode: Mode::Implied, cmd: Command::CLV, length: 1, clock: 2 },
        0xb9 => OrderSet { mode: Mode::AbsoluteY, cmd: Command::LDA, length: 3, clock: 4 },
        0xba => OrderSet { mode: Mode::Implied, cmd: Command::TSX, length: 1, clock: 2 },
        0xbc => OrderSet { mode: Mode::AbsoluteX, cmd: Command::LDY, length: 3, clock: 4 },
        0xbd => OrderSet { mode: Mode::AbsoluteX, cmd: Command::LDA, length: 3, clock: 4 },
        0xbe => OrderSet { mode: Mode::AbsoluteY, cmd: Command::LDX, length: 3, clock: 4 },
        0xc0 => OrderSet { mode: Mode::Immediate, cmd: Command::CPY, length: 2, clock: 2 },
        0xc1 => OrderSet { mode: Mode::IndirectX, cmd: Command::CMP, length: 2, clock: 6 },
        0xc4 => OrderSet { mode: Mode::ZeroPage, cmd: Command::CPY, length: 2, clock: 3 },
        0xc5 => OrderSet { mode: Mode::ZeroPage, cmd: Command::CMP, length: 2, clock: 3 },
        0xc6 => OrderSet { mode: Mode::ZeroPage, cmd: Command::DEC, length: 2, clock: 5 },
        0xc8 => OrderSet { mode: Mode::Implied, cmd: Command::INY, length: 1, clock: 2 },
        0xc9 => OrderSet { mode: Mode::Immediate, cmd: Command::CMP, length: 2, clock: 2 },
        0xca => OrderSet { mode: Mode::Implied, cmd: Command::DEX, length: 1, clock: 2 },
        0xcc => OrderSet { mode: Mode::Absolute, cmd: Command::CPY, length: 3, clock: 4 },
        0xcd => OrderSet { mode: Mode::Absolute, cmd: Command::CMP, length: 3, clock: 4 },
        0xce => OrderSet { mode: Mode::Absolute, cmd: Command::DEC, length: 3, clock: 6 },
        0xd0 => OrderSet { mode: Mode::Relative, cmd: Command::BNE, length: 2, clock: 2 },
        0xd1 => OrderSet { mode: Mode::IndirectY, cmd: Command::CMP, length: 2, clock: 5 },
        0xd5 => OrderSet { mode: Mode::ZeroPageX, cmd: Command::CMP, length: 2, clock: 4 },
        0xd6 => OrderSet { mode: Mode::ZeroPageX, cmd: Command::DEC, length: 2, clock: 6 },
        0xd8 => OrderSet { mode: Mode::Implied, cmd: Command::CLD, length: 1, clock: 2 },
        0xd9 => OrderSet { mode: Mode::AbsoluteY, cmd: Command::CMP, length: 3, clock: 4 },
        0xdd => OrderSet { mode: Mode::AbsoluteX, cmd: Command::CMP, length: 3, clock: 4 },
        0xde => OrderSet { mode: Mode::AbsoluteX, cmd: Command::DEC, length: 3, clock: 6 },
        0xe0 => OrderSet { mode: Mode::Immediate, cmd: Command::CPX, length: 2, clock: 2 },
        0xe1 => OrderSet { mode: Mode::IndirectX, cmd: Command::SBC, length: 2, clock: 6 },
        0xe4 => OrderSet { mode: Mode::ZeroPage, cmd: Command::CPX, length: 2, clock: 3 },
        0xe5 => OrderSet { mode: Mode::ZeroPage, cmd: Command::SBC, length: 2, clock: 3 },
        0xe6 => OrderSet { mode: Mode::ZeroPage, cmd: Command::INC, length: 2, clock: 5 },
        0xe8 => OrderSet { mode: Mode::Implied, cmd: Command::INX, length: 1, clock: 2 },
        0xe9 => OrderSet { mode: Mode::Immediate, cmd: Command::SBC, length: 2, clock: 2 },
        0xea => OrderSet { mode: Mode::Implied, cmd: Command::NOP, length: 1, clock: 2 },
        0xec => OrderSet { mode: Mode::Absolute, cmd: Command::CPX, length: 3, clock: 4 },
        0xed => OrderSet { mode: Mode::Absolute, cmd: Command::SBC, length: 3, clock: 4 },
        0xee => OrderSet { mode: Mode::Absolute, cmd: Command::INC, length: 3, clock: 6 },
        0xf0 => OrderSet { mode: Mode::Relative, cmd: Command::BEQ, length: 2, clock: 2 },
        0xf1 => OrderSet { mode: Mode::IndirectY, cmd: Command::SBC, length: 2, clock: 5 },
        0xf5 => OrderSet { mode: Mode::ZeroPageX, cmd: Command::SBC, length: 2, clock: 4 },
        0xf6 => OrderSet { mode: Mode::ZeroPageX, cmd: Command::INC, length: 2, clock: 6 },
        0xf8 => OrderSet { mode: Mode::Implied, cmd: Command::SED, length: 1, clock: 2 },
        0xf9 => OrderSet { mode: Mode::AbsoluteY, cmd: Command::SBC, length: 3, clock: 4 },
        0xfd => OrderSet { mode: Mode::AbsoluteX, cmd: Command::SBC, length: 3, clock: 4 },
        0xfe => OrderSet { mode: Mode::AbsoluteX, cmd: Command::INC, length: 3, clock: 6 },
        _ => OrderSet { mode: Mode::NONE, cmd: Command::NOP, length: 1, clock: 1 },
    }
}

/// Looks one opcode up without a table at hand.
pub fn decode(opcode: u8) -> (r: OrderSet)
    ensures
        r == order_set_of(opcode),
{
    match opcode {
        0x00 => OrderSet { mode: Mode::Implied, cmd: Command::BRK, length: 1, clock: 7 },
        0x01 => OrderSet { mode: Mode::IndirectX, cmd: Command::ORA, length: 2, clock: 6 },
        0x05 => OrderSet { mode: Mode::ZeroPage, cmd: Command::ORA, length: 2, clock: 3 },
        0x06 => OrderSet { mode: Mode::ZeroPage, cmd: Command::ASL, length: 2, clock: 5 },
        0x08 => OrderSet { mode: Mode::Implied, cmd: Command::PHP, length: 1, clock: 3 },
        0x09 => OrderSet { mode: Mode::Immediate, cmd: Command::ORA, length: 2, clock: 2 },
        0x0a => OrderSet { mode: Mode::Accumulator, cmd: Command::ASL, length: 1, clock: 2 },
        0x0d => OrderSet { mode: Mode::Absolute, cmd: Command::ORA, length: 3, clock: 4 },
        0x0e => OrderSet { mode: Mode::Absolute, cmd: Command::ASL, length: 3, clock: 6 },
        0x10 => OrderSet { mode: Mode::Relative, cmd: Command::BPL, length: 2, clock: 2 },
        0x11 => OrderSet { mode: Mode::IndirectY, cmd: Command::ORA, length: 2, clock: 5 },
        0x15 => OrderSet { mode: Mode::ZeroPageX, cmd: Command::ORA, length: 2, clock: 4 },
        0x16 => OrderSet { mode: Mode::ZeroPageX, cmd: Command::ASL, length: 2, clock: 6 },
        0x18 => OrderSet { mode: Mode::Implied, cmd: Command::CLC, length: 1, clock: 2 },
        0x19 => OrderSet { mode: Mode::AbsoluteY, cmd: Command::ORA, length: 3, clock: 4 },
        0x1d => OrderSet { mode: Mode::AbsoluteX, cmd: Command::ORA, length: 3, clock: 4 },
        0x1e => OrderSet { mode: Mode::AbsoluteX, cmd: Command::ASL, length: 3, clock: 6 },
        0x20 => OrderSet { mode: Mode::Absolute, cmd: Command::JSR, length: 3, clock: 6 },
        0x21 => OrderSet { mode: Mode::IndirectX, cmd: Command::AND, length: 2, clock: 6 },
        0x24 => OrderSet { mode: Mode::ZeroPage, cmd: Command::BIT, length: 2, clock: 3 },
        0x25 => OrderSet { mode: Mode::ZeroPage, cmd: Command::AND, length: 2, clock: 3 },
        0x26 => OrderSet { mode: Mode::ZeroPage, cmd: Command::ROL, length: 2, clock: 5 },
        0x28 => OrderSet { mode: Mode::Implied, cmd: Command::PLP, length: 1, clock: 4 },
        0x29 => OrderSet { mode: Mode::Immediate, cmd: Command::AND, length: 2, clock: 2 },
        0x2a => OrderSet { mode: Mode::Accumulator, cmd: Command::ROL, length: 1, clock: 2 },
        0x2c => OrderSet { mode: Mode::Absolute, cmd: Command::BIT, length: 3, clock: 4 },
        0x2d => OrderSet { mode: Mode::Absolute, cmd: Command::AND, length: 3, clock: 4 },
        0x2e => OrderSet { mode: Mode::Absolute, cmd: Command::ROL, length: 3, clock: 6 },
        0x30 => OrderSet { mode: Mode::Relative, cmd: Command::BMI, length: 2, clock: 2 },
        0x31 => OrderSet { mode: Mode::IndirectX, cmd: Command::AND, length: 2, clock: 5 },
        0x35 => OrderSet { mode: Mode::ZeroPageX, cmd: Command::AND, length: 2, clock: 4 },
        0x36 => OrderSet { mode: Mode::ZeroPageX, cmd: Command::ROL, length: 2, clock: 6 },
        0x38 => OrderSet { mode: Mode::Implied, cmd: Command::SEC, length: 1, clock: 2 },
        0x39 => OrderSet { mode: Mode::AbsoluteY, cmd: Command::AND, length: 3, clock: 4 },
        0x3d => OrderSet { mode: Mode::AbsoluteX, cmd: Command::AND, length: 3, clock: 4 },
        0x3e => OrderSet { mode: Mode::AbsoluteX, cmd: Command::ROL, length: 3, clock: 6 },
        0x40 => OrderSet { mode: Mode::Implied, cmd: Command::RTI, length: 1, clock: 6 },
        0x41 => OrderSet { mode: Mode::IndirectX, cmd: Command::EOR, length: 2, clock: 6 },
        0x45 => OrderSet { mode: Mode::ZeroPage, cmd: Command::EOR, length: 2, clock: 3 },
        0x46 => OrderSet { mode: Mode::ZeroPage, cmd: Command::LSR, length: 2, clock: 5 },
        0x48 => OrderSet { mode: Mode::Implied, cmd: Command::PHA, length: 1, clock: 3 },
        0x49 => OrderSet { mode: Mode::Immediate, cmd: Command::EOR, length: 2, clock: 2 },
        0x4a => OrderSet { mode: Mode::Accumulator, cmd: Command::LSR, length: 1, clock: 2 },
        0x4c => OrderSet { mode: Mode::Absolute, cmd: Command::JMP, length: 3, clock: 3 },
        0x4d => OrderSet { mode: Mode::Absolute, cmd: Command::EOR, length: 3, clock: 4 },
        0x4e => OrderSet { mode: Mode::Absolute, cmd: Command::LSR, length: 3, clock: 6 },
        0x50 => OrderSet { mode: Mode::Relative, cmd: Command::BVC, length: 2, clock: 2 },
        0x51 => OrderSet { mode: Mode::IndirectY, cmd: Command::EOR, length: 2, clock: 5 },
        0x55 => OrderSet { mode: Mode::ZeroPageX, cmd: Command::EOR, length: 2, clock: 4 },
        0x56 => OrderSet { mode: Mode::ZeroPageX, cmd: Command::LSR, length: 2, clock: 6 },
        0x58 => OrderSet { mode: Mode::Implied, cmd: Command::CLI, length: 1, clock: 2 },
        0x59 => OrderSet { mode: Mode::AbsoluteY, cmd: Command::EOR, length: 3, clock: 4 },
        0x5d => OrderSet { mode: Mode::AbsoluteX, cmd: Command::EOR, length: 3, clock: 4 },
        0x5e => OrderSet { mode: Mode::AbsoluteX, cmd: Command::LSR, length: 3, clock: 6 },
        0x60 => OrderSet { mode: Mode::Implied, cmd: Command::RTS, length: 1, clock: 6 },
        0x61 => OrderSet { mode: Mode::IndirectX, cmd: Command::ADC, length: 2, clock: 6 },
        0x65 => OrderSet { mode: Mode::ZeroPage, cmd: Command::ADC, length: 2, clock: 3 },
        0x66 => OrderSet { mode: Mode::ZeroPage, cmd: Command::ROR, length: 2, clock: 5 },
        0x68 => OrderSet { mode: Mode::Implied, cmd: Command::PLA, length: 1, clock: 4 },
        0x69 => OrderSet { mode: Mode::Immediate, cmd: Command::ADC, length: 2, clock: 2 },
        0x6a => OrderSet { mode: Mode::Accumulator, cmd: Command::ROR, length: 1, clock: 2 },
        0x6c => OrderSet { mode: Mode::Indirect, cmd: Command::JMP, length: 3, clock: 5 },
        0x6d => OrderSet { mode: Mode::Absolute, cmd: Command::ADC, length: 3, clock: 4 },
        0x6e => OrderSet { mode: Mode::Absolute, cmd: Command::ROR, length: 3, clock: 6 },
        0x70 => OrderSet { mode: Mode::Relative, cmd: Command::BVS, length: 2, clock: 2 },
        0x71 => OrderSet { mode: Mode::IndirectY, cmd: Command::ADC, length: 2, clock: 5 },
        0x75 => OrderSet { mode: Mode::ZeroPageX, cmd: Command::ADC, length: 2, clock: 4 },
        0x76 => OrderSet { mode: Mode::ZeroPageX, cmd: Command::ROR, length: 2, clock: 6 },
        0x78 => OrderSet { mode: Mode::Implied, cmd: Command::SEI, length: 1, clock: 2 },
        0x79 => OrderSet { mode: Mode::AbsoluteY, cmd: Command::ADC, length: 3, clock: 4 },
        0x7d => OrderSet { mode: Mode::AbsoluteX, cmd: Command::ADC, length: 3, clock: 4 },
        0x7e => OrderSet { mode: Mode::AbsoluteX, cmd: Command::ROR, length: 3, clock: 6 },
        0x81 => OrderSet { mode: Mode::IndirectX, cmd: Command::STA, length: 2, clock: 6 },
        0x84 => OrderSet { mode: Mode::ZeroPage, cmd: Command::STY, length: 2, clock: 3 },
        0x85 => OrderSet { mode: Mode::ZeroPage, cmd: Command::STA, length: 2, clock: 3 },
        0x86 => OrderSet { mode: Mode::ZeroPage, cmd: Command::STX, length: 2, clock: 3 },
        0x88 => OrderSet { mode: Mode::Implied, cmd: Command::DEY, length: 1, clock: 2 },
        0x8a => OrderSet { mode: Mode::Implied, cmd: Command::TXA, length: 1, clock: 2 },
        0x8c => OrderSet { mode: Mode::Absolute, cmd: Command::STY, length: 3, clock: 4 },
        0x8d => OrderSet { mode: Mode::Absolute, cmd: Command::STA, length: 3, clock: 4 },
        0x8e => OrderSet { mode: Mode::Absolute, cmd: Command::STX, length: 3, clock: 4 },
        0x90 => OrderSet { mode: Mode::Relative, cmd: Command::BCC, length: 2, clock: 2 },
        0x91 => OrderSet { mode: Mode::IndirectY, cmd: Command::STA, length: 2, clock: 5 },
        0x94 => OrderSet { mode: Mode::ZeroPageX, cmd: Command::STY, length: 2, clock: 4 },
        0x95 => OrderSet { mode: Mode::ZeroPageX, cmd: Command::STA, length: 2, clock: 4 },
        0x96 => OrderSet { mode: Mode::ZeroPageY, cmd: Command::STX, length: 2, clock: 4 },
        0x98 => OrderSet { mode: Mode::Implied, cmd: Command::TYA, length: 1, clock: 2 },
        0x99 => OrderSet { mode: Mode::AbsoluteY, cmd: Command::STA, length: 3, clock: 4 },
        0x9a => OrderSet { mode: Mode::Implied, cmd: Command::TXS, length: 1, clock: 2 },
        0x9d => OrderSet { mode: Mode::AbsoluteX, cmd: Command::STA, length: 3, clock: 4 },
        0xa0 => OrderSet { mode: Mode::Immediate, cmd: Command::LDY, length: 2, clock: 2 },
        0xa1 => OrderSet { mode: Mode::IndirectX, cmd: Command::LDA, length: 2, clock: 6 },
        0xa2 => OrderSet { mode: Mode::Immediate, cmd: Command::LDX, length: 2, clock: 2 },
        0xa4 => OrderSet { mode: Mode::ZeroPage, cmd: Command::LDY, length: 2, clock: 3 },
        0xa5 => OrderSet { mode: Mode::ZeroPage, cmd: Command::LDA, length: 2, clock: 3 },
        0xa6 => OrderSet { mode: Mode::ZeroPage, cmd: Command::LDX, length: 2, clock: 3 },
        0xa8 => OrderSet { mode: Mode::Implied, cmd: Command::TAY, length: 1, clock: 2 },
        0xa9 => OrderSet { mode: Mode::Immediate, cmd: Command::LDA, length: 2, clock: 2 },
        0xaa => OrderSet { mode: Mode::Implied, cmd: Command::TAX, length: 1, clock: 2 },
        0xac => OrderSet { mode: Mode::Absolute, cmd: Command::LDY, length: 3, clock: 4 },
        0xad => OrderSet { mode: Mode::Absolute, cmd: Command::LDA, length: 3, clock: 4 },
        0xae => OrderSet { mode: Mode::Absolute, cmd: Command::LDX, length: 3, clock: 4 },
        0xb0 => OrderSet { mode: Mode::Relative, cmd: Command::BCS, length: 2, clock: 2 },
        0xb1 => OrderSet { mode: Mode::IndirectX, cmd: Command::LDA, length: 2, clock: 5 },
        0xb4 => OrderSet { mode: Mode::ZeroPageX, cmd: Command::LDY, length: 2, clock: 4 },
        0xb5 => OrderSet { mode: Mode::ZeroPageX, cmd: Command::LDA, length: 2, clock: 4 },
        0xb6 => OrderSet { mode: Mode::ZeroPageY, cmd: Command::LDX, length: 2, clock: 4 },
        0xb8 => OrderSet { mode: Mode::Implied, cmd: Command::CLV, length: 1, clock: 2 },
        0xb9 => OrderSet { mode: Mode::AbsoluteY, cmd: Command::LDA, length: 3, clock: 4 },
        0xba => OrderSet { mode: Mode::Implied, cmd: Command::TSX, length: 1, clock: 2 },
        0xbc => OrderSet { mode: Mode::AbsoluteX, cmd: Command::LDY, length: 3, clock: 4 },
        0xbd => OrderSet { mode: Mode::AbsoluteX, cmd: Command::LDA, length: 3, clock: 4 },
        0xbe => OrderSet { mode: Mode::AbsoluteY, cmd: Command::LDX, length: 3, clock: 4 },
        0xc0 => OrderSet { mode: Mode::Immediate, cmd: Command::CPY, length: 2, clock: 2 },
        0xc1 => OrderSet { mode: Mode::IndirectX, cmd: Command::CMP, length: 2, clock: 6 },
        0xc4 => OrderSet { mode: Mode::ZeroPage, cmd: Command::CPY, length: 2, clock: 3 },
        0xc5 => OrderSet { mode: Mode::ZeroPage, cmd: Command::CMP, length: 2, clock: 3 },
        0xc6 => OrderSet { mode: Mode::ZeroPage, cmd: Command::DEC, length: 2, clock: 5 },
        0xc8 => OrderSet { mode: Mode::Implied, cmd: Command::INY, length: 1, clock: 2 },
        0xc9 => OrderSet { mode: Mode::Immediate, cmd: Command::CMP, length: 2, clock: 2 },
        0xca => OrderSet { mode: Mode::Implied, cmd: Command::DEX, length: 1, clock: 2 },
        0xcc => OrderSet { mode: Mode::Absolute, cmd: Command::CPY, length: 3, clock: 4 },
        0xcd => OrderSet { mode: Mode::Absolute, cmd: Command::CMP, length: 3, clock: 4 },
        0xce => OrderSet { mode: Mode::Absolute, cmd: Command::DEC, length: 3, clock: 6 },
        0xd0 => OrderSet { mode: Mode::Relative, cmd: Command::BNE, length: 2, clock: 2 },
        0xd1 => OrderSet { mode: Mode::IndirectY, cmd: Command::CMP, length: 2, clock: 5 },
        0xd5 => OrderSet { mode: Mode::ZeroPageX, cmd: Command::CMP, length: 2, clock: 4 },
        0xd6 => OrderSet { mode: Mode::ZeroPageX, cmd: Command::DEC, length: 2, clock: 6 },
        0xd8 => OrderSet { mode: Mode::Implied, cmd: Command::CLD, length: 1, clock: 2 },
        0xd9 => OrderSet { mode: Mode::AbsoluteY, cmd: Command::CMP, length: 3, clock: 4 },
        0xdd => OrderSet { mode: Mode::AbsoluteX, cmd: Command::CMP, length: 3, clock: 4 },
        0xde => OrderSet { mode: Mode::AbsoluteX, cmd: Command::DEC, length: 3, clock: 6 },
        0xe0 => OrderSet { mode: Mode::Immediate, cmd: Command::CPX, length: 2, clock: 2 },
        0xe1 => OrderSet { mode: Mode::IndirectX, cmd: Command::SBC, length: 2, clock: 6 },
        0xe4 => OrderSet { mode: Mode::ZeroPage, cmd: Command::CPX, length: 2, clock: 3 },
        0xe5 => OrderSet { mode: Mode::ZeroPage, cmd: Command::SBC, length: 2, clock: 3 },
        0xe6 => OrderSet { mode: Mode::ZeroPage, cmd: Command::INC, length: 2, clock: 5 },
        0xe8 => OrderSet { mode: Mode::Implied, cmd: Command::INX, length: 1, clock: 2 },
        0xe9 => OrderSet { mode: Mode::Immediate, cmd: Command::SBC, length: 2, clock: 2 },
        0xea => OrderSet { mode: Mode::Implied, cmd: Command::NOP, length: 1, clock: 2 },
        0xec => OrderSet { mode: Mode::Absolute, cmd: Command::CPX, length: 3, clock: 4 },
        0xed => OrderSet { mode: Mode::Absolute, cmd: Command::SBC, length: 3, clock: 4 },
        0xee => OrderSet { mode: Mode::Absolute, cmd: Command::INC, length: 3, clock: 6 },
        0xf0 => OrderSet { mode: Mode::Relative, cmd: Command::BEQ, length: 2, clock: 2 },
        0xf1 => OrderSet { mode: Mode::IndirectY, cmd: Command::SBC, length: 2, clock: 5 },
        0xf5 => OrderSet { mode: Mode::ZeroPageX, cmd: Command::SBC, length: 2, clock: 4 },
        0xf6 => OrderSet { mode: Mode::ZeroPageX, cmd: Command::INC, length: 2, clock: 6 },
        0xf8 => OrderSet { mode: Mode::Implied, cmd: Command::SED, length: 1, clock: 2 },
        0xf9 => OrderSet { mode: Mode::AbsoluteY, cmd: Command::SBC, length: 3, clock: 4 },
        0xfd => OrderSet { mode: Mode::AbsoluteX, cmd: Command::SBC, length: 3, clock: 4 },
        0xfe => OrderSet { mode: Mode::AbsoluteX, cmd: Command::INC, length: 3, clock: 6 },
        _ => OrderSet { mode: Mode::NONE, cmd: Command::NOP, length: 1, clock: 1 },
    }
}

/// The 256 entries of the table, in the order of the opcode bytes.
pub open spec fn whole_table() -> Seq<OrderSet> {
    Seq::new(256, |i: int| order_set_of(i as u8))
}

/// The opcode table, built once and handed to whoever decodes.
pub struct OrderSets {
    table: [OrderSet; 256],
}

impl View for OrderSets {
    type V = Seq<OrderSet>;

    /// The entries that the table holds, in the order of the opcode bytes.
    closed spec fn view(&self) -> Seq<OrderSet> {
        self.table@
    }
}

impl OrderSets {
    #[verifier::type_invariant]
    spec fn holds_the_table(&self) -> bool {
        forall|i: int| 0 <= i < 256 ==> #[trigger] self.table@[i] == order_set_of(i as u8)
    }

    /// Builds the table: the entry of every opcode byte, at the place of
    /// that byte.
    pub fn new() -> (r: Self)
        ensures
            r@ == whole_table(),
    {
        let mut table = [OrderSet::none(); 256];
        let mut i: usize = 0;
        while i < 256
            invariant
                i <= 256,
                forall|j: int| 0 <= j < i ==> #[trigger] table@[j] == order_set_of(j as u8),
            decreases 256 - i,
        {
            table[i] = decode(i as u8);
            i += 1;
        }
        assert(table@ =~= whole_table());
        OrderSets { table }
    }

    /// The entry of `opcode`. Every byte has one.
    pub fn lookup(&self, opcode: u8) -> (r: OrderSet)
        ensures
            r == order_set_of(opcode),
            r == self@[opcode as int],
    {
        proof {
            use_type_invariant(self);
        }
        self.table[opcode as usize]
    }
}

/// Every instruction is as long as its opcode byte and the operand bytes of
/// its mode: one, two or three bytes.
pub proof fn lemma_length_follows_mode(opcode: u8)
    ensures
        order_set_of(opcode).length == 1 + order_set_of(opcode).mode.operand_bytes(),
        1 <= order_set_of(opcode).length <= 3,
{
}

/// An opcode without a mode is an undefined one, and its entry is the
/// one-byte instruction that does nothing.
pub proof fn lemma_undefined_is_none(opcode: u8)
    ensures
        order_set_of(opcode).mode is NONE ==> order_set_of(opcode) == OrderSet::none(),
{
}

impl OrderSet {
    /// The mnemonic, a comma, and the mode.
    pub open spec fn text(self) -> Seq<char> {
        self.cmd.name_spec() + ", "@ + self.mode.text()
    }

    /// The entry as text.
    pub fn to_string(&self) -> (r: String)
        ensures
            r@ == self.text(),
    {
        let mut s = String::new();
        s.push_str(self.cmd.name());
        s.push_str(", ");
        let mode = self.mode.to_string();
        s.push_str(mode.as_str());
        assert(s@ =~= self.text());
        s
    }
}

} // verus!
