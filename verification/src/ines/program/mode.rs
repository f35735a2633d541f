//! Addressing modes.

use crate::binary::text::{push_filling, right_aligned};
use vstd::prelude::*;

use vstd::string::*;

verus! {

/// The rule by which an instruction finds its operand.
#[derive(Copy, Clone, PartialEq, Eq, Debug, Structural)]
pub enum Mode {
    Implied,
    Accumulator,
    Immediate,
    ZeroPage,
    ZeroPageX,
    ZeroPageY,
    Absolute,
    AbsoluteX,
    AbsoluteY,
    Relative,
    Indirect,
    IndirectX,
    IndirectY,
    /// The mode of an opcode that the table does not define.
    NONE,
}

impl Mode {
    /// How many bytes follow the opcode byte.
    pub open spec fn operand_bytes(self) -> nat {
        match self {
            Mode::Implied | Mode::Accumulator | Mode::NONE => 0,
            Mode::Absolute | Mode::AbsoluteX | Mode::AbsoluteY | Mode::Indirect => 2,
            _ => 1,
        }
    }

    /// The mode's name.
    pub fn name(&self) -> (r: &'static str)
        ensures
            r@ == self.name_spec(),
    {
        match self {
            Mode::Implied => "Implied",
            Mode::Accumulator => "Accumulator",
            Mode::Immediate => "Immediate",
            Mode::ZeroPage => "ZeroPage",
            Mode::ZeroPageX => "ZeroPageX",
            Mode::ZeroPageY => "ZeroPageY",
            Mode::Absolute => "Absolute",
            Mode::AbsoluteX => "AbsoluteX",
            Mode::AbsoluteY => "AbsoluteY",
            Mode::Relative => "Relative",
            Mode::Indirect => "Indirect",
            Mode::IndirectX => "IndirectX",
            Mode::IndirectY => "IndirectY",
            Mode::NONE => "NONE",
        }
    }

    pub open spec fn name_spec(self) -> Seq<char> {
        match self {
            Mode::Implied => "Implied"@,
            Mode::Accumulator => "Accumulator"@,
            Mode::Immediate => "Immediate"@,
            Mode::ZeroPage => "ZeroPage"@,
            Mode::ZeroPageX => "ZeroPageX"@,
            Mode::ZeroPageY => "ZeroPageY"@,
            Mode::Absolute => "Absolute"@,
            Mode::AbsoluteX => "AbsoluteX"@,
            Mode::AbsoluteY => "AbsoluteY"@,
            Mode::Relative => "Relative"@,
            Mode::Indirect => "Indirect"@,
            Mode::IndirectX => "IndirectX"@,
            Mode::IndirectY => "IndirectY"@,
            Mode::NONE => "NONE"@,
        }
    }
}

impl Mode {
    /// The name, with blanks before it up to ten characters.
    pub open spec fn text(self) -> Seq<char> {
        right_aligned(self.name_spec(), 10, ' ')
    }

    /// The mode as text: its name, with blanks before it up to ten
    /// characters.
    pub fn to_string(&self) -> (r: String)
        ensures
            r@ == self.text(),
    {
        let name = self.name();
        let len = name.unicode_len();
        let mut s = String::new();
        push_filling(&mut s, if len < 10 {
            10 - len
        } else {
            0
        }, ' ');
        s.push_str(name);
        assert(s@ =~= self.text());
        s
    }
}

} // verus!
