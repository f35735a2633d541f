//! The registers of the processor.

use super::status_register::{StatusRegister, DEFAULT_STATUS};
use crate::binary::text::{hex, push_hex};
use vstd::prelude::*;

verus! {

/// The first address of the stack: the stack is the 256 bytes from here on.
pub const STACK_BASE: u16 = 0x0100;

/// The stack pointer of a processor that has just been switched on: the last
/// byte of the stack.
pub const STACK_TOP: u16 = 0x01ff;

/// The register file.
#[allow(non_snake_case)]
#[derive(Clone, Copy, PartialEq, Eq, Debug, Structural)]
pub struct Register {
    /// The accumulator.
    pub A: u8,
    /// Index register X.
    pub X: u8,
    /// Index register Y.
    pub Y: u8,
    /// The program counter.
    pub PC: u16,
    /// The stack pointer. Its high byte is fixed: it points into the stack,
    /// 0x0100 to 0x01FF.
    pub SP: u16,
    /// The status flags.
    pub P: StatusRegister,
}

impl Register {
    /// Whether the stack pointer points into the stack.
    pub open spec fn wf(&self) -> bool {
        STACK_BASE <= self.SP <= STACK_TOP
    }

    /// The registers at power-on.
    pub open spec fn initial() -> Register {
        Register { A: 0, X: 0, Y: 0, PC: 0, SP: STACK_TOP, P: StatusRegister(DEFAULT_STATUS) }
    }

    /// The registers at power-on: all zero, but for the stack pointer, which
    /// points at the last byte of the stack, and the flags.
    pub fn new() -> (r: Self)
        ensures
            r == Register::initial(),
            r.wf(),
    {
        Register { A: 0x00, X: 0x00, Y: 0x00, PC: 0x00, SP: 0x01ff, P: StatusRegister::new() }
    }
}

/// 1 for a flag that is set, 0 for one that is clear.
pub open spec fn flag_digit(b: bool) -> Seq<char> {
    if b {
        seq!['1']
    } else {
        seq!['0']
    }
}

/// Appends 1 for a flag that is set, 0 for one that is clear.
pub fn push_flag(s: &mut String, b: bool)
    ensures
        final(s)@ == old(s)@ + flag_digit(b),
{
    if b {
        s.push('1');
    } else {
        s.push('0');
    }
    assert(s@ =~= old(s)@ + flag_digit(b));
}

impl Register {
    /// The registers in hexadecimal, and under them the flags as 0 and 1.
    pub open spec fn text(&self) -> Seq<char> {
        "A: "@ + hex(self.A as nat) + ",  X: "@ + hex(self.X as nat) + ", Y: "@ + hex(self.Y as nat)
            + ", PC: "@ + hex(self.PC as nat) + ", SP: "@ + hex(self.SP as nat)
            + ", \nP: NVRBDIZC: "@ + flag_digit(self.P.n()) + flag_digit(self.P.v()) + flag_digit(
            self.P.r(),
        ) + flag_digit(self.P.b()) + flag_digit(self.P.d()) + flag_digit(self.P.i()) + flag_digit(
            self.P.z(),
        ) + flag_digit(self.P.c())
    }

    /// The registers as text.
    pub fn to_string(&self) -> (r: String)
        ensures
            r@ == self.text(),
    {
        let mut s = String::new();
        s.push_str("A: ");
        push_hex(&mut s, self.A as usize);
        s.push_str(",  X: ");
        push_hex(&mut s, self.X as usize);
        s.push_str(", Y: ");
        push_hex(&mut s, self.Y as usize);
        s.push_str(", PC: ");
        push_hex(&mut s, self.PC as usize);
        s.push_str(", SP: ");
        push_hex(&mut s, self.SP as usize);
        s.push_str(", \nP: NVRBDIZC: ");
        push_flag(&mut s, self.P.n());
        push_flag(&mut s, self.P.v());
        push_flag(&mut s, self.P.r());
        push_flag(&mut s, self.P.b());
        push_flag(&mut s, self.P.d());
        push_flag(&mut s, self.P.i());
        push_flag(&mut s, self.P.z());
        push_flag(&mut s, self.P.c());
        assert(s@ =~= self.text());
        s
    }
}

} // verus!
