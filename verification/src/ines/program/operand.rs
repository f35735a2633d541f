//! What an instruction works on.

use crate::binary::util::{high_byte, low_byte};
use crate::binary::u16_to_u8u8;
use crate::binary::text::{hex, number, push_hex, push_number};
use vstd::prelude::*;

verus! {

/// The operand of one instruction: a value, an address, or nothing.
#[derive(Copy, Clone, PartialEq, Eq, Debug, Structural)]
pub enum Operand {
    Data(u8),
    Addr(u16),
    NONE,
}

impl Operand {
    /// The address that the operand holds. Asking an operand that holds no
    /// address is a mistake of the caller.
    pub fn addr(&self) -> (r: u16)
        requires
            self is Addr,
        ensures
            *self == Operand::Addr(r),
    {
        match self {
            Operand::Addr(addr) => *addr,
            _ => 0,
        }
    }

    /// The high and the low byte of the address that the operand holds.
    pub fn addrs(&self) -> (r: (u8, u8))
        requires
            self is Addr,
        ensures
            r.0 == high_byte(self->Addr_0),
            r.1 == low_byte(self->Addr_0),
    {
        match self {
            Operand::Addr(addr) => u16_to_u8u8(*addr),
            _ => (0, 0),
        }
    }
}

impl Operand {
    /// A value in decimal, an address in hexadecimal, a dash for nothing.
    pub open spec fn text(self) -> Seq<char> {
        match self {
            Operand::Data(v) => number(v as nat, false),
            Operand::Addr(a) => hex(a as nat),
            Operand::NONE => seq!['-'],
        }
    }

    /// The operand as text.
    pub fn to_string(&self) -> (r: String)
        ensures
            r@ == self.text(),
    {
        let mut s = String::new();
        match self {
            Operand::Data(v) => {
                push_number(&mut s, *v as usize, false);
            },
            Operand::Addr(a) => {
                push_hex(&mut s, *a as usize);
            },
            Operand::NONE => {
                s.push('-');
            },
        }
        assert(s@ =~= self.text());
        s
    }
}

} // verus!
