//! A row of eight pixels.

use super::text::{number, push_number};
use vstd::prelude::*;

verus! {

/// Eight small numbers side by side: the bits of a byte, most significant
/// first, or sums of such bits.
#[derive(Copy, Clone, Eq, PartialEq, Debug, Structural)]
pub struct Bit(pub u8, pub u8, pub u8, pub u8, pub u8, pub u8, pub u8, pub u8);

/// Bit `k` of `v`, counted from the most significant bit.
pub open spec fn bit_at(v: u8, k: int) -> u8 {
    if k == 0 {
        (v / 128 % 2) as u8
    } else if k == 1 {
        (v / 64 % 2) as u8
    } else if k == 2 {
        (v / 32 % 2) as u8
    } else if k == 3 {
        (v / 16 % 2) as u8
    } else if k == 4 {
        (v / 8 % 2) as u8
    } else if k == 5 {
        (v / 4 % 2) as u8
    } else if k == 6 {
        (v / 2 % 2) as u8
    } else {
        (v % 2) as u8
    }
}

impl View for Bit {
    type V = Seq<u8>;

    /// The eight numbers from left to right.
    open spec fn view(&self) -> Seq<u8> {
        seq![self.0, self.1, self.2, self.3, self.4, self.5, self.6, self.7]
    }
}

impl Bit {
    /// The row of the bits of `v`.
    pub open spec fn of(v: u8) -> Bit {
        Bit(
            bit_at(v, 0),
            bit_at(v, 1),
            bit_at(v, 2),
            bit_at(v, 3),
            bit_at(v, 4),
            bit_at(v, 5),
            bit_at(v, 6),
            bit_at(v, 7),
        )
    }

    /// The row of the sums of two rows, place by place.
    pub open spec fn plus(self, other: Bit) -> Bit {
        Bit(
            (self.0 + other.0) as u8,
            (self.1 + other.1) as u8,
            (self.2 + other.2) as u8,
            (self.3 + other.3) as u8,
            (self.4 + other.4) as u8,
            (self.5 + other.5) as u8,
            (self.6 + other.6) as u8,
            (self.7 + other.7) as u8,
        )
    }

    /// Whether the two rows can be added: no sum exceeds a byte.
    pub open spec fn fits(self, other: Bit) -> bool {
        self.0 + other.0 <= 255 && self.1 + other.1 <= 255 && self.2 + other.2 <= 255 && self.3
            + other.3 <= 255 && self.4 + other.4 <= 255 && self.5 + other.5 <= 255 && self.6
            + other.6 <= 255 && self.7 + other.7 <= 255
    }

    /// The eight numbers from left to right.
    pub fn to_vec(&self) -> (r: Vec<u8>)
        ensures
            r@ == self@,
    {
        let mut out: Vec<u8> = Vec::new();
        out.push(self.0);
        out.push(self.1);
        out.push(self.2);
        out.push(self.3);
        out.push(self.4);
        out.push(self.5);
        out.push(self.6);
        out.push(self.7);
        assert(out@ =~= self@);
        out
    }

    /// The number at place `x`, counted from the left. Places from 7 on are
    /// the last one.
    pub fn get(&self, x: usize) -> (r: u8)
        ensures
            x < 8 ==> r == self@[x as int],
            x >= 8 ==> r == self.7,
    {
        match x {
            0 => self.0,
            1 => self.1,
            2 => self.2,
            3 => self.3,
            4 => self.4,
            5 => self.5,
            6 => self.6,
            _ => self.7,
        }
    }
}

impl Default for Bit {
    fn default() -> (r: Self)
        ensures
            r == Bit(0, 0, 0, 0, 0, 0, 0, 0),
    {
        Bit(0, 0, 0, 0, 0, 0, 0, 0)
    }
}

impl From<u8> for Bit {
    fn from(v: u8) -> (r: Self) {
        Bit(
            bool_to_bit(v / 128 % 2 == 1),
            bool_to_bit(v / 64 % 2 == 1),
            bool_to_bit(v / 32 % 2 == 1),
            bool_to_bit(v / 16 % 2 == 1),
            bool_to_bit(v / 8 % 2 == 1),
            bool_to_bit(v / 4 % 2 == 1),
            bool_to_bit(v / 2 % 2 == 1),
            bool_to_bit(v % 2 == 1),
        )
    }
}

impl vstd::std_specs::convert::FromSpecImpl<u8> for Bit {
    open spec fn obeys_from_spec() -> bool {
        true
    }

    open spec fn from_spec(v: u8) -> Self {
        Bit::of(v)
    }
}

impl std::ops::Add for Bit {
    type Output = Self;

    fn add(self, other: Self) -> (r: Self) {
        let Bit(a1, a2, a3, a4, a5, a6, a7, a8) = self;
        let Bit(b1, b2, b3, b4, b5, b6, b7, b8) = other;
        Bit(a1 + b1, a2 + b2, a3 + b3, a4 + b4, a5 + b5, a6 + b6, a7 + b7, a8 + b8)
    }
}

impl vstd::std_specs::ops::AddSpecImpl for Bit {
    open spec fn obeys_add_spec() -> bool {
        true
    }

    open spec fn add_req(self, other: Self) -> bool {
        self.fits(other)
    }

    open spec fn add_spec(self, other: Self) -> Self {
        self.plus(other)
    }
}

/// 1 for true, 0 for false.
pub fn bool_to_bit(b: bool) -> (r: u8)
    ensures
        r == (if b {
            1u8
        } else {
            0u8
        }),
{
    if b {
        1
    } else {
        0
    }
}

impl Bit {
    /// The eight numbers in decimal, one after the other.
    pub open spec fn text(&self) -> Seq<char> {
        number(self.0 as nat, false) + number(self.1 as nat, false) + number(self.2 as nat, false)
            + number(self.3 as nat, false) + number(self.4 as nat, false) + number(
            self.5 as nat,
            false,
        ) + number(self.6 as nat, false) + number(self.7 as nat, false)
    }

    /// The row as text: its eight numbers in decimal, one after the other.
    pub fn to_string(&self) -> (r: String)
        ensures
            r@ == self.text(),
    {
        let mut s = String::new();
        push_number(&mut s, self.0 as usize, false);
        push_number(&mut s, self.1 as usize, false);
        push_number(&mut s, self.2 as usize, false);
        push_number(&mut s, self.3 as usize, false);
        push_number(&mut s, self.4 as usize, false);
        push_number(&mut s, self.5 as usize, false);
        push_number(&mut s, self.6 as usize, false);
        push_number(&mut s, self.7 as usize, false);
        assert(s@ =~= self.text());
        s
    }
}

} // verus!
