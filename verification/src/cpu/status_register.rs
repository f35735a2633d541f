//! The processor status byte and its eight named flags.

use vstd::prelude::*;

verus! {

pub const N_FLAG: u8 = 0b1000_0000;

pub const V_FLAG: u8 = 0b0100_0000;

pub const R_FLAG: u8 = 0b0010_0000;

pub const B_FLAG: u8 = 0b0001_0000;

pub const D_FLAG: u8 = 0b0000_1000;

pub const I_FLAG: u8 = 0b0000_0100;

pub const Z_FLAG: u8 = 0b0000_0010;

pub const C_FLAG: u8 = 0b0000_0001;

/// The status byte of a processor that has just been switched on: reserved,
/// break and interrupt-disable are set.
pub const DEFAULT_STATUS: u8 = 0b0011_0100;

/// Whether every bit of `mask` is set in `v`.
pub open spec fn has_flag(v: u8, mask: u8) -> bool {
    v & mask == mask
}

/// `v` with the bits of `mask` set (`on`) or cleared (`!on`).
pub open spec fn with_flag(v: u8, mask: u8, on: bool) -> u8 {
    if on {
        v | mask
    } else {
        v & !mask
    }
}

/// Whether `mask` is one of the eight single-bit flag masks.
pub open spec fn is_flag_mask(mask: u8) -> bool {
    mask == N_FLAG || mask == V_FLAG || mask == R_FLAG || mask == B_FLAG || mask == D_FLAG || mask
        == I_FLAG || mask == Z_FLAG || mask == C_FLAG
}

/// The status byte. A value is never changed in place: every setter returns
/// the new byte.
#[derive(Clone, Copy, PartialEq, Eq, Debug, Structural)]
pub struct StatusRegister(pub u8);

impl StatusRegister {
    pub open spec fn spec_n(&self) -> bool {
        has_flag(self.0, N_FLAG)
    }

    pub open spec fn spec_v(&self) -> bool {
        has_flag(self.0, V_FLAG)
    }

    /// The reserved flag reads as set whatever the byte holds.
    pub open spec fn spec_r(&self) -> bool {
        true
    }

    pub open spec fn spec_b(&self) -> bool {
        has_flag(self.0, B_FLAG)
    }

    pub open spec fn spec_d(&self) -> bool {
        has_flag(self.0, D_FLAG)
    }

    pub open spec fn spec_i(&self) -> bool {
        has_flag(self.0, I_FLAG)
    }

    pub open spec fn spec_z(&self) -> bool {
        has_flag(self.0, Z_FLAG)
    }

    pub open spec fn spec_c(&self) -> bool {
        has_flag(self.0, C_FLAG)
    }

    pub open spec fn spec_set_n(&self, on: bool) -> Self {
        StatusRegister(with_flag(self.0, N_FLAG, on))
    }

    pub open spec fn spec_set_v(&self, on: bool) -> Self {
        StatusRegister(with_flag(self.0, V_FLAG, on))
    }

    pub open spec fn spec_set_b(&self, on: bool) -> Self {
        StatusRegister(with_flag(self.0, B_FLAG, on))
    }

    pub open spec fn spec_set_d(&self, on: bool) -> Self {
        StatusRegister(with_flag(self.0, D_FLAG, on))
    }

    pub open spec fn spec_set_i(&self, on: bool) -> Self {
        StatusRegister(with_flag(self.0, I_FLAG, on))
    }

    pub open spec fn spec_set_z(&self, on: bool) -> Self {
        StatusRegister(with_flag(self.0, Z_FLAG, on))
    }

    pub open spec fn spec_set_c(&self, on: bool) -> Self {
        StatusRegister(with_flag(self.0, C_FLAG, on))
    }

    /// The status byte at power-on.
    pub fn new() -> (r: Self)
        ensures
            r.0 == DEFAULT_STATUS,
    {
        StatusRegister(DEFAULT_STATUS)
    }

    /// Negative.
    #[verifier::when_used_as_spec(spec_n)]
    pub fn n(&self) -> (r: bool)
        ensures
            r == self.spec_n(),
    {
        self.0 & N_FLAG == N_FLAG
    }

    /// Overflow.
    #[verifier::when_used_as_spec(spec_v)]
    pub fn v(&self) -> (r: bool)
        ensures
            r == self.spec_v(),
    {
        self.0 & V_FLAG == V_FLAG
    }

    /// Reserved: always set.
    #[verifier::when_used_as_spec(spec_r)]
    pub fn r(&self) -> (r: bool)
        ensures
            r,
    {
        true
    }

    /// Break.
    #[verifier::when_used_as_spec(spec_b)]
    pub fn b(&self) -> (r: bool)
        ensures
            r == self.spec_b(),
    {
        self.0 & B_FLAG == B_FLAG
    }

    /// Decimal.
    #[verifier::when_used_as_spec(spec_d)]
    pub fn d(&self) -> (r: bool)
        ensures
            r == self.spec_d(),
    {
        self.0 & D_FLAG == D_FLAG
    }

    /// Interrupt-disable.
    #[verifier::when_used_as_spec(spec_i)]
    pub fn i(&self) -> (r: bool)
        ensures
            r == self.spec_i(),
    {
        self.0 & I_FLAG == I_FLAG
    }

    /// Zero.
    #[verifier::when_used_as_spec(spec_z)]
    pub fn z(&self) -> (r: bool)
        ensures
            r == self.spec_z(),
    {
        self.0 & Z_FLAG == Z_FLAG
    }

    /// Carry.
    #[verifier::when_used_as_spec(spec_c)]
    pub fn c(&self) -> (r: bool)
        ensures
            r == self.spec_c(),
    {
        self.0 & C_FLAG == C_FLAG
    }

    /// The byte with Negative set to `on`.
    #[verifier::when_used_as_spec(spec_set_n)]
    pub fn set_n(&self, on: bool) -> (r: Self)
        ensures
            r == self.spec_set_n(on),
    {
        StatusRegister(if on { self.0 | N_FLAG } else { self.0 & !N_FLAG })
    }

    /// The byte with Overflow set to `on`.
    #[verifier::when_used_as_spec(spec_set_v)]
    pub fn set_v(&self, on: bool) -> (r: Self)
        ensures
            r == self.spec_set_v(on),
    {
        StatusRegister(if on { self.0 | V_FLAG } else { self.0 & !V_FLAG })
    }

    /// The reserved flag can only be set: asking to clear it is a mistake of
    /// the caller. The byte comes back with the reserved bit set.
    pub fn set_r(&self, on: bool) -> (r: Self)
        requires
            on,
        ensures
            r.0 == with_flag(self.0, R_FLAG, true),
    {
        StatusRegister(self.0 | R_FLAG)
    }

    /// The byte with Break set to `on`.
    #[verifier::when_used_as_spec(spec_set_b)]
    pub fn set_b(&self, on: bool) -> (r: Self)
        ensures
            r == self.spec_set_b(on),
    {
        StatusRegister(if on { self.0 | B_FLAG } else { self.0 & !B_FLAG })
    }

    /// The byte with Decimal set to `on`.
    #[verifier::when_used_as_spec(spec_set_d)]
    pub fn set_d(&self, on: bool) -> (r: Self)
        ensures
            r == self.spec_set_d(on),
    {
        StatusRegister(if on { self.0 | D_FLAG } else { self.0 & !D_FLAG })
    }

    /// The byte with Interrupt-disable set to `on`.
    #[verifier::when_used_as_spec(spec_set_i)]
    pub fn set_i(&self, on: bool) -> (r: Self)
        ensures
            r == self.spec_set_i(on),
    {
        StatusRegister(if on { self.0 | I_FLAG } else { self.0 & !I_FLAG })
    }

    /// The byte with Zero set to `on`.
    #[verifier::when_used_as_spec(spec_set_z)]
    pub fn set_z(&self, on: bool) -> (r: Self)
        ensures
            r == self.spec_set_z(on),
    {
        StatusRegister(if on { self.0 | Z_FLAG } else { self.0 & !Z_FLAG })
    }

    /// The byte with Carry set to `on`.
    #[verifier::when_used_as_spec(spec_set_c)]
    pub fn set_c(&self, on: bool) -> (r: Self)
        ensures
            r == self.spec_set_c(on),
    {
        StatusRegister(if on { self.0 | C_FLAG } else { self.0 & !C_FLAG })
    }
}

pub open spec fn spec_flag_n(v: u8) -> bool {
    has_flag(v, N_FLAG)
}

pub open spec fn spec_flag_z(v: u8) -> bool {
    v == 0
}

/// Whether a result is negative: its bit 7.
#[verifier::when_used_as_spec(spec_flag_n)]
pub fn flag_n(v: u8) -> (r: bool)
    ensures
        r == spec_flag_n(v),
{
    v & N_FLAG == N_FLAG
}

/// Whether a result is zero.
#[verifier::when_used_as_spec(spec_flag_z)]
pub fn flag_z(v: u8) -> (r: bool)
    ensures
        r == spec_flag_z(v),
{
    v == 0
}

impl From<u8> for StatusRegister {
    fn from(v: u8) -> (r: Self) {
        StatusRegister(v)
    }
}

impl vstd::std_specs::convert::FromSpecImpl<u8> for StatusRegister {
    open spec fn obeys_from_spec() -> bool {
        true
    }

    open spec fn from_spec(v: u8) -> Self {
        StatusRegister(v)
    }
}

impl From<StatusRegister> for u8 {
    fn from(v: StatusRegister) -> (r: Self) {
        v.0
    }
}

impl vstd::std_specs::convert::FromSpecImpl<StatusRegister> for u8 {
    open spec fn obeys_from_spec() -> bool {
        true
    }

    open spec fn from_spec(v: StatusRegister) -> Self {
        v.0
    }
}

/// Setting a flag makes it read as it was set and leaves the seven others
/// as they were.
pub proof fn lemma_flag_after_set(v: u8, set: u8, read: u8, on: bool)
    requires
        is_flag_mask(set),
        is_flag_mask(read),
    ensures
        has_flag(with_flag(v, set, on), read) == (if set == read {
            on
        } else {
            has_flag(v, read)
        }),
{
    assert(((v | set) & read == read) == (if set == read {
        true
    } else {
        v & read == read
    })) by (bit_vector)
        requires
            is_flag_mask(set),
            is_flag_mask(read),
    ;
    assert(((v & !set) & read == read) == (if set == read {
        false
    } else {
        v & read == read
    })) by (bit_vector)
        requires
            is_flag_mask(set),
            is_flag_mask(read),
    ;
}

/// The negative flag of a byte is its sign as a two's complement number.
pub proof fn lemma_flag_n_is_sign(v: u8)
    ensures
        spec_flag_n(v) == (v >= 128),
{
    assert((v & 0x80 == 0x80) == (v >= 128)) by (bit_vector);
}

/// The power-on byte has reserved, break and interrupt-disable set and the
/// five other flags clear.
pub proof fn lemma_default_flags()
    ensures
        !has_flag(DEFAULT_STATUS, N_FLAG),
        !has_flag(DEFAULT_STATUS, V_FLAG),
        has_flag(DEFAULT_STATUS, R_FLAG),
        has_flag(DEFAULT_STATUS, B_FLAG),
        !has_flag(DEFAULT_STATUS, D_FLAG),
        has_flag(DEFAULT_STATUS, I_FLAG),
        !has_flag(DEFAULT_STATUS, Z_FLAG),
        !has_flag(DEFAULT_STATUS, C_FLAG),
{
    assert(0x34u8 & 0x80 != 0x80 && 0x34u8 & 0x40 != 0x40 && 0x34u8 & 0x20 == 0x20 && 0x34u8 & 0x10
        == 0x10 && 0x34u8 & 0x08 != 0x08 && 0x34u8 & 0x04 == 0x04 && 0x34u8 & 0x02 != 0x02 && 0x34u8
        & 0x01 != 0x01) by (bit_vector);
}

/// `true` or `false` in letters.
pub open spec fn truth(b: bool) -> Seq<char> {
    if b {
        "true"@
    } else {
        "false"@
    }
}

/// Appends `true` or `false` in letters.
pub fn push_truth(s: &mut String, b: bool)
    ensures
        final(s)@ == old(s)@ + truth(b),
{
    if b {
        s.push_str("true");
    } else {
        s.push_str("false");
    }
}

impl StatusRegister {
    /// The eight flags, a line each.
    pub open spec fn text(&self) -> Seq<char> {
        "N: "@ + truth(self.n()) + "\nV: "@ + truth(self.v()) + "\nR: "@ + truth(self.r())
            + "\nB: "@ + truth(self.b()) + "\nD: "@ + truth(self.d()) + "\nI: "@ + truth(self.i())
            + "\nZ: "@ + truth(self.z()) + "\nC: "@ + truth(self.c())
    }

    /// The eight flags as text, a line each.
    pub fn to_string(&self) -> (r: String)
        ensures
            r@ == self.text(),
    {
        let mut s = String::new();
        s.push_str("N: ");
        push_truth(&mut s, self.n());
        s.push_str("\nV: ");
        push_truth(&mut s, self.v());
        s.push_str("\nR: ");
        push_truth(&mut s, self.r());
        s.push_str("\nB: ");
        push_truth(&mut s, self.b());
        s.push_str("\nD: ");
        push_truth(&mut s, self.d());
        s.push_str("\nI: ");
        push_truth(&mut s, self.i());
        s.push_str("\nZ: ");
        push_truth(&mut s, self.z());
        s.push_str("\nC: ");
        push_truth(&mut s, self.c());
        assert(s@ =~= self.text());
        s
    }
}

} // verus!
