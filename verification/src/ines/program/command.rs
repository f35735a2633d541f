//! The instruction set.

use vstd::prelude::*;

verus! {

/// What an instruction does, whatever its addressing mode.
#[derive(Copy, Clone, PartialEq, Eq, Debug, Structural)]
pub enum Command {
    /// Add with carry.
    ADC,
    /// Subtract with borrow.
    SBC,
    /// Bitwise and with the accumulator.
    AND,
    /// Bitwise or with the accumulator.
    ORA,
    /// Bitwise exclusive or with the accumulator.
    EOR,
    /// Shift left.
    ASL,
    /// Shift right.
    LSR,
    /// Rotate left through carry.
    ROL,
    /// Rotate right through carry.
    ROR,
    /// Branch if carry is clear.
    BCC,
    /// Branch if carry is set.
    BCS,
    /// Branch if zero is set.
    BEQ,
    /// Branch if zero is clear.
    BNE,
    /// Branch if overflow is clear.
    BVC,
    /// Branch if overflow is set.
    BVS,
    /// Branch if negative is clear.
    BPL,
    /// Branch if negative is set.
    BMI,
    /// Test bits.
    BIT,
    /// Jump.
    JMP,
    /// Call a subroutine.
    JSR,
    /// Return from a subroutine.
    RTS,
    /// Break.
    BRK,
    /// Return from an interrupt.
    RTI,
    /// Compare with the accumulator.
    CMP,
    /// Compare with X.
    CPX,
    /// Compare with Y.
    CPY,
    /// Increment memory.
    INC,
    /// Decrement memory.
    DEC,
    /// Increment X.
    INX,
    /// Decrement X.
    DEX,
    /// Increment Y.
    INY,
    /// Decrement Y.
    DEY,
    /// Clear carry.
    CLC,
    /// Set carry.
    SEC,
    /// Clear interrupt-disable.
    CLI,
    /// Set interrupt-disable.
    SEI,
    /// Clear decimal.
    CLD,
    /// Set decimal.
    SED,
    /// Clear overflow.
    CLV,
    /// Load the accumulator.
    LDA,
    /// Load X.
    LDX,
    /// Load Y.
    LDY,
    /// Store the accumulator.
    STA,
    /// Store X.
    STX,
    /// Store Y.
    STY,
    /// Copy the accumulator to X.
    TAX,
    /// Copy X to the accumulator.
    TXA,
    /// Copy the accumulator to Y.
    TAY,
    /// Copy Y to the accumulator.
    TYA,
    /// Copy the stack pointer to X.
    TSX,
    /// Copy X to the stack pointer.
    TXS,
    /// Push the accumulator.
    PHA,
    /// Pull the accumulator.
    PLA,
    /// Push the status byte.
    PHP,
    /// Pull the status byte.
    PLP,
    /// Do nothing.
    NOP,
}

impl Command {
    /// The mnemonic.
    pub open spec fn name_spec(self) -> Seq<char> {
        match self {
            Command::ADC => "ADC"@,
            Command::SBC => "SBC"@,
            Command::AND => "AND"@,
            Command::ORA => "ORA"@,
            Command::EOR => "EOR"@,
            Command::ASL => "ASL"@,
            Command::LSR => "LSR"@,
            Command::ROL => "ROL"@,
            Command::ROR => "ROR"@,
            Command::BCC => "BCC"@,
            Command::BCS => "BCS"@,
            Command::BEQ => "BEQ"@,
            Command::BNE => "BNE"@,
            Command::BVC => "BVC"@,
            Command::BVS => "BVS"@,
            Command::BPL => "BPL"@,
            Command::BMI => "BMI"@,
            Command::BIT => "BIT"@,
            Command::JMP => "JMP"@,
            Command::JSR => "JSR"@,
            Command::RTS => "RTS"@,
            Command::BRK => "BRK"@,
            Command::RTI => "RTI"@,
            Command::CMP => "CMP"@,
            Command::CPX => "CPX"@,
            Command::CPY => "CPY"@,
            Command::INC => "INC"@,
            Command::DEC => "DEC"@,
            Command::INX => "INX"@,
            Command::DEX => "DEX"@,
            Command::INY => "INY"@,
            Command::DEY => "DEY"@,
            Command::CLC => "CLC"@,
            Command::SEC => "SEC"@,
            Command::CLI => "CLI"@,
            Command::SEI => "SEI"@,
            Command::CLD => "CLD"@,
            Command::SED => "SED"@,
            Command::CLV => "CLV"@,
            Command::LDA => "LDA"@,
            Command::LDX => "LDX"@,
            Command::LDY => "LDY"@,
            Command::STA => "STA"@,
            Command::STX => "STX"@,
            Command::STY => "STY"@,
            Command::TAX => "TAX"@,
            Command::TXA => "TXA"@,
            Command::TAY => "TAY"@,
            Command::TYA => "TYA"@,
            Command::TSX => "TSX"@,
            Command::TXS => "TXS"@,
            Command::PHA => "PHA"@,
            Command::PLA => "PLA"@,
            Command::PHP => "PHP"@,
            Command::PLP => "PLP"@,
            Command::NOP => "NOP"@,
        }
    }

    /// The mnemonic.
    pub fn name(&self) -> (r: &'static str)
        ensures
            r@ == self.name_spec(),
    {
        match self {
            Command::ADC => "ADC",
            Command::SBC => "SBC",
            Command::AND => "AND",
            Command::ORA => "ORA",
            Command::EOR => "EOR",
            Command::ASL => "ASL",
            Command::LSR => "LSR",
            Command::ROL => "ROL",
            Command::ROR => "ROR",
            Command::BCC => "BCC",
            Command::BCS => "BCS",
            Command::BEQ => "BEQ",
            Command::BNE => "BNE",
            Command::BVC => "BVC",
            Command::BVS => "BVS",
            Command::BPL => "BPL",
            Command::BMI => "BMI",
            Command::BIT => "BIT",
            Command::JMP => "JMP",
            Command::JSR => "JSR",
            Command::RTS => "RTS",
            Command::BRK => "BRK",
            Command::RTI => "RTI",
            Command::CMP => "CMP",
            Command::CPX => "CPX",
            Command::CPY => "CPY",
            Command::INC => "INC",
            Command::DEC => "DEC",
            Command::INX => "INX",
            Command::DEX => "DEX",
            Command::INY => "INY",
            Command::DEY => "DEY",
            Command::CLC => "CLC",
            Command::SEC => "SEC",
            Command::CLI => "CLI",
            Command::SEI => "SEI",
            Command::CLD => "CLD",
            Command::SED => "SED",
            Command::CLV => "CLV",
            Command::LDA => "LDA",
            Command::LDX => "LDX",
            Command::LDY => "LDY",
            Command::STA => "STA",
            Command::STX => "STX",
            Command::STY => "STY",
            Command::TAX => "TAX",
            Command::TXA => "TXA",
            Command::TAY => "TAY",
            Command::TYA => "TYA",
            Command::TSX => "TSX",
            Command::TXS => "TXS",
            Command::PHA => "PHA",
            Command::PLA => "PLA",
            Command::PHP => "PHP",
            Command::PLP => "PLP",
            Command::NOP => "NOP",
        }
    }
}

} // verus!
