//! What each instruction does, stated over the registers and the bus as
//! values.
//!
//! Every instruction is a function from the machine before it to the machine
//! after it, or to the reason why it was not carried out.

use super::memory_map::Bus;
use super::register::Register;
use super::status_register::{flag_n, flag_z, StatusRegister};
use crate::binary::util::{high_byte, low_byte, word};
use crate::error::{AccessError, CpuError};
use crate::ines::program::addressing::wrap16;
use crate::ines::program::command::Command;
use crate::ines::program::mode::Mode;
use crate::ines::program::operand::Operand;
use crate::ines::program::program::{instruction_fits, program_at, Program, PROGRAM_ORIGIN};
use vstd::prelude::*;

verus! {

/// The eight bits of an integer.
pub open spec fn wrap8(v: int) -> u8 {
    (v % 0x100) as u8
}

/// The place in the stack that a stack pointer points at. Only the low byte
/// of the pointer counts: the high byte of a stack address is always 0x01.
pub open spec fn stack_slot(sp: u16) -> u16 {
    (0x0100 + sp % 0x100) as u16
}

/// The stack pointer after a push: one down, from the first byte of the
/// stack round to the last.
pub open spec fn stack_below(sp: u16) -> u16 {
    (0x0100 + (sp + 0xff) % 0x100) as u16
}

/// The stack pointer after a pull: one up, from the last byte of the stack
/// round to the first.
pub open spec fn stack_above(sp: u16) -> u16 {
    (0x0100 + (sp + 1) % 0x100) as u16
}

/// The address of the second byte of a pointer whose first byte is at
/// `addr`: the next address in the same page. From the last byte of a page
/// it is the first byte of that page, not of the next one.
pub open spec fn next_in_page(addr: u16) -> u16 {
    word(high_byte(addr), wrap8(low_byte(addr) + 1))
}

/// A bus error as the reason why an instruction failed.
pub open spec fn refused(e: AccessError) -> CpuError {
    CpuError::Access(e)
}

/// The registers and the bus of a machine.
pub struct Machine {
    pub reg: Register,
    pub bus: Bus,
}

impl Machine {
    /// Whether the stack pointer points into the stack and the bus has a
    /// byte for each of its 65536 addresses.
    pub open spec fn wf(self) -> bool {
        self.reg.wf() && self.bus.mem.len() == 0x1_0000
    }

    /// The flags after a result `v` that sets Negative and Zero.
    pub open spec fn flags_of(self, v: u8) -> StatusRegister {
        self.reg.P.set_n(flag_n(v)).set_z(flag_z(v))
    }

    /// The value that an operand stands for: the value itself, or the byte
    /// at the address.
    pub open spec fn data(self, operand: Operand) -> Result<u8, CpuError> {
        match operand {
            Operand::Data(v) => Ok(v),
            Operand::Addr(addr) => match self.bus.read(addr) {
                Ok(v) => Ok(v),
                Err(e) => Err(refused(e)),
            },
            Operand::NONE => Err(CpuError::OperandType),
        }
    }

    /// The machine after `v` was stored where the operand says.
    pub open spec fn store(self, operand: Operand, v: u8) -> Result<Machine, CpuError> {
        match operand {
            Operand::Addr(addr) => match self.bus.write(addr, v) {
                Ok(bus) => Ok(Machine { bus, ..self }),
                Err(e) => Err(refused(e)),
            },
            _ => Err(CpuError::OperandType),
        }
    }

    /// The machine after `v` was pushed: `v` stands where the stack pointer
    /// pointed, and the stack pointer is one down.
    pub open spec fn push(self, v: u8) -> Machine {
        Machine {
            reg: Register { SP: stack_below(self.reg.SP), ..self.reg },
            bus: Bus { mem: self.bus.mem.update(stack_slot(self.reg.SP) as int, v), ..self.bus },
        }
    }

    /// The byte that a pull gives: the one above the stack pointer.
    pub open spec fn top(self) -> u8 {
        self.bus.mem[stack_above(self.reg.SP) as int]
    }

    /// The machine after a pull: the stack pointer is one up.
    pub open spec fn pulled(self) -> Machine {
        Machine { reg: Register { SP: stack_above(self.reg.SP), ..self.reg }, ..self }
    }

    /// The machine after a jump to `operand`, if `taken`.
    pub open spec fn branch(self, taken: bool, operand: Operand) -> Result<Machine, CpuError> {
        if !taken {
            Ok(self)
        } else {
            match operand {
                Operand::Addr(addr) => Ok(
                    Machine { reg: Register { PC: addr, ..self.reg }, ..self },
                ),
                _ => Err(CpuError::OperandType),
            }
        }
    }

    /// The machine after `left` was compared with the operand: Carry says
    /// that `left` is not below it, Zero that the two are equal, Negative is
    /// bit 7 of the eight-bit difference.
    pub open spec fn compare(self, left: u8, operand: Operand) -> Result<Machine, CpuError> {
        match self.data(operand) {
            Ok(m) => Ok(
                Machine {
                    reg: Register {
                        P: self.reg.P.set_n(flag_n(wrap8(left - m))).set_z(left == m).set_c(
                            left >= m,
                        ),
                        ..self.reg
                    },
                    ..self
                },
            ),
            Err(e) => Err(e),
        }
    }

    /// The machine after the byte at the operand's address was changed by
    /// `delta`, counting in eight bits.
    pub open spec fn step_memory(self, operand: Operand, delta: int) -> Result<Machine, CpuError> {
        match operand {
            Operand::Addr(addr) => match self.bus.read(addr) {
                Ok(m) => match self.bus.write(addr, wrap8(m + delta)) {
                    Ok(bus) => Ok(
                        Machine {
                            reg: Register { P: self.flags_of(wrap8(m + delta)), ..self.reg },
                            bus,
                        },
                    ),
                    Err(e) => Err(refused(e)),
                },
                Err(e) => Err(refused(e)),
            },
            _ => Err(CpuError::OperandType),
        }
    }

    /// The machine with `v` in the accumulator and Negative and Zero set
    /// from `v`.
    pub open spec fn with_a(self, v: u8) -> Machine {
        Machine { reg: Register { A: v, P: self.flags_of(v), ..self.reg }, ..self }
    }

    /// The machine with `v` in X and Negative and Zero set from `v`.
    pub open spec fn with_x(self, v: u8) -> Machine {
        Machine { reg: Register { X: v, P: self.flags_of(v), ..self.reg }, ..self }
    }

    /// The machine with `v` in Y and Negative and Zero set from `v`.
    pub open spec fn with_y(self, v: u8) -> Machine {
        Machine { reg: Register { Y: v, P: self.flags_of(v), ..self.reg }, ..self }
    }

    /// The machine with the accumulator `v` and Carry `carry`, as a shift or
    /// a rotation leaves it: no other flag changes.
    pub open spec fn shifted(self, v: u8, carry: bool) -> Machine {
        Machine { reg: Register { A: v, P: self.reg.P.set_c(carry), ..self.reg }, ..self }
    }

    /// The machine with the flags `p`.
    pub open spec fn with_p(self, p: StatusRegister) -> Machine {
        Machine { reg: Register { P: p, ..self.reg }, ..self }
    }

    pub open spec fn adc(self, operand: Operand) -> Result<Machine, CpuError> {
        Err(CpuError::NotImplemented)
    }

    pub open spec fn sbc(self, operand: Operand) -> Result<Machine, CpuError> {
        Err(CpuError::NotImplemented)
    }

    pub open spec fn and(self, operand: Operand) -> Result<Machine, CpuError> {
        match self.data(operand) {
            Ok(m) => Ok(self.with_a(self.reg.A & m)),
            Err(e) => Err(e),
        }
    }

    pub open spec fn ora(self, operand: Operand) -> Result<Machine, CpuError> {
        match self.data(operand) {
            Ok(m) => Ok(self.with_a(self.reg.A | m)),
            Err(e) => Err(e),
        }
    }

    pub open spec fn eor(self, operand: Operand) -> Result<Machine, CpuError> {
        match self.data(operand) {
            Ok(m) => Ok(self.with_a(self.reg.A ^ m)),
            Err(e) => Err(e),
        }
    }

    /// Bit 7 goes to Carry, bit 0 becomes 0.
    pub open spec fn asl(self) -> Result<Machine, CpuError> {
        Ok(self.shifted(wrap8(self.reg.A * 2), self.reg.A >= 0x80))
    }

    /// Bit 0 goes to Carry, bit 7 becomes 0.
    pub open spec fn lsr(self) -> Result<Machine, CpuError> {
        Ok(self.shifted((self.reg.A / 2) as u8, self.reg.A % 2 == 1))
    }

    /// Bit 7 goes to Carry, the Carry of before becomes bit 0.
    pub open spec fn rol(self) -> Result<Machine, CpuError> {
        Ok(
            self.shifted(
                wrap8(
                    self.reg.A * 2 + if self.reg.P.c() {
                        1int
                    } else {
                        0int
                    },
                ),
                self.reg.A >= 0x80,
            ),
        )
    }

    /// Bit 0 goes to Carry, the Carry of before becomes bit 7.
    pub open spec fn ror(self) -> Result<Machine, CpuError> {
        Ok(
            self.shifted(
                (self.reg.A / 2 + if self.reg.P.c() {
                    0x80int
                } else {
                    0int
                }) as u8,
                self.reg.A % 2 == 1,
            ),
        )
    }

    pub open spec fn bcc(self, operand: Operand) -> Result<Machine, CpuError> {
        self.branch(!self.reg.P.c(), operand)
    }

    pub open spec fn bcs(self, operand: Operand) -> Result<Machine, CpuError> {
        self.branch(self.reg.P.c(), operand)
    }

    pub open spec fn beq(self, operand: Operand) -> Result<Machine, CpuError> {
        self.branch(self.reg.P.z(), operand)
    }

    pub open spec fn bne(self, operand: Operand) -> Result<Machine, CpuError> {
        self.branch(!self.reg.P.z(), operand)
    }

    pub open spec fn bvc(self, operand: Operand) -> Result<Machine, CpuError> {
        self.branch(!self.reg.P.v(), operand)
    }

    pub open spec fn bvs(self, operand: Operand) -> Result<Machine, CpuError> {
        self.branch(self.reg.P.v(), operand)
    }

    pub open spec fn bpl(self, operand: Operand) -> Result<Machine, CpuError> {
        self.branch(!self.reg.P.n(), operand)
    }

    pub open spec fn bmi(self, operand: Operand) -> Result<Machine, CpuError> {
        self.branch(self.reg.P.n(), operand)
    }

    pub open spec fn bit(self) -> Result<Machine, CpuError> {
        Err(CpuError::NotImplemented)
    }

    pub open spec fn jmp(self, operand: Operand) -> Result<Machine, CpuError> {
        self.branch(true, operand)
    }

    /// The address of the last byte of the call, which is one below the
    /// program counter, is pushed high byte first; then the jump is made.
    pub open spec fn jsr(self, operand: Operand) -> Result<Machine, CpuError> {
        let back = wrap16(self.reg.PC - 1);
        match operand {
            Operand::Addr(_) => self.push(high_byte(back)).push(low_byte(back)).branch(
                true,
                operand,
            ),
            _ => Err(CpuError::OperandType),
        }
    }

    /// The low and then the high byte of an address are pulled; the program
    /// counter is that address and one.
    pub open spec fn rts(self) -> Result<Machine, CpuError> {
        let lower = self.top();
        let upper = self.pulled().top();
        let after = self.pulled().pulled();
        Ok(Machine { reg: Register { PC: wrap16(word(upper, lower) + 1), ..after.reg }, ..after })
    }

    /// While interrupts are disabled a break does nothing. What it does
    /// when they are not is not defined by this core.
    pub open spec fn brk(self) -> Result<Machine, CpuError> {
        if self.reg.P.i() {
            Ok(self)
        } else {
            Err(CpuError::NotImplemented)
        }
    }

    pub open spec fn rti(self) -> Result<Machine, CpuError> {
        Err(CpuError::NotImplemented)
    }

    pub open spec fn cmp(self, operand: Operand) -> Result<Machine, CpuError> {
        self.compare(self.reg.A, operand)
    }

    pub open spec fn cpx(self, operand: Operand) -> Result<Machine, CpuError> {
        self.compare(self.reg.X, operand)
    }

    pub open spec fn cpy(self, operand: Operand) -> Result<Machine, CpuError> {
        self.compare(self.reg.Y, operand)
    }

    pub open spec fn inc(self, operand: Operand) -> Result<Machine, CpuError> {
        self.step_memory(operand, 1)
    }

    pub open spec fn dec(self, operand: Operand) -> Result<Machine, CpuError> {
        self.step_memory(operand, -1)
    }

    pub open spec fn inx(self) -> Result<Machine, CpuError> {
        Ok(self.with_x(wrap8(self.reg.X + 1)))
    }

    pub open spec fn dex(self) -> Result<Machine, CpuError> {
        Ok(self.with_x(wrap8(self.reg.X - 1)))
    }

    pub open spec fn iny(self) -> Result<Machine, CpuError> {
        Ok(self.with_y(wrap8(self.reg.Y + 1)))
    }

    pub open spec fn dey(self) -> Result<Machine, CpuError> {
        Ok(self.with_y(wrap8(self.reg.Y - 1)))
    }

    pub open spec fn clc(self) -> Result<Machine, CpuError> {
        Ok(self.with_p(self.reg.P.set_c(false)))
    }

    pub open spec fn sec(self) -> Result<Machine, CpuError> {
        Ok(self.with_p(self.reg.P.set_c(true)))
    }

    pub open spec fn cli(self) -> Result<Machine, CpuError> {
        Ok(self.with_p(self.reg.P.set_i(false)))
    }

    pub open spec fn sei(self) -> Result<Machine, CpuError> {
        Ok(self.with_p(self.reg.P.set_i(true)))
    }

    pub open spec fn cld(self) -> Result<Machine, CpuError> {
        Ok(self.with_p(self.reg.P.set_d(false)))
    }

    pub open spec fn sed(self) -> Result<Machine, CpuError> {
        Ok(self.with_p(self.reg.P.set_d(true)))
    }

    pub open spec fn clv(self) -> Result<Machine, CpuError> {
        Ok(self.with_p(self.reg.P.set_v(false)))
    }

    pub open spec fn lda(self, operand: Operand) -> Result<Machine, CpuError> {
        match self.data(operand) {
            Ok(v) => Ok(self.with_a(v)),
            Err(e) => Err(e),
        }
    }

    pub open spec fn ldx(self, operand: Operand) -> Result<Machine, CpuError> {
        match self.data(operand) {
            Ok(v) => Ok(self.with_x(v)),
            Err(e) => Err(e),
        }
    }

    pub open spec fn ldy(self, operand: Operand) -> Result<Machine, CpuError> {
        match self.data(operand) {
            Ok(v) => Ok(self.with_y(v)),
            Err(e) => Err(e),
        }
    }

    pub open spec fn sta(self, operand: Operand) -> Result<Machine, CpuError> {
        self.store(operand, self.reg.A)
    }

    pub open spec fn stx(self, operand: Operand) -> Result<Machine, CpuError> {
        self.store(operand, self.reg.X)
    }

    pub open spec fn sty(self, operand: Operand) -> Result<Machine, CpuError> {
        self.store(operand, self.reg.Y)
    }

    pub open spec fn tax(self) -> Result<Machine, CpuError> {
        Ok(self.with_x(self.reg.A))
    }

    pub open spec fn txa(self) -> Result<Machine, CpuError> {
        Ok(self.with_a(self.reg.X))
    }

    pub open spec fn tay(self) -> Result<Machine, CpuError> {
        Ok(self.with_y(self.reg.A))
    }

    pub open spec fn tya(self) -> Result<Machine, CpuError> {
        Ok(self.with_a(self.reg.Y))
    }

    /// X takes the high byte of the stack pointer.
    pub open spec fn tsx(self) -> Result<Machine, CpuError> {
        Ok(self.with_x(high_byte(self.reg.SP)))
    }

    /// The stack pointer takes X as its low byte.
    pub open spec fn txs(self) -> Result<Machine, CpuError> {
        Ok(Machine { reg: Register { SP: word(0x01, self.reg.X), ..self.reg }, ..self })
    }

    pub open spec fn pha(self) -> Result<Machine, CpuError> {
        Ok(self.push(self.reg.A))
    }

    pub open spec fn pla(self) -> Result<Machine, CpuError> {
        Ok(self.pulled().with_a(self.top()))
    }

    pub open spec fn php(self) -> Result<Machine, CpuError> {
        Ok(self.push(self.reg.P.0))
    }

    /// All eight flags are replaced by the byte pulled.
    pub open spec fn plp(self) -> Result<Machine, CpuError> {
        Ok(self.pulled().with_p(StatusRegister(self.top())))
    }

    pub open spec fn nop(self) -> Result<Machine, CpuError> {
        Ok(self)
    }

    /// What carrying out `cmd` on `operand` makes of the machine.
    pub open spec fn exec(self, cmd: Command, operand: Operand) -> Result<Machine, CpuError> {
        match cmd {
            Command::ADC => self.adc(operand),
            Command::SBC => self.sbc(operand),
            Command::AND => self.and(operand),
            Command::ORA => self.ora(operand),
            Command::EOR => self.eor(operand),
            Command::ASL => self.asl(),
            Command::LSR => self.lsr(),
            Command::ROL => self.rol(),
            Command::ROR => self.ror(),
            Command::BCC => self.bcc(operand),
            Command::BCS => self.bcs(operand),
            Command::BEQ => self.beq(operand),
            Command::BNE => self.bne(operand),
            Command::BVC => self.bvc(operand),
            Command::BVS => self.bvs(operand),
            Command::BPL => self.bpl(operand),
            Command::BMI => self.bmi(operand),
            Command::BIT => self.bit(),
            Command::JMP => self.jmp(operand),
            Command::JSR => self.jsr(operand),
            Command::RTS => self.rts(),
            Command::BRK => self.brk(),
            Command::RTI => self.rti(),
            Command::CMP => self.cmp(operand),
            Command::CPX => self.cpx(operand),
            Command::CPY => self.cpy(operand),
            Command::INC => self.inc(operand),
            Command::DEC => self.dec(operand),
            Command::INX => self.inx(),
            Command::DEX => self.dex(),
            Command::INY => self.iny(),
            Command::DEY => self.dey(),
            Command::CLC => self.clc(),
            Command::SEC => self.sec(),
            Command::CLI => self.cli(),
            Command::SEI => self.sei(),
            Command::CLD => self.cld(),
            Command::SED => self.sed(),
            Command::CLV => self.clv(),
            Command::LDA => self.lda(operand),
            Command::LDX => self.ldx(operand),
            Command::LDY => self.ldy(operand),
            Command::STA => self.sta(operand),
            Command::STX => self.stx(operand),
            Command::STY => self.sty(operand),
            Command::TAX => self.tax(),
            Command::TXA => self.txa(),
            Command::TAY => self.tay(),
            Command::TYA => self.tya(),
            Command::TSX => self.tsx(),
            Command::TXS => self.txs(),
            Command::PHA => self.pha(),
            Command::PLA => self.pla(),
            Command::PHP => self.php(),
            Command::PLP => self.plp(),
            Command::NOP => self.nop(),
        }
    }

    /// The address to which the pointer at `addr` points: its low byte is at
    /// `addr`, its high byte at the next address in the same page.
    pub open spec fn pointer_at(self, addr: u16) -> Result<u16, CpuError> {
        match self.bus.read(addr) {
            Ok(lower) => match self.bus.read(next_in_page(addr)) {
                Ok(upper) => Ok(word(upper, lower)),
                Err(e) => Err(refused(e)),
            },
            Err(e) => Err(refused(e)),
        }
    }

    /// As `pointer_at`, but with the high byte at `addr` and the low byte
    /// behind it.
    pub open spec fn reversed_pointer_at(self, addr: u16) -> Result<u16, CpuError> {
        match self.bus.read(addr) {
            Ok(upper) => match self.bus.read(next_in_page(addr)) {
                Ok(lower) => Ok(word(upper, lower)),
                Err(e) => Err(refused(e)),
            },
            Err(e) => Err(refused(e)),
        }
    }

    /// An address in page zero with an index register added to its low
    /// byte. What the low byte cannot hold is dropped.
    pub open spec fn zero_page_indexed(operand: Operand, index: u8) -> Result<Operand, CpuError> {
        match operand {
            Operand::Addr(addr) => Ok(
                Operand::Addr(word(high_byte(addr), wrap8(low_byte(addr) + index))),
            ),
            _ => Err(CpuError::OperandType),
        }
    }

    /// An address with an index register added to it, counting in sixteen
    /// bits.
    pub open spec fn absolute_indexed(operand: Operand, index: u8) -> Result<Operand, CpuError> {
        match operand {
            Operand::Addr(addr) => Ok(Operand::Addr(wrap16(addr + index))),
            _ => Err(CpuError::OperandType),
        }
    }

    /// The address to which the pointer at the operand's address points.
    pub open spec fn indirect(self, operand: Operand) -> Result<Operand, CpuError> {
        match operand {
            Operand::Addr(addr) => match self.pointer_at(addr) {
                Ok(target) => Ok(Operand::Addr(target)),
                Err(e) => Err(e),
            },
            _ => Err(CpuError::OperandType),
        }
    }

    /// The address to which the pointer points that stands in page zero at
    /// the operand's address and X.
    pub open spec fn indexed_indirect(self, operand: Operand) -> Result<Operand, CpuError> {
        match Self::zero_page_indexed(operand, self.reg.X) {
            Ok(place) => self.indirect(place),
            Err(e) => Err(e),
        }
    }

    /// The address to which the pointer at the operand's address points,
    /// and Y. The pointer stands high byte first.
    pub open spec fn indirect_indexed(self, operand: Operand) -> Result<Operand, CpuError> {
        match operand {
            Operand::Addr(addr) => match self.reversed_pointer_at(addr) {
                Ok(base) => Ok(Operand::Addr(wrap16(base + self.reg.Y))),
                Err(e) => Err(e),
            },
            _ => Err(CpuError::OperandType),
        }
    }

    /// The operand of an instruction once the index registers and the
    /// pointers in memory are taken into account. `operand` is what the
    /// program bytes gave.
    pub open spec fn resolve(self, mode: Mode, operand: Operand) -> Result<Operand, CpuError> {
        match mode {
            Mode::Accumulator | Mode::Implied => Ok(Operand::NONE),
            Mode::Immediate | Mode::ZeroPage | Mode::Absolute | Mode::Relative | Mode::NONE => Ok(
                operand,
            ),
            Mode::ZeroPageX => Self::zero_page_indexed(operand, self.reg.X),
            Mode::ZeroPageY => Self::zero_page_indexed(operand, self.reg.Y),
            Mode::AbsoluteX => Self::absolute_indexed(operand, self.reg.X),
            Mode::AbsoluteY => Self::absolute_indexed(operand, self.reg.Y),
            Mode::Indirect => self.indirect(operand),
            Mode::IndirectX => self.indexed_indirect(operand),
            Mode::IndirectY => self.indirect_indexed(operand),
        }
    }

    /// The bytes of program ROM.
    pub open spec fn program_rom(self) -> Seq<u8> {
        self.bus.mem.subrange(PROGRAM_ORIGIN as int, 0x1_0000)
    }

    /// Whether an instruction can be fetched: the program counter points
    /// into program ROM and the instruction lies inside it whole.
    pub open spec fn can_fetch(self) -> bool {
        self.reg.PC >= PROGRAM_ORIGIN && instruction_fits(
            self.program_rom(),
            self.reg.PC - PROGRAM_ORIGIN,
        )
    }

    /// The instruction at which the program counter points.
    pub open spec fn fetched(self) -> Program {
        program_at(self.program_rom(), self.reg.PC - PROGRAM_ORIGIN)
    }

    /// The machine after the fetch: the program counter is behind the
    /// instruction.
    pub open spec fn after_fetch(self) -> Machine {
        Machine {
            reg: Register {
                PC: wrap16(self.reg.PC + self.fetched().orderset.length),
                ..self.reg
            },
            ..self
        }
    }

    /// One whole instruction: the machine after it, and what came of it. A
    /// fetch that fails leaves the machine as it was; an instruction that
    /// fails after its fetch leaves the program counter behind it.
    pub open spec fn run(self) -> (Machine, Result<(Program, Operand), CpuError>) {
        if !self.can_fetch() {
            (self, Err(refused(AccessError::Unmapped)))
        } else {
            let program = self.fetched();
            let ready = self.after_fetch();
            match ready.resolve(program.orderset.mode, program.operand) {
                Err(e) => (ready, Err(e)),
                Ok(operand) => match ready.exec(program.orderset.cmd, operand) {
                    Err(e) => (ready, Err(e)),
                    Ok(after) => (after, Ok((program, operand))),
                },
            }
        }
    }
}

/// Whether `after` and `r` are what came of an instruction that should have
/// made `wanted` of `before`: on success the machine is the one wanted, on
/// failure it is as it was before.
pub open spec fn carried_out(
    before: Machine,
    after: Machine,
    r: Result<(), CpuError>,
    wanted: Result<Machine, CpuError>,
) -> bool {
    match wanted {
        Ok(machine) => r is Ok && after == machine,
        Err(e) => r == Err::<(), CpuError>(e) && after == before,
    }
}

} // verus!
