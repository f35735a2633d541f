//! The execution engine: fetch, resolve, carry out.

use super::machine::{carried_out, Machine};
use super::memory_map::{loaded, MemoryMap};
use super::register::Register;
use super::status_register::{flag_n, flag_z, StatusRegister};
use crate::binary::{lower_only, u16_to_u8u8, u8u8_to_u16, upper_only, DisplayBinary};
use crate::error::{AccessError, CpuError};
use crate::ines::program::program::PROGRAM_ORIGIN;
use crate::ines::program::{Command, Mode, Operand, OrderSets, Program};
use crate::ines::INES;
use crate::ppu::io_register::Ports;
use vstd::prelude::*;

verus! {

/// The processor with its bus.
#[derive(PartialEq, Eq, Debug)]
pub struct Cpu {
    pub register: Register,
    pub memory: MemoryMap,
}

impl View for Cpu {
    type V = Machine;

    open spec fn view(&self) -> Machine {
        Machine { reg: self.register, bus: self.memory@ }
    }
}

impl Cpu {
    /// A processor at power-on with the cartridge's program in program ROM
    /// and the program counter at its first byte. The program has to fit
    /// into the 32768 bytes of program ROM.
    pub fn new(ines: INES) -> (r: Self)
        requires
            ines.program_rom_data@.len() <= 0x8000,
        ensures
            r@.reg == (Register { PC: PROGRAM_ORIGIN, ..Register::initial() }),
            r@.bus.mem == loaded(ines.program_rom_data@),
            r@.bus.ppu == Ports::initial(),
            r@.wf(),
    {
        let mut cpu = Cpu {
            register: Register::new(),
            memory: MemoryMap::new(ines.program_rom_data),
        };
        cpu.register.PC = PROGRAM_ORIGIN;
        cpu
    }

    /// Carries out one instruction: fetches it at the program counter,
    /// resolves its operand and hands both to `exec`. Gives back the
    /// instruction and the operand it worked on.
    pub fn run(&mut self, table: &OrderSets) -> (r: Result<(Program, Operand), CpuError>)
        ensures
            final(self)@ == old(self)@.run().0,
            r == old(self)@.run().1,
    {
        let program = match self.fetch_program(table) {
            Ok(program) => program,
            Err(e) => {
                return Err(e);
            },
        };
        let operand = match self.update_operand_with_register(&program) {
            Ok(operand) => operand,
            Err(e) => {
                return Err(e);
            },
        };
        match self.exec(program.orderset.cmd, operand, program.orderset.clock) {
            Ok(()) => Ok((program, operand)),
            Err(e) => Err(e),
        }
    }

    /// Decodes the instruction at the program counter and moves the program
    /// counter behind it. Fails, and changes nothing, when the program
    /// counter is below program ROM or the instruction is cut off by its
    /// end.
    pub fn fetch_program(&mut self, table: &OrderSets) -> (r: Result<Program, CpuError>)
        ensures
            old(self)@.can_fetch() ==> r == Ok::<Program, CpuError>(old(self)@.fetched())
                && final(self)@ == old(self)@.after_fetch(),
            !old(self)@.can_fetch() ==> r == Err::<Program, CpuError>(
                CpuError::Access(AccessError::Unmapped),
            ) && final(self)@ == old(self)@,
    {
        if self.register.PC < PROGRAM_ORIGIN {
            return Err(CpuError::Access(AccessError::Unmapped));
        }
        let pc = self.register.PC - PROGRAM_ORIGIN;
        assert(self.memory.prg_rom@ =~= self@.program_rom());
        match Program::parse(table, &self.memory.prg_rom, pc) {
            Ok(program) => {
                proof {
                    crate::ines::program::order_set::lemma_length_follows_mode(
                        program.order_set_index,
                    );
                }
                self.register.PC = self.register.PC.wrapping_add(program.orderset.length as u16);
                Ok(program)
            },
            Err(e) => Err(CpuError::Access(e)),
        }
    }

    /// The bytes of an instruction as they stand in program ROM, to be
    /// shown: from the place that the instruction records, as many as its
    /// length says. There are none when the instruction does not lie in
    /// program ROM.
    pub fn instruction_bytes<'b>(&'b self, program: &Program) -> (r: Option<DisplayBinary<'b>>)
        ensures
            program.addr + program.orderset.length <= 0x8000 ==> r is Some && r->Some_0.0@
                == self@.program_rom().subrange(
                program.addr as int,
                program.addr + program.orderset.length,
            ),
            program.addr + program.orderset.length > 0x8000 ==> r is None,
    {
        let first = program.addr as usize;
        if first > 0x8000 || program.orderset.length > 0x8000 - first {
            return None;
        }
        assert(self.memory.prg_rom@ =~= self@.program_rom());
        Some(DisplayBinary(&self.memory.prg_rom[first..first + program.orderset.length]))
    }

    /// Carries out `cmd` on an operand that is resolved already. `clock` is
    /// the base cost of the instruction; it has no part in what is done.
    pub fn exec(&mut self, cmd: Command, operand: Operand, clock: usize) -> (r: Result<
        (),
        CpuError,
    >)
        ensures
            carried_out(old(self)@, final(self)@, r, old(self)@.exec(cmd, operand)),
    {
        match cmd {
            Command::ADC => self.adc(operand),
            Command::SBC => self.sbc(operand),
            Command::AND => self.and(operand),
            Command::ORA => self.ora(operand),
            Command::EOR => self.eor(operand),
            Command::ASL => self.asl(),
            Command::LSR => self.lsr(),
            Command::ROL => self.rol(),
            Command::ROR => self.ror(),
            Command::BCC => self.bcc(operand),
            Command::BCS => self.bcs(operand),
            Command::BEQ => self.beq(operand),
            Command::BNE => self.bne(operand),
            Command::BVC => self.bvc(operand),
            Command::BVS => self.bvs(operand),
            Command::BPL => self.bpl(operand),
            Command::BMI => self.bmi(operand),
            Command::BIT => self.bit(),
            Command::JMP => self.jmp(operand),
            Command::JSR => self.jsr(operand),
            Command::RTS => self.rts(),
            Command::BRK => self.brk(),
            Command::RTI => self.rti(),
            Command::CMP => self.cmp(operand),
            Command::CPX => self.cpx(operand),
            Command::CPY => self.cpy(operand),
            Command::INC => self.inc(operand),
            Command::DEC => self.dec(operand),
            Command::INX => self.inx(),
            Command::DEX => self.dex(),
            Command::INY => self.iny(),
            Command::DEY => self.dey(),
            Command::CLC => self.clc(),
            Command::SEC => self.sec(),
            Command::CLI => self.cli(),
            Command::SEI => self.sei(),
            Command::CLD => self.cld(),
            Command::SED => self.sed(),
            Command::CLV => self.clv(),
            Command::LDA => self.lda(operand),
            Command::LDX => self.ldx(operand),
            Command::LDY => self.ldy(operand),
            Command::STA => self.sta(operand),
            Command::STX => self.stx(operand),
            Command::STY => self.sty(operand),
            Command::TAX => self.tax(),
            Command::TXA => self.txa(),
            Command::TAY => self.tay(),
            Command::TYA => self.tya(),
            Command::TSX => self.tsx(),
            Command::TXS => self.txs(),
            Command::PHA => self.pha(),
            Command::PLA => self.pla(),
            Command::PHP => self.php(),
            Command::PLP => self.plp(),
            Command::NOP => self.nop(),
        }
    }

    /// Applies the index registers and follows the pointers in memory that
    /// the instruction's mode asks for.
    pub fn update_operand_with_register(&self, program: &Program) -> (r: Result<Operand, CpuError>)
        ensures
            r == self@.resolve(program.orderset.mode, program.operand),
    {
        match program.orderset.mode {
            Mode::Accumulator => Ok(Operand::NONE),
            Mode::Implied => Ok(Operand::NONE),
            Mode::Immediate => Ok(program.operand),
            Mode::ZeroPage => Ok(program.operand),
            Mode::ZeroPageX => Self::zero_page_indexed(program.operand, self.register.X),
            Mode::ZeroPageY => Self::zero_page_indexed(program.operand, self.register.Y),
            Mode::Absolute => Ok(program.operand),
            Mode::AbsoluteX => Self::absolute_indexed(program.operand, self.register.X),
            Mode::AbsoluteY => Self::absolute_indexed(program.operand, self.register.Y),
            Mode::Relative => Ok(program.operand),
            Mode::Indirect => self.indirect(program.operand),
            Mode::IndirectX => self.indexed_indirect(program.operand),
            Mode::IndirectY => self.indirect_indexed(program.operand),
            Mode::NONE => Ok(program.operand),
        }
    }

    /// An address in page zero with an index register added to its low
    /// byte.
    pub fn zero_page_indexed(operand: Operand, index: u8) -> (r: Result<Operand, CpuError>)
        ensures
            r == Machine::zero_page_indexed(operand, index),
    {
        let addr = Self::to_addr(operand)?;
        Ok(Operand::Addr(Self::index_in_page(addr, index)))
    }

    /// An address with an index register added to it.
    pub fn absolute_indexed(operand: Operand, index: u8) -> (r: Result<Operand, CpuError>)
        ensures
            r == Machine::absolute_indexed(operand, index),
    {
        let addr = Self::to_addr(operand)?;
        Ok(Operand::Addr(addr.wrapping_add(index as u16)))
    }

    /// Follows the pointer at the operand's address.
    pub fn indirect(&self, operand: Operand) -> (r: Result<Operand, CpuError>)
        ensures
            r == self@.indirect(operand),
    {
        let addr = Self::to_addr(operand)?;
        let target = self.pointer_at(addr)?;
        Ok(Operand::Addr(target))
    }

    /// Adds X to the operand's address in page zero and follows the pointer
    /// there.
    pub fn indexed_indirect(&self, operand: Operand) -> (r: Result<Operand, CpuError>)
        ensures
            r == self@.indexed_indirect(operand),
    {
        let place = Self::zero_page_indexed(operand, self.register.X)?;
        self.indirect(place)
    }

    /// Follows the pointer at the operand's address, which stands high byte
    /// first, and adds Y.
    pub fn indirect_indexed(&self, operand: Operand) -> (r: Result<Operand, CpuError>)
        ensures
            r == self@.indirect_indexed(operand),
    {
        let addr = Self::to_addr(operand)?;
        let base = self.reversed_pointer_at(addr)?;
        Ok(Operand::Addr(base.wrapping_add(self.register.Y as u16)))
    }

    /// The address that an operand holds.
    pub fn to_addr(operand: Operand) -> (r: Result<u16, CpuError>)
        ensures
            r == match operand {
                Operand::Addr(addr) => Ok::<u16, CpuError>(addr),
                _ => Err::<u16, CpuError>(CpuError::OperandType),
            },
    {
        match operand {
            Operand::Addr(addr) => Ok(addr),
            _ => Err(CpuError::OperandType),
        }
    }

    /// `addr` with `index` added to its low byte. What the low byte cannot
    /// hold is dropped: the high byte stays.
    pub fn index_in_page(addr: u16, index: u8) -> (r: u16)
        ensures
            r == crate::binary::util::word(
                crate::binary::util::high_byte(addr),
                super::machine::wrap8(crate::binary::util::low_byte(addr) + index),
            ),
    {
        let (upper, lower) = u16_to_u8u8(addr);
        u8u8_to_u16(upper, lower.wrapping_add(index))
    }

    /// Reads the pointer at `addr`: its low byte at `addr`, its high byte at
    /// the next address in the same page.
    pub fn pointer_at(&self, addr: u16) -> (r: Result<u16, CpuError>)
        ensures
            r == self@.pointer_at(addr),
    {
        let lower = self.read(addr)?;
        let upper = self.read(Self::index_in_page(addr, 1))?;
        Ok(u8u8_to_u16(upper, lower))
    }

    /// Reads the pointer at `addr` that stands high byte first: its high
    /// byte at `addr`, its low byte at the next address in the same page.
    pub fn reversed_pointer_at(&self, addr: u16) -> (r: Result<u16, CpuError>)
        ensures
            r == self@.reversed_pointer_at(addr),
    {
        let upper = self.read(addr)?;
        let lower = self.read(Self::index_in_page(addr, 1))?;
        Ok(u8u8_to_u16(upper, lower))
    }

    /// Reads the byte at `addr` from the bus.
    pub fn read(&self, addr: u16) -> (r: Result<u8, CpuError>)
        ensures
            r == match self@.bus.read(addr) {
                Ok(v) => Ok::<u8, CpuError>(v),
                Err(e) => Err::<u8, CpuError>(CpuError::Access(e)),
            },
    {
        match self.memory.read(addr) {
            Ok(v) => Ok(v),
            Err(e) => Err(CpuError::Access(e)),
        }
    }

    /// Writes `v` where the operand says.
    pub fn store(&mut self, operand: Operand, v: u8) -> (r: Result<(), CpuError>)
        ensures
            carried_out(old(self)@, final(self)@, r, old(self)@.store(operand, v)),
    {
        let addr = Self::to_addr(operand)?;
        match self.memory.write(addr, v) {
            Ok(()) => Ok(()),
            Err(e) => Err(CpuError::Access(e)),
        }
    }

    /// Sets Negative and Zero from a result.
    pub fn update_flags(&mut self, v: u8)
        ensures
            final(self)@ == old(self)@.with_p(old(self)@.flags_of(v)),
    {
        self.register.P = self.register.P.set_n(flag_n(v)).set_z(flag_z(v));
    }

    /// Jumps to the operand's address if `taken`.
    pub fn branch(&mut self, taken: bool, operand: Operand) -> (r: Result<(), CpuError>)
        ensures
            carried_out(old(self)@, final(self)@, r, old(self)@.branch(taken, operand)),
    {
        if taken {
            self.register.PC = Self::to_addr(operand)?;
        }
        Ok(())
    }

    /// Compares `left` with the operand and sets Negative, Zero and Carry.
    /// The difference is taken in eight bits: a `left` below the operand
    /// clears Carry and nothing else comes of it.
    pub fn compare(&mut self, left: u8, operand: Operand) -> (r: Result<(), CpuError>)
        ensures
            carried_out(old(self)@, final(self)@, r, old(self)@.compare(left, operand)),
    {
        let m = self.to_data(operand)?;
        let v = left.wrapping_sub(m);
        self.register.P = self.register.P.set_n(flag_n(v)).set_z(left == m).set_c(left >= m);
        Ok(())
    }

    /// Changes the byte at the operand's address by one, up or down, and
    /// sets Negative and Zero from the new byte.
    pub fn step_memory(&mut self, operand: Operand, up: bool) -> (r: Result<(), CpuError>)
        ensures
            carried_out(
                old(self)@,
                final(self)@,
                r,
                old(self)@.step_memory(
                    operand,
                    if up {
                        1
                    } else {
                        -1
                    },
                ),
            ),
    {
        let addr = Self::to_addr(operand)?;
        let m = self.read(addr)?;
        let v = if up {
            m.wrapping_add(1)
        } else {
            m.wrapping_sub(1)
        };
        match self.memory.write(addr, v) {
            Ok(()) => {
                self.update_flags(v);
                Ok(())
            },
            Err(e) => Err(CpuError::Access(e)),
        }
    }

    /// Add with carry: its arithmetic is not defined by this core.
    pub fn adc(&mut self, operand: Operand) -> (r: Result<(), CpuError>)
        ensures
            carried_out(old(self)@, final(self)@, r, old(self)@.adc(operand)),
    {
        Err(CpuError::NotImplemented)
    }

    /// Subtract with borrow: its arithmetic is not defined by this core.
    pub fn sbc(&mut self, operand: Operand) -> (r: Result<(), CpuError>)
        ensures
            carried_out(old(self)@, final(self)@, r, old(self)@.sbc(operand)),
    {
        Err(CpuError::NotImplemented)
    }

    /// Branches if Carry is clear.
    pub fn bcc(&mut self, operand: Operand) -> (r: Result<(), CpuError>)
        ensures
            carried_out(old(self)@, final(self)@, r, old(self)@.bcc(operand)),
    {
        self.branch(!self.register.P.c(), operand)
    }

    /// Branches if Carry is set.
    pub fn bcs(&mut self, operand: Operand) -> (r: Result<(), CpuError>)
        ensures
            carried_out(old(self)@, final(self)@, r, old(self)@.bcs(operand)),
    {
        self.branch(self.register.P.c(), operand)
    }

    /// Branches if Zero is set.
    pub fn beq(&mut self, operand: Operand) -> (r: Result<(), CpuError>)
        ensures
            carried_out(old(self)@, final(self)@, r, old(self)@.beq(operand)),
    {
        self.branch(self.register.P.z(), operand)
    }

    /// Branches if Zero is clear.
    pub fn bne(&mut self, operand: Operand) -> (r: Result<(), CpuError>)
        ensures
            carried_out(old(self)@, final(self)@, r, old(self)@.bne(operand)),
    {
        self.branch(!self.register.P.z(), operand)
    }

    /// Branches if Overflow is clear.
    pub fn bvc(&mut self, operand: Operand) -> (r: Result<(), CpuError>)
        ensures
            carried_out(old(self)@, final(self)@, r, old(self)@.bvc(operand)),
    {
        self.branch(!self.register.P.v(), operand)
    }

    /// Branches if Overflow is set.
    pub fn bvs(&mut self, operand: Operand) -> (r: Result<(), CpuError>)
        ensures
            carried_out(old(self)@, final(self)@, r, old(self)@.bvs(operand)),
    {
        self.branch(self.register.P.v(), operand)
    }

    /// Branches if Negative is clear.
    pub fn bpl(&mut self, operand: Operand) -> (r: Result<(), CpuError>)
        ensures
            carried_out(old(self)@, final(self)@, r, old(self)@.bpl(operand)),
    {
        self.branch(!self.register.P.n(), operand)
    }

    /// Branches if Negative is set.
    pub fn bmi(&mut self, operand: Operand) -> (r: Result<(), CpuError>)
        ensures
            carried_out(old(self)@, final(self)@, r, old(self)@.bmi(operand)),
    {
        self.branch(self.register.P.n(), operand)
    }

    /// Test bits: not defined by this core.
    pub fn bit(&mut self) -> (r: Result<(), CpuError>)
        ensures
            carried_out(old(self)@, final(self)@, r, old(self)@.bit()),
    {
        Err(CpuError::NotImplemented)
    }

    /// Jumps to the operand's address.
    pub fn jmp(&mut self, operand: Operand) -> (r: Result<(), CpuError>)
        ensures
            carried_out(old(self)@, final(self)@, r, old(self)@.jmp(operand)),
    {
        self.branch(true, operand)
    }

    /// Calls a subroutine. What is pushed, high byte first, is the address
    /// of the last byte of the call, one below the program counter: the
    /// return adds the one.
    pub fn jsr(&mut self, operand: Operand) -> (r: Result<(), CpuError>)
        ensures
            carried_out(old(self)@, final(self)@, r, old(self)@.jsr(operand)),
    {
        let target = Self::to_addr(operand)?;
        let pc = self.register.PC.wrapping_sub(1);
        self.push_stack(upper_only(pc));
        self.push_stack(lower_only(pc));
        self.register.PC = target;
        Ok(())
    }

    /// Returns from a subroutine: pulls the low and then the high byte of an
    /// address and goes on behind it.
    pub fn rts(&mut self) -> (r: Result<(), CpuError>)
        ensures
            carried_out(old(self)@, final(self)@, r, old(self)@.rts()),
    {
        let lower = self.pop_stack();
        let upper = self.pop_stack();
        self.register.PC = u8u8_to_u16(upper, lower).wrapping_add(1);
        Ok(())
    }

    /// Break: while interrupts are disabled nothing is done. What a break
    /// does when they are not is not defined by this core.
    pub fn brk(&mut self) -> (r: Result<(), CpuError>)
        ensures
            carried_out(old(self)@, final(self)@, r, old(self)@.brk()),
    {
        if self.register.P.i() {
            Ok(())
        } else {
            Err(CpuError::NotImplemented)
        }
    }

    /// Return from an interrupt: not defined by this core.
    pub fn rti(&mut self) -> (r: Result<(), CpuError>)
        ensures
            carried_out(old(self)@, final(self)@, r, old(self)@.rti()),
    {
        Err(CpuError::NotImplemented)
    }

    /// Bitwise and of the accumulator and the operand, into the accumulator.
    pub fn and(&mut self, operand: Operand) -> (r: Result<(), CpuError>)
        ensures
            carried_out(old(self)@, final(self)@, r, old(self)@.and(operand)),
    {
        let v = self.register.A & self.to_data(operand)?;
        self.register.A = v;
        self.update_flags(v);
        Ok(())
    }

    /// Bitwise or of the accumulator and the operand, into the accumulator.
    pub fn ora(&mut self, operand: Operand) -> (r: Result<(), CpuError>)
        ensures
            carried_out(old(self)@, final(self)@, r, old(self)@.ora(operand)),
    {
        let v = self.register.A | self.to_data(operand)?;
        self.register.A = v;
        self.update_flags(v);
        Ok(())
    }

    /// Bitwise exclusive or of the accumulator and the operand, into the
    /// accumulator.
    pub fn eor(&mut self, operand: Operand) -> (r: Result<(), CpuError>)
        ensures
            carried_out(old(self)@, final(self)@, r, old(self)@.eor(operand)),
    {
        let v = self.register.A ^ self.to_data(operand)?;
        self.register.A = v;
        self.update_flags(v);
        Ok(())
    }

    /// Shifts the accumulator left. Carry takes bit 7.
    pub fn asl(&mut self) -> (r: Result<(), CpuError>)
        ensures
            carried_out(old(self)@, final(self)@, r, old(self)@.asl()),
    {
        let a = self.register.A;
        assert((a & 0x80 == 0x80) == (a >= 0x80) && a << 1 == (a * 2) % 0x100) by (bit_vector);
        self.register.P = self.register.P.set_c((a & 0b1000_0000) == 0b1000_0000);
        self.register.A = a << 1;
        Ok(())
    }

    /// Shifts the accumulator right. Carry takes bit 0.
    pub fn lsr(&mut self) -> (r: Result<(), CpuError>)
        ensures
            carried_out(old(self)@, final(self)@, r, old(self)@.lsr()),
    {
        let a = self.register.A;
        assert((a & 0x01 == 0x01) == (a % 2 == 1) && a >> 1 == a / 2) by (bit_vector);
        self.register.P = self.register.P.set_c((a & 0b0000_0001) == 0b0000_0001);
        self.register.A = a >> 1;
        Ok(())
    }

    /// Rotates the accumulator left through Carry: Carry takes bit 7, and
    /// bit 0 takes what Carry was.
    pub fn rol(&mut self) -> (r: Result<(), CpuError>)
        ensures
            carried_out(old(self)@, final(self)@, r, old(self)@.rol()),
    {
        let a = self.register.A;
        let c = self.register.P.c();
        let low: u8 = if c {
            0b0000_0001
        } else {
            0b0000_0000
        };
        assert((a & 0x80 == 0x80) == (a >= 0x80) && ((a << 1) | low) == (a * 2 + low) % 0x100)
            by (bit_vector)
            requires
                low == 0 || low == 1,
        ;
        self.register.P = self.register.P.set_c((a & 0b1000_0000) == 0b1000_0000);
        self.register.A = (a << 1) | low;
        Ok(())
    }

    /// Rotates the accumulator right through Carry: Carry takes bit 0, and
    /// bit 7 takes what Carry was.
    pub fn ror(&mut self) -> (r: Result<(), CpuError>)
        ensures
            carried_out(old(self)@, final(self)@, r, old(self)@.ror()),
    {
        let a = self.register.A;
        let c = self.register.P.c();
        let high: u8 = if c {
            0b1000_0000
        } else {
            0b0000_0000
        };
        assert((a & 0x01 == 0x01) == (a % 2 == 1) && ((a >> 1) | high) == a / 2 + high)
            by (bit_vector)
            requires
                high == 0 || high == 0x80,
        ;
        self.register.P = self.register.P.set_c((a & 0b0000_0001) == 0b0000_0001);
        self.register.A = (a >> 1) | high;
        Ok(())
    }

    /// Compares the accumulator with the operand.
    pub fn cmp(&mut self, operand: Operand) -> (r: Result<(), CpuError>)
        ensures
            carried_out(old(self)@, final(self)@, r, old(self)@.cmp(operand)),
    {
        self.compare(self.register.A, operand)
    }

    /// Compares X with the operand.
    pub fn cpx(&mut self, operand: Operand) -> (r: Result<(), CpuError>)
        ensures
            carried_out(old(self)@, final(self)@, r, old(self)@.cpx(operand)),
    {
        self.compare(self.register.X, operand)
    }

    /// Compares Y with the operand.
    pub fn cpy(&mut self, operand: Operand) -> (r: Result<(), CpuError>)
        ensures
            carried_out(old(self)@, final(self)@, r, old(self)@.cpy(operand)),
    {
        self.compare(self.register.Y, operand)
    }

    /// Adds one to the byte at the operand's address.
    pub fn inc(&mut self, operand: Operand) -> (r: Result<(), CpuError>)
        ensures
            carried_out(old(self)@, final(self)@, r, old(self)@.inc(operand)),
    {
        self.step_memory(operand, true)
    }

    /// Adds one to X.
    pub fn inx(&mut self) -> (r: Result<(), CpuError>)
        ensures
            carried_out(old(self)@, final(self)@, r, old(self)@.inx()),
    {
        let v = self.register.X.wrapping_add(1);
        self.register.X = v;
        self.update_flags(v);
        Ok(())
    }

    /// Adds one to Y.
    pub fn iny(&mut self) -> (r: Result<(), CpuError>)
        ensures
            carried_out(old(self)@, final(self)@, r, old(self)@.iny()),
    {
        let v = self.register.Y.wrapping_add(1);
        self.register.Y = v;
        self.update_flags(v);
        Ok(())
    }

    /// Takes one from the byte at the operand's address.
    pub fn dec(&mut self, operand: Operand) -> (r: Result<(), CpuError>)
        ensures
            carried_out(old(self)@, final(self)@, r, old(self)@.dec(operand)),
    {
        self.step_memory(operand, false)
    }

    /// Takes one from X.
    pub fn dex(&mut self) -> (r: Result<(), CpuError>)
        ensures
            carried_out(old(self)@, final(self)@, r, old(self)@.dex()),
    {
        let v = self.register.X.wrapping_sub(1);
        self.register.X = v;
        self.update_flags(v);
        Ok(())
    }

    /// Takes one from Y.
    pub fn dey(&mut self) -> (r: Result<(), CpuError>)
        ensures
            carried_out(old(self)@, final(self)@, r, old(self)@.dey()),
    {
        let v = self.register.Y.wrapping_sub(1);
        self.register.Y = v;
        self.update_flags(v);
        Ok(())
    }

    /// Clears Carry.
    pub fn clc(&mut self) -> (r: Result<(), CpuError>)
        ensures
            carried_out(old(self)@, final(self)@, r, old(self)@.clc()),
    {
        self.register.P = self.register.P.set_c(false);
        Ok(())
    }

    /// Sets Carry.
    pub fn sec(&mut self) -> (r: Result<(), CpuError>)
        ensures
            carried_out(old(self)@, final(self)@, r, old(self)@.sec()),
    {
        self.register.P = self.register.P.set_c(true);
        Ok(())
    }

    /// Clears Interrupt-disable.
    pub fn cli(&mut self) -> (r: Result<(), CpuError>)
        ensures
            carried_out(old(self)@, final(self)@, r, old(self)@.cli()),
    {
        self.register.P = self.register.P.set_i(false);
        Ok(())
    }

    /// Sets Interrupt-disable.
    pub fn sei(&mut self) -> (r: Result<(), CpuError>)
        ensures
            carried_out(old(self)@, final(self)@, r, old(self)@.sei()),
    {
        self.register.P = self.register.P.set_i(true);
        Ok(())
    }

    /// Clears Decimal.
    pub fn cld(&mut self) -> (r: Result<(), CpuError>)
        ensures
            carried_out(old(self)@, final(self)@, r, old(self)@.cld()),
    {
        self.register.P = self.register.P.set_d(false);
        Ok(())
    }

    /// Sets Decimal.
    pub fn sed(&mut self) -> (r: Result<(), CpuError>)
        ensures
            carried_out(old(self)@, final(self)@, r, old(self)@.sed()),
    {
        self.register.P = self.register.P.set_d(true);
        Ok(())
    }

    /// Clears Overflow.
    pub fn clv(&mut self) -> (r: Result<(), CpuError>)
        ensures
            carried_out(old(self)@, final(self)@, r, old(self)@.clv()),
    {
        self.register.P = self.register.P.set_v(false);
        Ok(())
    }

    /// Stores the accumulator at the operand's address.
    pub fn sta(&mut self, operand: Operand) -> (r: Result<(), CpuError>)
        ensures
            carried_out(old(self)@, final(self)@, r, old(self)@.sta(operand)),
    {
        self.store(operand, self.register.A)
    }

    /// Stores X at the operand's address.
    pub fn stx(&mut self, operand: Operand) -> (r: Result<(), CpuError>)
        ensures
            carried_out(old(self)@, final(self)@, r, old(self)@.stx(operand)),
    {
        self.store(operand, self.register.X)
    }

    /// Stores Y at the operand's address.
    pub fn sty(&mut self, operand: Operand) -> (r: Result<(), CpuError>)
        ensures
            carried_out(old(self)@, final(self)@, r, old(self)@.sty(operand)),
    {
        self.store(operand, self.register.Y)
    }

    /// Loads the accumulator.
    pub fn lda(&mut self, operand: Operand) -> (r: Result<(), CpuError>)
        ensures
            carried_out(old(self)@, final(self)@, r, old(self)@.lda(operand)),
    {
        let v = self.to_data(operand)?;
        self.register.A = v;
        self.update_flags(v);
        Ok(())
    }

    /// Loads X.
    pub fn ldx(&mut self, operand: Operand) -> (r: Result<(), CpuError>)
        ensures
            carried_out(old(self)@, final(self)@, r, old(self)@.ldx(operand)),
    {
        let v = self.to_data(operand)?;
        self.register.X = v;
        self.update_flags(v);
        Ok(())
    }

    /// Loads Y.
    pub fn ldy(&mut self, operand: Operand) -> (r: Result<(), CpuError>)
        ensures
            carried_out(old(self)@, final(self)@, r, old(self)@.ldy(operand)),
    {
        let v = self.to_data(operand)?;
        self.register.Y = v;
        self.update_flags(v);
        Ok(())
    }

    /// Copies the accumulator to X.
    pub fn tax(&mut self) -> (r: Result<(), CpuError>)
        ensures
            carried_out(old(self)@, final(self)@, r, old(self)@.tax()),
    {
        let v = self.register.A;
        self.register.X = v;
        self.update_flags(v);
        Ok(())
    }

    /// Copies X to the accumulator.
    pub fn txa(&mut self) -> (r: Result<(), CpuError>)
        ensures
            carried_out(old(self)@, final(self)@, r, old(self)@.txa()),
    {
        let v = self.register.X;
        self.register.A = v;
        self.update_flags(v);
        Ok(())
    }

    /// Copies the accumulator to Y.
    pub fn tay(&mut self) -> (r: Result<(), CpuError>)
        ensures
            carried_out(old(self)@, final(self)@, r, old(self)@.tay()),
    {
        let v = self.register.A;
        self.register.Y = v;
        self.update_flags(v);
        Ok(())
    }

    /// Copies Y to the accumulator.
    pub fn tya(&mut self) -> (r: Result<(), CpuError>)
        ensures
            carried_out(old(self)@, final(self)@, r, old(self)@.tya()),
    {
        let v = self.register.Y;
        self.register.A = v;
        self.update_flags(v);
        Ok(())
    }

    /// Copies the high byte of the stack pointer to X.
    pub fn tsx(&mut self) -> (r: Result<(), CpuError>)
        ensures
            carried_out(old(self)@, final(self)@, r, old(self)@.tsx()),
    {
        let v = upper_only(self.register.SP);
        self.register.X = v;
        self.update_flags(v);
        Ok(())
    }

    /// Makes X the low byte of the stack pointer.
    pub fn txs(&mut self) -> (r: Result<(), CpuError>)
        ensures
            carried_out(old(self)@, final(self)@, r, old(self)@.txs()),
    {
        self.register.SP = u8u8_to_u16(0x01, self.register.X);
        Ok(())
    }

    /// Pushes the accumulator.
    pub fn pha(&mut self) -> (r: Result<(), CpuError>)
        ensures
            carried_out(old(self)@, final(self)@, r, old(self)@.pha()),
    {
        self.push_stack(self.register.A);
        Ok(())
    }

    /// Pulls the accumulator.
    pub fn pla(&mut self) -> (r: Result<(), CpuError>)
        ensures
            carried_out(old(self)@, final(self)@, r, old(self)@.pla()),
    {
        let v = self.pop_stack();
        self.register.A = v;
        self.update_flags(v);
        Ok(())
    }

    /// Pushes the status byte.
    pub fn php(&mut self) -> (r: Result<(), CpuError>)
        ensures
            carried_out(old(self)@, final(self)@, r, old(self)@.php()),
    {
        self.push_stack(u8::from(self.register.P));
        Ok(())
    }

    /// Pulls the status byte: all eight flags are replaced.
    pub fn plp(&mut self) -> (r: Result<(), CpuError>)
        ensures
            carried_out(old(self)@, final(self)@, r, old(self)@.plp()),
    {
        let v = self.pop_stack();
        self.register.P = StatusRegister::from(v);
        Ok(())
    }

    /// Does nothing.
    pub fn nop(&mut self) -> (r: Result<(), CpuError>)
        ensures
            carried_out(old(self)@, final(self)@, r, old(self)@.nop()),
    {
        Ok(())
    }

    /// Puts `v` where the stack pointer points and moves the stack pointer
    /// one down.
    pub fn push_stack(&mut self, v: u8)
        ensures
            final(self)@ == old(self)@.push(v),
    {
        let low = self.register.SP % 0x100;
        self.memory.wram[(0x0100 + low) as usize] = v;
        self.register.SP = 0x0100 + (low + 0xff) % 0x100;
        assert(self@.bus.mem =~= old(self)@.push(v).bus.mem);
    }

    /// Moves the stack pointer one up and gives the byte at which it points
    /// then.
    pub fn pop_stack(&mut self) -> (v: u8)
        ensures
            final(self)@ == old(self)@.pulled(),
            v == old(self)@.top(),
    {
        let low = self.register.SP % 0x100;
        self.register.SP = 0x0100 + (low + 1) % 0x100;
        self.memory.wram[self.register.SP as usize]
    }

    /// The value that an operand stands for: the value itself, or the byte
    /// at its address.
    pub fn to_data(&self, operand: Operand) -> (r: Result<u8, CpuError>)
        ensures
            r == self@.data(operand),
    {
        match operand {
            Operand::Data(v) => Ok(v),
            Operand::Addr(addr) => self.read(addr),
            Operand::NONE => Err(CpuError::OperandType),
        }
    }
}

} // verus!
