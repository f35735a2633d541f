use fc::cpu::status_register::StatusRegister;
use fc::cpu::{Cpu, MemoryMap, Register};
use fc::error::{AccessError, CpuError};
use fc::ines::program::{Command, Mode, Operand, OrderSet, OrderSets, Program};
use fc::ines::{INESHeader, INES};

fn cartridge(program: Vec<u8>) -> INES {
    let mut head = [0u8; 16];
    head[0] = 0x4e;
    head[1] = 0x45;
    head[2] = 0x53;
    head[3] = 0x1a;
    INES {
        header: INESHeader::parser(&head).unwrap(),
        trainer: vec![],
        program_rom_data: program,
        character_rom_data: vec![],
    }
}

fn machine(program: Vec<u8>) -> Cpu {
    Cpu::new(cartridge(program))
}

fn flags(cpu: &Cpu) -> (bool, bool, bool) {
    (cpu.register.P.n(), cpu.register.P.z(), cpu.register.P.c())
}

#[test]
fn power_on() {
    let cpu = machine(vec![0xea, 0x01]);
    assert_eq!(
        cpu.register,
        Register { A: 0, X: 0, Y: 0, PC: 0x8000, SP: 0x01ff, P: StatusRegister(0b0011_0100) }
    );
    assert_eq!(Register::new().PC, 0);
    assert_eq!(Register::new().SP, 0x01ff);
    assert_eq!(cpu.memory.read(0x8000), Ok(0xea));
    assert_eq!(cpu.memory.read(0x8001), Ok(0x01));
    assert_eq!(cpu.memory.read(0x8002), Ok(0x00));
    assert_eq!(cpu.memory.read(0x0000), Ok(0x00));
    assert_eq!(cpu, Cpu { register: cpu.register, memory: MemoryMap::new(vec![0xea, 0x01]) });
}

#[test]
fn jsr_then_rts_comes_back_behind_the_call() {
    let table = OrderSets::new();
    let mut program = vec![0xea; 0x20];
    program[0x10] = 0x20;
    program[0x11] = 0x00;
    program[0x12] = 0x40;
    let mut cpu = machine(program);
    cpu.register.PC = 0x8010;
    let (fetched, operand) = cpu.run(&table).unwrap();
    assert_eq!(fetched.orderset.cmd, Command::JSR);
    assert_eq!(operand, Operand::Addr(0x4000));
    assert_eq!(cpu.register.PC, 0x4000);
    assert_eq!(cpu.register.SP, 0x01fd);
    assert_eq!(cpu.memory.read(0x01ff), Ok(0x80));
    assert_eq!(cpu.memory.read(0x01fe), Ok(0x12));
    assert_eq!(cpu.rts(), Ok(()));
    assert_eq!(cpu.register.PC, 0x8010 + 3);
    assert_eq!(cpu.register.SP, 0x01ff);
}

#[test]
fn jsr_then_rts_from_every_stack_pointer() {
    for sp in [0x0100u16, 0x0101, 0x0180, 0x01fe, 0x01ff] {
        for pc in [0x0000u16, 0x0001, 0x8003, 0xffff] {
            let mut cpu = machine(vec![]);
            cpu.register.SP = sp;
            cpu.register.PC = pc;
            assert_eq!(cpu.jsr(Operand::Addr(0x4000)), Ok(()));
            assert_eq!(cpu.register.PC, 0x4000);
            assert_eq!(cpu.rts(), Ok(()));
            assert_eq!(cpu.register.PC, pc);
            assert_eq!(cpu.register.SP, sp);
        }
    }
}

#[test]
fn jsr_needs_an_address() {
    let mut cpu = machine(vec![]);
    let before = cpu.register;
    assert_eq!(cpu.jsr(Operand::NONE), Err(CpuError::OperandType));
    assert_eq!(cpu.jsr(Operand::Data(1)), Err(CpuError::OperandType));
    assert_eq!(cpu.register, before);
    assert_eq!(cpu.memory.read(0x01ff), Ok(0));
}

#[test]
fn branches_follow_their_flags() {
    let cases = [
        (Command::BCC, 0x01u8, false),
        (Command::BCS, 0x01, true),
        (Command::BEQ, 0x02, true),
        (Command::BNE, 0x02, false),
        (Command::BVC, 0x40, false),
        (Command::BVS, 0x40, true),
        (Command::BPL, 0x80, false),
        (Command::BMI, 0x80, true),
    ];
    for (cmd, mask, taken_when_set) in cases {
        for p in [0x00u8, 0xff, mask, !mask] {
            let mut cpu = machine(vec![]);
            cpu.register.PC = 0x8002;
            cpu.register.P = StatusRegister::from(p);
            let before = cpu.register;
            assert_eq!(cpu.exec(cmd, Operand::Addr(0x9000), 2), Ok(()));
            let set = p & mask == mask;
            let wanted = if set == taken_when_set { 0x9000 } else { 0x8002 };
            assert_eq!(cpu.register, Register { PC: wanted, ..before });
        }
    }
}

#[test]
fn a_branch_not_taken_does_not_look_at_its_operand() {
    let mut cpu = machine(vec![]);
    cpu.register.P = StatusRegister::from(0x00);
    assert_eq!(cpu.beq(Operand::NONE), Ok(()));
    assert_eq!(cpu.bne(Operand::NONE), Err(CpuError::OperandType));
    assert_eq!(cpu.register.PC, 0x8000);
    assert_eq!(cpu.jmp(Operand::Data(3)), Err(CpuError::OperandType));
    assert_eq!(cpu.jmp(Operand::Addr(0x1234)), Ok(()));
    assert_eq!(cpu.register.PC, 0x1234);
}

#[test]
fn a_branch_through_run() {
    let table = OrderSets::new();
    let mut program = vec![0xea; 0x40];
    program[0x10] = 0xf0;
    program[0x11] = 0x7f;
    program[0x20] = 0xd0;
    program[0x21] = 0xff;
    let mut cpu = machine(program);
    cpu.register.PC = 0x8010;
    cpu.register.P = StatusRegister::from(0x02);
    cpu.run(&table).unwrap();
    assert_eq!(cpu.register.PC, 0x8000 + 0x10 + 2 + 0x7f);
    cpu.register.PC = 0x8010;
    cpu.register.P = StatusRegister::from(0x00);
    cpu.run(&table).unwrap();
    assert_eq!(cpu.register.PC, 0x8012);
    cpu.register.PC = 0x8020;
    cpu.run(&table).unwrap();
    assert_eq!(cpu.register.PC, 0x8000 + 0x20 + 2 - 1);
}

#[test]
fn compare_sets_carry_zero_and_negative() {
    let mut cpu = machine(vec![]);
    cpu.register.A = 0x10;
    assert_eq!(cpu.cmp(Operand::Data(0x10)), Ok(()));
    assert_eq!(flags(&cpu), (false, true, true));
    cpu.register.A = 0x05;
    assert_eq!(cpu.cmp(Operand::Data(0x10)), Ok(()));
    assert_eq!(flags(&cpu), (true, false, false));
    assert_eq!(cpu.register.A, 0x05);
    cpu.register.A = 0x10;
    assert_eq!(cpu.cmp(Operand::Data(0x05)), Ok(()));
    assert_eq!(flags(&cpu), (false, false, true));
    cpu.register.A = 0xff;
    assert_eq!(cpu.cmp(Operand::Data(0x00)), Ok(()));
    assert_eq!(flags(&cpu), (true, false, true));
    cpu.register.A = 0x00;
    assert_eq!(cpu.cmp(Operand::Data(0xff)), Ok(()));
    assert_eq!(flags(&cpu), (false, false, false));
    assert_eq!(u8::from(cpu.register.P) & 0b0111_1100, 0b0011_0100);
}

#[test]
fn compare_x_and_y_and_memory() {
    let mut cpu = machine(vec![]);
    cpu.memory.write(0x0040, 0x30).unwrap();
    cpu.register.X = 0x30;
    cpu.register.Y = 0x2f;
    assert_eq!(cpu.cpx(Operand::Addr(0x0040)), Ok(()));
    assert_eq!(flags(&cpu), (false, true, true));
    assert_eq!(cpu.cpy(Operand::Addr(0x0040)), Ok(()));
    assert_eq!(flags(&cpu), (true, false, false));
    assert_eq!(cpu.cpy(Operand::NONE), Err(CpuError::OperandType));
    assert_eq!(cpu.cmp(Operand::Addr(0x2000)), Err(CpuError::Access(AccessError::WriteOnly)));
    assert_eq!(cpu.compare(9, Operand::Data(9)), Ok(()));
    assert_eq!(flags(&cpu), (false, true, true));
}

#[test]
fn shifts_and_rotations() {
    let mut cpu = machine(vec![]);
    cpu.register.A = 0b1000_0001;
    assert_eq!(cpu.asl(), Ok(()));
    assert_eq!(cpu.register.A, 0b0000_0010);
    assert!(cpu.register.P.c());
    assert_eq!(cpu.rol(), Ok(()));
    assert_eq!(cpu.register.A, 0b0000_0101);
    assert!(!cpu.register.P.c());
    assert_eq!(cpu.rol(), Ok(()));
    assert_eq!(cpu.register.A, 0b0000_1010);
    cpu.register.A = 0b0000_0011;
    assert_eq!(cpu.lsr(), Ok(()));
    assert_eq!(cpu.register.A, 0b0000_0001);
    assert!(cpu.register.P.c());
    assert_eq!(cpu.ror(), Ok(()));
    assert_eq!(cpu.register.A, 0b1000_0000);
    assert!(cpu.register.P.c());
    assert_eq!(cpu.ror(), Ok(()));
    assert_eq!(cpu.register.A, 0b1100_0000);
    assert!(!cpu.register.P.c());
    assert_eq!(cpu.lsr(), Ok(()));
    assert_eq!(cpu.register.A, 0b0110_0000);
    assert!(!cpu.register.P.c());
    assert_eq!(u8::from(cpu.register.P), 0b0011_0100);
}

#[test]
fn rotating_left_and_right_again() {
    for a in [0x00u8, 0x01, 0x80, 0x81, 0x55, 0xff] {
        for carry in [false, true] {
            let mut cpu = machine(vec![]);
            cpu.register.A = a;
            cpu.register.P = cpu.register.P.set_c(carry);
            cpu.rol().unwrap();
            assert_eq!(cpu.register.A & 1 == 1, carry);
            assert_eq!(cpu.register.P.c(), a >= 0x80);
            cpu.ror().unwrap();
            assert_eq!(cpu.register.A, a);
            assert_eq!(cpu.register.P.c(), carry);
        }
    }
}

#[test]
fn loads_set_negative_and_zero() {
    let mut cpu = machine(vec![]);
    cpu.memory.write(0x0010, 0x80).unwrap();
    assert_eq!(cpu.lda(Operand::Data(0)), Ok(()));
    assert_eq!((cpu.register.A, flags(&cpu)), (0, (false, true, false)));
    assert_eq!(cpu.lda(Operand::Addr(0x0010)), Ok(()));
    assert_eq!((cpu.register.A, flags(&cpu)), (0x80, (true, false, false)));
    assert_eq!(cpu.ldx(Operand::Data(0x7f)), Ok(()));
    assert_eq!((cpu.register.X, flags(&cpu)), (0x7f, (false, false, false)));
    assert_eq!(cpu.ldy(Operand::Data(0xff)), Ok(()));
    assert_eq!((cpu.register.Y, flags(&cpu)), (0xff, (true, false, false)));
    assert_eq!(cpu.lda(Operand::NONE), Err(CpuError::OperandType));
    assert_eq!(cpu.ldx(Operand::Addr(0x2006)), Err(CpuError::Access(AccessError::WriteOnly)));
    assert_eq!(cpu.register.A, 0x80);
    assert_eq!(cpu.to_data(Operand::Data(5)), Ok(5));
    assert_eq!(cpu.to_data(Operand::Addr(0x0010)), Ok(0x80));
    assert_eq!(cpu.to_data(Operand::NONE), Err(CpuError::OperandType));
}

#[test]
fn stores_set_no_flag() {
    let mut cpu = machine(vec![]);
    cpu.register.A = 0x80;
    cpu.register.X = 0x00;
    cpu.register.Y = 0x7f;
    let p = cpu.register.P;
    assert_eq!(cpu.sta(Operand::Addr(0x0200)), Ok(()));
    assert_eq!(cpu.stx(Operand::Addr(0x0201)), Ok(()));
    assert_eq!(cpu.sty(Operand::Addr(0x6000)), Ok(()));
    assert_eq!(cpu.memory.read(0x0200), Ok(0x80));
    assert_eq!(cpu.memory.read(0x0201), Ok(0x00));
    assert_eq!(cpu.memory.read(0x6000), Ok(0x7f));
    assert_eq!(cpu.register.P, p);
    assert_eq!(cpu.sta(Operand::Addr(0x8000)), Err(CpuError::Access(AccessError::ReadOnly)));
    assert_eq!(cpu.sta(Operand::Addr(0x2002)), Err(CpuError::Access(AccessError::ReadOnly)));
    assert_eq!(cpu.sta(Operand::Data(1)), Err(CpuError::OperandType));
    assert_eq!(cpu.stx(Operand::NONE), Err(CpuError::OperandType));
}

#[test]
fn a_store_reaches_the_graphics_ports() {
    let mut cpu = machine(vec![]);
    cpu.register.A = 0x21;
    cpu.sta(Operand::Addr(0x2006)).unwrap();
    cpu.register.A = 0x00;
    cpu.sta(Operand::Addr(0x2006)).unwrap();
    cpu.register.X = 0x48;
    cpu.stx(Operand::Addr(0x2007)).unwrap();
    cpu.register.Y = 0x49;
    cpu.sty(Operand::Addr(0x2007)).unwrap();
    assert_eq!(cpu.memory.ppu.PPUDATA.cached, vec![(0x2100, 0x48), (0x2101, 0x49)]);
}

#[test]
fn transfers() {
    let mut cpu = machine(vec![]);
    cpu.register.A = 0x80;
    cpu.tax().unwrap();
    assert_eq!((cpu.register.X, flags(&cpu)), (0x80, (true, false, false)));
    cpu.register.A = 0x00;
    cpu.tay().unwrap();
    assert_eq!((cpu.register.Y, flags(&cpu)), (0x00, (false, true, false)));
    cpu.register.X = 0x12;
    cpu.txa().unwrap();
    assert_eq!((cpu.register.A, flags(&cpu)), (0x12, (false, false, false)));
    cpu.register.Y = 0xfe;
    cpu.tya().unwrap();
    assert_eq!((cpu.register.A, flags(&cpu)), (0xfe, (true, false, false)));
    let p = cpu.register.P;
    cpu.register.X = 0x80;
    cpu.txs().unwrap();
    assert_eq!(cpu.register.SP, 0x0180);
    assert_eq!(cpu.register.P, p);
    cpu.tsx().unwrap();
    assert_eq!((cpu.register.X, flags(&cpu)), (0x01, (false, false, false)));
}

#[test]
fn logic() {
    let mut cpu = machine(vec![]);
    cpu.register.A = 0b1100_1100;
    cpu.and(Operand::Data(0b1010_1010)).unwrap();
    assert_eq!((cpu.register.A, flags(&cpu)), (0b1000_1000, (true, false, false)));
    cpu.and(Operand::Data(0b0111_0111)).unwrap();
    assert_eq!((cpu.register.A, flags(&cpu)), (0, (false, true, false)));
    cpu.ora(Operand::Data(0b0000_1111)).unwrap();
    assert_eq!((cpu.register.A, flags(&cpu)), (0b0000_1111, (false, false, false)));
    cpu.eor(Operand::Data(0b1111_1111)).unwrap();
    assert_eq!((cpu.register.A, flags(&cpu)), (0b1111_0000, (true, false, false)));
    cpu.eor(Operand::Data(0b1111_0000)).unwrap();
    assert_eq!((cpu.register.A, flags(&cpu)), (0, (false, true, false)));
    assert_eq!(cpu.ora(Operand::NONE), Err(CpuError::OperandType));
}

#[test]
fn increments_and_decrements_wrap() {
    let mut cpu = machine(vec![]);
    cpu.register.X = 0xff;
    cpu.inx().unwrap();
    assert_eq!((cpu.register.X, flags(&cpu)), (0x00, (false, true, false)));
    cpu.dex().unwrap();
    assert_eq!((cpu.register.X, flags(&cpu)), (0xff, (true, false, false)));
    cpu.register.Y = 0x7f;
    cpu.iny().unwrap();
    assert_eq!((cpu.register.Y, flags(&cpu)), (0x80, (true, false, false)));
    cpu.dey().unwrap();
    assert_eq!((cpu.register.Y, flags(&cpu)), (0x7f, (false, false, false)));
    cpu.memory.write(0x0030, 0xff).unwrap();
    cpu.inc(Operand::Addr(0x0030)).unwrap();
    assert_eq!(cpu.memory.read(0x0030), Ok(0x00));
    assert_eq!(flags(&cpu), (false, true, false));
    cpu.dec(Operand::Addr(0x0030)).unwrap();
    assert_eq!(cpu.memory.read(0x0030), Ok(0xff));
    assert_eq!(flags(&cpu), (true, false, false));
    cpu.dec(Operand::Addr(0x0030)).unwrap();
    assert_eq!(cpu.memory.read(0x0030), Ok(0xfe));
}

#[test]
fn increment_needs_memory_that_can_be_written() {
    let mut cpu = machine(vec![0x10]);
    let p = cpu.register.P;
    assert_eq!(cpu.inc(Operand::Addr(0x8000)), Err(CpuError::Access(AccessError::ReadOnly)));
    assert_eq!(cpu.memory.read(0x8000), Ok(0x10));
    assert_eq!(cpu.dec(Operand::Addr(0x2000)), Err(CpuError::Access(AccessError::WriteOnly)));
    assert_eq!(cpu.inc(Operand::Data(1)), Err(CpuError::OperandType));
    assert_eq!(cpu.dec(Operand::NONE), Err(CpuError::OperandType));
    assert_eq!(cpu.register.P, p);
}

#[test]
fn flag_instructions() {
    let mut cpu = machine(vec![]);
    cpu.register.P = StatusRegister::from(0x00);
    cpu.sec().unwrap();
    assert_eq!(u8::from(cpu.register.P), 0x01);
    cpu.sei().unwrap();
    assert_eq!(u8::from(cpu.register.P), 0x05);
    cpu.sed().unwrap();
    assert_eq!(u8::from(cpu.register.P), 0x0d);
    cpu.register.P = StatusRegister::from(0xff);
    cpu.clc().unwrap();
    assert_eq!(u8::from(cpu.register.P), 0xfe);
    cpu.cli().unwrap();
    assert_eq!(u8::from(cpu.register.P), 0xfa);
    cpu.cld().unwrap();
    assert_eq!(u8::from(cpu.register.P), 0xf2);
    cpu.clv().unwrap();
    assert_eq!(u8::from(cpu.register.P), 0xb2);
}

#[test]
fn the_stack() {
    let mut cpu = machine(vec![]);
    cpu.register.A = 0x42;
    cpu.pha().unwrap();
    assert_eq!(cpu.register.SP, 0x01fe);
    assert_eq!(cpu.memory.read(0x01ff), Ok(0x42));
    cpu.register.P = StatusRegister::from(0xc3);
    cpu.php().unwrap();
    assert_eq!(cpu.register.SP, 0x01fd);
    assert_eq!(cpu.memory.read(0x01fe), Ok(0xc3));
    cpu.register.P = StatusRegister::from(0x00);
    cpu.register.A = 0x00;
    cpu.plp().unwrap();
    assert_eq!(u8::from(cpu.register.P), 0xc3);
    assert_eq!(cpu.register.SP, 0x01fe);
    cpu.pla().unwrap();
    assert_eq!(cpu.register.A, 0x42);
    assert_eq!(cpu.register.SP, 0x01ff);
    assert_eq!(flags(&cpu), (false, false, true));
    cpu.push_stack(0x80);
    assert_eq!(cpu.pop_stack(), 0x80);
}

#[test]
fn the_stack_stays_in_its_page() {
    let mut cpu = machine(vec![]);
    cpu.register.SP = 0x0100;
    cpu.push_stack(0x11);
    assert_eq!(cpu.register.SP, 0x01ff);
    assert_eq!(cpu.memory.read(0x0100), Ok(0x11));
    cpu.push_stack(0x22);
    assert_eq!(cpu.register.SP, 0x01fe);
    assert_eq!(cpu.memory.read(0x01ff), Ok(0x22));
    assert_eq!(cpu.pop_stack(), 0x22);
    assert_eq!(cpu.pop_stack(), 0x11);
    assert_eq!(cpu.register.SP, 0x0100);
    assert_eq!(cpu.memory.read(0x00ff), Ok(0));
    assert_eq!(cpu.memory.read(0x0200), Ok(0));
}

#[test]
fn pulling_a_negative_or_zero_byte() {
    let mut cpu = machine(vec![]);
    cpu.push_stack(0x00);
    cpu.push_stack(0x90);
    cpu.pla().unwrap();
    assert_eq!((cpu.register.A, flags(&cpu)), (0x90, (true, false, false)));
    cpu.pla().unwrap();
    assert_eq!((cpu.register.A, flags(&cpu)), (0x00, (false, true, false)));
}

#[test]
fn what_is_not_defined_says_so() {
    let mut cpu = machine(vec![]);
    let before = cpu.register;
    assert_eq!(cpu.adc(Operand::Data(1)), Err(CpuError::NotImplemented));
    assert_eq!(cpu.sbc(Operand::Data(1)), Err(CpuError::NotImplemented));
    assert_eq!(cpu.bit(), Err(CpuError::NotImplemented));
    assert_eq!(cpu.rti(), Err(CpuError::NotImplemented));
    assert_eq!(cpu.exec(Command::ADC, Operand::NONE, 2), Err(CpuError::NotImplemented));
    assert_eq!(cpu.register, before);
}

#[test]
fn nop_and_brk_change_nothing() {
    let mut cpu = machine(vec![1, 2, 3]);
    let before = cpu.register;
    assert_eq!(cpu.nop(), Ok(()));
    assert_eq!(cpu.brk(), Ok(()));
    cpu.register.P = cpu.register.P.set_i(false);
    let cleared = cpu.register;
    assert_eq!(cpu.brk(), Err(CpuError::NotImplemented));
    assert_eq!(cpu.exec(Command::BRK, Operand::NONE, 7), Err(CpuError::NotImplemented));
    assert_eq!(cpu.register, cleared);
    assert_eq!(cleared, Register { P: before.P.set_i(false), ..before });
    assert_eq!(cpu.memory, MemoryMap::new(vec![1, 2, 3]));
}

#[test]
fn exec_dispatches() {
    let mut cpu = machine(vec![]);
    cpu.exec(Command::LDA, Operand::Data(0x10), 2).unwrap();
    cpu.exec(Command::TAX, Operand::NONE, 2).unwrap();
    cpu.exec(Command::INX, Operand::NONE, 2).unwrap();
    cpu.exec(Command::STX, Operand::Addr(0x0010), 3).unwrap();
    cpu.exec(Command::CMP, Operand::Addr(0x0010), 3).unwrap();
    assert_eq!(cpu.register.X, 0x11);
    assert_eq!(cpu.memory.read(0x0010), Ok(0x11));
    assert_eq!(flags(&cpu), (true, false, false));
    cpu.exec(Command::PHA, Operand::NONE, 3).unwrap();
    cpu.exec(Command::PLP, Operand::NONE, 4).unwrap();
    assert_eq!(u8::from(cpu.register.P), 0x10);
    cpu.exec(Command::JMP, Operand::Addr(0x8123), 3).unwrap();
    assert_eq!(cpu.register.PC, 0x8123);
    cpu.exec(Command::ASL, Operand::Addr(0x0010), 5).unwrap();
    assert_eq!(cpu.register.A, 0x20);
    assert_eq!(cpu.memory.read(0x0010), Ok(0x11));
}

#[test]
fn fetching() {
    let table = OrderSets::new();
    let mut cpu = machine(vec![0xa9, 0x42, 0x8d, 0x00, 0x02]);
    let first = cpu.fetch_program(&table).unwrap();
    assert_eq!(first.orderset, OrderSet::new(Mode::Immediate, Command::LDA, 2, 2));
    assert_eq!(first.operand, Operand::Data(0x42));
    assert_eq!(first.addr, 0);
    assert_eq!(cpu.register.PC, 0x8002);
    let second = cpu.fetch_program(&table).unwrap();
    assert_eq!(second.orderset.cmd, Command::STA);
    assert_eq!(second.operand, Operand::Addr(0x0200));
    assert_eq!(second.addr, 2);
    assert_eq!(cpu.register.PC, 0x8005);
}

#[test]
fn fetching_outside_program_rom() {
    let table = OrderSets::new();
    let mut program = vec![0xea; 0x8000];
    program[0x7ffe] = 0x4c;
    let mut cpu = machine(program);
    cpu.register.PC = 0x7fff;
    assert_eq!(cpu.fetch_program(&table), Err(CpuError::Access(AccessError::Unmapped)));
    assert_eq!(cpu.register.PC, 0x7fff);
    cpu.register.PC = 0x0000;
    assert_eq!(cpu.run(&table), Err(CpuError::Access(AccessError::Unmapped)));
    cpu.register.PC = 0xfffe;
    assert_eq!(cpu.fetch_program(&table), Err(CpuError::Access(AccessError::Unmapped)));
    assert_eq!(cpu.register.PC, 0xfffe);
    cpu.register.PC = 0xffff;
    assert!(cpu.fetch_program(&table).is_ok());
    assert_eq!(cpu.register.PC, 0x0000);
}

#[test]
fn resolving_operands() {
    let mut cpu = machine(vec![]);
    cpu.register.X = 0x04;
    cpu.register.Y = 0x10;
    cpu.memory.write(0x0024, 0x74).unwrap();
    cpu.memory.write(0x0025, 0x20).unwrap();
    cpu.memory.write(0x0086, 0x28).unwrap();
    cpu.memory.write(0x0087, 0x40).unwrap();
    cpu.memory.write(0x0120, 0xfc).unwrap();
    cpu.memory.write(0x0121, 0xba).unwrap();
    let with = |mode: Mode, operand: Operand| Program {
        order_set_index: 0,
        orderset: OrderSet::new(mode, Command::NOP, 1, 1),
        operand,
        addr: 0,
    };
    let resolve = |cpu: &Cpu, mode: Mode, operand: Operand| {
        cpu.update_operand_with_register(&with(mode, operand))
    };
    assert_eq!(resolve(&cpu, Mode::Accumulator, Operand::Addr(1)), Ok(Operand::NONE));
    assert_eq!(resolve(&cpu, Mode::Implied, Operand::Data(1)), Ok(Operand::NONE));
    assert_eq!(resolve(&cpu, Mode::Immediate, Operand::Data(7)), Ok(Operand::Data(7)));
    assert_eq!(resolve(&cpu, Mode::ZeroPage, Operand::Addr(0x80)), Ok(Operand::Addr(0x80)));
    assert_eq!(resolve(&cpu, Mode::Absolute, Operand::Addr(0x1234)), Ok(Operand::Addr(0x1234)));
    assert_eq!(resolve(&cpu, Mode::Relative, Operand::Addr(0x8010)), Ok(Operand::Addr(0x8010)));
    assert_eq!(resolve(&cpu, Mode::NONE, Operand::NONE), Ok(Operand::NONE));
    assert_eq!(resolve(&cpu, Mode::ZeroPageX, Operand::Addr(0x80)), Ok(Operand::Addr(0x84)));
    assert_eq!(resolve(&cpu, Mode::ZeroPageX, Operand::Addr(0xfe)), Ok(Operand::Addr(0x02)));
    assert_eq!(resolve(&cpu, Mode::ZeroPageY, Operand::Addr(0xf8)), Ok(Operand::Addr(0x08)));
    assert_eq!(resolve(&cpu, Mode::AbsoluteX, Operand::Addr(0x12fe)), Ok(Operand::Addr(0x1302)));
    assert_eq!(resolve(&cpu, Mode::AbsoluteY, Operand::Addr(0xfff8)), Ok(Operand::Addr(0x0008)));
    assert_eq!(resolve(&cpu, Mode::Indirect, Operand::Addr(0x0120)), Ok(Operand::Addr(0xbafc)));
    assert_eq!(resolve(&cpu, Mode::IndirectX, Operand::Addr(0x20)), Ok(Operand::Addr(0x2074)));
    assert_eq!(resolve(&cpu, Mode::IndirectY, Operand::Addr(0x86)), Ok(Operand::Addr(0x2850)));
    for mode in [
        Mode::ZeroPageX,
        Mode::ZeroPageY,
        Mode::AbsoluteX,
        Mode::AbsoluteY,
        Mode::Indirect,
        Mode::IndirectX,
        Mode::IndirectY,
    ] {
        assert_eq!(resolve(&cpu, mode, Operand::NONE), Err(CpuError::OperandType));
        assert_eq!(resolve(&cpu, mode, Operand::Data(1)), Err(CpuError::OperandType));
    }
    assert_eq!(
        resolve(&cpu, Mode::Indirect, Operand::Addr(0x2000)),
        Err(CpuError::Access(AccessError::WriteOnly))
    );
}

#[test]
fn a_pointer_does_not_cross_its_page() {
    let mut cpu = machine(vec![]);
    cpu.memory.write(0x02ff, 0x34).unwrap();
    cpu.memory.write(0x0200, 0x12).unwrap();
    cpu.memory.write(0x0300, 0x99).unwrap();
    assert_eq!(cpu.pointer_at(0x02ff), Ok(0x1234));
    assert_eq!(cpu.reversed_pointer_at(0x02ff), Ok(0x3412));
    assert_eq!(Cpu::index_in_page(0x02ff, 1), 0x0200);
    assert_eq!(Cpu::index_in_page(0x0280, 0x7f), 0x02ff);
    assert_eq!(cpu.indirect(Operand::Addr(0x02ff)), Ok(Operand::Addr(0x1234)));
    cpu.memory.write(0x00ff, 0x78).unwrap();
    cpu.memory.write(0x0000, 0x56).unwrap();
    cpu.register.X = 0xff;
    assert_eq!(cpu.indexed_indirect(Operand::Addr(0x0000)), Ok(Operand::Addr(0x5678)));
    cpu.register.Y = 0x01;
    assert_eq!(cpu.indirect_indexed(Operand::Addr(0x00ff)), Ok(Operand::Addr(0x7857)));
}

#[test]
fn a_small_program() {
    let table = OrderSets::new();
    // LDX #$03; LDA #$00; loop: STA $10,X; DEX; BNE loop; JSR sub; NOP ...
    // sub: INC $11; RTS
    let mut program = vec![0xea; 0x40];
    let code = [
        0xa2u8, 0x03, // 8000 LDX #3
        0xa9, 0x07, // 8002 LDA #7
        0x95, 0x10, // 8004 STA $10,X
        0xca, // 8006 DEX
        0xd0, 0xfb, // 8007 BNE 8004
        0x20, 0x20, 0x80, // 8009 JSR 8020
        0xea, // 800c NOP
    ];
    program[..code.len()].copy_from_slice(&code);
    program[0x20] = 0xe6; // INC $11
    program[0x21] = 0x11;
    program[0x22] = 0x60; // RTS
    let mut cpu = machine(program);
    let mut steps = 0;
    while cpu.register.PC != 0x800d {
        cpu.run(&table).unwrap();
        steps += 1;
        assert!(steps < 100);
    }
    assert_eq!(steps, 2 + 3 * 3 + 1 + 2 + 1);
    assert_eq!(cpu.memory.read(0x0010), Ok(0));
    assert_eq!(cpu.memory.read(0x0011), Ok(8));
    assert_eq!(cpu.memory.read(0x0012), Ok(7));
    assert_eq!(cpu.memory.read(0x0013), Ok(7));
    assert_eq!(cpu.register.X, 0);
    assert_eq!(cpu.register.SP, 0x01ff);
}

#[test]
fn an_instruction_that_fails_after_its_fetch() {
    let table = OrderSets::new();
    let mut cpu = machine(vec![0x8d, 0x00, 0x80, 0x69, 0x01]);
    assert_eq!(cpu.run(&table), Err(CpuError::Access(AccessError::ReadOnly)));
    assert_eq!(cpu.register.PC, 0x8003);
    assert_eq!(cpu.run(&table), Err(CpuError::NotImplemented));
    assert_eq!(cpu.register.PC, 0x8005);
}

#[test]
fn the_bytes_of_an_instruction() {
    let table = OrderSets::new();
    let mut cpu = machine(vec![0xea, 0x8d, 0x00, 0x02, 0xa9, 0x07]);
    let nop = cpu.fetch_program(&table).unwrap();
    let sta = cpu.fetch_program(&table).unwrap();
    let lda = cpu.fetch_program(&table).unwrap();
    assert_eq!(cpu.instruction_bytes(&nop).unwrap().0, [0xea]);
    assert_eq!(cpu.instruction_bytes(&sta).unwrap().0, [0x8d, 0x00, 0x02]);
    assert_eq!(cpu.instruction_bytes(&lda).unwrap().0, [0xa9, 0x07]);
    let outside = Program { addr: 0x7ffe, ..sta };
    assert!(cpu.instruction_bytes(&outside).is_none());
    let at_the_end = Program { addr: 0x7ffd, ..sta };
    assert_eq!(cpu.instruction_bytes(&at_the_end).unwrap().0, [0, 0, 0]);
    let beyond = Program { addr: 0xffff, ..nop };
    assert!(cpu.instruction_bytes(&beyond).is_none());
}
