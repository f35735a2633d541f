use fc::error::AccessError;
use fc::ines::program::addressing::Addresing;
use fc::ines::program::order_set::decode;
use fc::ines::program::{Command, Mode, Operand, OrderSet, OrderSets, Program, Programs};

#[test]
fn ts_accumulator() {
    let raw = &(vec![0, 1, 2, 3, 4, 5][..]);
    assert_eq!(raw.accumulator(0), Operand::NONE);
}

#[test]
fn ts_immediate() {
    let raw = &(vec![0, 1, 2, 3, 4, 5][..]);
    assert_eq!(raw.immediate(0), Operand::Data(1));
}

#[test]
fn ts_absolute() {
    let raw = &(vec![0, 1, 2, 3, 4, 5][..]);
    assert_eq!(raw.absolute(0), Operand::Addr(0x0201));
}

#[test]
fn ts_zero_page() {
    let raw = &(vec![0, 1, 2, 3, 4, 5][..]);
    assert_eq!(raw.zero_page(0), Operand::Addr(0x0001));
}

#[test]
fn ts_indexed_zero_page() {
    let raw = &(vec![0, 1, 2, 3, 4, 5][..]);
    assert_eq!(raw.zero_page(0), Operand::Addr(0x0001));
}

#[test]
fn ts_indexed_absolute() {
    let raw = &(vec![0, 1, 2, 3, 4, 5][..]);
    assert_eq!(raw.indexed_absolute(0), Operand::Addr(0x0201));
}

#[test]
fn ts_implied() {
    let raw = &(vec![0, 1, 2, 3, 4, 5][..]);
    assert_eq!(raw.implied(0), Operand::NONE);
}

#[test]
fn ts_relative() {
    let raw = &(vec![0, 1, 2, 3, 4, 5][..]);
    assert_eq!(raw.relative(0), Operand::Addr(2 + 1));
}

#[test]
fn ts_relative2() {
    let raw = &(vec![0, 0x7f, 2, 3, 4, 5][..]);
    assert_eq!(raw.relative(0), Operand::Addr(2 + 127));
}

#[test]
fn ts_relative3() {
    let raw = &(vec![0, 0xff, 2, 3, 4, 5][..]);
    assert_eq!(raw.relative(0), Operand::Addr(2 - 1));
}

#[test]
fn ts_indexed_indirect() {
    let raw = &(vec![0, 1, 2, 3, 4, 5][..]);
    assert_eq!(raw.indexed_indirect(0), Operand::Addr(1));
}

#[test]
fn ts_indirect_indexed() {
    let raw = &(vec![0, 1, 2, 3, 4, 5][..]);
    assert_eq!(raw.indirect_indexed(0), Operand::Addr(1));
}

#[test]
fn ts_absolute_indirect() {
    let raw = &(vec![0, 1, 2, 3, 4, 5][..]);
    assert_eq!(raw.absolute_indirect(0), Operand::Addr(0x0201));
}

#[test]
fn ts_none() {
    let raw = &(vec![0, 1, 2, 3, 4, 5][..]);
    assert_eq!(raw.none(0), Operand::NONE);
}

#[test]
fn relative_from_address_0x10() {
    let mut bytes = vec![0u8; 0x20];
    bytes[0x11] = 0x7f;
    let raw = &bytes[..];
    assert_eq!(raw.relative(0x10), Operand::Addr(0x10 + 2 + 0x7f));
    bytes[0x11] = 0xff;
    let raw = &bytes[..];
    assert_eq!(raw.relative(0x10), Operand::Addr(0x10 + 2 - 1));
    bytes[0x11] = 0x80;
    let raw = &bytes[..];
    assert_eq!(raw.relative(0x10), Operand::Addr(0xff92));
    bytes[0x11] = 0x00;
    let raw = &bytes[..];
    assert_eq!(raw.relative(0x10), Operand::Addr(0x12));
}

#[test]
fn relative_below_zero_wraps() {
    let raw = &(vec![0, 0x80][..]);
    assert_eq!(raw.relative(0), Operand::Addr(0xff82));
}

#[test]
fn operand_accessors() {
    assert_eq!(Operand::Addr(0x1234).addr(), 0x1234);
    assert_eq!(Operand::Addr(0x1234).addrs(), (0x12, 0x34));
}

#[test]
fn table_entries() {
    let table = OrderSets::new();
    assert_eq!(table.lookup(0x00), OrderSet::new(Mode::Implied, Command::BRK, 1, 7));
    assert_eq!(table.lookup(0x20), OrderSet::new(Mode::Absolute, Command::JSR, 3, 6));
    assert_eq!(table.lookup(0x60), OrderSet::new(Mode::Implied, Command::RTS, 1, 6));
    assert_eq!(table.lookup(0x6c), OrderSet::new(Mode::Indirect, Command::JMP, 3, 5));
    assert_eq!(table.lookup(0xa9), OrderSet::new(Mode::Immediate, Command::LDA, 2, 2));
    assert_eq!(table.lookup(0xc9), OrderSet::new(Mode::Immediate, Command::CMP, 2, 2));
    assert_eq!(table.lookup(0xf0), OrderSet::new(Mode::Relative, Command::BEQ, 2, 2));
    assert_eq!(table.lookup(0xfe), OrderSet::new(Mode::AbsoluteX, Command::INC, 3, 6));
    assert_eq!(table.lookup(0x96), OrderSet::new(Mode::ZeroPageY, Command::STX, 2, 4));
}

#[test]
fn undefined_opcodes_do_nothing() {
    let table = OrderSets::new();
    assert_eq!(OrderSet::none(), OrderSet::new(Mode::NONE, Command::NOP, 1, 1));
    for opcode in [0x02u8, 0x03, 0x04, 0x0b, 0x80, 0xff] {
        assert_eq!(table.lookup(opcode), OrderSet::none());
    }
}

#[test]
fn the_table_and_decode_agree_and_lengths_follow_modes() {
    let table = OrderSets::new();
    let mut defined = 0;
    for opcode in 0..=255u8 {
        let set = table.lookup(opcode);
        assert_eq!(set, decode(opcode));
        let wanted = match set.mode {
            Mode::Implied | Mode::Accumulator | Mode::NONE => 1,
            Mode::Absolute | Mode::AbsoluteX | Mode::AbsoluteY | Mode::Indirect => 3,
            _ => 2,
        };
        assert_eq!(set.length, wanted);
        if set.mode != Mode::NONE {
            defined += 1;
        }
    }
    assert_eq!(defined, 151);
}

#[test]
fn parse_one_instruction() {
    let table = OrderSets::new();
    let rom = [0xa9u8, 0x42, 0x4c, 0x34, 0x12, 0xf0, 0xfe, 0xea];
    let lda = Program::parse(&table, &rom, 0).unwrap();
    assert_eq!(lda.order_set_index, 0xa9);
    assert_eq!(lda.orderset, OrderSet::new(Mode::Immediate, Command::LDA, 2, 2));
    assert_eq!(lda.operand, Operand::Data(0x42));
    assert_eq!(lda.addr, 0);
    let jmp = Program::parse(&table, &rom, 2).unwrap();
    assert_eq!(jmp.operand, Operand::Addr(0x1234));
    assert_eq!(jmp.addr, 2);
    let beq = Program::parse(&table, &rom, 5).unwrap();
    assert_eq!(beq.orderset.cmd, Command::BEQ);
    assert_eq!(beq.operand, Operand::Addr(0x8000 + 5 + 2 - 2));
    let nop = Program::parse(&table, &rom, 7).unwrap();
    assert_eq!(nop.operand, Operand::NONE);
}

#[test]
fn parse_refuses_what_is_cut_off() {
    let table = OrderSets::new();
    let rom = [0xeau8, 0xa9, 0x01, 0x4c, 0x00];
    assert_eq!(Program::parse(&table, &rom, 5), Err(AccessError::Unmapped));
    assert_eq!(Program::parse(&table, &rom, 0xffff), Err(AccessError::Unmapped));
    assert_eq!(Program::parse(&table, &rom, 3), Err(AccessError::Unmapped));
    assert!(Program::parse(&table, &rom, 1).is_ok());
    assert_eq!(Program::parse(&table, &[], 0), Err(AccessError::Unmapped));
    assert_eq!(Program::parse(&table, &[0xa9], 0), Err(AccessError::Unmapped));
}

#[test]
fn operand_by_mode() {
    let rom = [0x00u8, 0x34, 0x12];
    let raw = &rom[..];
    assert_eq!(Program::operand(&raw, 0, Mode::Implied), Operand::NONE);
    assert_eq!(Program::operand(&raw, 0, Mode::Accumulator), Operand::NONE);
    assert_eq!(Program::operand(&raw, 0, Mode::NONE), Operand::NONE);
    assert_eq!(Program::operand(&raw, 0, Mode::Immediate), Operand::Data(0x34));
    assert_eq!(Program::operand(&raw, 0, Mode::ZeroPage), Operand::Addr(0x0034));
    assert_eq!(Program::operand(&raw, 0, Mode::ZeroPageX), Operand::Addr(0x0034));
    assert_eq!(Program::operand(&raw, 0, Mode::ZeroPageY), Operand::Addr(0x0034));
    assert_eq!(Program::operand(&raw, 0, Mode::IndirectX), Operand::Addr(0x0034));
    assert_eq!(Program::operand(&raw, 0, Mode::IndirectY), Operand::Addr(0x0034));
    assert_eq!(Program::operand(&raw, 0, Mode::Absolute), Operand::Addr(0x1234));
    assert_eq!(Program::operand(&raw, 0, Mode::AbsoluteX), Operand::Addr(0x1234));
    assert_eq!(Program::operand(&raw, 0, Mode::AbsoluteY), Operand::Addr(0x1234));
    assert_eq!(Program::operand(&raw, 0, Mode::Indirect), Operand::Addr(0x1234));
    assert_eq!(Program::operand(&raw, 0, Mode::Relative), Operand::Addr(0x8000 + 2 + 0x34));
}

#[test]
fn list_a_program() {
    let table = OrderSets::new();
    let rom = vec![0xa9u8, 0x01, 0x8d, 0x00, 0x02, 0xea];
    let Programs(list) = Programs::parse(&table, &rom).unwrap();
    assert_eq!(list.len(), 3);
    assert_eq!(list[0].addr, 0);
    assert_eq!(list[0].orderset.cmd, Command::LDA);
    assert_eq!(list[1].addr, 2);
    assert_eq!(list[1].orderset.cmd, Command::STA);
    assert_eq!(list[1].operand, Operand::Addr(0x0200));
    assert_eq!(list[2].addr, 5);
    assert_eq!(list[2].orderset.cmd, Command::NOP);
    let Programs(empty) = Programs::parse(&table, &vec![]).unwrap();
    assert!(empty.is_empty());
}

#[test]
fn listing_refuses_a_cut_off_end_and_a_rom_too_long() {
    let table = OrderSets::new();
    assert_eq!(Programs::parse(&table, &vec![0xea, 0x4c, 0x00]), Err(AccessError::Unmapped));
    assert_eq!(Programs::parse(&table, &vec![0xea; 0x1_0001]), Err(AccessError::Unmapped));
    let Programs(full) = Programs::parse(&table, &vec![0xea; 0x1_0000]).unwrap();
    assert_eq!(full.len(), 0x1_0000);
    assert_eq!(full[0xffff].addr, 0xffff);
}

#[test]
fn names() {
    assert_eq!(Mode::ZeroPageX.name(), "ZeroPageX");
    assert_eq!(Mode::NONE.name(), "NONE");
    assert_eq!(Command::LDA.name(), "LDA");
    assert_eq!(Command::NOP.name(), "NOP");
}
