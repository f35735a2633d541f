//! What holds of the instruction set as a whole.

use super::machine::{stack_slot, wrap8, Machine};
use super::memory_map::Bus;
use super::register::Register;
use super::status_register::{
    has_flag, is_flag_mask, lemma_flag_after_set, lemma_flag_n_is_sign, with_flag, B_FLAG, C_FLAG,
    D_FLAG, I_FLAG, N_FLAG, R_FLAG, V_FLAG, Z_FLAG,
};
use crate::binary::util::{high_byte, low_byte, word};
use crate::error::CpuError;
use crate::ines::program::addressing::{relative_target, wrap16};
use crate::ines::program::command::Command;
use crate::ines::program::operand::Operand;
use crate::ines::program::order_set::order_set_of;
use crate::ines::program::program::PROGRAM_ORIGIN;
use crate::ppu::io_register::lemma_write_only_appends;
use vstd::prelude::*;

verus! {

/// Whether `cmd` is one of the eight branches.
pub open spec fn is_branch(cmd: Command) -> bool {
    cmd is BCC || cmd is BCS || cmd is BEQ || cmd is BNE || cmd is BVC || cmd is BVS || cmd is BPL
        || cmd is BMI
}

/// Whether the branch `cmd` is taken by a machine `m`: each branch looks at
/// one flag and is taken when the flag is as its name says.
pub open spec fn is_taken(cmd: Command, m: Machine) -> bool {
    match cmd {
        Command::BCC => !m.reg.P.c(),
        Command::BCS => m.reg.P.c(),
        Command::BEQ => m.reg.P.z(),
        Command::BNE => !m.reg.P.z(),
        Command::BVC => !m.reg.P.v(),
        Command::BVS => m.reg.P.v(),
        Command::BPL => !m.reg.P.n(),
        Command::BMI => m.reg.P.n(),
        _ => false,
    }
}

/// A push and then a pull give the byte back and leave the stack pointer
/// where it was.
pub proof fn lemma_push_then_pull(m: Machine, v: u8)
    requires
        m.wf(),
    ensures
        m.push(v).top() == v,
        m.push(v).pulled().reg == m.reg,
        m.push(v).wf(),
{
}

/// A branch either goes to its target or leaves the program counter behind
/// the instruction, where the fetch has put it: it goes to the target when
/// the flag it looks at is as its name says, and only then. Nothing but the
/// program counter changes.
pub proof fn lemma_branch_polarity(m: Machine, cmd: Command, target: u16)
    requires
        is_branch(cmd),
    ensures
        m.exec(cmd, Operand::Addr(target)) is Ok,
        is_taken(cmd, m) ==> m.exec(cmd, Operand::Addr(target))->Ok_0 == (Machine {
            reg: Register { PC: target, ..m.reg },
            ..m
        }),
        !is_taken(cmd, m) ==> m.exec(cmd, Operand::Addr(target))->Ok_0 == m,
{
}

/// In the opcode table the branches, and only they, find their operand
/// relative to the program counter; a branch is two bytes long.
pub proof fn lemma_branches_are_relative(opcode: u8)
    ensures
        is_branch(order_set_of(opcode).cmd) <==> order_set_of(opcode).mode is Relative,
        is_branch(order_set_of(opcode).cmd) ==> order_set_of(opcode).length == 2,
{
}

/// A branch that is fetched at program counter `p` leaves the program
/// counter either at its target, which is the displacement byte away from
/// the instruction behind the branch, or at that instruction, two bytes
/// behind `p`: at the target when the flag it looks at is as its name says,
/// and only then. Nothing else changes.
pub proof fn lemma_fetched_branch(m: Machine)
    requires
        m.can_fetch(),
        is_branch(m.fetched().orderset.cmd),
    ensures
        m.run().1 is Ok,
        is_taken(m.fetched().orderset.cmd, m) ==> m.run().0 == (Machine {
            reg: Register {
                PC: wrap16(
                    PROGRAM_ORIGIN + relative_target(
                        m.reg.PC - PROGRAM_ORIGIN,
                        m.program_rom()[m.reg.PC - PROGRAM_ORIGIN + 1],
                    ),
                ),
                ..m.reg
            },
            ..m
        }),
        !is_taken(m.fetched().orderset.cmd, m) ==> m.run().0 == (Machine {
            reg: Register { PC: wrap16(m.reg.PC + 2), ..m.reg },
            ..m
        }),
{
    let program = m.fetched();
    lemma_branches_are_relative(program.order_set_index);
    let ready = m.after_fetch();
    let target = program.operand->Addr_0;
    assert(program.operand == Operand::Addr(target));
    assert(ready.resolve(program.orderset.mode, program.operand) == Ok::<Operand, CpuError>(
        Operand::Addr(target),
    ));
    assert(is_taken(program.orderset.cmd, ready) == is_taken(program.orderset.cmd, m));
    lemma_branch_polarity(ready, program.orderset.cmd, target);
}

/// A call and the return that follows it leave the program counter where
/// it was before the call, which is behind the call, and the stack pointer
/// where it was.
pub proof fn lemma_jsr_rts_round_trip(m: Machine, target: u16)
    requires
        m.wf(),
    ensures
        m.jsr(Operand::Addr(target)) is Ok,
        m.jsr(Operand::Addr(target))->Ok_0.reg.PC == target,
        m.jsr(Operand::Addr(target))->Ok_0.rts() is Ok,
        m.jsr(Operand::Addr(target))->Ok_0.rts()->Ok_0.reg == m.reg,
{
    let back = wrap16(m.reg.PC - 1);
    let first = m.push(high_byte(back));
    let second = first.push(low_byte(back));
    lemma_push_then_pull(m, high_byte(back));
    lemma_push_then_pull(first, low_byte(back));
    let called = m.jsr(Operand::Addr(target))->Ok_0;
    assert(called.bus == second.bus);
    assert(called.reg.SP == second.reg.SP);
    assert(called.top() == low_byte(back));
    assert(called.pulled().reg.SP == first.reg.SP);
    assert(stack_slot(m.reg.SP) != stack_slot(first.reg.SP));
    assert(called.pulled().top() == high_byte(back));
    assert(word(high_byte(back), low_byte(back)) == back);
    assert(wrap16(back + 1) == m.reg.PC);
}

/// A call that is fetched at program counter `p` and the return that follows
/// it leave the program counter three bytes behind `p`, and the stack
/// pointer where it was.
pub proof fn lemma_fetched_jsr_rts_round_trip(m: Machine)
    requires
        m.wf(),
        m.can_fetch(),
        m.fetched().orderset.cmd is JSR,
    ensures
        m.run().1 is Ok,
        m.run().0.rts() is Ok,
        m.run().0.rts()->Ok_0.reg.PC == wrap16(m.reg.PC + 3),
        m.run().0.rts()->Ok_0.reg.SP == m.reg.SP,
{
    let program = m.fetched();
    crate::ines::program::order_set::lemma_length_follows_mode(program.order_set_index);
    assert(program.order_set_index == 0x20);
    let ready = m.after_fetch();
    assert(ready.wf());
    let target = program.operand->Addr_0;
    assert(ready.resolve(program.orderset.mode, program.operand) == Ok::<Operand, CpuError>(
        Operand::Addr(target),
    ));
    lemma_jsr_rts_round_trip(ready, target);
}

/// After a comparison of `left` with a value `v`, Carry says that `left` is
/// not below `v`, Zero that the two are equal, and Negative that the
/// difference, taken in eight bits, is 128 or more. The other flags, the
/// registers and the bus are as before.
pub proof fn lemma_compare_flags(m: Machine, left: u8, v: u8)
    ensures
        m.compare(left, Operand::Data(v)) is Ok,
        ({
            let after = m.compare(left, Operand::Data(v))->Ok_0;
            &&& after.reg.P.c() == (left >= v)
            &&& after.reg.P.z() == (left == v)
            &&& after.reg.P.n() == (wrap8(left - v) >= 0x80)
            &&& after.reg.P.v() == m.reg.P.v()
            &&& after.reg.P.b() == m.reg.P.b()
            &&& after.reg.P.d() == m.reg.P.d()
            &&& after.reg.P.i() == m.reg.P.i()
            &&& after.reg == (Register { P: after.reg.P, ..m.reg })
            &&& after.bus == m.bus
        }),
{
    let difference = wrap8(left - v);
    lemma_flag_n_is_sign(difference);
    let before = m.reg.P;
    let with_n = before.set_n(has_flag(difference, N_FLAG));
    let with_z = with_n.set_z(left == v);
    lemma_flags_after_set(before.0, N_FLAG, has_flag(difference, N_FLAG));
    lemma_flags_after_set(with_n.0, Z_FLAG, left == v);
    lemma_flags_after_set(with_z.0, C_FLAG, left >= v);
}

/// Whether flag `read` of `v`, after flag `set` of `v` was set to `on`, is
/// `on` if the two flags are one, and else what it was.
pub open spec fn reads_after_set(v: u8, set: u8, on: bool, read: u8) -> bool {
    has_flag(with_flag(v, set, on), read) == (if set == read {
        on
    } else {
        has_flag(v, read)
    })
}

/// Setting one flag of a byte makes that flag read as it was set and leaves
/// each of the seven others as it was.
pub proof fn lemma_flags_after_set(v: u8, set: u8, on: bool)
    requires
        is_flag_mask(set),
    ensures
        reads_after_set(v, set, on, N_FLAG),
        reads_after_set(v, set, on, V_FLAG),
        reads_after_set(v, set, on, R_FLAG),
        reads_after_set(v, set, on, B_FLAG),
        reads_after_set(v, set, on, D_FLAG),
        reads_after_set(v, set, on, I_FLAG),
        reads_after_set(v, set, on, Z_FLAG),
        reads_after_set(v, set, on, C_FLAG),
{
    lemma_flag_after_set(v, set, N_FLAG, on);
    lemma_flag_after_set(v, set, V_FLAG, on);
    lemma_flag_after_set(v, set, R_FLAG, on);
    lemma_flag_after_set(v, set, B_FLAG, on);
    lemma_flag_after_set(v, set, D_FLAG, on);
    lemma_flag_after_set(v, set, I_FLAG, on);
    lemma_flag_after_set(v, set, Z_FLAG, on);
    lemma_flag_after_set(v, set, C_FLAG, on);
}

/// A shift or a rotation puts into Carry the bit that leaves the
/// accumulator: bit 7 to the left, bit 0 to the right. A shift fills the
/// bit that becomes free with 0, a rotation with what Carry was before.
pub proof fn lemma_shift_rotate_carry(m: Machine)
    ensures
        m.asl()->Ok_0.reg.P.c() == (m.reg.A >= 0x80),
        m.asl()->Ok_0.reg.A % 2 == 0,
        m.asl()->Ok_0.reg.A / 2 == m.reg.A % 0x80,
        m.rol()->Ok_0.reg.P.c() == (m.reg.A >= 0x80),
        (m.rol()->Ok_0.reg.A % 2 == 1) == m.reg.P.c(),
        m.rol()->Ok_0.reg.A / 2 == m.reg.A % 0x80,
        m.lsr()->Ok_0.reg.P.c() == (m.reg.A % 2 == 1),
        m.lsr()->Ok_0.reg.A < 0x80,
        m.lsr()->Ok_0.reg.A == m.reg.A / 2,
        m.ror()->Ok_0.reg.P.c() == (m.reg.A % 2 == 1),
        (m.ror()->Ok_0.reg.A >= 0x80) == m.reg.P.c(),
        m.ror()->Ok_0.reg.A % 0x80 == m.reg.A / 2,
{
    lemma_flag_after_set(m.reg.P.0, C_FLAG, C_FLAG, m.reg.A >= 0x80);
    lemma_flag_after_set(m.reg.P.0, C_FLAG, C_FLAG, m.reg.A % 2 == 1);
}

/// A rotation to the left and then one to the right give the accumulator and
/// Carry back.
pub proof fn lemma_rol_then_ror(m: Machine)
    ensures
        m.rol()->Ok_0.ror()->Ok_0.reg.A == m.reg.A,
        m.rol()->Ok_0.ror()->Ok_0.reg.P.c() == m.reg.P.c(),
{
    lemma_shift_rotate_carry(m);
    lemma_shift_rotate_carry(m.rol()->Ok_0);
}

/// A store and then a load from the same address of RAM give the stored
/// byte.
pub proof fn lemma_sta_then_lda(m: Machine, addr: u16)
    requires
        m.wf(),
        !super::memory_map::Region::of(addr).is_rom(),
        !(super::memory_map::Region::of(addr) is PpuRegister),
    ensures
        m.sta(Operand::Addr(addr)) is Ok,
        m.sta(Operand::Addr(addr))->Ok_0.lda(Operand::Addr(addr)) is Ok,
        m.sta(Operand::Addr(addr))->Ok_0.lda(Operand::Addr(addr))->Ok_0.reg.A == m.reg.A,
{
}

/// Whatever `cmd` is and whatever comes of it, a machine whose stack
/// pointer points into the stack stays one.
pub proof fn lemma_exec_keeps_wf(m: Machine, cmd: Command, operand: Operand)
    requires
        m.wf(),
    ensures
        m.exec(cmd, operand) is Ok ==> m.exec(cmd, operand)->Ok_0.wf(),
{
}

/// A whole instruction, whatever comes of it, leaves a machine whose stack
/// pointer points into the stack one.
pub proof fn lemma_run_keeps_wf(m: Machine)
    requires
        m.wf(),
    ensures
        m.run().0.wf(),
{
    if m.can_fetch() {
        let program = m.fetched();
        let ready = m.after_fetch();
        assert(ready.wf());
        if ready.resolve(program.orderset.mode, program.operand) is Ok {
            let operand = ready.resolve(program.orderset.mode, program.operand)->Ok_0;
            lemma_exec_keeps_wf(ready, program.orderset.cmd, operand);
        }
    }
}

/// No write to the bus takes anything out of the buffer of writes that wait
/// for graphics memory: the buffer stays as it was, or one write is
/// appended to it.
pub proof fn lemma_bus_only_appends(bus: Bus, addr: u16, d: u8)
    ensures
        bus.write(addr, d) is Ok ==> bus.write(addr, d)->Ok_0.ppu.cached == bus.ppu.cached
            || bus.write(addr, d)->Ok_0.ppu.cached == bus.ppu.cached.push(
            (bus.ppu.latched(), d),
        ),
{
    lemma_write_only_appends(bus.ppu, addr, d);
}

/// No instruction takes anything out of the buffer of writes that wait for
/// graphics memory: what was pending before it is pending after it, in the
/// same order and at the front.
pub proof fn lemma_exec_only_appends(m: Machine, cmd: Command, operand: Operand)
    ensures
        m.exec(cmd, operand) is Ok ==> m.bus.ppu.cached.is_prefix_of(
            m.exec(cmd, operand)->Ok_0.bus.ppu.cached,
        ),
{
    if m.exec(cmd, operand) is Ok {
        let after = m.exec(cmd, operand)->Ok_0;
        let pending = m.bus.ppu.cached;
        match operand {
            Operand::Addr(addr) => {
                lemma_bus_only_appends(m.bus, addr, m.reg.A);
                lemma_bus_only_appends(m.bus, addr, m.reg.X);
                lemma_bus_only_appends(m.bus, addr, m.reg.Y);
                if m.bus.read(addr) is Ok {
                    let v = m.bus.read(addr)->Ok_0;
                    lemma_bus_only_appends(m.bus, addr, wrap8(v + 1));
                    lemma_bus_only_appends(m.bus, addr, wrap8(v - 1));
                }
            },
            _ => {},
        }
        assert(after.bus.ppu.cached == pending || exists|w: (u16, u8)|
            after.bus.ppu.cached == pending.push(w));
        assert(pending.is_prefix_of(pending));
        assert forall|w: (u16, u8)| pending.is_prefix_of(#[trigger] pending.push(w)) by {
            assert(pending.push(w).subrange(0, pending.len() as int) =~= pending);
        }
    }
}

} // verus!
