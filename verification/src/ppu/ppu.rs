//! The graphics unit: the patterns of the cartridge, graphics memory, and
//! the frames drawn so far.

use super::io_register::{IORegister, Ports};
use super::memory_map::{MemoryMap, MEMORY_END, NAME_LENGTH};
use crate::display::canvas::{pixels_of, size_of, Canvas};
use crate::display::{tiled, Display, DISPLAY_HEIGHT, DISPLAY_WIDTH};
use crate::error::AccessError;
use crate::ines::sprite::Sprite;
use vstd::prelude::*;

verus! {

/// The address of the first entry of name table 0.
pub const NAME0_START: u16 = 0x2000;

/// Whether every write of a buffer is meant for an address of graphics
/// memory.
pub open spec fn all_mapped(writes: Seq<(u16, u8)>) -> bool {
    forall|i: int| 0 <= i < writes.len() ==> (#[trigger] writes[i]).0 < MEMORY_END
}

/// Graphics memory `mem` after the writes of a buffer were applied to it in
/// their order.
pub open spec fn drained(mem: Seq<u8>, writes: Seq<(u16, u8)>) -> Seq<u8>
    decreases writes.len(),
{
    if writes.len() == 0 {
        mem
    } else {
        drained(mem, writes.drop_last()).update(writes.last().0 as int, writes.last().1)
    }
}

/// The graphics unit.
#[derive(PartialEq, Eq, Debug)]
pub struct PPU<'a> {
    characters: &'a [Sprite],
    memory: MemoryMap,
    frame: usize,
}

impl<'a> PPU<'a> {
    #[verifier::type_invariant]
    spec fn patterns_are_whole(&self) -> bool {
        forall|i: int| 0 <= i < self.characters@.len() ==> (#[trigger] self.characters@[i]).wf()
    }

    /// The patterns of the cartridge.
    pub closed spec fn characters(&self) -> Seq<Sprite> {
        self.characters@
    }

    /// The bytes of graphics memory.
    pub closed spec fn vram(&self) -> Seq<u8> {
        self.memory@
    }

    /// The number of frames drawn so far.
    pub closed spec fn frames(&self) -> usize {
        self.frame
    }

    /// The pattern that cell `i` of the screen shows: the one that entry `i`
    /// of name table 0 names.
    pub open spec fn shown(&self, i: int) -> Sprite {
        self.characters()[self.vram()[NAME0_START + i] as int]
    }

    /// Whether every entry of name table 0 names a pattern that there is.
    pub open spec fn can_draw(&self) -> bool {
        forall|i: int|
            0 <= i < NAME_LENGTH ==> (#[trigger] self.vram()[NAME0_START + i])
                < self.characters().len()
    }

    /// A graphics unit with the given patterns, graphics memory all zero, and
    /// no frame drawn.
    pub fn new(sprites: &'a [Sprite]) -> (r: Self)
        requires
            forall|i: int| 0 <= i < sprites@.len() ==> (#[trigger] sprites@[i]).wf(),
        ensures
            r.characters() == sprites@,
            r.vram() == Seq::new(0x4000, |a: int| 0u8),
            r.frames() == 0,
    {
        PPU { characters: sprites, memory: MemoryMap::new(), frame: 0 }
    }

    /// Graphics memory, to be read.
    pub fn memory(&self) -> (r: &MemoryMap)
        ensures
            r@ == self.vram(),
    {
        &self.memory
    }

    /// The number of frames drawn so far.
    pub fn frame(&self) -> (r: usize)
        ensures
            r == self.frames(),
    {
        self.frame
    }

    /// Takes over the writes that the processor left at the data port:
    /// applies them to graphics memory in their order and empties the
    /// buffer. When one of them is meant for an address from 0x4000 on,
    /// nothing is applied and the buffer stays.
    pub fn refresh(&mut self, register: &mut IORegister) -> (r: Result<(), AccessError>)
        ensures
            final(self).characters() == old(self).characters(),
            final(self).frames() == old(self).frames(),
            all_mapped(old(register)@.cached) ==> r is Ok && final(self).vram() == drained(
                old(self).vram(),
                old(register)@.cached,
            ) && final(register)@ == (Ports { cached: Seq::empty(), ..old(register)@ }),
            !all_mapped(old(register)@.cached) ==> r == Err::<(), AccessError>(
                AccessError::Unmapped,
            ) && final(self).vram() == old(self).vram() && final(register)@ == old(register)@,
    {
        proof {
            use_type_invariant(&*self);
        }
        let n = register.PPUDATA.cached.len();
        let mut i: usize = 0;
        while i < n
            invariant
                i <= n,
                n == register.PPUDATA.cached@.len(),
                *register == *old(register),
                *self == *old(self),
                forall|k: int|
                    0 <= k < i ==> (#[trigger] register.PPUDATA.cached@[k]).0 < MEMORY_END,
            decreases n - i,
        {
            let (addr, _) = register.PPUDATA.cached[i];
            if addr >= MEMORY_END {
                return Err(AccessError::Unmapped);
            }
            i += 1;
        }
        let ghost writes = register.PPUDATA.cached@;
        let mut i: usize = 0;
        while i < n
            invariant
                i <= n,
                n == writes.len(),
                *register == *old(register),
                writes == register.PPUDATA.cached@,
                all_mapped(writes),
                self.characters == old(self).characters,
                forall|k: int|
                    0 <= k < self.characters@.len() ==> (#[trigger] self.characters@[k]).wf(),
                self.frame == old(self).frame,
                self.memory@.len() == 0x4000,
                self.memory@ == drained(old(self).memory@, writes.take(i as int)),
            decreases n - i,
        {
            let (addr, d) = register.PPUDATA.cached[i];
            assert(writes[i as int].0 < MEMORY_END);
            let written = self.memory.write(addr, d);
            assert(written is Ok);
            proof {
                assert(writes.take(i + 1).drop_last() =~= writes.take(i as int));
                assert(writes.take(i + 1).last() == writes[i as int]);
            }
            i += 1;
        }
        assert(writes.take(n as int) =~= writes);
        register.PPUDATA.clear();
        Ok(())
    }

    /// Draws a frame: the screen whose cells show the patterns that name
    /// table 0 names. When an entry names a pattern that the cartridge does
    /// not have, no frame is drawn.
    pub fn draw(&mut self) -> (r: Result<Canvas, AccessError>)
        ensures
            final(self).characters() == old(self).characters(),
            final(self).vram() == old(self).vram(),
            old(self).can_draw() ==> r is Ok && size_of(r->Ok_0) == (DISPLAY_WIDTH, DISPLAY_HEIGHT)
                && pixels_of(r->Ok_0) == tiled(|i: int| old(self).shown(i), NAME_LENGTH as int)
                && final(self).frames() == (if old(self).frames() == usize::MAX {
                0
            } else {
                old(self).frames() + 1
            }),
            !old(self).can_draw() ==> r is Err && r->Err_0 == AccessError::Unmapped,
            !old(self).can_draw() ==> final(self).frames() == old(self).frames(),
    {
        proof {
            use_type_invariant(&*self);
        }
        let first = self.memory.name0[0] as usize;
        if first >= self.characters.len() {
            assert(self.vram()[NAME0_START + 0] == self.memory.name0@[0]);
            return Err(AccessError::Unmapped);
        }
        let mut table: [&Sprite; NAME_LENGTH] = [&self.characters[first]; NAME_LENGTH];
        let mut i: usize = 0;
        while i < NAME_LENGTH
            invariant
                i <= NAME_LENGTH,
                *self == *old(self),
                forall|k: int|
                    0 <= k < self.characters@.len() ==> (#[trigger] self.characters@[k]).wf(),
                forall|k: int| 0 <= k < NAME_LENGTH ==> (#[trigger] table@[k]).wf(),
                forall|k: int|
                    0 <= k < i ==> (#[trigger] self.memory.name0@[k]) < self.characters@.len(),
                forall|k: int|
                    0 <= k < i ==> *(#[trigger] table@[k])
                        == self.characters@[self.memory.name0@[k] as int],
            decreases NAME_LENGTH - i,
        {
            let sprites_index = self.memory.name0[i] as usize;
            if sprites_index >= self.characters.len() {
                assert(self.vram()[NAME0_START + i] == self.memory.name0@[i as int]);
                return Err(AccessError::Unmapped);
            }
            table[i] = &self.characters[sprites_index];
            i += 1;
        }
        proof {
            assert forall|k: int| 0 <= k < NAME_LENGTH implies (#[trigger] self.vram()[NAME0_START
                + k]) < self.characters().len() by {
                assert(self.vram()[NAME0_START + k] == self.memory.name0@[k]);
                assert(*table@[k] == self.characters@[self.memory.name0@[k] as int]);
            }
        }
        let canvas = Display::draw(table);
        proof {
            let from_table = |i: int| *table@[i];
            let from_names = |i: int| old(self).shown(i);
            assert forall|p: (u32, u32)| p.0 < DISPLAY_WIDTH && p.1 < DISPLAY_HEIGHT implies tiled(
                from_table,
                NAME_LENGTH as int,
            )[p] == tiled(from_names, NAME_LENGTH as int)[p] by {
                let k = crate::display::cell_of(p);
                assert(0 <= k < NAME_LENGTH);
                assert(self.vram()[NAME0_START + k] == self.memory.name0@[k]);
                assert(*table@[k] == self.characters@[self.memory.name0@[k] as int]);
            }
            assert(tiled(from_table, NAME_LENGTH as int) =~= tiled(from_names, NAME_LENGTH as int));
        }
        self.frame = self.frame.wrapping_add(1);
        Ok(canvas)
    }
}

/// Draining a buffer leaves graphics memory as long as it was.
pub proof fn lemma_drained_len(mem: Seq<u8>, writes: Seq<(u16, u8)>)
    requires
        mem.len() == MEMORY_END,
        all_mapped(writes),
    ensures
        drained(mem, writes).len() == mem.len(),
    decreases writes.len(),
{
    if writes.len() > 0 {
        let front = writes.drop_last();
        assert forall|i: int| 0 <= i < front.len() implies (#[trigger] front[i]).0 < MEMORY_END by {
            assert(front[i] == writes[i]);
        }
        lemma_drained_len(mem, front);
        assert(writes.last() == writes[writes.len() - 1]);
    }
}

/// After a buffer was drained, an address for which it held a write reads
/// as the last such write says, and every other address reads as before.
pub proof fn lemma_drained_reads(mem: Seq<u8>, writes: Seq<(u16, u8)>, a: u16)
    requires
        mem.len() == MEMORY_END,
        all_mapped(writes),
        a < MEMORY_END,
    ensures
        (forall|i: int| 0 <= i < writes.len() ==> (#[trigger] writes[i]).0 != a) ==> drained(
            mem,
            writes,
        )[a as int] == mem[a as int],
        forall|i: int|
            0 <= i < writes.len() && (#[trigger] writes[i]).0 == a && (forall|j: int|
                i < j < writes.len() ==> (#[trigger] writes[j]).0 != a) ==> drained(
                mem,
                writes,
            )[a as int] == writes[i].1,
    decreases writes.len(),
{
    if writes.len() > 0 {
        let front = writes.drop_last();
        assert forall|i: int| 0 <= i < front.len() implies (#[trigger] front[i]).0 < MEMORY_END by {
            assert(front[i] == writes[i]);
        }
        assert(writes.last() == writes[writes.len() - 1]);
        lemma_drained_len(mem, front);
        lemma_drained_reads(mem, front, a);
        assert forall|i: int|
            0 <= i < writes.len() && (#[trigger] writes[i]).0 == a && (forall|j: int|
                i < j < writes.len() ==> (#[trigger] writes[j]).0 != a) implies drained(
            mem,
            writes,
        )[a as int] == writes[i].1 by {
            if i < writes.len() - 1 {
                assert(writes.last().0 != a);
                assert(front[i] == writes[i]);
                assert forall|j: int| i < j < front.len() implies (#[trigger] front[j]).0 != a by {
                    assert(front[j] == writes[j]);
                }
            }
        }
        if forall|i: int| 0 <= i < writes.len() ==> (#[trigger] writes[i]).0 != a {
            assert(writes.last().0 != a);
            assert forall|i: int| 0 <= i < front.len() implies (#[trigger] front[i]).0 != a by {
                assert(front[i] == writes[i]);
            }
        }
    }
}

} // verus!
