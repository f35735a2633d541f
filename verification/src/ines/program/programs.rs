//! A whole program ROM, decoded instruction after instruction.

use super::order_set::{order_set_of, OrderSets};
use super::program::{instruction_fits, program_at, Program};
use crate::error::AccessError;
use vstd::prelude::*;

verus! {

/// The instructions of a program ROM in the order in which they stand.
#[derive(PartialEq, Eq, Debug)]
pub struct Programs(pub Vec<Program>);

/// Whether `rom` can be listed from `point` on: no instruction from there on
/// is cut off by the end of the ROM.
pub open spec fn listable_from(rom: Seq<u8>, point: int) -> bool
    decreases rom.len() - point,
{
    if 0 <= point < rom.len() {
        instruction_fits(rom, point) && listable_from(
            rom,
            point + order_set_of(rom[point]).length,
        )
    } else {
        true
    }
}

/// The instructions of `rom` from `point` on, each one starting where the one
/// before it ends, as far as whole instructions stand there.
pub open spec fn listing_from(rom: Seq<u8>, point: int) -> Seq<Program>
    decreases rom.len() - point,
{
    if instruction_fits(rom, point) {
        seq![program_at(rom, point)] + listing_from(rom, point + order_set_of(rom[point]).length)
    } else {
        Seq::empty()
    }
}

impl Programs {
    /// Lists the instructions of a program ROM from its first byte on.
    ///
    /// An instruction records its place in sixteen bits, so a ROM of more
    /// than 65536 bytes is refused, as is one whose last instruction is cut
    /// off.
    pub fn parse(table: &OrderSets, raw: &Vec<u8>) -> (r: Result<Programs, AccessError>)
        ensures
            raw@.len() <= 0x1_0000 && listable_from(raw@, 0) ==> r is Ok && r->Ok_0.0@
                == listing_from(raw@, 0),
            !(raw@.len() <= 0x1_0000 && listable_from(raw@, 0)) ==> r == Err::<
                Programs,
                AccessError,
            >(AccessError::Unmapped),
    {
        if raw.len() > 0x1_0000 {
            return Err(AccessError::Unmapped);
        }
        let mut programs: Vec<Program> = Vec::new();
        let mut point: usize = 0;
        let rom = raw.as_slice();
        while point < rom.len()
            invariant
                rom@ == raw@,
                rom@.len() <= 0x1_0000,
                point <= rom@.len(),
                listable_from(rom@, 0) == listable_from(rom@, point as int),
                programs@ + listing_from(rom@, point as int) == listing_from(rom@, 0),
            decreases rom@.len() - point,
        {
            proof {
                super::order_set::lemma_length_follows_mode(rom@[point as int]);
            }
            match Program::parse(table, rom, point as u16) {
                Ok(program) => {
                    proof {
                        let rest = listing_from(rom@, point + program.orderset.length);
                        assert(programs@.push(program) + rest == programs@ + (seq![program]
                            + rest));
                    }
                    point += program.orderset.length;
                    programs.push(program);
                },
                Err(e) => {
                    return Err(e);
                },
            }
        }
        Ok(Programs(programs))
    }
}

/// The first `count` instructions of a list as text, a line each.
pub open spec fn lines(list: Seq<Program>, count: int) -> Seq<char>
    decreases count,
{
    if count <= 0 {
        Seq::empty()
    } else {
        lines(list, count - 1) + list[count - 1].text() + "\n"@
    }
}

impl Programs {
    /// The listing: each instruction and a line feed.
    pub open spec fn text(&self) -> Seq<char> {
        lines(self.0@, self.0@.len() as int)
    }

    /// The listing as text, a line for each instruction.
    pub fn to_string(&self) -> (r: String)
        ensures
            r@ == self.text(),
    {
        let mut s = String::new();
        let mut i: usize = 0;
        assert(s@ =~= lines(self.0@, 0));
        while i < self.0.len()
            invariant
                i <= self.0@.len(),
                s@ == lines(self.0@, i as int),
            decreases self.0@.len() - i,
        {
            let line = self.0[i].to_string();
            s.push_str(line.as_str());
            s.push_str("\n");
            i += 1;
        }
        s
    }
}

} // verus!
