//! Graphics memory: fourteen regions below 0x4000.

use crate::error::AccessError;
use vstd::prelude::*;

verus! {

/// The number of entries of one name table.
pub const NAME_LENGTH: usize = 0x03c0;

/// The address after the last one of graphics memory.
pub const MEMORY_END: u16 = 0x4000;

/// The fourteen regions of graphics memory. Each has a buffer of its own,
/// indexed from the region's first address.
#[derive(Clone, Copy, PartialEq, Eq, Debug, Structural)]
pub enum Region {
    /// Pattern table 0.
    Pattern0,
    /// Pattern table 1.
    Pattern1,
    /// Name table 0.
    Name0,
    /// Attribute table 0.
    Attribute0,
    /// Name table 1.
    Name1,
    /// Attribute table 1.
    Attribute1,
    /// Name table 2.
    Name2,
    /// Attribute table 2.
    Attribute2,
    /// Name table 3.
    Name3,
    /// Attribute table 3.
    Attribute3,
    /// The range kept for mirrors of the name and attribute tables.
    NameAttributeMirror,
    /// The background palette.
    Background,
    /// The sprite palette.
    Sprite,
    /// The range kept for mirrors of the two palettes.
    BgSpriteMirror,
}

impl Region {
    /// The first address of the region.
    pub open spec fn start(self) -> int {
        match self {
            Region::Pattern0 => 0x0000,
            Region::Pattern1 => 0x1000,
            Region::Name0 => 0x2000,
            Region::Attribute0 => 0x23c0,
            Region::Name1 => 0x2400,
            Region::Attribute1 => 0x27c0,
            Region::Name2 => 0x2800,
            Region::Attribute2 => 0x2bc0,
            Region::Name3 => 0x2c00,
            Region::Attribute3 => 0x2fc0,
            Region::NameAttributeMirror => 0x3000,
            Region::Background => 0x3f00,
            Region::Sprite => 0x3f10,
            Region::BgSpriteMirror => 0x3f20,
        }
    }

    /// The address after the last one of the region.
    pub open spec fn end(self) -> int {
        match self {
            Region::Pattern0 => 0x1000,
            Region::Pattern1 => 0x2000,
            Region::Name0 => 0x23c0,
            Region::Attribute0 => 0x2400,
            Region::Name1 => 0x27c0,
            Region::Attribute1 => 0x2800,
            Region::Name2 => 0x2bc0,
            Region::Attribute2 => 0x2c00,
            Region::Name3 => 0x2fc0,
            Region::Attribute3 => 0x3000,
            Region::NameAttributeMirror => 0x3f00,
            Region::Background => 0x3f10,
            Region::Sprite => 0x3f20,
            Region::BgSpriteMirror => 0x4000,
        }
    }

    /// Whether address `a` lies in the region.
    pub open spec fn contains(self, a: int) -> bool {
        self.start() <= a < self.end()
    }

    /// The region in which `p` lies, if it lies in graphics memory at all.
    pub open spec fn spec_of(p: u16) -> Option<Region> {
        if p < 0x1000 {
            Some(Region::Pattern0)
        } else if p < 0x2000 {
            Some(Region::Pattern1)
        } else if p < 0x23c0 {
            Some(Region::Name0)
        } else if p < 0x2400 {
            Some(Region::Attribute0)
        } else if p < 0x27c0 {
            Some(Region::Name1)
        } else if p < 0x2800 {
            Some(Region::Attribute1)
        } else if p < 0x2bc0 {
            Some(Region::Name2)
        } else if p < 0x2c00 {
            Some(Region::Attribute2)
        } else if p < 0x2fc0 {
            Some(Region::Name3)
        } else if p < 0x3000 {
            Some(Region::Attribute3)
        } else if p < 0x3f00 {
            Some(Region::NameAttributeMirror)
        } else if p < 0x3f10 {
            Some(Region::Background)
        } else if p < 0x3f20 {
            Some(Region::Sprite)
        } else if p < 0x4000 {
            Some(Region::BgSpriteMirror)
        } else {
            None
        }
    }

    /// The region in which `p` lies, if it lies in graphics memory at all.
    #[verifier::when_used_as_spec(spec_of)]
    pub fn of(p: u16) -> (r: Option<Region>)
        ensures
            r == Region::spec_of(p),
            r is Some <==> p < MEMORY_END,
            r is Some ==> r->Some_0.contains(p as int),
        no_unwind
    {
        if p < 0x1000 {
            Some(Region::Pattern0)
        } else if p < 0x2000 {
            Some(Region::Pattern1)
        } else if p < 0x23c0 {
            Some(Region::Name0)
        } else if p < 0x2400 {
            Some(Region::Attribute0)
        } else if p < 0x27c0 {
            Some(Region::Name1)
        } else if p < 0x2800 {
            Some(Region::Attribute1)
        } else if p < 0x2bc0 {
            Some(Region::Name2)
        } else if p < 0x2c00 {
            Some(Region::Attribute2)
        } else if p < 0x2fc0 {
            Some(Region::Name3)
        } else if p < 0x3000 {
            Some(Region::Attribute3)
        } else if p < 0x3f00 {
            Some(Region::NameAttributeMirror)
        } else if p < 0x3f10 {
            Some(Region::Background)
        } else if p < 0x3f20 {
            Some(Region::Sprite)
        } else if p < 0x4000 {
            Some(Region::BgSpriteMirror)
        } else {
            None
        }
    }
}

/// What reading address `p` of graphics memory `mem` gives.
pub open spec fn read_at(mem: Seq<u8>, p: u16) -> Result<u8, AccessError> {
    if p < MEMORY_END {
        Ok(mem[p as int])
    } else {
        Err(AccessError::Unmapped)
    }
}

/// Graphics memory `mem` after `data` was written to address `p`.
pub open spec fn written_at(mem: Seq<u8>, p: u16, data: u8) -> Result<Seq<u8>, AccessError> {
    if p < MEMORY_END {
        Ok(mem.update(p as int, data))
    } else {
        Err(AccessError::Unmapped)
    }
}

/// The memory of the graphics side.
#[derive(PartialEq, Eq, Debug)]
pub struct MemoryMap {
    /// 0x0000 to 0x0fff: pattern table 0.
    pub pattern0: [u8; 0x1000],
    /// 0x1000 to 0x1fff: pattern table 1.
    pub pattern1: [u8; 0x1000],
    /// 0x2000 to 0x23bf: name table 0.
    pub name0: [u8; 0x03c0],
    /// 0x23c0 to 0x23ff: attribute table 0.
    pub attribute0: [u8; 0x0040],
    /// 0x2400 to 0x27bf: name table 1.
    pub name1: [u8; 0x03c0],
    /// 0x27c0 to 0x27ff: attribute table 1.
    pub attribute1: [u8; 0x0040],
    /// 0x2800 to 0x2bbf: name table 2.
    pub name2: [u8; 0x03c0],
    /// 0x2bc0 to 0x2bff: attribute table 2.
    pub attribute2: [u8; 0x0040],
    /// 0x2c00 to 0x2fbf: name table 3.
    pub name3: [u8; 0x03c0],
    /// 0x2fc0 to 0x2fff: attribute table 3.
    pub attribute3: [u8; 0x0040],
    /// 0x3000 to 0x3eff: the range kept for mirrors of the name and attribute tables.
    pub name_attribute_mirrow: [u8; 0x0f00],
    /// 0x3f00 to 0x3f0f: the background palette.
    pub background: [u8; 0x0010],
    /// 0x3f10 to 0x3f1f: the sprite palette.
    pub sprite: [u8; 0x0010],
    /// 0x3f20 to 0x3fff: the range kept for mirrors of the two palettes.
    pub bg_sprite_mirror: [u8; 0x00e0],
}

impl MemoryMap {
    /// The byte that the buffers hold for address `a`.
    pub open spec fn byte_at(&self, a: int) -> u8 {
        if a < 0x1000 {
            self.pattern0@[a]
        } else if a < 0x2000 {
            self.pattern1@[a - 0x1000]
        } else if a < 0x23c0 {
            self.name0@[a - 0x2000]
        } else if a < 0x2400 {
            self.attribute0@[a - 0x23c0]
        } else if a < 0x27c0 {
            self.name1@[a - 0x2400]
        } else if a < 0x2800 {
            self.attribute1@[a - 0x27c0]
        } else if a < 0x2bc0 {
            self.name2@[a - 0x2800]
        } else if a < 0x2c00 {
            self.attribute2@[a - 0x2bc0]
        } else if a < 0x2fc0 {
            self.name3@[a - 0x2c00]
        } else if a < 0x3000 {
            self.attribute3@[a - 0x2fc0]
        } else if a < 0x3f00 {
            self.name_attribute_mirrow@[a - 0x3000]
        } else if a < 0x3f10 {
            self.background@[a - 0x3f00]
        } else if a < 0x3f20 {
            self.sprite@[a - 0x3f10]
        } else {
            self.bg_sprite_mirror@[a - 0x3f20]
        }
    }
}

impl View for MemoryMap {
    type V = Seq<u8>;

    open spec fn view(&self) -> Seq<u8> {
        Seq::new(0x4000, |a: int| self.byte_at(a))
    }
}

impl MemoryMap {
    /// Graphics memory with every byte zero.
    pub fn new() -> (r: Self)
        ensures
            r@ == Seq::new(0x4000, |a: int| 0u8),
    {
        let m = MemoryMap {
            pattern0: [0u8; 0x1000],
            pattern1: [0u8; 0x1000],
            name0: [0u8; 0x03c0],
            attribute0: [0u8; 0x0040],
            name1: [0u8; 0x03c0],
            attribute1: [0u8; 0x0040],
            name2: [0u8; 0x03c0],
            attribute2: [0u8; 0x0040],
            name3: [0u8; 0x03c0],
            attribute3: [0u8; 0x0040],
            name_attribute_mirrow: [0u8; 0x0f00],
            background: [0u8; 0x0010],
            sprite: [0u8; 0x0010],
            bg_sprite_mirror: [0u8; 0x00e0],
        };
        assert(m@ =~= Seq::new(0x4000, |a: int| 0u8));
        m
    }

    /// Reads the byte at address `p`, from the buffer of the region in which
    /// `p` lies. An address from 0x4000 on lies in none.
    pub fn read(&self, p: u16) -> (r: Result<u8, AccessError>)
        ensures
            r == read_at(self@, p),
    {
        let i = p as usize;
        match Region::of(p) {
            Some(Region::Pattern0) => Ok(self.pattern0[i]),
            Some(Region::Pattern1) => Ok(self.pattern1[i - 0x1000]),
            Some(Region::Name0) => Ok(self.name0[i - 0x2000]),
            Some(Region::Attribute0) => Ok(self.attribute0[i - 0x23c0]),
            Some(Region::Name1) => Ok(self.name1[i - 0x2400]),
            Some(Region::Attribute1) => Ok(self.attribute1[i - 0x27c0]),
            Some(Region::Name2) => Ok(self.name2[i - 0x2800]),
            Some(Region::Attribute2) => Ok(self.attribute2[i - 0x2bc0]),
            Some(Region::Name3) => Ok(self.name3[i - 0x2c00]),
            Some(Region::Attribute3) => Ok(self.attribute3[i - 0x2fc0]),
            Some(Region::NameAttributeMirror) => Ok(self.name_attribute_mirrow[i - 0x3000]),
            Some(Region::Background) => Ok(self.background[i - 0x3f00]),
            Some(Region::Sprite) => Ok(self.sprite[i - 0x3f10]),
            Some(Region::BgSpriteMirror) => Ok(self.bg_sprite_mirror[i - 0x3f20]),
            None => Err(AccessError::Unmapped),
        }
    }

    /// Writes `data` to address `p`. An address from 0x4000 on lies in no
    /// region; then nothing changes.
    pub fn write(&mut self, p: u16, data: u8) -> (r: Result<(), AccessError>)
        ensures
            match written_at(old(self)@, p, data) {
                Ok(mem) => r is Ok && final(self)@ == mem,
                Err(e) => r == Err::<(), AccessError>(e) && final(self)@ == old(self)@,
            },
        no_unwind
    {
        let i = p as usize;
        match Region::of(p) {
            Some(Region::Pattern0) => {
                self.pattern0[i] = data;
            },
            Some(Region::Pattern1) => {
                self.pattern1[i - 0x1000] = data;
            },
            Some(Region::Name0) => {
                self.name0[i - 0x2000] = data;
            },
            Some(Region::Attribute0) => {
                self.attribute0[i - 0x23c0] = data;
            },
            Some(Region::Name1) => {
                self.name1[i - 0x2400] = data;
            },
            Some(Region::Attribute1) => {
                self.attribute1[i - 0x27c0] = data;
            },
            Some(Region::Name2) => {
                self.name2[i - 0x2800] = data;
            },
            Some(Region::Attribute2) => {
                self.attribute2[i - 0x2bc0] = data;
            },
            Some(Region::Name3) => {
                self.name3[i - 0x2c00] = data;
            },
            Some(Region::Attribute3) => {
                self.attribute3[i - 0x2fc0] = data;
            },
            Some(Region::NameAttributeMirror) => {
                self.name_attribute_mirrow[i - 0x3000] = data;
            },
            Some(Region::Background) => {
                self.background[i - 0x3f00] = data;
            },
            Some(Region::Sprite) => {
                self.sprite[i - 0x3f10] = data;
            },
            Some(Region::BgSpriteMirror) => {
                self.bg_sprite_mirror[i - 0x3f20] = data;
            },
            None => {
                return Err(AccessError::Unmapped);
            },
        }
        assert(self@ =~= old(self)@.update(p as int, data));
        Ok(())
    }
}

/// Every address below 0x4000 lies in exactly one region of graphics memory,
/// and an address from 0x4000 on lies in none.
pub proof fn lemma_total_coverage(a: u16)
    ensures
        a < MEMORY_END ==> Region::of(a) is Some && Region::of(a)->Some_0.contains(a as int),
        a < MEMORY_END ==> forall|r: Region| r.contains(a as int) ==> Region::of(a) == Some(r),
        a >= MEMORY_END ==> forall|r: Region| !r.contains(a as int),
{
}

/// A byte written below 0x4000 is the byte read back from that address, and
/// no other address reads differently than before.
pub proof fn lemma_read_after_write(mem: Seq<u8>, a: u16, d: u8, b: u16)
    requires
        mem.len() == 0x4000,
        a < MEMORY_END,
    ensures
        written_at(mem, a, d) is Ok,
        read_at(written_at(mem, a, d)->Ok_0, a) == Ok::<u8, AccessError>(d),
        b != a ==> read_at(written_at(mem, a, d)->Ok_0, b) == read_at(mem, b),
{
}

} // verus!
