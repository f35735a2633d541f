//! The processor bus: sixteen bits of address, cut into eight regions.

use crate::binary::DisplayBinary;
use crate::error::AccessError;
use crate::ppu::io_register::{IORegister, Ports, OAMDATA_INDEX, PPUDATA_INDEX};
use vstd::prelude::*;

verus! {

/// The eight regions of the bus. Each has a buffer of its own, indexed from
/// the region's first address; the graphics registers are ports, not bytes.
#[derive(Clone, Copy, PartialEq, Eq, Debug, Structural)]
pub enum Region {
    /// Work RAM, which also holds the stack.
    Wram,
    /// The range kept for mirrors of work RAM.
    WramMirror,
    /// The eight graphics registers.
    PpuRegister,
    /// The range kept for mirrors of the graphics registers.
    PpuMirror,
    /// The audio registers.
    Apu,
    /// Cartridge expansion ROM.
    Rom,
    /// Cartridge RAM.
    Ram,
    /// Cartridge program ROM.
    PrgRom,
}

impl Region {
    /// The first address of the region.
    pub open spec fn start(self) -> int {
        match self {
            Region::Wram => 0x0000,
            Region::WramMirror => 0x0800,
            Region::PpuRegister => 0x2000,
            Region::PpuMirror => 0x2008,
            Region::Apu => 0x4000,
            Region::Rom => 0x4020,
            Region::Ram => 0x6000,
            Region::PrgRom => 0x8000,
        }
    }

    /// The address after the last one of the region.
    pub open spec fn end(self) -> int {
        match self {
            Region::Wram => 0x0800,
            Region::WramMirror => 0x2000,
            Region::PpuRegister => 0x2008,
            Region::PpuMirror => 0x4000,
            Region::Apu => 0x4020,
            Region::Rom => 0x6000,
            Region::Ram => 0x8000,
            Region::PrgRom => 0x1_0000,
        }
    }

    /// Whether address `a` lies in the region.
    pub open spec fn contains(self, a: int) -> bool {
        self.start() <= a < self.end()
    }

    /// Whether the region is ROM, which refuses every write.
    pub open spec fn is_rom(self) -> bool {
        self is Rom || self is PrgRom
    }

    /// The region in which `p` lies.
    pub open spec fn spec_of(p: u16) -> Region {
        if p < 0x0800 {
            Region::Wram
        } else if p < 0x2000 {
            Region::WramMirror
        } else if p < 0x2008 {
            Region::PpuRegister
        } else if p < 0x4000 {
            Region::PpuMirror
        } else if p < 0x4020 {
            Region::Apu
        } else if p < 0x6000 {
            Region::Rom
        } else if p < 0x8000 {
            Region::Ram
        } else {
            Region::PrgRom
        }
    }

    /// The region in which `p` lies. Every address lies in one.
    #[verifier::when_used_as_spec(spec_of)]
    pub fn of(p: u16) -> (r: Region)
        ensures
            r == Region::spec_of(p),
            r.contains(p as int),
    {
        if p < 0x0800 {
            Region::Wram
        } else if p < 0x2000 {
            Region::WramMirror
        } else if p < 0x2008 {
            Region::PpuRegister
        } else if p < 0x4000 {
            Region::PpuMirror
        } else if p < 0x4020 {
            Region::Apu
        } else if p < 0x6000 {
            Region::Rom
        } else if p < 0x8000 {
            Region::Ram
        } else {
            Region::PrgRom
        }
    }
}

/// The bus as values: a byte for every address, and the graphics ports.
/// The eight bytes at the addresses of the ports are not used and stay zero.
pub struct Bus {
    pub mem: Seq<u8>,
    pub ppu: Ports,
}

impl Bus {
    /// What reading address `p` gives.
    pub open spec fn read(self, p: u16) -> Result<u8, AccessError> {
        if Region::of(p) is PpuRegister {
            self.ppu.read(p)
        } else {
            Ok(self.mem[p as int])
        }
    }

    /// The bus after `data` was written to address `p`.
    pub open spec fn write(self, p: u16, data: u8) -> Result<Bus, AccessError> {
        if Region::of(p) is PpuRegister {
            match self.ppu.write(p, data) {
                Ok(ports) => Ok(Bus { ppu: ports, ..self }),
                Err(e) => Err(e),
            }
        } else if Region::of(p).is_rom() {
            Err(AccessError::ReadOnly)
        } else {
            Ok(Bus { mem: self.mem.update(p as int, data), ..self })
        }
    }
}

/// The memory that the processor sees.
#[derive(PartialEq, Eq, Debug)]
pub struct MemoryMap {
    /// Work RAM. The stack is its second page, 0x0100 to 0x01FF.
    pub wram: [u8; 0x0800],
    pub wram_mirror: [u8; 0x1800],
    pub ppu: IORegister,
    pub ppu_mirror: [u8; 0x1ff8],
    pub apu: [u8; 0x0020],
    pub rom: [u8; 0x1fe0],
    pub ram: [u8; 0x2000],
    pub prg_rom: [u8; 0x8000],
}

impl MemoryMap {
    /// The byte that the buffers hold for address `a`.
    pub open spec fn byte_at(&self, a: int) -> u8 {
        if a < 0x0800 {
            self.wram@[a]
        } else if a < 0x2000 {
            self.wram_mirror@[a - 0x0800]
        } else if a < 0x2008 {
            0
        } else if a < 0x4000 {
            self.ppu_mirror@[a - 0x2008]
        } else if a < 0x4020 {
            self.apu@[a - 0x4000]
        } else if a < 0x6000 {
            self.rom@[a - 0x4020]
        } else if a < 0x8000 {
            self.ram@[a - 0x6000]
        } else {
            self.prg_rom@[a - 0x8000]
        }
    }
}

impl View for MemoryMap {
    type V = Bus;

    open spec fn view(&self) -> Bus {
        Bus { mem: Seq::new(0x1_0000, |a: int| self.byte_at(a)), ppu: self.ppu@ }
    }
}

/// The bytes of a bus whose program ROM starts with `program` and which is
/// zero everywhere else.
pub open spec fn loaded(program: Seq<u8>) -> Seq<u8> {
    Seq::new(
        0x1_0000,
        |a: int|
            if 0x8000 <= a < 0x8000 + program.len() {
                program[a - 0x8000]
            } else {
                0u8
            },
    )
}

impl MemoryMap {
    /// A bus with `program` at the start of program ROM, every other byte
    /// zero and the graphics ports at rest. The program has to fit into the
    /// 32768 bytes of program ROM.
    pub fn new(program: Vec<u8>) -> (r: Self)
        requires
            program@.len() <= 0x8000,
        ensures
            r@.mem == loaded(program@),
            r@.ppu == Ports::initial(),
    {
        let mut prg_rom = [0u8; 0x8000];
        let mut i: usize = 0;
        while i < program.len()
            invariant
                i <= program@.len() <= 0x8000,
                forall|k: int| 0 <= k < i ==> prg_rom@[k] == program@[k],
                forall|k: int| i <= k < 0x8000 ==> prg_rom@[k] == 0,
            decreases program@.len() - i,
        {
            prg_rom[i] = program[i];
            i += 1;
        }
        let m = MemoryMap {
            wram: [0u8; 0x0800],
            wram_mirror: [0u8; 0x1800],
            ppu: IORegister::default(),
            ppu_mirror: [0u8; 0x1ff8],
            apu: [0u8; 0x0020],
            rom: [0u8; 0x1fe0],
            ram: [0u8; 0x2000],
            prg_rom,
        };
        assert(m@.mem =~= loaded(program@));
        m
    }

    /// The stack from the place at which `sp` points up to its last byte,
    /// to be shown. `sp` has to point into the first two pages.
    pub fn stack<'b>(&'b self, sp: u16) -> (r: DisplayBinary<'b>)
        requires
            sp <= 0x0200,
        ensures
            r.0@ == self.wram@.subrange(sp as int, 0x0200),
    {
        DisplayBinary(&self.wram[(sp as usize)..0x0200])
    }

    /// Work RAM, to be shown.
    pub fn wram<'b>(&'b self) -> (r: DisplayBinary<'b>)
        ensures
            r.0@ == self.wram@,
    {
        DisplayBinary(&self.wram)
    }

    /// Reads the byte at address `p`: from the buffer of the region in which
    /// `p` lies, or from the graphics port at `p`.
    pub fn read(&self, p: u16) -> (r: Result<u8, AccessError>)
        ensures
            r == self@.read(p),
    {
        let i = p as usize;
        match Region::of(p) {
            Region::Wram => Ok(self.wram[i]),
            Region::WramMirror => Ok(self.wram_mirror[i - 0x0800]),
            Region::PpuRegister => self.ppu.read(p),
            Region::PpuMirror => Ok(self.ppu_mirror[i - 0x2008]),
            Region::Apu => Ok(self.apu[i - 0x4000]),
            Region::Rom => Ok(self.rom[i - 0x4020]),
            Region::Ram => Ok(self.ram[i - 0x6000]),
            Region::PrgRom => Ok(self.prg_rom[i - 0x8000]),
        }
    }

    /// Writes `data` to address `p`. The two ROM regions refuse every write,
    /// and a graphics port may refuse; then nothing changes.
    pub fn write(&mut self, p: u16, data: u8) -> (r: Result<(), AccessError>)
        ensures
            match old(self)@.write(p, data) {
                Ok(bus) => r is Ok && final(self)@ == bus,
                Err(e) => r == Err::<(), AccessError>(e) && final(self)@ == old(self)@,
            },
    {
        let i = p as usize;
        match Region::of(p) {
            Region::Wram => {
                self.wram[i] = data;
            },
            Region::WramMirror => {
                self.wram_mirror[i - 0x0800] = data;
            },
            Region::PpuRegister => {
                let r = self.ppu.write(p, data);
                assert(self@.mem =~= old(self)@.mem);
                return r;
            },
            Region::PpuMirror => {
                self.ppu_mirror[i - 0x2008] = data;
            },
            Region::Apu => {
                self.apu[i - 0x4000] = data;
            },
            Region::Rom => {
                return Err(AccessError::ReadOnly);
            },
            Region::Ram => {
                self.ram[i - 0x6000] = data;
            },
            Region::PrgRom => {
                return Err(AccessError::ReadOnly);
            },
        }
        assert(self@.mem =~= old(self)@.mem.update(p as int, data));
        Ok(())
    }
}

/// Every address lies in exactly one region of the bus.
pub proof fn lemma_total_coverage(a: u16)
    ensures
        Region::of(a).contains(a as int),
        forall|r: Region| r.contains(a as int) ==> r == Region::of(a),
{
}

/// A byte written outside ROM is the byte read back from that address, and
/// no other address reads differently than before. Six of the graphics ports
/// can be written or read but not both: of the ports only the two that go
/// both ways are meant.
pub proof fn lemma_read_after_write(bus: Bus, a: u16, d: u8, b: u16)
    requires
        bus.mem.len() == 0x1_0000,
        !Region::of(a).is_rom(),
        Region::of(a) is PpuRegister ==> a == OAMDATA_INDEX || a == PPUDATA_INDEX,
    ensures
        bus.write(a, d) is Ok,
        bus.write(a, d)->Ok_0.read(a) == Ok::<u8, AccessError>(d),
        b != a ==> bus.write(a, d)->Ok_0.read(b) == bus.read(b),
{
}

/// A write to ROM is refused.
pub proof fn lemma_rom_is_write_protected(bus: Bus, a: u16, d: u8)
    requires
        Region::of(a).is_rom(),
    ensures
        bus.write(a, d) == Err::<Bus, AccessError>(AccessError::ReadOnly),
{
}

} // verus!
