//! The graphics registers as the processor sees them on its bus.
//!
//! The processor cannot reach graphics memory. It writes an address into the
//! address latch and bytes into the data port; each such byte is kept, with
//! the address it is meant for, until the graphics side takes the buffer
//! over.

use crate::binary::util::{high_byte, low_byte, word};
use crate::binary::{u16_to_u8u8, u8u8_to_u16};
use crate::error::AccessError;
use crate::ines::program::addressing::wrap16;
use crate::binary::text::{hex, number, push_hex, push_number};
use vstd::prelude::*;

verus! {

pub const PPUCTRL_INDEX: u16 = 0x2000;

pub const PPUMASK_INDEX: u16 = 0x2001;

pub const PPUSTATUS_INDEX: u16 = 0x2002;

pub const OAMADDR_INDEX: u16 = 0x2003;

pub const OAMDATA_INDEX: u16 = 0x2004;

pub const PPUSCROLL_INDEX: u16 = 0x2005;

pub const PPUADDR_INDEX: u16 = 0x2006;

pub const PPUDATA_INDEX: u16 = 0x2007;

/// The address latch: the last two bytes written to it, the earlier one
/// first. Together they are the address in graphics memory, high byte first.
pub type PPUADDRRegister = (u8, u8);

/// The data port.
#[derive(PartialEq, Eq, Debug)]
pub struct PPUDATARegister {
    /// The writes that graphics memory has not seen yet, oldest first: the
    /// address that was latched at the time, and the byte.
    pub cached: Vec<(u16, u8)>,
    /// The byte that was written last.
    pub data: u8,
}

impl PPUDATARegister {
    /// Empties the buffer of pending writes.
    pub fn clear(&mut self)
        ensures
            final(self).cached@ == Seq::<(u16, u8)>::empty(),
            final(self).data == old(self).data,
    {
        self.cached = Vec::new();
    }
}

impl Default for PPUDATARegister {
    fn default() -> (r: Self)
        ensures
            r.cached@ == Seq::<(u16, u8)>::empty(),
            r.data == 0,
    {
        PPUDATARegister { cached: Vec::new(), data: 0 }
    }
}

/// The eight ports.
#[allow(non_snake_case)]
#[derive(PartialEq, Eq, Debug)]
pub struct IORegister {
    /// Control, write only.
    pub PPUCTRL: u8,
    /// Mask, write only.
    pub PPUMASK: u8,
    /// Status, read only.
    pub PPUSTATUS: u8,
    /// Sprite memory address, write only.
    pub OAMADDR: u8,
    /// Sprite memory data, read and write.
    pub OAMDATA: u8,
    /// Scroll offset, write only.
    pub PPUSCROLL: u8,
    /// The address latch, write only.
    pub PPUADDR: PPUADDRRegister,
    /// The data port, read and write.
    pub PPUDATA: PPUDATARegister,
}

/// The ports as values: what `IORegister` holds, with the buffer as a
/// sequence.
pub struct Ports {
    pub ctrl: u8,
    pub mask: u8,
    pub status: u8,
    pub oam_addr: u8,
    pub oam_data: u8,
    pub scroll: u8,
    pub addr: (u8, u8),
    pub data: u8,
    pub cached: Seq<(u16, u8)>,
}

impl Ports {
    /// All ports zero and nothing pending.
    pub open spec fn initial() -> Ports {
        Ports {
            ctrl: 0,
            mask: 0,
            status: 0,
            oam_addr: 0,
            oam_data: 0,
            scroll: 0,
            addr: (0, 0),
            data: 0,
            cached: Seq::empty(),
        }
    }

    /// The address in graphics memory that the latch holds.
    pub open spec fn latched(self) -> u16 {
        word(self.addr.0, self.addr.1)
    }

    /// What reading port `i` gives.
    pub open spec fn read(self, i: u16) -> Result<u8, AccessError> {
        if i == PPUSTATUS_INDEX {
            Ok(self.status)
        } else if i == OAMDATA_INDEX {
            Ok(self.oam_data)
        } else if i == PPUDATA_INDEX {
            Ok(self.data)
        } else if PPUCTRL_INDEX <= i <= PPUDATA_INDEX {
            Err(AccessError::WriteOnly)
        } else {
            Err(AccessError::Unmapped)
        }
    }

    /// The ports after `d` was written to port `i`.
    pub open spec fn write(self, i: u16, d: u8) -> Result<Ports, AccessError> {
        if i == PPUCTRL_INDEX {
            Ok(Ports { ctrl: d, ..self })
        } else if i == PPUMASK_INDEX {
            Ok(Ports { mask: d, ..self })
        } else if i == PPUSTATUS_INDEX {
            Err(AccessError::ReadOnly)
        } else if i == OAMADDR_INDEX {
            Ok(Ports { oam_addr: d, ..self })
        } else if i == OAMDATA_INDEX {
            Ok(Ports { oam_data: d, ..self })
        } else if i == PPUSCROLL_INDEX {
            Ok(Ports { scroll: d, ..self })
        } else if i == PPUADDR_INDEX {
            Ok(Ports { addr: (self.addr.1, d), ..self })
        } else if i == PPUDATA_INDEX {
            Ok(self.write_datum(d))
        } else {
            Err(AccessError::Unmapped)
        }
    }

    /// The ports after `d` was written to the data port: the latched
    /// address and `d` are appended to the buffer, `d` is the port's value,
    /// and the latched address is one further, counting in sixteen bits.
    pub open spec fn write_datum(self, d: u8) -> Ports {
        Ports {
            cached: self.cached.push((self.latched(), d)),
            data: d,
            addr: (
                high_byte(wrap16(self.latched() + 1)),
                low_byte(wrap16(self.latched() + 1)),
            ),
            ..self
        }
    }

    /// The ports after the bytes of `data` were written to the data port one
    /// after the other.
    pub open spec fn write_data(self, data: Seq<u8>) -> Ports
        decreases data.len(),
    {
        if data.len() == 0 {
            self
        } else {
            self.write_data(data.drop_last()).write_datum(data.last())
        }
    }
}

impl View for IORegister {
    type V = Ports;

    open spec fn view(&self) -> Ports {
        Ports {
            ctrl: self.PPUCTRL,
            mask: self.PPUMASK,
            status: self.PPUSTATUS,
            oam_addr: self.OAMADDR,
            oam_data: self.OAMDATA,
            scroll: self.PPUSCROLL,
            addr: self.PPUADDR,
            data: self.PPUDATA.data,
            cached: self.PPUDATA.cached@,
        }
    }
}

impl Default for IORegister {
    fn default() -> (r: Self)
        ensures
            r@ == Ports::initial(),
    {
        IORegister {
            PPUCTRL: 0,
            PPUMASK: 0,
            PPUSTATUS: 0,
            OAMADDR: 0,
            OAMDATA: 0,
            PPUSCROLL: 0,
            PPUADDR: (0, 0),
            PPUDATA: PPUDATARegister::default(),
        }
    }
}

impl IORegister {
    /// Reads the port at bus address `i`. A port that can only be written
    /// refuses; so does an address that is none of the eight.
    pub fn read(&self, i: u16) -> (r: Result<u8, AccessError>)
        ensures
            r == self@.read(i),
    {
        match i {
            PPUCTRL_INDEX => Err(AccessError::WriteOnly),
            PPUMASK_INDEX => Err(AccessError::WriteOnly),
            PPUSTATUS_INDEX => Ok(self.PPUSTATUS),
            OAMADDR_INDEX => Err(AccessError::WriteOnly),
            OAMDATA_INDEX => Ok(self.OAMDATA),
            PPUSCROLL_INDEX => Err(AccessError::WriteOnly),
            PPUADDR_INDEX => Err(AccessError::WriteOnly),
            PPUDATA_INDEX => Ok(self.PPUDATA.data),
            _ => Err(AccessError::Unmapped),
        }
    }

    /// Writes `d` to the port at bus address `i`.
    ///
    /// A write to the address latch moves the byte written before it up and
    /// takes `d` as the new low byte. A write to the data port appends the
    /// latched address and `d` to the buffer, keeps `d` as the port's value
    /// and moves the latched address on by one. When the write is refused
    /// nothing changes.
    pub fn write(&mut self, i: u16, d: u8) -> (r: Result<(), AccessError>)
        ensures
            match old(self)@.write(i, d) {
                Ok(ports) => r is Ok && final(self)@ == ports,
                Err(e) => r == Err::<(), AccessError>(e) && final(self)@ == old(self)@,
            },
    {
        match i {
            PPUCTRL_INDEX => {
                self.PPUCTRL = d;
            },
            PPUMASK_INDEX => {
                self.PPUMASK = d;
            },
            PPUSTATUS_INDEX => {
                return Err(AccessError::ReadOnly);
            },
            OAMADDR_INDEX => {
                self.OAMADDR = d;
            },
            OAMDATA_INDEX => {
                self.OAMDATA = d;
            },
            PPUSCROLL_INDEX => {
                self.PPUSCROLL = d;
            },
            PPUADDR_INDEX => {
                let (_, lower) = self.PPUADDR;
                self.PPUADDR = (lower, d);
            },
            PPUDATA_INDEX => {
                let (upper, lower) = self.PPUADDR;
                let addr = u8u8_to_u16(upper, lower);
                self.PPUDATA.cached.push((addr, d));
                self.PPUDATA.data = d;
                self.PPUADDR = u16_to_u8u8(addr.wrapping_add(1));
            },
            _ => {
                return Err(AccessError::Unmapped);
            },
        }
        Ok(())
    }
}

/// One write to the data port queues the byte for the latched address and
/// moves the latch on by one.
pub proof fn lemma_data_write(ports: Ports, d: u8)
    ensures
        ports.write(PPUDATA_INDEX, d) == Ok::<Ports, AccessError>(ports.write_datum(d)),
        ports.write_datum(d).cached == ports.cached.push((ports.latched(), d)),
        ports.write_datum(d).data == d,
        ports.write_datum(d).latched() == wrap16(ports.latched() + 1),
{
    crate::binary::util::lemma_split_then_join(wrap16(ports.latched() + 1));
}

/// Counting on in sixteen bits step by step is counting on in sixteen bits
/// at once.
pub proof fn lemma_wrap16_step(a: int, k: int)
    ensures
        wrap16(wrap16(a + k) + 1) == wrap16(a + k + 1),
{
    let x = a + k;
    assert(((x % 0x1_0000) + 1) % 0x1_0000 == (x + 1) % 0x1_0000);
}

/// The writes that `data` queues from the address `first` on.
pub open spec fn queued(first: u16, data: Seq<u8>) -> Seq<(u16, u8)> {
    Seq::new(data.len(), |k: int| (wrap16(first + k), data[k]))
}

/// Bytes written to the data port one after the other are queued, in order,
/// for the latched address and the addresses that follow it (counting in
/// sixteen bits), behind what was pending before.
pub proof fn lemma_data_writes(ports: Ports, data: Seq<u8>)
    ensures
        ports.write_data(data).cached == ports.cached + queued(ports.latched(), data),
        ports.write_data(data).latched() == wrap16(ports.latched() + data.len()),
    decreases data.len(),
{
    let first = ports.latched();
    if data.len() == 0 {
        assert(ports.write_data(data) == ports);
        assert(queued(first, data) =~= Seq::<(u16, u8)>::empty());
        assert(ports.cached + queued(first, data) =~= ports.cached);
    } else {
        let front = data.drop_last();
        let before = ports.write_data(front);
        let after = before.write_datum(data.last());
        assert(ports.write_data(data) == after);
        lemma_data_writes(ports, front);
        lemma_data_write(before, data.last());
        lemma_wrap16_step(first as int, front.len() as int);
        assert(before.latched() == wrap16(first + front.len()));
        assert(after.latched() == wrap16(first + data.len()));
        assert(queued(first, data) =~= queued(first, front).push((before.latched(), data.last())));
        assert(after.cached == (ports.cached + queued(first, front)).push(
            (before.latched(), data.last()),
        ));
        assert((ports.cached + queued(first, front)).push((before.latched(), data.last()))
            =~= ports.cached + queued(first, front).push((before.latched(), data.last())));
    }
}

/// The latch holds the last two bytes written to it: a third write moves the
/// second up and drops the first.
pub proof fn lemma_latch_rolls(ports: Ports, first: u8, second: u8, third: u8)
    ensures
        ports.write(PPUADDR_INDEX, first)->Ok_0.write(PPUADDR_INDEX, second)->Ok_0.addr == (
            first,
            second,
        ),
        ports.write(PPUADDR_INDEX, first)->Ok_0.write(PPUADDR_INDEX, second)->Ok_0.write(
            PPUADDR_INDEX,
            third,
        )->Ok_0.addr == (second, third),
{
}

/// No write to a port takes anything out of the buffer: it stays as it
/// was, or one write is appended to it.
pub proof fn lemma_write_only_appends(ports: Ports, i: u16, d: u8)
    ensures
        ports.write(i, d) is Ok ==> ports.write(i, d)->Ok_0.cached == ports.cached || ports.write(
            i,
            d,
        )->Ok_0.cached == ports.cached.push((ports.latched(), d)),
{
}

/// Writing `h` and then `l` to the address latch and then any bytes to the
/// data port queues those bytes, in order, for the addresses `hl`, `hl + 1`,
/// `hl + 2` and so on (counting in sixteen bits), behind what was pending
/// before, and leaves the latch one past the last of them.
pub proof fn lemma_latch_pairing(ports: Ports, h: u8, l: u8, data: Seq<u8>)
    ensures
        ports.write(PPUADDR_INDEX, h) is Ok,
        ports.write(PPUADDR_INDEX, h)->Ok_0.write(PPUADDR_INDEX, l) is Ok,
        ({
            let latched = ports.write(PPUADDR_INDEX, h)->Ok_0.write(PPUADDR_INDEX, l)->Ok_0;
            let after = latched.write_data(data);
            &&& latched.latched() == word(h, l)
            &&& after.cached == ports.cached + queued(word(h, l), data)
            &&& after.latched() == wrap16(word(h, l) + data.len())
        }),
{
    let once = Ports { addr: (ports.addr.1, h), ..ports };
    let latched = Ports { addr: (h, l), ..ports };
    assert(ports.write(PPUADDR_INDEX, h) == Ok::<Ports, AccessError>(once));
    assert(once.write(PPUADDR_INDEX, l) == Ok::<Ports, AccessError>(latched));
    lemma_data_writes(latched, data);
}

/// The first `count` writes of a buffer as text: each as a pair of decimal
/// numbers in round brackets, with a comma and a blank between two of them.
pub open spec fn pairs(writes: Seq<(u16, u8)>, count: int) -> Seq<char>
    decreases count,
{
    if count <= 0 {
        Seq::empty()
    } else {
        pairs(writes, count - 1) + (if count > 1 {
            ", "@
        } else {
            Seq::empty()
        }) + "("@ + number(writes[count - 1].0 as nat, false) + ", "@ + number(
            writes[count - 1].1 as nat,
            false,
        ) + ")"@
    }
}

impl Ports {
    /// The ports in hexadecimal, a line each; the two bytes of the latch in
    /// decimal; and the pending writes in square brackets.
    pub open spec fn text(self) -> Seq<char> {
        "PPUCTRL: "@ + hex(self.ctrl as nat) + ", \nPPUMASK: "@ + hex(self.mask as nat)
            + ", \nPPUSTATUS: "@ + hex(self.status as nat) + ", \nOAMADDR: "@ + hex(
            self.oam_addr as nat,
        ) + ", \nOAMDATA: "@ + hex(self.oam_data as nat) + ", \nPPUSCROLL: "@ + hex(
            self.scroll as nat,
        ) + ", \nPPUADDR: ("@ + number(self.addr.0 as nat, false) + ", "@ + number(
            self.addr.1 as nat,
            false,
        ) + "), \nPPUDATA: "@ + hex(self.data as nat) + "\ncached: ["@ + pairs(
            self.cached,
            self.cached.len() as int,
        ) + "]"@
    }
}

impl IORegister {
    /// The ports as text.
    pub fn to_string(&self) -> (r: String)
        ensures
            r@ == self@.text(),
    {
        let mut s = String::new();
        s.push_str("PPUCTRL: ");
        push_hex(&mut s, self.PPUCTRL as usize);
        s.push_str(", \nPPUMASK: ");
        push_hex(&mut s, self.PPUMASK as usize);
        s.push_str(", \nPPUSTATUS: ");
        push_hex(&mut s, self.PPUSTATUS as usize);
        s.push_str(", \nOAMADDR: ");
        push_hex(&mut s, self.OAMADDR as usize);
        s.push_str(", \nOAMDATA: ");
        push_hex(&mut s, self.OAMDATA as usize);
        s.push_str(", \nPPUSCROLL: ");
        push_hex(&mut s, self.PPUSCROLL as usize);
        s.push_str(", \nPPUADDR: (");
        push_number(&mut s, self.PPUADDR.0 as usize, false);
        s.push_str(", ");
        push_number(&mut s, self.PPUADDR.1 as usize, false);
        s.push_str("), \nPPUDATA: ");
        push_hex(&mut s, self.PPUDATA.data as usize);
        s.push_str("\ncached: [");
        let ghost head = s@;
        let mut i: usize = 0;
        assert(s@ =~= head + pairs(self.PPUDATA.cached@, 0));
        while i < self.PPUDATA.cached.len()
            invariant
                i <= self.PPUDATA.cached@.len(),
                s@ == head + pairs(self.PPUDATA.cached@, i as int),
            decreases self.PPUDATA.cached@.len() - i,
        {
            let (addr, d) = self.PPUDATA.cached[i];
            if i > 0 {
                s.push_str(", ");
            }
            s.push_str("(");
            push_number(&mut s, addr as usize, false);
            s.push_str(", ");
            push_number(&mut s, d as usize, false);
            s.push_str(")");
            i += 1;
            assert(s@ =~= head + pairs(self.PPUDATA.cached@, i as int));
        }
        s.push_str("]");
        assert(s@ =~= self@.text());
        s
    }
}

} // verus!
