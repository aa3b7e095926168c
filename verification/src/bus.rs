//! The CPU memory bus: 2 KiB of RAM mirrored through the low 8 KiB of the
//! address space, a reserved PPU register window, and the cartridge
//! PRG-ROM mirrored through the upper 32 KiB.

use crate::rom::{Rom, RomView};
use crate::wadd16;
use vstd::prelude::*;

verus! {

/// Where an address lands after mirroring is applied.
#[derive(Debug, Clone, Copy, PartialEq, Eq, Structural)]
pub enum MappedAddr {
    /// CPU RAM, at the given index into the 2 KiB array.
    Ram { index: usize },
    /// Cartridge PRG-ROM, at the given index into the PRG region.
    PrgRom { index: usize },
    /// The PPU register window; writes are accepted silently and reads
    /// yield zero.
    PpuRegister,
    /// No device decodes the address; writes are dropped and reads yield
    /// zero.
    Unmapped,
}

/// The bus: it owns CPU RAM and the loaded cartridge.
#[derive(Debug, Clone)]
pub struct Bus {
    pub vram: Vec<u8>,
    pub rom: Rom,
}

/// The mathematical shape of the bus: the RAM bytes and the cartridge.
pub struct BusView {
    pub vram: Seq<u8>,
    pub rom: RomView,
}

impl View for Bus {
    type V = BusView;

    open spec fn view(&self) -> BusView {
        BusView { vram: self.vram@, rom: self.rom@ }
    }
}

impl BusView {
    /// RAM is exactly 2 KiB.
    pub open spec fn wf(self) -> bool {
        self.vram.len() == 2048
    }

    /// Address decoding with mirroring: RAM indices are the address modulo
    /// 2 KiB, PRG-ROM offsets fold modulo 16 KiB when the cartridge holds
    /// a single PRG page.
    pub open spec fn decode(self, addr: u16) -> MappedAddr {
        if addr < 0x2000 {
            MappedAddr::Ram { index: (addr as int % 0x800) as usize }
        } else if addr < 0x4000 {
            MappedAddr::PpuRegister
        } else if addr < 0x8000 {
            MappedAddr::Unmapped
        } else {
            let off = addr - 0x8000;
            let folded = if self.rom.prg_rom.len() == 0x4000 {
                off % 0x4000
            } else {
                off
            };
            if folded < self.rom.prg_rom.len() {
                MappedAddr::PrgRom { index: folded as usize }
            } else {
                MappedAddr::Unmapped
            }
        }
    }

    /// The byte a read of `addr` yields: RAM or PRG-ROM content, and zero
    /// everywhere else.
    pub open spec fn read8(self, addr: u16) -> u8 {
        match self.decode(addr) {
            MappedAddr::Ram { index } => self.vram[index as int],
            MappedAddr::PrgRom { index } => self.rom.prg_rom[index as int],
            MappedAddr::PpuRegister => 0,
            MappedAddr::Unmapped => 0,
        }
    }

    /// The bus after a write of `val` to `addr`: only RAM changes; ROM,
    /// PPU-window and unmapped writes are dropped.
    pub open spec fn write8(self, addr: u16, val: u8) -> BusView {
        match self.decode(addr) {
            MappedAddr::Ram { index } => BusView {
                vram: self.vram.update(index as int, val),
                ..self
            },
            _ => self,
        }
    }

    /// Little-endian 16-bit read: low byte at `addr`, high byte at
    /// `addr + 1` modulo 2^16.
    pub open spec fn read16(self, addr: u16) -> u16 {
        (self.read8(addr) + self.read8(wadd16(addr, 1)) * 0x100) as u16
    }

    /// Little-endian 16-bit write: low byte at `addr`, high byte at
    /// `addr + 1` modulo 2^16.
    pub open spec fn write16(self, addr: u16, val: u16) -> BusView {
        self.write8(addr, (val % 0x100) as u8).write8(wadd16(addr, 1), (val / 0x100) as u8)
    }
}

impl Bus {
    /// Builds a bus over the given cartridge, with RAM zeroed.
    pub fn new(rom: Rom) -> (r: Bus)
        ensures
            r@.wf(),
            r@.rom == rom@,
            r@.vram =~= Seq::new(2048, |i: int| 0u8),
    {
        let mut vram: Vec<u8> = Vec::new();
        let mut i: usize = 0;
        while i < 2048
            invariant
                i <= 2048,
                vram@ =~= Seq::new(i as nat, |j: int| 0u8),
            decreases 2048 - i,
        {
            vram.push(0);
            i = i + 1;
        }
        Bus { vram, rom }
    }

    /// Decodes an address to the storage it reaches, applying RAM and
    /// PRG-ROM mirroring.
    pub fn mirror_addr(&self, addr: u16) -> (t: MappedAddr)
        ensures
            t == self@.decode(addr),
    {
        if addr < 0x2000 {
            let index = (addr & 0x07FF) as usize;
            proof {
                assert(addr & 0x07FF == addr % 0x800) by (bit_vector);
            }
            MappedAddr::Ram { index }
        } else if addr < 0x4000 {
            MappedAddr::PpuRegister
        } else if addr < 0x8000 {
            MappedAddr::Unmapped
        } else {
            let off = addr - 0x8000;
            let folded = if self.rom.prg_rom.len() == 0x4000 {
                off % 0x4000
            } else {
                off
            };
            if (folded as usize) < self.rom.prg_rom.len() {
                MappedAddr::PrgRom { index: folded as usize }
            } else {
                MappedAddr::Unmapped
            }
        }
    }

    /// A reference to the byte an address reaches, or nothing when no
    /// storage backs it.
    pub fn mirror(&self, addr: u16) -> (r: Option<&u8>)
        requires
            self@.wf(),
        ensures
            r is Some <==> (self@.decode(addr) matches MappedAddr::Ram { .. } || self@.decode(
                addr,
            ) matches MappedAddr::PrgRom { .. }),
            r matches Some(v) ==> *v == self@.read8(addr),
    {
        match self.mirror_addr(addr) {
            MappedAddr::Ram { index } => Some(
                vstd::slice::slice_index_get(self.vram.as_slice(), index),
            ),
            MappedAddr::PrgRom { index } => Some(
                vstd::slice::slice_index_get(self.rom.prg_rom.as_slice(), index),
            ),
            MappedAddr::PpuRegister => None,
            MappedAddr::Unmapped => None,
        }
    }

    /// Reads a byte from memory; out-of-map reads yield zero and never
    /// fault.
    pub fn mem_read(&self, addr: u16) -> (r: u8)
        requires
            self@.wf(),
        ensures
            r == self@.read8(addr),
    {
        match self.mirror_addr(addr) {
            MappedAddr::Ram { index } => self.vram[index],
            MappedAddr::PrgRom { index } => self.rom.prg_rom[index],
            MappedAddr::PpuRegister => 0,
            MappedAddr::Unmapped => 0,
        }
    }

    /// Writes a byte to memory; writes outside RAM are dropped and never
    /// fault.
    pub fn mem_write(&mut self, addr: u16, val: u8)
        requires
            old(self)@.wf(),
        ensures
            final(self)@.wf(),
            final(self)@ =~= old(self)@.write8(addr, val),
    {
        match self.mirror_addr(addr) {
            MappedAddr::Ram { index } => {
                self.vram[index] = val;
            },
            MappedAddr::PrgRom { index: _ } => {
            },
            MappedAddr::PpuRegister => {
            },
            MappedAddr::Unmapped => {
            },
        }
    }

    /// Reads a little-endian 16-bit word: low byte at `addr`, high byte at
    /// `addr + 1` modulo 2^16.
    pub fn mem_read_u16(&self, addr: u16) -> (r: u16)
        requires
            self@.wf(),
        ensures
            r == self@.read16(addr),
    {
        let lo = self.mem_read(addr);
        let hi = self.mem_read(addr.wrapping_add(1));
        lo as u16 + hi as u16 * 0x100
    }

    /// Writes a little-endian 16-bit word: low byte at `addr`, high byte
    /// at `addr + 1` modulo 2^16.
    pub fn mem_write_u16(&mut self, addr: u16, val: u16)
        requires
            old(self)@.wf(),
        ensures
            final(self)@.wf(),
            final(self)@ =~= old(self)@.write16(addr, val),
    {
        let lo = (val % 0x100) as u8;
        let hi = (val / 0x100) as u8;
        self.mem_write(addr, lo);
        self.mem_write(addr.wrapping_add(1), hi);
    }
}

/// Every write into the cartridge window is a no-op: the bus is
/// unchanged.
pub proof fn lemma_rom_write_dropped(bus: BusView, addr: u16, val: u8)
    requires
        0x8000 <= addr,
    ensures
        bus.write8(addr, val) == bus,
{
}

/// A RAM write is read back through the same address.
pub proof fn lemma_ram_write_read(bus: BusView, addr: u16, val: u8)
    requires
        bus.wf(),
        addr < 0x2000,
    ensures
        bus.write8(addr, val).read8(addr) == val,
{
}

/// RAM mirroring: below `0x2000` every address reads the same byte as its
/// image under the 2 KiB mask.
pub proof fn lemma_ram_mirror(bus: BusView, addr: u16)
    requires
        bus.wf(),
        addr < 0x2000,
    ensures
        bus.read8(addr) == bus.read8(addr & 0x07FF),
{
    assert(addr & 0x07FF == addr % 0x800 && addr % 0x800 < 0x800) by (bit_vector);
    assert((addr & 0x07FF) as int % 0x800 == addr as int % 0x800);
}

/// PRG-ROM mirroring: with a single 16 KiB PRG page, every address in the
/// cartridge window reads the same byte as its image folded modulo 16 KiB.
pub proof fn lemma_rom_mirror(bus: BusView, addr: u16)
    requires
        bus.wf(),
        bus.rom.prg_rom.len() == 0x4000,
        0x8000 <= addr,
    ensures
        bus.read8(addr) == bus.read8((0x8000 + ((addr - 0x8000) % 0x4000)) as u16),
{
    let m = (addr - 0x8000) % 0x4000;
    let addr2 = (0x8000 + m) as u16;
    assert(addr2 - 0x8000 == m);
    assert(m % 0x4000 == m);
}

} // verus!
