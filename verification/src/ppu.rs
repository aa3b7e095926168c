//! The picture processing unit stub: its memories and the two-write
//! address register. Only the register file exists here; rendering is
//! outside this core.

use crate::rom::Mirroring;
use vstd::prelude::*;

verus! {

/// The PPU address register: a 14-bit address assembled from two 8-bit
/// writes, steered by a latch.
pub struct AddrRegister {
    val: u16,
    hi: bool,
}

/// The mathematical shape of the address register.
pub struct AddrRegisterView {
    pub val: u16,
    pub hi: bool,
}

impl View for AddrRegister {
    type V = AddrRegisterView;

    closed spec fn view(&self) -> AddrRegisterView {
        AddrRegisterView { val: self.val, hi: self.hi }
    }
}

/// The register value after one write: with the latch set the written
/// byte replaces the low half, otherwise it replaces the high half; the
/// result is kept within the PPU's 14-bit address space.
pub open spec fn update_spec(val: u16, hi: bool, data: u8) -> u16 {
    if hi {
        (((val / 0x100) * 0x100 + data) % 0x4000) as u16
    } else {
        ((val % 0x100 + data * 0x100) % 0x4000) as u16
    }
}

impl AddrRegister {
    /// A fresh register: address zero, latch set.
    pub fn new() -> (r: AddrRegister)
        ensures
            r@.val == 0u16,
            r@.hi,
    {
        AddrRegister { val: 0, hi: true }
    }

    /// Feeds one byte of the address; the latch flips so the next write
    /// fills the other half, and the address stays below `0x4000`.
    pub fn update(&mut self, data: u8)
        ensures
            final(self)@.val == update_spec(old(self)@.val, old(self)@.hi, data),
            final(self)@.hi == !old(self)@.hi,
    {
        if self.hi {
            let high = self.val / 0x100;
            self.val = (high * 0x100 + data as u16) % 0x4000;
        } else {
            self.val = (self.val % 0x100 + data as u16 * 0x100) % 0x4000;
        }
        self.hi = !self.hi;
    }

    /// Advances the address by `inc`, wrapping within the PPU's 14-bit
    /// address space.
    pub fn inc(&mut self, inc: u8)
        ensures
            final(self)@.val == crate::wadd16(old(self)@.val, inc as u16) % 0x4000,
            final(self)@.hi == old(self)@.hi,
    {
        self.val = self.val.wrapping_add(inc as u16) % 0x4000;
    }

    /// Resets the latch so the next write fills the low half again.
    pub fn reset_latch(&mut self)
        ensures
            final(self)@.val == old(self)@.val,
            final(self)@.hi,
    {
        self.hi = true;
    }
}

/// The PPU register file and memories: character ROM, palette, VRAM and
/// sprite memory, all zeroed at power-on.
pub struct Ppu {
    pub chr_rom: Vec<u8>,
    pub palette_table: Vec<u8>,
    pub vram: Vec<u8>,
    pub oam_data: Vec<u8>,
    pub mirroring: Mirroring,
    pub addr: AddrRegister,
}

impl Ppu {
    /// Builds a PPU over the given character ROM, with its palette,
    /// VRAM and sprite memory zeroed.
    pub fn new(chr_rom: Vec<u8>, mirroring: Mirroring) -> (r: Ppu)
        ensures
            r.chr_rom@ == chr_rom@,
            r.palette_table@ =~= Seq::new(32, |i: int| 0u8),
            r.vram@ =~= Seq::new(2048, |i: int| 0u8),
            r.oam_data@ =~= Seq::new(256, |i: int| 0u8),
            r.mirroring == mirroring,
            r.addr@.val == 0u16,
            r.addr@.hi,
    {
        Ppu {
            chr_rom,
            palette_table: zeroed(32),
            vram: zeroed(2048),
            oam_data: zeroed(256),
            mirroring,
            addr: AddrRegister::new(),
        }
    }

    /// Feeds one byte of the PPU address register.
    pub fn write_ppu_addr(&mut self, val: u8)
        ensures
            final(self).mirroring == old(self).mirroring,
            final(self).chr_rom@ == old(self).chr_rom@,
            final(self).palette_table@ == old(self).palette_table@,
            final(self).vram@ == old(self).vram@,
            final(self).oam_data@ == old(self).oam_data@,
            final(self).addr@.val == update_spec(old(self).addr@.val, old(self).addr@.hi, val),
            final(self).addr@.hi == !old(self).addr@.hi,
    {
        self.addr.update(val);
    }
}

/// A vector of `len` zero bytes.
fn zeroed(len: usize) -> (r: Vec<u8>)
    ensures
        r@ =~= Seq::new(len as nat, |i: int| 0u8),
{
    let mut out: Vec<u8> = Vec::new();
    let mut i: usize = 0;
    while i < len
        invariant
            i <= len,
            out@ =~= Seq::new(i as nat, |j: int| 0u8),
        decreases len - i,
    {
        out.push(0);
        i = i + 1;
    }
    out
}

} // verus!
