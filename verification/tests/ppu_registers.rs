//! The PPU stub: construction and the two-write address register.

use fete::ppu::{AddrRegister, Ppu};
use fete::rom::Mirroring;

#[test]
fn ppu_new_zeroes_its_memories() {
    let ppu = Ppu::new(vec![1, 2, 3], Mirroring::Horizontal);

    assert_eq!(ppu.chr_rom, vec![1, 2, 3]);
    assert_eq!(ppu.palette_table, vec![0; 32]);
    assert_eq!(ppu.vram, vec![0; 2048]);
    assert_eq!(ppu.oam_data, vec![0; 256]);
    assert_eq!(ppu.mirroring, Mirroring::Horizontal);
}

#[test]
fn ppu_addr_register_accepts_writes() {
    let mut ppu = Ppu::new(vec![], Mirroring::Vertical);
    ppu.write_ppu_addr(0x3F);
    ppu.write_ppu_addr(0x10);
    ppu.addr.reset_latch();
    ppu.write_ppu_addr(0x21);
}

#[test]
fn addr_register_update_inc_and_latch() {
    let mut reg = AddrRegister::new();
    reg.update(0x12);
    reg.update(0x34);
    reg.inc(0xFF);
    reg.reset_latch();
    reg.update(0x00);
}
