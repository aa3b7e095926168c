//! Instruction-accurate MOS 6502 CPU core for the Nintendo Entertainment
//! System: registers and status flags, a memory bus with address mirroring,
//! an iNES 1.0 cartridge loader, the documented opcode set, and a tracer
//! that renders NESticle-style log lines.

pub mod addr_mode;
pub mod bus;
pub mod cpu;
pub mod opcode;
pub mod ppu;
pub mod rom;
pub mod status;
pub mod trace;

use vstd::prelude::*;

verus! {

/// 16-bit addition that wraps modulo 2^16, as the program counter does.
pub open spec fn wadd16(a: u16, b: u16) -> u16 {
    if a + b > 0xFFFF {
        (a + b - 0x10000) as u16
    } else {
        (a + b) as u16
    }
}

/// 16-bit subtraction that wraps modulo 2^16.
pub open spec fn wsub16(a: u16, b: u16) -> u16 {
    if a >= b {
        (a - b) as u16
    } else {
        (a + 0x10000 - b) as u16
    }
}

/// 8-bit addition that wraps modulo 256, as registers and the stack
/// pointer do.
pub open spec fn wadd8(a: u8, b: u8) -> u8 {
    if a + b > 0xFF {
        (a + b - 0x100) as u8
    } else {
        (a + b) as u8
    }
}

/// 8-bit subtraction that wraps modulo 256.
pub open spec fn wsub8(a: u8, b: u8) -> u8 {
    if a >= b {
        (a - b) as u8
    } else {
        (a + 0x100 - b) as u8
    }
}

} // verus!
