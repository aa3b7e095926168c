//! The opcode table: the single mapping from opcode byte to mnemonic,
//! addressing mode, instruction size and base cycle cost, together with
//! the specification of what each opcode does to the machine.

pub mod arrith;
pub mod branch;
pub mod flags;
pub mod inc_dec;
pub mod jmp;
pub mod load;
pub mod logic;
pub mod shift;
pub mod stack;
pub mod sys;
pub mod transfer;

use crate::addr_mode::{mode_size, AddressingMode};
use crate::cpu::CpuView;
use crate::wadd16;
use vstd::prelude::*;

verus! {

/// One row of the opcode table.
#[derive(Debug, Clone, Copy)]
pub struct OpCode {
    pub code: u8,
    pub name: &'static str,
    pub mode: AddressingMode,
    pub bytes: u8,
    pub cycles: u8,
}

impl OpCode {
    /// Builds a table row.
    pub fn new(code: u8, name: &'static str, mode: AddressingMode, bytes: u8, cycles: u8) -> (r:
        OpCode)
        ensures
            r.code == code,
            r.name == name,
            r.mode == mode,
            r.bytes == bytes,
            r.cycles == cycles,
    {
        OpCode { code, name, mode, bytes, cycles }
    }
}

/// True exactly for the 151 documented opcode bytes.
pub open spec fn op_known(code: u8) -> bool {
    match code {
        0x00 | 0x01 | 0x05 | 0x06 | 0x08 | 0x09 | 0x0A | 0x0D
        | 0x0E | 0x10 | 0x11 | 0x15 | 0x16 | 0x18 | 0x19 | 0x1D
        | 0x1E | 0x20 | 0x21 | 0x24 | 0x25 | 0x26 | 0x28 | 0x29
        | 0x2A | 0x2C | 0x2D | 0x2E | 0x30 | 0x31 | 0x35 | 0x36
        | 0x38 | 0x39 | 0x3D | 0x3E | 0x40 | 0x41 | 0x45 | 0x46
        | 0x48 | 0x49 | 0x4A | 0x4C | 0x4D | 0x4E | 0x50 | 0x51
        | 0x55 | 0x56 | 0x58 | 0x59 | 0x5D | 0x5E | 0x60 | 0x61
        | 0x65 | 0x66 | 0x68 | 0x69 | 0x6A | 0x6C | 0x6D | 0x6E
        | 0x70 | 0x71 | 0x75 | 0x76 | 0x78 | 0x79 | 0x7D | 0x7E
        | 0x81 | 0x84 | 0x85 | 0x86 | 0x88 | 0x8A | 0x8C | 0x8D
        | 0x8E | 0x90 | 0x91 | 0x94 | 0x95 | 0x96 | 0x98 | 0x99
        | 0x9A | 0x9D | 0xA0 | 0xA1 | 0xA2 | 0xA4 | 0xA5 | 0xA6
        | 0xA8 | 0xA9 | 0xAA | 0xAC | 0xAD | 0xAE | 0xB0 | 0xB1
        | 0xB4 | 0xB5 | 0xB6 | 0xB8 | 0xB9 | 0xBA | 0xBC | 0xBD
        | 0xBE | 0xC0 | 0xC1 | 0xC4 | 0xC5 | 0xC6 | 0xC8 | 0xC9
        | 0xCA | 0xCC | 0xCD | 0xCE | 0xD0 | 0xD1 | 0xD5 | 0xD6
        | 0xD8 | 0xD9 | 0xDD | 0xDE | 0xE0 | 0xE1 | 0xE4 | 0xE5
        | 0xE6 | 0xE8 | 0xE9 | 0xEA | 0xEC | 0xED | 0xEE | 0xF0
        | 0xF1 | 0xF5 | 0xF6 | 0xF8 | 0xF9 | 0xFD | 0xFE => true,
        _ => false,
    }
}

/// The addressing mode of a documented opcode.
pub open spec fn op_mode(code: u8) -> AddressingMode {
    match code {
        0x00 | 0x08 | 0x0A | 0x18 | 0x28 | 0x2A | 0x38 | 0x40
        | 0x48 | 0x4A | 0x58 | 0x60 | 0x68 | 0x6A | 0x78 | 0x88
        | 0x8A | 0x98 | 0x9A | 0xA8 | 0xAA | 0xB8 | 0xBA | 0xC8
        | 0xCA | 0xD8 | 0xE8 | 0xEA | 0xF8 => AddressingMode::NoneAddressing,
        0x01 | 0x21 | 0x41 | 0x61 | 0x81 | 0xA1 | 0xC1 | 0xE1 => AddressingMode::IndirectX,
        0x05 | 0x06 | 0x24 | 0x25 | 0x26 | 0x45 | 0x46 | 0x65
        | 0x66 | 0x84 | 0x85 | 0x86 | 0xA4 | 0xA5 | 0xA6 | 0xC4
        | 0xC5 | 0xC6 | 0xE4 | 0xE5 | 0xE6 => AddressingMode::ZeroPage,
        0x09 | 0x29 | 0x49 | 0x69 | 0xA0 | 0xA2 | 0xA9 | 0xC0
        | 0xC9 | 0xE0 | 0xE9 => AddressingMode::Immediate,
        0x0D | 0x0E | 0x20 | 0x2C | 0x2D | 0x2E | 0x4C | 0x4D
        | 0x4E | 0x6D | 0x6E | 0x8C | 0x8D | 0x8E | 0xAC | 0xAD
        | 0xAE | 0xCC | 0xCD | 0xCE | 0xEC | 0xED | 0xEE => AddressingMode::Absolute,
        0x10 | 0x30 | 0x50 | 0x70 | 0x90 | 0xB0 | 0xD0 | 0xF0 => AddressingMode::Relative,
        0x11 | 0x31 | 0x51 | 0x71 | 0x91 | 0xB1 | 0xD1 | 0xF1 => AddressingMode::IndirectY,
        0x15 | 0x16 | 0x35 | 0x36 | 0x55 | 0x56 | 0x75 | 0x76
        | 0x94 | 0x95 | 0xB4 | 0xB5 | 0xD5 | 0xD6 | 0xF5 | 0xF6 => AddressingMode::ZeroPageX,
        0x19 | 0x39 | 0x59 | 0x79 | 0x99 | 0xB9 | 0xBE | 0xD9
        | 0xF9 => AddressingMode::AbsoluteY,
        0x1D | 0x1E | 0x3D | 0x3E | 0x5D | 0x5E | 0x7D | 0x7E
        | 0x9D | 0xBC | 0xBD | 0xDD | 0xDE | 0xFD | 0xFE => AddressingMode::AbsoluteX,
        0x6C => AddressingMode::Indirect,
        0x96 | 0xB6 => AddressingMode::ZeroPageY,
        _ => AddressingMode::NoneAddressing,
    }
}

/// The base cycle cost of a documented opcode.
pub open spec fn op_cycles(code: u8) -> u8 {
    match code {
        0x09 | 0x0A | 0x10 | 0x18 | 0x29 | 0x2A | 0x30 | 0x38
        | 0x49 | 0x4A | 0x50 | 0x58 | 0x69 | 0x6A | 0x70 | 0x78
        | 0x88 | 0x8A | 0x90 | 0x98 | 0x9A | 0xA0 | 0xA2 | 0xA8
        | 0xA9 | 0xAA | 0xB0 | 0xB8 | 0xBA | 0xC0 | 0xC8 | 0xC9
        | 0xCA | 0xD0 | 0xD8 | 0xE0 | 0xE8 | 0xE9 | 0xEA | 0xF0
        | 0xF8 => 2,
        0x05 | 0x08 | 0x24 | 0x25 | 0x28 | 0x45 | 0x48 | 0x4C
        | 0x65 | 0x68 | 0x84 | 0x85 | 0x86 | 0xA4 | 0xA5 | 0xA6
        | 0xC4 | 0xC5 | 0xE4 | 0xE5 => 3,
        0x0D | 0x15 | 0x19 | 0x1D | 0x2C | 0x2D | 0x35 | 0x39
        | 0x3D | 0x4D | 0x55 | 0x59 | 0x5D | 0x6D | 0x75 | 0x79
        | 0x7D | 0x8C | 0x8D | 0x8E | 0x94 | 0x95 | 0x96 | 0xAC
        | 0xAD | 0xAE | 0xB4 | 0xB5 | 0xB6 | 0xB9 | 0xBC | 0xBD
        | 0xBE | 0xCC | 0xCD | 0xD5 | 0xD9 | 0xDD | 0xEC | 0xED
        | 0xF5 | 0xF9 | 0xFD => 4,
        0x06 | 0x11 | 0x26 | 0x31 | 0x46 | 0x51 | 0x66 | 0x6C
        | 0x71 | 0x99 | 0x9D | 0xB1 | 0xC6 | 0xD1 | 0xE6 | 0xF1 => 5,
        0x01 | 0x0E | 0x16 | 0x20 | 0x21 | 0x2E | 0x36 | 0x40
        | 0x41 | 0x4E | 0x56 | 0x60 | 0x61 | 0x6E | 0x76 | 0x81
        | 0x91 | 0xA1 | 0xC1 | 0xCE | 0xD6 | 0xE1 | 0xEE | 0xF6 => 6,
        0x00 | 0x1E | 0x3E | 0x5E | 0x7E | 0xDE | 0xFE => 7,
        _ => 0,
    }
}

/// The mnemonic of a documented opcode, uppercased as the tracer prints
/// it.
pub open spec fn op_name(code: u8) -> Seq<char> {
    match code {
        0xA1 | 0xA5 | 0xA9 | 0xAD | 0xB1 | 0xB5 | 0xB9 | 0xBD => "LDA"@,
        0xA2 | 0xA6 | 0xAE | 0xB6 | 0xBE => "LDX"@,
        0xA0 | 0xA4 | 0xAC | 0xB4 | 0xBC => "LDY"@,
        0x81 | 0x85 | 0x8D | 0x91 | 0x95 | 0x99 | 0x9D => "STA"@,
        0x86 | 0x8E | 0x96 => "STX"@,
        0x84 | 0x8C | 0x94 => "STY"@,
        0xAA => "TAX"@,
        0xA8 => "TAY"@,
        0x8A => "TXA"@,
        0x98 => "TYA"@,
        0x9A => "TXS"@,
        0xBA => "TSX"@,
        0x48 => "PHA"@,
        0x68 => "PLA"@,
        0x08 => "PHP"@,
        0x28 => "PLP"@,
        0xE8 => "INX"@,
        0xC8 => "INY"@,
        0xE6 | 0xEE | 0xF6 | 0xFE => "INC"@,
        0xCA => "DEX"@,
        0x88 => "DEY"@,
        0xC6 | 0xCE | 0xD6 | 0xDE => "DEC"@,
        0x61 | 0x65 | 0x69 | 0x6D | 0x71 | 0x75 | 0x79 | 0x7D => "ADC"@,
        0xE1 | 0xE5 | 0xE9 | 0xED | 0xF1 | 0xF5 | 0xF9 | 0xFD => "SBC"@,
        0xC1 | 0xC5 | 0xC9 | 0xCD | 0xD1 | 0xD5 | 0xD9 | 0xDD => "CMP"@,
        0xE0 | 0xE4 | 0xEC => "CPX"@,
        0xC0 | 0xC4 | 0xCC => "CPY"@,
        0x21 | 0x25 | 0x29 | 0x2D | 0x31 | 0x35 | 0x39 | 0x3D => "AND"@,
        0x41 | 0x45 | 0x49 | 0x4D | 0x51 | 0x55 | 0x59 | 0x5D => "EOR"@,
        0x01 | 0x05 | 0x09 | 0x0D | 0x11 | 0x15 | 0x19 | 0x1D => "ORA"@,
        0x24 | 0x2C => "BIT"@,
        0x06 | 0x0A | 0x0E | 0x16 | 0x1E => "ASL"@,
        0x46 | 0x4A | 0x4E | 0x56 | 0x5E => "LSR"@,
        0x26 | 0x2A | 0x2E | 0x36 | 0x3E => "ROL"@,
        0x66 | 0x6A | 0x6E | 0x76 | 0x7E => "ROR"@,
        0x90 => "BCC"@,
        0xB0 => "BCS"@,
        0xF0 => "BEQ"@,
        0xD0 => "BNE"@,
        0x30 => "BMI"@,
        0x10 => "BPL"@,
        0x50 => "BVC"@,
        0x70 => "BVS"@,
        0x4C | 0x6C => "JMP"@,
        0x20 => "JSR"@,
        0x60 => "RTS"@,
        0x38 => "SEC"@,
        0x18 => "CLC"@,
        0xF8 => "SED"@,
        0xD8 => "CLD"@,
        0x78 => "SEI"@,
        0x58 => "CLI"@,
        0xB8 => "CLV"@,
        0x40 => "RTI"@,
        0xEA => "NOP"@,
        0x00 => "BRK"@,
        _ => Seq::empty(),
    }
}

/// What a documented opcode does to the machine, starting from the state
/// just after the opcode byte was fetched. Unknown bytes leave the
/// machine unchanged; execution reports them instead of running this.
/// Opaque because its full unfolding is large; execution reveals it one
/// dispatch arm at a time.
#[verifier::opaque]
pub open spec fn instr_spec(s: CpuView, code: u8) -> CpuView {
    match code {
        0xA1 | 0xA5 | 0xA9 | 0xAD | 0xB1 | 0xB5 | 0xB9 | 0xBD => load::lda_spec(s, op_mode(code)),
        0xA2 | 0xA6 | 0xAE | 0xB6 | 0xBE => load::ldx_spec(s, op_mode(code)),
        0xA0 | 0xA4 | 0xAC | 0xB4 | 0xBC => load::ldy_spec(s, op_mode(code)),
        0x81 | 0x85 | 0x8D | 0x91 | 0x95 | 0x99 | 0x9D => load::sta_spec(s, op_mode(code)),
        0x86 | 0x8E | 0x96 => load::stx_spec(s, op_mode(code)),
        0x84 | 0x8C | 0x94 => load::sty_spec(s, op_mode(code)),
        0xAA => transfer::tax_spec(s, op_mode(code)),
        0xA8 => transfer::tay_spec(s, op_mode(code)),
        0x8A => transfer::txa_spec(s, op_mode(code)),
        0x98 => transfer::tya_spec(s, op_mode(code)),
        0x9A => stack::txs_spec(s, op_mode(code)),
        0xBA => stack::tsx_spec(s, op_mode(code)),
        0x48 => stack::pha_spec(s, op_mode(code)),
        0x68 => stack::pla_spec(s, op_mode(code)),
        0x08 => stack::php_spec(s, op_mode(code)),
        0x28 => stack::plp_spec(s, op_mode(code)),
        0xE8 => inc_dec::inx_spec(s, op_mode(code)),
        0xC8 => inc_dec::iny_spec(s, op_mode(code)),
        0xE6 | 0xEE | 0xF6 | 0xFE => inc_dec::inc_spec(s, op_mode(code)),
        0xCA => inc_dec::dex_spec(s, op_mode(code)),
        0x88 => inc_dec::dey_spec(s, op_mode(code)),
        0xC6 | 0xCE | 0xD6 | 0xDE => inc_dec::dec_spec(s, op_mode(code)),
        0x61 | 0x65 | 0x69 | 0x6D | 0x71 | 0x75 | 0x79 | 0x7D => arrith::adc_spec(s, op_mode(code)),
        0xE1 | 0xE5 | 0xE9 | 0xED | 0xF1 | 0xF5 | 0xF9 | 0xFD => arrith::sbc_spec(s, op_mode(code)),
        0xC1 | 0xC5 | 0xC9 | 0xCD | 0xD1 | 0xD5 | 0xD9 | 0xDD => arrith::cmp_spec(s, op_mode(code)),
        0xE0 | 0xE4 | 0xEC => arrith::cpx_spec(s, op_mode(code)),
        0xC0 | 0xC4 | 0xCC => arrith::cpy_spec(s, op_mode(code)),
        0x21 | 0x25 | 0x29 | 0x2D | 0x31 | 0x35 | 0x39 | 0x3D => logic::and_spec(s, op_mode(code)),
        0x41 | 0x45 | 0x49 | 0x4D | 0x51 | 0x55 | 0x59 | 0x5D => logic::eor_spec(s, op_mode(code)),
        0x01 | 0x05 | 0x09 | 0x0D | 0x11 | 0x15 | 0x19 | 0x1D => logic::ora_spec(s, op_mode(code)),
        0x24 | 0x2C => logic::bit_spec(s, op_mode(code)),
        0x06 | 0x0A | 0x0E | 0x16 | 0x1E => shift::asl_spec(s, op_mode(code)),
        0x46 | 0x4A | 0x4E | 0x56 | 0x5E => shift::lsr_spec(s, op_mode(code)),
        0x26 | 0x2A | 0x2E | 0x36 | 0x3E => shift::rol_spec(s, op_mode(code)),
        0x66 | 0x6A | 0x6E | 0x76 | 0x7E => shift::ror_spec(s, op_mode(code)),
        0x90 => branch::bcc_spec(s, op_mode(code)),
        0xB0 => branch::bcs_spec(s, op_mode(code)),
        0xF0 => branch::beq_spec(s, op_mode(code)),
        0xD0 => branch::bne_spec(s, op_mode(code)),
        0x30 => branch::bmi_spec(s, op_mode(code)),
        0x10 => branch::bpl_spec(s, op_mode(code)),
        0x50 => branch::bvc_spec(s, op_mode(code)),
        0x70 => branch::bvs_spec(s, op_mode(code)),
        0x4C | 0x6C => jmp::jmp_spec(s, op_mode(code)),
        0x20 => jmp::jsr_spec(s, op_mode(code)),
        0x60 => jmp::rts_spec(s, op_mode(code)),
        0x38 => flags::sec_spec(s, op_mode(code)),
        0x18 => flags::clc_spec(s, op_mode(code)),
        0xF8 => flags::sed_spec(s, op_mode(code)),
        0xD8 => flags::cld_spec(s, op_mode(code)),
        0x78 => flags::sei_spec(s, op_mode(code)),
        0x58 => flags::cli_spec(s, op_mode(code)),
        0xB8 => flags::clv_spec(s, op_mode(code)),
        0x40 => sys::rti_spec(s, op_mode(code)),
        0xEA => sys::nop_spec(s, op_mode(code)),
        0x00 => sys::brk_spec(s, op_mode(code)),
        _ => s,
    }
}

/// One machine step: fetch the byte at the program counter, advance the
/// counter, and apply the fetched instruction.
pub open spec fn step_spec(s: CpuView) -> CpuView {
    instr_spec(s.with_pc(wadd16(s.pc, 1)), s.bus.read8(s.pc))
}

/// The byte at the program counter is a documented opcode.
pub open spec fn step_ok(s: CpuView) -> bool {
    op_known(s.bus.read8(s.pc))
}

/// The instruction at the program counter is BRK, which halts execution.
pub open spec fn step_halts(s: CpuView) -> bool {
    s.bus.read8(s.pc) == 0
}

/// Table rows for opcode bytes `0x00` to `0x3F`.
fn opcode_lookup_q0(code: u8) -> (r: Option<OpCode>)
    requires
        0x00 <= code < 0x40,
    ensures
        r is Some <==> op_known(code),
        r matches Some(e) ==> e.code == code && e.mode == op_mode(code) && e.cycles == op_cycles(
            code,
        ) && e.name@ == op_name(code) && e.bytes == mode_size(e.mode) + 1,
{
    match code {
        0x00 => Some(OpCode::new(0x00, "BRK", AddressingMode::NoneAddressing, 1, 7)),
        0x01 => Some(OpCode::new(0x01, "ORA", AddressingMode::IndirectX, 2, 6)),
        0x05 => Some(OpCode::new(0x05, "ORA", AddressingMode::ZeroPage, 2, 3)),
        0x06 => Some(OpCode::new(0x06, "ASL", AddressingMode::ZeroPage, 2, 5)),
        0x08 => Some(OpCode::new(0x08, "PHP", AddressingMode::NoneAddressing, 1, 3)),
        0x09 => Some(OpCode::new(0x09, "ORA", AddressingMode::Immediate, 2, 2)),
        0x0A => Some(OpCode::new(0x0A, "ASL", AddressingMode::NoneAddressing, 1, 2)),
        0x0D => Some(OpCode::new(0x0D, "ORA", AddressingMode::Absolute, 3, 4)),
        0x0E => Some(OpCode::new(0x0E, "ASL", AddressingMode::Absolute, 3, 6)),
        0x10 => Some(OpCode::new(0x10, "BPL", AddressingMode::Relative, 2, 2)),
        0x11 => Some(OpCode::new(0x11, "ORA", AddressingMode::IndirectY, 2, 5)),
        0x15 => Some(OpCode::new(0x15, "ORA", AddressingMode::ZeroPageX, 2, 4)),
        0x16 => Some(OpCode::new(0x16, "ASL", AddressingMode::ZeroPageX, 2, 6)),
        0x18 => Some(OpCode::new(0x18, "CLC", AddressingMode::NoneAddressing, 1, 2)),
        0x19 => Some(OpCode::new(0x19, "ORA", AddressingMode::AbsoluteY, 3, 4)),
        0x1D => Some(OpCode::new(0x1D, "ORA", AddressingMode::AbsoluteX, 3, 4)),
        0x1E => Some(OpCode::new(0x1E, "ASL", AddressingMode::AbsoluteX, 3, 7)),
        0x20 => Some(OpCode::new(0x20, "JSR", AddressingMode::Absolute, 3, 6)),
        0x21 => Some(OpCode::new(0x21, "AND", AddressingMode::IndirectX, 2, 6)),
        0x24 => Some(OpCode::new(0x24, "BIT", AddressingMode::ZeroPage, 2, 3)),
        0x25 => Some(OpCode::new(0x25, "AND", AddressingMode::ZeroPage, 2, 3)),
        0x26 => Some(OpCode::new(0x26, "ROL", AddressingMode::ZeroPage, 2, 5)),
        0x28 => Some(OpCode::new(0x28, "PLP", AddressingMode::NoneAddressing, 1, 3)),
        0x29 => Some(OpCode::new(0x29, "AND", AddressingMode::Immediate, 2, 2)),
        0x2A => Some(OpCode::new(0x2A, "ROL", AddressingMode::NoneAddressing, 1, 2)),
        0x2C => Some(OpCode::new(0x2C, "BIT", AddressingMode::Absolute, 3, 4)),
        0x2D => Some(OpCode::new(0x2D, "AND", AddressingMode::Absolute, 3, 4)),
        0x2E => Some(OpCode::new(0x2E, "ROL", AddressingMode::Absolute, 3, 6)),
        0x30 => Some(OpCode::new(0x30, "BMI", AddressingMode::Relative, 2, 2)),
        0x31 => Some(OpCode::new(0x31, "AND", AddressingMode::IndirectY, 2, 5)),
        0x35 => Some(OpCode::new(0x35, "AND", AddressingMode::ZeroPageX, 2, 4)),
        0x36 => Some(OpCode::new(0x36, "ROL", AddressingMode::ZeroPageX, 2, 6)),
        0x38 => Some(OpCode::new(0x38, "SEC", AddressingMode::NoneAddressing, 1, 2)),
        0x39 => Some(OpCode::new(0x39, "AND", AddressingMode::AbsoluteY, 3, 4)),
        0x3D => Some(OpCode::new(0x3D, "AND", AddressingMode::AbsoluteX, 3, 4)),
        0x3E => Some(OpCode::new(0x3E, "ROL", AddressingMode::AbsoluteX, 3, 7)),
        _ => None,
    }
}

/// Table rows for opcode bytes `0x40` to `0x7F`.
fn opcode_lookup_q1(code: u8) -> (r: Option<OpCode>)
    requires
        0x40 <= code < 0x80,
    ensures
        r is Some <==> op_known(code),
        r matches Some(e) ==> e.code == code && e.mode == op_mode(code) && e.cycles == op_cycles(
            code,
        ) && e.name@ == op_name(code) && e.bytes == mode_size(e.mode) + 1,
{
    match code {
        0x40 => Some(OpCode::new(0x40, "RTI", AddressingMode::NoneAddressing, 1, 6)),
        0x41 => Some(OpCode::new(0x41, "EOR", AddressingMode::IndirectX, 2, 6)),
        0x45 => Some(OpCode::new(0x45, "EOR", AddressingMode::ZeroPage, 2, 3)),
        0x46 => Some(OpCode::new(0x46, "LSR", AddressingMode::ZeroPage, 2, 5)),
        0x48 => Some(OpCode::new(0x48, "PHA", AddressingMode::NoneAddressing, 1, 3)),
        0x49 => Some(OpCode::new(0x49, "EOR", AddressingMode::Immediate, 2, 2)),
        0x4A => Some(OpCode::new(0x4A, "LSR", AddressingMode::NoneAddressing, 1, 2)),
        0x4C => Some(OpCode::new(0x4C, "JMP", AddressingMode::Absolute, 3, 3)),
        0x4D => Some(OpCode::new(0x4D, "EOR", AddressingMode::Absolute, 3, 4)),
        0x4E => Some(OpCode::new(0x4E, "LSR", AddressingMode::Absolute, 3, 6)),
        0x50 => Some(OpCode::new(0x50, "BVC", AddressingMode::Relative, 2, 2)),
        0x51 => Some(OpCode::new(0x51, "EOR", AddressingMode::IndirectY, 2, 5)),
        0x55 => Some(OpCode::new(0x55, "EOR", AddressingMode::ZeroPageX, 2, 4)),
        0x56 => Some(OpCode::new(0x56, "LSR", AddressingMode::ZeroPageX, 2, 6)),
        0x58 => Some(OpCode::new(0x58, "CLI", AddressingMode::NoneAddressing, 1, 2)),
        0x59 => Some(OpCode::new(0x59, "EOR", AddressingMode::AbsoluteY, 3, 4)),
        0x5D => Some(OpCode::new(0x5D, "EOR", AddressingMode::AbsoluteX, 3, 4)),
        0x5E => Some(OpCode::new(0x5E, "LSR", AddressingMode::AbsoluteX, 3, 7)),
        0x60 => Some(OpCode::new(0x60, "RTS", AddressingMode::NoneAddressing, 1, 6)),
        0x61 => Some(OpCode::new(0x61, "ADC", AddressingMode::IndirectX, 2, 6)),
        0x65 => Some(OpCode::new(0x65, "ADC", AddressingMode::ZeroPage, 2, 3)),
        0x66 => Some(OpCode::new(0x66, "ROR", AddressingMode::ZeroPage, 2, 5)),
        0x68 => Some(OpCode::new(0x68, "PLA", AddressingMode::NoneAddressing, 1, 3)),
        0x69 => Some(OpCode::new(0x69, "ADC", AddressingMode::Immediate, 2, 2)),
        0x6A => Some(OpCode::new(0x6A, "ROR", AddressingMode::NoneAddressing, 1, 2)),
        0x6C => Some(OpCode::new(0x6C, "JMP", AddressingMode::Indirect, 3, 5)),
        0x6D => Some(OpCode::new(0x6D, "ADC", AddressingMode::Absolute, 3, 4)),
        0x6E => Some(OpCode::new(0x6E, "ROR", AddressingMode::Absolute, 3, 6)),
        0x70 => Some(OpCode::new(0x70, "BVS", AddressingMode::Relative, 2, 2)),
        0x71 => Some(OpCode::new(0x71, "ADC", AddressingMode::IndirectY, 2, 5)),
        0x75 => Some(OpCode::new(0x75, "ADC", AddressingMode::ZeroPageX, 2, 4)),
        0x76 => Some(OpCode::new(0x76, "ROR", AddressingMode::ZeroPageX, 2, 6)),
        0x78 => Some(OpCode::new(0x78, "SEI", AddressingMode::NoneAddressing, 1, 2)),
        0x79 => Some(OpCode::new(0x79, "ADC", AddressingMode::AbsoluteY, 3, 4)),
        0x7D => Some(OpCode::new(0x7D, "ADC", AddressingMode::AbsoluteX, 3, 4)),
        0x7E => Some(OpCode::new(0x7E, "ROR", AddressingMode::AbsoluteX, 3, 7)),
        _ => None,
    }
}

/// Table rows for opcode bytes `0x80` to `0xBF`.
fn opcode_lookup_q2(code: u8) -> (r: Option<OpCode>)
    requires
        0x80 <= code < 0xC0,
    ensures
        r is Some <==> op_known(code),
        r matches Some(e) ==> e.code == code && e.mode == op_mode(code) && e.cycles == op_cycles(
            code,
        ) && e.name@ == op_name(code) && e.bytes == mode_size(e.mode) + 1,
{
    match code {
        0x81 => Some(OpCode::new(0x81, "STA", AddressingMode::IndirectX, 2, 6)),
        0x84 => Some(OpCode::new(0x84, "STY", AddressingMode::ZeroPage, 2, 3)),
        0x85 => Some(OpCode::new(0x85, "STA", AddressingMode::ZeroPage, 2, 3)),
        0x86 => Some(OpCode::new(0x86, "STX", AddressingMode::ZeroPage, 2, 3)),
        0x88 => Some(OpCode::new(0x88, "DEY", AddressingMode::NoneAddressing, 1, 2)),
        0x8A => Some(OpCode::new(0x8A, "TXA", AddressingMode::NoneAddressing, 1, 2)),
        0x8C => Some(OpCode::new(0x8C, "STY", AddressingMode::Absolute, 3, 4)),
        0x8D => Some(OpCode::new(0x8D, "STA", AddressingMode::Absolute, 3, 4)),
        0x8E => Some(OpCode::new(0x8E, "STX", AddressingMode::Absolute, 3, 4)),
        0x90 => Some(OpCode::new(0x90, "BCC", AddressingMode::Relative, 2, 2)),
        0x91 => Some(OpCode::new(0x91, "STA", AddressingMode::IndirectY, 2, 6)),
        0x94 => Some(OpCode::new(0x94, "STY", AddressingMode::ZeroPageX, 2, 4)),
        0x95 => Some(OpCode::new(0x95, "STA", AddressingMode::ZeroPageX, 2, 4)),
        0x96 => Some(OpCode::new(0x96, "STX", AddressingMode::ZeroPageY, 2, 4)),
        0x98 => Some(OpCode::new(0x98, "TYA", AddressingMode::NoneAddressing, 1, 2)),
        0x99 => Some(OpCode::new(0x99, "STA", AddressingMode::AbsoluteY, 3, 5)),
        0x9A => Some(OpCode::new(0x9A, "TXS", AddressingMode::NoneAddressing, 1, 2)),
        0x9D => Some(OpCode::new(0x9D, "STA", AddressingMode::AbsoluteX, 3, 5)),
        0xA0 => Some(OpCode::new(0xA0, "LDY", AddressingMode::Immediate, 2, 2)),
        0xA1 => Some(OpCode::new(0xA1, "LDA", AddressingMode::IndirectX, 2, 6)),
        0xA2 => Some(OpCode::new(0xA2, "LDX", AddressingMode::Immediate, 2, 2)),
        0xA4 => Some(OpCode::new(0xA4, "LDY", AddressingMode::ZeroPage, 2, 3)),
        0xA5 => Some(OpCode::new(0xA5, "LDA", AddressingMode::ZeroPage, 2, 3)),
        0xA6 => Some(OpCode::new(0xA6, "LDX", AddressingMode::ZeroPage, 2, 3)),
        0xA8 => Some(OpCode::new(0xA8, "TAY", AddressingMode::NoneAddressing, 1, 2)),
        0xA9 => Some(OpCode::new(0xA9, "LDA", AddressingMode::Immediate, 2, 2)),
        0xAA => Some(OpCode::new(0xAA, "TAX", AddressingMode::NoneAddressing, 1, 2)),
        0xAC => Some(OpCode::new(0xAC, "LDY", AddressingMode::Absolute, 3, 4)),
        0xAD => Some(OpCode::new(0xAD, "LDA", AddressingMode::Absolute, 3, 4)),
        0xAE => Some(OpCode::new(0xAE, "LDX", AddressingMode::Absolute, 3, 4)),
        0xB0 => Some(OpCode::new(0xB0, "BCS", AddressingMode::Relative, 2, 2)),
        0xB1 => Some(OpCode::new(0xB1, "LDA", AddressingMode::IndirectY, 2, 5)),
        0xB4 => Some(OpCode::new(0xB4, "LDY", AddressingMode::ZeroPageX, 2, 4)),
        0xB5 => Some(OpCode::new(0xB5, "LDA", AddressingMode::ZeroPageX, 2, 4)),
        0xB6 => Some(OpCode::new(0xB6, "LDX", AddressingMode::ZeroPageY, 2, 4)),
        0xB8 => Some(OpCode::new(0xB8, "CLV", AddressingMode::NoneAddressing, 1, 2)),
        0xB9 => Some(OpCode::new(0xB9, "LDA", AddressingMode::AbsoluteY, 3, 4)),
        0xBA => Some(OpCode::new(0xBA, "TSX", AddressingMode::NoneAddressing, 1, 2)),
        0xBC => Some(OpCode::new(0xBC, "LDY", AddressingMode::AbsoluteX, 3, 4)),
        0xBD => Some(OpCode::new(0xBD, "LDA", AddressingMode::AbsoluteX, 3, 4)),
        0xBE => Some(OpCode::new(0xBE, "LDX", AddressingMode::AbsoluteY, 3, 4)),
        _ => None,
    }
}

/// Table rows for opcode bytes `0xC0` to `0xFF`.
fn opcode_lookup_q3(code: u8) -> (r: Option<OpCode>)
    requires
        0xC0 <= code < 0x100,
    ensures
        r is Some <==> op_known(code),
        r matches Some(e) ==> e.code == code && e.mode == op_mode(code) && e.cycles == op_cycles(
            code,
        ) && e.name@ == op_name(code) && e.bytes == mode_size(e.mode) + 1,
{
    match code {
        0xC0 => Some(OpCode::new(0xC0, "CPY", AddressingMode::Immediate, 2, 2)),
        0xC1 => Some(OpCode::new(0xC1, "CMP", AddressingMode::IndirectX, 2, 6)),
        0xC4 => Some(OpCode::new(0xC4, "CPY", AddressingMode::ZeroPage, 2, 3)),
        0xC5 => Some(OpCode::new(0xC5, "CMP", AddressingMode::ZeroPage, 2, 3)),
        0xC6 => Some(OpCode::new(0xC6, "DEC", AddressingMode::ZeroPage, 2, 5)),
        0xC8 => Some(OpCode::new(0xC8, "INY", AddressingMode::NoneAddressing, 1, 2)),
        0xC9 => Some(OpCode::new(0xC9, "CMP", AddressingMode::Immediate, 2, 2)),
        0xCA => Some(OpCode::new(0xCA, "DEX", AddressingMode::NoneAddressing, 1, 2)),
        0xCC => Some(OpCode::new(0xCC, "CPY", AddressingMode::Absolute, 3, 4)),
        0xCD => Some(OpCode::new(0xCD, "CMP", AddressingMode::Absolute, 3, 4)),
        0xCE => Some(OpCode::new(0xCE, "DEC", AddressingMode::Absolute, 3, 6)),
        0xD0 => Some(OpCode::new(0xD0, "BNE", AddressingMode::Relative, 2, 2)),
        0xD1 => Some(OpCode::new(0xD1, "CMP", AddressingMode::IndirectY, 2, 5)),
        0xD5 => Some(OpCode::new(0xD5, "CMP", AddressingMode::ZeroPageX, 2, 4)),
        0xD6 => Some(OpCode::new(0xD6, "DEC", AddressingMode::ZeroPageX, 2, 6)),
        0xD8 => Some(OpCode::new(0xD8, "CLD", AddressingMode::NoneAddressing, 1, 2)),
        0xD9 => Some(OpCode::new(0xD9, "CMP", AddressingMode::AbsoluteY, 3, 4)),
        0xDD => Some(OpCode::new(0xDD, "CMP", AddressingMode::AbsoluteX, 3, 4)),
        0xDE => Some(OpCode::new(0xDE, "DEC", AddressingMode::AbsoluteX, 3, 7)),
        0xE0 => Some(OpCode::new(0xE0, "CPX", AddressingMode::Immediate, 2, 2)),
        0xE1 => Some(OpCode::new(0xE1, "SBC", AddressingMode::IndirectX, 2, 6)),
        0xE4 => Some(OpCode::new(0xE4, "CPX", AddressingMode::ZeroPage, 2, 3)),
        0xE5 => Some(OpCode::new(0xE5, "SBC", AddressingMode::ZeroPage, 2, 3)),
        0xE6 => Some(OpCode::new(0xE6, "INC", AddressingMode::ZeroPage, 2, 5)),
        0xE8 => Some(OpCode::new(0xE8, "INX", AddressingMode::NoneAddressing, 1, 2)),
        0xE9 => Some(OpCode::new(0xE9, "SBC", AddressingMode::Immediate, 2, 2)),
        0xEA => Some(OpCode::new(0xEA, "NOP", AddressingMode::NoneAddressing, 1, 2)),
        0xEC => Some(OpCode::new(0xEC, "CPX", AddressingMode::Absolute, 3, 4)),
        0xED => Some(OpCode::new(0xED, "SBC", AddressingMode::Absolute, 3, 4)),
        0xEE => Some(OpCode::new(0xEE, "INC", AddressingMode::Absolute, 3, 6)),
        0xF0 => Some(OpCode::new(0xF0, "BEQ", AddressingMode::Relative, 2, 2)),
        0xF1 => Some(OpCode::new(0xF1, "SBC", AddressingMode::IndirectY, 2, 5)),
        0xF5 => Some(OpCode::new(0xF5, "SBC", AddressingMode::ZeroPageX, 2, 4)),
        0xF6 => Some(OpCode::new(0xF6, "INC", AddressingMode::ZeroPageX, 2, 6)),
        0xF8 => Some(OpCode::new(0xF8, "SED", AddressingMode::NoneAddressing, 1, 2)),
        0xF9 => Some(OpCode::new(0xF9, "SBC", AddressingMode::AbsoluteY, 3, 4)),
        0xFD => Some(OpCode::new(0xFD, "SBC", AddressingMode::AbsoluteX, 3, 4)),
        0xFE => Some(OpCode::new(0xFE, "INC", AddressingMode::AbsoluteX, 3, 7)),
        _ => None,
    }
}

/// Looks up an opcode byte in the table.
///
/// Yields a row exactly for the documented opcodes, and the row is
/// internally consistent: its size in bytes is the addressing mode's
/// operand count plus one for the opcode byte itself.
pub fn opcode_lookup(code: u8) -> (r: Option<OpCode>)
    ensures
        r is Some <==> op_known(code),
        r matches Some(e) ==> e.code == code && e.mode == op_mode(code) && e.cycles == op_cycles(
            code,
        ) && e.name@ == op_name(code) && e.bytes == mode_size(e.mode) + 1,
{
    if code < 0x40 {
        opcode_lookup_q0(code)
    } else if code < 0x80 {
        opcode_lookup_q1(code)
    } else if code < 0xC0 {
        opcode_lookup_q2(code)
    } else {
        opcode_lookup_q3(code)
    }
}

} // verus!
