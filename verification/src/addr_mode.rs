//! The 6502 addressing modes and their operand sizes.

use vstd::prelude::*;

verus! {

/// How an instruction derives its effective address from the bytes after
/// the opcode and the index registers.
#[derive(Debug, Clone, Copy, PartialEq, Eq, Structural)]
pub enum AddressingMode {
    /// The operand byte itself is the value; the effective address is the
    /// operand's own location.
    Immediate,
    /// One operand byte addresses the zero page directly.
    ZeroPage,
    /// One operand byte plus X, wrapping within the zero page.
    ZeroPageX,
    /// One operand byte plus Y, wrapping within the zero page.
    ZeroPageY,
    /// Two operand bytes give a full 16-bit address.
    Absolute,
    /// A full 16-bit address plus X, modulo 2^16.
    AbsoluteX,
    /// A full 16-bit address plus Y, modulo 2^16.
    AbsoluteY,
    /// JMP only: the operand address holds the real target, with the
    /// famous page-wrap quirk when the pointer sits at the end of a page.
    Indirect,
    /// Zero-page pointer indexed by X before the 16-bit read, both
    /// wrapping within the zero page.
    IndirectX,
    /// Zero-page pointer read first, then Y added to the 16-bit base.
    IndirectY,
    /// Branches: a signed 8-bit offset from the byte after the operand.
    Relative,
    /// No operand: implied operations and accumulator forms.
    NoneAddressing,
}

/// Operand bytes the mode consumes after the opcode byte.
pub open spec fn mode_size(mode: AddressingMode) -> u8 {
    match mode {
        AddressingMode::NoneAddressing => 0,
        AddressingMode::Immediate => 1,
        AddressingMode::ZeroPage => 1,
        AddressingMode::ZeroPageX => 1,
        AddressingMode::ZeroPageY => 1,
        AddressingMode::IndirectX => 1,
        AddressingMode::IndirectY => 1,
        AddressingMode::Relative => 1,
        AddressingMode::Absolute => 2,
        AddressingMode::AbsoluteX => 2,
        AddressingMode::AbsoluteY => 2,
        AddressingMode::Indirect => 2,
    }
}

impl AddressingMode {
    /// The number of operand bytes the mode consumes, not counting the
    /// opcode byte itself.
    pub fn size(self) -> (r: u8)
        ensures
            r == mode_size(self),
    {
        match self {
            AddressingMode::NoneAddressing => 0,
            AddressingMode::Immediate
            | AddressingMode::ZeroPage
            | AddressingMode::ZeroPageX
            | AddressingMode::ZeroPageY
            | AddressingMode::IndirectX
            | AddressingMode::IndirectY
            | AddressingMode::Relative => 1,
            AddressingMode::Absolute
            | AddressingMode::AbsoluteX
            | AddressingMode::AbsoluteY
            | AddressingMode::Indirect => 2,
        }
    }
}

} // verus!
