//! Single-flag operations: SEC, CLC, SED, CLD, SEI, CLI, CLV.

use crate::addr_mode::AddressingMode;
use crate::cpu::{Cpu, CpuView};
use crate::status::{CARRY, DECIMAL_MODE, INTERRUPT_DISABLE, OVERFLOW};
use vstd::prelude::*;

verus! {

/// SEC sets the carry flag.
pub open spec fn sec_spec(s: CpuView, mode: AddressingMode) -> CpuView {
    s.with_status(s.status | CARRY)
}

/// Sets the carry flag.
pub fn sec(cpu: &mut Cpu, mode: AddressingMode)
    ensures
        final(cpu)@ == sec_spec(old(cpu)@, mode),
{
    cpu.status.insert(CARRY);
}

/// CLC clears the carry flag.
pub open spec fn clc_spec(s: CpuView, mode: AddressingMode) -> CpuView {
    s.with_status(s.status & !CARRY)
}

/// Clears the carry flag.
pub fn clc(cpu: &mut Cpu, mode: AddressingMode)
    ensures
        final(cpu)@ == clc_spec(old(cpu)@, mode),
{
    cpu.status.remove(CARRY);
}

/// SED sets the decimal-mode flag, which arithmetic ignores on the NES.
pub open spec fn sed_spec(s: CpuView, mode: AddressingMode) -> CpuView {
    s.with_status(s.status | DECIMAL_MODE)
}

/// Sets the decimal-mode flag; it is stored but ignored by arithmetic.
pub fn sed(cpu: &mut Cpu, mode: AddressingMode)
    ensures
        final(cpu)@ == sed_spec(old(cpu)@, mode),
{
    cpu.status.insert(DECIMAL_MODE);
}

/// CLD clears the decimal-mode flag.
pub open spec fn cld_spec(s: CpuView, mode: AddressingMode) -> CpuView {
    s.with_status(s.status & !DECIMAL_MODE)
}

/// Clears the decimal-mode flag.
pub fn cld(cpu: &mut Cpu, mode: AddressingMode)
    ensures
        final(cpu)@ == cld_spec(old(cpu)@, mode),
{
    cpu.status.remove(DECIMAL_MODE);
}

/// SEI sets the interrupt-disable flag.
pub open spec fn sei_spec(s: CpuView, mode: AddressingMode) -> CpuView {
    s.with_status(s.status | INTERRUPT_DISABLE)
}

/// Sets the interrupt-disable flag.
pub fn sei(cpu: &mut Cpu, mode: AddressingMode)
    ensures
        final(cpu)@ == sei_spec(old(cpu)@, mode),
{
    cpu.status.insert(INTERRUPT_DISABLE);
}

/// CLI clears the interrupt-disable flag.
pub open spec fn cli_spec(s: CpuView, mode: AddressingMode) -> CpuView {
    s.with_status(s.status & !INTERRUPT_DISABLE)
}

/// Clears the interrupt-disable flag.
pub fn cli(cpu: &mut Cpu, mode: AddressingMode)
    ensures
        final(cpu)@ == cli_spec(old(cpu)@, mode),
{
    cpu.status.remove(INTERRUPT_DISABLE);
}

/// CLV clears the overflow flag.
pub open spec fn clv_spec(s: CpuView, mode: AddressingMode) -> CpuView {
    s.with_status(s.status & !OVERFLOW)
}

/// Clears the overflow flag.
pub fn clv(cpu: &mut Cpu, mode: AddressingMode)
    ensures
        final(cpu)@ == clv_spec(old(cpu)@, mode),
{
    cpu.status.remove(OVERFLOW);
}

} // verus!
