//! Logical operations: AND, EOR, ORA and BIT.

use crate::addr_mode::AddressingMode;
use crate::cpu::{resolve_addr, set_a_spec, Cpu, CpuView};
use crate::status::{set_flag, NEGATIVE, OVERFLOW, ZERO};
use vstd::prelude::*;

verus! {

/// AND: bitwise-and of the accumulator with the addressed byte, with the
/// zero and negative flags refreshed.
pub open spec fn and_spec(s: CpuView, mode: AddressingMode) -> CpuView {
    let t = resolve_addr(s, mode);
    set_a_spec(t.1, t.1.a & t.1.bus.read8(t.0))
}

/// Bitwise-ands the accumulator with the addressed byte, setting the zero
/// and negative flags.
pub fn and(cpu: &mut Cpu, mode: AddressingMode)
    requires
        old(cpu)@.wf(),
        mode != AddressingMode::NoneAddressing,
    ensures
        final(cpu)@ == and_spec(old(cpu)@, mode),
        final(cpu)@.wf(),
{
    let addr = cpu.get_op_addr(mode);
    let val = cpu.bus.mem_read(addr);
    let result = cpu.reg_a & val;
    cpu.set_reg_a(result);
}

/// EOR: bitwise exclusive-or of the accumulator with the addressed byte,
/// with the zero and negative flags refreshed.
pub open spec fn eor_spec(s: CpuView, mode: AddressingMode) -> CpuView {
    let t = resolve_addr(s, mode);
    set_a_spec(t.1, t.1.a ^ t.1.bus.read8(t.0))
}

/// Bitwise exclusive-ors the accumulator with the addressed byte, setting
/// the zero and negative flags.
pub fn eor(cpu: &mut Cpu, mode: AddressingMode)
    requires
        old(cpu)@.wf(),
        mode != AddressingMode::NoneAddressing,
    ensures
        final(cpu)@ == eor_spec(old(cpu)@, mode),
        final(cpu)@.wf(),
{
    let addr = cpu.get_op_addr(mode);
    let val = cpu.bus.mem_read(addr);
    let result = cpu.reg_a ^ val;
    cpu.set_reg_a(result);
}

/// ORA: bitwise-or of the accumulator with the addressed byte, with the
/// zero and negative flags refreshed.
pub open spec fn ora_spec(s: CpuView, mode: AddressingMode) -> CpuView {
    let t = resolve_addr(s, mode);
    set_a_spec(t.1, t.1.a | t.1.bus.read8(t.0))
}

/// Bitwise-ors the accumulator with the addressed byte, setting the zero
/// and negative flags.
pub fn ora(cpu: &mut Cpu, mode: AddressingMode)
    requires
        old(cpu)@.wf(),
        mode != AddressingMode::NoneAddressing,
    ensures
        final(cpu)@ == ora_spec(old(cpu)@, mode),
        final(cpu)@.wf(),
{
    let addr = cpu.get_op_addr(mode);
    let val = cpu.bus.mem_read(addr);
    let result = cpu.reg_a | val;
    cpu.set_reg_a(result);
}

/// BIT: zero from `A & M`, negative from bit 7 of the addressed byte and
/// overflow from bit 6; the accumulator is untouched.
pub open spec fn bit_spec(s: CpuView, mode: AddressingMode) -> CpuView {
    let t = resolve_addr(s, mode);
    let m = t.1.bus.read8(t.0);
    t.1.with_status(
        set_flag(
            set_flag(set_flag(t.1.status, ZERO, t.1.a & m == 0), NEGATIVE, m & 0x80 != 0),
            OVERFLOW,
            m & 0x40 != 0,
        ),
    )
}

/// Tests the addressed byte against the accumulator: zero from the
/// conjunction, negative and overflow from bits 7 and 6 of the byte.
pub fn bit(cpu: &mut Cpu, mode: AddressingMode)
    requires
        old(cpu)@.wf(),
        mode != AddressingMode::NoneAddressing,
    ensures
        final(cpu)@ == bit_spec(old(cpu)@, mode),
        final(cpu)@.wf(),
{
    let addr = cpu.get_op_addr(mode);
    let val = cpu.bus.mem_read(addr);
    let a = cpu.reg_a;
    cpu.status.set(ZERO, a & val == 0);
    cpu.status.set(NEGATIVE, val & 0x80 != 0);
    cpu.status.set(OVERFLOW, val & 0x40 != 0);
}

} // verus!
