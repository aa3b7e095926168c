//! Register transfers: TAX, TAY, TXA, TYA.

use crate::addr_mode::AddressingMode;
use crate::cpu::{set_a_spec, Cpu, CpuView};
use crate::status::nz_flags;
use vstd::prelude::*;

verus! {

/// TAX: copies the accumulator into X and refreshes the zero and negative
/// flags.
pub open spec fn tax_spec(s: CpuView, mode: AddressingMode) -> CpuView {
    s.with_x(s.a).with_status(nz_flags(s.status, s.a))
}

/// Copies the accumulator into the X register, setting the zero and
/// negative flags.
pub fn tax(cpu: &mut Cpu, mode: AddressingMode)
    ensures
        final(cpu)@ == tax_spec(old(cpu)@, mode),
{
    cpu.reg_x = cpu.reg_a;
    let val = cpu.reg_x;
    cpu.zero_and_neg_flags(val);
}

/// TAY: copies the accumulator into Y and refreshes the zero and negative
/// flags.
pub open spec fn tay_spec(s: CpuView, mode: AddressingMode) -> CpuView {
    s.with_y(s.a).with_status(nz_flags(s.status, s.a))
}

/// Copies the accumulator into the Y register, setting the zero and
/// negative flags.
pub fn tay(cpu: &mut Cpu, mode: AddressingMode)
    ensures
        final(cpu)@ == tay_spec(old(cpu)@, mode),
{
    cpu.reg_y = cpu.reg_a;
    let val = cpu.reg_y;
    cpu.zero_and_neg_flags(val);
}

/// TXA: copies X into the accumulator and refreshes the zero and negative
/// flags.
pub open spec fn txa_spec(s: CpuView, mode: AddressingMode) -> CpuView {
    set_a_spec(s, s.x)
}

/// Copies the X register into the accumulator, setting the zero and
/// negative flags.
pub fn txa(cpu: &mut Cpu, mode: AddressingMode)
    ensures
        final(cpu)@ == txa_spec(old(cpu)@, mode),
{
    let val = cpu.reg_x;
    cpu.set_reg_a(val);
}

/// TYA: copies Y into the accumulator and refreshes the zero and negative
/// flags.
pub open spec fn tya_spec(s: CpuView, mode: AddressingMode) -> CpuView {
    set_a_spec(s, s.y)
}

/// Copies the Y register into the accumulator, setting the zero and
/// negative flags.
pub fn tya(cpu: &mut Cpu, mode: AddressingMode)
    ensures
        final(cpu)@ == tya_spec(old(cpu)@, mode),
{
    let val = cpu.reg_y;
    cpu.set_reg_a(val);
}

} // verus!
