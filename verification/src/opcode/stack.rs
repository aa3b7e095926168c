//! Stack-related operations: TSX, TXS, PHA, PLA, PHP, PLP.

use crate::addr_mode::AddressingMode;
use crate::cpu::{pop8_spec, push8_spec, set_a_spec, Cpu, CpuView};
use crate::status::{nz_flags, Status, BREAK, UNUSED};
use vstd::prelude::*;

verus! {

/// TSX: copies the stack pointer into X and refreshes the zero and
/// negative flags.
pub open spec fn tsx_spec(s: CpuView, mode: AddressingMode) -> CpuView {
    s.with_x(s.sp).with_status(nz_flags(s.status, s.sp))
}

/// Copies the stack pointer into the X register, setting the zero and
/// negative flags.
pub fn tsx(cpu: &mut Cpu, mode: AddressingMode)
    ensures
        final(cpu)@ == tsx_spec(old(cpu)@, mode),
{
    cpu.reg_x = cpu.sp;
    let val = cpu.reg_x;
    cpu.zero_and_neg_flags(val);
}

/// TXS: copies X into the stack pointer; no flag changes.
pub open spec fn txs_spec(s: CpuView, mode: AddressingMode) -> CpuView {
    s.with_sp(s.x)
}

/// Copies the X register into the stack pointer.
pub fn txs(cpu: &mut Cpu, mode: AddressingMode)
    ensures
        final(cpu)@ == txs_spec(old(cpu)@, mode),
{
    cpu.sp = cpu.reg_x;
}

/// PHA: pushes the accumulator.
pub open spec fn pha_spec(s: CpuView, mode: AddressingMode) -> CpuView {
    push8_spec(s, s.a)
}

/// Pushes the accumulator onto the stack.
pub fn pha(cpu: &mut Cpu, mode: AddressingMode)
    requires
        old(cpu)@.wf(),
    ensures
        final(cpu)@ == pha_spec(old(cpu)@, mode),
        final(cpu)@.wf(),
{
    let val = cpu.reg_a;
    cpu.push(val);
}

/// PLA: pops a byte into the accumulator and refreshes the zero and
/// negative flags.
pub open spec fn pla_spec(s: CpuView, mode: AddressingMode) -> CpuView {
    let t = pop8_spec(s);
    set_a_spec(t.0, t.1)
}

/// Pops a byte from the stack into the accumulator, setting the zero and
/// negative flags.
pub fn pla(cpu: &mut Cpu, mode: AddressingMode)
    requires
        old(cpu)@.wf(),
    ensures
        final(cpu)@ == pla_spec(old(cpu)@, mode),
        final(cpu)@.wf(),
{
    let val = cpu.pop();
    cpu.set_reg_a(val);
}

/// PHP: pushes the status byte with the break and unused flags forced
/// set, the NES convention.
pub open spec fn php_spec(s: CpuView, mode: AddressingMode) -> CpuView {
    push8_spec(s, s.status | BREAK | UNUSED)
}

/// Pushes the status register with the break and unused flags forced set.
pub fn php(cpu: &mut Cpu, mode: AddressingMode)
    requires
        old(cpu)@.wf(),
    ensures
        final(cpu)@ == php_spec(old(cpu)@, mode),
        final(cpu)@.wf(),
{
    let val = cpu.status.bits() | BREAK | UNUSED;
    cpu.push(val);
}

/// PLP: pops the status byte, clearing the break flag and forcing the
/// unused flag set, the NES convention.
pub open spec fn plp_spec(s: CpuView, mode: AddressingMode) -> CpuView {
    let t = pop8_spec(s);
    t.0.with_status((t.1 & !BREAK) | UNUSED)
}

/// Pops the status register from the stack; the break flag is cleared and
/// the unused flag is forced set.
pub fn plp(cpu: &mut Cpu, mode: AddressingMode)
    requires
        old(cpu)@.wf(),
    ensures
        final(cpu)@ == plp_spec(old(cpu)@, mode),
        final(cpu)@.wf(),
{
    let val = cpu.pop();
    cpu.status = Status::from_bits_truncate((val & !BREAK) | UNUSED);
}

} // verus!
