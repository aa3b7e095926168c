//! System operations: BRK, NOP, RTI.

use crate::addr_mode::AddressingMode;
use crate::cpu::{pop16_spec, pop8_spec, Cpu, CpuView};
use crate::status::{Status, BREAK, UNUSED};
use crate::wadd16;
use vstd::prelude::*;

verus! {

/// BRK: sets the break flag and advances the program counter by one;
/// execution reports the halt instead of stacking a full interrupt
/// frame.
pub open spec fn brk_spec(s: CpuView, mode: AddressingMode) -> CpuView {
    s.with_pc(wadd16(s.pc, 1)).with_status(s.status | BREAK)
}

/// Breaks the program: the break flag is set and the program counter
/// advances by one, wrapping modulo 2^16.
pub fn brk(cpu: &mut Cpu, mode: AddressingMode)
    ensures
        final(cpu)@ == brk_spec(old(cpu)@, mode),
{
    cpu.pc = cpu.pc.wrapping_add(1);
    cpu.status.insert(BREAK);
}

/// NOP changes nothing.
pub open spec fn nop_spec(s: CpuView, mode: AddressingMode) -> CpuView {
    s
}

/// Performs no operation.
pub fn nop(cpu: &mut Cpu, mode: AddressingMode)
    ensures
        final(cpu)@ == nop_spec(old(cpu)@, mode),
{
}

/// RTI: pops the status byte (break cleared, unused forced set, the NES
/// convention), then pops the program counter with no increment.
pub open spec fn rti_spec(s: CpuView, mode: AddressingMode) -> CpuView {
    let p = pop8_spec(s);
    let t = pop16_spec(p.0);
    t.0.with_status((p.1 & !BREAK) | UNUSED).with_pc(t.1)
}

/// Returns from an interrupt routine: status first, then the program
/// counter, exactly as pushed.
pub fn rti(cpu: &mut Cpu, mode: AddressingMode)
    requires
        old(cpu)@.wf(),
    ensures
        final(cpu)@ == rti_spec(old(cpu)@, mode),
        final(cpu)@.wf(),
{
    let flags = cpu.pop();
    cpu.status = Status::from_bits_truncate((flags & !BREAK) | UNUSED);
    let addr = cpu.pop_u16();
    cpu.pc = addr;
    proof {
        assert(cpu@ =~= rti_spec(old(cpu)@, mode));
    }
}

} // verus!
