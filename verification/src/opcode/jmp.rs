//! Jumps and subroutines: JMP, JSR, RTS.

use crate::addr_mode::AddressingMode;
use crate::cpu::{pop16_spec, push16_spec, resolve_addr, Cpu, CpuView};
use crate::{wadd16, wsub16};
use vstd::prelude::*;

verus! {

/// JMP: the program counter moves to the resolved target; the indirect
/// form reproduces the 6502 page-wrap quirk through address resolution.
pub open spec fn jmp_spec(s: CpuView, mode: AddressingMode) -> CpuView {
    let t = resolve_addr(s, mode);
    t.1.with_pc(t.0)
}

/// Jumps to the resolved target address.
pub fn jmp(cpu: &mut Cpu, mode: AddressingMode)
    requires
        old(cpu)@.wf(),
        mode != AddressingMode::NoneAddressing,
    ensures
        final(cpu)@ == jmp_spec(old(cpu)@, mode),
        final(cpu)@.wf(),
{
    let addr = cpu.get_op_addr(mode);
    cpu.pc = addr;
}

/// JSR: pushes the address of the final operand byte (the program
/// counter past the operand, minus one) and jumps to the target.
pub open spec fn jsr_spec(s: CpuView, mode: AddressingMode) -> CpuView {
    let t = resolve_addr(s, mode);
    push16_spec(t.1, wsub16(t.1.pc, 1)).with_pc(t.0)
}

/// Calls a subroutine: the return address minus one is pushed, then the
/// program counter moves to the target.
pub fn jsr(cpu: &mut Cpu, mode: AddressingMode)
    requires
        old(cpu)@.wf(),
        mode != AddressingMode::NoneAddressing,
    ensures
        final(cpu)@ == jsr_spec(old(cpu)@, mode),
        final(cpu)@.wf(),
{
    let addr = cpu.get_op_addr(mode);
    let ret = cpu.pc.wrapping_sub(1);
    cpu.push_u16(ret);
    cpu.pc = addr;
    proof {
        assert(cpu@ =~= jsr_spec(old(cpu)@, mode));
    }
}

/// RTS: pops the return address and resumes one byte past it.
pub open spec fn rts_spec(s: CpuView, mode: AddressingMode) -> CpuView {
    let t = pop16_spec(s);
    t.0.with_pc(wadd16(t.1, 1))
}

/// Returns from a subroutine: the popped address plus one becomes the
/// program counter.
pub fn rts(cpu: &mut Cpu, mode: AddressingMode)
    requires
        old(cpu)@.wf(),
    ensures
        final(cpu)@ == rts_spec(old(cpu)@, mode),
        final(cpu)@.wf(),
{
    let addr = cpu.pop_u16();
    cpu.pc = addr.wrapping_add(1);
    proof {
        assert(cpu@ =~= rts_spec(old(cpu)@, mode));
    }
}

} // verus!
