//! Conditional branches: BCC, BCS, BEQ, BNE, BMI, BPL, BVC, BVS.
//!
//! A taken branch sets the program counter to `operand_pc + 1` plus the
//! sign-extended offset, modulo 2^16; a branch not taken leaves it at
//! `operand_pc + 1`.

use crate::addr_mode::AddressingMode;
use crate::cpu::{resolve_addr, Cpu, CpuView};
use crate::status::{has_flag, CARRY, NEGATIVE, OVERFLOW, ZERO};
use vstd::prelude::*;

verus! {

/// The machine after a branch: when the condition holds the program
/// counter moves to the resolved target, otherwise only the operand is
/// consumed.
pub open spec fn branch_if_spec(s: CpuView, mode: AddressingMode, cond: bool) -> CpuView {
    let t = resolve_addr(s, mode);
    if cond {
        t.1.with_pc(t.0)
    } else {
        t.1
    }
}

/// Consumes the branch operand and jumps to the resolved target when the
/// condition holds.
fn branch_if(cpu: &mut Cpu, mode: AddressingMode, cond: bool)
    requires
        old(cpu)@.wf(),
        mode != AddressingMode::NoneAddressing,
    ensures
        final(cpu)@ == branch_if_spec(old(cpu)@, mode, cond),
        final(cpu)@.wf(),
{
    let addr = cpu.get_op_addr(mode);
    if cond {
        cpu.pc = addr;
    }
}

/// Branch target: after a taken branch the program counter is the byte
/// past the offset plus the sign-extended offset, modulo 2^16; after a
/// branch not taken it is the byte past the offset.
pub proof fn lemma_branch_target(s: CpuView, cond: bool)
    ensures
        cond ==> branch_if_spec(s, AddressingMode::Relative, cond).pc == crate::cpu::branch_target(
            crate::wadd16(s.pc, 1),
            s.bus.read8(s.pc),
        ),
        !cond ==> branch_if_spec(s, AddressingMode::Relative, cond).pc == crate::wadd16(s.pc, 1),
{
}

/// BCC branches when the carry flag is clear.
pub open spec fn bcc_spec(s: CpuView, mode: AddressingMode) -> CpuView {
    branch_if_spec(s, mode, !has_flag(s.status, CARRY))
}

/// Branches when the carry flag is clear.
pub fn bcc(cpu: &mut Cpu, mode: AddressingMode)
    requires
        old(cpu)@.wf(),
        mode != AddressingMode::NoneAddressing,
    ensures
        final(cpu)@ == bcc_spec(old(cpu)@, mode),
        final(cpu)@.wf(),
{
    let cond = !cpu.status.contains(CARRY);
    branch_if(cpu, mode, cond);
}

/// BCS branches when the carry flag is set.
pub open spec fn bcs_spec(s: CpuView, mode: AddressingMode) -> CpuView {
    branch_if_spec(s, mode, has_flag(s.status, CARRY))
}

/// Branches when the carry flag is set.
pub fn bcs(cpu: &mut Cpu, mode: AddressingMode)
    requires
        old(cpu)@.wf(),
        mode != AddressingMode::NoneAddressing,
    ensures
        final(cpu)@ == bcs_spec(old(cpu)@, mode),
        final(cpu)@.wf(),
{
    let cond = cpu.status.contains(CARRY);
    branch_if(cpu, mode, cond);
}

/// BEQ branches when the zero flag is set.
pub open spec fn beq_spec(s: CpuView, mode: AddressingMode) -> CpuView {
    branch_if_spec(s, mode, has_flag(s.status, ZERO))
}

/// Branches when the zero flag is set.
pub fn beq(cpu: &mut Cpu, mode: AddressingMode)
    requires
        old(cpu)@.wf(),
        mode != AddressingMode::NoneAddressing,
    ensures
        final(cpu)@ == beq_spec(old(cpu)@, mode),
        final(cpu)@.wf(),
{
    let cond = cpu.status.contains(ZERO);
    branch_if(cpu, mode, cond);
}

/// BNE branches when the zero flag is clear.
pub open spec fn bne_spec(s: CpuView, mode: AddressingMode) -> CpuView {
    branch_if_spec(s, mode, !has_flag(s.status, ZERO))
}

/// Branches when the zero flag is clear.
pub fn bne(cpu: &mut Cpu, mode: AddressingMode)
    requires
        old(cpu)@.wf(),
        mode != AddressingMode::NoneAddressing,
    ensures
        final(cpu)@ == bne_spec(old(cpu)@, mode),
        final(cpu)@.wf(),
{
    let cond = !cpu.status.contains(ZERO);
    branch_if(cpu, mode, cond);
}

/// BMI branches when the negative flag is set.
pub open spec fn bmi_spec(s: CpuView, mode: AddressingMode) -> CpuView {
    branch_if_spec(s, mode, has_flag(s.status, NEGATIVE))
}

/// Branches when the negative flag is set.
pub fn bmi(cpu: &mut Cpu, mode: AddressingMode)
    requires
        old(cpu)@.wf(),
        mode != AddressingMode::NoneAddressing,
    ensures
        final(cpu)@ == bmi_spec(old(cpu)@, mode),
        final(cpu)@.wf(),
{
    let cond = cpu.status.contains(NEGATIVE);
    branch_if(cpu, mode, cond);
}

/// BPL branches when the negative flag is clear.
pub open spec fn bpl_spec(s: CpuView, mode: AddressingMode) -> CpuView {
    branch_if_spec(s, mode, !has_flag(s.status, NEGATIVE))
}

/// Branches when the negative flag is clear.
pub fn bpl(cpu: &mut Cpu, mode: AddressingMode)
    requires
        old(cpu)@.wf(),
        mode != AddressingMode::NoneAddressing,
    ensures
        final(cpu)@ == bpl_spec(old(cpu)@, mode),
        final(cpu)@.wf(),
{
    let cond = !cpu.status.contains(NEGATIVE);
    branch_if(cpu, mode, cond);
}

/// BVS branches when the overflow flag is set.
pub open spec fn bvs_spec(s: CpuView, mode: AddressingMode) -> CpuView {
    branch_if_spec(s, mode, has_flag(s.status, OVERFLOW))
}

/// Branches when the overflow flag is set.
pub fn bvs(cpu: &mut Cpu, mode: AddressingMode)
    requires
        old(cpu)@.wf(),
        mode != AddressingMode::NoneAddressing,
    ensures
        final(cpu)@ == bvs_spec(old(cpu)@, mode),
        final(cpu)@.wf(),
{
    let cond = cpu.status.contains(OVERFLOW);
    branch_if(cpu, mode, cond);
}

/// BVC branches when the overflow flag is clear.
pub open spec fn bvc_spec(s: CpuView, mode: AddressingMode) -> CpuView {
    branch_if_spec(s, mode, !has_flag(s.status, OVERFLOW))
}

/// Branches when the overflow flag is clear.
pub fn bvc(cpu: &mut Cpu, mode: AddressingMode)
    requires
        old(cpu)@.wf(),
        mode != AddressingMode::NoneAddressing,
    ensures
        final(cpu)@ == bvc_spec(old(cpu)@, mode),
        final(cpu)@.wf(),
{
    let cond = !cpu.status.contains(OVERFLOW);
    branch_if(cpu, mode, cond);
}

} // verus!
