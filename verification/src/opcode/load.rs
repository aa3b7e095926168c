//! Load and store operations: LDA, LDX, LDY, STA, STX, STY.

use crate::addr_mode::AddressingMode;
use crate::cpu::{resolve_addr, set_a_spec, Cpu, CpuView};
use crate::status::nz_flags;
use vstd::prelude::*;

verus! {

/// LDA: the addressed byte lands in the accumulator and refreshes the
/// zero and negative flags.
pub open spec fn lda_spec(s: CpuView, mode: AddressingMode) -> CpuView {
    let t = resolve_addr(s, mode);
    set_a_spec(t.1, t.1.bus.read8(t.0))
}

/// Loads the addressed byte into the accumulator, setting the zero and
/// negative flags.
pub fn lda(cpu: &mut Cpu, mode: AddressingMode)
    requires
        old(cpu)@.wf(),
        mode != AddressingMode::NoneAddressing,
    ensures
        final(cpu)@ == lda_spec(old(cpu)@, mode),
        final(cpu)@.wf(),
{
    let addr = cpu.get_op_addr(mode);
    let val = cpu.bus.mem_read(addr);
    cpu.set_reg_a(val);
}

/// LDX: the addressed byte lands in X and refreshes the zero and negative
/// flags.
pub open spec fn ldx_spec(s: CpuView, mode: AddressingMode) -> CpuView {
    let t = resolve_addr(s, mode);
    let val = t.1.bus.read8(t.0);
    t.1.with_x(val).with_status(nz_flags(t.1.status, val))
}

/// Loads the addressed byte into the X register, setting the zero and
/// negative flags.
pub fn ldx(cpu: &mut Cpu, mode: AddressingMode)
    requires
        old(cpu)@.wf(),
        mode != AddressingMode::NoneAddressing,
    ensures
        final(cpu)@ == ldx_spec(old(cpu)@, mode),
        final(cpu)@.wf(),
{
    let addr = cpu.get_op_addr(mode);
    let val = cpu.bus.mem_read(addr);
    cpu.reg_x = val;
    cpu.zero_and_neg_flags(val);
}

/// LDY: the addressed byte lands in Y and refreshes the zero and negative
/// flags.
pub open spec fn ldy_spec(s: CpuView, mode: AddressingMode) -> CpuView {
    let t = resolve_addr(s, mode);
    let val = t.1.bus.read8(t.0);
    t.1.with_y(val).with_status(nz_flags(t.1.status, val))
}

/// Loads the addressed byte into the Y register, setting the zero and
/// negative flags.
pub fn ldy(cpu: &mut Cpu, mode: AddressingMode)
    requires
        old(cpu)@.wf(),
        mode != AddressingMode::NoneAddressing,
    ensures
        final(cpu)@ == ldy_spec(old(cpu)@, mode),
        final(cpu)@.wf(),
{
    let addr = cpu.get_op_addr(mode);
    let val = cpu.bus.mem_read(addr);
    cpu.reg_y = val;
    cpu.zero_and_neg_flags(val);
}

/// STA: the accumulator is written to the effective address; flags are
/// untouched.
pub open spec fn sta_spec(s: CpuView, mode: AddressingMode) -> CpuView {
    let t = resolve_addr(s, mode);
    t.1.with_bus(t.1.bus.write8(t.0, t.1.a))
}

/// Stores the accumulator at the effective address.
pub fn sta(cpu: &mut Cpu, mode: AddressingMode)
    requires
        old(cpu)@.wf(),
        mode != AddressingMode::NoneAddressing,
    ensures
        final(cpu)@ == sta_spec(old(cpu)@, mode),
        final(cpu)@.wf(),
{
    let addr = cpu.get_op_addr(mode);
    let val = cpu.reg_a;
    cpu.bus.mem_write(addr, val);
    proof {
        assert(cpu@ =~= sta_spec(old(cpu)@, mode));
    }
}

/// STX: the X register is written to the effective address; flags are
/// untouched.
pub open spec fn stx_spec(s: CpuView, mode: AddressingMode) -> CpuView {
    let t = resolve_addr(s, mode);
    t.1.with_bus(t.1.bus.write8(t.0, t.1.x))
}

/// Stores the X register at the effective address.
pub fn stx(cpu: &mut Cpu, mode: AddressingMode)
    requires
        old(cpu)@.wf(),
        mode != AddressingMode::NoneAddressing,
    ensures
        final(cpu)@ == stx_spec(old(cpu)@, mode),
        final(cpu)@.wf(),
{
    let addr = cpu.get_op_addr(mode);
    let val = cpu.reg_x;
    cpu.bus.mem_write(addr, val);
    proof {
        assert(cpu@ =~= stx_spec(old(cpu)@, mode));
    }
}

/// STY: the Y register is written to the effective address; flags are
/// untouched.
pub open spec fn sty_spec(s: CpuView, mode: AddressingMode) -> CpuView {
    let t = resolve_addr(s, mode);
    t.1.with_bus(t.1.bus.write8(t.0, t.1.y))
}

/// Stores the Y register at the effective address.
pub fn sty(cpu: &mut Cpu, mode: AddressingMode)
    requires
        old(cpu)@.wf(),
        mode != AddressingMode::NoneAddressing,
    ensures
        final(cpu)@ == sty_spec(old(cpu)@, mode),
        final(cpu)@.wf(),
{
    let addr = cpu.get_op_addr(mode);
    let val = cpu.reg_y;
    cpu.bus.mem_write(addr, val);
    proof {
        assert(cpu@ =~= sty_spec(old(cpu)@, mode));
    }
}

} // verus!
