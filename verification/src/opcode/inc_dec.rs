//! Increments and decrements: INX, INY, INC, DEX, DEY, DEC.

use crate::addr_mode::AddressingMode;
use crate::cpu::{resolve_addr, Cpu, CpuView};
use crate::status::nz_flags;
use crate::{wadd8, wsub8};
use vstd::prelude::*;

verus! {

/// INX: X increments modulo 256 and refreshes the zero and negative
/// flags.
pub open spec fn inx_spec(s: CpuView, mode: AddressingMode) -> CpuView {
    s.with_x(wadd8(s.x, 1)).with_status(nz_flags(s.status, wadd8(s.x, 1)))
}

/// Increments the X register, wrapping modulo 256 and setting the zero
/// and negative flags.
pub fn inx(cpu: &mut Cpu, mode: AddressingMode)
    ensures
        final(cpu)@ == inx_spec(old(cpu)@, mode),
{
    cpu.reg_x = cpu.reg_x.wrapping_add(1);
    let val = cpu.reg_x;
    cpu.zero_and_neg_flags(val);
}

/// INY: Y increments modulo 256 and refreshes the zero and negative
/// flags.
pub open spec fn iny_spec(s: CpuView, mode: AddressingMode) -> CpuView {
    s.with_y(wadd8(s.y, 1)).with_status(nz_flags(s.status, wadd8(s.y, 1)))
}

/// Increments the Y register, wrapping modulo 256 and setting the zero
/// and negative flags.
pub fn iny(cpu: &mut Cpu, mode: AddressingMode)
    ensures
        final(cpu)@ == iny_spec(old(cpu)@, mode),
{
    cpu.reg_y = cpu.reg_y.wrapping_add(1);
    let val = cpu.reg_y;
    cpu.zero_and_neg_flags(val);
}

/// INC: the addressed byte increments modulo 256, is written back, and
/// refreshes the zero and negative flags.
pub open spec fn inc_spec(s: CpuView, mode: AddressingMode) -> CpuView {
    let t = resolve_addr(s, mode);
    let val = wadd8(t.1.bus.read8(t.0), 1);
    let stored = t.1.with_bus(t.1.bus.write8(t.0, val));
    stored.with_status(nz_flags(stored.status, val))
}

/// Increments the addressed byte, wrapping modulo 256 and setting the
/// zero and negative flags.
pub fn inc(cpu: &mut Cpu, mode: AddressingMode)
    requires
        old(cpu)@.wf(),
        mode != AddressingMode::NoneAddressing,
    ensures
        final(cpu)@ == inc_spec(old(cpu)@, mode),
        final(cpu)@.wf(),
{
    let addr = cpu.get_op_addr(mode);
    let val = cpu.bus.mem_read(addr).wrapping_add(1);
    cpu.bus.mem_write(addr, val);
    cpu.zero_and_neg_flags(val);
    proof {
        assert(cpu@ =~= inc_spec(old(cpu)@, mode));
    }
}

/// DEX: X decrements modulo 256 and refreshes the zero and negative
/// flags.
pub open spec fn dex_spec(s: CpuView, mode: AddressingMode) -> CpuView {
    s.with_x(wsub8(s.x, 1)).with_status(nz_flags(s.status, wsub8(s.x, 1)))
}

/// Decrements the X register, wrapping modulo 256 and setting the zero
/// and negative flags.
pub fn dex(cpu: &mut Cpu, mode: AddressingMode)
    ensures
        final(cpu)@ == dex_spec(old(cpu)@, mode),
{
    cpu.reg_x = cpu.reg_x.wrapping_sub(1);
    let val = cpu.reg_x;
    cpu.zero_and_neg_flags(val);
}

/// DEY: Y decrements modulo 256 and refreshes the zero and negative
/// flags.
pub open spec fn dey_spec(s: CpuView, mode: AddressingMode) -> CpuView {
    s.with_y(wsub8(s.y, 1)).with_status(nz_flags(s.status, wsub8(s.y, 1)))
}

/// Decrements the Y register, wrapping modulo 256 and setting the zero
/// and negative flags.
pub fn dey(cpu: &mut Cpu, mode: AddressingMode)
    ensures
        final(cpu)@ == dey_spec(old(cpu)@, mode),
{
    cpu.reg_y = cpu.reg_y.wrapping_sub(1);
    let val = cpu.reg_y;
    cpu.zero_and_neg_flags(val);
}

/// DEC: the addressed byte decrements modulo 256, is written back, and
/// refreshes the zero and negative flags.
pub open spec fn dec_spec(s: CpuView, mode: AddressingMode) -> CpuView {
    let t = resolve_addr(s, mode);
    let val = wsub8(t.1.bus.read8(t.0), 1);
    let stored = t.1.with_bus(t.1.bus.write8(t.0, val));
    stored.with_status(nz_flags(stored.status, val))
}

/// Decrements the addressed byte, wrapping modulo 256 and setting the
/// zero and negative flags.
pub fn dec(cpu: &mut Cpu, mode: AddressingMode)
    requires
        old(cpu)@.wf(),
        mode != AddressingMode::NoneAddressing,
    ensures
        final(cpu)@ == dec_spec(old(cpu)@, mode),
        final(cpu)@.wf(),
{
    let addr = cpu.get_op_addr(mode);
    let val = cpu.bus.mem_read(addr).wrapping_sub(1);
    cpu.bus.mem_write(addr, val);
    cpu.zero_and_neg_flags(val);
    proof {
        assert(cpu@ =~= dec_spec(old(cpu)@, mode));
    }
}

} // verus!
