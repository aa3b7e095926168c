//! Shifts and rotates: ASL, LSR, ROL, ROR, each in accumulator and
//! memory form.

use crate::addr_mode::AddressingMode;
use crate::cpu::{resolve_addr, set_a_spec, Cpu, CpuView};
use crate::status::{has_flag, nz_flags, set_flag, CARRY};
use vstd::prelude::*;

verus! {

/// ASL: shifts left one bit; the carry takes bit 7 and the low bit
/// becomes zero. With `NoneAddressing` the accumulator is shifted,
/// otherwise the addressed byte is shifted in place.
pub open spec fn asl_spec(s: CpuView, mode: AddressingMode) -> CpuView {
    if mode == AddressingMode::NoneAddressing {
        let val = s.a;
        let carried = s.with_status(set_flag(s.status, CARRY, val & 0x80 != 0));
        set_a_spec(carried, val << 1)
    } else {
        let t = resolve_addr(s, mode);
        let val = t.1.bus.read8(t.0);
        let carried = t.1.with_status(set_flag(t.1.status, CARRY, val & 0x80 != 0));
        let flagged = carried.with_status(nz_flags(carried.status, val << 1));
        flagged.with_bus(flagged.bus.write8(t.0, val << 1))
    }
}

/// Shifts the accumulator or the addressed byte left one bit; bit 7
/// lands in the carry and the zero and negative flags are refreshed.
pub fn asl(cpu: &mut Cpu, mode: AddressingMode)
    requires
        old(cpu)@.wf(),
    ensures
        final(cpu)@ == asl_spec(old(cpu)@, mode),
        final(cpu)@.wf(),
{
    if let AddressingMode::NoneAddressing = mode {
        let val = cpu.reg_a;
        cpu.status.set(CARRY, val & 0x80 != 0);
        cpu.set_reg_a(val << 1);
    } else {
        let addr = cpu.get_op_addr(mode);
        let val = cpu.bus.mem_read(addr);
        cpu.status.set(CARRY, val & 0x80 != 0);
        cpu.zero_and_neg_flags(val << 1);
        cpu.bus.mem_write(addr, val << 1);
        proof {
            assert(cpu@ =~= asl_spec(old(cpu)@, mode));
        }
    }
}

/// LSR: shifts right one bit; the carry takes bit 0 and the negative
/// flag always clears. With `NoneAddressing` the accumulator is shifted,
/// otherwise the addressed byte is shifted in place.
pub open spec fn lsr_spec(s: CpuView, mode: AddressingMode) -> CpuView {
    if mode == AddressingMode::NoneAddressing {
        let val = s.a;
        let carried = s.with_status(set_flag(s.status, CARRY, val & 1 != 0));
        set_a_spec(carried, val >> 1)
    } else {
        let t = resolve_addr(s, mode);
        let val = t.1.bus.read8(t.0);
        let carried = t.1.with_status(set_flag(t.1.status, CARRY, val & 1 != 0));
        let flagged = carried.with_status(nz_flags(carried.status, val >> 1));
        flagged.with_bus(flagged.bus.write8(t.0, val >> 1))
    }
}

/// Shifts the accumulator or the addressed byte right one bit; bit 0
/// lands in the carry and the zero and negative flags are refreshed.
pub fn lsr(cpu: &mut Cpu, mode: AddressingMode)
    requires
        old(cpu)@.wf(),
    ensures
        final(cpu)@ == lsr_spec(old(cpu)@, mode),
        final(cpu)@.wf(),
{
    if let AddressingMode::NoneAddressing = mode {
        let val = cpu.reg_a;
        cpu.status.set(CARRY, val & 1 != 0);
        cpu.set_reg_a(val >> 1);
    } else {
        let addr = cpu.get_op_addr(mode);
        let val = cpu.bus.mem_read(addr);
        cpu.status.set(CARRY, val & 1 != 0);
        cpu.zero_and_neg_flags(val >> 1);
        cpu.bus.mem_write(addr, val >> 1);
        proof {
            assert(cpu@ =~= lsr_spec(old(cpu)@, mode));
        }
    }
}

/// ROL: rotates left through the carry; the old carry enters bit 0 and
/// bit 7 leaves into the carry.
pub open spec fn rol_spec(s: CpuView, mode: AddressingMode) -> CpuView {
    if mode == AddressingMode::NoneAddressing {
        let val = s.a;
        let rotated = val << 1 | (if has_flag(s.status, CARRY) {
            1u8
        } else {
            0u8
        });
        let carried = s.with_status(set_flag(s.status, CARRY, val & 0x80 != 0));
        set_a_spec(carried, rotated)
    } else {
        let t = resolve_addr(s, mode);
        let val = t.1.bus.read8(t.0);
        let rotated = val << 1 | (if has_flag(t.1.status, CARRY) {
            1u8
        } else {
            0u8
        });
        let carried = t.1.with_status(set_flag(t.1.status, CARRY, val & 0x80 != 0));
        let flagged = carried.with_status(nz_flags(carried.status, rotated));
        flagged.with_bus(flagged.bus.write8(t.0, rotated))
    }
}

/// Rotates the accumulator or the addressed byte left through the carry;
/// the zero and negative flags are refreshed.
pub fn rol(cpu: &mut Cpu, mode: AddressingMode)
    requires
        old(cpu)@.wf(),
    ensures
        final(cpu)@ == rol_spec(old(cpu)@, mode),
        final(cpu)@.wf(),
{
    if let AddressingMode::NoneAddressing = mode {
        let val = cpu.reg_a;
        let carry_in: u8 = if cpu.status.contains(CARRY) {
            1
        } else {
            0
        };
        cpu.status.set(CARRY, val & 0x80 != 0);
        cpu.set_reg_a(val << 1 | carry_in);
    } else {
        let addr = cpu.get_op_addr(mode);
        let val = cpu.bus.mem_read(addr);
        let carry_in: u8 = if cpu.status.contains(CARRY) {
            1
        } else {
            0
        };
        cpu.status.set(CARRY, val & 0x80 != 0);
        cpu.zero_and_neg_flags(val << 1 | carry_in);
        cpu.bus.mem_write(addr, val << 1 | carry_in);
        proof {
            assert(cpu@ =~= rol_spec(old(cpu)@, mode));
        }
    }
}

/// ROR: rotates right through the carry; the old carry enters bit 7 and
/// bit 0 leaves into the carry.
pub open spec fn ror_spec(s: CpuView, mode: AddressingMode) -> CpuView {
    if mode == AddressingMode::NoneAddressing {
        let val = s.a;
        let rotated = val >> 1 | (if has_flag(s.status, CARRY) {
            1u8
        } else {
            0u8
        }) << 7;
        let carried = s.with_status(set_flag(s.status, CARRY, val & 1 != 0));
        set_a_spec(carried, rotated)
    } else {
        let t = resolve_addr(s, mode);
        let val = t.1.bus.read8(t.0);
        let rotated = val >> 1 | (if has_flag(t.1.status, CARRY) {
            1u8
        } else {
            0u8
        }) << 7;
        let carried = t.1.with_status(set_flag(t.1.status, CARRY, val & 1 != 0));
        let flagged = carried.with_status(nz_flags(carried.status, rotated));
        flagged.with_bus(flagged.bus.write8(t.0, rotated))
    }
}

/// Rotates the accumulator or the addressed byte right through the
/// carry; the zero and negative flags are refreshed.
pub fn ror(cpu: &mut Cpu, mode: AddressingMode)
    requires
        old(cpu)@.wf(),
    ensures
        final(cpu)@ == ror_spec(old(cpu)@, mode),
        final(cpu)@.wf(),
{
    if let AddressingMode::NoneAddressing = mode {
        let val = cpu.reg_a;
        let carry_in: u8 = if cpu.status.contains(CARRY) {
            1
        } else {
            0
        };
        cpu.status.set(CARRY, val & 1 != 0);
        cpu.set_reg_a(val >> 1 | carry_in << 7);
    } else {
        let addr = cpu.get_op_addr(mode);
        let val = cpu.bus.mem_read(addr);
        let carry_in: u8 = if cpu.status.contains(CARRY) {
            1
        } else {
            0
        };
        cpu.status.set(CARRY, val & 1 != 0);
        cpu.zero_and_neg_flags(val >> 1 | carry_in << 7);
        cpu.bus.mem_write(addr, val >> 1 | carry_in << 7);
        proof {
            assert(cpu@ =~= ror_spec(old(cpu)@, mode));
        }
    }
}

} // verus!
