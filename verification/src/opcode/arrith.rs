//! Arithmetic: ADC, SBC and the comparisons CMP, CPX, CPY.

use crate::addr_mode::AddressingMode;
use crate::cpu::{resolve_addr, Cpu, CpuView};
use crate::status::{has_flag, nz_flags, set_flag, CARRY, OVERFLOW};
use crate::wsub8;
use vstd::prelude::*;

verus! {

/// The add-with-carry arithmetic on bytes: the wrapped sum, the carry out
/// of bit 7, and signed overflow per the 6502 formula
/// `(A ^ sum) & (M ^ sum) & 0x80 != 0`.
pub open spec fn adc_vals(a: u8, m: u8, carry_in: bool) -> (u8, bool, bool) {
    let c: int = if carry_in {
        1
    } else {
        0
    };
    let total = a + m + c;
    let res = (total % 0x100) as u8;
    (res, total > 0xFF, (a ^ res) & (m ^ res) & 0x80 != 0)
}

/// The machine after an add-with-carry of `m` into the accumulator: the
/// wrapped sum lands in A; zero, negative, carry and overflow are all
/// refreshed.
pub open spec fn add_with_carry_spec(s: CpuView, m: u8) -> CpuView {
    let r = adc_vals(s.a, m, has_flag(s.status, CARRY));
    s.with_a(r.0).with_status(
        set_flag(set_flag(nz_flags(s.status, r.0), CARRY, r.1), OVERFLOW, r.2),
    )
}

/// ADC: adds the addressed byte and the carry to the accumulator.
pub open spec fn adc_spec(s: CpuView, mode: AddressingMode) -> CpuView {
    let t = resolve_addr(s, mode);
    add_with_carry_spec(t.1, t.1.bus.read8(t.0))
}

/// SBC: subtracts the addressed byte; identical to ADC with the operand
/// replaced by its one's complement, which unifies carry and overflow.
pub open spec fn sbc_spec(s: CpuView, mode: AddressingMode) -> CpuView {
    let t = resolve_addr(s, mode);
    add_with_carry_spec(t.1, (0xFF - t.1.bus.read8(t.0)) as u8)
}

/// The shared body of ADC and SBC: subtraction feeds the one's complement
/// of the operand into the same adder.
fn op_with_carry(cpu: &mut Cpu, mode: AddressingMode, add: bool)
    requires
        old(cpu)@.wf(),
        mode != AddressingMode::NoneAddressing,
    ensures
        add ==> final(cpu)@ == adc_spec(old(cpu)@, mode),
        !add ==> final(cpu)@ == sbc_spec(old(cpu)@, mode),
        final(cpu)@.wf(),
{
    let addr = cpu.get_op_addr(mode);
    let fetched = cpu.bus.mem_read(addr);
    let val = if add {
        fetched
    } else {
        0xFF - fetched
    };
    let orig_a = cpu.reg_a;
    let carry_in: u16 = if cpu.status.contains(CARRY) {
        1
    } else {
        0
    };
    let total: u16 = orig_a as u16 + val as u16 + carry_in;
    let out = (total % 0x100) as u8;
    cpu.set_reg_a(out);
    cpu.status.set(CARRY, total > 0xFF);
    cpu.status.set(OVERFLOW, (orig_a ^ out) & (val ^ out) & 0x80 != 0);
}

/// Adds the addressed byte and the carry flag to the accumulator, setting
/// the zero, negative, carry and overflow flags.
pub fn adc(cpu: &mut Cpu, mode: AddressingMode)
    requires
        old(cpu)@.wf(),
        mode != AddressingMode::NoneAddressing,
    ensures
        final(cpu)@ == adc_spec(old(cpu)@, mode),
        final(cpu)@.wf(),
{
    op_with_carry(cpu, mode, true);
}

/// Subtracts the addressed byte (with borrow as inverted carry) from the
/// accumulator, setting the zero, negative, carry and overflow flags.
pub fn sbc(cpu: &mut Cpu, mode: AddressingMode)
    requires
        old(cpu)@.wf(),
        mode != AddressingMode::NoneAddressing,
    ensures
        final(cpu)@ == sbc_spec(old(cpu)@, mode),
        final(cpu)@.wf(),
{
    op_with_carry(cpu, mode, false);
}

/// A comparison of `reg` against the addressed byte: carry records
/// `reg >= m`, and zero and negative come from the wrapped difference.
/// The register itself is untouched.
pub open spec fn compare_spec(s: CpuView, mode: AddressingMode, reg: u8) -> CpuView {
    let t = resolve_addr(s, mode);
    let m = t.1.bus.read8(t.0);
    t.1.with_status(nz_flags(set_flag(t.1.status, CARRY, reg >= m), wsub8(reg, m)))
}

/// CMP compares the accumulator.
pub open spec fn cmp_spec(s: CpuView, mode: AddressingMode) -> CpuView {
    compare_spec(s, mode, s.a)
}

/// CPX compares the X register.
pub open spec fn cpx_spec(s: CpuView, mode: AddressingMode) -> CpuView {
    compare_spec(s, mode, s.x)
}

/// CPY compares the Y register.
pub open spec fn cpy_spec(s: CpuView, mode: AddressingMode) -> CpuView {
    compare_spec(s, mode, s.y)
}

/// Compares the accumulator with the addressed byte, setting the carry,
/// zero and negative flags.
pub fn cmp(cpu: &mut Cpu, mode: AddressingMode)
    requires
        old(cpu)@.wf(),
        mode != AddressingMode::NoneAddressing,
    ensures
        final(cpu)@ == cmp_spec(old(cpu)@, mode),
        final(cpu)@.wf(),
{
    let addr = cpu.get_op_addr(mode);
    let val = cpu.bus.mem_read(addr);
    let reg = cpu.reg_a;
    cpu.status.set(CARRY, reg >= val);
    cpu.zero_and_neg_flags(reg.wrapping_sub(val));
}

/// Compares the X register with the addressed byte, setting the carry,
/// zero and negative flags.
pub fn cpx(cpu: &mut Cpu, mode: AddressingMode)
    requires
        old(cpu)@.wf(),
        mode != AddressingMode::NoneAddressing,
    ensures
        final(cpu)@ == cpx_spec(old(cpu)@, mode),
        final(cpu)@.wf(),
{
    let addr = cpu.get_op_addr(mode);
    let val = cpu.bus.mem_read(addr);
    let reg = cpu.reg_x;
    cpu.status.set(CARRY, reg >= val);
    cpu.zero_and_neg_flags(reg.wrapping_sub(val));
}

/// Compares the Y register with the addressed byte, setting the carry,
/// zero and negative flags.
pub fn cpy(cpu: &mut Cpu, mode: AddressingMode)
    requires
        old(cpu)@.wf(),
        mode != AddressingMode::NoneAddressing,
    ensures
        final(cpu)@ == cpy_spec(old(cpu)@, mode),
        final(cpu)@.wf(),
{
    let addr = cpu.get_op_addr(mode);
    let val = cpu.bus.mem_read(addr);
    let reg = cpu.reg_y;
    cpu.status.set(CARRY, reg >= val);
    cpu.zero_and_neg_flags(reg.wrapping_sub(val));
}

/// ADC/SBC duality at the byte level: starting with the carry clear,
/// adding `m` and then subtracting `m` with the carry forced set returns
/// the accumulator byte to its original value; more generally the second
/// carry must be the complement of the first carry in.
pub proof fn lemma_adc_sbc_dual(a: u8, m: u8, c: bool)
    ensures
        adc_vals(adc_vals(a, m, c).0, (0xFF - m) as u8, !c).0 == a,
{
    let first = adc_vals(a, m, c);
    let second = adc_vals(first.0, (0xFF - m) as u8, !c);
    let ci: int = if c {
        1
    } else {
        0
    };
    assert(first.0 == (a + m + ci) % 0x100);
    assert(second.0 == ((a + m + ci) % 0x100 + (0xFF - m) + (1 - ci)) % 0x100);
    assert(((a + m + ci) % 0x100 + (0xFF - m) + (1 - ci)) % 0x100 == a) by (nonlinear_arith)
        requires
            0 <= a < 0x100,
            0 <= m < 0x100,
            0 <= ci <= 1,
    ;
}

} // verus!
