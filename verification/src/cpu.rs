//! The CPU: registers, status, the bus it owns, addressing-mode
//! resolution, stack operations, the reset sequence and the
//! fetch-decode-execute loop.

use crate::addr_mode::AddressingMode;
use crate::bus::{Bus, BusView};
use crate::opcode::{instr_spec, op_known, op_mode, opcode_lookup, step_halts, step_ok, step_spec};
use crate::status::{nz_flags, Status, INTERRUPT_DISABLE, UNUSED};
use crate::{wadd16, wadd8, wsub16, wsub8};
use vstd::prelude::*;

verus! {

/// Page 1 is the hardware stack.
pub const STACK: u16 = 0x0100;

/// The stack pointer's value after reset.
pub const STACK_RESET: u8 = 0xFD;

/// An error surfaced while executing instructions.
#[derive(Debug, Clone, Copy, PartialEq, Eq, Structural)]
pub enum Error {
    /// The fetched byte is not a documented opcode; `offset` is its
    /// address, and the program counter is left just past it.
    InvalidOpcode { opcode: u8, offset: u16 },
}

/// The CPU: the register file plus the bus it exclusively owns.
pub struct Cpu {
    pub reg_a: u8,
    pub reg_x: u8,
    pub reg_y: u8,
    pub status: Status,
    pub sp: u8,
    pub pc: u16,
    pub bus: Bus,
}

/// The mathematical shape of the whole machine: registers, flag byte and
/// memory.
pub struct CpuView {
    pub a: u8,
    pub x: u8,
    pub y: u8,
    pub status: u8,
    pub sp: u8,
    pub pc: u16,
    pub bus: BusView,
}

impl View for Cpu {
    type V = CpuView;

    open spec fn view(&self) -> CpuView {
        CpuView {
            a: self.reg_a,
            x: self.reg_x,
            y: self.reg_y,
            status: self.status@,
            sp: self.sp,
            pc: self.pc,
            bus: self.bus@,
        }
    }
}

impl CpuView {
    /// The machine is well formed when its RAM has its fixed size.
    pub open spec fn wf(self) -> bool {
        self.bus.wf()
    }

    pub open spec fn with_a(self, a: u8) -> CpuView {
        CpuView { a, ..self }
    }

    pub open spec fn with_x(self, x: u8) -> CpuView {
        CpuView { x, ..self }
    }

    pub open spec fn with_y(self, y: u8) -> CpuView {
        CpuView { y, ..self }
    }

    pub open spec fn with_status(self, status: u8) -> CpuView {
        CpuView { status, ..self }
    }

    pub open spec fn with_sp(self, sp: u8) -> CpuView {
        CpuView { sp, ..self }
    }

    pub open spec fn with_pc(self, pc: u16) -> CpuView {
        CpuView { pc, ..self }
    }

    pub open spec fn with_bus(self, bus: BusView) -> CpuView {
        CpuView { bus, ..self }
    }
}

/// A 16-bit read whose high byte wraps within the zero page: the low byte
/// sits at `ptr` and the high byte at `(ptr + 1) mod 256`.
pub open spec fn read16_zp_spec(bus: BusView, ptr: u8) -> u16 {
    (bus.read8(ptr as u16) + bus.read8(wadd8(ptr, 1) as u16) * 0x100) as u16
}

/// The 16-bit read JMP indirect performs, with the 6502's page-wrap
/// quirk: when the pointer's low byte is `0xFF` the high byte comes from
/// the start of the same page, not the next one.
pub open spec fn read16_bug_spec(bus: BusView, ptr: u16) -> u16 {
    let hi_addr = if ptr % 0x100 == 0xFF {
        (ptr - 0xFF) as u16
    } else {
        wadd16(ptr, 1)
    };
    (bus.read8(ptr) + bus.read8(hi_addr) * 0x100) as u16
}

/// The target of a relative branch: the address of the byte after the
/// offset plus the sign-extended offset, modulo 2^16. `pc_after` is
/// `operand_pc + 1`.
pub open spec fn branch_target(pc_after: u16, offset: u8) -> u16 {
    if offset < 0x80 {
        wadd16(pc_after, offset as u16)
    } else {
        wsub16(wadd16(pc_after, offset as u16), 0x100)
    }
}

/// Addressing-mode resolution: the effective address an instruction
/// operates on, paired with the machine after the operand bytes have been
/// consumed. `NoneAddressing` consumes nothing and yields address zero;
/// executable code never resolves it.
pub open spec fn resolve_addr(s: CpuView, mode: AddressingMode) -> (u16, CpuView) {
    let one = s.with_pc(wadd16(s.pc, 1));
    let two = s.with_pc(wadd16(s.pc, 2));
    match mode {
        AddressingMode::Immediate => (s.pc, one),
        AddressingMode::ZeroPage => (s.bus.read8(s.pc) as u16, one),
        AddressingMode::ZeroPageX => (wadd8(s.bus.read8(s.pc), s.x) as u16, one),
        AddressingMode::ZeroPageY => (wadd8(s.bus.read8(s.pc), s.y) as u16, one),
        AddressingMode::Absolute => (s.bus.read16(s.pc), two),
        AddressingMode::AbsoluteX => (wadd16(s.bus.read16(s.pc), s.x as u16), two),
        AddressingMode::AbsoluteY => (wadd16(s.bus.read16(s.pc), s.y as u16), two),
        AddressingMode::Indirect => (read16_bug_spec(s.bus, s.bus.read16(s.pc)), two),
        AddressingMode::IndirectX => (
            read16_zp_spec(s.bus, wadd8(s.bus.read8(s.pc), s.x)),
            one,
        ),
        AddressingMode::IndirectY => (
            wadd16(read16_zp_spec(s.bus, s.bus.read8(s.pc)), s.y as u16),
            one,
        ),
        AddressingMode::Relative => (branch_target(wadd16(s.pc, 1), s.bus.read8(s.pc)), one),
        AddressingMode::NoneAddressing => (0, s),
    }
}

/// The machine after a byte is pushed: the byte lands in page 1 at the
/// stack pointer, which then decrements modulo 256.
pub open spec fn push8_spec(s: CpuView, val: u8) -> CpuView {
    s.with_bus(s.bus.write8((0x100 + s.sp) as u16, val)).with_sp(wsub8(s.sp, 1))
}

/// The machine after a byte is popped, paired with the byte: the stack
/// pointer increments modulo 256 first, then the byte is read from page 1.
pub open spec fn pop8_spec(s: CpuView) -> (CpuView, u8) {
    let sp1 = wadd8(s.sp, 1);
    (s.with_sp(sp1), s.bus.read8((0x100 + sp1) as u16))
}

/// A 16-bit push: high byte first, so the low byte pops first.
pub open spec fn push16_spec(s: CpuView, val: u16) -> CpuView {
    push8_spec(push8_spec(s, (val / 0x100) as u8), (val % 0x100) as u8)
}

/// A 16-bit pop: low byte first, then the high byte.
pub open spec fn pop16_spec(s: CpuView) -> (CpuView, u16) {
    let lo = pop8_spec(s);
    let hi = pop8_spec(lo.0);
    (hi.0, (lo.1 + hi.1 * 0x100) as u16)
}

/// The state reset establishes: registers cleared, stack pointer at its
/// reset value, only interrupt-disable and the unused flag set, and the
/// program counter loaded from the reset vector. Memory is untouched.
pub open spec fn reset_state(bus: BusView) -> CpuView {
    CpuView {
        a: 0,
        x: 0,
        y: 0,
        status: INTERRUPT_DISABLE | UNUSED,
        sp: STACK_RESET,
        pc: bus.read16(0xFFFC),
        bus,
    }
}

/// The bus after `bytes` have been written one after another starting at
/// `base`, addresses wrapping modulo 2^16.
pub open spec fn store_seq(bus: BusView, base: u16, bytes: Seq<u8>) -> BusView
    decreases bytes.len(),
{
    if bytes.len() == 0 {
        bus
    } else {
        store_seq(bus, base, bytes.drop_last()).write8(
            wadd16(base, (bytes.len() - 1) as u16),
            bytes.last(),
        )
    }
}

/// The bus after a program image is loaded at `0x0600`: at most 65535
/// bytes are copied, as writes, so only the RAM window retains them.
pub open spec fn load_bus_spec(bus: BusView, prog: Seq<u8>) -> BusView {
    let bytes = if prog.len() > 0xFFFF {
        prog.take(0xFFFF)
    } else {
        prog
    };
    store_seq(bus, 0x0600, bytes)
}

/// The machine after `load`: the program is stored at `0x0600` and the
/// program counter points there exactly when the reset vector reads zero.
pub open spec fn load_spec(s: CpuView, prog: Seq<u8>) -> CpuView {
    let bus = load_bus_spec(s.bus, prog);
    let vector = bus.read16(0xFFFC);
    s.with_bus(bus).with_pc(
        if vector == 0 {
            0x0600
        } else {
            vector
        },
    )
}

/// The accumulator write every load, transfer, logical and arithmetic
/// result goes through: sets A and refreshes the zero and negative flags.
pub open spec fn set_a_spec(s: CpuView, val: u8) -> CpuView {
    s.with_a(val).with_status(nz_flags(s.status, val))
}

/// `s2` is reached from `s1` by exactly `n` steps, none of which halts
/// or hits an unknown opcode before `s2`.
pub open spec fn runs_to(s1: CpuView, s2: CpuView, n: nat) -> bool
    decreases n,
{
    if n == 0 {
        s2 == s1
    } else {
        step_ok(s1) && !step_halts(s1) && runs_to(step_spec(s1), s2, (n - 1) as nat)
    }
}

/// `s` is reached from `s0` by some number of non-halting steps.
pub open spec fn reaches_from(s0: CpuView, s: CpuView) -> bool {
    exists|n: nat| runs_to(s0, s, n)
}

/// Appending one more non-halting step to a run keeps it a run.
proof fn lemma_runs_to_snoc(s1: CpuView, s2: CpuView, n: nat)
    requires
        runs_to(s1, s2, n),
        step_ok(s2),
        !step_halts(s2),
    ensures
        runs_to(s1, step_spec(s2), n + 1),
    decreases n,
{
    if n == 0 {
        assert(runs_to(step_spec(s2), step_spec(s2), 0));
        assert(runs_to(s1, step_spec(s2), 1) == (step_ok(s1) && !step_halts(s1) && runs_to(
            step_spec(s1),
            step_spec(s2),
            0,
        )));
    } else {
        lemma_runs_to_snoc(step_spec(s1), s2, (n - 1) as nat);
        assert(runs_to(step_spec(s1), step_spec(s2), n));
        assert(runs_to(s1, step_spec(s2), n + 1) == (step_ok(s1) && !step_halts(s1) && runs_to(
            step_spec(s1),
            step_spec(s2),
            n,
        )));
    }
}

/// Reads a 16-bit word whose high byte wraps within the zero page.
fn read16_zp(bus: &Bus, ptr: u8) -> (r: u16)
    requires
        bus@.wf(),
    ensures
        r == read16_zp_spec(bus@, ptr),
{
    let lo = bus.mem_read(ptr as u16);
    let hi = bus.mem_read(ptr.wrapping_add(1) as u16);
    lo as u16 + hi as u16 * 0x100
}

impl Cpu {
    /// Creates a CPU over the given bus, in the reset state: the program
    /// counter comes from the reset vector at `0xFFFC`.
    pub fn new(bus: Bus) -> (r: Cpu)
        requires
            bus@.wf(),
        ensures
            r@ == reset_state(bus@),
            r@.wf(),
    {
        let pc = bus.mem_read_u16(0xFFFC);
        Cpu {
            reg_a: 0,
            reg_x: 0,
            reg_y: 0,
            status: Status::from_bits_truncate(INTERRUPT_DISABLE | UNUSED),
            sp: STACK_RESET,
            pc,
            bus,
        }
    }

    /// Resets the CPU to its initial state; RAM and cartridge are kept
    /// intact.
    pub fn reset(&mut self)
        requires
            old(self)@.wf(),
        ensures
            final(self)@ == reset_state(old(self)@.bus),
            final(self)@.wf(),
    {
        self.reg_a = 0;
        self.reg_x = 0;
        self.reg_y = 0;
        self.status = Status::from_bits_truncate(INTERRUPT_DISABLE | UNUSED);
        self.sp = STACK_RESET;
        self.pc = self.bus.mem_read_u16(0xFFFC);
    }

    /// Resolves the effective address for `mode` from the bytes at the
    /// program counter, advancing the counter past the operand.
    pub fn get_op_addr(&mut self, mode: AddressingMode) -> (r: u16)
        requires
            old(self)@.wf(),
            mode != AddressingMode::NoneAddressing,
        ensures
            r == resolve_addr(old(self)@, mode).0,
            final(self)@ == resolve_addr(old(self)@, mode).1,
            final(self)@.wf(),
    {
        match mode {
            AddressingMode::Immediate => {
                let prev_pc = self.pc;
                self.pc = self.pc.wrapping_add(1);
                prev_pc
            },
            AddressingMode::ZeroPage => self.take() as u16,
            AddressingMode::ZeroPageX => {
                let base = self.take();
                base.wrapping_add(self.reg_x) as u16
            },
            AddressingMode::ZeroPageY => {
                let base = self.take();
                base.wrapping_add(self.reg_y) as u16
            },
            AddressingMode::Absolute => self.take_u16(),
            AddressingMode::AbsoluteX => {
                let base = self.take_u16();
                base.wrapping_add(self.reg_x as u16)
            },
            AddressingMode::AbsoluteY => {
                let base = self.take_u16();
                base.wrapping_add(self.reg_y as u16)
            },
            AddressingMode::Indirect => {
                let ptr = self.take_u16();
                let lo = self.bus.mem_read(ptr);
                let hi = if ptr % 0x100 == 0xFF {
                    // the 6502 quirk: the high byte comes from the start
                    // of the pointer's own page
                    self.bus.mem_read(ptr - 0xFF)
                } else {
                    self.bus.mem_read(ptr.wrapping_add(1))
                };
                lo as u16 + hi as u16 * 0x100
            },
            AddressingMode::IndirectX => {
                let base = self.take();
                let ptr = base.wrapping_add(self.reg_x);
                read16_zp(&self.bus, ptr)
            },
            AddressingMode::IndirectY => {
                let zp = self.take();
                let base = read16_zp(&self.bus, zp);
                base.wrapping_add(self.reg_y as u16)
            },
            AddressingMode::Relative => {
                let offset = self.take();
                if offset < 0x80 {
                    self.pc.wrapping_add(offset as u16)
                } else {
                    self.pc.wrapping_add(offset as u16).wrapping_sub(0x100)
                }
            },
            AddressingMode::NoneAddressing => {
                proof {
                    assert(false);
                }
                0
            },
        }
    }

    /// Sets the accumulator and refreshes the zero and negative flags.
    pub fn set_reg_a(&mut self, val: u8)
        ensures
            final(self)@ == set_a_spec(old(self)@, val),
    {
        self.reg_a = val;
        self.zero_and_neg_flags(val);
    }

    /// Sets the zero flag when `val` is zero and the negative flag when
    /// bit 7 of `val` is set; no other flag changes.
    pub fn zero_and_neg_flags(&mut self, val: u8)
        ensures
            final(self)@ == old(self)@.with_status(nz_flags(old(self)@.status, val)),
    {
        if val == 0 {
            self.status.insert(crate::status::ZERO);
        } else {
            self.status.remove(crate::status::ZERO);
        }
        if val & 0x80 != 0 {
            self.status.insert(crate::status::NEGATIVE);
        } else {
            self.status.remove(crate::status::NEGATIVE);
        }
    }

    /// Pushes a byte onto the stack in page 1; the stack pointer
    /// decrements after the store, wrapping modulo 256.
    pub fn push(&mut self, val: u8)
        requires
            old(self)@.wf(),
        ensures
            final(self)@ =~= push8_spec(old(self)@, val),
            final(self)@.wf(),
    {
        self.bus.mem_write(STACK + self.sp as u16, val);
        self.sp = self.sp.wrapping_sub(1);
    }

    /// Pushes a 16-bit word: high byte first, so the low byte pops first.
    pub fn push_u16(&mut self, val: u16)
        requires
            old(self)@.wf(),
        ensures
            final(self)@ =~= push16_spec(old(self)@, val),
            final(self)@.wf(),
    {
        let lo = (val % 0x100) as u8;
        let hi = (val / 0x100) as u8;
        self.push(hi);
        self.push(lo);
    }

    /// Pops a byte from the stack: the stack pointer increments first,
    /// wrapping modulo 256, then the byte is read.
    pub fn pop(&mut self) -> (r: u8)
        requires
            old(self)@.wf(),
        ensures
            final(self)@ =~= pop8_spec(old(self)@).0,
            r == pop8_spec(old(self)@).1,
            final(self)@.wf(),
    {
        self.sp = self.sp.wrapping_add(1);
        self.bus.mem_read(STACK + self.sp as u16)
    }

    /// Pops a 16-bit word: low byte first, then the high byte.
    pub fn pop_u16(&mut self) -> (r: u16)
        requires
            old(self)@.wf(),
        ensures
            final(self)@ =~= pop16_spec(old(self)@).0,
            r == pop16_spec(old(self)@).1,
            final(self)@.wf(),
    {
        let lo = self.pop();
        let hi = self.pop();
        lo as u16 + hi as u16 * 0x100
    }

    /// Takes the next byte at the program counter and advances the
    /// counter, wrapping modulo 2^16.
    pub fn take(&mut self) -> (r: u8)
        requires
            old(self)@.wf(),
        ensures
            r == old(self)@.bus.read8(old(self)@.pc),
            final(self)@ == old(self)@.with_pc(wadd16(old(self)@.pc, 1)),
            final(self)@.wf(),
    {
        let byte = self.bus.mem_read(self.pc);
        self.pc = self.pc.wrapping_add(1);
        byte
    }

    /// Takes the next little-endian 16-bit word at the program counter
    /// and advances the counter by two, wrapping modulo 2^16.
    pub fn take_u16(&mut self) -> (r: u16)
        requires
            old(self)@.wf(),
        ensures
            r == old(self)@.bus.read16(old(self)@.pc),
            final(self)@ == old(self)@.with_pc(wadd16(old(self)@.pc, 2)),
            final(self)@.wf(),
    {
        let num = self.bus.mem_read_u16(self.pc);
        self.pc = self.pc.wrapping_add(2);
        num
    }

    /// Loads a program image into RAM at `0x0600` (truncated to 65535
    /// bytes) and points the program counter there when the reset vector
    /// is zero; real programs arrive through the cartridge instead.
    pub fn load(&mut self, prog: &Vec<u8>)
        requires
            old(self)@.wf(),
        ensures
            final(self)@ == load_spec(old(self)@, prog@),
            final(self)@.wf(),
    {
        let count = if prog.len() > 0xFFFF {
            0xFFFF
        } else {
            prog.len()
        };
        let ghost bytes = if prog@.len() > 0xFFFF {
            prog@.take(0xFFFF)
        } else {
            prog@
        };
        let mut i: usize = 0;
        while i < count
            invariant
                i <= count,
                count <= prog@.len(),
                count == bytes.len(),
                bytes == if prog@.len() > 0xFFFF {
                    prog@.take(0xFFFF)
                } else {
                    prog@
                },
                count <= 0xFFFF,
                self@ == old(self)@.with_bus(
                    store_seq(old(self)@.bus, 0x0600, bytes.take(i as int)),
                ),
                self@.wf(),
            decreases count - i,
        {
            self.bus.mem_write(0x0600u16.wrapping_add(i as u16), prog[i]);
            proof {
                assert(bytes.take(i + 1).drop_last() =~= bytes.take(i as int));
                assert(bytes.take(i + 1).last() == bytes[i as int]);
            }
            i = i + 1;
        }
        proof {
            assert(bytes.take(count as int) =~= bytes);
        }
        let vector = self.bus.mem_read_u16(0xFFFC);
        self.pc = if vector == 0 {
            0x0600
        } else {
            vector
        };
    }

    /// Executes the instruction at the program counter.
    ///
    /// For a documented opcode the machine advances exactly one step of
    /// the instruction semantics and the result reports whether that
    /// instruction was BRK. An unknown byte is reported as
    /// `InvalidOpcode` with its address, the program counter left just
    /// past it and everything else untouched.
    pub fn tick(&mut self) -> (r: Result<bool, Error>)
        requires
            old(self)@.wf(),
        ensures
            final(self)@.wf(),
            step_ok(old(self)@) ==> r == Ok::<bool, Error>(step_halts(old(self)@)) && final(self)@
                == step_spec(old(self)@),
            !step_ok(old(self)@) ==> r == Err::<bool, Error>(
                Error::InvalidOpcode {
                    opcode: old(self)@.bus.read8(old(self)@.pc),
                    offset: old(self)@.pc,
                },
            ) && final(self)@ == old(self)@.with_pc(wadd16(old(self)@.pc, 1)),
    {
        let prev_pc = self.pc;
        let code = self.take();
        match opcode_lookup(code) {
            None => Err(Error::InvalidOpcode { opcode: code, offset: prev_pc }),
            Some(op) => {
                if code < 0x40 {
                    self.dispatch_q0(code, op.mode);
                } else if code < 0x80 {
                    self.dispatch_q1(code, op.mode);
                } else if code < 0xC0 {
                    self.dispatch_q2(code, op.mode);
                } else {
                    self.dispatch_q3(code, op.mode);
                }
                Ok(code == 0x00)
            },
        }
    }

    /// Dispatches opcode bytes `0x00` to `0x3F` to their handlers.
    #[verifier::rlimit(100)]
    fn dispatch_q0(&mut self, code: u8, mode: AddressingMode)
        requires
            old(self)@.wf(),
            op_known(code),
            0x00 <= code < 0x40,
            mode == op_mode(code),
        ensures
            final(self)@ == instr_spec(old(self)@, code),
            final(self)@.wf(),
    {
        proof {
            reveal(instr_spec);
        }
        match code {
            0x08 => crate::opcode::stack::php(self, mode),
            0x28 => crate::opcode::stack::plp(self, mode),
            0x21 | 0x25 | 0x29 | 0x2D | 0x31 | 0x35 | 0x39 | 0x3D => crate::opcode::logic::and(self, mode),
            0x01 | 0x05 | 0x09 | 0x0D | 0x11 | 0x15 | 0x19 | 0x1D => crate::opcode::logic::ora(self, mode),
            0x24 | 0x2C => crate::opcode::logic::bit(self, mode),
            0x06 | 0x0A | 0x0E | 0x16 | 0x1E => crate::opcode::shift::asl(self, mode),
            0x26 | 0x2A | 0x2E | 0x36 | 0x3E => crate::opcode::shift::rol(self, mode),
            0x30 => crate::opcode::branch::bmi(self, mode),
            0x10 => crate::opcode::branch::bpl(self, mode),
            0x20 => crate::opcode::jmp::jsr(self, mode),
            0x38 => crate::opcode::flags::sec(self, mode),
            0x18 => crate::opcode::flags::clc(self, mode),
            0x00 => crate::opcode::sys::brk(self, mode),
            _ => {
                proof {
                    assert(false);
                }
            },
        }
    }

    /// Dispatches opcode bytes `0x40` to `0x7F` to their handlers.
    #[verifier::rlimit(100)]
    fn dispatch_q1(&mut self, code: u8, mode: AddressingMode)
        requires
            old(self)@.wf(),
            op_known(code),
            0x40 <= code < 0x80,
            mode == op_mode(code),
        ensures
            final(self)@ == instr_spec(old(self)@, code),
            final(self)@.wf(),
    {
        proof {
            reveal(instr_spec);
        }
        match code {
            0x48 => crate::opcode::stack::pha(self, mode),
            0x68 => crate::opcode::stack::pla(self, mode),
            0x61 | 0x65 | 0x69 | 0x6D | 0x71 | 0x75 | 0x79 | 0x7D => crate::opcode::arrith::adc(self, mode),
            0x41 | 0x45 | 0x49 | 0x4D | 0x51 | 0x55 | 0x59 | 0x5D => crate::opcode::logic::eor(self, mode),
            0x46 | 0x4A | 0x4E | 0x56 | 0x5E => crate::opcode::shift::lsr(self, mode),
            0x66 | 0x6A | 0x6E | 0x76 | 0x7E => crate::opcode::shift::ror(self, mode),
            0x50 => crate::opcode::branch::bvc(self, mode),
            0x70 => crate::opcode::branch::bvs(self, mode),
            0x4C | 0x6C => crate::opcode::jmp::jmp(self, mode),
            0x60 => crate::opcode::jmp::rts(self, mode),
            0x78 => crate::opcode::flags::sei(self, mode),
            0x58 => crate::opcode::flags::cli(self, mode),
            0x40 => crate::opcode::sys::rti(self, mode),
            _ => {
                proof {
                    assert(false);
                }
            },
        }
    }

    /// Dispatches opcode bytes `0x80` to `0xBF` to their handlers.
    #[verifier::rlimit(100)]
    fn dispatch_q2(&mut self, code: u8, mode: AddressingMode)
        requires
            old(self)@.wf(),
            op_known(code),
            0x80 <= code < 0xC0,
            mode == op_mode(code),
        ensures
            final(self)@ == instr_spec(old(self)@, code),
            final(self)@.wf(),
    {
        proof {
            reveal(instr_spec);
        }
        match code {
            0xA1 | 0xA5 | 0xA9 | 0xAD | 0xB1 | 0xB5 | 0xB9 | 0xBD => crate::opcode::load::lda(self, mode),
            0xA2 | 0xA6 | 0xAE | 0xB6 | 0xBE => crate::opcode::load::ldx(self, mode),
            0xA0 | 0xA4 | 0xAC | 0xB4 | 0xBC => crate::opcode::load::ldy(self, mode),
            0x81 | 0x85 | 0x8D | 0x91 | 0x95 | 0x99 | 0x9D => crate::opcode::load::sta(self, mode),
            0x86 | 0x8E | 0x96 => crate::opcode::load::stx(self, mode),
            0x84 | 0x8C | 0x94 => crate::opcode::load::sty(self, mode),
            0xAA => crate::opcode::transfer::tax(self, mode),
            0xA8 => crate::opcode::transfer::tay(self, mode),
            0x8A => crate::opcode::transfer::txa(self, mode),
            0x98 => crate::opcode::transfer::tya(self, mode),
            0x9A => crate::opcode::stack::txs(self, mode),
            0xBA => crate::opcode::stack::tsx(self, mode),
            0x88 => crate::opcode::inc_dec::dey(self, mode),
            0x90 => crate::opcode::branch::bcc(self, mode),
            0xB0 => crate::opcode::branch::bcs(self, mode),
            0xB8 => crate::opcode::flags::clv(self, mode),
            _ => {
                proof {
                    assert(false);
                }
            },
        }
    }

    /// Dispatches opcode bytes `0xC0` to `0xFF` to their handlers.
    #[verifier::rlimit(100)]
    fn dispatch_q3(&mut self, code: u8, mode: AddressingMode)
        requires
            old(self)@.wf(),
            op_known(code),
            0xC0 <= code < 0x100,
            mode == op_mode(code),
        ensures
            final(self)@ == instr_spec(old(self)@, code),
            final(self)@.wf(),
    {
        proof {
            reveal(instr_spec);
        }
        match code {
            0xE8 => crate::opcode::inc_dec::inx(self, mode),
            0xC8 => crate::opcode::inc_dec::iny(self, mode),
            0xE6 | 0xEE | 0xF6 | 0xFE => crate::opcode::inc_dec::inc(self, mode),
            0xCA => crate::opcode::inc_dec::dex(self, mode),
            0xC6 | 0xCE | 0xD6 | 0xDE => crate::opcode::inc_dec::dec(self, mode),
            0xE1 | 0xE5 | 0xE9 | 0xED | 0xF1 | 0xF5 | 0xF9 | 0xFD => crate::opcode::arrith::sbc(self, mode),
            0xC1 | 0xC5 | 0xC9 | 0xCD | 0xD1 | 0xD5 | 0xD9 | 0xDD => crate::opcode::arrith::cmp(self, mode),
            0xE0 | 0xE4 | 0xEC => crate::opcode::arrith::cpx(self, mode),
            0xC0 | 0xC4 | 0xCC => crate::opcode::arrith::cpy(self, mode),
            0xF0 => crate::opcode::branch::beq(self, mode),
            0xD0 => crate::opcode::branch::bne(self, mode),
            0xF8 => crate::opcode::flags::sed(self, mode),
            0xD8 => crate::opcode::flags::cld(self, mode),
            0xEA => crate::opcode::sys::nop(self, mode),
            _ => {
                proof {
                    assert(false);
                }
            },
        }
    }

    /// Runs instructions until BRK halts the program or an unknown
    /// opcode is hit, giving up after 2^64 - 1 instructions (a bound no
    /// real program reaches).
    ///
    /// On success either some chain of non-halting steps reaches a BRK,
    /// whose step is the final state, or the program executed the full
    /// 2^64 - 1 steps without halting; on failure the chain reaches a
    /// state whose opcode byte is unknown, and that byte and its address
    /// are reported.
    pub fn run(&mut self) -> (r: Result<(), Error>)
        requires
            old(self)@.wf(),
        ensures
            final(self)@.wf(),
            r matches Ok(_) ==> (exists|s: CpuView|
                #[trigger] reaches_from(old(self)@, s) && step_ok(s) && step_halts(s)
                    && final(self)@ == step_spec(s)) || runs_to(
                old(self)@,
                final(self)@,
                0xFFFF_FFFF_FFFF_FFFFu64 as nat,
            ),
            r matches Err(e) ==> exists|s: CpuView|
                #[trigger] reaches_from(old(self)@, s) && !step_ok(s) && e == (
                Error::InvalidOpcode { opcode: s.bus.read8(s.pc), offset: s.pc }) && final(self)@
                    == s.with_pc(wadd16(s.pc, 1)),
    {
        let mut fuel: u64 = 0xFFFF_FFFF_FFFF_FFFF;
        proof {
            assert(runs_to(old(self)@, self@, 0));
        }
        while fuel > 0
            invariant
                self@.wf(),
                runs_to(old(self)@, self@, (0xFFFF_FFFF_FFFF_FFFFu64 - fuel) as nat),
            decreases fuel,
        {
            let ghost pre = self@;
            let ghost done = (0xFFFF_FFFF_FFFF_FFFFu64 - fuel) as nat;
            match self.tick() {
                Err(e) => {
                    proof {
                        assert(reaches_from(old(self)@, pre));
                    }
                    return Err(e);
                },
                Ok(true) => {
                    proof {
                        assert(reaches_from(old(self)@, pre));
                    }
                    return Ok(());
                },
                Ok(false) => {
                    proof {
                        lemma_runs_to_snoc(old(self)@, pre, done);
                        assert(runs_to(old(self)@, self@, done + 1));
                    }
                    fuel = fuel - 1;
                },
            }
        }
        Ok(())
    }

    /// Resets the CPU, loads the program image at `0x0600` and runs it.
    pub fn load_and_run(&mut self, prog: &Vec<u8>) -> (r: Result<(), Error>)
        requires
            old(self)@.wf(),
        ensures
            final(self)@.wf(),
            r matches Ok(_) ==> (exists|s: CpuView|
                #[trigger] reaches_from(load_spec(reset_state(old(self)@.bus), prog@), s)
                    && step_ok(s) && step_halts(s) && final(self)@ == step_spec(s)) || runs_to(
                load_spec(reset_state(old(self)@.bus), prog@),
                final(self)@,
                0xFFFF_FFFF_FFFF_FFFFu64 as nat,
            ),
            r matches Err(e) ==> exists|s: CpuView|
                #[trigger] reaches_from(load_spec(reset_state(old(self)@.bus), prog@), s)
                    && !step_ok(s) && e == (Error::InvalidOpcode {
                    opcode: s.bus.read8(s.pc),
                    offset: s.pc,
                }) && final(self)@ == s.with_pc(wadd16(s.pc, 1)),
    {
        self.reset();
        self.load(prog);
        self.run()
    }
}

/// Stack round trip: pushing a byte and popping it returns the byte and
/// leaves the stack pointer where it started.
pub proof fn lemma_stack_round_trip(s: CpuView, val: u8)
    requires
        s.wf(),
    ensures
        pop8_spec(push8_spec(s, val)).1 == val,
        pop8_spec(push8_spec(s, val)).0.sp == s.sp,
{
    let pushed = push8_spec(s, val);
    assert(wadd8(pushed.sp, 1) == s.sp);
    assert(pushed.bus.read8((0x100 + s.sp) as u16) == val);
}

/// Stack round trip for 16-bit words: pushing a word and popping it
/// returns the word and leaves the stack pointer where it started.
pub proof fn lemma_stack_round_trip_u16(s: CpuView, val: u16)
    requires
        s.wf(),
    ensures
        pop16_spec(push16_spec(s, val)).1 == val,
        pop16_spec(push16_spec(s, val)).0.sp == s.sp,
{
    let hi = (val / 0x100) as u8;
    let lo = (val % 0x100) as u8;
    let s1 = push8_spec(s, hi);
    let s2 = push8_spec(s1, lo);
    assert(wadd8(s2.sp, 1) == s1.sp);
    assert(wadd8(s1.sp, 1) == s.sp);
    assert(s2.bus.read8((0x100 + s1.sp) as u16) == lo);
    assert(pop8_spec(s2).0.bus.read8((0x100 + s.sp) as u16) == hi);
    assert(lo + hi * 0x100 == val);
}

} // verus!
