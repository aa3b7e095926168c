//! The tracer: renders one NESticle-style log line from an immutable CPU
//! snapshot, before the instruction at the program counter executes.

use crate::addr_mode::{mode_size, AddressingMode};
use crate::cpu::{branch_target, read16_zp_spec, Cpu, CpuView};
use crate::opcode::{op_known, op_mode, op_name, opcode_lookup, OpCode};
use crate::{wadd16, wadd8};
use vstd::prelude::*;
use vstd::string::{StrSliceExecFns, StringExecFns};

verus! {

/// The hexadecimal digit for a value below sixteen, uppercased.
pub open spec fn hex_digit(d: u8) -> char {
    match d {
        0 => '0',
        1 => '1',
        2 => '2',
        3 => '3',
        4 => '4',
        5 => '5',
        6 => '6',
        7 => '7',
        8 => '8',
        9 => '9',
        10 => 'A',
        11 => 'B',
        12 => 'C',
        13 => 'D',
        14 => 'E',
        15 => 'F',
        _ => '0',
    }
}

/// A byte as two hexadecimal digits.
pub open spec fn hex2(b: u8) -> Seq<char> {
    seq![hex_digit(b / 16), hex_digit(b % 16)]
}

/// A 16-bit word as four hexadecimal digits.
pub open spec fn hex4(w: u16) -> Seq<char> {
    hex2((w / 0x100) as u8) + hex2((w % 0x100) as u8)
}

/// `n` spaces.
pub open spec fn spaces(n: nat) -> Seq<char> {
    Seq::new(n, |i: int| ' ')
}

/// `t` left-aligned in a field of `width` characters; longer text is
/// kept whole.
pub open spec fn pad_text(t: Seq<char>, width: nat) -> Seq<char> {
    if t.len() >= width {
        t
    } else {
        t + spaces((width - t.len()) as nat)
    }
}

/// The raw instruction bytes: the opcode byte and its operand bytes,
/// each preceded by one space.
pub open spec fn bytes_text(s: CpuView, size: u8) -> Seq<char> {
    let b0 = " "@ + hex2(s.bus.read8(s.pc));
    if size == 0 {
        b0
    } else if size == 1 {
        b0 + " "@ + hex2(s.bus.read8(wadd16(s.pc, 1)))
    } else {
        b0 + " "@ + hex2(s.bus.read8(wadd16(s.pc, 1))) + " "@ + hex2(s.bus.read8(wadd16(s.pc, 2)))
    }
}

/// The addressing modes the tracer renders operand text for; the
/// remaining modes have no defined log syntax here.
pub open spec fn trace_supported(mode: AddressingMode) -> bool {
    match mode {
        AddressingMode::Immediate => true,
        AddressingMode::ZeroPage => true,
        AddressingMode::ZeroPageX => true,
        AddressingMode::IndirectX => true,
        AddressingMode::Relative => true,
        AddressingMode::Absolute => true,
        AddressingMode::NoneAddressing => true,
        _ => false,
    }
}

/// The operand text for the instruction at the program counter,
/// formatted per addressing mode exactly as the reference log shows it.
pub open spec fn operand_text(s: CpuView, code: u8) -> Seq<char> {
    let pc1 = wadd16(s.pc, 1);
    match op_mode(code) {
        AddressingMode::NoneAddressing => Seq::empty(),
        AddressingMode::Immediate => "#$"@ + hex2(s.bus.read8(pc1)),
        AddressingMode::ZeroPage => {
            let a = s.bus.read8(pc1);
            "$"@ + hex2(a) + " = "@ + hex2(s.bus.read8(a as u16))
        },
        AddressingMode::ZeroPageX => {
            let a = s.bus.read8(pc1);
            let wx = wadd8(a, s.x);
            "$"@ + hex2(a) + ",X @ "@ + hex2(wx) + " = "@ + hex2(s.bus.read8(wx as u16))
        },
        AddressingMode::IndirectX => {
            let a = s.bus.read8(pc1);
            let wx = wadd8(a, s.x);
            let target = read16_zp_spec(s.bus, wx);
            "($"@ + hex2(a) + ",X) @ "@ + hex2(wx) + " = "@ + hex4(target) + " = "@ + hex2(
                s.bus.read8(target),
            )
        },
        AddressingMode::Relative => "$"@ + hex4(branch_target(wadd16(pc1, 1), s.bus.read8(pc1))),
        AddressingMode::Absolute => {
            let target = s.bus.read16(pc1);
            if code == 0x4C || code == 0x20 {
                // JMP and JSR show the bare target
                "$"@ + hex4(target)
            } else {
                "$"@ + hex4(target) + " = "@ + hex2(s.bus.read8(target))
            }
        },
        _ => Seq::empty(),
    }
}

/// The register panel that closes every line.
pub open spec fn reg_panel(s: CpuView) -> Seq<char> {
    "A:"@ + hex2(s.a) + " X:"@ + hex2(s.x) + " Y:"@ + hex2(s.y) + " P:"@ + hex2(s.status) + " SP:"@
        + hex2(s.sp)
}

/// One full trace line for the instruction at the program counter: the
/// counter, the raw bytes padded to ten columns, the mnemonic, the
/// operand text padded to twenty-seven columns, and the register panel.
pub open spec fn trace_line(s: CpuView) -> Seq<char> {
    let code = s.bus.read8(s.pc);
    hex4(s.pc) + " "@ + pad_text(bytes_text(s, mode_size(op_mode(code))), 10) + " "@ + op_name(code)
        + " "@ + pad_text(operand_text(s, code), 27) + " "@ + reg_panel(s)
}

/// The digit `d` as a one-character string slice.
fn hex_digit_str(d: u8) -> (r: &'static str)
    requires
        d < 16,
    ensures
        r@ == seq![hex_digit(d)],
{
    proof {
        reveal_strlit("0");
        reveal_strlit("1");
        reveal_strlit("2");
        reveal_strlit("3");
        reveal_strlit("4");
        reveal_strlit("5");
        reveal_strlit("6");
        reveal_strlit("7");
        reveal_strlit("8");
        reveal_strlit("9");
        reveal_strlit("A");
        reveal_strlit("B");
        reveal_strlit("C");
        reveal_strlit("D");
        reveal_strlit("E");
        reveal_strlit("F");
    }
    let r = match d {
        0 => "0",
        1 => "1",
        2 => "2",
        3 => "3",
        4 => "4",
        5 => "5",
        6 => "6",
        7 => "7",
        8 => "8",
        9 => "9",
        10 => "A",
        11 => "B",
        12 => "C",
        13 => "D",
        14 => "E",
        _ => "F",
    };
    proof {
        assert(r@ =~= seq![hex_digit(d)]);
    }
    r
}

/// Appends a byte as two hexadecimal digits.
fn push_hex2(out: &mut String, b: u8)
    ensures
        final(out)@ == old(out)@ + hex2(b),
{
    out.append(hex_digit_str(b / 16));
    out.append(hex_digit_str(b % 16));
    proof {
        assert(out@ =~= old(out)@ + hex2(b));
    }
}

/// Appends a 16-bit word as four hexadecimal digits.
fn push_hex4(out: &mut String, w: u16)
    ensures
        final(out)@ == old(out)@ + hex4(w),
{
    push_hex2(out, (w / 0x100) as u8);
    push_hex2(out, (w % 0x100) as u8);
    proof {
        assert(out@ =~= old(out)@ + hex4(w));
    }
}

/// Appends `n` spaces.
fn push_spaces(out: &mut String, n: usize)
    ensures
        final(out)@ == old(out)@ + spaces(n as nat),
{
    proof {
        reveal_strlit(" ");
    }
    let mut i: usize = 0;
    while i < n
        invariant
            i <= n,
            " "@ =~= seq![' '],
            out@ =~= old(out)@ + spaces(i as nat),
        decreases n - i,
    {
        out.append(" ");
        proof {
            assert(out@ =~= old(out)@ + spaces((i + 1) as nat));
        }
        i = i + 1;
    }
    proof {
        assert(out@ =~= old(out)@ + spaces(n as nat));
    }
}

/// Appends `t` left-aligned in a field of `width` characters.
fn push_padded(out: &mut String, t: &String, width: usize)
    ensures
        final(out)@ == old(out)@ + pad_text(t@, width as nat),
{
    let len = t.as_str().unicode_len();
    out.append(t.as_str());
    if len < width {
        push_spaces(out, width - len);
        proof {
            assert(out@ =~= old(out)@ + pad_text(t@, width as nat));
        }
    }
}

/// The operand-text renderer: a CPU snapshot paired with the table row
/// of the instruction at its program counter.
pub struct TraceAddrMode<'a> {
    pub cpu: &'a Cpu,
    pub op: OpCode,
}

impl<'a> TraceAddrMode<'a> {
    /// Renders the operand text for the row's addressing mode.
    pub fn text(&self) -> (r: String)
        requires
            self.cpu@.wf(),
            self.op.mode == op_mode(self.op.code),
            trace_supported(self.op.mode),
        ensures
            r@ == operand_text(self.cpu@, self.op.code),
    {
        let mut out = String::new();
        let pc1 = self.cpu.pc.wrapping_add(1);
        match self.op.mode {
            AddressingMode::NoneAddressing => {
                proof {
                    assert(out@ =~= operand_text(self.cpu@, self.op.code));
                }
            },
            AddressingMode::Immediate => {
                let val = self.cpu.bus.mem_read(pc1);
                out.append("#$");
                push_hex2(&mut out, val);
                proof {
                    assert(out@ =~= operand_text(self.cpu@, self.op.code));
                }
            },
            AddressingMode::ZeroPage => {
                let a = self.cpu.bus.mem_read(pc1);
                let val = self.cpu.bus.mem_read(a as u16);
                out.append("$");
                push_hex2(&mut out, a);
                out.append(" = ");
                push_hex2(&mut out, val);
                proof {
                    assert(out@ =~= operand_text(self.cpu@, self.op.code));
                }
            },
            AddressingMode::ZeroPageX => {
                let a = self.cpu.bus.mem_read(pc1);
                let wx = a.wrapping_add(self.cpu.reg_x);
                let val = self.cpu.bus.mem_read(wx as u16);
                out.append("$");
                push_hex2(&mut out, a);
                out.append(",X @ ");
                push_hex2(&mut out, wx);
                out.append(" = ");
                push_hex2(&mut out, val);
                proof {
                    assert(out@ =~= operand_text(self.cpu@, self.op.code));
                }
            },
            AddressingMode::IndirectX => {
                let a = self.cpu.bus.mem_read(pc1);
                let wx = a.wrapping_add(self.cpu.reg_x);
                let lo = self.cpu.bus.mem_read(wx as u16);
                let hi = self.cpu.bus.mem_read(wx.wrapping_add(1) as u16);
                let target = lo as u16 + hi as u16 * 0x100;
                let val = self.cpu.bus.mem_read(target);
                out.append("($");
                push_hex2(&mut out, a);
                out.append(",X) @ ");
                push_hex2(&mut out, wx);
                out.append(" = ");
                push_hex4(&mut out, target);
                out.append(" = ");
                push_hex2(&mut out, val);
                proof {
                    assert(out@ =~= operand_text(self.cpu@, self.op.code));
                }
            },
            AddressingMode::Relative => {
                let offset = self.cpu.bus.mem_read(pc1);
                let after = pc1.wrapping_add(1);
                let target = if offset < 0x80 {
                    after.wrapping_add(offset as u16)
                } else {
                    after.wrapping_add(offset as u16).wrapping_sub(0x100)
                };
                out.append("$");
                push_hex4(&mut out, target);
                proof {
                    assert(out@ =~= operand_text(self.cpu@, self.op.code));
                }
            },
            AddressingMode::Absolute => {
                let target = self.cpu.bus.mem_read_u16(pc1);
                out.append("$");
                push_hex4(&mut out, target);
                if !(self.op.code == 0x4C || self.op.code == 0x20) {
                    let val = self.cpu.bus.mem_read(target);
                    out.append(" = ");
                    push_hex2(&mut out, val);
                }
                proof {
                    assert(out@ =~= operand_text(self.cpu@, self.op.code));
                }
            },
            _ => {
                proof {
                    assert(false);
                }
            },
        }
        out
    }
}

/// The line renderer: a CPU snapshot paired with the table row of the
/// instruction at its program counter.
pub struct TraceOp<'a> {
    pub cpu: &'a Cpu,
    pub op: OpCode,
}

impl<'a> TraceOp<'a> {
    /// Pairs a snapshot with the table row of the instruction at its
    /// program counter; an unknown opcode byte yields nothing.
    pub fn new(cpu: &'a Cpu) -> (r: Option<TraceOp<'a>>)
        requires
            cpu@.wf(),
        ensures
            r is Some <==> op_known(cpu@.bus.read8(cpu@.pc)),
            r matches Some(t) ==> t.cpu == cpu && t.op.code == cpu@.bus.read8(cpu@.pc)
                && t.op.mode == op_mode(t.op.code) && t.op.name@ == op_name(t.op.code),
    {
        let code = cpu.bus.mem_read(cpu.pc);
        match opcode_lookup(code) {
            None => None,
            Some(op) => Some(TraceOp { cpu, op }),
        }
    }

    /// Renders the full trace line for the snapshot.
    pub fn line(&self) -> (r: String)
        requires
            self.cpu@.wf(),
            self.op.code == self.cpu@.bus.read8(self.cpu@.pc),
            self.op.mode == op_mode(self.op.code),
            self.op.name@ == op_name(self.op.code),
            trace_supported(self.op.mode),
        ensures
            r@ == trace_line(self.cpu@),
    {
        let mut line = String::new();
        push_hex4(&mut line, self.cpu.pc);
        line.append(" ");

        let mut bytes_field = String::new();
        let size = self.op.mode.size();
        bytes_field.append(" ");
        push_hex2(&mut bytes_field, self.cpu.bus.mem_read(self.cpu.pc));
        if size >= 1 {
            bytes_field.append(" ");
            push_hex2(&mut bytes_field, self.cpu.bus.mem_read(self.cpu.pc.wrapping_add(1)));
        }
        if size >= 2 {
            bytes_field.append(" ");
            push_hex2(&mut bytes_field, self.cpu.bus.mem_read(self.cpu.pc.wrapping_add(2)));
        }
        proof {
            assert(bytes_field@ =~= bytes_text(self.cpu@, mode_size(self.op.mode)));
        }
        push_padded(&mut line, &bytes_field, 10);
        line.append(" ");

        line.append(self.op.name);
        line.append(" ");

        let operand = TraceAddrMode { cpu: self.cpu, op: self.op }.text();
        push_padded(&mut line, &operand, 27);
        line.append(" ");

        line.append("A:");
        push_hex2(&mut line, self.cpu.reg_a);
        line.append(" X:");
        push_hex2(&mut line, self.cpu.reg_x);
        line.append(" Y:");
        push_hex2(&mut line, self.cpu.reg_y);
        line.append(" P:");
        push_hex2(&mut line, self.cpu.status.bits());
        line.append(" SP:");
        push_hex2(&mut line, self.cpu.sp);

        proof {
            assert(line@ =~= trace_line(self.cpu@));
        }
        line
    }
}

/// Renders one trace line for the instruction at the program counter,
/// or nothing when the opcode byte is unknown.
pub fn trace_cpu(cpu: &Cpu) -> (r: Option<String>)
    requires
        cpu@.wf(),
        op_known(cpu@.bus.read8(cpu@.pc)) ==> trace_supported(
            op_mode(cpu@.bus.read8(cpu@.pc)),
        ),
    ensures
        r is Some <==> op_known(cpu@.bus.read8(cpu@.pc)),
        r matches Some(line) ==> line@ == trace_line(cpu@),
{
    match TraceOp::new(cpu) {
        None => None,
        Some(t) => Some(t.line()),
    }
}

} // verus!
