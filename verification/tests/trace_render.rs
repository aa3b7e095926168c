//! The tracer's line format: byte-exact NESticle-style log lines.

use fete::bus::Bus;
use fete::cpu::Cpu;
use fete::rom::Rom;
use fete::trace::{trace_cpu, TraceOp};

fn trace_test_cpu() -> Cpu {
    let mut raw = vec![
        0x4E, 0x45, 0x53, 0x1A, 0x02, 0x01, 0x31, 0x00, 0x00, 0x00, 0x00, 0x00, 0x00, 0x00, 0x00,
        0x00,
    ];
    raw.extend(vec![0u8; 2 * 16384]);
    raw.extend(vec![0u8; 8192]);
    let bus = Bus::new(Rom::new(&raw).unwrap());
    Cpu::new(bus)
}

#[test]
fn trace_lda_immediate() {
    let mut cpu = trace_test_cpu();
    cpu.load(&vec![0xA9, 0x05, 0x00]);

    let text = trace_cpu(&cpu).unwrap();
    assert_eq!(text.len(), 73);
    assert_eq!(text, "0600  A9 05     LDA #$05                        A:00 X:00 Y:00 P:24 SP:FD");
}

#[test]
fn trace_jsr_shows_bare_target() {
    let mut cpu = trace_test_cpu();
    cpu.load(&vec![0x20, 0x06, 0x06]);

    let text = trace_cpu(&cpu).unwrap();
    assert_eq!(text, "0600  20 06 06  JSR $0606                       A:00 X:00 Y:00 P:24 SP:FD");
}

#[test]
fn trace_zero_page_shows_stored_value() {
    let mut cpu = trace_test_cpu();
    cpu.load(&vec![0xA5, 0x10, 0x00]);
    cpu.bus.mem_write(0x0010, 0x42);

    let text = trace_cpu(&cpu).unwrap();
    assert_eq!(text, "0600  A5 10     LDA $10 = 42                    A:00 X:00 Y:00 P:24 SP:FD");
}

#[test]
fn trace_absolute_shows_stored_value() {
    let mut cpu = trace_test_cpu();
    cpu.load(&vec![0xAD, 0x10, 0x00]);
    cpu.bus.mem_write(0x0010, 0x42);

    let text = trace_cpu(&cpu).unwrap();
    assert_eq!(text, "0600  AD 10 00  LDA $0010 = 42                  A:00 X:00 Y:00 P:24 SP:FD");
}

#[test]
fn trace_implied_has_empty_operand() {
    let mut cpu = trace_test_cpu();
    cpu.load(&vec![0x00]);

    let text = trace_cpu(&cpu).unwrap();
    assert_eq!(text, "0600  00        BRK                             A:00 X:00 Y:00 P:24 SP:FD");
}

#[test]
fn trace_relative_shows_target() {
    let mut cpu = trace_test_cpu();
    // BNE with offset -2 targets the instruction itself
    cpu.load(&vec![0xD0, 0xFE, 0x00]);

    let text = trace_cpu(&cpu).unwrap();
    assert_eq!(text, "0600  D0 FE     BNE $0600                       A:00 X:00 Y:00 P:24 SP:FD");
}

#[test]
fn trace_unknown_opcode_is_none() {
    let mut cpu = trace_test_cpu();
    cpu.load(&vec![0x02]);

    assert!(trace_cpu(&cpu).is_none());
    assert!(TraceOp::new(&cpu).is_none());
}

#[test]
fn trace_does_not_change_the_cpu() {
    let mut cpu = trace_test_cpu();
    cpu.load(&vec![0xA9, 0x05, 0x00]);
    let pc = cpu.pc;
    let status = cpu.status.bits();

    let first = trace_cpu(&cpu).unwrap();
    let second = trace_cpu(&cpu).unwrap();

    assert_eq!(first, second);
    assert_eq!(cpu.pc, pc);
    assert_eq!(cpu.status.bits(), status);
}

#[test]
fn trace_follows_a_short_program() {
    let mut cpu = trace_test_cpu();
    cpu.load(&vec![0xA9, 0x01, 0x38, 0x69, 0x01, 0x00]);

    let expected = vec![
        "0600  A9 01     LDA #$01                        A:00 X:00 Y:00 P:24 SP:FD",
        "0602  38        SEC                             A:01 X:00 Y:00 P:24 SP:FD",
        "0603  69 01     ADC #$01                        A:01 X:00 Y:00 P:25 SP:FD",
        "0605  00        BRK                             A:03 X:00 Y:00 P:24 SP:FD",
    ];
    for want in expected {
        assert_eq!(trace_cpu(&cpu).unwrap(), want);
        if cpu.tick().unwrap() {
            break;
        }
    }
}

#[test]
fn trace_zero_page_x_rendering() {
    let mut cpu = trace_test_cpu();
    cpu.load(&vec![0xB5, 0x10, 0x00]);
    cpu.reg_x = 0x02;
    cpu.bus.mem_write(0x0012, 0x33);

    assert_eq!(trace_cpu(&cpu).unwrap(), "0600  B5 10     LDA $10,X @ 12 = 33             A:00 X:02 Y:00 P:24 SP:FD");
}

#[test]
fn trace_indirect_x_rendering() {
    let mut cpu = trace_test_cpu();
    cpu.load(&vec![0xA1, 0x10, 0x00]);
    cpu.reg_x = 0x02;
    cpu.bus.mem_write(0x0012, 0x45);
    cpu.bus.mem_write(0x0013, 0x03);
    cpu.bus.mem_write(0x0345, 0x77);

    assert_eq!(trace_cpu(&cpu).unwrap(), "0600  A1 10     LDA ($10,X) @ 12 = 0345 = 77    A:00 X:02 Y:00 P:24 SP:FD");
}
