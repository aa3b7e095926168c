//! Addressing-mode resolution through `Cpu::get_op_addr`, over every
//! operand-bearing mode.

use fete::addr_mode::AddressingMode;
use fete::bus::Bus;
use fete::cpu::Cpu;
use fete::rom::Rom;

fn fresh_cpu() -> Cpu {
    let mut raw = vec![
        0x4E, 0x45, 0x53, 0x1A, 0x02, 0x01, 0x31, 0x00, 0x00, 0x00, 0x00, 0x00, 0x00, 0x00, 0x00,
        0x00,
    ];
    raw.extend(vec![0u8; 2 * 16384]);
    raw.extend(vec![0u8; 8192]);
    let bus = Bus::new(Rom::new(&raw).unwrap());
    Cpu::new(bus)
}

#[test]
fn cpu_op_addr_immediate() {
    let mut cpu = fresh_cpu();
    cpu.bus.mem_write(0x0000, 0x05);

    assert_eq!(cpu.get_op_addr(AddressingMode::Immediate), 0x0000);
    assert_eq!(cpu.pc, 0x0001);
}

#[test]
fn cpu_op_addr_zero_page() {
    let mut cpu = fresh_cpu();
    cpu.bus.mem_write(0x0000, 0x05);

    assert_eq!(cpu.get_op_addr(AddressingMode::ZeroPage), 0x05);
    assert_eq!(cpu.pc, 0x0001);

    assert_eq!(cpu.get_op_addr(AddressingMode::ZeroPage), 0x00);
    assert_eq!(cpu.pc, 0x0002);
}

#[test]
fn cpu_op_addr_zero_page_x() {
    let mut cpu = fresh_cpu();
    cpu.bus.mem_write(0x0000, 0x05);
    cpu.reg_x = 0x05;

    assert_eq!(cpu.get_op_addr(AddressingMode::ZeroPageX), 0x0A);
    assert_eq!(cpu.pc, 0x0001);

    assert_eq!(cpu.get_op_addr(AddressingMode::ZeroPageX), 0x05);
    assert_eq!(cpu.pc, 0x0002);
}

#[test]
fn cpu_op_addr_zero_page_y() {
    let mut cpu = fresh_cpu();
    cpu.bus.mem_write(0x0000, 0x05);
    cpu.reg_y = 0x05;

    assert_eq!(cpu.get_op_addr(AddressingMode::ZeroPageY), 0x0A);
    assert_eq!(cpu.pc, 0x0001);

    assert_eq!(cpu.get_op_addr(AddressingMode::ZeroPageY), 0x05);
    assert_eq!(cpu.pc, 0x0002);
}

#[test]
fn cpu_op_addr_absolute() {
    let mut cpu = fresh_cpu();
    cpu.bus.mem_write_u16(0x0000, 0x1234);

    assert_eq!(cpu.get_op_addr(AddressingMode::Absolute), 0x1234);
    assert_eq!(cpu.pc, 0x0002);
}

#[test]
fn cpu_op_addr_absolute_x() {
    let mut cpu = fresh_cpu();
    cpu.bus.mem_write_u16(0x0000, 0x1234);
    cpu.reg_x = 0x05;

    assert_eq!(cpu.get_op_addr(AddressingMode::AbsoluteX), 0x1239);
    assert_eq!(cpu.pc, 0x0002);
}

#[test]
fn cpu_op_addr_absolute_y() {
    let mut cpu = fresh_cpu();
    cpu.bus.mem_write_u16(0x0000, 0x1234);
    cpu.reg_y = 0x05;

    assert_eq!(cpu.get_op_addr(AddressingMode::AbsoluteY), 0x1239);
    assert_eq!(cpu.pc, 0x0002);
}

#[test]
fn cpu_op_addr_indirect() {
    let mut cpu = fresh_cpu();
    cpu.bus.mem_write_u16(0x0000, 0x1234);
    cpu.bus.mem_write_u16(0x1234, 0x5678);

    assert_eq!(cpu.get_op_addr(AddressingMode::Indirect), 0x5678);
    assert_eq!(cpu.pc, 0x0002);
}

#[test]
fn cpu_op_addr_indirect_x() {
    let mut cpu = fresh_cpu();
    cpu.bus.mem_write(0x0000, 0x12);
    cpu.bus.mem_write_u16(0x0012, 0x1234);
    cpu.reg_x = 0x05;

    // the zero-page pointer is 0x12 + X = 0x17, and nothing was stored
    // there, so the resolved address is zero
    assert_eq!(cpu.get_op_addr(AddressingMode::IndirectX), 0x0000);
    assert_eq!(cpu.pc, 0x0001);
}

#[test]
fn cpu_op_addr_indirect_y() {
    let mut cpu = fresh_cpu();
    cpu.bus.mem_write(0x0000, 0x12);
    cpu.bus.mem_write_u16(0x0012, 0x1234);
    cpu.reg_y = 0x05;

    assert_eq!(cpu.get_op_addr(AddressingMode::IndirectY), 0x1239);
    assert_eq!(cpu.pc, 0x0001);
}

#[test]
fn addr_mode_op_addr_immediate() {
    let mut cpu = fresh_cpu();

    assert_eq!(cpu.get_op_addr(AddressingMode::Immediate), 0x0000);
    assert_eq!(cpu.pc, 0x0001);
}

#[test]
fn addr_mode_op_addr_zero_page() {
    let mut cpu = fresh_cpu();
    cpu.bus.mem_write(0x0000, 0x05);

    assert_eq!(cpu.get_op_addr(AddressingMode::ZeroPage), 0x05);
    assert_eq!(cpu.pc, 0x0001);

    assert_eq!(cpu.get_op_addr(AddressingMode::ZeroPage), 0x00);
    assert_eq!(cpu.pc, 0x0002);
}

#[test]
fn addr_mode_op_addr_zero_page_x() {
    let mut cpu = fresh_cpu();
    cpu.bus.mem_write(0x0000, 0x05);
    cpu.reg_x = 0x05;

    assert_eq!(cpu.get_op_addr(AddressingMode::ZeroPageX), 0x0A);
    assert_eq!(cpu.pc, 0x0001);

    assert_eq!(cpu.get_op_addr(AddressingMode::ZeroPageX), 0x05);
    assert_eq!(cpu.pc, 0x0002);
}

#[test]
fn addr_mode_op_addr_zero_page_y() {
    let mut cpu = fresh_cpu();
    cpu.bus.mem_write(0x0000, 0x05);
    cpu.reg_y = 0x05;

    assert_eq!(cpu.get_op_addr(AddressingMode::ZeroPageY), 0x0A);
    assert_eq!(cpu.pc, 0x0001);

    assert_eq!(cpu.get_op_addr(AddressingMode::ZeroPageY), 0x05);
    assert_eq!(cpu.pc, 0x0002);
}

#[test]
fn addr_mode_op_addr_absolute() {
    let mut cpu = fresh_cpu();
    cpu.bus.mem_write_u16(0x0000, 0x1234);

    assert_eq!(cpu.get_op_addr(AddressingMode::Absolute), 0x1234);
    assert_eq!(cpu.pc, 0x0002);
}

#[test]
fn addr_mode_op_addr_absolute_x() {
    let mut cpu = fresh_cpu();
    cpu.bus.mem_write_u16(0x0000, 0x1234);
    cpu.reg_x = 0x05;

    assert_eq!(cpu.get_op_addr(AddressingMode::AbsoluteX), 0x1239);
    assert_eq!(cpu.pc, 0x0002);
}

#[test]
fn addr_mode_op_addr_absolute_y() {
    let mut cpu = fresh_cpu();
    cpu.bus.mem_write_u16(0x0000, 0x1234);
    cpu.reg_y = 0x05;

    assert_eq!(cpu.get_op_addr(AddressingMode::AbsoluteY), 0x1239);
    assert_eq!(cpu.pc, 0x0002);
}

#[test]
fn addr_mode_op_addr_indirect() {
    let mut cpu = fresh_cpu();
    cpu.bus.mem_write_u16(0x0000, 0x1234);
    cpu.bus.mem_write_u16(0x1234, 0x5678);

    assert_eq!(cpu.get_op_addr(AddressingMode::Indirect), 0x5678);
    assert_eq!(cpu.pc, 0x0002);
}

#[test]
fn addr_mode_op_addr_indirect_x() {
    let mut cpu = fresh_cpu();
    cpu.bus.mem_write(0x0000, 0x12);
    cpu.bus.mem_write_u16(0x0012, 0x00FF);
    cpu.reg_x = 0x05;

    // the zero-page pointer wraps within the zero page: 0x12 + X = 0x17,
    // and nothing was stored there, so the resolved address is zero
    assert_eq!(cpu.get_op_addr(AddressingMode::IndirectX), 0x0000);
    assert_eq!(cpu.pc, 0x0001);
}

#[test]
fn addr_mode_op_addr_indirect_y() {
    let mut cpu = fresh_cpu();
    cpu.bus.mem_write(0x0000, 0x12);
    cpu.bus.mem_write_u16(0x0012, 0x1234);
    cpu.reg_y = 0x05;

    assert_eq!(cpu.get_op_addr(AddressingMode::IndirectY), 0x1239);
    assert_eq!(cpu.pc, 0x0001);
}

#[test]
fn op_addr_indirect_x_wraps_zero_page() {
    let mut cpu = fresh_cpu();
    // operand 0xFE plus X = 3 wraps to pointer 0x01; its 16-bit read
    // takes the low byte from 0x01 and the high byte from 0x02
    cpu.bus.mem_write(0x0000, 0xFE);
    cpu.bus.mem_write(0x0001, 0x34);
    cpu.bus.mem_write(0x0002, 0x12);
    cpu.reg_x = 0x03;

    assert_eq!(cpu.get_op_addr(AddressingMode::IndirectX), 0x1234);
}

#[test]
fn op_addr_indirect_y_wraps_zero_page_high_byte() {
    let mut cpu = fresh_cpu();
    // pointer 0xFF: the low byte comes from 0xFF and the high byte wraps
    // to 0x00 instead of reading 0x100
    cpu.bus.mem_write(0x0000, 0xFF);
    cpu.bus.mem_write(0x00FF, 0x34);
    cpu.bus.mem_write(0x0000, 0xFF); // operand byte shares the wrap target
    cpu.reg_y = 0x01;

    // base = 0xFF34 (high byte 0xFF from address 0x00), plus Y
    assert_eq!(cpu.get_op_addr(AddressingMode::IndirectY), 0xFF35);
}

#[test]
fn op_addr_relative_backwards() {
    let mut cpu = fresh_cpu();
    cpu.pc = 0x0100;
    cpu.bus.mem_write(0x0100, 0xFB); // -5

    // target = operand_pc + 1 + sign_extend(-5)
    assert_eq!(cpu.get_op_addr(AddressingMode::Relative), 0x00FC);
    assert_eq!(cpu.pc, 0x0101);
}
