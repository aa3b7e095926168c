//! End-to-end instruction execution: small programs run from RAM at
//! `0x0600`, checking registers, flags and memory afterwards.

use fete::bus::Bus;
use fete::cpu::Cpu;
use fete::rom::Rom;
use fete::status::{BREAK, CARRY, NEGATIVE, OVERFLOW, ZERO};

fn exec_cpu() -> Cpu {
    let mut raw = vec![
        0x4E, 0x45, 0x53, 0x1A, 0x02, 0x01, 0x31, 0x00, 0x00, 0x00, 0x00, 0x00, 0x00, 0x00, 0x00,
        0x00,
    ];
    raw.extend(vec![0u8; 2 * 16384]);
    raw.extend(vec![0u8; 8192]);
    let bus = Bus::new(Rom::new(&raw).unwrap());
    Cpu::new(bus)
}

#[test]
fn lda_immediate_sets_value_and_flags() {
    let mut cpu = exec_cpu();
    cpu.load_and_run(&vec![0xA9, 0x05, 0x00]).unwrap();

    assert_eq!(cpu.reg_a, 0x05);
    assert!(!cpu.status.contains(ZERO));
    assert!(!cpu.status.contains(NEGATIVE));
    assert!(cpu.status.contains(BREAK));
}

#[test]
fn lda_immediate_zero_sets_zero_flag() {
    let mut cpu = exec_cpu();
    cpu.load_and_run(&vec![0xA9, 0x00, 0x00]).unwrap();

    assert_eq!(cpu.reg_a, 0x00);
    assert!(cpu.status.contains(ZERO));
    assert!(!cpu.status.contains(NEGATIVE));
}

#[test]
fn tax_and_inx_wrap_to_zero() {
    let mut cpu = exec_cpu();
    cpu.load_and_run(&vec![0xA9, 0xFF, 0xAA, 0xE8, 0x00]).unwrap();

    assert_eq!(cpu.reg_x, 0x00);
    assert!(cpu.status.contains(ZERO));
    assert!(!cpu.status.contains(NEGATIVE));
}

#[test]
fn sta_absolute_stores_accumulator() {
    let mut cpu = exec_cpu();
    cpu.load_and_run(&vec![0xA9, 0x05, 0x8D, 0x00, 0x02, 0x00]).unwrap();

    assert_eq!(cpu.bus.mem_read(0x0200), 0x05);
}

#[test]
fn adc_with_carry_set() {
    let mut cpu = exec_cpu();
    // LDA #$05; SEC; ADC #$05; BRK
    cpu.load_and_run(&vec![0xA9, 0x05, 0x38, 0x69, 0x05, 0x00]).unwrap();

    assert_eq!(cpu.reg_a, 0x0B);
    assert!(!cpu.status.contains(CARRY));
    assert!(!cpu.status.contains(OVERFLOW));
}

#[test]
fn sbc_underflow_without_carry() {
    let mut cpu = exec_cpu();
    // LDA #$05; SBC #$05 with the carry clear on entry
    cpu.load_and_run(&vec![0xA9, 0x05, 0xE9, 0x05, 0x00]).unwrap();

    assert_eq!(cpu.reg_a, 0xFF);
    assert!(cpu.status.contains(NEGATIVE));
    assert!(!cpu.status.contains(CARRY));
    assert!(!cpu.status.contains(OVERFLOW));
}

#[test]
fn adc_signed_overflow() {
    let mut cpu = exec_cpu();
    // 0x50 + 0x50 = 0xA0: two positives summing negative
    cpu.load_and_run(&vec![0xA9, 0x50, 0x69, 0x50, 0x00]).unwrap();

    assert_eq!(cpu.reg_a, 0xA0);
    assert!(cpu.status.contains(OVERFLOW));
    assert!(cpu.status.contains(NEGATIVE));
    assert!(!cpu.status.contains(CARRY));
}

#[test]
fn adc_then_sbc_restores_accumulator() {
    let mut cpu = exec_cpu();
    // CLC; LDA #$37; ADC #$12; SEC; SBC #$12; BRK
    cpu.load_and_run(&vec![0x18, 0xA9, 0x37, 0x69, 0x12, 0x38, 0xE9, 0x12, 0x00]).unwrap();

    assert_eq!(cpu.reg_a, 0x37);
}

#[test]
fn jmp_indirect_page_wrap_quirk() {
    let mut cpu = exec_cpu();
    cpu.load(&vec![0x6C, 0xFF, 0x02]);
    cpu.bus.mem_write(0x02FF, 0x34);
    cpu.bus.mem_write(0x0200, 0x12);
    cpu.bus.mem_write(0x0300, 0xCC);

    cpu.tick().unwrap();

    // the high byte comes from 0x0200, not 0x0300
    assert_eq!(cpu.pc, 0x1234);
}

#[test]
fn cmp_equal_sets_carry_and_zero() {
    let mut cpu = exec_cpu();
    cpu.load_and_run(&vec![0xA9, 0x05, 0xC9, 0x05, 0x00]).unwrap();

    assert!(cpu.status.contains(CARRY));
    assert!(cpu.status.contains(ZERO));
}

#[test]
fn cpx_and_cpy_compare_registers() {
    let mut cpu = exec_cpu();
    // LDX #$05; CPX #$06; BRK: X < M clears carry, sets negative
    cpu.load_and_run(&vec![0xA2, 0x05, 0xE0, 0x06, 0x00]).unwrap();
    assert!(!cpu.status.contains(CARRY));
    assert!(cpu.status.contains(NEGATIVE));

    let mut cpu = exec_cpu();
    // LDY #$07; CPY #$06; BRK: Y > M sets carry, clears zero
    cpu.load_and_run(&vec![0xA0, 0x07, 0xC0, 0x06, 0x00]).unwrap();
    assert!(cpu.status.contains(CARRY));
    assert!(!cpu.status.contains(ZERO));
}

#[test]
fn asl_accumulator_shifts_into_carry() {
    let mut cpu = exec_cpu();
    cpu.load_and_run(&vec![0xA9, 0x81, 0x0A, 0x00]).unwrap();

    assert_eq!(cpu.reg_a, 0x02);
    assert!(cpu.status.contains(CARRY));
}

#[test]
fn lsr_rol_ror_follow_the_carry() {
    let mut cpu = exec_cpu();
    // LDA #$01; LSR A: carry takes bit 0, result zero
    cpu.load_and_run(&vec![0xA9, 0x01, 0x4A, 0x00]).unwrap();
    assert_eq!(cpu.reg_a, 0x00);
    assert!(cpu.status.contains(CARRY));
    assert!(cpu.status.contains(ZERO));

    let mut cpu = exec_cpu();
    // SEC; LDA #$40; ROL A: the old carry enters bit 0
    cpu.load_and_run(&vec![0x38, 0xA9, 0x40, 0x2A, 0x00]).unwrap();
    assert_eq!(cpu.reg_a, 0x81);
    assert!(!cpu.status.contains(CARRY));

    let mut cpu = exec_cpu();
    // SEC; LDA #$02; ROR A: the old carry enters bit 7
    cpu.load_and_run(&vec![0x38, 0xA9, 0x02, 0x6A, 0x00]).unwrap();
    assert_eq!(cpu.reg_a, 0x81);
    assert!(!cpu.status.contains(CARRY));
}

#[test]
fn logical_ops_and_bit() {
    let mut cpu = exec_cpu();
    // LDA #$C3; AND #$0F
    cpu.load_and_run(&vec![0xA9, 0xC3, 0x29, 0x0F, 0x00]).unwrap();
    assert_eq!(cpu.reg_a, 0x03);

    let mut cpu = exec_cpu();
    // LDA #$C3; EOR #$FF
    cpu.load_and_run(&vec![0xA9, 0xC3, 0x49, 0xFF, 0x00]).unwrap();
    assert_eq!(cpu.reg_a, 0x3C);

    let mut cpu = exec_cpu();
    // LDA #$40; STA $80; LDA #$FF; BIT $80: overflow from bit 6
    cpu.load_and_run(&vec![0xA9, 0x40, 0x85, 0x80, 0xA9, 0xFF, 0x24, 0x80, 0x00]).unwrap();
    assert!(cpu.status.contains(OVERFLOW));
    assert!(!cpu.status.contains(NEGATIVE));
    assert!(!cpu.status.contains(ZERO));
}

#[test]
fn branch_taken_and_not_taken() {
    let mut cpu = exec_cpu();
    // CLC; BCC +1 skips the first BRK; LDA #$05; BRK
    cpu.load_and_run(&vec![0x18, 0x90, 0x01, 0x00, 0xA9, 0x05, 0x00]).unwrap();
    assert_eq!(cpu.reg_a, 0x05);
    // halted at the BRK at 0x0606: its fetch and the break advance leave
    // the counter at 0x0608
    assert_eq!(cpu.pc, 0x0608);

    let mut cpu = exec_cpu();
    // SEC; BCC +1 is not taken, so the BRK right after it halts
    cpu.load_and_run(&vec![0x38, 0x90, 0x01, 0x00, 0xA9, 0x05, 0x00]).unwrap();
    assert_eq!(cpu.reg_a, 0x00);
    assert_eq!(cpu.pc, 0x0605);
}

#[test]
fn jsr_and_rts_round_trip() {
    let mut cpu = exec_cpu();
    // 0x0600: JSR 0x0606; 0x0603: BRK; 0x0606: LDA #$05; RTS
    cpu.load_and_run(&vec![0x20, 0x06, 0x06, 0x00, 0x00, 0x00, 0xA9, 0x05, 0x60]).unwrap();

    assert_eq!(cpu.reg_a, 0x05);
    assert_eq!(cpu.pc, 0x0605);
    assert_eq!(cpu.sp, 0xFD);
}

#[test]
fn stack_push_pop_round_trip() {
    let mut cpu = exec_cpu();
    let sp0 = cpu.sp;

    cpu.push(0xAB);
    assert_eq!(cpu.pop(), 0xAB);
    assert_eq!(cpu.sp, sp0);

    cpu.push_u16(0xBEEF);
    assert_eq!(cpu.pop_u16(), 0xBEEF);
    assert_eq!(cpu.sp, sp0);
}

#[test]
fn pha_pla_php_plp() {
    let mut cpu = exec_cpu();
    // LDA #$42; PHA; LDA #$00; PLA
    cpu.load_and_run(&vec![0xA9, 0x42, 0x48, 0xA9, 0x00, 0x68, 0x00]).unwrap();
    assert_eq!(cpu.reg_a, 0x42);

    let mut cpu = exec_cpu();
    // SEC; PHP; CLC; PLP: the pushed carry comes back
    cpu.load_and_run(&vec![0x38, 0x08, 0x18, 0x28, 0x00]).unwrap();
    assert!(cpu.status.contains(CARRY));
    // PLP forces the unused flag set
    assert!(cpu.status.contains(fete::status::UNUSED));
}

#[test]
fn inc_dec_memory_and_registers() {
    let mut cpu = exec_cpu();
    // LDA #$09; STA $10; INC $10; DEC $11
    cpu.load_and_run(&vec![0xA9, 0x09, 0x85, 0x10, 0xE6, 0x10, 0xC6, 0x11, 0x00]).unwrap();
    assert_eq!(cpu.bus.mem_read(0x0010), 0x0A);
    assert_eq!(cpu.bus.mem_read(0x0011), 0xFF);

    let mut cpu = exec_cpu();
    // LDX #$00; DEX wraps to 0xFF
    cpu.load_and_run(&vec![0xA2, 0x00, 0xCA, 0x00]).unwrap();
    assert_eq!(cpu.reg_x, 0xFF);
    assert!(cpu.status.contains(NEGATIVE));
}

#[test]
fn invalid_opcode_is_reported_with_its_address() {
    let mut cpu = exec_cpu();
    let err = cpu.load_and_run(&vec![0x02]).unwrap_err();

    match err {
        fete::cpu::Error::InvalidOpcode { opcode, offset } => {
            assert_eq!(opcode, 0x02);
            assert_eq!(offset, 0x0600);
        },
    }
    // the counter is left just past the bad byte
    assert_eq!(cpu.pc, 0x0601);
}

#[test]
fn reset_preserves_ram() {
    let mut cpu = exec_cpu();
    cpu.bus.mem_write(0x0010, 0xAA);
    cpu.bus.mem_write(0x07FF, 0xBB);
    cpu.reg_a = 0x55;
    cpu.sp = 0x00;

    cpu.reset();

    assert_eq!(cpu.bus.mem_read(0x0010), 0xAA);
    assert_eq!(cpu.bus.mem_read(0x07FF), 0xBB);
    assert_eq!(cpu.reg_a, 0);
    assert_eq!(cpu.reg_x, 0);
    assert_eq!(cpu.reg_y, 0);
    assert_eq!(cpu.sp, 0xFD);
    assert_eq!(cpu.status.bits(), 0x24);
}

#[test]
fn ram_is_mirrored_below_0x2000() {
    let mut cpu = exec_cpu();
    cpu.bus.mem_write(0x0005, 0x99);

    assert_eq!(cpu.bus.mem_read(0x0805), 0x99);
    assert_eq!(cpu.bus.mem_read(0x1005), 0x99);
    assert_eq!(cpu.bus.mem_read(0x1805), 0x99);

    // writes through a mirror land in the same cell
    cpu.bus.mem_write(0x1805, 0x77);
    assert_eq!(cpu.bus.mem_read(0x0005), 0x77);
}

#[test]
fn prg_rom_16k_is_mirrored() {
    let mut raw = vec![
        0x4E, 0x45, 0x53, 0x1A, 0x01, 0x01, 0x00, 0x00, 0x00, 0x00, 0x00, 0x00, 0x00, 0x00, 0x00,
        0x00,
    ];
    let mut prg = vec![0u8; 16384];
    prg[0] = 0xAB;
    prg[0x123] = 0xCD;
    raw.extend(prg);
    raw.extend(vec![0u8; 8192]);
    let bus = Bus::new(Rom::new(&raw).unwrap());

    assert_eq!(bus.mem_read(0x8000), 0xAB);
    assert_eq!(bus.mem_read(0xC000), 0xAB);
    assert_eq!(bus.mem_read(0x8123), 0xCD);
    assert_eq!(bus.mem_read(0xC123), 0xCD);
}

#[test]
fn rom_writes_are_dropped_and_unmapped_reads_are_zero() {
    let mut cpu = exec_cpu();
    cpu.bus.mem_write(0x8000, 0x55);
    assert_eq!(cpu.bus.mem_read(0x8000), 0x00);

    assert_eq!(cpu.bus.mem_read(0x4000), 0x00);
    assert_eq!(cpu.bus.mem_read(0x2000), 0x00);
    cpu.bus.mem_write(0x2000, 0x12);
    cpu.bus.mem_write(0x4123, 0x12);
    assert_eq!(cpu.bus.mem_read(0x2000), 0x00);
    assert_eq!(cpu.bus.mem_read(0x4123), 0x00);
}

#[test]
fn set_nz_depends_only_on_value_and_is_idempotent() {
    let mut cpu = exec_cpu();
    cpu.zero_and_neg_flags(0);
    assert!(cpu.status.contains(ZERO));
    assert!(!cpu.status.contains(NEGATIVE));
    let once = cpu.status.bits();
    cpu.zero_and_neg_flags(0);
    assert_eq!(cpu.status.bits(), once);

    cpu.zero_and_neg_flags(0x80);
    assert!(!cpu.status.contains(ZERO));
    assert!(cpu.status.contains(NEGATIVE));
    let once = cpu.status.bits();
    cpu.zero_and_neg_flags(0x80);
    assert_eq!(cpu.status.bits(), once);
}

#[test]
fn transfers_move_registers() {
    let mut cpu = exec_cpu();
    // LDA #$0A; TAX; TAY; LDX #$20; TXS; TSX; TXA
    cpu.load_and_run(&vec![0xA9, 0x0A, 0xAA, 0xA8, 0x00]).unwrap();
    assert_eq!(cpu.reg_x, 0x0A);
    assert_eq!(cpu.reg_y, 0x0A);

    let mut cpu = exec_cpu();
    cpu.load_and_run(&vec![0xA2, 0x20, 0x9A, 0x00]).unwrap();
    assert_eq!(cpu.sp, 0x20);
}

#[test]
fn flag_ops_set_and_clear() {
    let mut cpu = exec_cpu();
    cpu.load_and_run(&vec![0x38, 0xF8, 0x78, 0x00]).unwrap();
    assert!(cpu.status.contains(CARRY));
    assert!(cpu.status.contains(fete::status::DECIMAL_MODE));
    assert!(cpu.status.contains(fete::status::INTERRUPT_DISABLE));

    let mut cpu = exec_cpu();
    cpu.load_and_run(&vec![0x38, 0x18, 0xF8, 0xD8, 0x58, 0x00]).unwrap();
    assert!(!cpu.status.contains(CARRY));
    assert!(!cpu.status.contains(fete::status::DECIMAL_MODE));
    assert!(!cpu.status.contains(fete::status::INTERRUPT_DISABLE));
}

#[test]
fn rti_restores_status_and_counter() {
    let mut cpu = exec_cpu();
    cpu.load(&vec![0x40]);
    // hand-build the interrupt frame: the return address under the
    // status byte, exactly as pushed
    cpu.push_u16(0x0700);
    cpu.push(0x81);

    assert_eq!(cpu.tick().unwrap(), false);
    assert_eq!(cpu.pc, 0x0700);
    // the break flag is cleared and the unused flag forced set
    assert_eq!(cpu.status.bits(), 0xA1);
    assert_eq!(cpu.sp, 0xFD);
}

#[test]
fn loads_and_stores_through_memory_modes() {
    let mut cpu = exec_cpu();
    // LDX #$03; LDA #$11; STA $20,X; LDY $23; BRK
    cpu.load_and_run(&vec![0xA2, 0x03, 0xA9, 0x11, 0x95, 0x20, 0xAC, 0x23, 0x00, 0x00]).unwrap();
    assert_eq!(cpu.bus.mem_read(0x0023), 0x11);
    assert_eq!(cpu.reg_y, 0x11);

    let mut cpu = exec_cpu();
    // LDX #$22; STX $40; LDY #$33; STY $41; BRK
    cpu.load_and_run(&vec![0xA2, 0x22, 0x86, 0x40, 0xA0, 0x33, 0x84, 0x41, 0x00]).unwrap();
    assert_eq!(cpu.bus.mem_read(0x0040), 0x22);
    assert_eq!(cpu.bus.mem_read(0x0041), 0x33);
}

#[test]
fn ora_nop_and_tsx() {
    let mut cpu = exec_cpu();
    // LDA #$0F; ORA #$F0; NOP; TSX; BRK
    cpu.load_and_run(&vec![0xA9, 0x0F, 0x09, 0xF0, 0xEA, 0xBA, 0x00]).unwrap();
    assert_eq!(cpu.reg_a, 0xFF);
    assert_eq!(cpu.reg_x, 0xFD);
    assert!(cpu.status.contains(NEGATIVE));
}

#[test]
fn mirror_references_backing_storage() {
    let mut cpu = exec_cpu();
    cpu.bus.mem_write(0x0005, 0x99);

    assert_eq!(cpu.bus.mirror(0x0005), Some(&0x99));
    assert_eq!(cpu.bus.mirror(0x1805), Some(&0x99));
    assert_eq!(cpu.bus.mirror(0x2000), None);
    assert_eq!(cpu.bus.mirror(0x4123), None);
    assert_eq!(cpu.bus.mirror(0x8000), Some(&0x00));
}
