//! The opcode table: coverage of the documented set and internal
//! consistency of every row.

use fete::addr_mode::AddressingMode;
use fete::opcode::{opcode_lookup, OpCode};

#[test]
fn table_rows_are_consistent() {
    // every byte either resolves to a row whose size is the mode's
    // operand count plus one, or is absent
    let mut known: u32 = 0;
    for code in 0..=255u8 {
        if let Some(entry) = opcode_lookup(code) {
            assert_eq!(entry.code, code);
            assert_eq!(entry.bytes, entry.mode.size() + 1);
            assert!(entry.cycles >= 2);
            assert_eq!(entry.name.len(), 3);
            known += 1;
        }
    }
    assert_eq!(known, 151);
}

#[test]
fn table_knows_the_common_opcodes() {
    let lda = opcode_lookup(0xA9).unwrap();
    assert_eq!(lda.name, "LDA");
    assert_eq!(lda.mode, AddressingMode::Immediate);
    assert_eq!(lda.bytes, 2);
    assert_eq!(lda.cycles, 2);

    let jmp = opcode_lookup(0x6C).unwrap();
    assert_eq!(jmp.name, "JMP");
    assert_eq!(jmp.mode, AddressingMode::Indirect);
    assert_eq!(jmp.bytes, 3);

    let brk = opcode_lookup(0x00).unwrap();
    assert_eq!(brk.name, "BRK");
    assert_eq!(brk.mode, AddressingMode::NoneAddressing);
    assert_eq!(brk.cycles, 7);

    assert!(opcode_lookup(0x02).is_none());
    assert!(opcode_lookup(0xFF).is_none());
}

#[test]
fn opcode_rows_can_be_built_directly() {
    let row = OpCode::new(0xEA, "NOP", AddressingMode::NoneAddressing, 1, 2);
    assert_eq!(row.code, 0xEA);
    assert_eq!(row.name, "NOP");
    assert_eq!(row.mode, AddressingMode::NoneAddressing);
    assert_eq!(row.bytes, 1);
    assert_eq!(row.cycles, 2);
}

#[test]
fn mode_sizes() {
    assert_eq!(AddressingMode::NoneAddressing.size(), 0);
    assert_eq!(AddressingMode::Immediate.size(), 1);
    assert_eq!(AddressingMode::ZeroPage.size(), 1);
    assert_eq!(AddressingMode::ZeroPageX.size(), 1);
    assert_eq!(AddressingMode::ZeroPageY.size(), 1);
    assert_eq!(AddressingMode::IndirectX.size(), 1);
    assert_eq!(AddressingMode::IndirectY.size(), 1);
    assert_eq!(AddressingMode::Relative.size(), 1);
    assert_eq!(AddressingMode::Absolute.size(), 2);
    assert_eq!(AddressingMode::AbsoluteX.size(), 2);
    assert_eq!(AddressingMode::AbsoluteY.size(), 2);
    assert_eq!(AddressingMode::Indirect.size(), 2);
}
