//! The status register wrapper: set, clear, assign and query.

use fete::status::{Status, BREAK, CARRY, NEGATIVE, OVERFLOW, UNUSED, ZERO};

#[test]
fn status_empty_and_bits() {
    let s = Status::empty();
    assert_eq!(s.bits(), 0);
    assert!(!s.contains(CARRY));
}

#[test]
fn status_insert_remove_set() {
    let mut s = Status::empty();
    s.insert(CARRY);
    assert!(s.contains(CARRY));
    s.insert(NEGATIVE);
    assert!(s.contains(CARRY | NEGATIVE));

    s.remove(CARRY);
    assert!(!s.contains(CARRY));
    assert!(s.contains(NEGATIVE));

    s.set(ZERO, true);
    assert!(s.contains(ZERO));
    s.set(ZERO, false);
    assert!(!s.contains(ZERO));
}

#[test]
fn status_from_bits_truncate_keeps_all_bits() {
    let s = Status::from_bits_truncate(0xFF);
    assert_eq!(s.bits(), 0xFF);
    assert!(s.contains(BREAK | UNUSED | OVERFLOW));

    let s = Status::from_bits_truncate(0x24);
    assert_eq!(s.bits(), 0x24);
}

#[test]
fn status_equality_is_by_bits() {
    assert_eq!(Status::from_bits_truncate(0x24), Status::from_bits_truncate(0x24));
    assert_ne!(Status::from_bits_truncate(0x24), Status::empty());
}
