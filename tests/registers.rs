use fasm_writer::register::{Reg, RegName, RegSize};
use std::collections::HashSet;

const NAMES: [RegName; 16] = [
    RegName::A,
    RegName::B,
    RegName::C,
    RegName::D,
    RegName::SI,
    RegName::DI,
    RegName::SP,
    RegName::BP,
    RegName::R8,
    RegName::R9,
    RegName::R10,
    RegName::R11,
    RegName::R12,
    RegName::R13,
    RegName::R14,
    RegName::R15,
];
const SIZES: [RegSize; 4] = [RegSize::Byte, RegSize::Word, RegSize::DWord, RegSize::QWord];

#[test]
fn every_register_has_a_distinct_lowercase_mnemonic() {
    let mut seen = HashSet::new();
    for name in NAMES {
        for size in SIZES {
            let text = Reg::new(name, size).full_name();
            assert!(!text.is_empty());
            assert!(text.chars().all(|c| c.is_ascii_lowercase() || c.is_ascii_digit()));
            assert!(seen.insert(text), "{text} appears twice");
        }
    }
    assert_eq!(seen.len(), 64);
}

#[test]
fn known_mnemonics() {
    assert_eq!(Reg::new(RegName::A, RegSize::QWord).full_name(), "rax");
    assert_eq!(Reg::new(RegName::A, RegSize::Byte).full_name(), "al");
    assert_eq!(Reg::new(RegName::DI, RegSize::Byte).full_name(), "dil");
    assert_eq!(Reg::new(RegName::SP, RegSize::DWord).full_name(), "esp");
    assert_eq!(Reg::new(RegName::R9, RegSize::Byte).full_name(), "r9b");
    assert_eq!(Reg::new(RegName::R15, RegSize::Word).full_name(), "r15w");
    assert_eq!(Reg::new(RegName::R12, RegSize::DWord).full_name(), "r12d");
}

#[test]
fn r8_is_mapped_at_every_width() {
    assert_eq!(Reg::new(RegName::R8, RegSize::Byte).full_name(), "r8b");
    assert_eq!(Reg::new(RegName::R8, RegSize::Word).full_name(), "r8w");
    assert_eq!(Reg::new(RegName::R8, RegSize::DWord).full_name(), "r8d");
    assert_eq!(Reg::new(RegName::R8, RegSize::QWord).full_name(), "r8");
}

#[test]
fn substituting_a_component() {
    let rax = Reg::new(RegName::A, RegSize::QWord);
    assert_eq!(rax.with_size(RegSize::DWord), Reg::new(RegName::A, RegSize::DWord));
    assert_eq!(rax.with_name(RegName::R10), Reg::new(RegName::R10, RegSize::QWord));
    assert_eq!(RegName::C.with_size(RegSize::Word), Reg::new(RegName::C, RegSize::Word));
    assert_eq!(RegSize::Byte.with_name(RegName::BP), Reg::new(RegName::BP, RegSize::Byte));
    assert_ne!(rax, rax.with_size(RegSize::Byte));
}
