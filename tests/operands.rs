use fasm_writer::label::Labels;
use fasm_writer::operand::{MemKind, Memory, Operand, OperandSize, Scale, Sib};
use fasm_writer::register::{Reg, RegName, RegSize};
use fasm_writer::writer::{common_size, NoCommonSize};

fn rbx() -> Reg {
    Reg::new(RegName::B, RegSize::QWord)
}

#[test]
fn adding_then_resolving_gives_the_name() {
    let mut labels = Labels::new();
    let h = labels.add("x");
    assert_eq!(labels.resolve(h), "x");
}

#[test]
fn equal_names_give_distinct_handles() {
    let mut labels = Labels::new();
    let a = labels.add("x");
    let b = labels.add("x");
    assert_ne!(a, b);
    assert_eq!(labels.resolve(a), "x");
    assert_eq!(labels.resolve(b), "x");
}

#[test]
fn reconciling_sizes() {
    let byte = OperandSize::from(RegSize::Byte);
    let word = OperandSize::from(RegSize::Word);
    assert_eq!(common_size(None, None), Ok(None));
    assert_eq!(common_size(Some(byte), None), Ok(Some(byte)));
    assert_eq!(common_size(None, Some(word)), Ok(Some(word)));
    assert_eq!(common_size(Some(word), Some(word)), Ok(Some(word)));
    assert_eq!(common_size(Some(byte), Some(word)), Err(NoCommonSize));
}

#[test]
fn displacement_wraps_at_the_top() {
    let m = rbx().mem().offset(2147483647) + 1u8;
    assert_eq!(m.offset, -2147483648);
}

#[test]
fn displacement_wraps_at_the_bottom() {
    let m = rbx().mem().offset(-2147483648) + (-1i8);
    assert_eq!(m.offset, 2147483647);
    let m = rbx().mem().offset(-5) + 4000000000u32;
    assert_eq!(m.offset, -294967301);
}

#[test]
fn displacement_adds_every_width() {
    let m = rbx().mem() + 3u8 + 300u16 + 70000u32 + (-2i8) + (-300i16) + (-70000i32);
    assert_eq!(m.offset, 1);
}

#[test]
fn operand_sizes() {
    let eax = Reg::new(RegName::A, RegSize::DWord);
    assert_eq!(Operand::from(eax).size(), Some(OperandSize::Register(RegSize::DWord)));
    assert_eq!(Operand::from(5u8).size(), None);
    assert_eq!(Operand::from(rbx().mem()).size(), None);
    let sized = rbx().mem().size(OperandSize::from(RegSize::Word));
    assert_eq!(Operand::from(sized).size(), Some(OperandSize::Register(RegSize::Word)));
    let mut labels = Labels::new();
    let l = labels.add("l");
    assert_eq!(Operand::from(l).size(), None);
}

#[test]
fn immediates_are_sign_extended() {
    assert!(matches!(Operand::from(-1i8), Operand::Immediate(-1)));
    assert!(matches!(Operand::from(255u8), Operand::Immediate(255)));
    assert!(matches!(Operand::from(-32768i16), Operand::Immediate(-32768)));
    assert!(matches!(Operand::from(65535u16), Operand::Immediate(65535)));
    assert!(matches!(Operand::from(i32::MIN), Operand::Immediate(-2147483648)));
    assert!(matches!(Operand::from(u32::MAX), Operand::Immediate(4294967295)));
    assert!(matches!(Operand::from(i64::MIN), Operand::Immediate(-9223372036854775808)));
    assert!(matches!(Operand::from(u64::MAX), Operand::Immediate(18446744073709551615)));
}

#[test]
fn scale_factors() {
    assert_eq!(Scale::One.numeric(), 1);
    assert_eq!(Scale::Two.numeric(), 2);
    assert_eq!(Scale::Four.numeric(), 4);
    assert_eq!(Scale::Eight.numeric(), 8);
}

#[test]
fn builders_return_modified_copies() {
    let rcx = Reg::new(RegName::C, RegSize::QWord);
    let base = rbx().mem();
    let indexed = base.index(rcx);
    let scaled = base.scaled(rcx, Scale::Eight);
    assert_eq!(base.kind, MemKind::Sib(Sib { base: Some(rbx()), index: None }));
    assert_eq!(indexed.kind, MemKind::Sib(Sib { base: Some(rbx()), index: Some((rcx, Scale::One)) }));
    assert_eq!(scaled.kind, MemKind::Sib(Sib { base: Some(rbx()), index: Some((rcx, Scale::Eight)) }));
    let mut labels = Labels::new();
    let l = labels.add("data");
    let labelled = base.label(l).offset(12).size(OperandSize::from(RegSize::Byte));
    assert_eq!(labelled.label, Some(l));
    assert_eq!(labelled.offset, 12);
    assert_eq!(labelled.size, Some(OperandSize::Register(RegSize::Byte)));
    assert_eq!(base.label, None);
    assert_eq!(base.offset, 0);
    assert_eq!(base.size, None);
}

#[test]
fn rip_relative_memory() {
    let mut labels = Labels::new();
    let l = labels.add("msg");
    let m = Memory::rip(l);
    assert_eq!(m.kind, MemKind::Rip);
    assert_eq!(m.label, Some(l));
    assert_eq!(m.offset, 0);
    assert_eq!(m.size, None);
}
