use fasm_writer::operand::{MemKind, Memory, Operand, OperandSize, Scale, Sib};
use fasm_writer::register::{Reg, RegName, RegSize};
use fasm_writer::writer::FasmWriter;

fn reg(name: RegName, size: RegSize) -> Operand {
    Operand::from(Reg::new(name, size))
}

#[test]
fn mov_to_base_only_memory() {
    let mut w = FasmWriter::new();
    let rax = Reg::new(RegName::A, RegSize::QWord);
    w.mov(Operand::from(rax.mem()), Operand::from(42u32));
    assert_eq!(w.output(), "    mov [rax], 42\n");
}

#[test]
fn mov_from_scaled_index_memory() {
    let mut w = FasmWriter::new();
    let mem = Memory {
        kind: MemKind::Sib(Sib {
            base: Some(Reg::new(RegName::B, RegSize::QWord)),
            index: Some((Reg::new(RegName::C, RegSize::QWord), Scale::Four)),
        }),
        label: None,
        offset: 8,
        size: None,
    };
    w.mov(reg(RegName::A, RegSize::DWord), Operand::from(mem));
    assert_eq!(w.output(), "    mov eax, [rbx + rcx * 4 + 8]\n");
}

#[test]
fn entry_and_label_definition() {
    let mut w = FasmWriter::new();
    let h = w.add_label("_start");
    w.entry(h);
    w.emit_label(h);
    assert_eq!(w.output(), "entry _start\n    _start:\n");
}

#[test]
fn push_then_ret() {
    let mut w = FasmWriter::new();
    w.push(reg(RegName::DI, RegSize::QWord));
    w.ret();
    assert_eq!(w.output(), "    push rdi\n    ret\n");
}

#[test]
fn label_with_negative_offset() {
    let mut w = FasmWriter::new();
    let l = w.add_label("table");
    let mem = Memory {
        kind: MemKind::Sib(Sib { base: None, index: None }),
        label: Some(l),
        offset: -4,
        size: Some(OperandSize::from(RegSize::DWord)),
    };
    w.push(Operand::from(mem));
    assert_eq!(w.output(), "    push dword [table - 4]\n");
}

#[test]
fn leading_negative_offset_drops_its_sign() {
    let mut w = FasmWriter::new();
    let mem = Memory {
        kind: MemKind::Sib(Sib { base: None, index: None }),
        label: None,
        offset: -16,
        size: Some(OperandSize::from(RegSize::QWord)),
    };
    w.pop(Operand::from(mem));
    assert_eq!(w.output(), "    pop qword [16]\n");
}

#[test]
fn smallest_offset_renders_its_magnitude() {
    let mut w = FasmWriter::new();
    let mem = Reg::new(RegName::SP, RegSize::QWord).mem().offset(i32::MIN);
    w.mov(Operand::from(mem), reg(RegName::R8, RegSize::QWord));
    assert_eq!(w.output(), "    mov [rsp - 2147483648], r8\n");
}

#[test]
fn rip_relative_with_offset() {
    let mut w = FasmWriter::new();
    let l = w.add_label("msg");
    let mem = Memory::rip(l) + 2u8;
    w.mov(reg(RegName::SI, RegSize::QWord), Operand::from(mem));
    assert_eq!(w.output(), "    mov rsi, [rip + msg + 2]\n");
}

#[test]
fn index_without_base_and_unit_scale() {
    let mut w = FasmWriter::new();
    let mem = Memory {
        kind: MemKind::Sib(Sib { base: None, index: Some((Reg::new(RegName::R11, RegSize::QWord), Scale::One)) }),
        label: None,
        offset: 0,
        size: None,
    };
    let eight = Memory {
        kind: MemKind::Sib(Sib { base: None, index: Some((Reg::new(RegName::D, RegSize::QWord), Scale::Eight)) }),
        label: None,
        offset: 0,
        size: None,
    };
    w.mov(reg(RegName::A, RegSize::Word), Operand::from(mem));
    w.mov(reg(RegName::A, RegSize::Word), Operand::from(eight));
    assert_eq!(w.output(), "    mov ax, [r11]\n    mov ax, [rdx * 8]\n");
}

#[test]
fn base_index_label_and_offset_together() {
    let mut w = FasmWriter::new();
    let l = w.add_label("arr");
    let mem = Reg::new(RegName::BP, RegSize::QWord)
        .mem()
        .scaled(Reg::new(RegName::R9, RegSize::QWord), Scale::Two)
        .label(l)
        .offset(-7)
        .size(OperandSize::from(RegSize::Byte));
    w.mov(Operand::from(mem), Operand::from(-3i8));
    assert_eq!(w.output(), "    mov byte [rbp + r9 * 2 + arr - 7], -3\n");
}

#[test]
fn two_immediates_need_no_size() {
    let mut w = FasmWriter::new();
    w.mov(Operand::from(1u8), Operand::from(i64::MIN));
    assert_eq!(w.output(), "    mov 1, -9223372036854775808\n");
}

#[test]
fn label_operand_and_call() {
    let mut w = FasmWriter::new();
    let l = w.add_label("exit");
    w.mov(reg(RegName::DI, RegSize::QWord), Operand::from(l));
    w.call(reg(RegName::R12, RegSize::QWord));
    assert_eq!(w.output(), "    mov rdi, exit\n    call r12\n");
}

#[test]
fn sized_memory_keywords() {
    let mut w = FasmWriter::new();
    let base = Reg::new(RegName::B, RegSize::QWord).mem();
    w.push(Operand::from(base.size(OperandSize::from(RegSize::Word))));
    w.push(Operand::from(base.size(OperandSize::from(RegSize::QWord)) + 5u32));
    assert_eq!(w.output(), "    push word [rbx]\n    push qword [rbx + 5]\n");
}

#[test]
fn prelude_and_segments() {
    let mut w = FasmWriter::new();
    w.prelude();
    w.segment(false, false, false);
    w.segment(true, false, true);
    w.segment(true, true, true);
    w.segment(false, true, false);
    assert_eq!(
        w.output(),
        "format ELF64 executable\nsegment\nsegment readable executable\nsegment readable writable executable\nsegment writable\n"
    );
}

#[test]
fn taking_output_keeps_labels() {
    let mut w = FasmWriter::new();
    let l = w.add_label("main");
    w.emit_label(l);
    assert_eq!(w.take_output(), "    main:\n");
    assert_eq!(w.output(), "");
    w.entry(l);
    assert_eq!(w.take_output(), "entry main\n");
}
