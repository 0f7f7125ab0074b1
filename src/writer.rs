//! The emission engine: renders directives and instructions as lines of
//! flat assembler source.
use vstd::prelude::*;

use crate::decimal::{decimal, push_decimal, push_signed_decimal, signed_decimal};
use crate::label::{Label, Labels};
use crate::operand::{operand_size, scale_value, MemKind, Memory, Operand, OperandSize, Scale};
use crate::register::{reg_text, RegSize};

verus! {

/// The operands of an instruction disagree on their access width.
#[derive(Clone, Copy, Debug, PartialEq, Eq, Hash, Structural)]
pub struct NoCommonSize;

/// The width two operands agree on: none when neither implies one, the one
/// that is given when only one is, and a mismatch when both are and differ.
pub open spec fn spec_common_size(a: Option<OperandSize>, b: Option<OperandSize>) -> Result<
    Option<OperandSize>,
    NoCommonSize,
> {
    match (a, b) {
        (None, None) => Ok(None),
        (Some(s), None) => Ok(Some(s)),
        (None, Some(s)) => Ok(Some(s)),
        (Some(x), Some(y)) => if x == y {
            Ok(Some(x))
        } else {
            Err(NoCommonSize)
        },
    }
}

/// Reconciles the widths of two operands of one instruction.
pub fn common_size(a: Option<OperandSize>, b: Option<OperandSize>) -> (r: Result<
    Option<OperandSize>,
    NoCommonSize,
>)
    ensures
        r == spec_common_size(a, b),
{
    match (a, b) {
        (None, None) => Ok(None),
        (Some(s), None) => Ok(Some(s)),
        (None, Some(s)) => Ok(Some(s)),
        (Some(x), Some(y)) => {
            let OperandSize::Register(rx) = x;
            let OperandSize::Register(ry) = y;
            if rx == ry {
                Ok(Some(x))
            } else {
                Err(NoCommonSize)
            }
        },
    }
}

/// The keyword that declares an access width.
pub open spec fn size_keyword(s: OperandSize) -> Seq<char> {
    match s {
        OperandSize::Register(RegSize::Byte) => "byte"@,
        OperandSize::Register(RegSize::Word) => "word"@,
        OperandSize::Register(RegSize::DWord) => "dword"@,
        OperandSize::Register(RegSize::QWord) => "qword"@,
    }
}

/// Whether an address names a register: the instruction pointer, a base or
/// an index.
pub open spec fn names_register(kind: MemKind) -> bool {
    match kind {
        MemKind::Rip => true,
        MemKind::Sib(sib) => sib.base is Some || sib.index is Some,
    }
}

/// The register part of an address: `rip`, or the base, then ` + ` and the
/// index where both are there, then ` * ` and the scale where it is not one.
pub open spec fn registers_text(kind: MemKind) -> Seq<char> {
    match kind {
        MemKind::Rip => "rip"@,
        MemKind::Sib(sib) => {
            let base = match sib.base {
                Some(b) => reg_text(b),
                None => Seq::empty(),
            };
            let index = match sib.index {
                Some((i, sc)) => {
                    let sep = if sib.base is Some {
                        " + "@
                    } else {
                        Seq::empty()
                    };
                    let factor = if sc != Scale::One {
                        " * "@ + decimal(scale_value(sc) as nat)
                    } else {
                        Seq::empty()
                    };
                    sep + reg_text(i) + factor
                },
                None => Seq::empty(),
            };
            base + index
        },
    }
}

/// The label part of an address, after ` + ` where registers precede it.
pub open spec fn label_part(m: Memory, names: Seq<Seq<char>>) -> Seq<char> {
    match m.label {
        Some(l) => (if names_register(m.kind) {
            " + "@
        } else {
            Seq::empty()
        }) + names[l@ as int],
        None => Seq::empty(),
    }
}

/// The displacement part of an address: nothing for zero; otherwise its
/// magnitude, after ` - ` or ` + ` by its sign where anything precedes it
/// and with no sign at all where nothing does.
pub open spec fn offset_part(offset: i32, preceded: bool) -> Seq<char> {
    if offset == 0 {
        Seq::empty()
    } else {
        let sep = if !preceded {
            Seq::empty()
        } else if offset < 0 {
            " - "@
        } else {
            " + "@
        };
        sep + decimal(if offset < 0 {
            -offset
        } else {
            offset as int
        } as nat)
    }
}

/// A memory expression in the assembler's syntax: the declared width and a
/// space if there is one, then the address in brackets.
pub open spec fn memory_text(m: Memory, names: Seq<Seq<char>>) -> Seq<char> {
    let prefix = match m.size {
        Some(s) => size_keyword(s) + " "@,
        None => Seq::empty(),
    };
    prefix + "["@ + registers_text(m.kind) + label_part(m, names) + offset_part(
        m.offset,
        names_register(m.kind) || m.label is Some,
    ) + "]"@
}

/// An operand in the assembler's syntax.
pub open spec fn operand_text(op: Operand, names: Seq<Seq<char>>) -> Seq<char> {
    match op {
        Operand::Immediate(v) => signed_decimal(v as int),
        Operand::Label(l) => names[l@ as int],
        Operand::Memory(m) => memory_text(m, names),
        Operand::Register(r) => reg_text(r),
    }
}

/// Every label an operand refers to is among the first `n` of a table.
pub open spec fn labels_in(op: Operand, n: nat) -> bool {
    match op {
        Operand::Label(l) => l@ < n,
        Operand::Memory(m) => match m.label {
            Some(l) => l@ < n,
            None => true,
        },
        _ => true,
    }
}

/// A line holding an instruction with one operand.
pub open spec fn unary_line(name: Seq<char>, op: Operand, names: Seq<Seq<char>>) -> Seq<char> {
    "    "@ + name + " "@ + operand_text(op, names) + "\n"@
}

/// A line holding an instruction with two operands, the destination first.
pub open spec fn binary_line(name: Seq<char>, to: Operand, from: Operand, names: Seq<Seq<char>>) -> Seq<
    char,
> {
    "    "@ + name + " "@ + operand_text(to, names) + ", "@ + operand_text(from, names) + "\n"@
}

/// The line that declares the segment with the requested attributes.
pub open spec fn segment_line(readable: bool, writable: bool, executable: bool) -> Seq<char> {
    "segment"@ + (if readable {
        " readable"@
    } else {
        Seq::empty()
    }) + (if writable {
        " writable"@
    } else {
        Seq::empty()
    }) + (if executable {
        " executable"@
    } else {
        Seq::empty()
    }) + "\n"@
}

/// Renders instructions and directives as lines of assembler source, keeping
/// the names of the labels it hands out.
pub struct FasmWriter {
    labels: Labels,
    out: String,
}

impl FasmWriter {
    /// The names of the labels added so far, by handle.
    pub closed spec fn names(&self) -> Seq<Seq<char>> {
        self.labels@
    }

    /// The text emitted and not yet taken.
    pub closed spec fn text(&self) -> Seq<char> {
        self.out@
    }

    /// A writer with no labels and no text.
    pub fn new() -> (r: FasmWriter)
        ensures
            r.names() == Seq::<Seq<char>>::empty(),
            r.text() == Seq::<char>::empty(),
    {
        FasmWriter { labels: Labels::new(), out: String::new() }
    }

    /// The text emitted and not yet taken.
    pub fn output(&self) -> (r: &str)
        ensures
            r@ == self.text(),
    {
        self.out.as_str()
    }

    /// Hands over the text emitted so far and starts afresh; the labels stay.
    pub fn take_output(&mut self) -> (r: String)
        ensures
            r@ == old(self).text(),
            final(self).text() == Seq::<char>::empty(),
            final(self).names() == old(self).names(),
    {
        let r = self.out.clone();
        self.out = String::new();
        r
    }

    /// Adds a label named `label` and returns its handle.
    pub fn add_label(&mut self, label: &str) -> (r: Label)
        requires
            old(self).names().len() < usize::MAX,
        ensures
            final(self).names() == old(self).names().push(label@),
            r@ == old(self).names().len(),
            final(self).text() == old(self).text(),
    {
        self.labels.add(label)
    }

    /// Appends `s` to the text.
    fn put(&mut self, s: &str)
        ensures
            final(self).text() == old(self).text() + s@,
            final(self).names() == old(self).names(),
    {
        self.out.append(s);
    }

    /// Appends the name of `label` to the text.
    fn put_label(&mut self, label: Label)
        requires
            label@ < old(self).names().len(),
        ensures
            final(self).text() == old(self).text() + old(self).names()[label@ as int],
            final(self).names() == old(self).names(),
    {
        self.out.append(self.labels.resolve(label));
    }

    /// Writes the line that defines `label` here.
    pub fn emit_label(&mut self, label: Label)
        requires
            label@ < old(self).names().len(),
        ensures
            final(self).text() == old(self).text() + "    "@ + old(self).names()[label@ as int]
                + ":\n"@,
            final(self).names() == old(self).names(),
    {
        self.put("    ");
        self.put_label(label);
        self.put(":\n");
    }

    /// Writes the header that makes the output an executable image.
    pub fn prelude(&mut self)
        ensures
            final(self).text() == old(self).text() + "format ELF64 executable\n"@,
            final(self).names() == old(self).names(),
    {
        self.put("format ELF64 executable\n");
    }

    /// Writes a segment directive with the requested attributes, in the order
    /// readable, writable, executable.
    pub fn segment(&mut self, readable: bool, writable: bool, executable: bool)
        ensures
            final(self).text() == old(self).text() + segment_line(readable, writable, executable),
            final(self).names() == old(self).names(),
    {
        self.put("segment");
        if readable {
            self.put(" readable");
        }
        if writable {
            self.put(" writable");
        }
        if executable {
            self.put(" executable");
        }
        self.put("\n");
        assert(self.text() =~= old(self).text() + segment_line(readable, writable, executable));
    }

    /// Writes the directive that makes `label` the entry point.
    pub fn entry(&mut self, label: Label)
        requires
            label@ < old(self).names().len(),
        ensures
            final(self).text() == old(self).text() + "entry "@ + old(self).names()[label@ as int]
                + "\n"@,
            final(self).names() == old(self).names(),
    {
        self.put("entry ");
        self.put_label(label);
        self.put("\n");
    }

    /// Appends the register part of an address.
    fn print_registers(&mut self, kind: MemKind)
        ensures
            final(self).text() == old(self).text() + registers_text(kind),
            final(self).names() == old(self).names(),
    {
        match kind {
            MemKind::Rip => {
                self.put("rip");
            },
            MemKind::Sib(sib) => {
                if let Some(base) = sib.base {
                    self.put(base.full_name());
                }
                if let Some((index, scale)) = sib.index {
                    if sib.base.is_some() {
                        self.put(" + ");
                    }
                    self.put(index.full_name());
                    if scale != Scale::One {
                        self.put(" * ");
                        push_decimal(&mut self.out, scale.numeric() as u128);
                    }
                }
                assert(self.text() =~= old(self).text() + registers_text(kind));
            },
        }
    }

    /// Appends the label part of an address.
    fn print_label_part(&mut self, mem: Memory, has_base: bool)
        requires
            labels_in(Operand::Memory(mem), old(self).names().len()),
            has_base == names_register(mem.kind),
        ensures
            final(self).text() == old(self).text() + label_part(mem, old(self).names()),
            final(self).names() == old(self).names(),
    {
        if let Some(label) = mem.label {
            if has_base {
                self.put(" + ");
            }
            self.put_label(label);
        }
        assert(self.text() =~= old(self).text() + label_part(mem, old(self).names()));
    }

    /// Appends the displacement part of an address.
    fn print_offset(&mut self, offset: i32, preceded: bool)
        ensures
            final(self).text() == old(self).text() + offset_part(offset, preceded),
            final(self).names() == old(self).names(),
    {
        if offset != 0 {
            if preceded && offset < 0 {
                self.put(" - ");
            } else if preceded {
                self.put(" + ");
            }
            let magnitude: u128 = if offset < 0 {
                (-(offset as i64)) as u128
            } else {
                offset as u128
            };
            push_decimal(&mut self.out, magnitude);
        }
        assert(self.text() =~= old(self).text() + offset_part(offset, preceded));
    }

    /// Appends a memory expression.
    fn print_memory(&mut self, mem: Memory)
        requires
            labels_in(Operand::Memory(mem), old(self).names().len()),
        ensures
            final(self).text() == old(self).text() + memory_text(mem, old(self).names()),
            final(self).names() == old(self).names(),
    {
        let ghost names = self.names();
        if let Some(size) = mem.size {
            self.print_operand_size(size);
            self.put(" ");
        }
        let ghost t1 = self.text();
        self.put("[");
        self.print_registers(mem.kind);
        let has_base = match mem.kind {
            MemKind::Rip => true,
            MemKind::Sib(sib) => sib.base.is_some() || sib.index.is_some(),
        };
        self.print_label_part(mem, has_base);
        self.print_offset(mem.offset, has_base || mem.label.is_some());
        self.put("]");
        let ghost prefix = match mem.size {
            Some(s) => size_keyword(s) + " "@,
            None => Seq::empty(),
        };
        assert(t1 =~= old(self).text() + prefix);
        assert(self.text() =~= t1 + "["@ + registers_text(mem.kind) + label_part(mem, names)
            + offset_part(mem.offset, names_register(mem.kind) || mem.label is Some) + "]"@);
        assert(self.text() =~= old(self).text() + memory_text(mem, names));
    }

    /// Appends the keyword of a declared access width.
    fn print_operand_size(&mut self, size: OperandSize)
        ensures
            final(self).text() == old(self).text() + size_keyword(size),
            final(self).names() == old(self).names(),
    {
        match size {
            OperandSize::Register(RegSize::Byte) => self.put("byte"),
            OperandSize::Register(RegSize::Word) => self.put("word"),
            OperandSize::Register(RegSize::DWord) => self.put("dword"),
            OperandSize::Register(RegSize::QWord) => self.put("qword"),
        }
    }

    /// Appends an operand.
    fn print_operand(&mut self, op: Operand)
        requires
            labels_in(op, old(self).names().len()),
        ensures
            final(self).text() == old(self).text() + operand_text(op, old(self).names()),
            final(self).names() == old(self).names(),
    {
        match op {
            Operand::Immediate(value) => push_signed_decimal(&mut self.out, value),
            Operand::Label(id) => self.put_label(id),
            Operand::Register(reg) => self.put(reg.full_name()),
            Operand::Memory(mem) => self.print_memory(mem),
        }
    }

    /// Writes an instruction with one operand, whose width must be known.
    fn emit_unary_instruction(&mut self, name: &str, to: Operand)
        requires
            operand_size(to) is Some,
            labels_in(to, old(self).names().len()),
        ensures
            final(self).text() == old(self).text() + unary_line(name@, to, old(self).names()),
            final(self).names() == old(self).names(),
    {
        self.put("    ");
        self.put(name);
        self.put(" ");
        self.print_operand(to);
        self.put("\n");
        assert(self.text() =~= old(self).text() + unary_line(name@, to, old(self).names()));
    }

    /// Writes an instruction with two operands, which must agree on their
    /// width.
    fn emit_binary_instruction(&mut self, name: &str, to: Operand, from: Operand)
        requires
            spec_common_size(operand_size(to), operand_size(from)) is Ok,
            labels_in(to, old(self).names().len()),
            labels_in(from, old(self).names().len()),
        ensures
            final(self).text() == old(self).text() + binary_line(name@, to, from, old(self).names()),
            final(self).names() == old(self).names(),
    {
        self.put("    ");
        self.put(name);
        self.put(" ");
        self.print_operand(to);
        self.put(", ");
        self.print_operand(from);
        self.put("\n");
        assert(self.text() =~= old(self).text() + binary_line(name@, to, from, old(self).names()));
    }

    /// Writes `call` with its target.
    pub fn call(&mut self, to: Operand)
        requires
            operand_size(to) is Some,
            labels_in(to, old(self).names().len()),
        ensures
            final(self).text() == old(self).text() + unary_line("call"@, to, old(self).names()),
            final(self).names() == old(self).names(),
    {
        self.emit_unary_instruction("call", to)
    }

    /// Writes `mov` from `from` to `to`.
    pub fn mov(&mut self, to: Operand, from: Operand)
        requires
            spec_common_size(operand_size(to), operand_size(from)) is Ok,
            labels_in(to, old(self).names().len()),
            labels_in(from, old(self).names().len()),
        ensures
            final(self).text() == old(self).text() + binary_line("mov"@, to, from, old(self).names()),
            final(self).names() == old(self).names(),
    {
        self.emit_binary_instruction("mov", to, from)
    }

    /// Writes `pop` into `to`.
    pub fn pop(&mut self, to: Operand)
        requires
            operand_size(to) is Some,
            labels_in(to, old(self).names().len()),
        ensures
            final(self).text() == old(self).text() + unary_line("pop"@, to, old(self).names()),
            final(self).names() == old(self).names(),
    {
        self.emit_unary_instruction("pop", to)
    }

    /// Writes `push` of `to`.
    pub fn push(&mut self, to: Operand)
        requires
            operand_size(to) is Some,
            labels_in(to, old(self).names().len()),
        ensures
            final(self).text() == old(self).text() + unary_line("push"@, to, old(self).names()),
            final(self).names() == old(self).names(),
    {
        self.emit_unary_instruction("push", to)
    }

    /// Writes `ret`.
    pub fn ret(&mut self)
        ensures
            final(self).text() == old(self).text() + "    ret\n"@,
            final(self).names() == old(self).names(),
    {
        self.put("    ret\n")
    }
}

} // verus!
