//! The general-purpose registers: an identity crossed with a width.
use vstd::prelude::*;

use crate::operand::{MemKind, Memory, Sib};

verus! {

/// The identity of a general-purpose register, independent of its width.
#[derive(Clone, Copy, Debug, PartialEq, Eq, Hash, Structural)]
pub enum RegName {
    A,
    B,
    C,
    D,
    SI,
    DI,
    SP,
    BP,
    R8,
    R9,
    R10,
    R11,
    R12,
    R13,
    R14,
    R15,
}

/// The width at which a register is accessed.
#[derive(Clone, Copy, Debug, PartialEq, Eq, Hash, Structural)]
pub enum RegSize {
    Byte,
    Word,
    DWord,
    QWord,
}

/// A register: an identity at a width. Two registers are equal exactly when
/// both parts are.
#[derive(Clone, Copy, Debug, PartialEq, Eq, Hash, Structural)]
pub struct Reg {
    pub name: RegName,
    pub size: RegSize,
}

/// The assembler's mnemonic for each of the sixty-four registers.
pub open spec fn reg_text(r: Reg) -> Seq<char> {
    match (r.name, r.size) {
        (RegName::A, RegSize::Byte) => "al"@,
        (RegName::A, RegSize::Word) => "ax"@,
        (RegName::A, RegSize::DWord) => "eax"@,
        (RegName::A, RegSize::QWord) => "rax"@,
        (RegName::B, RegSize::Byte) => "bl"@,
        (RegName::B, RegSize::Word) => "bx"@,
        (RegName::B, RegSize::DWord) => "ebx"@,
        (RegName::B, RegSize::QWord) => "rbx"@,
        (RegName::C, RegSize::Byte) => "cl"@,
        (RegName::C, RegSize::Word) => "cx"@,
        (RegName::C, RegSize::DWord) => "ecx"@,
        (RegName::C, RegSize::QWord) => "rcx"@,
        (RegName::D, RegSize::Byte) => "dl"@,
        (RegName::D, RegSize::Word) => "dx"@,
        (RegName::D, RegSize::DWord) => "edx"@,
        (RegName::D, RegSize::QWord) => "rdx"@,
        (RegName::SI, RegSize::Byte) => "sil"@,
        (RegName::SI, RegSize::Word) => "si"@,
        (RegName::SI, RegSize::DWord) => "esi"@,
        (RegName::SI, RegSize::QWord) => "rsi"@,
        (RegName::DI, RegSize::Byte) => "dil"@,
        (RegName::DI, RegSize::Word) => "di"@,
        (RegName::DI, RegSize::DWord) => "edi"@,
        (RegName::DI, RegSize::QWord) => "rdi"@,
        (RegName::SP, RegSize::Byte) => "spl"@,
        (RegName::SP, RegSize::Word) => "sp"@,
        (RegName::SP, RegSize::DWord) => "esp"@,
        (RegName::SP, RegSize::QWord) => "rsp"@,
        (RegName::BP, RegSize::Byte) => "bpl"@,
        (RegName::BP, RegSize::Word) => "bp"@,
        (RegName::BP, RegSize::DWord) => "ebp"@,
        (RegName::BP, RegSize::QWord) => "rbp"@,
        (RegName::R8, RegSize::Byte) => "r8b"@,
        (RegName::R8, RegSize::Word) => "r8w"@,
        (RegName::R8, RegSize::DWord) => "r8d"@,
        (RegName::R8, RegSize::QWord) => "r8"@,
        (RegName::R9, RegSize::Byte) => "r9b"@,
        (RegName::R9, RegSize::Word) => "r9w"@,
        (RegName::R9, RegSize::DWord) => "r9d"@,
        (RegName::R9, RegSize::QWord) => "r9"@,
        (RegName::R10, RegSize::Byte) => "r10b"@,
        (RegName::R10, RegSize::Word) => "r10w"@,
        (RegName::R10, RegSize::DWord) => "r10d"@,
        (RegName::R10, RegSize::QWord) => "r10"@,
        (RegName::R11, RegSize::Byte) => "r11b"@,
        (RegName::R11, RegSize::Word) => "r11w"@,
        (RegName::R11, RegSize::DWord) => "r11d"@,
        (RegName::R11, RegSize::QWord) => "r11"@,
        (RegName::R12, RegSize::Byte) => "r12b"@,
        (RegName::R12, RegSize::Word) => "r12w"@,
        (RegName::R12, RegSize::DWord) => "r12d"@,
        (RegName::R12, RegSize::QWord) => "r12"@,
        (RegName::R13, RegSize::Byte) => "r13b"@,
        (RegName::R13, RegSize::Word) => "r13w"@,
        (RegName::R13, RegSize::DWord) => "r13d"@,
        (RegName::R13, RegSize::QWord) => "r13"@,
        (RegName::R14, RegSize::Byte) => "r14b"@,
        (RegName::R14, RegSize::Word) => "r14w"@,
        (RegName::R14, RegSize::DWord) => "r14d"@,
        (RegName::R14, RegSize::QWord) => "r14"@,
        (RegName::R15, RegSize::Byte) => "r15b"@,
        (RegName::R15, RegSize::Word) => "r15w"@,
        (RegName::R15, RegSize::DWord) => "r15d"@,
        (RegName::R15, RegSize::QWord) => "r15"@,
    }
}

impl Reg {
    pub fn new(name: RegName, size: RegSize) -> (r: Reg)
        ensures
            r == (Reg { name, size }),
    {
        Reg { name, size }
    }

    /// The same width, another identity.
    pub fn with_name(self, name: RegName) -> (r: Reg)
        ensures
            r == (Reg { name, size: self.size }),
    {
        Reg::new(name, self.size)
    }

    /// The same identity, another width.
    pub fn with_size(self, size: RegSize) -> (r: Reg)
        ensures
            r == (Reg { name: self.name, size }),
    {
        Reg::new(self.name, size)
    }

    /// The lowercase mnemonic that the assembler reads for this register.
    pub fn full_name(self) -> (r: &'static str)
        ensures
            r@ == reg_text(self),
    {
        match (self.name, self.size) {
            (RegName::A, RegSize::Byte) => "al",
            (RegName::A, RegSize::Word) => "ax",
            (RegName::A, RegSize::DWord) => "eax",
            (RegName::A, RegSize::QWord) => "rax",
            (RegName::B, RegSize::Byte) => "bl",
            (RegName::B, RegSize::Word) => "bx",
            (RegName::B, RegSize::DWord) => "ebx",
            (RegName::B, RegSize::QWord) => "rbx",
            (RegName::C, RegSize::Byte) => "cl",
            (RegName::C, RegSize::Word) => "cx",
            (RegName::C, RegSize::DWord) => "ecx",
            (RegName::C, RegSize::QWord) => "rcx",
            (RegName::D, RegSize::Byte) => "dl",
            (RegName::D, RegSize::Word) => "dx",
            (RegName::D, RegSize::DWord) => "edx",
            (RegName::D, RegSize::QWord) => "rdx",
            (RegName::SI, RegSize::Byte) => "sil",
            (RegName::SI, RegSize::Word) => "si",
            (RegName::SI, RegSize::DWord) => "esi",
            (RegName::SI, RegSize::QWord) => "rsi",
            (RegName::DI, RegSize::Byte) => "dil",
            (RegName::DI, RegSize::Word) => "di",
            (RegName::DI, RegSize::DWord) => "edi",
            (RegName::DI, RegSize::QWord) => "rdi",
            (RegName::SP, RegSize::Byte) => "spl",
            (RegName::SP, RegSize::Word) => "sp",
            (RegName::SP, RegSize::DWord) => "esp",
            (RegName::SP, RegSize::QWord) => "rsp",
            (RegName::BP, RegSize::Byte) => "bpl",
            (RegName::BP, RegSize::Word) => "bp",
            (RegName::BP, RegSize::DWord) => "ebp",
            (RegName::BP, RegSize::QWord) => "rbp",
            (RegName::R8, RegSize::Byte) => "r8b",
            (RegName::R8, RegSize::Word) => "r8w",
            (RegName::R8, RegSize::DWord) => "r8d",
            (RegName::R8, RegSize::QWord) => "r8",
            (RegName::R9, RegSize::Byte) => "r9b",
            (RegName::R9, RegSize::Word) => "r9w",
            (RegName::R9, RegSize::DWord) => "r9d",
            (RegName::R9, RegSize::QWord) => "r9",
            (RegName::R10, RegSize::Byte) => "r10b",
            (RegName::R10, RegSize::Word) => "r10w",
            (RegName::R10, RegSize::DWord) => "r10d",
            (RegName::R10, RegSize::QWord) => "r10",
            (RegName::R11, RegSize::Byte) => "r11b",
            (RegName::R11, RegSize::Word) => "r11w",
            (RegName::R11, RegSize::DWord) => "r11d",
            (RegName::R11, RegSize::QWord) => "r11",
            (RegName::R12, RegSize::Byte) => "r12b",
            (RegName::R12, RegSize::Word) => "r12w",
            (RegName::R12, RegSize::DWord) => "r12d",
            (RegName::R12, RegSize::QWord) => "r12",
            (RegName::R13, RegSize::Byte) => "r13b",
            (RegName::R13, RegSize::Word) => "r13w",
            (RegName::R13, RegSize::DWord) => "r13d",
            (RegName::R13, RegSize::QWord) => "r13",
            (RegName::R14, RegSize::Byte) => "r14b",
            (RegName::R14, RegSize::Word) => "r14w",
            (RegName::R14, RegSize::DWord) => "r14d",
            (RegName::R14, RegSize::QWord) => "r14",
            (RegName::R15, RegSize::Byte) => "r15b",
            (RegName::R15, RegSize::Word) => "r15w",
            (RegName::R15, RegSize::DWord) => "r15d",
            (RegName::R15, RegSize::QWord) => "r15",
        }
    }

    /// A memory expression addressing this register's contents: the
    /// register as base, no index, label, displacement or declared width.
    pub fn mem(self) -> (r: Memory)
        ensures
            r == (Memory {
                kind: MemKind::Sib(Sib { base: Some(self), index: None }),
                label: None,
                offset: 0,
                size: None,
            }),
    {
        Memory {
            kind: MemKind::Sib(Sib { base: Some(self), index: None }),
            label: None,
            offset: 0,
            size: None,
        }
    }
}

impl RegName {
    /// This identity at the given width.
    pub fn with_size(self, size: RegSize) -> (r: Reg)
        ensures
            r == (Reg { name: self, size }),
    {
        Reg::new(self, size)
    }
}

impl RegSize {
    /// The given identity at this width.
    pub fn with_name(self, name: RegName) -> (r: Reg)
        ensures
            r == (Reg { name, size: self }),
    {
        Reg::new(name, self)
    }
}


/// Every character of a mnemonic is a lowercase letter or a digit.
pub open spec fn is_lowercase_word(s: Seq<char>) -> bool {
    forall|i: int| 0 <= i < s.len() ==> ('a' <= #[trigger] s[i] <= 'z' || '0' <= s[i] <= '9')
}

/// The mnemonic of a register is a non-empty lowercase word, and no two
/// distinct registers share one.
pub proof fn lemma_reg_text_unique(a: Reg, b: Reg)
    ensures
        reg_text(a).len() > 0,
        is_lowercase_word(reg_text(a)),
        reg_text(a) == reg_text(b) ==> a == b,
{
    reveal_strlit("al");
    reveal_strlit("ax");
    reveal_strlit("eax");
    reveal_strlit("rax");
    reveal_strlit("bl");
    reveal_strlit("bx");
    reveal_strlit("ebx");
    reveal_strlit("rbx");
    reveal_strlit("cl");
    reveal_strlit("cx");
    reveal_strlit("ecx");
    reveal_strlit("rcx");
    reveal_strlit("dl");
    reveal_strlit("dx");
    reveal_strlit("edx");
    reveal_strlit("rdx");
    reveal_strlit("sil");
    reveal_strlit("si");
    reveal_strlit("esi");
    reveal_strlit("rsi");
    reveal_strlit("dil");
    reveal_strlit("di");
    reveal_strlit("edi");
    reveal_strlit("rdi");
    reveal_strlit("spl");
    reveal_strlit("sp");
    reveal_strlit("esp");
    reveal_strlit("rsp");
    reveal_strlit("bpl");
    reveal_strlit("bp");
    reveal_strlit("ebp");
    reveal_strlit("rbp");
    reveal_strlit("r8b");
    reveal_strlit("r8w");
    reveal_strlit("r8d");
    reveal_strlit("r8");
    reveal_strlit("r9b");
    reveal_strlit("r9w");
    reveal_strlit("r9d");
    reveal_strlit("r9");
    reveal_strlit("r10b");
    reveal_strlit("r10w");
    reveal_strlit("r10d");
    reveal_strlit("r10");
    reveal_strlit("r11b");
    reveal_strlit("r11w");
    reveal_strlit("r11d");
    reveal_strlit("r11");
    reveal_strlit("r12b");
    reveal_strlit("r12w");
    reveal_strlit("r12d");
    reveal_strlit("r12");
    reveal_strlit("r13b");
    reveal_strlit("r13w");
    reveal_strlit("r13d");
    reveal_strlit("r13");
    reveal_strlit("r14b");
    reveal_strlit("r14w");
    reveal_strlit("r14d");
    reveal_strlit("r14");
    reveal_strlit("r15b");
    reveal_strlit("r15w");
    reveal_strlit("r15d");
    reveal_strlit("r15");
    if reg_text(a) == reg_text(b) {
        assert(reg_text(a).len() == reg_text(b).len());
        assert(reg_text(a)[0] == reg_text(b)[0]);
        assert(reg_text(a)[1] == reg_text(b)[1]);
        if reg_text(a).len() > 2 {
            assert(reg_text(a)[2] == reg_text(b)[2]);
        }
        if reg_text(a).len() > 3 {
            assert(reg_text(a)[3] == reg_text(b)[3]);
        }
    }
}

} // verus!
