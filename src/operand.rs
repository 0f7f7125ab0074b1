//! Operands: immediates, labels, registers and memory expressions.
use vstd::prelude::*;

use crate::label::Label;
use crate::register::{Reg, RegSize};

verus! {

/// The width at which an operand is accessed.
#[derive(Clone, Copy, Debug, PartialEq, Eq, Hash, Structural)]
pub enum OperandSize {
    Register(RegSize),
}

impl From<RegSize> for OperandSize {
    fn from(value: RegSize) -> (r: OperandSize)
        ensures
            r == OperandSize::Register(value),
    {
        OperandSize::Register(value)
    }
}

impl vstd::std_specs::convert::FromSpecImpl<RegSize> for OperandSize {
    open spec fn obeys_from_spec() -> bool {
        true
    }

    open spec fn from_spec(v: RegSize) -> OperandSize {
        OperandSize::Register(v)
    }
}

/// A value that an instruction refers to. Immediates of every width are
/// carried sign-extended in 128 bits.
#[derive(Clone, Copy, Debug)]
pub enum Operand {
    Immediate(i128),
    Label(Label),
    Memory(Memory),
    Register(Reg),
}

/// The width an operand implies: none for an immediate or a bare label, the
/// declared one for a memory expression, the register's own for a register.
pub open spec fn operand_size(op: Operand) -> Option<OperandSize> {
    match op {
        Operand::Immediate(_) => None,
        Operand::Label(_) => None,
        Operand::Memory(mem) => mem.size,
        Operand::Register(reg) => Some(OperandSize::Register(reg.size)),
    }
}

impl Operand {
    /// The width this operand implies, if any.
    pub fn size(self) -> (r: Option<OperandSize>)
        ensures
            r == operand_size(self),
    {
        match self {
            Operand::Immediate(_) => None,
            Operand::Label(_) => None,
            Operand::Memory(mem) => mem.size,
            Operand::Register(reg) => Some(OperandSize::from(reg.size)),
        }
    }
}

impl From<Reg> for Operand {
    fn from(value: Reg) -> (r: Operand)
        ensures
            r == Operand::Register(value),
    {
        Operand::Register(value)
    }
}

impl vstd::std_specs::convert::FromSpecImpl<Reg> for Operand {
    open spec fn obeys_from_spec() -> bool {
        true
    }

    open spec fn from_spec(v: Reg) -> Operand {
        Operand::Register(v)
    }
}

impl From<Label> for Operand {
    fn from(value: Label) -> (r: Operand)
        ensures
            r == Operand::Label(value),
    {
        Operand::Label(value)
    }
}

impl vstd::std_specs::convert::FromSpecImpl<Label> for Operand {
    open spec fn obeys_from_spec() -> bool {
        true
    }

    open spec fn from_spec(v: Label) -> Operand {
        Operand::Label(v)
    }
}

impl From<Memory> for Operand {
    fn from(value: Memory) -> (r: Operand)
        ensures
            r == Operand::Memory(value),
    {
        Operand::Memory(value)
    }
}

impl vstd::std_specs::convert::FromSpecImpl<Memory> for Operand {
    open spec fn obeys_from_spec() -> bool {
        true
    }

    open spec fn from_spec(v: Memory) -> Operand {
        Operand::Memory(v)
    }
}

impl From<u8> for Operand {
    fn from(value: u8) -> (r: Operand)
        ensures
            r == Operand::Immediate(value as i128),
    {
        Operand::Immediate(value as i128)
    }
}

impl vstd::std_specs::convert::FromSpecImpl<u8> for Operand {
    open spec fn obeys_from_spec() -> bool {
        true
    }

    open spec fn from_spec(v: u8) -> Operand {
        Operand::Immediate(v as i128)
    }
}

impl From<u16> for Operand {
    fn from(value: u16) -> (r: Operand)
        ensures
            r == Operand::Immediate(value as i128),
    {
        Operand::Immediate(value as i128)
    }
}

impl vstd::std_specs::convert::FromSpecImpl<u16> for Operand {
    open spec fn obeys_from_spec() -> bool {
        true
    }

    open spec fn from_spec(v: u16) -> Operand {
        Operand::Immediate(v as i128)
    }
}

impl From<u32> for Operand {
    fn from(value: u32) -> (r: Operand)
        ensures
            r == Operand::Immediate(value as i128),
    {
        Operand::Immediate(value as i128)
    }
}

impl vstd::std_specs::convert::FromSpecImpl<u32> for Operand {
    open spec fn obeys_from_spec() -> bool {
        true
    }

    open spec fn from_spec(v: u32) -> Operand {
        Operand::Immediate(v as i128)
    }
}

impl From<u64> for Operand {
    fn from(value: u64) -> (r: Operand)
        ensures
            r == Operand::Immediate(value as i128),
    {
        Operand::Immediate(value as i128)
    }
}

impl vstd::std_specs::convert::FromSpecImpl<u64> for Operand {
    open spec fn obeys_from_spec() -> bool {
        true
    }

    open spec fn from_spec(v: u64) -> Operand {
        Operand::Immediate(v as i128)
    }
}

impl From<i8> for Operand {
    fn from(value: i8) -> (r: Operand)
        ensures
            r == Operand::Immediate(value as i128),
    {
        Operand::Immediate(value as i128)
    }
}

impl vstd::std_specs::convert::FromSpecImpl<i8> for Operand {
    open spec fn obeys_from_spec() -> bool {
        true
    }

    open spec fn from_spec(v: i8) -> Operand {
        Operand::Immediate(v as i128)
    }
}

impl From<i16> for Operand {
    fn from(value: i16) -> (r: Operand)
        ensures
            r == Operand::Immediate(value as i128),
    {
        Operand::Immediate(value as i128)
    }
}

impl vstd::std_specs::convert::FromSpecImpl<i16> for Operand {
    open spec fn obeys_from_spec() -> bool {
        true
    }

    open spec fn from_spec(v: i16) -> Operand {
        Operand::Immediate(v as i128)
    }
}

impl From<i32> for Operand {
    fn from(value: i32) -> (r: Operand)
        ensures
            r == Operand::Immediate(value as i128),
    {
        Operand::Immediate(value as i128)
    }
}

impl vstd::std_specs::convert::FromSpecImpl<i32> for Operand {
    open spec fn obeys_from_spec() -> bool {
        true
    }

    open spec fn from_spec(v: i32) -> Operand {
        Operand::Immediate(v as i128)
    }
}

impl From<i64> for Operand {
    fn from(value: i64) -> (r: Operand)
        ensures
            r == Operand::Immediate(value as i128),
    {
        Operand::Immediate(value as i128)
    }
}

impl vstd::std_specs::convert::FromSpecImpl<i64> for Operand {
    open spec fn obeys_from_spec() -> bool {
        true
    }

    open spec fn from_spec(v: i64) -> Operand {
        Operand::Immediate(v as i128)
    }
}

/// How a memory expression forms its address.
#[derive(Clone, Copy, Debug, PartialEq, Eq, Hash)]
pub enum MemKind {
    /// Relative to the instruction pointer; meant to go with a label.
    Rip,
    /// An optional base and an optional scaled index.
    Sib(Sib),
}

/// The base and scaled index of an address. Either may be absent.
#[derive(Clone, Copy, Debug, PartialEq, Eq, Hash)]
pub struct Sib {
    pub base: Option<Reg>,
    pub index: Option<(Reg, Scale)>,
}

/// The factor an index register is multiplied by.
#[derive(Clone, Copy, Debug, PartialEq, Eq, Hash, Structural)]
pub enum Scale {
    One,
    Two,
    Four,
    Eight,
}

/// The factor a scale stands for.
pub open spec fn scale_value(s: Scale) -> u8 {
    match s {
        Scale::One => 1,
        Scale::Two => 2,
        Scale::Four => 4,
        Scale::Eight => 8,
    }
}

impl Scale {
    /// The factor as a number: 1, 2, 4 or 8.
    pub fn numeric(self) -> (r: u8)
        ensures
            r == scale_value(self),
    {
        match self {
            Scale::One => 1,
            Scale::Two => 2,
            Scale::Four => 4,
            Scale::Eight => 8,
        }
    }
}

/// A memory expression: an addressing kind, an optional label, a signed
/// displacement and an optional declared access width.
#[derive(Clone, Copy, Debug)]
pub struct Memory {
    pub kind: MemKind,
    pub label: Option<Label>,
    pub offset: i32,
    pub size: Option<OperandSize>,
}

/// `a + b` reduced into the range of `i32`, as two's complement addition
/// does; `b` is any value of at most 32 bits, signed or not.
pub open spec fn wrap_i32(a: i32, b: int) -> i32 {
    let s = a + b;
    if s > i32::MAX {
        (s - 0x1_0000_0000) as i32
    } else if s < i32::MIN {
        (s + 0x1_0000_0000) as i32
    } else {
        s as i32
    }
}

impl Memory {
    /// An address relative to the instruction pointer, at `label`.
    pub fn rip(label: Label) -> (r: Memory)
        ensures
            r == (Memory { kind: MemKind::Rip, label: Some(label), offset: 0, size: None }),
    {
        Memory { kind: MemKind::Rip, label: Some(label), offset: 0, size: None }
    }

    /// The same address with `index` as its index register, unscaled. Only a
    /// base-and-index address can take an index.
    pub fn index(self, index: Reg) -> (r: Memory)
        requires
            self.kind is Sib,
        ensures
            r == (Memory {
                kind: MemKind::Sib(Sib { index: Some((index, Scale::One)), ..self.kind->Sib_0 }),
                ..self
            }),
    {
        self.scaled(index, Scale::One)
    }

    /// The same address with `index` times `scale` as its index. Only a
    /// base-and-index address can take an index.
    pub fn scaled(self, index: Reg, scale: Scale) -> (r: Memory)
        requires
            self.kind is Sib,
        ensures
            r == (Memory {
                kind: MemKind::Sib(Sib { index: Some((index, scale)), ..self.kind->Sib_0 }),
                ..self
            }),
    {
        let mut m = self;
        match self.kind {
            MemKind::Sib(sib) => {
                m.kind = MemKind::Sib(Sib { base: sib.base, index: Some((index, scale)) });
            },
            MemKind::Rip => {},
        }
        m
    }

    /// The same address with `label` attached.
    pub fn label(self, label: Label) -> (r: Memory)
        ensures
            r == (Memory { label: Some(label), ..self }),
    {
        let mut m = self;
        m.label = Some(label);
        m
    }

    /// The same address with a declared access width.
    pub fn size(self, size: OperandSize) -> (r: Memory)
        ensures
            r == (Memory { size: Some(size), ..self }),
    {
        let mut m = self;
        m.size = Some(size);
        m
    }

    /// The same address with its displacement replaced by `offset`.
    pub fn offset(self, offset: i32) -> (r: Memory)
        ensures
            r == (Memory { offset, ..self }),
    {
        let mut m = self;
        m.offset = offset;
        m
    }
}

impl core::ops::Add<u8> for Memory {
    type Output = Memory;

    /// The same address with `rhs` added to the displacement, wrapping.
    fn add(self, rhs: u8) -> (r: Memory)
        ensures
            r == (Memory { offset: wrap_i32(self.offset, rhs as int), ..self }),
    {
        let mut m = self;
        m.offset = self.offset.wrapping_add_unsigned(rhs as u32);
        m
    }
}

impl vstd::std_specs::ops::AddSpecImpl<u8> for Memory {
    open spec fn obeys_add_spec() -> bool {
        true
    }

    open spec fn add_req(self, rhs: u8) -> bool {
        true
    }

    open spec fn add_spec(self, rhs: u8) -> Memory {
        Memory { offset: wrap_i32(self.offset, rhs as int), ..self }
    }
}

impl core::ops::Add<u16> for Memory {
    type Output = Memory;

    /// The same address with `rhs` added to the displacement, wrapping.
    fn add(self, rhs: u16) -> (r: Memory)
        ensures
            r == (Memory { offset: wrap_i32(self.offset, rhs as int), ..self }),
    {
        let mut m = self;
        m.offset = self.offset.wrapping_add_unsigned(rhs as u32);
        m
    }
}

impl vstd::std_specs::ops::AddSpecImpl<u16> for Memory {
    open spec fn obeys_add_spec() -> bool {
        true
    }

    open spec fn add_req(self, rhs: u16) -> bool {
        true
    }

    open spec fn add_spec(self, rhs: u16) -> Memory {
        Memory { offset: wrap_i32(self.offset, rhs as int), ..self }
    }
}

impl core::ops::Add<u32> for Memory {
    type Output = Memory;

    /// The same address with `rhs` added to the displacement, wrapping.
    fn add(self, rhs: u32) -> (r: Memory)
        ensures
            r == (Memory { offset: wrap_i32(self.offset, rhs as int), ..self }),
    {
        let mut m = self;
        m.offset = self.offset.wrapping_add_unsigned(rhs as u32);
        m
    }
}

impl vstd::std_specs::ops::AddSpecImpl<u32> for Memory {
    open spec fn obeys_add_spec() -> bool {
        true
    }

    open spec fn add_req(self, rhs: u32) -> bool {
        true
    }

    open spec fn add_spec(self, rhs: u32) -> Memory {
        Memory { offset: wrap_i32(self.offset, rhs as int), ..self }
    }
}

impl core::ops::Add<i8> for Memory {
    type Output = Memory;

    /// The same address with `rhs` added to the displacement, wrapping.
    fn add(self, rhs: i8) -> (r: Memory)
        ensures
            r == (Memory { offset: wrap_i32(self.offset, rhs as int), ..self }),
    {
        let mut m = self;
        m.offset = self.offset.wrapping_add(rhs as i32);
        m
    }
}

impl vstd::std_specs::ops::AddSpecImpl<i8> for Memory {
    open spec fn obeys_add_spec() -> bool {
        true
    }

    open spec fn add_req(self, rhs: i8) -> bool {
        true
    }

    open spec fn add_spec(self, rhs: i8) -> Memory {
        Memory { offset: wrap_i32(self.offset, rhs as int), ..self }
    }
}

impl core::ops::Add<i16> for Memory {
    type Output = Memory;

    /// The same address with `rhs` added to the displacement, wrapping.
    fn add(self, rhs: i16) -> (r: Memory)
        ensures
            r == (Memory { offset: wrap_i32(self.offset, rhs as int), ..self }),
    {
        let mut m = self;
        m.offset = self.offset.wrapping_add(rhs as i32);
        m
    }
}

impl vstd::std_specs::ops::AddSpecImpl<i16> for Memory {
    open spec fn obeys_add_spec() -> bool {
        true
    }

    open spec fn add_req(self, rhs: i16) -> bool {
        true
    }

    open spec fn add_spec(self, rhs: i16) -> Memory {
        Memory { offset: wrap_i32(self.offset, rhs as int), ..self }
    }
}

impl core::ops::Add<i32> for Memory {
    type Output = Memory;

    /// The same address with `rhs` added to the displacement, wrapping.
    fn add(self, rhs: i32) -> (r: Memory)
        ensures
            r == (Memory { offset: wrap_i32(self.offset, rhs as int), ..self }),
    {
        let mut m = self;
        m.offset = self.offset.wrapping_add(rhs as i32);
        m
    }
}

impl vstd::std_specs::ops::AddSpecImpl<i32> for Memory {
    open spec fn obeys_add_spec() -> bool {
        true
    }

    open spec fn add_req(self, rhs: i32) -> bool {
        true
    }

    open spec fn add_spec(self, rhs: i32) -> Memory {
        Memory { offset: wrap_i32(self.offset, rhs as int), ..self }
    }
}

} // verus!
