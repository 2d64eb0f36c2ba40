//! The structured form of one VM instruction, as produced by the parser
//! and consumed by the code generator.

use vstd::prelude::*;

verus! {

/// The nine stack-arithmetic operations of the VM language.
#[derive(Clone, Copy, PartialEq, Eq, Structural, Debug)]
pub enum Arithmetic {
    ADD,
    SUB,
    NEG,
    EQ,
    GT,
    LT,
    AND,
    OR,
    NOT,
}

/// The eight memory segments addressable by `push` and `pop`.
///
/// `Local`, `Argument`, `This` and `That` are indirect: resolved via a
/// base pointer held in a fixed machine cell plus the given index.
/// `Constant` is not a real location: its value is the index itself.
/// `Static` resolves to a per-translation-unit global cell. `Pointer`
/// aliases the `This`/`That` base cells (index 0/1). `Temp` is a fixed
/// block of 8 cells.
#[derive(Clone, Copy, PartialEq, Eq, Structural, Debug)]
pub enum MemorySegment {
    Local,
    Argument,
    This,
    That,
    Constant,
    Static,
    Pointer,
    Temp,
}

/// The assembly symbol of the base-pointer cell of an indirect segment.
pub open spec fn spec_segment_label(s: MemorySegment) -> Seq<char> {
    match s {
        MemorySegment::Local => "@LCL"@,
        MemorySegment::Argument => "@ARG"@,
        MemorySegment::This => "@THIS"@,
        MemorySegment::That => "@THAT"@,
        _ => "#INVALID_LABEL#"@,
    }
}

impl MemorySegment {
    /// The assembly symbol of the base-pointer cell of an indirect
    /// segment; a sentinel for the segments that have none.
    pub fn label(&self) -> (r: String)
        ensures
            r@ == spec_segment_label(*self),
    {
        match self {
            MemorySegment::Local => String::from_str("@LCL"),
            MemorySegment::Argument => String::from_str("@ARG"),
            MemorySegment::This => String::from_str("@THIS"),
            MemorySegment::That => String::from_str("@THAT"),
            _ => String::from_str("#INVALID_LABEL#"),
        }
    }
}

/// One parsed VM instruction.
///
/// `Label`, `Goto` and `IfGoto` carry the *scoped* label name (already
/// qualified with the enclosing function by the parser). `Call` carries
/// the return-address label synthesized by the parser for this call
/// site, distinct per call site within one function.
#[derive(Debug, PartialEq)]
pub enum Command {
    Arithmetic(Arithmetic),
    Push(MemorySegment, u16),
    Pop(MemorySegment, u16),
    Label(String),
    Goto(String),
    IfGoto(String),
    Function(String, u16),
    Call(String, u16, String),
    Return,
}

/// The mathematical image of a [`Command`]: names as character
/// sequences.
pub enum CommandS {
    Arithmetic(Arithmetic),
    Push(MemorySegment, u16),
    Pop(MemorySegment, u16),
    Label(Seq<char>),
    Goto(Seq<char>),
    IfGoto(Seq<char>),
    Function(Seq<char>, u16),
    Call(Seq<char>, u16, Seq<char>),
    Return,
}

impl View for Command {
    type V = CommandS;

    open spec fn view(&self) -> CommandS {
        match self {
            Command::Arithmetic(op) => CommandS::Arithmetic(*op),
            Command::Push(s, i) => CommandS::Push(*s, *i),
            Command::Pop(s, i) => CommandS::Pop(*s, *i),
            Command::Label(l) => CommandS::Label(l@),
            Command::Goto(l) => CommandS::Goto(l@),
            Command::IfGoto(l) => CommandS::IfGoto(l@),
            Command::Function(n, c) => CommandS::Function(n@, *c),
            Command::Call(n, c, r) => CommandS::Call(n@, *c, r@),
            Command::Return => CommandS::Return,
        }
    }
}

} // verus!
