//! The code generator: turns one parsed [`Command`] at a time into the
//! instruction sequence that implements it on the target machine.
//!
//! Every exported operation is specified exactly: the spec functions
//! below give, instruction for instruction, the sequence each command
//! translates to, and the executable methods are proved to emit it.

use vstd::prelude::*;

use crate::command::{Arithmetic, Command, CommandS, MemorySegment};
use crate::instr::{instr_views, lines_match, render_lines, Addr, AddrS, CIns, Instr, InstrS};
use crate::labels::{arith_label, ret_label, spec_arith_label, spec_ret_label};
use crate::text::dec_string;

verus! {

broadcast use crate::instr::lemma_instr_views_push;

/// A command that passed parsing can still carry an index that no
/// instruction sequence exists for; these are the generator's own
/// rejections.
#[derive(Clone, Copy, PartialEq, Eq, Structural, Debug)]
pub enum TranslateError {
    /// `pointer` admits only the indices 0 and 1.
    PointerIndexOutOfRange,
    /// `temp` admits only indices below 8.
    TempIndexOutOfRange,
    /// `constant` is not a place; nothing can be popped into it.
    PopFromConstant,
}

impl TranslateError {
    /// A diagnostic description of the rejection.
    pub fn message(&self) -> (r: String)
        ensures
            *self == TranslateError::PointerIndexOutOfRange ==> r@ == "pointer index must be 0 or 1"@,
            *self == TranslateError::TempIndexOutOfRange ==> r@ == "temp index must be below 8"@,
            *self == TranslateError::PopFromConstant ==> r@ == "cannot pop into constant"@,
    {
        match self {
            TranslateError::PointerIndexOutOfRange => String::from_str("pointer index must be 0 or 1"),
            TranslateError::TempIndexOutOfRange => String::from_str("temp index must be below 8"),
            TranslateError::PopFromConstant => String::from_str("cannot pop into constant"),
        }
    }
}

/// Shorthand for a compute line.
pub open spec fn ic(x: CIns) -> InstrS {
    InstrS::C(x)
}

/// Shorthand for an address line.
pub open spec fn ia(a: AddrS) -> InstrS {
    InstrS::At(a)
}

/// The base-pointer cell of an indirect segment.
pub open spec fn spec_seg_base(s: MemorySegment) -> AddrS {
    match s {
        MemorySegment::Local => AddrS::Lcl,
        MemorySegment::Argument => AddrS::Arg,
        MemorySegment::This => AddrS::This,
        MemorySegment::That => AddrS::That,
        _ => AddrS::Sp,
    }
}

/// Whether a segment is one of the four indirect, base-pointer ones.
pub open spec fn is_indirect(s: MemorySegment) -> bool {
    s == MemorySegment::Local || s == MemorySegment::Argument || s == MemorySegment::This || s
        == MemorySegment::That
}

/// Whether `push seg index` is accepted by the generator.
pub open spec fn push_valid(s: MemorySegment, index: u16) -> bool {
    match s {
        MemorySegment::Pointer => index < 2,
        MemorySegment::Temp => index < 8,
        _ => true,
    }
}

/// Whether `pop seg index` is accepted by the generator.
pub open spec fn pop_valid(s: MemorySegment, index: u16) -> bool {
    s != MemorySegment::Constant && push_valid(s, index)
}

/// The universal push suffix: store `D` at the stack top and advance
/// the stack pointer.
pub open spec fn spec_push_suffix() -> Seq<InstrS> {
    seq![
        ia(AddrS::Sp),
        ic(CIns::AfromM),
        ic(CIns::MfromD),
        ia(AddrS::Sp),
        ic(CIns::Minc),
    ]
}

/// The instructions of `push seg index`: compute the source value into
/// `D` per segment, then the universal push suffix.
pub open spec fn spec_push_instrs(unit: Seq<char>, s: MemorySegment, index: u16) -> Seq<InstrS> {
    let head = if is_indirect(s) {
        seq![
            ia(spec_seg_base(s)),
            ic(CIns::DfromM),
            ia(AddrS::Lit(index)),
            ic(CIns::AaddD),
            ic(CIns::DfromM),
        ]
    } else if s == MemorySegment::Constant {
        seq![ia(AddrS::Lit(index)), ic(CIns::DfromA)]
    } else if s == MemorySegment::Static {
        seq![ia(AddrS::Static(unit, index)), ic(CIns::DfromM)]
    } else if s == MemorySegment::Pointer {
        seq![
            ia(if index == 0 {
                AddrS::This
            } else {
                AddrS::That
            }),
            ic(CIns::DfromM),
        ]
    } else {
        seq![ia(AddrS::Temp(index)), ic(CIns::DfromM)]
    };
    head + spec_push_suffix()
}

/// The instructions of `pop seg index`: symmetric to push — for the
/// indirect segments the destination address is computed first and
/// parked in a scratch cell, then the stack is popped into `D` and `D`
/// stored at the destination.
pub open spec fn spec_pop_instrs(unit: Seq<char>, s: MemorySegment, index: u16) -> Seq<InstrS> {
    if is_indirect(s) {
        seq![
            ia(spec_seg_base(s)),
            ic(CIns::DfromM),
            ia(AddrS::Lit(index)),
            ic(CIns::DaddA),
            ia(AddrS::R13),
            ic(CIns::MfromD),
            ia(AddrS::Sp),
            ic(CIns::Mdec),
            ic(CIns::AfromM),
            ic(CIns::DfromM),
            ia(AddrS::R13),
            ic(CIns::AfromM),
            ic(CIns::MfromD),
        ]
    } else {
        let dest = if s == MemorySegment::Static {
            AddrS::Static(unit, index)
        } else if s == MemorySegment::Pointer {
            if index == 0 {
                AddrS::This
            } else {
                AddrS::That
            }
        } else {
            AddrS::Temp(index)
        };
        seq![
            ia(AddrS::Sp),
            ic(CIns::Mdec),
            ic(CIns::AfromM),
            ic(CIns::DfromM),
            ia(dest),
            ic(CIns::MfromD),
        ]
    }
}

/// The instructions of one arithmetic operation. Binary operations
/// combine the two top stack values in place; unary ones rewrite the
/// top in place; comparisons compute a difference, speculatively write
/// true, and jump over the false write using the `k`-th short-circuit
/// label of the unit.
pub open spec fn spec_arith_instrs(unit: Seq<char>, k: nat, op: Arithmetic) -> Seq<InstrS> {
    let l = spec_arith_label(unit, k);
    match op {
        Arithmetic::ADD => spec_binary_instrs(CIns::MaddD),
        Arithmetic::SUB => spec_binary_instrs(CIns::MsubD),
        Arithmetic::AND => spec_binary_instrs(CIns::MandD),
        Arithmetic::OR => spec_binary_instrs(CIns::MorD),
        Arithmetic::NEG => seq![ia(AddrS::Sp), ic(CIns::AfromMdec), ic(CIns::Mneg)],
        Arithmetic::NOT => seq![ia(AddrS::Sp), ic(CIns::AfromMdec), ic(CIns::Mnot)],
        Arithmetic::EQ => spec_compare_instrs(l, CIns::JumpEq),
        Arithmetic::GT => spec_compare_instrs(l, CIns::JumpGt),
        Arithmetic::LT => spec_compare_instrs(l, CIns::JumpLt),
    }
}

/// The shared skeleton of the four binary operations.
pub open spec fn spec_binary_instrs(op: CIns) -> Seq<InstrS> {
    seq![ia(AddrS::Sp), ic(CIns::AMdec), ic(CIns::DfromM), ic(CIns::Adec), ic(op)]
}

/// The shared skeleton of the three comparisons.
pub open spec fn spec_compare_instrs(l: Seq<char>, jump: CIns) -> Seq<InstrS> {
    seq![
        ia(AddrS::Sp),
        ic(CIns::AMdec),
        ic(CIns::DfromM),
        ic(CIns::Adec),
        ic(CIns::DfromMsubD),
        ic(CIns::MsetTrue),
        ia(AddrS::Sym(l)),
        ic(jump),
        ia(AddrS::Sp),
        ic(CIns::AfromMdec),
        ic(CIns::MsetZero),
        InstrS::Mark(l),
    ]
}

/// Two comparison translations in one unit never collide: the
/// skeletons emitted at two distinct values of the unit-wide counter
/// jump to distinct short-circuit labels, so the label each one
/// defines is unique within the unit's emitted text.
pub proof fn lemma_comparison_labels_distinct(unit: Seq<char>, i: nat, j: nat, op: Arithmetic)
    requires
        i != j,
        op == Arithmetic::EQ || op == Arithmetic::GT || op == Arithmetic::LT,
    ensures
        spec_arith_instrs(unit, i, op)[6] == ia(AddrS::Sym(spec_arith_label(unit, i))),
        spec_arith_instrs(unit, j, op)[6] == ia(AddrS::Sym(spec_arith_label(unit, j))),
        spec_arith_instrs(unit, i, op)[6] != spec_arith_instrs(unit, j, op)[6],
        spec_arith_instrs(unit, i, op)[11] != spec_arith_instrs(unit, j, op)[11],
{
    crate::labels::lemma_arith_labels_distinct(unit, i, j);
}

/// The instructions of `label l` (already scoped by the parser).
pub open spec fn spec_label_instrs(l: Seq<char>) -> Seq<InstrS> {
    seq![InstrS::Mark(l)]
}

/// The instructions of `goto l`.
pub open spec fn spec_goto_instrs(l: Seq<char>) -> Seq<InstrS> {
    seq![ia(AddrS::Sym(l)), ic(CIns::Jump)]
}

/// The instructions of `if-goto l`: pop one value and branch when it is
/// non-zero.
pub open spec fn spec_if_instrs(l: Seq<char>) -> Seq<InstrS> {
    seq![
        ia(AddrS::Sp),
        ic(CIns::AMdec),
        ic(CIns::DfromM),
        ia(AddrS::Sym(l)),
        ic(CIns::JumpNe),
    ]
}

/// The loop label of the prologue of `function name n`.
pub open spec fn spec_fn_loop_label(name: Seq<char>, n: u16) -> Seq<char> {
    name + "$arg."@ + crate::text::spec_dec(n as nat)
}

/// The exit label of the prologue of `function name n`.
pub open spec fn spec_fn_end_label(name: Seq<char>, n: u16) -> Seq<char> {
    spec_fn_loop_label(name, n) + ".end"@
}

/// The instructions of `function name n`: the entry label, then a
/// counted loop that pushes literal zero `n` times, zero-initializing
/// the `n` local slots above the stack top and advancing the stack
/// pointer past them.
pub open spec fn spec_function_instrs(name: Seq<char>, n: u16) -> Seq<InstrS> {
    let l = spec_fn_loop_label(name, n);
    let e = spec_fn_end_label(name, n);
    seq![
        InstrS::Mark(name),
        ia(AddrS::Lit(n)),
        ic(CIns::DfromA),
        InstrS::Mark(l),
        ia(AddrS::Sym(e)),
        ic(CIns::JumpEq),
        ic(CIns::Ddec),
        ia(AddrS::Sp),
        ic(CIns::AfromM),
        ic(CIns::MsetZero),
        ia(AddrS::Sp),
        ic(CIns::Minc),
        ia(AddrS::Sym(l)),
        ic(CIns::Jump),
        InstrS::Mark(e),
    ]
}

/// The instructions of `call name nargs` with return-address label
/// `ret`: push the return address and the four frame-context pointers,
/// point `ARG` at the first of the `nargs` arguments already on the
/// stack (5 words below the just-pushed context), point `LCL` at the
/// stack top, jump to the callee, and place the return-address label.
pub open spec fn spec_call_instrs(name: Seq<char>, nargs: u16, ret: Seq<char>) -> Seq<InstrS> {
    seq![ia(AddrS::Sym(ret)), ic(CIns::DfromA)] + spec_push_suffix() + seq![
        ia(AddrS::Lcl),
        ic(CIns::DfromM),
    ] + spec_push_suffix() + seq![ia(AddrS::Arg), ic(CIns::DfromM)] + spec_push_suffix() + seq![
        ia(AddrS::This),
        ic(CIns::DfromM),
    ] + spec_push_suffix() + seq![ia(AddrS::That), ic(CIns::DfromM)] + spec_push_suffix() + seq![
        ia(AddrS::Sp),
        ic(CIns::DfromM),
        ia(AddrS::Lit(5)),
        ic(CIns::DsubA),
        ia(AddrS::Lit(nargs)),
        ic(CIns::DsubA),
        ia(AddrS::Arg),
        ic(CIns::MfromD),
        ia(AddrS::Sp),
        ic(CIns::DfromM),
        ia(AddrS::Lcl),
        ic(CIns::MfromD),
        ia(AddrS::Sym(name)),
        ic(CIns::Jump),
        InstrS::Mark(ret),
    ]
}

/// The instructions of `return`: park the callee's `LCL` (the frame
/// top) in a scratch cell, fetch the saved return address from 5 words
/// below it, pop the return value into the cell `ARG` points at, set
/// the stack pointer to one past that cell, restore the caller's four
/// context pointers in reverse push order, and jump to the saved return
/// address.
pub open spec fn spec_return_instrs() -> Seq<InstrS> {
    seq![
        ia(AddrS::Lcl),
        ic(CIns::DfromM),
        ia(AddrS::R13),
        ic(CIns::MfromD),
        ia(AddrS::Lit(5)),
        ic(CIns::AfromDsubA),
        ic(CIns::DfromM),
        ia(AddrS::R14),
        ic(CIns::MfromD),
        ia(AddrS::Sp),
        ic(CIns::Mdec),
        ic(CIns::AfromM),
        ic(CIns::DfromM),
        ia(AddrS::Arg),
        ic(CIns::AfromM),
        ic(CIns::MfromD),
        ic(CIns::DfromA),
        ia(AddrS::Sp),
        ic(CIns::MfromDinc),
    ] + spec_restore_instrs(AddrS::That) + spec_restore_instrs(AddrS::This) + spec_restore_instrs(
        AddrS::Arg,
    ) + spec_restore_instrs(AddrS::Lcl) + seq![
        ia(AddrS::R14),
        ic(CIns::AfromM),
        ic(CIns::Jump),
    ]
}

/// One step of the context restore: read backward from the parked frame
/// top into the given base-pointer cell.
pub open spec fn spec_restore_instrs(dest: AddrS) -> Seq<InstrS> {
    seq![ia(AddrS::R13), ic(CIns::AMdec), ic(CIns::DfromM), ia(dest), ic(CIns::MfromD)]
}

/// The one-time bootstrap: set the stack pointer to its initial base,
/// then call the designated entry function with zero arguments, encoded
/// by the ordinary call path under a pseudo enclosing function that is
/// never defined.
pub open spec fn spec_init_instrs(entry: Seq<char>) -> Seq<InstrS> {
    seq![ia(AddrS::Lit(256)), ic(CIns::DfromA), ia(AddrS::Sp), ic(CIns::MfromD)]
        + spec_call_instrs(entry, 0, spec_ret_label("Sys.System"@, 0))
}

/// The instruction sequence a command translates to, or `None` for the
/// index and segment combinations the generator rejects. `unit` is the
/// translation-unit name and `k` the current value of the unit-wide
/// arithmetic counter.
pub open spec fn spec_translated(unit: Seq<char>, k: nat, cmd: CommandS) -> Option<Seq<InstrS>> {
    match cmd {
        CommandS::Arithmetic(op) => Some(spec_arith_instrs(unit, k, op)),
        CommandS::Push(s, i) => if push_valid(s, i) {
            Some(spec_push_instrs(unit, s, i))
        } else {
            None
        },
        CommandS::Pop(s, i) => if pop_valid(s, i) {
            Some(spec_pop_instrs(unit, s, i))
        } else {
            None
        },
        CommandS::Label(l) => Some(spec_label_instrs(l)),
        CommandS::Goto(l) => Some(spec_goto_instrs(l)),
        CommandS::IfGoto(l) => Some(spec_if_instrs(l)),
        CommandS::Function(name, n) => Some(spec_function_instrs(name, n)),
        CommandS::Call(name, nargs, ret) => Some(spec_call_instrs(name, nargs, ret)),
        CommandS::Return => Some(spec_return_instrs()),
    }
}

/// Which rejection a refused command gets.
pub open spec fn spec_translate_err(cmd: CommandS) -> TranslateError {
    match cmd {
        CommandS::Push(s, i) => if s == MemorySegment::Pointer {
            TranslateError::PointerIndexOutOfRange
        } else {
            TranslateError::TempIndexOutOfRange
        },
        CommandS::Pop(s, i) => if s == MemorySegment::Constant {
            TranslateError::PopFromConstant
        } else if s == MemorySegment::Pointer {
            TranslateError::PointerIndexOutOfRange
        } else {
            TranslateError::TempIndexOutOfRange
        },
        _ => TranslateError::PopFromConstant,
    }
}

/// The value of the arithmetic counter after translating a command.
pub open spec fn spec_index_after(k: nat, cmd: CommandS) -> nat {
    match cmd {
        CommandS::Arithmetic(_) => k + 1,
        _ => k,
    }
}

/// The code generator for one translation unit.
///
/// `filename` is the unit name (used for static cells and comparison
/// labels); `index` is the unit-wide counter behind the short-circuit
/// labels of arithmetic comparisons.
pub struct Translator {
    pub filename: String,
    pub index: u64,
}

impl Translator {
    /// A fresh generator for the unit named `filename`.
    pub fn new(filename: String) -> (r: Translator)
        ensures
            r.filename == filename,
            r.index == 0u64,
    {
        Translator { filename, index: 0 }
    }

    /// Emits the bootstrap sequence for the given entry function,
    /// structurally.
    pub fn init_instrs(&self, entry: &str) -> (r: Vec<Instr>)
        ensures
            instr_views(r@) == spec_init_instrs(entry@),
    {
        let mut v: Vec<Instr> = Vec::new();
        v.push(Instr::At(Addr::Lit(256)));
        v.push(Instr::C(CIns::DfromA));
        v.push(Instr::At(Addr::Sp));
        v.push(Instr::C(CIns::MfromD));
        let entry_name = String::from_str(entry);
        let pseudo = String::from_str("Sys.System");
        let ret = ret_label(&pseudo, 0);
        self.emit_call(&mut v, entry_name, 0, ret);
        proof {
            assert(instr_views(v@) =~= spec_init_instrs(entry@));
        }
        v
    }

    /// Emits the bootstrap sequence as assembly text.
    pub fn init(&self, entry: &str) -> (r: Vec<String>)
        ensures
            lines_match(r@, spec_init_instrs(entry@)),
    {
        let v = self.init_instrs(entry);
        render_lines(&v)
    }

    /// Translates one command, structurally. The result is exactly the
    /// sequence [`spec_translated`] gives, and only the rejected
    /// pointer/temp indices and pops into `constant` fail.
    pub fn translate_command_instrs(&mut self, command: Command) -> (r: Result<
        Vec<Instr>,
        TranslateError,
    >)
        requires
            old(self).index < 0xffff_ffff_ffff_ffffu64,
        ensures
            final(self).filename == old(self).filename,
            final(self).index as nat == spec_index_after(old(self).index as nat, command@),
            match spec_translated(old(self).filename@, old(self).index as nat, command@) {
                Some(p) => r matches Ok(v) && instr_views(v@) == p,
                None => r matches Err(e) && e == spec_translate_err(command@),
            },
    {
        match command {
            Command::Arithmetic(op) => Ok(self.translate_arithmetic(op)),
            Command::Push(s, i) => self.translate_push(s, i),
            Command::Pop(s, i) => self.translate_pop(s, i),
            Command::Label(l) => Ok(self.translate_label(l)),
            Command::Goto(l) => Ok(self.translate_goto(l)),
            Command::IfGoto(l) => Ok(self.translate_if(l)),
            Command::Function(name, n) => Ok(self.translate_function(name, n)),
            Command::Call(name, nargs, ret) => Ok(self.translate_call(name, nargs, ret)),
            Command::Return => Ok(self.translate_return()),
        }
    }

    /// Translates one command into its assembly text lines.
    pub fn translate_command(&mut self, command: Command) -> (r: Result<
        Vec<String>,
        TranslateError,
    >)
        requires
            old(self).index < 0xffff_ffff_ffff_ffffu64,
        ensures
            final(self).filename == old(self).filename,
            final(self).index as nat == spec_index_after(old(self).index as nat, command@),
            match spec_translated(old(self).filename@, old(self).index as nat, command@) {
                Some(p) => r matches Ok(v) && lines_match(v@, p),
                None => r matches Err(e) && e == spec_translate_err(command@),
            },
    {
        match self.translate_command_instrs(command) {
            Ok(v) => Ok(render_lines(&v)),
            Err(e) => Err(e),
        }
    }

    /// One arithmetic operation; allocates the next short-circuit label
    /// whether or not the operation is a comparison, keeping the
    /// counter strictly monotonic over arithmetic translations.
    fn translate_arithmetic(&mut self, op: Arithmetic) -> (r: Vec<Instr>)
        requires
            old(self).index < 0xffff_ffff_ffff_ffffu64,
        ensures
            final(self).filename == old(self).filename,
            final(self).index == old(self).index + 1,
            instr_views(r@) == spec_arith_instrs(
                old(self).filename@,
                old(self).index as nat,
                op,
            ),
    {
        let l = arith_label(&self.filename, self.index);
        self.index = self.index + 1;
        let mut v: Vec<Instr> = Vec::new();
        match op {
            Arithmetic::ADD => self.emit_binary(&mut v, CIns::MaddD),
            Arithmetic::SUB => self.emit_binary(&mut v, CIns::MsubD),
            Arithmetic::AND => self.emit_binary(&mut v, CIns::MandD),
            Arithmetic::OR => self.emit_binary(&mut v, CIns::MorD),
            Arithmetic::NEG => {
                v.push(Instr::At(Addr::Sp));
                v.push(Instr::C(CIns::AfromMdec));
                v.push(Instr::C(CIns::Mneg));
            },
            Arithmetic::NOT => {
                v.push(Instr::At(Addr::Sp));
                v.push(Instr::C(CIns::AfromMdec));
                v.push(Instr::C(CIns::Mnot));
            },
            Arithmetic::EQ => self.emit_compare(&mut v, l, CIns::JumpEq),
            Arithmetic::GT => self.emit_compare(&mut v, l, CIns::JumpGt),
            Arithmetic::LT => self.emit_compare(&mut v, l, CIns::JumpLt),
        }
        proof {
            assert(instr_views(v@) =~= spec_arith_instrs(
                old(self).filename@,
                old(self).index as nat,
                op,
            ));
        }
        v
    }

    /// The shared skeleton of the four binary operations.
    fn emit_binary(&self, v: &mut Vec<Instr>, op: CIns)
        requires
            old(v)@.len() == 0,
        ensures
            instr_views(final(v)@) == spec_binary_instrs(op),
    {
        v.push(Instr::At(Addr::Sp));
        v.push(Instr::C(CIns::AMdec));
        v.push(Instr::C(CIns::DfromM));
        v.push(Instr::C(CIns::Adec));
        v.push(Instr::C(op));
        proof {
            assert(instr_views(v@) =~= spec_binary_instrs(op));
        }
    }

    /// The shared skeleton of the three comparisons.
    fn emit_compare(&self, v: &mut Vec<Instr>, l: String, jump: CIns)
        requires
            old(v)@.len() == 0,
        ensures
            instr_views(final(v)@) == spec_compare_instrs(l@, jump),
    {
        let mark = l.clone();
        v.push(Instr::At(Addr::Sp));
        v.push(Instr::C(CIns::AMdec));
        v.push(Instr::C(CIns::DfromM));
        v.push(Instr::C(CIns::Adec));
        v.push(Instr::C(CIns::DfromMsubD));
        v.push(Instr::C(CIns::MsetTrue));
        v.push(Instr::At(Addr::Sym(l)));
        v.push(Instr::C(jump));
        v.push(Instr::At(Addr::Sp));
        v.push(Instr::C(CIns::AfromMdec));
        v.push(Instr::C(CIns::MsetZero));
        v.push(Instr::Mark(mark));
        proof {
            assert(instr_views(v@) =~= spec_compare_instrs(l@, jump));
        }
    }

    /// The universal push suffix.
    fn emit_push_suffix(&self, v: &mut Vec<Instr>)
        ensures
            instr_views(final(v)@) == instr_views(old(v)@) + spec_push_suffix(),
    {
        v.push(Instr::At(Addr::Sp));
        v.push(Instr::C(CIns::AfromM));
        v.push(Instr::C(CIns::MfromD));
        v.push(Instr::At(Addr::Sp));
        v.push(Instr::C(CIns::Minc));
        proof {
            assert(instr_views(v@) =~= instr_views(old(v)@) + spec_push_suffix());
        }
    }

    /// `push segment index`.
    fn translate_push(&self, segment: MemorySegment, index: u16) -> (r: Result<
        Vec<Instr>,
        TranslateError,
    >)
        ensures
            push_valid(segment, index) ==> (r matches Ok(v) && instr_views(v@)
                == spec_push_instrs(self.filename@, segment, index)),
            !push_valid(segment, index) ==> (r matches Err(e) && e == spec_translate_err(
                CommandS::Push(segment, index),
            )),
    {
        let mut v: Vec<Instr> = Vec::new();
        match segment {
            MemorySegment::Local | MemorySegment::Argument | MemorySegment::This
                | MemorySegment::That => {
                v.push(self.seg_base_at(segment));
                v.push(Instr::C(CIns::DfromM));
                v.push(Instr::At(Addr::Lit(index)));
                v.push(Instr::C(CIns::AaddD));
                v.push(Instr::C(CIns::DfromM));
            },
            MemorySegment::Constant => {
                v.push(Instr::At(Addr::Lit(index)));
                v.push(Instr::C(CIns::DfromA));
            },
            MemorySegment::Static => {
                v.push(Instr::At(Addr::Static(self.filename.clone(), index)));
                v.push(Instr::C(CIns::DfromM));
            },
            MemorySegment::Pointer => {
                if index == 0 {
                    v.push(Instr::At(Addr::This));
                } else if index == 1 {
                    v.push(Instr::At(Addr::That));
                } else {
                    return Err(TranslateError::PointerIndexOutOfRange);
                }
                v.push(Instr::C(CIns::DfromM));
            },
            MemorySegment::Temp => {
                if index >= 8 {
                    return Err(TranslateError::TempIndexOutOfRange);
                }
                v.push(Instr::At(Addr::Temp(index)));
                v.push(Instr::C(CIns::DfromM));
            },
        }
        self.emit_push_suffix(&mut v);
        proof {
            assert(instr_views(v@) =~= spec_push_instrs(self.filename@, segment, index));
        }
        Ok(v)
    }

    /// `pop segment index`.
    fn translate_pop(&self, segment: MemorySegment, index: u16) -> (r: Result<
        Vec<Instr>,
        TranslateError,
    >)
        ensures
            pop_valid(segment, index) ==> (r matches Ok(v) && instr_views(v@)
                == spec_pop_instrs(self.filename@, segment, index)),
            !pop_valid(segment, index) ==> (r matches Err(e) && e == spec_translate_err(
                CommandS::Pop(segment, index),
            )),
    {
        let mut v: Vec<Instr> = Vec::new();
        match segment {
            MemorySegment::Local | MemorySegment::Argument | MemorySegment::This
                | MemorySegment::That => {
                v.push(self.seg_base_at(segment));
                v.push(Instr::C(CIns::DfromM));
                v.push(Instr::At(Addr::Lit(index)));
                v.push(Instr::C(CIns::DaddA));
                v.push(Instr::At(Addr::R13));
                v.push(Instr::C(CIns::MfromD));
                v.push(Instr::At(Addr::Sp));
                v.push(Instr::C(CIns::Mdec));
                v.push(Instr::C(CIns::AfromM));
                v.push(Instr::C(CIns::DfromM));
                v.push(Instr::At(Addr::R13));
                v.push(Instr::C(CIns::AfromM));
                v.push(Instr::C(CIns::MfromD));
            },
            MemorySegment::Constant => {
                return Err(TranslateError::PopFromConstant);
            },
            MemorySegment::Static => {
                self.emit_pop_direct(&mut v, Instr::At(Addr::Static(self.filename.clone(), index)));
            },
            MemorySegment::Pointer => {
                if index == 0 {
                    self.emit_pop_direct(&mut v, Instr::At(Addr::This));
                } else if index == 1 {
                    self.emit_pop_direct(&mut v, Instr::At(Addr::That));
                } else {
                    return Err(TranslateError::PointerIndexOutOfRange);
                }
            },
            MemorySegment::Temp => {
                if index >= 8 {
                    return Err(TranslateError::TempIndexOutOfRange);
                }
                self.emit_pop_direct(&mut v, Instr::At(Addr::Temp(index)));
            },
        }
        proof {
            assert(instr_views(v@) =~= spec_pop_instrs(self.filename@, segment, index));
        }
        Ok(v)
    }

    /// The shared pop skeleton of the directly addressed segments.
    fn emit_pop_direct(&self, v: &mut Vec<Instr>, dest: Instr)
        requires
            old(v)@.len() == 0,
        ensures
            instr_views(final(v)@) == seq![
                ia(AddrS::Sp),
                ic(CIns::Mdec),
                ic(CIns::AfromM),
                ic(CIns::DfromM),
                dest@,
                ic(CIns::MfromD),
            ],
    {
        v.push(Instr::At(Addr::Sp));
        v.push(Instr::C(CIns::Mdec));
        v.push(Instr::C(CIns::AfromM));
        v.push(Instr::C(CIns::DfromM));
        v.push(dest);
        v.push(Instr::C(CIns::MfromD));
        proof {
            assert(instr_views(v@) =~= seq![
                ia(AddrS::Sp),
                ic(CIns::Mdec),
                ic(CIns::AfromM),
                ic(CIns::DfromM),
                dest@,
                ic(CIns::MfromD),
            ]);
        }
    }

    /// The address line of an indirect segment's base pointer.
    fn seg_base_at(&self, segment: MemorySegment) -> (r: Instr)
        requires
            is_indirect(segment),
        ensures
            r@ == ia(spec_seg_base(segment)),
    {
        match segment {
            MemorySegment::Local => Instr::At(Addr::Lcl),
            MemorySegment::Argument => Instr::At(Addr::Arg),
            MemorySegment::This => Instr::At(Addr::This),
            _ => Instr::At(Addr::That),
        }
    }

    /// `label l` for a scoped label.
    fn translate_label(&self, l: String) -> (r: Vec<Instr>)
        ensures
            instr_views(r@) == spec_label_instrs(l@),
    {
        let ghost lv = l@;
        let mut v: Vec<Instr> = Vec::new();
        v.push(Instr::Mark(l));
        proof {
            assert(instr_views(v@) =~= spec_label_instrs(lv));
        }
        v
    }

    /// `goto l` for a scoped label.
    fn translate_goto(&self, l: String) -> (r: Vec<Instr>)
        ensures
            instr_views(r@) == spec_goto_instrs(l@),
    {
        let ghost lv = l@;
        let mut v: Vec<Instr> = Vec::new();
        v.push(Instr::At(Addr::Sym(l)));
        v.push(Instr::C(CIns::Jump));
        proof {
            assert(instr_views(v@) =~= spec_goto_instrs(lv));
        }
        v
    }

    /// `if-goto l` for a scoped label.
    fn translate_if(&self, l: String) -> (r: Vec<Instr>)
        ensures
            instr_views(r@) == spec_if_instrs(l@),
    {
        let ghost lv = l@;
        let mut v: Vec<Instr> = Vec::new();
        v.push(Instr::At(Addr::Sp));
        v.push(Instr::C(CIns::AMdec));
        v.push(Instr::C(CIns::DfromM));
        v.push(Instr::At(Addr::Sym(l)));
        v.push(Instr::C(CIns::JumpNe));
        proof {
            assert(instr_views(v@) =~= spec_if_instrs(lv));
        }
        v
    }

    /// `function name n`.
    fn translate_function(&self, name: String, n: u16) -> (r: Vec<Instr>)
        ensures
            instr_views(r@) == spec_function_instrs(name@, n),
    {
        let ghost namev = name@;
        let mut l = name.clone();
        l.append("$arg.");
        let d = dec_string(n as u64);
        l.append(d.as_str());
        let mut e = l.clone();
        e.append(".end");
        proof {
            assert(l@ =~= spec_fn_loop_label(namev, n));
            assert(e@ =~= spec_fn_end_label(namev, n));
        }
        let l2 = l.clone();
        let e2 = e.clone();
        let mut v: Vec<Instr> = Vec::new();
        v.push(Instr::Mark(name));
        v.push(Instr::At(Addr::Lit(n)));
        v.push(Instr::C(CIns::DfromA));
        v.push(Instr::Mark(l));
        v.push(Instr::At(Addr::Sym(e)));
        v.push(Instr::C(CIns::JumpEq));
        v.push(Instr::C(CIns::Ddec));
        v.push(Instr::At(Addr::Sp));
        v.push(Instr::C(CIns::AfromM));
        v.push(Instr::C(CIns::MsetZero));
        v.push(Instr::At(Addr::Sp));
        v.push(Instr::C(CIns::Minc));
        v.push(Instr::At(Addr::Sym(l2)));
        v.push(Instr::C(CIns::Jump));
        v.push(Instr::Mark(e2));
        proof {
            assert(instr_views(v@) =~= spec_function_instrs(namev, n));
        }
        v
    }

    /// `call name nargs` with the parser-synthesized return address.
    fn translate_call(&self, name: String, nargs: u16, ret: String) -> (r: Vec<Instr>)
        ensures
            instr_views(r@) == spec_call_instrs(name@, nargs, ret@),
    {
        let mut v: Vec<Instr> = Vec::new();
        self.emit_call(&mut v, name, nargs, ret);
        v
    }

    /// The shared call encoding, used both for ordinary calls and for
    /// the bootstrap, so the two can never drift apart.
    fn emit_call(&self, v: &mut Vec<Instr>, name: String, nargs: u16, ret: String)
        ensures
            instr_views(final(v)@) == instr_views(old(v)@) + spec_call_instrs(name@, nargs, ret@),
    {
        let ghost namev = name@;
        let ghost retv = ret@;
        let mark = ret.clone();
        v.push(Instr::At(Addr::Sym(ret)));
        v.push(Instr::C(CIns::DfromA));
        self.emit_push_suffix(v);
        v.push(Instr::At(Addr::Lcl));
        v.push(Instr::C(CIns::DfromM));
        self.emit_push_suffix(v);
        v.push(Instr::At(Addr::Arg));
        v.push(Instr::C(CIns::DfromM));
        self.emit_push_suffix(v);
        v.push(Instr::At(Addr::This));
        v.push(Instr::C(CIns::DfromM));
        self.emit_push_suffix(v);
        v.push(Instr::At(Addr::That));
        v.push(Instr::C(CIns::DfromM));
        self.emit_push_suffix(v);
        v.push(Instr::At(Addr::Sp));
        v.push(Instr::C(CIns::DfromM));
        v.push(Instr::At(Addr::Lit(5)));
        v.push(Instr::C(CIns::DsubA));
        v.push(Instr::At(Addr::Lit(nargs)));
        v.push(Instr::C(CIns::DsubA));
        v.push(Instr::At(Addr::Arg));
        v.push(Instr::C(CIns::MfromD));
        v.push(Instr::At(Addr::Sp));
        v.push(Instr::C(CIns::DfromM));
        v.push(Instr::At(Addr::Lcl));
        v.push(Instr::C(CIns::MfromD));
        v.push(Instr::At(Addr::Sym(name)));
        v.push(Instr::C(CIns::Jump));
        v.push(Instr::Mark(mark));
        proof {
            assert(instr_views(v@) =~= instr_views(old(v)@) + spec_call_instrs(
                namev,
                nargs,
                retv,
            ));
        }
    }

    /// `return`.
    fn translate_return(&self) -> (r: Vec<Instr>)
        ensures
            instr_views(r@) == spec_return_instrs(),
    {
        let mut v: Vec<Instr> = Vec::new();
        v.push(Instr::At(Addr::Lcl));
        v.push(Instr::C(CIns::DfromM));
        v.push(Instr::At(Addr::R13));
        v.push(Instr::C(CIns::MfromD));
        v.push(Instr::At(Addr::Lit(5)));
        v.push(Instr::C(CIns::AfromDsubA));
        v.push(Instr::C(CIns::DfromM));
        v.push(Instr::At(Addr::R14));
        v.push(Instr::C(CIns::MfromD));
        v.push(Instr::At(Addr::Sp));
        v.push(Instr::C(CIns::Mdec));
        v.push(Instr::C(CIns::AfromM));
        v.push(Instr::C(CIns::DfromM));
        v.push(Instr::At(Addr::Arg));
        v.push(Instr::C(CIns::AfromM));
        v.push(Instr::C(CIns::MfromD));
        v.push(Instr::C(CIns::DfromA));
        v.push(Instr::At(Addr::Sp));
        v.push(Instr::C(CIns::MfromDinc));
        self.emit_restore(&mut v, Instr::At(Addr::That));
        self.emit_restore(&mut v, Instr::At(Addr::This));
        self.emit_restore(&mut v, Instr::At(Addr::Arg));
        self.emit_restore(&mut v, Instr::At(Addr::Lcl));
        v.push(Instr::At(Addr::R14));
        v.push(Instr::C(CIns::AfromM));
        v.push(Instr::C(CIns::Jump));
        proof {
            assert(instr_views(v@) =~= spec_return_instrs());
        }
        v
    }

    /// One step of the context restore.
    fn emit_restore(&self, v: &mut Vec<Instr>, dest: Instr)
        requires
            dest@ matches InstrS::At(_),
        ensures
            instr_views(final(v)@) == instr_views(old(v)@) + spec_restore_instrs(dest@->At_0),
    {
        let ghost destv = dest@;
        v.push(Instr::At(Addr::R13));
        v.push(Instr::C(CIns::AMdec));
        v.push(Instr::C(CIns::DfromM));
        v.push(dest);
        v.push(Instr::C(CIns::MfromD));
        proof {
            assert(instr_views(v@) =~= instr_views(old(v)@) + spec_restore_instrs(destv->At_0));
        }
    }
}

} // verus!
