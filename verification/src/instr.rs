//! The target machine's instruction set, in structured form, and its
//! rendering to assembly text.
//!
//! The code generator emits values of [`Instr`]; one rendering function
//! turns them into the textual lines of the output. Keeping the
//! structured form lets the machine model in [`crate::machine`] state
//! what the generated sequences do without reading text back.

use vstd::prelude::*;

use crate::text::{dec_string, spec_dec};

verus! {

/// A compute instruction of the target machine: the fixed repertoire
/// that the code generator uses. `A` is the address register, `D` the
/// data register, `M` the memory cell selected by `A`. The `Jump*`
/// variants test `D` (as a signed 16-bit value) and jump to the
/// instruction address held in `A`.
#[derive(Clone, Copy, PartialEq, Eq, Structural, Debug)]
pub enum CIns {
    /// `D=M`
    DfromM,
    /// `D=A`
    DfromA,
    /// `M=D`
    MfromD,
    /// `A=M`
    AfromM,
    /// `A=A-1`
    Adec,
    /// `A=M-1`
    AfromMdec,
    /// `A=A+D`
    AaddD,
    /// `A=D-A`
    AfromDsubA,
    /// `D=A+D`
    DaddA,
    /// `D=M-D`
    DfromMsubD,
    /// `D=D-A`
    DsubA,
    /// `D=D-1`
    Ddec,
    /// `M=M+D`
    MaddD,
    /// `M=M-D`
    MsubD,
    /// `M=-M`
    Mneg,
    /// `M=!M`
    Mnot,
    /// `M=M&D`
    MandD,
    /// `M=M|D`
    MorD,
    /// `M=-1`
    MsetTrue,
    /// `M=0`
    MsetZero,
    /// `M=M+1`
    Minc,
    /// `M=M-1`
    Mdec,
    /// `M=D+1`
    MfromDinc,
    /// `AM=M-1`
    AMdec,
    /// `0;JMP`
    Jump,
    /// `D;JEQ`
    JumpEq,
    /// `D;JGT`
    JumpGt,
    /// `D;JLT`
    JumpLt,
    /// `D;JNE`
    JumpNe,
}

/// The text of one compute instruction.
pub open spec fn spec_cins_text(c: CIns) -> Seq<char> {
    match c {
        CIns::DfromM => "D=M"@,
        CIns::DfromA => "D=A"@,
        CIns::MfromD => "M=D"@,
        CIns::AfromM => "A=M"@,
        CIns::Adec => "A=A-1"@,
        CIns::AfromMdec => "A=M-1"@,
        CIns::AaddD => "A=A+D"@,
        CIns::AfromDsubA => "A=D-A"@,
        CIns::DaddA => "D=A+D"@,
        CIns::DfromMsubD => "D=M-D"@,
        CIns::DsubA => "D=D-A"@,
        CIns::Ddec => "D=D-1"@,
        CIns::MaddD => "M=M+D"@,
        CIns::MsubD => "M=M-D"@,
        CIns::Mneg => "M=-M"@,
        CIns::Mnot => "M=!M"@,
        CIns::MandD => "M=M&D"@,
        CIns::MorD => "M=M|D"@,
        CIns::MsetTrue => "M=-1"@,
        CIns::MsetZero => "M=0"@,
        CIns::Minc => "M=M+1"@,
        CIns::Mdec => "M=M-1"@,
        CIns::MfromDinc => "M=D+1"@,
        CIns::AMdec => "AM=M-1"@,
        CIns::Jump => "0;JMP"@,
        CIns::JumpEq => "D;JEQ"@,
        CIns::JumpGt => "D;JGT"@,
        CIns::JumpLt => "D;JLT"@,
        CIns::JumpNe => "D;JNE"@,
    }
}

/// What an address instruction `@...` can name.
#[derive(Debug, PartialEq)]
pub enum Addr {
    /// A literal value.
    Lit(u16),
    /// The stack-pointer cell (address 0).
    Sp,
    /// The Local base-pointer cell (address 1).
    Lcl,
    /// The Argument base-pointer cell (address 2).
    Arg,
    /// The This base-pointer cell (address 3).
    This,
    /// The That base-pointer cell (address 4).
    That,
    /// The first scratch cell (address 13).
    R13,
    /// The second scratch cell (address 14).
    R14,
    /// A cell of the fixed temporary block: `R5` up to `R12`.
    Temp(u16),
    /// The per-unit global cell `unit.index`.
    Static(String, u16),
    /// A code label, to be resolved to an instruction address.
    Sym(String),
}

/// One generated line: an address instruction, a label definition, or a
/// compute instruction.
#[derive(Debug, PartialEq)]
pub enum Instr {
    At(Addr),
    Mark(String),
    C(CIns),
}

/// The mathematical image of an [`Addr`].
pub enum AddrS {
    Lit(u16),
    Sp,
    Lcl,
    Arg,
    This,
    That,
    R13,
    R14,
    Temp(u16),
    Static(Seq<char>, u16),
    Sym(Seq<char>),
}

/// The mathematical image of an [`Instr`] line.
pub enum InstrS {
    At(AddrS),
    Mark(Seq<char>),
    C(CIns),
}

impl View for Addr {
    type V = AddrS;

    open spec fn view(&self) -> AddrS {
        match self {
            Addr::Lit(n) => AddrS::Lit(*n),
            Addr::Sp => AddrS::Sp,
            Addr::Lcl => AddrS::Lcl,
            Addr::Arg => AddrS::Arg,
            Addr::This => AddrS::This,
            Addr::That => AddrS::That,
            Addr::R13 => AddrS::R13,
            Addr::R14 => AddrS::R14,
            Addr::Temp(i) => AddrS::Temp(*i),
            Addr::Static(u, i) => AddrS::Static(u@, *i),
            Addr::Sym(s) => AddrS::Sym(s@),
        }
    }
}

impl View for Instr {
    type V = InstrS;

    open spec fn view(&self) -> InstrS {
        match self {
            Instr::At(a) => InstrS::At(a@),
            Instr::Mark(s) => InstrS::Mark(s@),
            Instr::C(c) => InstrS::C(*c),
        }
    }
}

/// The views of a sequence of structured lines.
pub open spec fn instr_views(s: Seq<Instr>) -> Seq<InstrS> {
    s.map_values(|a: Instr| a@)
}

/// Appending one line commutes with taking views.
pub broadcast proof fn lemma_instr_views_push(s: Seq<Instr>, x: Instr)
    ensures
        #[trigger] instr_views(s.push(x)) == instr_views(s).push(x@),
{
    assert(instr_views(s.push(x)) =~= instr_views(s).push(x@));
}

/// The view sequence, element for element.
pub broadcast proof fn lemma_instr_views_index(s: Seq<Instr>, i: int)
    requires
        0 <= i < s.len(),
    ensures
        #[trigger] instr_views(s)[i] == s[i]@,
{
}

/// The text of one line.
pub open spec fn spec_render(a: InstrS) -> Seq<char> {
    match a {
        InstrS::At(AddrS::Lit(n)) => "@"@ + spec_dec(n as nat),
        InstrS::At(AddrS::Sp) => "@SP"@,
        InstrS::At(AddrS::Lcl) => "@LCL"@,
        InstrS::At(AddrS::Arg) => "@ARG"@,
        InstrS::At(AddrS::This) => "@THIS"@,
        InstrS::At(AddrS::That) => "@THAT"@,
        InstrS::At(AddrS::R13) => "@R13"@,
        InstrS::At(AddrS::R14) => "@R14"@,
        InstrS::At(AddrS::Temp(i)) => "@R"@ + spec_dec(5 + i as nat),
        InstrS::At(AddrS::Static(u, i)) => "@"@ + u + "."@ + spec_dec(i as nat),
        InstrS::At(AddrS::Sym(s)) => "@"@ + s,
        InstrS::Mark(s) => "("@ + s + ")"@,
        InstrS::C(c) => spec_cins_text(c),
    }
}

/// Whether the strings `r` are, line for line, the rendering of the
/// structured lines `p`.
pub open spec fn lines_match(r: Seq<String>, p: Seq<InstrS>) -> bool {
    &&& r.len() == p.len()
    &&& forall|i: int| 0 <= i < p.len() ==> #[trigger] r[i]@ == spec_render(p[i])
}

/// The text of one compute instruction.
fn render_cins(c: CIns) -> (r: &'static str)
    ensures
        r@ == spec_cins_text(c),
{
    match c {
        CIns::DfromM => "D=M",
        CIns::DfromA => "D=A",
        CIns::MfromD => "M=D",
        CIns::AfromM => "A=M",
        CIns::Adec => "A=A-1",
        CIns::AfromMdec => "A=M-1",
        CIns::AaddD => "A=A+D",
        CIns::AfromDsubA => "A=D-A",
        CIns::DaddA => "D=A+D",
        CIns::DfromMsubD => "D=M-D",
        CIns::DsubA => "D=D-A",
        CIns::Ddec => "D=D-1",
        CIns::MaddD => "M=M+D",
        CIns::MsubD => "M=M-D",
        CIns::Mneg => "M=-M",
        CIns::Mnot => "M=!M",
        CIns::MandD => "M=M&D",
        CIns::MorD => "M=M|D",
        CIns::MsetTrue => "M=-1",
        CIns::MsetZero => "M=0",
        CIns::Minc => "M=M+1",
        CIns::Mdec => "M=M-1",
        CIns::MfromDinc => "M=D+1",
        CIns::AMdec => "AM=M-1",
        CIns::Jump => "0;JMP",
        CIns::JumpEq => "D;JEQ",
        CIns::JumpGt => "D;JGT",
        CIns::JumpLt => "D;JLT",
        CIns::JumpNe => "D;JNE",
    }
}

/// Renders one structured line as its assembly text.
pub fn render(a: &Instr) -> (r: String)
    ensures
        r@ == spec_render(a@),
{
    match a {
        Instr::At(Addr::Lit(n)) => {
            let mut s = String::from_str("@");
            let d = dec_string(*n as u64);
            s.append(d.as_str());
            proof {
                assert(s@ =~= spec_render(a@));
            }
            s
        },
        Instr::At(Addr::Sp) => String::from_str("@SP"),
        Instr::At(Addr::Lcl) => String::from_str("@LCL"),
        Instr::At(Addr::Arg) => String::from_str("@ARG"),
        Instr::At(Addr::This) => String::from_str("@THIS"),
        Instr::At(Addr::That) => String::from_str("@THAT"),
        Instr::At(Addr::R13) => String::from_str("@R13"),
        Instr::At(Addr::R14) => String::from_str("@R14"),
        Instr::At(Addr::Temp(i)) => {
            let mut s = String::from_str("@R");
            let d = dec_string(*i as u64 + 5);
            s.append(d.as_str());
            proof {
                assert(s@ =~= spec_render(a@));
            }
            s
        },
        Instr::At(Addr::Static(u, i)) => {
            let mut s = String::from_str("@");
            s.append(u.as_str());
            s.append(".");
            let d = dec_string(*i as u64);
            s.append(d.as_str());
            proof {
                assert(s@ =~= spec_render(a@));
            }
            s
        },
        Instr::At(Addr::Sym(name)) => {
            let mut s = String::from_str("@");
            s.append(name.as_str());
            proof {
                assert(s@ =~= spec_render(a@));
            }
            s
        },
        Instr::Mark(name) => {
            let mut s = String::from_str("(");
            s.append(name.as_str());
            s.append(")");
            proof {
                assert(s@ =~= spec_render(a@));
            }
            s
        },
        Instr::C(c) => String::from_str(render_cins(*c)),
    }
}

/// Renders every line of a generated sequence.
pub fn render_lines(p: &Vec<Instr>) -> (r: Vec<String>)
    ensures
        lines_match(r@, instr_views(p@)),
{
    let mut r: Vec<String> = Vec::new();
    let mut k: usize = 0;
    while k < p.len()
        invariant
            0 <= k <= p@.len(),
            r@.len() == k,
            forall|i: int| 0 <= i < k ==> #[trigger] r@[i]@ == spec_render(instr_views(p@)[i]),
        decreases p@.len() - k,
    {
        let line = render(&p[k]);
        r.push(line);
        k = k + 1;
    }
    r
}

} // verus!
