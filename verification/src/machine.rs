//! A model of the target machine: one data register `D`, one address
//! register `A`, a flat 16-bit-word memory, and a program counter.
//!
//! The model interprets the structured instructions of
//! [`crate::instr`] after a small resolution pass that turns symbolic
//! addresses into numbers: the fixed cells keep their conventional
//! addresses (`SP` 0, `LCL` 1, `ARG` 2, `THIS` 3, `THAT` 4, scratch 13
//! and 14, the temporaries 5 through 12), a per-unit static cell of
//! index `i` is allocated at `16 + i`, and a code symbol becomes the
//! position of its label definition. Arithmetic wraps modulo 2^16 and
//! the conditional jumps read `D` as a signed 16-bit value, as the
//! machine does.

use vstd::prelude::*;

use crate::instr::{instr_views, Addr, AddrS, CIns, Instr, InstrS};

verus! {

broadcast use crate::instr::lemma_instr_views_index;

/// An instruction after address resolution. Label definitions remain
/// as no-op placeholders so that resolved code addresses are simply
/// positions in this sequence.
#[derive(Clone, Copy, PartialEq, Eq, Structural, Debug)]
pub enum RInstr {
    At(u16),
    Mark,
    C(CIns),
}

/// Why resolution can fail.
#[derive(Clone, Copy, PartialEq, Eq, Structural, Debug)]
pub enum LinkError {
    /// A code symbol without a matching label definition, or a label
    /// position beyond what an address can hold.
    UnknownLabel,
    /// A temporary or static cell outside the address space.
    AddressOutOfRange,
}

/// The position of the first definition of label `name` at or after
/// `i`, or -1.
pub open spec fn spec_find_mark_from(p: Seq<InstrS>, name: Seq<char>, i: int) -> int
    decreases p.len() - i,
{
    if i < 0 || i >= p.len() {
        -1
    } else if p[i] == InstrS::Mark(name) {
        i
    } else {
        spec_find_mark_from(p, name, i + 1)
    }
}

/// The position of the first definition of label `name`.
pub open spec fn spec_find_mark(p: Seq<InstrS>, name: Seq<char>) -> int {
    spec_find_mark_from(p, name, 0)
}

/// The numeric address one address line resolves to, within program
/// `p`.
pub open spec fn spec_resolve_addr(p: Seq<InstrS>, a: AddrS) -> Option<u16> {
    match a {
        AddrS::Lit(n) => Some(n),
        AddrS::Sp => Some(0u16),
        AddrS::Lcl => Some(1u16),
        AddrS::Arg => Some(2u16),
        AddrS::This => Some(3u16),
        AddrS::That => Some(4u16),
        AddrS::R13 => Some(13u16),
        AddrS::R14 => Some(14u16),
        AddrS::Temp(i) => if i < 8 {
            Some((5 + i) as u16)
        } else {
            None
        },
        AddrS::Static(u, i) => if i <= 0xffff - 16 {
            Some((16 + i) as u16)
        } else {
            None
        },
        AddrS::Sym(s) => {
            let k = spec_find_mark(p, s);
            if 0 <= k < 0x10000 {
                Some(k as u16)
            } else {
                None
            }
        },
    }
}

/// Whether every address line of `p` resolves.
pub open spec fn spec_resolvable(p: Seq<InstrS>) -> bool {
    forall|i: int|
        0 <= i < p.len() ==> (#[trigger] p[i] matches InstrS::At(a) ==> spec_resolve_addr(p, a)
            is Some)
}

/// The resolved form of `p`.
pub open spec fn spec_resolve(p: Seq<InstrS>) -> Seq<RInstr> {
    Seq::new(
        p.len(),
        |i: int|
            match p[i] {
                InstrS::At(a) => RInstr::At(
                    match spec_resolve_addr(p, a) {
                        Some(n) => n,
                        None => 0u16,
                    },
                ),
                InstrS::Mark(_) => RInstr::Mark,
                InstrS::C(c) => RInstr::C(c),
            },
    )
}

/// The machine's mathematical state.
pub struct MState {
    pub pc: nat,
    pub a: u16,
    pub d: u16,
    pub ram: Seq<u16>,
}

/// Addition modulo 2^16.
pub open spec fn wadd(x: u16, y: u16) -> u16 {
    ((x + y) % 0x10000) as u16
}

/// Subtraction modulo 2^16.
pub open spec fn wsub(x: u16, y: u16) -> u16 {
    (((x - y) + 0x10000) % 0x10000) as u16
}

/// The memory word selected by `A`; zero outside the modelled memory.
pub open spec fn rd(s: MState, a: u16) -> u16 {
    if a < s.ram.len() {
        s.ram[a as int]
    } else {
        0
    }
}

/// The state with the word selected by `a` replaced.
pub open spec fn wr(s: MState, a: u16, v: u16) -> MState {
    if a < s.ram.len() {
        MState { ram: s.ram.update(a as int, v), ..s }
    } else {
        s
    }
}

/// Whether `D` holds a strictly positive signed value.
pub open spec fn d_pos(d: u16) -> bool {
    0 < d < 0x8000
}

/// Whether `D` holds a strictly negative signed value.
pub open spec fn d_neg(d: u16) -> bool {
    d >= 0x8000
}

/// One instruction step. Past the end of the program the state is
/// unchanged.
#[verifier::opaque]
pub open spec fn spec_step(p: Seq<RInstr>, s: MState) -> MState {
    if s.pc >= p.len() {
        s
    } else {
        let pc1 = s.pc + 1;
        let m = rd(s, s.a);
        match p[s.pc as int] {
            RInstr::At(n) => MState { a: n, pc: pc1, ..s },
            RInstr::Mark => MState { pc: pc1, ..s },
            RInstr::C(c) => match c {
                CIns::DfromM => MState { d: m, pc: pc1, ..s },
                CIns::DfromA => MState { d: s.a, pc: pc1, ..s },
                CIns::MfromD => MState { pc: pc1, ..wr(s, s.a, s.d) },
                CIns::AfromM => MState { a: m, pc: pc1, ..s },
                CIns::Adec => MState { a: wsub(s.a, 1), pc: pc1, ..s },
                CIns::AfromMdec => MState { a: wsub(m, 1), pc: pc1, ..s },
                CIns::AaddD => MState { a: wadd(s.a, s.d), pc: pc1, ..s },
                CIns::AfromDsubA => MState { a: wsub(s.d, s.a), pc: pc1, ..s },
                CIns::DaddA => MState { d: wadd(s.a, s.d), pc: pc1, ..s },
                CIns::DfromMsubD => MState { d: wsub(m, s.d), pc: pc1, ..s },
                CIns::DsubA => MState { d: wsub(s.d, s.a), pc: pc1, ..s },
                CIns::Ddec => MState { d: wsub(s.d, 1), pc: pc1, ..s },
                CIns::MaddD => MState { pc: pc1, ..wr(s, s.a, wadd(m, s.d)) },
                CIns::MsubD => MState { pc: pc1, ..wr(s, s.a, wsub(m, s.d)) },
                CIns::Mneg => MState { pc: pc1, ..wr(s, s.a, wsub(0, m)) },
                CIns::Mnot => MState { pc: pc1, ..wr(s, s.a, !m) },
                CIns::MandD => MState { pc: pc1, ..wr(s, s.a, m & s.d) },
                CIns::MorD => MState { pc: pc1, ..wr(s, s.a, m | s.d) },
                CIns::MsetTrue => MState { pc: pc1, ..wr(s, s.a, 0xffff) },
                CIns::MsetZero => MState { pc: pc1, ..wr(s, s.a, 0) },
                CIns::Minc => MState { pc: pc1, ..wr(s, s.a, wadd(m, 1)) },
                CIns::Mdec => MState { pc: pc1, ..wr(s, s.a, wsub(m, 1)) },
                CIns::MfromDinc => MState { pc: pc1, ..wr(s, s.a, wadd(s.d, 1)) },
                CIns::AMdec => MState { a: wsub(m, 1), pc: pc1, ..wr(s, s.a, wsub(m, 1)) },
                CIns::Jump => MState { pc: s.a as nat, ..s },
                CIns::JumpEq => MState {
                    pc: if s.d == 0 {
                        s.a as nat
                    } else {
                        pc1
                    },
                    ..s
                },
                CIns::JumpGt => MState {
                    pc: if d_pos(s.d) {
                        s.a as nat
                    } else {
                        pc1
                    },
                    ..s
                },
                CIns::JumpLt => MState {
                    pc: if d_neg(s.d) {
                        s.a as nat
                    } else {
                        pc1
                    },
                    ..s
                },
                CIns::JumpNe => MState {
                    pc: if s.d != 0 {
                        s.a as nat
                    } else {
                        pc1
                    },
                    ..s
                },
            },
        }
    }
}

/// `n` instruction steps.
pub open spec fn spec_run(p: Seq<RInstr>, s: MState, n: nat) -> MState
    decreases n,
{
    if n == 0 {
        s
    } else {
        spec_run(p, spec_step(p, s), (n - 1) as nat)
    }
}

/// Running one more step is stepping the result.
pub proof fn lemma_run_succ(p: Seq<RInstr>, s: MState, n: nat)
    ensures
        spec_run(p, s, n + 1) == spec_step(p, spec_run(p, s, n)),
    decreases n,
{
    if n == 0 {
        assert(spec_run(p, s, 1) == spec_run(p, spec_step(p, s), 0));
    } else {
        lemma_run_succ(p, spec_step(p, s), (n - 1) as nat);
        assert(spec_run(p, s, n + 1) == spec_run(p, spec_step(p, s), n));
        assert(spec_run(p, s, n) == spec_run(p, spec_step(p, s), (n - 1) as nat));
    }
}

/// The executable machine state: a word-addressed memory of 2^16
/// cells, the two registers, and the program counter.
pub struct Machine {
    pub pc: usize,
    pub a: u16,
    pub d: u16,
    pub ram: Vec<u16>,
}

impl View for Machine {
    type V = MState;

    open spec fn view(&self) -> MState {
        MState { pc: self.pc as nat, a: self.a, d: self.d, ram: self.ram@ }
    }
}

impl Machine {
    /// A machine with cleared registers and zeroed memory.
    pub fn new() -> (r: Machine)
        ensures
            r@.pc == 0,
            r@.a == 0,
            r@.d == 0,
            r@.ram.len() == 0x10000,
            forall|i: int| 0 <= i < 0x10000 ==> r@.ram[i] == 0,
    {
        let mut ram: Vec<u16> = Vec::new();
        while ram.len() < 0x10000
            invariant
                forall|i: int| 0 <= i < ram@.len() ==> ram@[i] == 0,
                ram@.len() <= 0x10000,
            decreases 0x10000 - ram@.len(),
        {
            ram.push(0);
        }
        Machine { pc: 0, a: 0, d: 0, ram }
    }

    /// Executes one instruction.
    pub fn step(&mut self, p: &Vec<RInstr>)
        requires
            old(self)@.ram.len() == 0x10000,
        ensures
            final(self)@ == spec_step(p@, old(self)@),
            final(self)@.ram.len() == 0x10000,
    {
        proof {
            reveal(spec_step);
        }
        if self.pc >= p.len() {
            return ;
        }
        let a = self.a;
        let d = self.d;
        let m = self.ram[a as usize];
        proof {
            assert(m == rd(old(self)@, a));
        }
        let pc1 = self.pc + 1;
        match p[self.pc] {
            RInstr::At(n) => {
                self.a = n;
                self.pc = pc1;
            },
            RInstr::Mark => {
                self.pc = pc1;
            },
            RInstr::C(c) => match c {
                CIns::DfromM => {
                    self.d = m;
                    self.pc = pc1;
                },
                CIns::DfromA => {
                    self.d = a;
                    self.pc = pc1;
                },
                CIns::MfromD => {
                    self.ram[a as usize] = d;
                    self.pc = pc1;
                },
                CIns::AfromM => {
                    self.a = m;
                    self.pc = pc1;
                },
                CIns::Adec => {
                    self.a = a.wrapping_sub(1);
                    self.pc = pc1;
                },
                CIns::AfromMdec => {
                    self.a = m.wrapping_sub(1);
                    self.pc = pc1;
                },
                CIns::AaddD => {
                    self.a = a.wrapping_add(d);
                    self.pc = pc1;
                },
                CIns::AfromDsubA => {
                    self.a = d.wrapping_sub(a);
                    self.pc = pc1;
                },
                CIns::DaddA => {
                    self.d = a.wrapping_add(d);
                    self.pc = pc1;
                },
                CIns::DfromMsubD => {
                    self.d = m.wrapping_sub(d);
                    self.pc = pc1;
                },
                CIns::DsubA => {
                    self.d = d.wrapping_sub(a);
                    self.pc = pc1;
                },
                CIns::Ddec => {
                    self.d = d.wrapping_sub(1);
                    self.pc = pc1;
                },
                CIns::MaddD => {
                    self.ram[a as usize] = m.wrapping_add(d);
                    self.pc = pc1;
                },
                CIns::MsubD => {
                    self.ram[a as usize] = m.wrapping_sub(d);
                    self.pc = pc1;
                },
                CIns::Mneg => {
                    self.ram[a as usize] = 0u16.wrapping_sub(m);
                    self.pc = pc1;
                },
                CIns::Mnot => {
                    self.ram[a as usize] = !m;
                    self.pc = pc1;
                },
                CIns::MandD => {
                    self.ram[a as usize] = m & d;
                    self.pc = pc1;
                },
                CIns::MorD => {
                    self.ram[a as usize] = m | d;
                    self.pc = pc1;
                },
                CIns::MsetTrue => {
                    self.ram[a as usize] = 0xffff;
                    self.pc = pc1;
                },
                CIns::MsetZero => {
                    self.ram[a as usize] = 0;
                    self.pc = pc1;
                },
                CIns::Minc => {
                    self.ram[a as usize] = m.wrapping_add(1);
                    self.pc = pc1;
                },
                CIns::Mdec => {
                    self.ram[a as usize] = m.wrapping_sub(1);
                    self.pc = pc1;
                },
                CIns::MfromDinc => {
                    self.ram[a as usize] = d.wrapping_add(1);
                    self.pc = pc1;
                },
                CIns::AMdec => {
                    let v = m.wrapping_sub(1);
                    self.ram[a as usize] = v;
                    self.a = v;
                    self.pc = pc1;
                },
                CIns::Jump => {
                    self.pc = a as usize;
                },
                CIns::JumpEq => {
                    self.pc = if d == 0 {
                        a as usize
                    } else {
                        pc1
                    };
                },
                CIns::JumpGt => {
                    self.pc = if 0 < d && d < 0x8000 {
                        a as usize
                    } else {
                        pc1
                    };
                },
                CIns::JumpLt => {
                    self.pc = if d >= 0x8000 {
                        a as usize
                    } else {
                        pc1
                    };
                },
                CIns::JumpNe => {
                    self.pc = if d != 0 {
                        a as usize
                    } else {
                        pc1
                    };
                },
            },
        }
    }

    /// Executes `steps` instructions.
    pub fn run(&mut self, p: &Vec<RInstr>, steps: usize)
        requires
            old(self)@.ram.len() == 0x10000,
        ensures
            final(self)@ == spec_run(p@, old(self)@, steps as nat),
            final(self)@.ram.len() == 0x10000,
    {
        let mut k: usize = 0;
        while k < steps
            invariant
                0 <= k <= steps,
                self@.ram.len() == 0x10000,
                self@ == spec_run(p@, old(self)@, k as nat),
            decreases steps - k,
        {
            self.step(p);
            proof {
                lemma_run_succ(p@, old(self)@, k as nat);
            }
            k = k + 1;
        }
    }
}

/// The position of the first definition of label `name`, if any.
pub fn find_mark(p: &Vec<Instr>, name: &String) -> (r: Option<usize>)
    ensures
        ({
            let k = spec_find_mark(instr_views(p@), name@);
            match r {
                Some(j) => k == j,
                None => k == -1,
            }
        }),
{
    let mut i: usize = 0;
    while i < p.len()
        invariant
            0 <= i <= p@.len(),
            spec_find_mark_from(instr_views(p@), name@, 0) == spec_find_mark_from(
                instr_views(p@),
                name@,
                i as int,
            ),
        decreases p@.len() - i,
    {
        let e = &p[i];
        proof {
            assert(*e == p@[i as int]);
            assert(instr_views(p@)[i as int] == p@[i as int]@);
        }
        match e {
            Instr::Mark(m) => {
                proof {
                    assert(p@[i as int]@ == InstrS::Mark(m@));
                }
                if *m == *name {
                    return Some(i);
                }
                proof {
                    assert(m@ != name@);
                    assert(instr_views(p@)[i as int] != InstrS::Mark(name@));
                }
            },
            Instr::At(a) => {
                proof {
                    assert(p@[i as int]@ == InstrS::At(a@));
                }
            },
            Instr::C(c) => {
                proof {
                    assert(p@[i as int]@ == InstrS::C(*c));
                }
            },
        }
        proof {
            assert(instr_views(p@)[i as int] != InstrS::Mark(name@));
        }
        i = i + 1;
    }
    None
}

/// The numeric address one address line resolves to.
fn resolve_addr(p: &Vec<Instr>, a: &Addr) -> (r: Option<u16>)
    ensures
        r == spec_resolve_addr(instr_views(p@), a@),
{
    match a {
        Addr::Lit(n) => Some(*n),
        Addr::Sp => Some(0),
        Addr::Lcl => Some(1),
        Addr::Arg => Some(2),
        Addr::This => Some(3),
        Addr::That => Some(4),
        Addr::R13 => Some(13),
        Addr::R14 => Some(14),
        Addr::Temp(t) => if *t < 8 {
            Some(5 + *t)
        } else {
            None
        },
        Addr::Static(_, i) => if *i <= 0xffff - 16 {
            Some(16 + *i)
        } else {
            None
        },
        Addr::Sym(name) => match find_mark(p, name) {
            Some(j) => if j < 0x10000 {
                Some(j as u16)
            } else {
                None
            },
            None => None,
        },
    }
}

/// Resolves every symbolic address of `p`; fails exactly when some
/// address does not resolve.
pub fn resolve(p: &Vec<Instr>) -> (r: Result<Vec<RInstr>, LinkError>)
    ensures
        r matches Ok(v) ==> spec_resolvable(instr_views(p@)) && v@ == spec_resolve(
            instr_views(p@),
        ),
        r is Err ==> !spec_resolvable(instr_views(p@)),
{
    let mut out: Vec<RInstr> = Vec::new();
    let mut i: usize = 0;
    while i < p.len()
        invariant
            0 <= i <= p@.len(),
            out@.len() == i,
            forall|j: int|
                0 <= j < i ==> (#[trigger] instr_views(p@)[j] matches InstrS::At(a)
                    ==> spec_resolve_addr(instr_views(p@), a) is Some),
            forall|j: int| 0 <= j < i ==> #[trigger] out@[j] == spec_resolve(instr_views(p@))[j],
        decreases p@.len() - i,
    {
        match &p[i] {
            Instr::At(addr) => {
                match resolve_addr(p, addr) {
                    Some(n) => {
                        out.push(RInstr::At(n));
                    },
                    None => {
                        proof {
                            assert(instr_views(p@)[i as int] matches InstrS::At(aa)
                                && spec_resolve_addr(instr_views(p@), aa) is None);
                        }
                        match addr {
                            Addr::Sym(_) => {
                                return Err(LinkError::UnknownLabel);
                            },
                            _ => {
                                return Err(LinkError::AddressOutOfRange);
                            },
                        }
                    },
                }
            },
            Instr::Mark(_) => {
                out.push(RInstr::Mark);
            },
            Instr::C(c) => {
                out.push(RInstr::C(*c));
            },
        }
        i = i + 1;
    }
    proof {
        assert(out@ =~= spec_resolve(instr_views(p@)));
    }
    Ok(out)
}

/// The effect of an address instruction.
pub proof fn lemma_step_at(p: Seq<RInstr>, s: MState, n: u16)
    requires
        s.pc < p.len(),
        p[s.pc as int] == RInstr::At(n),
    ensures
        spec_step(p, s) == (MState { a: n, pc: s.pc + 1, ..s }),
{
    reveal(spec_step);
}

/// The effect of one compute instruction of each kind the proofs
/// below step through.
pub proof fn lemma_step_c(p: Seq<RInstr>, s: MState, c: CIns)
    requires
        s.pc < p.len(),
        p[s.pc as int] == RInstr::C(c),
    ensures
        c == CIns::DfromA ==> spec_step(p, s) == (MState { d: s.a, pc: s.pc + 1, ..s }),
        c == CIns::DfromM ==> spec_step(p, s) == (MState { d: rd(s, s.a), pc: s.pc + 1, ..s }),
        c == CIns::AfromM ==> spec_step(p, s) == (MState { a: rd(s, s.a), pc: s.pc + 1, ..s }),
        c == CIns::MfromD ==> spec_step(p, s) == (MState { pc: s.pc + 1, ..wr(s, s.a, s.d) }),
        c == CIns::Minc ==> spec_step(p, s) == (MState {
            pc: s.pc + 1,
            ..wr(s, s.a, wadd(rd(s, s.a), 1))
        }),
        c == CIns::Mdec ==> spec_step(p, s) == (MState {
            pc: s.pc + 1,
            ..wr(s, s.a, wsub(rd(s, s.a), 1))
        }),
        c == CIns::DaddA ==> spec_step(p, s) == (MState { d: wadd(s.a, s.d), pc: s.pc + 1, ..s }),
        c == CIns::Ddec ==> spec_step(p, s) == (MState { d: wsub(s.d, 1), pc: s.pc + 1, ..s }),
        c == CIns::MsetZero ==> spec_step(p, s) == (MState { pc: s.pc + 1, ..wr(s, s.a, 0) }),
        c == CIns::Jump ==> spec_step(p, s) == (MState { pc: s.a as nat, ..s }),
        c == CIns::JumpEq && s.d == 0 ==> spec_step(p, s) == (MState { pc: s.a as nat, ..s }),
        c == CIns::JumpEq && s.d != 0 ==> spec_step(p, s) == (MState { pc: s.pc + 1, ..s }),
{
    reveal(spec_step);
}

/// The effect of a label placeholder: nothing.
pub proof fn lemma_step_mark(p: Seq<RInstr>, s: MState)
    requires
        s.pc < p.len(),
        p[s.pc as int] == RInstr::Mark,
    ensures
        spec_step(p, s) == (MState { pc: s.pc + 1, ..s }),
{
    reveal(spec_step);
}

/// Runs compose: `a + b` steps are `a` steps and then `b` steps.
pub proof fn lemma_run_add(p: Seq<RInstr>, s: MState, a: nat, b: nat)
    ensures
        spec_run(p, s, a + b) == spec_run(p, spec_run(p, s, a), b),
    decreases a,
{
    if a > 0 {
        lemma_run_add(p, spec_step(p, s), (a - 1) as nat, b);
    }
}

} // verus!

