//! Machine-level statements about the generated code: what the fixed
//! instruction sequences do when executed on the model in
//! [`crate::machine`].

use vstd::prelude::*;

use crate::command::MemorySegment;
use crate::instr::CIns;
use crate::machine::{
    lemma_run_add, lemma_step_at, lemma_step_c, lemma_step_mark, rd, spec_resolve, spec_run,
    spec_step, wadd, MState, RInstr,
};
use crate::text::lemma_dec_len;
use crate::translator::{
    pop_valid, spec_fn_end_label, spec_fn_loop_label, spec_function_instrs, spec_pop_instrs,
    spec_push_instrs,
};

verus! {

/// The memory cell that `pop seg i` stores into (and `push seg i`
/// reads from), given the machine state the sequence starts in: the
/// base pointer held in the segment's fixed cell plus the index for
/// the indirect segments, the fixed cells themselves for `pointer`
/// and `temp`, and the per-unit allocation for `static`.
pub open spec fn spec_seg_cell(s: MState, seg: MemorySegment, i: u16) -> u16 {
    match seg {
        MemorySegment::Local => wadd(rd(s, 1), i),
        MemorySegment::Argument => wadd(rd(s, 2), i),
        MemorySegment::This => wadd(rd(s, 3), i),
        MemorySegment::That => wadd(rd(s, 4), i),
        MemorySegment::Pointer => if i == 0 {
            3
        } else {
            4
        },
        MemorySegment::Temp => (5 + i) as u16,
        MemorySegment::Static => (16 + i) as u16,
        MemorySegment::Constant => 0,
    }
}

/// `pop pointer 0` routes to the This base cell and `pop pointer 1`
/// to the That base cell; no other cells are reachable through the
/// `pointer` segment.
pub proof fn lemma_pointer_routes(s: MState, i: u16)
    requires
        i < 2,
    ensures
        i == 0 ==> spec_seg_cell(s, MemorySegment::Pointer, i) == 3,
        i == 1 ==> spec_seg_cell(s, MemorySegment::Pointer, i) == 4,
{
}

/// A machine state the generated code can run in: full memory, the
/// program counter at the start, and the stack pointer inside the
/// stack region with room to grow.
pub open spec fn spec_ready(s: MState) -> bool {
    &&& s.ram.len() == 0x10000
    &&& s.pc == 0
    &&& 256 <= s.ram[0] < 0x7fff
}

/// The effect of the shared instruction pair on an indirect segment.
#[verifier::rlimit(100)]
proof fn lemma_round_trip_indirect(unit: Seq<char>, k: u16, seg: MemorySegment, i: u16, s0: MState)
    requires
        seg == MemorySegment::Local || seg == MemorySegment::Argument || seg
            == MemorySegment::This || seg == MemorySegment::That,
        spec_ready(s0),
    ensures
        ({
            let prog = spec_resolve(
                spec_push_instrs(unit, MemorySegment::Constant, k) + spec_pop_instrs(
                    unit,
                    seg,
                    i,
                ),
            );
            let sf = spec_run(prog, s0, prog.len() as nat);
            let cell = spec_seg_cell(s0, seg, i);
            sf.ram[cell as int] == k && (cell != 0 ==> sf.ram[0] == s0.ram[0])
        }),
{
    let pi = spec_push_instrs(unit, MemorySegment::Constant, k) + spec_pop_instrs(unit, seg, i);
    let prog = spec_resolve(pi);
    let sp = s0.ram[0] as u16;
    let b: u16 = if seg == MemorySegment::Local {
        1
    } else if seg == MemorySegment::Argument {
        2
    } else if seg == MemorySegment::This {
        3
    } else {
        4
    };
    let rp = seq![
        RInstr::At(k),
        RInstr::C(CIns::DfromA),
        RInstr::At(0),
        RInstr::C(CIns::AfromM),
        RInstr::C(CIns::MfromD),
        RInstr::At(0),
        RInstr::C(CIns::Minc),
        RInstr::At(b),
        RInstr::C(CIns::DfromM),
        RInstr::At(i),
        RInstr::C(CIns::DaddA),
        RInstr::At(13),
        RInstr::C(CIns::MfromD),
        RInstr::At(0),
        RInstr::C(CIns::Mdec),
        RInstr::C(CIns::AfromM),
        RInstr::C(CIns::DfromM),
        RInstr::At(13),
        RInstr::C(CIns::AfromM),
        RInstr::C(CIns::MfromD),
    ];
    assert(prog =~= rp);
    let base = s0.ram[b as int] as u16;
    let t = wadd(base, i);
    let r1 = s0.ram.update(sp as int, k);
    let r2 = r1.update(0, wadd(sp, 1) as u16);
    let r3 = r2.update(13, t);
    let r4 = r3.update(0, sp);
    let r5 = r4.update(t as int, k);
    let s1 = spec_step(rp, s0);
    let s2 = spec_step(rp, s1);
    let s3 = spec_step(rp, s2);
    let s4 = spec_step(rp, s3);
    let s5 = spec_step(rp, s4);
    let s6 = spec_step(rp, s5);
    let s7 = spec_step(rp, s6);
    let s8 = spec_step(rp, s7);
    let s9 = spec_step(rp, s8);
    let s10 = spec_step(rp, s9);
    let s11 = spec_step(rp, s10);
    let s12 = spec_step(rp, s11);
    let s13 = spec_step(rp, s12);
    let s14 = spec_step(rp, s13);
    let s15 = spec_step(rp, s14);
    let s16 = spec_step(rp, s15);
    let s17 = spec_step(rp, s16);
    let s18 = spec_step(rp, s17);
    let s19 = spec_step(rp, s18);
    let s20 = spec_step(rp, s19);
    lemma_step_at(rp, s0, k);
    assert(s1 == (MState { pc: 1, a: k, ..s0 }));
    lemma_step_c(rp, s1, CIns::DfromA);
    assert(s2 == (MState { pc: 2, a: k, d: k, ..s0 }));
    lemma_step_at(rp, s2, 0);
    assert(s3 == (MState { pc: 3, a: 0, d: k, ..s0 }));
    lemma_step_c(rp, s3, CIns::AfromM);
    assert(s4 == (MState { pc: 4, a: sp, d: k, ..s0 }));
    lemma_step_c(rp, s4, CIns::MfromD);
    assert(s5 == (MState { pc: 5, a: sp, d: k, ram: r1, ..s0 }));
    lemma_step_at(rp, s5, 0);
    assert(s6 == (MState { pc: 6, a: 0, d: k, ram: r1, ..s0 }));
    lemma_step_c(rp, s6, CIns::Minc);
    assert(s7 == (MState { pc: 7, a: 0, d: k, ram: r2, ..s0 }));
    lemma_step_at(rp, s7, b);
    assert(s8 == (MState { pc: 8, a: b, d: k, ram: r2, ..s0 }));
    lemma_step_c(rp, s8, CIns::DfromM);
    assert(s9 == (MState { pc: 9, a: b, d: base, ram: r2, ..s0 }));
    lemma_step_at(rp, s9, i);
    assert(s10 == (MState { pc: 10, a: i, d: base, ram: r2, ..s0 }));
    lemma_step_c(rp, s10, CIns::DaddA);
    assert(s11 == (MState { pc: 11, a: i, d: t, ram: r2, ..s0 }));
    lemma_step_at(rp, s11, 13);
    assert(s12 == (MState { pc: 12, a: 13, d: t, ram: r2, ..s0 }));
    lemma_step_c(rp, s12, CIns::MfromD);
    assert(s13 == (MState { pc: 13, a: 13, d: t, ram: r3, ..s0 }));
    lemma_step_at(rp, s13, 0);
    assert(s14 == (MState { pc: 14, a: 0, d: t, ram: r3, ..s0 }));
    lemma_step_c(rp, s14, CIns::Mdec);
    assert(s15 == (MState { pc: 15, a: 0, d: t, ram: r4, ..s0 }));
    lemma_step_c(rp, s15, CIns::AfromM);
    assert(s16 == (MState { pc: 16, a: sp, d: t, ram: r4, ..s0 }));
    lemma_step_c(rp, s16, CIns::DfromM);
    assert(s17 == (MState { pc: 17, a: sp, d: k, ram: r4, ..s0 }));
    lemma_step_at(rp, s17, 13);
    assert(s18 == (MState { pc: 18, a: 13, d: k, ram: r4, ..s0 }));
    lemma_step_c(rp, s18, CIns::AfromM);
    assert(s19 == (MState { pc: 19, a: t, d: k, ram: r4, ..s0 }));
    lemma_step_c(rp, s19, CIns::MfromD);
    assert(s20 == (MState { pc: 20, a: t, d: k, ram: r5, ..s0 }));
    assert(spec_run(rp, s0, 20) == s20) by {
        assert(spec_run(rp, s0, 20) == spec_run(rp, s1, 19));
        assert(spec_run(rp, s1, 19) == spec_run(rp, s2, 18));
        assert(spec_run(rp, s2, 18) == spec_run(rp, s3, 17));
        assert(spec_run(rp, s3, 17) == spec_run(rp, s4, 16));
        assert(spec_run(rp, s4, 16) == spec_run(rp, s5, 15));
        assert(spec_run(rp, s5, 15) == spec_run(rp, s6, 14));
        assert(spec_run(rp, s6, 14) == spec_run(rp, s7, 13));
        assert(spec_run(rp, s7, 13) == spec_run(rp, s8, 12));
        assert(spec_run(rp, s8, 12) == spec_run(rp, s9, 11));
        assert(spec_run(rp, s9, 11) == spec_run(rp, s10, 10));
        assert(spec_run(rp, s10, 10) == spec_run(rp, s11, 9));
        assert(spec_run(rp, s11, 9) == spec_run(rp, s12, 8));
        assert(spec_run(rp, s12, 8) == spec_run(rp, s13, 7));
        assert(spec_run(rp, s13, 7) == spec_run(rp, s14, 6));
        assert(spec_run(rp, s14, 6) == spec_run(rp, s15, 5));
        assert(spec_run(rp, s15, 5) == spec_run(rp, s16, 4));
        assert(spec_run(rp, s16, 4) == spec_run(rp, s17, 3));
        assert(spec_run(rp, s17, 3) == spec_run(rp, s18, 2));
        assert(spec_run(rp, s18, 2) == spec_run(rp, s19, 1));
        assert(spec_run(rp, s19, 1) == spec_run(rp, s20, 0));
    }
    assert(s20.ram[t as int] == k);
    assert(t != 0 ==> s20.ram[0] == sp);
}

/// The effect of the shared instruction pair on a directly addressed
/// segment.
#[verifier::rlimit(100)]
proof fn lemma_round_trip_direct(unit: Seq<char>, k: u16, seg: MemorySegment, i: u16, s0: MState)
    requires
        seg == MemorySegment::Static || seg == MemorySegment::Pointer || seg
            == MemorySegment::Temp,
        pop_valid(seg, i),
        seg == MemorySegment::Static ==> i <= 0xffff - 16,
        spec_ready(s0),
    ensures
        ({
            let prog = spec_resolve(
                spec_push_instrs(unit, MemorySegment::Constant, k) + spec_pop_instrs(
                    unit,
                    seg,
                    i,
                ),
            );
            let sf = spec_run(prog, s0, prog.len() as nat);
            let cell = spec_seg_cell(s0, seg, i);
            sf.ram[cell as int] == k && (cell != 0 ==> sf.ram[0] == s0.ram[0])
        }),
{
    let pi = spec_push_instrs(unit, MemorySegment::Constant, k) + spec_pop_instrs(unit, seg, i);
    let prog = spec_resolve(pi);
    let sp = s0.ram[0] as u16;
    let c: u16 = if seg == MemorySegment::Static {
        (16 + i) as u16
    } else if seg == MemorySegment::Pointer {
        if i == 0 {
            3
        } else {
            4
        }
    } else {
        (5 + i) as u16
    };
    let rp = seq![
        RInstr::At(k),
        RInstr::C(CIns::DfromA),
        RInstr::At(0),
        RInstr::C(CIns::AfromM),
        RInstr::C(CIns::MfromD),
        RInstr::At(0),
        RInstr::C(CIns::Minc),
        RInstr::At(0),
        RInstr::C(CIns::Mdec),
        RInstr::C(CIns::AfromM),
        RInstr::C(CIns::DfromM),
        RInstr::At(c),
        RInstr::C(CIns::MfromD),
    ];
    assert(prog =~= rp);
    let r1 = s0.ram.update(sp as int, k);
    let r2 = r1.update(0, wadd(sp, 1) as u16);
    let r3 = r2.update(0, sp);
    let r4 = r3.update(c as int, k);
    let s1 = spec_step(rp, s0);
    let s2 = spec_step(rp, s1);
    let s3 = spec_step(rp, s2);
    let s4 = spec_step(rp, s3);
    let s5 = spec_step(rp, s4);
    let s6 = spec_step(rp, s5);
    let s7 = spec_step(rp, s6);
    let s8 = spec_step(rp, s7);
    let s9 = spec_step(rp, s8);
    let s10 = spec_step(rp, s9);
    let s11 = spec_step(rp, s10);
    let s12 = spec_step(rp, s11);
    let s13 = spec_step(rp, s12);
    lemma_step_at(rp, s0, k);
    assert(s1 == (MState { pc: 1, a: k, ..s0 }));
    lemma_step_c(rp, s1, CIns::DfromA);
    assert(s2 == (MState { pc: 2, a: k, d: k, ..s0 }));
    lemma_step_at(rp, s2, 0);
    assert(s3 == (MState { pc: 3, a: 0, d: k, ..s0 }));
    lemma_step_c(rp, s3, CIns::AfromM);
    assert(s4 == (MState { pc: 4, a: sp, d: k, ..s0 }));
    lemma_step_c(rp, s4, CIns::MfromD);
    assert(s5 == (MState { pc: 5, a: sp, d: k, ram: r1, ..s0 }));
    lemma_step_at(rp, s5, 0);
    assert(s6 == (MState { pc: 6, a: 0, d: k, ram: r1, ..s0 }));
    lemma_step_c(rp, s6, CIns::Minc);
    assert(s7 == (MState { pc: 7, a: 0, d: k, ram: r2, ..s0 }));
    lemma_step_at(rp, s7, 0);
    assert(s8 == (MState { pc: 8, a: 0, d: k, ram: r2, ..s0 }));
    lemma_step_c(rp, s8, CIns::Mdec);
    assert(s9 == (MState { pc: 9, a: 0, d: k, ram: r3, ..s0 }));
    lemma_step_c(rp, s9, CIns::AfromM);
    assert(s10 == (MState { pc: 10, a: sp, d: k, ram: r3, ..s0 }));
    lemma_step_c(rp, s10, CIns::DfromM);
    assert(s11 == (MState { pc: 11, a: sp, d: k, ram: r3, ..s0 }));
    lemma_step_at(rp, s11, c);
    assert(s12 == (MState { pc: 12, a: c, d: k, ram: r3, ..s0 }));
    lemma_step_c(rp, s12, CIns::MfromD);
    assert(s13 == (MState { pc: 13, a: c, d: k, ram: r4, ..s0 }));
    assert(spec_run(rp, s0, 13) == s13) by {
        assert(spec_run(rp, s0, 13) == spec_run(rp, s1, 12));
        assert(spec_run(rp, s1, 12) == spec_run(rp, s2, 11));
        assert(spec_run(rp, s2, 11) == spec_run(rp, s3, 10));
        assert(spec_run(rp, s3, 10) == spec_run(rp, s4, 9));
        assert(spec_run(rp, s4, 9) == spec_run(rp, s5, 8));
        assert(spec_run(rp, s5, 8) == spec_run(rp, s6, 7));
        assert(spec_run(rp, s6, 7) == spec_run(rp, s7, 6));
        assert(spec_run(rp, s7, 6) == spec_run(rp, s8, 5));
        assert(spec_run(rp, s8, 5) == spec_run(rp, s9, 4));
        assert(spec_run(rp, s9, 4) == spec_run(rp, s10, 3));
        assert(spec_run(rp, s10, 3) == spec_run(rp, s11, 2));
        assert(spec_run(rp, s11, 2) == spec_run(rp, s12, 1));
        assert(spec_run(rp, s12, 1) == spec_run(rp, s13, 0));
    }
    assert(s13.ram[c as int] == k);
    assert(c != 0 ==> s13.ram[0] == sp);
}

/// `push constant k` immediately followed by `pop seg i` round-trips
/// for every non-constant segment: after the two sequences run, the
/// segment's cell holds exactly `k`, and the stack pointer is back at
/// its starting value (unless the pop's own target is the stack
/// pointer cell itself).
pub proof fn lemma_push_pop_round_trip(
    unit: Seq<char>,
    k: u16,
    seg: MemorySegment,
    i: u16,
    s0: MState,
)
    requires
        pop_valid(seg, i),
        seg == MemorySegment::Static ==> i <= 0xffff - 16,
        spec_ready(s0),
    ensures
        ({
            let prog = spec_resolve(
                spec_push_instrs(unit, MemorySegment::Constant, k) + spec_pop_instrs(
                    unit,
                    seg,
                    i,
                ),
            );
            let sf = spec_run(prog, s0, prog.len() as nat);
            let cell = spec_seg_cell(s0, seg, i);
            sf.ram[cell as int] == k && (cell != 0 ==> sf.ram[0] == s0.ram[0])
        }),
{
    if seg == MemorySegment::Local || seg == MemorySegment::Argument || seg
        == MemorySegment::This || seg == MemorySegment::That {
        lemma_round_trip_indirect(unit, k, seg, i, s0);
    } else {
        lemma_round_trip_direct(unit, k, seg, i, s0);
    }
}

/// The memory after the prologue loop has pushed `cnt` zero words from
/// stack position `sp`: the words are zeroed one by one and the stack
/// pointer advanced past each.
pub open spec fn spec_alloc(ram: Seq<u16>, sp: u16, cnt: u16) -> Seq<u16>
    decreases cnt,
{
    if cnt == 0 {
        ram
    } else {
        spec_alloc(ram.update(sp as int, 0).update(0, wadd(sp, 1)), wadd(sp, 1), (cnt - 1) as u16)
    }
}

/// What [`spec_alloc`] does cell by cell.
proof fn lemma_alloc_props(ram: Seq<u16>, sp: u16, cnt: u16)
    requires
        ram.len() == 0x10000,
        256 <= sp,
        sp + cnt < 0x8000,
        ram[0] == sp,
    ensures
        spec_alloc(ram, sp, cnt).len() == ram.len(),
        spec_alloc(ram, sp, cnt)[0] == sp + cnt,
        forall|x: int| sp <= x < sp + cnt ==> spec_alloc(ram, sp, cnt)[x] == 0,
        forall|x: int|
            0 < x < 0x10000 && !(sp <= x < sp + cnt) ==> spec_alloc(ram, sp, cnt)[x] == ram[x],
    decreases cnt,
{
    if cnt > 0 {
        let ram1 = ram.update(sp as int, 0).update(0, wadd(sp, 1));
        assert(wadd(sp, 1) == sp + 1);
        lemma_alloc_props(ram1, (sp + 1) as u16, (cnt - 1) as u16);
        let rec = spec_alloc(ram1, (sp + 1) as u16, (cnt - 1) as u16);
        assert(spec_alloc(ram, sp, cnt) == rec);
        assert forall|x: int| sp <= x < sp + cnt implies spec_alloc(ram, sp, cnt)[x] == 0 by {
            if x == sp {
                assert(rec[x] == ram1[x]);
            } else {
                assert(rec[x] == 0);
            }
        }
        assert forall|x: int|
            0 < x < 0x10000 && !(sp <= x < sp + cnt) implies spec_alloc(ram, sp, cnt)[x]
            == ram[x] by {
            assert(rec[x] == ram1[x]);
        }
    }
}

/// One pass of the prologue loop body per pending local, then the exit
/// branch: from the loop head with `cnt` locals left, the loop zeroes
/// and skips `cnt` stack words and halts at the end of the prologue.
#[verifier::rlimit(100)]
proof fn lemma_prologue_iters(rp: Seq<RInstr>, n: u16, s: MState, cnt: u16)
    requires
        rp == seq![
            RInstr::Mark,
            RInstr::At(n),
            RInstr::C(CIns::DfromA),
            RInstr::Mark,
            RInstr::At(14),
            RInstr::C(CIns::JumpEq),
            RInstr::C(CIns::Ddec),
            RInstr::At(0),
            RInstr::C(CIns::AfromM),
            RInstr::C(CIns::MsetZero),
            RInstr::At(0),
            RInstr::C(CIns::Minc),
            RInstr::At(3),
            RInstr::C(CIns::Jump),
            RInstr::Mark,
        ],
        s.ram.len() == 0x10000,
        s.pc == 4,
        s.d == cnt,
        256 <= s.ram[0],
        s.ram[0] + cnt < 0x8000,
    ensures
        spec_run(rp, s, 11 * cnt as nat + 3) == (MState {
            pc: 15,
            a: 14,
            d: 0,
            ram: spec_alloc(s.ram, s.ram[0], cnt),
        }),
    decreases cnt,
{
    let sp = s.ram[0];
    let t1 = spec_step(rp, s);
    lemma_step_at(rp, s, 14);
    assert(t1 == (MState { pc: 5, a: 14, ..s }));
    let t2 = spec_step(rp, t1);
    lemma_step_c(rp, t1, CIns::JumpEq);
    if cnt == 0 {
        assert(t2 == (MState { pc: 14, a: 14, ..s }));
        let t3 = spec_step(rp, t2);
        lemma_step_mark(rp, t2);
        assert(t3 == (MState { pc: 15, a: 14, d: 0, ram: s.ram }));
        assert(spec_run(rp, s, 3) == t3) by {
            assert(spec_run(rp, s, 3) == spec_run(rp, t1, 2));
            assert(spec_run(rp, t1, 2) == spec_run(rp, t2, 1));
            assert(spec_run(rp, t2, 1) == spec_run(rp, t3, 0));
        }
    } else {
        assert(t2 == (MState { pc: 6, a: 14, ..s }));
        let t3 = spec_step(rp, t2);
        lemma_step_c(rp, t2, CIns::Ddec);
        assert(t3 == (MState { pc: 7, a: 14, d: (cnt - 1) as u16, ..s }));
        let t4 = spec_step(rp, t3);
        lemma_step_at(rp, t3, 0);
        assert(t4 == (MState { pc: 8, a: 0, d: (cnt - 1) as u16, ..s }));
        let t5 = spec_step(rp, t4);
        lemma_step_c(rp, t4, CIns::AfromM);
        assert(t5 == (MState { pc: 9, a: sp, d: (cnt - 1) as u16, ..s }));
        let t6 = spec_step(rp, t5);
        lemma_step_c(rp, t5, CIns::MsetZero);
        let r1 = s.ram.update(sp as int, 0);
        assert(t6 == (MState { pc: 10, a: sp, d: (cnt - 1) as u16, ram: r1, ..s }));
        let t7 = spec_step(rp, t6);
        lemma_step_at(rp, t6, 0);
        assert(t7 == (MState { pc: 11, a: 0, d: (cnt - 1) as u16, ram: r1, ..s }));
        let t8 = spec_step(rp, t7);
        lemma_step_c(rp, t7, CIns::Minc);
        let r2 = r1.update(0, wadd(sp, 1));
        assert(r1[0] == sp);
        assert(t8 == (MState { pc: 12, a: 0, d: (cnt - 1) as u16, ram: r2, ..s }));
        let t9 = spec_step(rp, t8);
        lemma_step_at(rp, t8, 3);
        assert(t9 == (MState { pc: 13, a: 3, d: (cnt - 1) as u16, ram: r2, ..s }));
        let t10 = spec_step(rp, t9);
        lemma_step_c(rp, t9, CIns::Jump);
        assert(t10 == (MState { pc: 3, a: 3, d: (cnt - 1) as u16, ram: r2, ..s }));
        let t11 = spec_step(rp, t10);
        lemma_step_mark(rp, t10);
        assert(t11 == (MState { pc: 4, a: 3, d: (cnt - 1) as u16, ram: r2, ..s }));
        assert(wadd(sp, 1) == sp + 1);
        assert(t11.ram[0] == sp + 1);
        lemma_prologue_iters(rp, n, t11, (cnt - 1) as u16);
        assert(spec_run(rp, s, 11) == t11) by {
            assert(spec_run(rp, s, 11) == spec_run(rp, t1, 10));
            assert(spec_run(rp, t1, 10) == spec_run(rp, t2, 9));
            assert(spec_run(rp, t2, 9) == spec_run(rp, t3, 8));
            assert(spec_run(rp, t3, 8) == spec_run(rp, t4, 7));
            assert(spec_run(rp, t4, 7) == spec_run(rp, t5, 6));
            assert(spec_run(rp, t5, 6) == spec_run(rp, t6, 5));
            assert(spec_run(rp, t6, 5) == spec_run(rp, t7, 4));
            assert(spec_run(rp, t7, 4) == spec_run(rp, t8, 3));
            assert(spec_run(rp, t8, 3) == spec_run(rp, t9, 2));
            assert(spec_run(rp, t9, 2) == spec_run(rp, t10, 1));
            assert(spec_run(rp, t10, 1) == spec_run(rp, t11, 0));
        }
        lemma_run_add(rp, s, 11, 11 * (cnt - 1) as nat + 3);
        assert(11 * cnt as nat + 3 == 11 + (11 * (cnt - 1) as nat + 3)) by (nonlinear_arith)
            requires cnt >= 1;
        assert(spec_alloc(s.ram, sp, cnt) == spec_alloc(r2, (sp + 1) as u16, (cnt - 1) as u16));
    }
}

/// The prologue of `function f n` allocates exactly `n` zero
/// -initialized slots above the stack pointer, advances the stack
/// pointer past them, touches no other cell, and halts at its own end
/// before any subsequent instruction runs.
#[verifier::rlimit(100)]
pub proof fn lemma_function_prologue(f: Seq<char>, n: u16, s0: MState)
    requires
        spec_ready(s0),
        s0.ram[0] + n < 0x8000,
    ensures
        ({
            let prog = spec_resolve(spec_function_instrs(f, n));
            let sf = spec_run(prog, s0, 11 * n as nat + 7);
            let sp = s0.ram[0];
            &&& sf.pc == prog.len()
            &&& sf.ram.len() == s0.ram.len()
            &&& sf.ram[0] == sp + n
            &&& forall|x: int| sp <= x < sp + n ==> sf.ram[x] == 0
            &&& forall|x: int|
                0 < x < 0x10000 && !(sp <= x < sp + n) ==> sf.ram[x] == s0.ram[x]
        }),
{
    let pi = spec_function_instrs(f, n);
    let prog = spec_resolve(pi);
    let sp = s0.ram[0];
    let l = spec_fn_loop_label(f, n);
    let e = spec_fn_end_label(f, n);
    lemma_dec_len(n as nat);
    reveal_strlit("$arg.");
    reveal_strlit(".end");
    assert(l.len() >= f.len() + 6);
    assert(e.len() == l.len() + 4);
    assert(f != l && f != e && l != e);
    assert(crate::machine::spec_find_mark(pi, l) == 3) by {
        assert(crate::machine::spec_find_mark_from(pi, l, 0) == crate::machine::spec_find_mark_from(pi, l, 1));
        assert(crate::machine::spec_find_mark_from(pi, l, 1) == crate::machine::spec_find_mark_from(pi, l, 2));
        assert(crate::machine::spec_find_mark_from(pi, l, 2) == crate::machine::spec_find_mark_from(pi, l, 3));
        assert(crate::machine::spec_find_mark_from(pi, l, 3) == 3);
    }
    assert(crate::machine::spec_find_mark(pi, e) == 14) by {
        assert(crate::machine::spec_find_mark_from(pi, e, 0) == crate::machine::spec_find_mark_from(pi, e, 1));
        assert(crate::machine::spec_find_mark_from(pi, e, 1) == crate::machine::spec_find_mark_from(pi, e, 2));
        assert(crate::machine::spec_find_mark_from(pi, e, 2) == crate::machine::spec_find_mark_from(pi, e, 3));
        assert(crate::machine::spec_find_mark_from(pi, e, 3) == crate::machine::spec_find_mark_from(pi, e, 4));
        assert(crate::machine::spec_find_mark_from(pi, e, 4) == crate::machine::spec_find_mark_from(pi, e, 5));
        assert(crate::machine::spec_find_mark_from(pi, e, 5) == crate::machine::spec_find_mark_from(pi, e, 6));
        assert(crate::machine::spec_find_mark_from(pi, e, 6) == crate::machine::spec_find_mark_from(pi, e, 7));
        assert(crate::machine::spec_find_mark_from(pi, e, 7) == crate::machine::spec_find_mark_from(pi, e, 8));
        assert(crate::machine::spec_find_mark_from(pi, e, 8) == crate::machine::spec_find_mark_from(pi, e, 9));
        assert(crate::machine::spec_find_mark_from(pi, e, 9) == crate::machine::spec_find_mark_from(pi, e, 10));
        assert(crate::machine::spec_find_mark_from(pi, e, 10) == crate::machine::spec_find_mark_from(pi, e, 11));
        assert(crate::machine::spec_find_mark_from(pi, e, 11) == crate::machine::spec_find_mark_from(pi, e, 12));
        assert(crate::machine::spec_find_mark_from(pi, e, 12) == crate::machine::spec_find_mark_from(pi, e, 13));
        assert(crate::machine::spec_find_mark_from(pi, e, 13) == crate::machine::spec_find_mark_from(pi, e, 14));
        assert(crate::machine::spec_find_mark_from(pi, e, 14) == 14);
    }
    let rp = seq![
        RInstr::Mark,
        RInstr::At(n),
        RInstr::C(CIns::DfromA),
        RInstr::Mark,
        RInstr::At(14),
        RInstr::C(CIns::JumpEq),
        RInstr::C(CIns::Ddec),
        RInstr::At(0),
        RInstr::C(CIns::AfromM),
        RInstr::C(CIns::MsetZero),
        RInstr::At(0),
        RInstr::C(CIns::Minc),
        RInstr::At(3),
        RInstr::C(CIns::Jump),
        RInstr::Mark,
    ];
    assert(prog =~= rp);
    let t1 = spec_step(rp, s0);
    lemma_step_mark(rp, s0);
    assert(t1 == (MState { pc: 1, ..s0 }));
    let t2 = spec_step(rp, t1);
    lemma_step_at(rp, t1, n);
    assert(t2 == (MState { pc: 2, a: n, ..s0 }));
    let t3 = spec_step(rp, t2);
    lemma_step_c(rp, t2, CIns::DfromA);
    assert(t3 == (MState { pc: 3, a: n, d: n, ..s0 }));
    let t4 = spec_step(rp, t3);
    lemma_step_mark(rp, t3);
    assert(t4 == (MState { pc: 4, a: n, d: n, ..s0 }));
    assert(spec_run(rp, s0, 4) == t4) by {
        assert(spec_run(rp, s0, 4) == spec_run(rp, t1, 3));
        assert(spec_run(rp, t1, 3) == spec_run(rp, t2, 2));
        assert(spec_run(rp, t2, 2) == spec_run(rp, t3, 1));
        assert(spec_run(rp, t3, 1) == spec_run(rp, t4, 0));
    }
    lemma_prologue_iters(rp, n, t4, n);
    lemma_run_add(rp, s0, 4, 11 * n as nat + 3);
    lemma_alloc_props(s0.ram, sp, n);
}

} // verus!
