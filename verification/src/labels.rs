//! The naming scheme for generated labels, and the proofs that it keeps
//! them distinct.
//!
//! Three families of labels are synthesized during translation: the
//! short-circuit labels of arithmetic comparisons (unit name plus a
//! unit-wide counter), the return-address labels of calls (enclosing
//! function name plus a per-function call-site counter), and the scoped
//! form of user labels (enclosing function name plus the raw label).
//! Each family embeds a decimal counter after a fixed separator, so
//! distinct counters give distinct labels.

use vstd::prelude::*;

use crate::text::{chars_to_string, dec_string, lemma_prefix_dec_injective, spec_dec};

verus! {

/// The short-circuit label of the `k`-th arithmetic translation within
/// the unit named `unit`.
pub open spec fn spec_arith_label(unit: Seq<char>, k: nat) -> Seq<char> {
    unit + "$Arith_True."@ + spec_dec(k)
}

/// The return-address label of the `rank`-th call site within the
/// function named `f`.
pub open spec fn spec_ret_label(f: Seq<char>, rank: nat) -> Seq<char> {
    f + "$ret."@ + spec_dec(rank)
}

/// The scoped form of the user label `l` inside the function named `f`.
pub open spec fn spec_scoped_label(f: Seq<char>, l: Seq<char>) -> Seq<char> {
    f + "$"@ + l
}

/// Builds the short-circuit label of the `k`-th arithmetic translation.
pub fn arith_label(unit: &String, k: u64) -> (r: String)
    ensures
        r@ == spec_arith_label(unit@, k as nat),
{
    let mut r = unit.clone();
    r.append("$Arith_True.");
    let d = dec_string(k);
    r.append(d.as_str());
    proof {
        assert(r@ =~= spec_arith_label(unit@, k as nat));
    }
    r
}

/// Builds the return-address label of the `rank`-th call site of `f`.
pub fn ret_label(f: &String, rank: u64) -> (r: String)
    ensures
        r@ == spec_ret_label(f@, rank as nat),
{
    let mut r = f.clone();
    r.append("$ret.");
    let d = dec_string(rank);
    r.append(d.as_str());
    proof {
        assert(r@ =~= spec_ret_label(f@, rank as nat));
    }
    r
}

/// Builds the scoped form of a raw user label inside function `f`.
pub fn scoped_label(f: &String, l: &[char]) -> (r: String)
    ensures
        r@ == spec_scoped_label(f@, l@),
{
    let mut r = f.clone();
    r.append("$");
    let t = chars_to_string(l);
    r.append(t.as_str());
    proof {
        assert(r@ =~= spec_scoped_label(f@, l@));
    }
    r
}

/// Two arithmetic translations in one unit never share a short-circuit
/// label: distinct values of the unit-wide counter give distinct
/// labels, so the label of a comparison and of any later comparison in
/// the same unit differ.
pub proof fn lemma_arith_labels_distinct(unit: Seq<char>, i: nat, j: nat)
    requires
        i != j,
    ensures
        spec_arith_label(unit, i) != spec_arith_label(unit, j),
{
    lemma_prefix_dec_injective(unit + "$Arith_True."@, i, j);
}

/// Two call sites in one function never share a return-address label:
/// distinct values of the call-site counter give distinct labels, so
/// two sequential calls (which use consecutive counter values) land on
/// distinct return addresses.
pub proof fn lemma_ret_labels_distinct(f: Seq<char>, i: nat, j: nat)
    requires
        i != j,
    ensures
        spec_ret_label(f, i) != spec_ret_label(f, j),
{
    lemma_prefix_dec_injective(f + "$ret."@, i, j);
}

} // verus!
