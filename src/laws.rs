//! Properties of every conversion, proved over the model that
//! `circom_to_bulletproofs` is verified against.

use vstd::prelude::*;
use crate::conversion::{
    coeff_at, conversion_error, conversion_outcome, converted_circuit, converted_witness,
    term_in_range, ArithmeticCircuit, CircomCircuit, ConversionError, PaddedWitness,
};
use crate::padding::{is_power_of_two, lemma_padded_dimension, padded_len};
use crate::scalar::{neg, zero, Scalar};

verus! {

/// No two entries of `t` name the same variable.
pub open spec fn distinct_indices(t: Seq<(usize, Scalar)>) -> bool {
    forall|j1: int, j2: int|
        0 <= j1 < t.len() && 0 <= j2 < t.len() && j1 != j2 ==> (#[trigger] t[j1]).0 != (
        #[trigger] t[j2]).0
}

proof fn lemma_coeff_outside(t: Seq<(usize, Scalar)>, n: nat, k: int)
    requires
        term_in_range(t, n),
        k >= n,
    ensures
        coeff_at(t, k) is None,
    decreases t.len(),
{
    if t.len() > 0 {
        assert(t.last() == t[t.len() - 1]);
        lemma_coeff_outside(t.drop_last(), n, k);
    }
}

proof fn lemma_coeff_entry(t: Seq<(usize, Scalar)>, j: int)
    requires
        distinct_indices(t),
        0 <= j < t.len(),
    ensures
        coeff_at(t, t[j].0 as int) == Some(t[j].1),
    decreases t.len(),
{
    if j != t.len() - 1 {
        let s = t.drop_last();
        assert(t[t.len() - 1] != t[j]);
        assert(s[j] == t[j]);
        assert forall|j1: int, j2: int|
            0 <= j1 < s.len() && 0 <= j2 < s.len() && j1 != j2 implies (#[trigger] s[j1]).0 != (
            #[trigger] s[j2]).0 by {
            assert(s[j1] == t[j1] && s[j2] == t[j2]);
        }
        lemma_coeff_entry(s, j);
    }
}

/// Every row of the converted circuit, and every vector of the padded witness,
/// is as wide as the padded dimension: a power of two, at least the number of
/// variables, the least such, and the number of variables itself where that
/// is a power of two. There is one row per constraint.
pub proof fn lemma_dimensions(cc: CircomCircuit)
    requires
        conversion_error(cc) is None,
    ensures
        ({
            let n = cc.r1cs.num_variables as nat;
            let width = padded_len(n);
            let m = cc.r1cs.constraints@.len();
            let circuit = converted_circuit(cc.r1cs);
            let witness = converted_witness(cc.r1cs, cc.witness->0@);
            &&& is_power_of_two(width)
            &&& n <= width
            &&& width == 1 || width / 2 < n
            &&& is_power_of_two(n) ==> width == n
            &&& circuit.w_l.len() == m && circuit.w_r.len() == m && circuit.w_o.len() == m
            &&& circuit.w_v.len() == m && circuit.c.len() == m
            &&& forall|i: int|
                0 <= i < m ==> (#[trigger] circuit.w_l[i]).len() == width && circuit.w_r[i].len()
                    == width && circuit.w_o[i].len() == width && circuit.w_v[i].len() == width
            &&& witness.a_l.len() == width && witness.a_r.len() == width
            &&& witness.a_o.len() == width && witness.v.len() == width
            &&& witness.gamma.len() == width
        }),
{
    lemma_padded_dimension(cc.r1cs.num_variables as nat);
}

/// Padding adds nothing: from column `num_variables` on, every matrix entry and
/// every value entry is zero; the constants, the wire assignments and the
/// blinding factors are zero throughout.
pub proof fn lemma_padding_is_zero(cc: CircomCircuit)
    requires
        conversion_error(cc) is None,
    ensures
        forall|i: int, k: int|
            0 <= i < cc.r1cs.constraints@.len() && cc.r1cs.num_variables <= k < padded_len(
                cc.r1cs.num_variables as nat,
            ) ==> #[trigger] converted_circuit(cc.r1cs).w_l[i][k] == zero()
                && converted_circuit(cc.r1cs).w_r[i][k] == zero()
                && converted_circuit(cc.r1cs).w_o[i][k] == zero()
                && converted_circuit(cc.r1cs).w_v[i][k] == zero(),
        forall|i: int|
            0 <= i < cc.r1cs.constraints@.len() ==> #[trigger] converted_circuit(cc.r1cs).c[i]
                == zero(),
        forall|k: int|
            cc.r1cs.num_variables <= k < padded_len(cc.r1cs.num_variables as nat)
                ==> #[trigger] converted_witness(cc.r1cs, cc.witness->0@).v[k] == zero(),
        forall|k: int|
            0 <= k < padded_len(cc.r1cs.num_variables as nat) ==> #[trigger] converted_witness(
                cc.r1cs,
                cc.witness->0@,
            ).a_l[k] == zero() && converted_witness(cc.r1cs, cc.witness->0@).a_r[k] == zero()
                && converted_witness(cc.r1cs, cc.witness->0@).a_o[k] == zero() && converted_witness(
                cc.r1cs,
                cc.witness->0@,
            ).gamma[k] == zero(),
{
    let n = cc.r1cs.num_variables as nat;
    let cs = cc.r1cs.constraints@;
    assert forall|i: int, k: int|
        0 <= i < cs.len() && n <= k < padded_len(n) implies #[trigger] converted_circuit(
        cc.r1cs,
    ).w_l[i][k] == zero() && converted_circuit(cc.r1cs).w_r[i][k] == zero() && converted_circuit(
        cc.r1cs,
    ).w_o[i][k] == zero() && converted_circuit(cc.r1cs).w_v[i][k] == zero() by {
        assert(term_in_range(cs[i].a@, n));
        lemma_coeff_outside(cs[i].a@, n, k);
        lemma_coeff_outside(cs[i].b@, n, k);
        lemma_coeff_outside(cs[i].c@, n, k);
    }
}

/// Each coefficient lands in the row of its constraint and the column of its
/// variable: `A` unchanged in `w_l`, `B` unchanged in `w_r`, `C` negated in
/// `w_o`; each side names a variable at most once.
pub proof fn lemma_coefficient_placement(cc: CircomCircuit)
    requires
        conversion_error(cc) is None,
        forall|i: int|
            0 <= i < cc.r1cs.constraints@.len() ==> distinct_indices(
                (#[trigger] cc.r1cs.constraints@[i]).a@,
            ) && distinct_indices(cc.r1cs.constraints@[i].b@) && distinct_indices(
                cc.r1cs.constraints@[i].c@,
            ),
    ensures
        forall|i: int, j: int|
            0 <= i < cc.r1cs.constraints@.len() && 0 <= j < cc.r1cs.constraints@[i].a@.len()
                ==> #[trigger] converted_circuit(cc.r1cs).w_l[i][cc.r1cs.constraints@[i].a@[j].0 as int]
                == cc.r1cs.constraints@[i].a@[j].1,
        forall|i: int, j: int|
            0 <= i < cc.r1cs.constraints@.len() && 0 <= j < cc.r1cs.constraints@[i].b@.len()
                ==> #[trigger] converted_circuit(cc.r1cs).w_r[i][cc.r1cs.constraints@[i].b@[j].0 as int]
                == cc.r1cs.constraints@[i].b@[j].1,
        forall|i: int, j: int|
            0 <= i < cc.r1cs.constraints@.len() && 0 <= j < cc.r1cs.constraints@[i].c@.len()
                ==> #[trigger] converted_circuit(cc.r1cs).w_o[i][cc.r1cs.constraints@[i].c@[j].0 as int]
                == neg(cc.r1cs.constraints@[i].c@[j].1),
{
    let n = cc.r1cs.num_variables as nat;
    let cs = cc.r1cs.constraints@;
    lemma_padded_dimension(n);
    assert forall|i: int, j: int| 0 <= i < cs.len() && 0 <= j < cs[i].a@.len() implies
        #[trigger] converted_circuit(cc.r1cs).w_l[i][cs[i].a@[j].0 as int] == cs[i].a@[j].1 by {
        assert(term_in_range(cs[i].a@, n) && cs[i].a@[j].0 < n);
        lemma_coeff_entry(cs[i].a@, j);
    }
    assert forall|i: int, j: int| 0 <= i < cs.len() && 0 <= j < cs[i].b@.len() implies
        #[trigger] converted_circuit(cc.r1cs).w_r[i][cs[i].b@[j].0 as int] == cs[i].b@[j].1 by {
        assert(term_in_range(cs[i].b@, n) && cs[i].b@[j].0 < n);
        lemma_coeff_entry(cs[i].b@, j);
    }
    assert forall|i: int, j: int| 0 <= i < cs.len() && 0 <= j < cs[i].c@.len() implies
        #[trigger] converted_circuit(cc.r1cs).w_o[i][cs[i].c@[j].0 as int] == neg(cs[i].c@[j].1) by {
        assert(term_in_range(cs[i].c@, n) && cs[i].c@[j].0 < n);
        lemma_coeff_entry(cs[i].c@, j);
    }
}

/// Two conversions of the same input give the same error, or circuits and
/// witnesses that agree entry for entry, limb for limb.
pub proof fn lemma_conversion_deterministic(
    cc: CircomCircuit,
    r1: Result<(ArithmeticCircuit, PaddedWitness), ConversionError>,
    r2: Result<(ArithmeticCircuit, PaddedWitness), ConversionError>,
)
    requires
        conversion_outcome(cc, r1),
        conversion_outcome(cc, r2),
    ensures
        r1 is Ok <==> r2 is Ok,
        r1 is Ok ==> r1->Ok_0.0@ == r2->Ok_0.0@ && r1->Ok_0.1@ == r2->Ok_0.1@,
        r1 is Err ==> r1->Err_0 == r2->Err_0,
{
}

} // verus!
