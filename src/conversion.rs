//! From a rank-1 constraint system and its witness to a padded arithmetic
//! circuit `w_l·a_l + w_r·a_r + w_o·a_o = w_v·v + c` and its witness.

use vstd::prelude::*;
use crate::padding::{padded_len, padded_size};
use crate::scalar::{neg, zero, Scalar};

verus! {

/// One R1CS constraint `(A·w) ⊙ (B·w) = (C·w)`; each side is a sparse list of
/// `(variable index, coefficient)` pairs.
#[derive(Clone, Debug, PartialEq, Eq)]
pub struct Constraint {
    pub a: Vec<(usize, Scalar)>,
    pub b: Vec<(usize, Scalar)>,
    pub c: Vec<(usize, Scalar)>,
}

/// A rank-1 constraint system as a circuit front-end emits it.
#[derive(Clone, Debug, PartialEq, Eq)]
pub struct R1cs {
    /// Number of variables, the constant-one wire included.
    pub num_variables: usize,
    pub constraints: Vec<Constraint>,
    /// Where present, entry `j` is the witness slot that holds variable `j`.
    pub wire_mapping: Option<Vec<usize>>,
}

/// A constraint system together with the witness computed for it, if any.
#[derive(Clone, Debug, PartialEq, Eq)]
pub struct CircomCircuit {
    pub r1cs: R1cs,
    pub witness: Option<Vec<Scalar>>,
}

/// Weight matrices (one dense row per constraint) and constant vector.
#[derive(Clone, Debug, PartialEq, Eq)]
pub struct ArithmeticCircuit {
    pub w_l: Vec<Vec<Scalar>>,
    pub w_r: Vec<Vec<Scalar>>,
    pub w_o: Vec<Vec<Scalar>>,
    pub w_v: Vec<Vec<Scalar>>,
    pub c: Vec<Scalar>,
}

/// The wire assignments, value vector and blinding factors of the target format.
#[derive(Clone, Debug, PartialEq, Eq)]
pub struct PaddedWitness {
    pub a_l: Vec<Scalar>,
    pub a_r: Vec<Scalar>,
    pub a_o: Vec<Scalar>,
    pub v: Vec<Scalar>,
    pub gamma: Vec<Scalar>,
}

#[derive(Clone, Copy, Debug, PartialEq, Eq)]
pub enum ConversionError {
    /// No witness was computed for the circuit.
    MissingWitness,
    /// The circuit has no variables or no constraints.
    EmptyCircuit,
    /// A constraint refers to a variable index outside the circuit.
    InvalidConstraint,
}

/// The mathematical content of an `ArithmeticCircuit`.
pub struct CircuitModel {
    pub w_l: Seq<Seq<Scalar>>,
    pub w_r: Seq<Seq<Scalar>>,
    pub w_o: Seq<Seq<Scalar>>,
    pub w_v: Seq<Seq<Scalar>>,
    pub c: Seq<Scalar>,
}

/// The mathematical content of a `PaddedWitness`.
pub struct WitnessModel {
    pub a_l: Seq<Scalar>,
    pub a_r: Seq<Scalar>,
    pub a_o: Seq<Scalar>,
    pub v: Seq<Scalar>,
    pub gamma: Seq<Scalar>,
}

pub open spec fn matrix_view(m: Vec<Vec<Scalar>>) -> Seq<Seq<Scalar>> {
    m@.map_values(|row: Vec<Scalar>| row@)
}

impl View for ArithmeticCircuit {
    type V = CircuitModel;

    open spec fn view(&self) -> CircuitModel {
        CircuitModel {
            w_l: matrix_view(self.w_l),
            w_r: matrix_view(self.w_r),
            w_o: matrix_view(self.w_o),
            w_v: matrix_view(self.w_v),
            c: self.c@,
        }
    }
}

impl View for PaddedWitness {
    type V = WitnessModel;

    open spec fn view(&self) -> WitnessModel {
        WitnessModel {
            a_l: self.a_l@,
            a_r: self.a_r@,
            a_o: self.a_o@,
            v: self.v@,
            gamma: self.gamma@,
        }
    }
}

/// The coefficient that the last entry of `t` for variable `k` gives, if any.
pub open spec fn coeff_at(t: Seq<(usize, Scalar)>, k: int) -> Option<Scalar>
    decreases t.len(),
{
    if t.len() == 0 {
        None
    } else if t.last().0 == k {
        Some(t.last().1)
    } else {
        coeff_at(t.drop_last(), k)
    }
}

/// `width` zeros.
pub open spec fn zero_row(width: nat) -> Seq<Scalar> {
    Seq::new(width, |k: int| zero())
}

/// The dense row of `t`, `width` wide, its coefficients negated if `negate`.
pub open spec fn dense_row_of(t: Seq<(usize, Scalar)>, width: nat, negate: bool) -> Seq<Scalar> {
    Seq::new(
        width,
        |k: int|
            match coeff_at(t, k) {
                Some(x) => if negate { neg(x) } else { x },
                None => zero(),
            },
    )
}

/// Every index that `t` names is below `n`.
pub open spec fn term_in_range(t: Seq<(usize, Scalar)>, n: nat) -> bool {
    forall|j: int| 0 <= j < t.len() ==> (#[trigger] t[j]).0 < n
}

/// Every index that the constraints name is below `n`.
pub open spec fn constraints_in_range(cs: Seq<Constraint>, n: nat) -> bool {
    forall|i: int|
        0 <= i < cs.len() ==> term_in_range((#[trigger] cs[i]).a@, n) && term_in_range(cs[i].b@, n)
            && term_in_range(cs[i].c@, n)
}

/// The error that converting `cc` ends in, checked in this order, or `None`.
pub open spec fn conversion_error(cc: CircomCircuit) -> Option<ConversionError> {
    if cc.witness is None {
        Some(ConversionError::MissingWitness)
    } else if cc.r1cs.num_variables == 0 || cc.r1cs.constraints.len() == 0 {
        Some(ConversionError::EmptyCircuit)
    } else if !constraints_in_range(cc.r1cs.constraints@, cc.r1cs.num_variables as nat) {
        Some(ConversionError::InvalidConstraint)
    } else {
        None
    }
}

/// Entry `j` of the value vector: the witness value of variable `j`, through
/// the wire mapping where there is one, and zero where it resolves to nothing
/// and from `n` on.
pub open spec fn mapped_value(w: Seq<Scalar>, m: Option<Vec<usize>>, n: nat, j: int) -> Scalar {
    if j >= n {
        zero()
    } else {
        match m {
            Some(map) => if j < map@.len() && map@[j] < w.len() {
                w[map@[j] as int]
            } else {
                zero()
            },
            None => w[j],
        }
    }
}

/// The circuit that the conversion of `r` gives.
pub open spec fn converted_circuit(r: R1cs) -> CircuitModel {
    let width = padded_len(r.num_variables as nat);
    let cs = r.constraints@;
    CircuitModel {
        w_l: Seq::new(cs.len(), |i: int| dense_row_of(cs[i].a@, width, false)),
        w_r: Seq::new(cs.len(), |i: int| dense_row_of(cs[i].b@, width, false)),
        w_o: Seq::new(cs.len(), |i: int| dense_row_of(cs[i].c@, width, true)),
        w_v: Seq::new(cs.len(), |i: int| zero_row(width)),
        c: zero_row(cs.len()),
    }
}

/// The padded witness that the conversion of `r` with witness `w` gives.
pub open spec fn converted_witness(r: R1cs, w: Seq<Scalar>) -> WitnessModel {
    let n = r.num_variables as nat;
    let width = padded_len(n);
    WitnessModel {
        a_l: zero_row(width),
        a_r: zero_row(width),
        a_o: zero_row(width),
        v: Seq::new(width, |j: int| mapped_value(w, r.wire_mapping, n, j)),
        gamma: zero_row(width),
    }
}

/// What converting `cc` returns: the error of `conversion_error`, or else the
/// converted circuit and witness.
pub open spec fn conversion_outcome(
    cc: CircomCircuit,
    r: Result<(ArithmeticCircuit, PaddedWitness), ConversionError>,
) -> bool {
    match r {
        Ok((circuit, witness)) => conversion_error(cc) is None && circuit@ == converted_circuit(
            cc.r1cs,
        ) && witness@ == converted_witness(cc.r1cs, cc.witness->0@),
        Err(e) => conversion_error(cc) == Some(e),
    }
}

/// Sizes that a successful conversion can hold: the padded width fits in
/// `usize`, and without a wire mapping the witness has a value for every
/// variable.
pub open spec fn fits(cc: CircomCircuit) -> bool {
    conversion_error(cc) is None ==> {
        &&& cc.r1cs.num_variables <= usize::MAX / 2 + 1
        &&& cc.r1cs.wire_mapping is None ==> cc.r1cs.num_variables <= cc.witness->0.len()
    }
}

fn zero_vector(width: usize) -> (r: Vec<Scalar>)
    ensures
        r@ == zero_row(width as nat),
{
    let mut r: Vec<Scalar> = Vec::new();
    let mut k: usize = 0;
    while k < width
        invariant
            k <= width,
            r@ =~= zero_row(k as nat),
        decreases width - k,
    {
        r.push(Scalar::zero());
        k += 1;
    }
    r
}

fn term_within(t: &Vec<(usize, Scalar)>, n: usize) -> (r: bool)
    ensures
        r == term_in_range(t@, n as nat),
{
    let mut j: usize = 0;
    while j < t.len()
        invariant
            j <= t@.len(),
            forall|q: int| 0 <= q < j ==> (#[trigger] t@[q]).0 < n,
        decreases t.len() - j,
    {
        if t[j].0 >= n {
            return false;
        }
        j += 1;
    }
    true
}

fn constraints_within(cs: &Vec<Constraint>, n: usize) -> (r: bool)
    ensures
        r == constraints_in_range(cs@, n as nat),
{
    let mut i: usize = 0;
    while i < cs.len()
        invariant
            i <= cs@.len(),
            forall|q: int|
                0 <= q < i ==> term_in_range((#[trigger] cs@[q]).a@, n as nat) && term_in_range(
                    cs@[q].b@,
                    n as nat,
                ) && term_in_range(cs@[q].c@, n as nat),
        decreases cs.len() - i,
    {
        let con = &cs[i];
        if !term_within(&con.a, n) || !term_within(&con.b, n) || !term_within(&con.c, n) {
            return false;
        }
        i += 1;
    }
    true
}

proof fn lemma_coeff_at_extend(t: Seq<(usize, Scalar)>, j: int, k: int)
    requires
        0 <= j < t.len(),
    ensures
        coeff_at(t.take(j + 1), k) == if t[j].0 == k {
            Some(t[j].1)
        } else {
            coeff_at(t.take(j), k)
        },
{
    assert(t.take(j + 1).drop_last() =~= t.take(j));
}

fn dense_row(t: &Vec<(usize, Scalar)>, width: usize, negate: bool) -> (r: Vec<Scalar>)
    requires
        term_in_range(t@, width as nat),
    ensures
        r@ == dense_row_of(t@, width as nat, negate),
{
    let mut r = zero_vector(width);
    let mut j: usize = 0;
    assert(t@.take(0) =~= Seq::<(usize, Scalar)>::empty());
    while j < t.len()
        invariant
            j <= t@.len(),
            term_in_range(t@, width as nat),
            r@ =~= dense_row_of(t@.take(j as int), width as nat, negate),
        decreases t.len() - j,
    {
        let idx = t[j].0;
        let coeff = t[j].1;
        assert(t@[j as int].0 < width);
        let entry = if negate {
            coeff.negate()
        } else {
            coeff
        };
        r.set(idx, entry);
        proof {
            assert forall|k: int| 0 <= k < width implies coeff_at(t@.take(j + 1), k) == if t@[j as int].0 == k {
                Some(t@[j as int].1)
            } else {
                coeff_at(t@.take(j as int), k)
            } by {
                lemma_coeff_at_extend(t@, j as int, k);
            }
        }
        j += 1;
    }
    assert(t@.take(t@.len() as int) =~= t@);
    r
}

fn witness_vector(w: &Vec<Scalar>, m: &Option<Vec<usize>>, n: usize, width: usize) -> (r: Vec<Scalar>)
    requires
        m is None ==> n <= w@.len(),
    ensures
        r@ == Seq::new(width as nat, |j: int| mapped_value(w@, *m, n as nat, j)),
{
    let mut r: Vec<Scalar> = Vec::new();
    let mut j: usize = 0;
    while j < width
        invariant
            j <= width,
            m is None ==> n <= w@.len(),
            r@ =~= Seq::new(j as nat, |q: int| mapped_value(w@, *m, n as nat, q)),
        decreases width - j,
    {
        let x = if j >= n {
            Scalar::zero()
        } else {
            match m {
                Some(map) => if j < map.len() && map[j] < w.len() {
                    w[map[j]]
                } else {
                    Scalar::zero()
                },
                None => w[j],
            }
        };
        r.push(x);
        j += 1;
    }
    r
}

/// Converts a constraint system with its witness into the padded arithmetic
/// circuit and witness of the proof engine. `A` goes to `w_l`, `B` to `w_r`,
/// the negated `C` to `w_o`; rows and vectors are padded with zeros to the
/// least power of two that holds every variable.
pub fn circom_to_bulletproofs(circom_circuit: &CircomCircuit) -> (r: Result<
    (ArithmeticCircuit, PaddedWitness),
    ConversionError,
>)
    requires
        fits(*circom_circuit),
    ensures
        conversion_outcome(*circom_circuit, r),
{
    let witness_values = match &circom_circuit.witness {
        Some(w) => w,
        None => return Err(ConversionError::MissingWitness),
    };
    let r1cs = &circom_circuit.r1cs;
    let num_constraints = r1cs.constraints.len();
    let num_variables = r1cs.num_variables;
    if num_variables == 0 || num_constraints == 0 {
        return Err(ConversionError::EmptyCircuit);
    }
    if !constraints_within(&r1cs.constraints, num_variables) {
        return Err(ConversionError::InvalidConstraint);
    }
    let width = padded_size(num_variables);
    let ghost target = converted_circuit(*r1cs);
    let mut w_l: Vec<Vec<Scalar>> = Vec::new();
    let mut w_r: Vec<Vec<Scalar>> = Vec::new();
    let mut w_o: Vec<Vec<Scalar>> = Vec::new();
    let mut w_v: Vec<Vec<Scalar>> = Vec::new();
    let mut i: usize = 0;
    while i < num_constraints
        invariant
            i <= num_constraints,
            num_constraints == r1cs.constraints@.len(),
            num_variables == r1cs.num_variables,
            num_variables <= width,
            width == padded_len(num_variables as nat),
            target == converted_circuit(*r1cs),
            constraints_in_range(r1cs.constraints@, num_variables as nat),
            matrix_view(w_l) =~= target.w_l.take(i as int),
            matrix_view(w_r) =~= target.w_r.take(i as int),
            matrix_view(w_o) =~= target.w_o.take(i as int),
            matrix_view(w_v) =~= target.w_v.take(i as int),
        decreases num_constraints - i,
    {
        let con = &r1cs.constraints[i];
        let ghost before = (matrix_view(w_l), matrix_view(w_r), matrix_view(w_o), matrix_view(w_v));
        let row_l = dense_row(&con.a, width, false);
        let row_r = dense_row(&con.b, width, false);
        let row_o = dense_row(&con.c, width, true);
        let row_v = zero_vector(width);
        assert(row_l@ == target.w_l[i as int]);
        w_l.push(row_l);
        w_r.push(row_r);
        w_o.push(row_o);
        w_v.push(row_v);
        assert(matrix_view(w_l) =~= before.0.push(target.w_l[i as int]));
        assert(matrix_view(w_r) =~= before.1.push(target.w_r[i as int]));
        assert(matrix_view(w_o) =~= before.2.push(target.w_o[i as int]));
        assert(matrix_view(w_v) =~= before.3.push(target.w_v[i as int]));
        i += 1;
    }
    let c = zero_vector(num_constraints);
    let v = witness_vector(witness_values, &r1cs.wire_mapping, num_variables, width);
    let circuit = ArithmeticCircuit { w_l, w_r, w_o, w_v, c };
    let witness = PaddedWitness {
        a_l: zero_vector(width),
        a_r: zero_vector(width),
        a_o: zero_vector(width),
        v,
        gamma: zero_vector(width),
    };
    assert(circuit@.w_l =~= target.w_l);
    assert(circuit@.w_r =~= target.w_r);
    assert(circuit@.w_o =~= target.w_o);
    assert(circuit@.w_v =~= target.w_v);
    assert(witness@.v =~= converted_witness(*r1cs, witness_values@).v);
    Ok((circuit, witness))
}

} // verus!
