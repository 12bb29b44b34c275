//! Elements of the BN254 scalar field, held as four little-endian 64-bit limbs.

use vstd::prelude::*;
use ark_ff::{BigInteger, PrimeField};

verus! {

/// The radix of one limb, 2^64.
pub open spec fn limb_base() -> int {
    0x1_0000_0000int * 0x1_0000_0000int
}

/// The order p of the BN254 scalar field.
pub open spec fn modulus() -> int {
    (Scalar {
        limb0: 0x43e1f593f0000001,
        limb1: 0x2833e84879b97091,
        limb2: 0xb85045b68181585d,
        limb3: 0x30644e72e131a029,
    }).value()
}

/// The additive inverse of `v` in the integers modulo p, as its canonical
/// representative in `0..p`.
pub open spec fn neg_mod(v: int) -> int {
    (modulus() - v % modulus()) % modulus()
}

/// A field element as four 64-bit limbs, least significant first.
#[derive(Clone, Copy, Debug, PartialEq, Eq)]
pub struct Scalar {
    pub limb0: u64,
    pub limb1: u64,
    pub limb2: u64,
    pub limb3: u64,
}

/// The limbs of a non-negative integer below 2^256.
pub open spec fn scalar_of(v: int) -> Scalar {
    let b = limb_base();
    Scalar {
        limb0: (v % b) as u64,
        limb1: ((v / b) % b) as u64,
        limb2: ((v / (b * b)) % b) as u64,
        limb3: ((v / (b * b * b)) % b) as u64,
    }
}

/// The field's additive identity.
pub open spec fn zero() -> Scalar {
    Scalar { limb0: 0, limb1: 0, limb2: 0, limb3: 0 }
}

/// The additive inverse of `x`, as the field computes it.
pub open spec fn neg(x: Scalar) -> Scalar {
    scalar_of(neg_mod(x.value()))
}

impl Scalar {
    /// The integer that the limbs spell.
    pub open spec fn value(self) -> int {
        let b = limb_base();
        self.limb0 + b * (self.limb1 + b * (self.limb2 + b * self.limb3 as int))
    }

    /// The additive identity.
    pub fn zero() -> (r: Scalar)
        ensures
            r == zero(),
    {
        Scalar { limb0: 0, limb1: 0, limb2: 0, limb3: 0 }
    }

    /// The element that a machine word stands for.
    pub fn from_u64(n: u64) -> (r: Scalar)
        ensures
            r == (Scalar { limb0: n, limb1: 0, limb2: 0, limb3: 0 }),
            r.value() == n,
    {
        Scalar { limb0: n, limb1: 0, limb2: 0, limb3: 0 }
    }

    /// The additive inverse of `self` in the field.
    pub fn negate(self) -> (r: Scalar)
        ensures
            r == neg(self),
    {
        field_neg(self)
    }
}

/// Relies on ark-ff's `PrimeField::from_le_bytes_mod_order` (reduces the limbs
/// modulo p), `Neg` on `Fp` (the additive inverse) and `PrimeField::into_bigint`
/// (the canonical representative in `0..p`, as limbs) for the BN254 scalar field.
#[verifier::external_body]
fn field_neg(x: Scalar) -> (r: Scalar)
    ensures
        r == scalar_of(neg_mod(x.value())),
{
    let bytes = ark_ff::BigInt::new([x.limb0, x.limb1, x.limb2, x.limb3]).to_bytes_le();
    let f = ark_bn254::Fr::from_le_bytes_mod_order(&bytes);
    let limbs = (-f).into_bigint().0;
    Scalar { limb0: limbs[0], limb1: limbs[1], limb2: limbs[2], limb3: limbs[3] }
}

} // verus!
