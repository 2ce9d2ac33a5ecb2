//! Field-element model.
//!
//! The inference engine never computes in the field: it copies values,
//! fills gaps with zero, and (for poisoned cells) injects small integers.
//! A field element is therefore modelled as its canonical little-endian
//! 64-bit limbs.  Only multiplication — needed to state what the example
//! circuit's public instances are — is delegated to the proving library.
use vstd::prelude::*;

use halo2_axiom::halo2curves::bn256::Fr;
use halo2_axiom::halo2curves::ff::PrimeField;

verus! {

/// A BN254 scalar-field element, held as the four little-endian 64-bit
/// limbs of its canonical representation.
#[derive(Clone, Copy, Debug, PartialEq, Eq, Structural, Default, Hash)]
pub struct Fe {
    pub n0: u64,
    pub n1: u64,
    pub n2: u64,
    pub n3: u64,
}

/// What the proving library returns when two field elements are multiplied.
/// The product depends on the operands alone.
pub uninterp spec fn fe_mul(a: Fe, b: Fe) -> Fe;

/// Relies on halo2curves' BN254 scalar-field multiplication: `Fr::from_raw`
/// reduces the limbs into the field, `*` multiplies, and `to_repr` hands the
/// canonical little-endian bytes of the product back.
#[verifier::external_body]
pub(crate) fn fe_mul_exec(a: &Fe, b: &Fe) -> (r: Fe)
    ensures
        r == fe_mul(*a, *b),
{
    let x = Fr::from_raw([a.n0, a.n1, a.n2, a.n3]);
    let y = Fr::from_raw([b.n0, b.n1, b.n2, b.n3]);
    let p = (x * y).to_repr();
    Fe {
        n0: u64::from_le_bytes(p[0..8].try_into().unwrap()),
        n1: u64::from_le_bytes(p[8..16].try_into().unwrap()),
        n2: u64::from_le_bytes(p[16..24].try_into().unwrap()),
        n3: u64::from_le_bytes(p[24..32].try_into().unwrap()),
    }
}

/// The operations of a field that the engine itself relies on: the additive
/// identity and the injection of small integers.  Both are pinned down by
/// spec functions so that every contract over the engine's output is exact.
pub trait RawField: Sized + Copy {
    spec fn zero_spec() -> Self;

    spec fn from_u64_spec(n: u64) -> Self;

    fn zero() -> (r: Self)
        ensures
            r == Self::zero_spec(),
            Self::zero_spec() == Self::from_u64_spec(0),
    ;

    fn from_u64(n: u64) -> (r: Self)
        ensures
            r == Self::from_u64_spec(n),
    ;

    fn eq_value(&self, other: &Self) -> (r: bool)
        ensures
            r == (*self == *other),
    ;
}

/// A `RawField` that can also multiply; the product is pinned by a spec
/// function of the operands alone.
pub trait FieldExt: RawField {
    spec fn mul_spec(a: Self, b: Self) -> Self;

    fn mul(a: &Self, b: &Self) -> (r: Self)
        ensures
            r == Self::mul_spec(*a, *b),
    ;
}

impl RawField for Fe {
    open spec fn zero_spec() -> Fe {
        Fe { n0: 0, n1: 0, n2: 0, n3: 0 }
    }

    open spec fn from_u64_spec(n: u64) -> Fe {
        Fe { n0: n, n1: 0, n2: 0, n3: 0 }
    }

    fn zero() -> (r: Fe) {
        Fe { n0: 0, n1: 0, n2: 0, n3: 0 }
    }

    fn from_u64(n: u64) -> (r: Fe) {
        Fe { n0: n, n1: 0, n2: 0, n3: 0 }
    }

    fn eq_value(&self, other: &Fe) -> (r: bool) {
        self.n0 == other.n0 && self.n1 == other.n1 && self.n2 == other.n2
            && self.n3 == other.n3
    }
}

impl FieldExt for Fe {
    open spec fn mul_spec(a: Fe, b: Fe) -> Fe {
        fe_mul(a, b)
    }

    fn mul(a: &Fe, b: &Fe) -> (r: Fe) {
        fe_mul_exec(a, b)
    }
}

} // verus!
