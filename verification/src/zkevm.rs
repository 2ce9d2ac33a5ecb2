//! Getting a field scalar from the plain types a circuit builder uses.
use vstd::prelude::*;

use crate::field::FieldExt;

verus! {

/// A value that stands for a field scalar.
pub trait Scalar<F: FieldExt> {
    /// The scalar this value stands for.
    spec fn scalar_spec(&self) -> F;

    /// Returns a scalar for the type.
    fn scalar(&self) -> (r: F)
        ensures
            r == self.scalar_spec(),
    ;
}

impl<F: FieldExt> Scalar<F> for bool {
    open spec fn scalar_spec(&self) -> F {
        F::from_u64_spec(
            if *self {
                1
            } else {
                0
            },
        )
    }

    fn scalar(&self) -> (r: F) {
        F::from_u64(
            if *self {
                1
            } else {
                0
            },
        )
    }
}

impl<F: FieldExt> Scalar<F> for u8 {
    open spec fn scalar_spec(&self) -> F {
        F::from_u64_spec(*self as u64)
    }

    fn scalar(&self) -> (r: F) {
        F::from_u64(*self as u64)
    }
}

impl<F: FieldExt> Scalar<F> for u64 {
    open spec fn scalar_spec(&self) -> F {
        F::from_u64_spec(*self)
    }

    fn scalar(&self) -> (r: F) {
        F::from_u64(*self)
    }
}

impl<F: FieldExt> Scalar<F> for usize {
    open spec fn scalar_spec(&self) -> F {
        F::from_u64_spec(*self as u64)
    }

    fn scalar(&self) -> (r: F) {
        F::from_u64(*self as u64)
    }
}

impl<F: FieldExt> Scalar<F> for i32 {
    open spec fn scalar_spec(&self) -> F {
        F::from_u64_spec(*self as u64)
    }

    fn scalar(&self) -> (r: F) {
        F::from_u64(#[verifier::truncate] (*self as u64))
    }
}

impl<F: FieldExt> Scalar<F> for isize {
    open spec fn scalar_spec(&self) -> F {
        F::from_u64_spec(*self as u64)
    }

    fn scalar(&self) -> (r: F) {
        F::from_u64(#[verifier::truncate] (*self as u64))
    }
}

} // verus!
