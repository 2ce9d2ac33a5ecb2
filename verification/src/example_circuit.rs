//! The multiply circuit the tooling is exercised with: it proves knowledge
//! of two witnesses whose product stands in its one instance column.
use vstd::prelude::*;

use crate::field::FieldExt;
use crate::table::grid_view;
use crate::CircuitExt;

verus! {

/// A circuit enforcing `a * b = product`, with the product copied into a
/// single instance column at row zero.  This struct carries the witnesses
/// and knows what the public instances must be; the gates themselves are
/// declared to the proving library by whoever synthesizes the circuit.
#[derive(Clone, Debug, Default)]
pub struct FactorisationCircuit<F: FieldExt> {
    pub a: F,
    pub b: F,
}

impl<F: FieldExt> CircuitExt<F> for FactorisationCircuit<F> {
    open spec fn instances_spec(&self) -> Seq<Seq<F>> {
        seq![seq![F::mul_spec(self.a, self.b)]]
    }

    fn instances(&self) -> (r: Vec<Vec<F>>) {
        let product = F::mul(&self.a, &self.b);
        let mut column: Vec<F> = Vec::new();
        column.push(product);
        let mut out: Vec<Vec<F>> = Vec::new();
        out.push(column);
        proof {
            assert(grid_view(out@) =~~= seq![seq![F::mul_spec(self.a, self.b)]]);
        }
        out
    }
}

} // verus!
