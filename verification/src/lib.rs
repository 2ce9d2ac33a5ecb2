//! Debugging companions for PLONK-style arithmetic circuits: estimate the
//! table size a circuit needs, resolve column names, compare assignment
//! tables, and — the heart of the crate — infer a circuit's public
//! instance values from its copy constraints.
use vstd::prelude::*;

pub mod assignments_printer;
pub mod compare;
pub mod error;
pub mod estimate_k;
pub mod example_circuit;
pub mod externals;
pub mod field;
pub mod infer_instance;
pub mod proof_data;
pub mod table;
pub mod utils;
pub mod zkevm;

pub use assignments_printer::resolve_columns;
pub use compare::{column_mismatches, unwrap_cell_value, unwrap_instance_value};
pub use error::InspectError;
pub use example_circuit::FactorisationCircuit;
pub use field::{Fe, FieldExt, RawField};
pub use estimate_k::{estimate_k, estimate_k_from_regions};
pub use infer_instance::{collect_instance_assignment, get_number_of_instance_columns, infer_instance, Evaluable};
pub use proof_data::Proof;
pub use table::{CellValue, Column, CopyConstraint, Evaluation, InstanceValue, RegionRows};
pub use utils::{derive_circuit_name, derive_k, instance_value, parse_cell_value};
pub use zkevm::Scalar;

verus! {

/// A circuit whose public instances are known: one sequence of field
/// elements per instance column, a deterministic function of the circuit's
/// parameters (never of private witnesses).
pub trait CircuitExt<F: FieldExt> {
    /// The instances of the circuit, as mathematical sequences.
    spec fn instances_spec(&self) -> Seq<Seq<F>>;

    /// Return the instances of the circuit.
    fn instances(&self) -> (r: Vec<Vec<F>>)
        ensures
            table::grid_view(r@) == self.instances_spec(),
    ;

    /// The length of each instance column.
    fn num_instance(&self) -> (r: Vec<usize>)
        ensures
            r@.len() == self.instances_spec().len(),
            forall|i: int|
                0 <= i < r@.len() ==> r@[i] == self.instances_spec()[i].len(),
    {
        let instances = self.instances();
        let mut lens: Vec<usize> = Vec::new();
        let mut i: usize = 0;
        while i < instances.len()
            invariant
                i <= instances.len(),
                table::grid_view(instances@) == self.instances_spec(),
                lens@.len() == i as int,
                forall|j: int|
                    0 <= j < i as int ==> lens@[j] == self.instances_spec()[j].len(),
            decreases instances.len() - i,
        {
            lens.push(instances[i].len());
            i = i + 1;
        }
        lens
    }
}

} // verus!
