//! The assigned-table model: column references, cell values, copy
//! constraints, and the result of one evaluation run.
use vstd::prelude::*;

use crate::field::RawField;

verus! {

/// A column of the assignment table, identified by its kind and its index
/// within that kind.  The index spaces of the kinds are disjoint.
#[derive(Clone, Copy, Debug, PartialEq, Eq, Structural)]
pub enum Column {
    Advice(usize),
    Fixed(usize),
    Instance(usize),
    Selector(usize),
}

/// One entry of an advice or fixed column: either never assigned, assigned
/// a concrete field element, or poisoned by the evaluator (a diagnostic
/// placeholder carrying the row it came from).
#[derive(Clone, Copy, Debug, PartialEq, Eq)]
pub enum CellValue<F: RawField> {
    Unassigned,
    Assigned(F),
    Poison(usize),
}

/// One entry of an instance column as the evaluator reports it.
#[derive(Clone, Copy, Debug, PartialEq, Eq)]
pub enum InstanceValue<F: RawField> {
    Assigned(F),
    Padding,
}

/// An equality constraint between two cells, as the evaluator emitted it.
#[derive(Clone, Copy, Debug, PartialEq, Eq, Structural)]
pub struct CopyConstraint {
    pub left: Column,
    pub left_row: usize,
    pub right: Column,
    pub right_row: usize,
}

/// Whether a region was used, and if so the first and last row it touched.
#[derive(Clone, Copy, Debug, PartialEq, Eq, Structural)]
pub struct RegionRows {
    pub used: bool,
    pub start: usize,
    pub end: usize,
}

/// Everything one evaluation run of a circuit produces: the assigned
/// table, the copy constraints, and the row ranges of the regions.
pub struct Evaluation<F: RawField> {
    pub advice: Vec<Vec<CellValue<F>>>,
    pub fixed: Vec<Vec<CellValue<F>>>,
    pub instance: Vec<Vec<InstanceValue<F>>>,
    pub selectors: Vec<Vec<bool>>,
    pub copy_constraints: Vec<CopyConstraint>,
    pub regions: Vec<RegionRows>,
}

/// The mathematical view of a family of columns.
pub open spec fn grid_view<T>(g: Seq<Vec<T>>) -> Seq<Seq<T>> {
    g.map_values(|c: Vec<T>| c@)
}

impl Column {
    /// Whether this column is an instance (public-input) column.
    pub open spec fn is_instance_spec(self) -> bool {
        self matches Column::Instance(_)
    }

    pub fn is_instance(&self) -> (r: bool)
        ensures
            r == self.is_instance_spec(),
    {
        match self {
            Column::Instance(_) => true,
            _ => false,
        }
    }

    /// The index of the column within its kind.
    pub open spec fn index_spec(self) -> usize {
        match self {
            Column::Advice(i) => i,
            Column::Fixed(i) => i,
            Column::Instance(i) => i,
            Column::Selector(i) => i,
        }
    }

    pub fn index(&self) -> (r: usize)
        ensures
            r == self.index_spec(),
    {
        match self {
            Column::Advice(i) => *i,
            Column::Fixed(i) => *i,
            Column::Instance(i) => *i,
            Column::Selector(i) => *i,
        }
    }
}

/// The field element a cell stands for once the evaluator's sentinels are
/// collapsed: for numeric inference, unassigned and poisoned cells both
/// count as zero (a poisoned cell's payload only records the row the
/// evaluator marked, not a value).
pub open spec fn resolved_cell_spec<F: RawField>(value: CellValue<F>) -> F {
    match value {
        CellValue::Unassigned => F::zero_spec(),
        CellValue::Assigned(f) => f,
        CellValue::Poison(_) => F::zero_spec(),
    }
}

/// The field element an instance cell stands for: padding counts as zero.
pub open spec fn resolved_instance_spec<F: RawField>(value: InstanceValue<F>) -> F {
    match value {
        InstanceValue::Assigned(f) => f,
        InstanceValue::Padding => F::zero_spec(),
    }
}

} // verus!
