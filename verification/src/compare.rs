//! Comparing two assignment tables column by column.
use vstd::prelude::*;

use crate::field::RawField;
use crate::table::{resolved_cell_spec, resolved_instance_spec, CellValue, InstanceValue};

verus! {

/// Collapse a cell to the field element it stands for (the evaluator's
/// sentinels — unassigned and poisoned cells — count as zero).
pub fn unwrap_cell_value<F: RawField>(value: CellValue<F>) -> (r: F)
    ensures
        r == resolved_cell_spec(value),
{
    crate::utils::parse_cell_value(value)
}

/// Collapse an instance cell: padding counts as zero.
pub fn unwrap_instance_value<F: RawField>(value: &InstanceValue<F>) -> (r: F)
    ensures
        r == resolved_instance_spec(*value),
{
    crate::utils::instance_value(value)
}

/// Whether row `r` of the left column disagrees with the right column
/// once sentinels are collapsed; a row the right column lacks counts as a
/// mismatch.
pub open spec fn row_mismatch<F: RawField>(
    a: Seq<CellValue<F>>,
    b: Seq<CellValue<F>>,
    r: int,
) -> bool {
    r >= b.len() || resolved_cell_spec(a[r]) != resolved_cell_spec(b[r])
}

/// The mismatching rows among the first `upto` rows of the left column,
/// in increasing order.
pub open spec fn mismatch_rows<F: RawField>(
    a: Seq<CellValue<F>>,
    b: Seq<CellValue<F>>,
    upto: int,
) -> Seq<usize>
    decreases upto,
{
    if upto <= 0 {
        Seq::empty()
    } else if row_mismatch(a, b, upto - 1) {
        mismatch_rows(a, b, upto - 1).push((upto - 1) as usize)
    } else {
        mismatch_rows(a, b, upto - 1)
    }
}

/// The rows of the left column whose resolved values differ from the
/// right column's.
pub fn column_mismatches<F: RawField>(a: &Vec<CellValue<F>>, b: &Vec<CellValue<F>>) -> (r: Vec<
    usize,
>)
    ensures
        r@ == mismatch_rows(a@, b@, a@.len() as int),
{
    let mut out: Vec<usize> = Vec::new();
    let mut i: usize = 0;
    while i < a.len()
        invariant
            i <= a@.len(),
            out@ == mismatch_rows(a@, b@, i as int),
        decreases a@.len() - i,
    {
        let left = unwrap_cell_value(a[i]);
        if i >= b.len() {
            out.push(i);
        } else {
            let right = unwrap_cell_value(b[i]);
            if !left.eq_value(&right) {
                out.push(i);
            }
        }
        i = i + 1;
    }
    out
}

} // verus!
