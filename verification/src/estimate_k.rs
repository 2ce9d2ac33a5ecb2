//! Table-size estimation: synthesize once on a generously sized table and
//! measure how many rows the circuit's regions actually used.
use vstd::prelude::*;

use crate::error::InspectError;
use crate::field::RawField;
use crate::infer_instance::{empty_instance_columns, get_number_of_instance_columns, Evaluable};
use crate::table::RegionRows;
use crate::utils::{k_for_rows, log2_floor};

use halo2_axiom::halo2curves::bn256::Fr;

verus! {

/// The table-size exponent of the placeholder estimation run: large enough
/// for any circuit this tooling meets.
pub const ESTIMATION_K: u32 = 26;

/// Whether some region reports a last row before its first.
pub open spec fn regions_flawed(regions: Seq<RegionRows>) -> bool {
    exists|i: int|
        0 <= i < regions.len() && regions[i].used && regions[i].end < regions[i].start
}

/// The largest row any used region touches; zero when none is used.
pub open spec fn last_used_row(regions: Seq<RegionRows>) -> nat
    decreases regions.len(),
{
    if regions.len() == 0 {
        0
    } else {
        let rest = last_used_row(regions.drop_last());
        if regions.last().used && regions.last().end > rest {
            regions.last().end as nat
        } else {
            rest
        }
    }
}

/// The table size that fits the measured region rows: room for the last
/// used row, the blinding rows, and one spare row.
pub fn estimate_k_from_regions(regions: &Vec<RegionRows>, blinding_factors: usize) -> (r: Result<
    u32,
    InspectError,
>)
    ensures
        if regions_flawed(regions@) {
            r == Err::<u32, InspectError>(
                InspectError::InternalError("region reports a last row before its first"),
            )
        } else if last_used_row(regions@) + blinding_factors + 1 > usize::MAX {
            r == Err::<u32, InspectError>(
                InspectError::InternalError("row count does not fit the machine"),
            )
        } else {
            r is Ok && r->Ok_0 == log2_floor((last_used_row(regions@) + blinding_factors + 1) as nat)
                + 1
        },
{
    let mut last_row: usize = 0;
    let mut i: usize = 0;
    while i < regions.len()
        invariant
            i <= regions@.len(),
            last_row as nat == last_used_row(regions@.take(i as int)),
            !regions_flawed(regions@.take(i as int)),
        decreases regions@.len() - i,
    {
        let region = regions[i];
        proof {
            assert(regions@.take(i as int + 1).drop_last() =~= regions@.take(i as int));
            assert(regions@.take(i as int + 1).last() == region);
        }
        if region.used {
            if region.end < region.start {
                proof {
                    assert(regions@[i as int] == region);
                }
                return Err(
                    InspectError::InternalError("region reports a last row before its first"),
                );
            }
            if region.end > last_row {
                last_row = region.end;
            }
        }
        i = i + 1;
        proof {
            assert(forall|j: int|
                0 <= j < i as int ==> regions@.take(i as int)[j] == regions@[j]);
        }
    }
    proof {
        assert(regions@.take(regions@.len() as int) =~= regions@);
    }
    if last_row == usize::MAX || blinding_factors > usize::MAX - last_row - 1 {
        return Err(InspectError::InternalError("row count does not fit the machine"));
    }
    let rows = last_row + blinding_factors + 1;
    Ok(k_for_rows(rows))
}

/// Relies on the proving library's `ConstraintSystem::blinding_factors`,
/// the number of trailing table rows its prover reserves for blinding.
#[verifier::external_body]
fn blinding_factors_of<C: halo2_axiom::plonk::Circuit<Fr>>() -> usize {
    let mut cs = halo2_axiom::plonk::ConstraintSystem::<Fr>::default();
    let _ = C::configure(&mut cs);
    cs.blinding_factors()
}

/// The two internal-consistency errors table-size estimation can raise.
pub open spec fn estimation_error(e: InspectError) -> bool {
    ||| e == InspectError::InternalError("region reports a last row before its first")
    ||| e == InspectError::InternalError("row count does not fit the machine")
}

/// Estimate the smallest table-size exponent that fits a circuit: run one
/// placeholder evaluation on a generous table (the circularity is
/// inherent — sizing the table needs a synthesis, and a synthesis needs a
/// table), then size from the rows its regions used, as
/// [`estimate_k_from_regions`] states exactly.  An evaluator's failure
/// comes back as `Halo2Error`; the only internal errors are the two of
/// [`estimation_error`].
pub fn estimate_k<F: RawField, C: halo2_axiom::plonk::Circuit<Fr> + Evaluable<F>>(circuit: &C) -> (r:
    Result<u32, InspectError>)
    ensures
        r matches Ok(k) ==> k >= 1,
        match r {
            Ok(_) => true,
            Err(e) => e matches InspectError::InternalError(_) ==> estimation_error(e),
        },
{
    let num_instance = get_number_of_instance_columns::<C>();
    let evaluation = match circuit.evaluate(ESTIMATION_K, empty_instance_columns(num_instance)) {
        Ok(evaluation) => evaluation,
        Err(e) => {
            return Err(InspectError::Halo2Error(e));
        },
    };
    let blinding = blinding_factors_of::<C>();
    estimate_k_from_regions(&evaluation.regions, blinding)
}

} // verus!
