//! The instance-inference engine.
//!
//! Copy constraints are the only mechanism of the proving model that
//! relates two cells without an arithmetic gate, so they are the only
//! source from which a circuit's public instances can be recovered after
//! the fact.  The engine walks the evaluator's copy-constraint list once:
//! every constraint with exactly one endpoint on an instance column
//! defines that instance cell as the resolved value of the other endpoint.
use vstd::prelude::*;

use crate::error::InspectError;
use crate::field::RawField;
use crate::table::{
    grid_view, resolved_cell_spec, CellValue, Column, CopyConstraint, Evaluation,
};
use crate::utils::parse_cell_value;

use halo2_axiom::halo2curves::bn256::Fr;

verus! {

/// A circuit that the external evaluator can run: one evaluation produces
/// the assigned table and the copy constraints for a given table size and
/// given instance columns.  Nothing is assumed of an implementation; the
/// engine is verified for every value an evaluation may hand back.
pub trait Evaluable<F: RawField> {
    /// Run one evaluation at table size `2^k` with the given instance
    /// columns, and collect what it assigned.  A failed evaluation raises
    /// the proving library's own error, which callers wrap as
    /// `Halo2Error` — so every `InternalError` a caller reports is the
    /// library's own.
    fn evaluate(&self, k: u32, instance: Vec<Vec<F>>) -> Result<
        Evaluation<F>,
        halo2_axiom::plonk::Error,
    >;
}

/// The ways a copy-constraint list can violate the engine's data model.
pub enum InferFlaw {
    /// A constraint joins two instance columns.
    BothInstance,
    /// A constraint names an instance column the configuration does not have.
    InstanceOutOfRange,
    /// The non-instance endpoint is not a cell of the advice or fixed table.
    UnresolvedEndpoint,
}

/// The error the engine reports for each flaw.
pub open spec fn flaw_error(f: InferFlaw) -> InspectError {
    match f {
        InferFlaw::BothInstance => InspectError::InternalError(
            "copy constraint joins two instance columns",
        ),
        InferFlaw::InstanceOutOfRange => InspectError::InternalError(
            "copy constraint names an instance column out of range",
        ),
        InferFlaw::UnresolvedEndpoint => InspectError::InternalError(
            "copy constraint endpoint is not an advice or fixed cell",
        ),
    }
}

/// Whether both endpoints of a constraint lie on instance columns.
pub open spec fn both_instance(c: CopyConstraint) -> bool {
    c.left.is_instance_spec() && c.right.is_instance_spec()
}

/// Whether at least one endpoint lies on an instance column.
pub open spec fn touches_instance(c: CopyConstraint) -> bool {
    c.left.is_instance_spec() || c.right.is_instance_spec()
}

/// The instance endpoint of a constraint that touches an instance column
/// (the left one if both qualify).
pub open spec fn instance_side(c: CopyConstraint) -> (Column, usize) {
    if c.left.is_instance_spec() {
        (c.left, c.left_row)
    } else {
        (c.right, c.right_row)
    }
}

/// The endpoint opposite to `instance_side`.
pub open spec fn other_side(c: CopyConstraint) -> (Column, usize) {
    if c.left.is_instance_spec() {
        (c.right, c.right_row)
    } else {
        (c.left, c.left_row)
    }
}

/// The resolved value of a table cell, if the column reference names an
/// advice or fixed cell that the table has.
pub open spec fn other_value_spec<F: RawField>(
    advice: Seq<Seq<CellValue<F>>>,
    fixed: Seq<Seq<CellValue<F>>>,
    col: Column,
    row: usize,
) -> Option<F> {
    match col {
        Column::Advice(i) => if i < advice.len() && row < advice[i as int].len() {
            Some(resolved_cell_spec(advice[i as int][row as int]))
        } else {
            None
        },
        Column::Fixed(i) => if i < fixed.len() && row < fixed[i as int].len() {
            Some(resolved_cell_spec(fixed[i as int][row as int]))
        } else {
            None
        },
        _ => None,
    }
}

/// A column extended with zeros until it has at least `row` entries.
pub open spec fn pad_to<F: RawField>(col: Seq<F>, row: nat) -> Seq<F> {
    if col.len() >= row {
        col
    } else {
        col + Seq::new((row - col.len()) as nat, |i: int| F::zero_spec())
    }
}

/// How one defining constraint extends an output column: zeros up to the
/// instance row, then the defining value.  (When the column has already
/// grown past that row, the value is appended at the end — the engine does
/// not diagnose conflicting or out-of-order definitions; see the note on
/// [`infer_spec`].)
pub open spec fn place<F: RawField>(col: Seq<F>, row: nat, v: F) -> Seq<F> {
    pad_to(col, row).push(v)
}

/// How one copy constraint transforms the output columns.
pub open spec fn apply_constraint<F: RawField>(
    cols: Seq<Seq<F>>,
    advice: Seq<Seq<CellValue<F>>>,
    fixed: Seq<Seq<CellValue<F>>>,
    c: CopyConstraint,
) -> Result<Seq<Seq<F>>, InferFlaw> {
    if both_instance(c) {
        Err(InferFlaw::BothInstance)
    } else if !touches_instance(c) {
        Ok(cols)
    } else {
        let (icol, irow) = instance_side(c);
        let (ocol, orow) = other_side(c);
        let ii = icol.index_spec();
        if ii >= cols.len() {
            Err(InferFlaw::InstanceOutOfRange)
        } else {
            match other_value_spec(advice, fixed, ocol, orow) {
                Some(v) => Ok(cols.update(ii as int, place(cols[ii as int], irow as nat, v))),
                None => Err(InferFlaw::UnresolvedEndpoint),
            }
        }
    }
}

/// What inference returns: the copy constraints processed in order over
/// one empty column per instance column, stopping at the first flaw.
///
/// Note: a cell defined by two constraints, or columns whose defining
/// constraints arrive with rows out of order, are *not* diagnosed; the
/// later constraint appends past the earlier one, as the evaluator's
/// ordered constraint list never produces such lists in practice.
pub open spec fn infer_spec<F: RawField>(
    num_instance: nat,
    advice: Seq<Seq<CellValue<F>>>,
    fixed: Seq<Seq<CellValue<F>>>,
    cs: Seq<CopyConstraint>,
) -> Result<Seq<Seq<F>>, InferFlaw>
    decreases cs.len(),
{
    if cs.len() == 0 {
        Ok(Seq::new(num_instance, |i: int| Seq::empty()))
    } else {
        match infer_spec(num_instance, advice, fixed, cs.drop_last()) {
            Ok(cols) => apply_constraint(cols, advice, fixed, cs.last()),
            Err(f) => Err(f),
        }
    }
}

/// Recover the instance assignment from one evaluation's table and copy
/// constraints: the executable engine, pinned cell for cell to
/// [`infer_spec`].
pub fn collect_instance_assignment<F: RawField>(
    num_instance: usize,
    advice: &Vec<Vec<CellValue<F>>>,
    fixed: &Vec<Vec<CellValue<F>>>,
    copy_constraints: &Vec<CopyConstraint>,
) -> (r: Result<Vec<Vec<F>>, InspectError>)
    ensures
        match infer_spec(
            num_instance as nat,
            grid_view(advice@),
            grid_view(fixed@),
            copy_constraints@,
        ) {
            Ok(cols) => r matches Ok(out) && grid_view(out@) == cols,
            Err(f) => r matches Err(e) && e == flaw_error(f),
        },
{
    let ghost adv = grid_view(advice@);
    let ghost fix = grid_view(fixed@);
    let mut out: Vec<Vec<F>> = Vec::new();
    while out.len() < num_instance
        invariant
            out@.len() <= num_instance,
            forall|j: int| 0 <= j < out@.len() ==> out@[j]@.len() == 0,
        decreases num_instance - out@.len(),
    {
        out.push(Vec::new());
    }
    proof {
        assert(grid_view(out@) =~~= Seq::new(num_instance as nat, |i: int| Seq::<F>::empty()));
        assert(copy_constraints@.take(0int) =~= Seq::<CopyConstraint>::empty());
    }
    let mut i: usize = 0;
    while i < copy_constraints.len()
        invariant
            i <= copy_constraints.len(),
            adv == grid_view(advice@),
            fix == grid_view(fixed@),
            infer_spec(num_instance as nat, adv, fix, copy_constraints@.take(i as int)) == Ok::<
                _,
                InferFlaw,
            >(grid_view(out@)),
            out@.len() == num_instance,
        decreases copy_constraints.len() - i,
    {
        let ghost cols_before = grid_view(out@);
        let c = copy_constraints[i];
        proof {
            assert(copy_constraints@.take(i as int + 1).drop_last() =~= copy_constraints@.take(
                i as int,
            ));
            assert(copy_constraints@.take(i as int + 1).last() == c);
        }
        let left_is_instance = c.left.is_instance();
        let right_is_instance = c.right.is_instance();
        if left_is_instance && right_is_instance {
            proof {
                lemma_error_persists(
                    num_instance as nat,
                    adv,
                    fix,
                    copy_constraints@,
                    i as int + 1,
                );
            }
            return Err(InspectError::InternalError("copy constraint joins two instance columns"));
        }
        if left_is_instance || right_is_instance {
            let (icol, irow) = if left_is_instance {
                (c.left, c.left_row)
            } else {
                (c.right, c.right_row)
            };
            let (ocol, orow) = if left_is_instance {
                (c.right, c.right_row)
            } else {
                (c.left, c.left_row)
            };
            let ii = icol.index();
            if ii >= out.len() {
                proof {
                    lemma_error_persists(
                        num_instance as nat,
                        adv,
                        fix,
                        copy_constraints@,
                        i as int + 1,
                    );
                }
                return Err(
                    InspectError::InternalError(
                        "copy constraint names an instance column out of range",
                    ),
                );
            }
            let looked_up: Option<F> = match ocol {
                Column::Advice(ci) => if ci < advice.len() && orow < advice[ci].len() {
                    Some(parse_cell_value(advice[ci][orow]))
                } else {
                    None
                },
                Column::Fixed(ci) => if ci < fixed.len() && orow < fixed[ci].len() {
                    Some(parse_cell_value(fixed[ci][orow]))
                } else {
                    None
                },
                _ => None,
            };
            proof {
                assert(looked_up == other_value_spec::<F>(adv, fix, ocol, orow));
            }
            let v = match looked_up {
                Some(v) => v,
                None => {
                    proof {
                        lemma_error_persists(
                            num_instance as nat,
                            adv,
                            fix,
                            copy_constraints@,
                            i as int + 1,
                        );
                    }
                    return Err(
                        InspectError::InternalError(
                            "copy constraint endpoint is not an advice or fixed cell",
                        ),
                    );
                },
            };
            let mut col = out.remove(ii);
            let ghost orig = col@;
            proof {
                assert(orig == cols_before[ii as int]);
            }
            while col.len() < irow
                invariant
                    col@.len() >= orig.len(),
                    col@.len() <= irow || col@.len() == orig.len(),
                    col@ == pad_to(orig, col@.len() as nat),
                decreases irow - col@.len(),
            {
                col.push(F::zero());
                proof {
                    lemma_pad_step::<F>(orig, col@.len() as nat);
                }
            }
            proof {
                if col@.len() == irow {
                    assert(col@ == pad_to(orig, irow as nat));
                } else {
                    assert(col@.len() == orig.len());
                    assert(pad_to(orig, col@.len() as nat) == orig);
                    assert(col@ == pad_to(orig, irow as nat));
                }
            }
            col.push(v);
            out.insert(ii, col);
            proof {
                assert(grid_view(out@) =~= cols_before.update(
                    ii as int,
                    place(orig, irow as nat, v),
                ));
            }
        }
        i = i + 1;
    }
    proof {
        assert(copy_constraints@.take(copy_constraints@.len() as int) =~= copy_constraints@);
    }
    Ok(out)
}

/// One empty output column per instance column.
pub fn empty_instance_columns<F: RawField>(n: usize) -> (r: Vec<Vec<F>>)
    ensures
        r@.len() == n,
        forall|i: int| 0 <= i < n ==> r@[i]@.len() == 0,
{
    let mut out: Vec<Vec<F>> = Vec::new();
    while out.len() < n
        invariant
            out@.len() <= n,
            forall|i: int| 0 <= i < out@.len() ==> out@[i]@.len() == 0,
        decreases n - out@.len(),
    {
        out.push(Vec::new());
    }
    out
}

/// Relies on the proving library's `ConstraintSystem`: configuring a
/// default constraint system with the circuit's `configure` and asking it
/// how many instance columns were allocated.  Configuration is
/// evaluation-independent metadata, so no table is involved.
#[verifier::external_body]
pub fn get_number_of_instance_columns<C: halo2_axiom::plonk::Circuit<Fr>>() -> usize {
    let mut cs = halo2_axiom::plonk::ConstraintSystem::<Fr>::default();
    let _ = C::configure(&mut cs);
    cs.num_instance_columns()
}

/// The internal-consistency errors inference can raise: the three
/// constraint flaws of the engine and the two errors of table-size
/// estimation.  Everything else inference returns is an evaluator failure
/// wrapped as `Halo2Error`.
pub open spec fn inference_error(e: InspectError) -> bool {
    ||| e == flaw_error(InferFlaw::BothInstance)
    ||| e == flaw_error(InferFlaw::InstanceOutOfRange)
    ||| e == flaw_error(InferFlaw::UnresolvedEndpoint)
    ||| crate::estimate_k::estimation_error(e)
}

/// Every flaw's error is among the inference errors.
proof fn lemma_flaw_error_is_inference_error(f: InferFlaw)
    ensures
        inference_error(flaw_error(f)),
{
    match f {
        InferFlaw::BothInstance => {},
        InferFlaw::InstanceOutOfRange => {},
        InferFlaw::UnresolvedEndpoint => {},
    }
}

/// Find the instances for a circuit using its copy constraints.
///
/// One evaluation with empty placeholder instance columns discovers the
/// constraint topology; [`collect_instance_assignment`] — which carries
/// the exact contract over the evaluation that came back — then reads
/// each constrained instance cell off the other end of its constraint.
/// When no table size is given, one extra placeholder run estimates it
/// first.  A failed evaluation is handed back as `Halo2Error`; every
/// internal-consistency error is one of [`inference_error`]'s five.
pub fn infer_instance<F: RawField, C: halo2_axiom::plonk::Circuit<Fr> + Evaluable<F>>(
    circuit: &C,
    k: Option<u32>,
) -> (r: Result<Vec<Vec<F>>, InspectError>)
    ensures
        match r {
            Ok(_) => true,
            Err(e) => e matches InspectError::InternalError(_) ==> inference_error(e),
        },
{
    let k = match k {
        Some(k) => k,
        None => {
            match crate::estimate_k::estimate_k(circuit) {
                Ok(k) => k,
                Err(e) => {
                    return Err(e);
                },
            }
        },
    };
    let num_instance = get_number_of_instance_columns::<C>();
    let evaluation = match circuit.evaluate(k, empty_instance_columns(num_instance)) {
        Ok(evaluation) => evaluation,
        Err(e) => {
            return Err(InspectError::Halo2Error(e));
        },
    };
    let r = collect_instance_assignment(
        num_instance,
        &evaluation.advice,
        &evaluation.fixed,
        &evaluation.copy_constraints,
    );
    proof {
        match infer_spec(
            num_instance as nat,
            crate::table::grid_view(evaluation.advice@),
            crate::table::grid_view(evaluation.fixed@),
            evaluation.copy_constraints@,
        ) {
            Ok(_) => {},
            Err(f) => {
                lemma_flaw_error_is_inference_error(f);
            },
        }
    }
    r
}

/// Extending a zero-padded column by one more zero pads one step further.
proof fn lemma_pad_step<F: RawField>(orig: Seq<F>, n: nat)
    requires
        n >= orig.len() + 1,
    ensures
        pad_to(orig, (n - 1) as nat).push(F::zero_spec()) =~= pad_to(orig, n),
{
}

/// Whether one constraint respects the engine's data model: it does not
/// join two instance columns, and if it touches an instance column, the
/// instance endpoint lies in range and the other endpoint is a resolvable
/// advice or fixed cell.
pub open spec fn constraint_ok<F: RawField>(
    num_instance: nat,
    advice: Seq<Seq<CellValue<F>>>,
    fixed: Seq<Seq<CellValue<F>>>,
    c: CopyConstraint,
) -> bool {
    &&& !both_instance(c)
    &&& touches_instance(c) ==> {
        &&& instance_side(c).0.index_spec() < num_instance
        &&& other_value_spec(advice, fixed, other_side(c).0, other_side(c).1) is Some
    }
}

/// Whether constraint `c` defines row `row` of instance column `col`.
pub open spec fn defines_cell(c: CopyConstraint, col: int, row: int) -> bool {
    &&& touches_instance(c)
    &&& !both_instance(c)
    &&& instance_side(c).0.index_spec() == col
    &&& instance_side(c).1 == row
}

/// Whether some constraint of the list defines row `row` of instance
/// column `col`.
pub open spec fn cell_defined(cs: Seq<CopyConstraint>, col: int, row: int) -> bool {
    exists|i: int| 0 <= i < cs.len() && defines_cell(cs[i], col, row)
}

/// The value a defining constraint hands to its instance cell: the
/// resolved value of its other endpoint.
pub open spec fn defined_value<F: RawField>(
    advice: Seq<Seq<CellValue<F>>>,
    fixed: Seq<Seq<CellValue<F>>>,
    c: CopyConstraint,
) -> F {
    match other_value_spec(advice, fixed, other_side(c).0, other_side(c).1) {
        Some(v) => v,
        None => F::zero_spec(),
    }
}

/// Whether the defining constraints of each instance column arrive with
/// strictly increasing rows — the order the evaluator's constraint list
/// has in practice, since each instance cell is constrained once, in row
/// order.
pub open spec fn rows_in_order(cs: Seq<CopyConstraint>) -> bool {
    forall|i: int, j: int|
        #![trigger cs[i], cs[j]]
        0 <= i < j < cs.len() && touches_instance(cs[i]) && !both_instance(cs[i])
            && touches_instance(cs[j]) && !both_instance(cs[j]) && instance_side(
            cs[i],
        ).0.index_spec() == instance_side(cs[j]).0.index_spec() ==> instance_side(cs[i]).1
            < instance_side(cs[j]).1
}

/// The output columns of a successful inference.
pub open spec fn inferred_columns<F: RawField>(
    num_instance: nat,
    advice: Seq<Seq<CellValue<F>>>,
    fixed: Seq<Seq<CellValue<F>>>,
    cs: Seq<CopyConstraint>,
) -> Seq<Seq<F>> {
    infer_spec(num_instance, advice, fixed, cs)->Ok_0
}

/// What constraint coverage says of one defining constraint: the output
/// column it touches holds, at the row it names, the resolved value of
/// its other endpoint.
pub open spec fn coverage_at<F: RawField>(
    num_instance: nat,
    advice: Seq<Seq<CellValue<F>>>,
    fixed: Seq<Seq<CellValue<F>>>,
    cs: Seq<CopyConstraint>,
    i: int,
) -> bool {
    let cols = inferred_columns(num_instance, advice, fixed, cs);
    let ci = instance_side(cs[i]).0.index_spec() as int;
    let ri = instance_side(cs[i]).1 as int;
    ri < cols[ci].len() && cols[ci][ri] == defined_value(advice, fixed, cs[i])
}

/// A successful inference returns one output column per instance column.
pub proof fn lemma_infer_len<F: RawField>(
    num_instance: nat,
    advice: Seq<Seq<CellValue<F>>>,
    fixed: Seq<Seq<CellValue<F>>>,
    cs: Seq<CopyConstraint>,
)
    ensures
        infer_spec(num_instance, advice, fixed, cs) matches Ok(cols) ==> cols.len()
            == num_instance,
    decreases cs.len(),
{
    if cs.len() > 0 {
        lemma_infer_len(num_instance, advice, fixed, cs.drop_last());
    }
}

/// When success is owed: inference succeeds exactly when every constraint
/// of the list respects the data model.
pub proof fn lemma_inference_succeeds_iff<F: RawField>(
    num_instance: nat,
    advice: Seq<Seq<CellValue<F>>>,
    fixed: Seq<Seq<CellValue<F>>>,
    cs: Seq<CopyConstraint>,
)
    ensures
        (infer_spec(num_instance, advice, fixed, cs) is Ok) <==> (forall|i: int|
            0 <= i < cs.len() ==> constraint_ok(num_instance, advice, fixed, #[trigger] cs[i])),
    decreases cs.len(),
{
    if cs.len() > 0 {
        let dl = cs.drop_last();
        lemma_inference_succeeds_iff(num_instance, advice, fixed, dl);
        lemma_infer_len(num_instance, advice, fixed, dl);
        assert(forall|i: int| 0 <= i < dl.len() ==> #[trigger] dl[i] == cs[i]);
        if infer_spec(num_instance, advice, fixed, cs) is Ok {
            assert forall|i: int| 0 <= i < cs.len() implies constraint_ok(
                num_instance,
                advice,
                fixed,
                #[trigger] cs[i],
            ) by {
                if i < cs.len() - 1 {
                    assert(constraint_ok(num_instance, advice, fixed, dl[i]));
                } else {
                    assert(cs[i] == cs.last());
                }
            }
        } else {
            if forall|i: int|
                0 <= i < cs.len() ==> constraint_ok(num_instance, advice, fixed, #[trigger] cs[i]) {
                assert(forall|i: int|
                    0 <= i < dl.len() ==> constraint_ok(
                        num_instance,
                        advice,
                        fixed,
                        #[trigger] dl[i],
                    ));
                assert(constraint_ok(num_instance, advice, fixed, cs[cs.len() - 1]));
                assert(false);
            }
        }
    }
}

/// Rejected topology: a copy constraint with both endpoints on instance
/// columns makes inference fail rather than produce an assignment.
pub proof fn lemma_rejects_instance_to_instance<F: RawField>(
    num_instance: nat,
    advice: Seq<Seq<CellValue<F>>>,
    fixed: Seq<Seq<CellValue<F>>>,
    cs: Seq<CopyConstraint>,
    i: int,
)
    requires
        0 <= i < cs.len(),
        both_instance(cs[i]),
    ensures
        infer_spec::<F>(num_instance, advice, fixed, cs) is Err,
{
    lemma_inference_succeeds_iff::<F>(num_instance, advice, fixed, cs);
    assert(!constraint_ok(num_instance, advice, fixed, cs[i]));
}

/// A circuit with no instance columns: inference returns the empty
/// collection of sequences, not an error, whenever no constraint touches
/// an instance column.
pub proof fn lemma_no_instance_columns<F: RawField>(
    advice: Seq<Seq<CellValue<F>>>,
    fixed: Seq<Seq<CellValue<F>>>,
    cs: Seq<CopyConstraint>,
)
    requires
        forall|i: int| 0 <= i < cs.len() ==> !touches_instance(#[trigger] cs[i]),
    ensures
        infer_spec::<F>(0, advice, fixed, cs) == Ok::<Seq<Seq<F>>, InferFlaw>(
            Seq::<Seq<F>>::empty(),
        ),
{
    lemma_inference_succeeds_iff::<F>(0, advice, fixed, cs);
    lemma_infer_len::<F>(0, advice, fixed, cs);
    assert(infer_spec::<F>(0, advice, fixed, cs)->Ok_0 =~= Seq::<Seq<F>>::empty());
}

/// Determinism: the instance assignment is a function of the evaluation
/// alone, so two inference runs over one evaluation agree cell for cell.
pub proof fn lemma_inference_deterministic<F: RawField>(
    num_instance: nat,
    advice: Seq<Seq<CellValue<F>>>,
    fixed: Seq<Seq<CellValue<F>>>,
    cs: Seq<CopyConstraint>,
    out1: Seq<Seq<F>>,
    out2: Seq<Seq<F>>,
)
    requires
        infer_spec(num_instance, advice, fixed, cs) == Ok::<Seq<Seq<F>>, InferFlaw>(out1),
        infer_spec(num_instance, advice, fixed, cs) == Ok::<Seq<Seq<F>>, InferFlaw>(out2),
    ensures
        out1 == out2,
{
}

/// Appending one constraint extends the set of defined cells by exactly
/// what the appended constraint defines.
proof fn lemma_cell_defined_push(cs: Seq<CopyConstraint>, col: int, row: int)
    requires
        cs.len() > 0,
    ensures
        cell_defined(cs, col, row) <==> (cell_defined(cs.drop_last(), col, row) || defines_cell(
            cs.last(),
            col,
            row,
        )),
{
    let dl = cs.drop_last();
    if cell_defined(cs, col, row) {
        let i = choose|i: int| 0 <= i < cs.len() && defines_cell(cs[i], col, row);
        if i < cs.len() - 1 {
            assert(dl[i] == cs[i]);
            assert(defines_cell(dl[i], col, row));
        }
    }
    if cell_defined(dl, col, row) {
        let i = choose|i: int| 0 <= i < dl.len() && defines_cell(dl[i], col, row);
        assert(cs[i] == dl[i]);
        assert(defines_cell(cs[i], col, row));
    }
    if defines_cell(cs.last(), col, row) {
        assert(defines_cell(cs[cs.len() - 1], col, row));
    }
}

/// The inductive heart of the density and coverage laws.
proof fn lemma_columns_shape<F: RawField>(
    num_instance: nat,
    advice: Seq<Seq<CellValue<F>>>,
    fixed: Seq<Seq<CellValue<F>>>,
    cs: Seq<CopyConstraint>,
)
    requires
        forall|i: int|
            0 <= i < cs.len() ==> constraint_ok(num_instance, advice, fixed, #[trigger] cs[i]),
        rows_in_order(cs),
    ensures
        infer_spec(num_instance, advice, fixed, cs) is Ok,
        inferred_columns::<F>(num_instance, advice, fixed, cs).len() == num_instance,
        forall|i: int|
            #![trigger cs[i]]
            0 <= i < cs.len() && touches_instance(cs[i]) ==> coverage_at(
                num_instance,
                advice,
                fixed,
                cs,
                i,
            ),
        forall|c: int, r: int|
            #![trigger cell_defined(cs, c, r)]
            0 <= c < num_instance && 0 <= r < inferred_columns::<F>(
                num_instance,
                advice,
                fixed,
                cs,
            )[c].len() && !cell_defined(cs, c, r) ==> inferred_columns::<F>(
                num_instance,
                advice,
                fixed,
                cs,
            )[c][r] == F::zero_spec(),
        forall|c: int|
            #![trigger inferred_columns::<F>(num_instance, advice, fixed, cs)[c]]
            0 <= c < num_instance && inferred_columns::<F>(
                num_instance,
                advice,
                fixed,
                cs,
            )[c].len() > 0 ==> cell_defined(
                cs,
                c,
                inferred_columns::<F>(num_instance, advice, fixed, cs)[c].len() - 1,
            ),
    decreases cs.len(),
{
    lemma_inference_succeeds_iff(num_instance, advice, fixed, cs);
    lemma_infer_len(num_instance, advice, fixed, cs);
    if cs.len() > 0 {
        let dl = cs.drop_last();
        let l = cs.last();
        assert(forall|i: int| 0 <= i < dl.len() ==> #[trigger] dl[i] == cs[i]);
        assert(rows_in_order(dl));
        lemma_columns_shape(num_instance, advice, fixed, dl);
        let cols0 = inferred_columns::<F>(num_instance, advice, fixed, dl);
        let cols = inferred_columns::<F>(num_instance, advice, fixed, cs);
        assert forall|c: int, r: int|
            #[trigger] cell_defined(cs, c, r) <==> (cell_defined(dl, c, r) || defines_cell(
            l,
            c,
            r,
        )) by {
            lemma_cell_defined_push(cs, c, r);
        }
        if !touches_instance(l) {
            assert(cols == cols0);
            assert forall|i: int| 0 <= i < cs.len() && touches_instance(#[trigger] cs[i]) implies
                coverage_at(num_instance, advice, fixed, cs, i) by {
                assert(i < cs.len() - 1);
                assert(dl[i] == cs[i]);
                assert(coverage_at(num_instance, advice, fixed, dl, i));
            }
        } else {
            let cstar = instance_side(l).0.index_spec() as int;
            let rstar = instance_side(l).1 as int;
            let v = defined_value(advice, fixed, l);
            assert(constraint_ok(num_instance, advice, fixed, cs[cs.len() - 1]));
            let orig = cols0[cstar];
            // the column has not yet grown past the new row
            assert(orig.len() <= rstar) by {
                if orig.len() > 0 {
                    assert(cell_defined(dl, cstar, orig.len() - 1));
                    let i = choose|i: int|
                        0 <= i < dl.len() && defines_cell(dl[i], cstar, orig.len() - 1);
                    assert(cs[i] == dl[i]);
                    assert(defines_cell(cs[cs.len() - 1], cstar, rstar));
                    assert(instance_side(cs[i]).1 < instance_side(cs[cs.len() - 1]).1);
                }
            }
            let newcol = place(orig, rstar as nat, v);
            assert(infer_spec(num_instance, advice, fixed, cs) == apply_constraint(
                cols0,
                advice,
                fixed,
                l,
            ));
            assert(cols == cols0.update(cstar, newcol));
            assert(newcol.len() == rstar + 1);
            assert(newcol[rstar] == v);
            assert(forall|r: int| 0 <= r < orig.len() ==> #[trigger] newcol[r] == orig[r]);
            assert(forall|r: int|
                orig.len() <= r < rstar ==> #[trigger] newcol[r] == F::zero_spec());
            // coverage
            assert forall|i: int| 0 <= i < cs.len() && touches_instance(#[trigger] cs[i]) implies
                coverage_at(num_instance, advice, fixed, cs, i) by {
                let ci = instance_side(cs[i]).0.index_spec() as int;
                let ri = instance_side(cs[i]).1 as int;
                if i < cs.len() - 1 {
                    assert(dl[i] == cs[i]);
                    assert(coverage_at(num_instance, advice, fixed, dl, i));
                    if ci == cstar {
                        assert(defines_cell(cs[i], ci, ri));
                        assert(defines_cell(cs[cs.len() - 1], cstar, rstar));
                        assert(ri < rstar);
                        assert(newcol[ri] == orig[ri]);
                    }
                } else {
                    assert(cs[i] == l);
                }
            }
            // gaps are zero
            assert forall|c: int, r: int|
                0 <= c < num_instance && 0 <= r < cols[c].len() && !(#[trigger] cell_defined(
                cs,
                c,
                r,
            )) implies cols[c][r] == F::zero_spec() by {
                if c != cstar {
                    assert(cols[c] == cols0[c]);
                    assert(!cell_defined(dl, c, r));
                } else {
                    assert(!cell_defined(dl, c, r));
                    assert(!defines_cell(l, c, r));
                    assert(r != rstar);
                    if r < orig.len() {
                        assert(cols0[cstar][r] == F::zero_spec());
                        assert(newcol[r] == orig[r]);
                    } else {
                        assert(newcol[r] == F::zero_spec());
                    }
                }
            }
            // the top row of every non-empty column is defined
            assert forall|c: int|
                0 <= c < num_instance && (#[trigger] cols[c]).len() > 0 implies cell_defined(
                cs,
                c,
                cols[c].len() - 1,
            ) by {
                if c != cstar {
                    assert(cols[c] == cols0[c]);
                    assert(cell_defined(dl, c, cols0[c].len() - 1));
                } else {
                    assert(defines_cell(l, cstar, rstar));
                    assert(cols[cstar].len() - 1 == rstar);
                }
            }
        }
    }
}

/// Density: for every instance column the output has no gap — the rows no
/// constraint defines, below the last defined row, are the field's zero —
/// and the last entry of a non-empty column is a defined row.  Holds for
/// constraint lists that respect the data model and define each column's
/// rows in increasing order.
pub proof fn lemma_instance_assignment_dense<F: RawField>(
    num_instance: nat,
    advice: Seq<Seq<CellValue<F>>>,
    fixed: Seq<Seq<CellValue<F>>>,
    cs: Seq<CopyConstraint>,
)
    requires
        forall|i: int|
            0 <= i < cs.len() ==> constraint_ok(num_instance, advice, fixed, #[trigger] cs[i]),
        rows_in_order(cs),
    ensures
        infer_spec(num_instance, advice, fixed, cs) is Ok,
        inferred_columns::<F>(num_instance, advice, fixed, cs).len() == num_instance,
        forall|c: int, r: int|
            #![trigger cell_defined(cs, c, r)]
            0 <= c < num_instance && 0 <= r < inferred_columns::<F>(
                num_instance,
                advice,
                fixed,
                cs,
            )[c].len() && !cell_defined(cs, c, r) ==> inferred_columns::<F>(
                num_instance,
                advice,
                fixed,
                cs,
            )[c][r] == F::zero_spec(),
        forall|c: int|
            #![trigger inferred_columns::<F>(num_instance, advice, fixed, cs)[c]]
            0 <= c < num_instance && inferred_columns::<F>(
                num_instance,
                advice,
                fixed,
                cs,
            )[c].len() > 0 ==> cell_defined(
                cs,
                c,
                inferred_columns::<F>(num_instance, advice, fixed, cs)[c].len() - 1,
            ),
{
    lemma_columns_shape(num_instance, advice, fixed, cs);
}

/// Constraint coverage: for every copy constraint touching an instance
/// column at row `r`, the output column holds, at index `r`, the resolved
/// value of the constraint's other endpoint.  Holds under the same
/// conditions as [`lemma_instance_assignment_dense`].
pub proof fn lemma_constraint_coverage<F: RawField>(
    num_instance: nat,
    advice: Seq<Seq<CellValue<F>>>,
    fixed: Seq<Seq<CellValue<F>>>,
    cs: Seq<CopyConstraint>,
    i: int,
)
    requires
        forall|j: int|
            0 <= j < cs.len() ==> constraint_ok(num_instance, advice, fixed, #[trigger] cs[j]),
        rows_in_order(cs),
        0 <= i < cs.len(),
        touches_instance(cs[i]),
    ensures
        infer_spec(num_instance, advice, fixed, cs) is Ok,
        coverage_at(num_instance, advice, fixed, cs, i),
{
    lemma_columns_shape(num_instance, advice, fixed, cs);
}

/// Once a prefix of the constraint list has failed, the whole list fails
/// with the same flaw.
proof fn lemma_error_persists<F: RawField>(
    num_instance: nat,
    advice: Seq<Seq<CellValue<F>>>,
    fixed: Seq<Seq<CellValue<F>>>,
    cs: Seq<CopyConstraint>,
    j: int,
)
    requires
        0 <= j <= cs.len(),
        infer_spec(num_instance, advice, fixed, cs.take(j)) is Err,
    ensures
        infer_spec(num_instance, advice, fixed, cs) == infer_spec(
            num_instance,
            advice,
            fixed,
            cs.take(j),
        ),
    decreases cs.len() - j,
{
    if j == cs.len() {
        assert(cs.take(j) =~= cs);
    } else {
        assert(cs.take(j + 1).drop_last() =~= cs.take(j));
        lemma_error_persists(num_instance, advice, fixed, cs, j + 1);
    }
}

} // verus!
