//! Small helpers: collapsing the evaluator's cell sentinels, deriving a
//! circuit's name from its debug rendering, and deriving a minimal table
//! size from a circuit's configuration.
use vstd::prelude::*;

use crate::error::InspectError;
use crate::field::RawField;
use crate::table::{resolved_cell_spec, resolved_instance_spec, CellValue, InstanceValue};

use halo2_axiom::halo2curves::bn256::Fr;

verus! {

/// Collapse a cell of an advice or fixed column to the field element it
/// stands for: unassigned and poisoned cells both count as zero.
pub fn parse_cell_value<F: RawField>(value: CellValue<F>) -> (r: F)
    ensures
        r == resolved_cell_spec(value),
{
    match value {
        CellValue::Unassigned => F::zero(),
        CellValue::Assigned(f) => f,
        CellValue::Poison(_) => F::zero(),
    }
}

/// Collapse a cell of an instance column: padding counts as zero.
pub fn instance_value<F: RawField>(val: &InstanceValue<F>) -> (r: F)
    ensures
        r == resolved_instance_spec(*val),
{
    match val {
        InstanceValue::Assigned(v) => *v,
        InstanceValue::Padding => F::zero(),
    }
}

/// The floor of the base-two logarithm.
pub open spec fn log2_floor(n: nat) -> nat
    decreases n,
{
    if n < 2 {
        0
    } else {
        1 + log2_floor(n / 2)
    }
}

/// The base-two logarithm of a value below a power of two is below its
/// exponent.
proof fn lemma_log2_floor_lt(n: nat, e: nat)
    requires
        1 <= n < vstd::arithmetic::power2::pow2(e),
    ensures
        log2_floor(n) < e,
    decreases n,
{
    if e == 0 {
        vstd::arithmetic::power2::lemma2_to64();
    } else if n >= 2 {
        vstd::arithmetic::power2::lemma_pow2_unfold(e);
        lemma_log2_floor_lt(n / 2, (e - 1) as nat);
    }
}

/// Every `usize` has a base-two logarithm below 64.
proof fn lemma_log2_floor_fits(n: usize)
    requires
        n >= 1,
    ensures
        log2_floor(n as nat) < 64,
{
    vstd::arithmetic::power2::lemma2_to64();
    lemma_log2_floor_lt(n as nat, 64);
}

/// Compute the floor of the base-two logarithm by repeated halving.
pub fn floor_log2(n: usize) -> (r: u32)
    requires
        n >= 1,
    ensures
        r == log2_floor(n as nat),
        r < 64,
{
    proof {
        lemma_log2_floor_fits(n);
    }
    let mut m: usize = n;
    let mut r: u32 = 0;
    while m >= 2
        invariant
            m >= 1,
            r + log2_floor(m as nat) == log2_floor(n as nat),
            log2_floor(n as nat) < 64,
        decreases m,
    {
        m = m / 2;
        r = r + 1;
    }
    r
}

/// The table-size parameter that fits a given number of rows: one more
/// than the floor of the row count's base-two logarithm.
pub fn k_for_rows(rows: usize) -> (r: u32)
    requires
        rows >= 1,
    ensures
        r == log2_floor(rows as nat) + 1,
{
    let lg = floor_log2(rows);
    lg + 1
}

/// Relies on the proving library's `ConstraintSystem::minimum_rows`, the
/// smallest number of rows the circuit's configuration needs; its result
/// is a sum of blinding terms each at least one, so it is never zero.
#[verifier::external_body]
fn minimum_rows_of<C: halo2_axiom::plonk::Circuit<Fr>>() -> (r: usize)
    ensures
        r >= 1,
{
    let mut cs = halo2_axiom::plonk::ConstraintSystem::<Fr>::default();
    let _ = C::configure(&mut cs);
    cs.minimum_rows()
}

/// The table size that fits a circuit's configuration alone (its blinding
/// rows), before any witnesses are assigned.
pub fn derive_k<C: halo2_axiom::plonk::Circuit<Fr>>() -> (r: u32)
    ensures
        r >= 1,
{
    let rows = minimum_rows_of::<C>();
    k_for_rows(rows)
}

/// Relies on `format!` over the standard `Debug` trait to render a value;
/// nothing is assumed of the rendering.
#[verifier::external_body]
fn debug_string<C: core::fmt::Debug>(value: &C) -> String {
    format!("{:?}", value)
}

/// The prefix of a rendered value up to (not including) its first space:
/// for a braced struct rendering, the type's name.
pub fn circuit_name_prefix(s: &str) -> (r: Result<String, InspectError>)
    ensures
        match r {
            Result::Ok(name) => exists|k: int|
                0 <= k < s@.len() && s@[k] == ' ' && name@ == s@.take(k) && (forall|j: int|
                    0 <= j < k ==> s@[j] != ' '),
            Result::Err(e) => (forall|j: int| 0 <= j < s@.len() ==> s@[j] != ' ') && (e matches
                InspectError::InternalError(_)),
        },
{
    let len = s.unicode_len();
    let mut i: usize = 0;
    while i < len
        invariant
            i <= len,
            len == s@.len(),
            forall|j: int| 0 <= j < i ==> s@[j] != ' ',
        decreases len - i,
    {
        if s.get_char(i) == ' ' {
            let name = s.substring_char(0, i).to_owned();
            proof {
                assert(name@ == s@.subrange(0, i as int));
                assert(s@.take(i as int) == s@.subrange(0, i as int));
            }
            return Result::Ok(name);
        }
        i = i + 1;
    }
    Result::Err(InspectError::InternalError("no space in the circuit's debug rendering"))
}

/// Derive a circuit's name from its debug rendering: everything up to the
/// first space.  Fails if the rendering has no space at all.  The exact
/// relation between the rendering and the name is stated on
/// [`circuit_name_prefix`]; of the rendering itself nothing is assumed,
/// so this function only promises that a returned name holds no space and
/// that a failure is an internal-consistency error.
pub fn derive_circuit_name<ConcreteCircuit: core::fmt::Debug>(circuit: &ConcreteCircuit) -> (r:
    Result<String, InspectError>)
    ensures
        match r {
            Result::Ok(name) => forall|j: int| 0 <= j < name@.len() ==> name@[j] != ' ',
            Result::Err(e) => e matches InspectError::InternalError(_),
        },
{
    let rendering = debug_string(circuit);
    let r = circuit_name_prefix(rendering.as_str());
    proof {
        if r is Ok {
            let s_view = rendering@;
            let k = choose|k: int|
                0 <= k < s_view.len() && s_view[k] == ' ' && r->Ok_0@ == s_view.take(k) && (forall|
                    j: int,
                |
                    0 <= j < k ==> s_view[j] != ' ');
            assert forall|j: int| 0 <= j < r->Ok_0@.len() implies r->Ok_0@[j] != ' ' by {
                assert(r->Ok_0@[j] == s_view[j]);
            }
        }
    }
    r
}

} // verus!
