//! A finished proof's plain data: the table size it was generated at, the
//! proof bytes, the public instances, and the circuit's name.  The shell
//! that talks to the proving library converts field elements at the edge
//! and persists proofs; this type carries and hands out the data.
use vstd::prelude::*;

use crate::field::Fe;
use crate::table::grid_view;

verus! {

/// A finished proof with everything a verifier needs.
pub struct Proof {
    degree: u32,
    data: Vec<u8>,
    instances: Vec<Vec<Fe>>,
    circuit_name: String,
}

/// Copy a byte vector.
fn copy_bytes(bytes: &Vec<u8>) -> (r: Vec<u8>)
    ensures
        r@ == bytes@,
{
    let mut out: Vec<u8> = Vec::new();
    let mut i: usize = 0;
    while i < bytes.len()
        invariant
            i <= bytes@.len(),
            out@ == bytes@.take(i as int),
        decreases bytes@.len() - i,
    {
        out.push(bytes[i]);
        proof {
            assert(out@ =~= bytes@.take(i as int + 1));
        }
        i = i + 1;
    }
    proof {
        assert(bytes@.take(bytes@.len() as int) =~= bytes@);
    }
    out
}

/// Copy a family of instance columns.
fn copy_columns(columns: &Vec<Vec<Fe>>) -> (r: Vec<Vec<Fe>>)
    ensures
        grid_view(r@) == grid_view(columns@),
{
    let mut out: Vec<Vec<Fe>> = Vec::new();
    let mut i: usize = 0;
    while i < columns.len()
        invariant
            i <= columns@.len(),
            out@.len() == i as int,
            forall|j: int| 0 <= j < i ==> out@[j]@ == columns@[j]@,
        decreases columns@.len() - i,
    {
        out.push(copy_column(&columns[i]));
        i = i + 1;
    }
    proof {
        assert(grid_view(out@) =~= grid_view(columns@));
    }
    out
}

/// Copy one column of field elements.
fn copy_column(column: &Vec<Fe>) -> (r: Vec<Fe>)
    ensures
        r@ == column@,
{
    let mut out: Vec<Fe> = Vec::new();
    let mut i: usize = 0;
    while i < column.len()
        invariant
            i <= column@.len(),
            out@ == column@.take(i as int),
        decreases column@.len() - i,
    {
        out.push(column[i]);
        proof {
            assert(out@ =~= column@.take(i as int + 1));
        }
        i = i + 1;
    }
    proof {
        assert(column@.take(column@.len() as int) =~= column@);
    }
    out
}

impl Proof {
    /// The table-size exponent the proof was generated at.
    pub closed spec fn spec_degree(&self) -> u32 {
        self.degree
    }

    /// The proof bytes.
    pub closed spec fn spec_data(&self) -> Seq<u8> {
        self.data@
    }

    /// The public instances, one sequence per instance column.
    pub closed spec fn spec_instances(&self) -> Seq<Seq<Fe>> {
        grid_view(self.instances@)
    }

    /// The circuit's name.
    pub closed spec fn spec_circuit_name(&self) -> Seq<char> {
        self.circuit_name@
    }

    /// Bundle a finished proof's parts.
    pub fn from(degree: u32, proof: Vec<u8>, instances: Vec<Vec<Fe>>, circuit_name: String) -> (r:
        Self)
        ensures
            r.spec_degree() == degree,
            r.spec_data() == proof@,
            r.spec_instances() == grid_view(instances@),
            r.spec_circuit_name() == circuit_name@,
    {
        Proof { degree, data: proof, instances, circuit_name }
    }

    pub fn degree(&self) -> (r: u32)
        ensures
            r == self.spec_degree(),
    {
        self.degree
    }

    pub fn data(&self) -> (r: &Vec<u8>)
        ensures
            r@ == self.spec_data(),
    {
        &self.data
    }

    pub fn instances(&self) -> (r: &Vec<Vec<Fe>>)
        ensures
            grid_view(r@) == self.spec_instances(),
    {
        &self.instances
    }

    pub fn circuit_name(&self) -> (r: &String)
        ensures
            r@ == self.spec_circuit_name(),
    {
        &self.circuit_name
    }

    /// The length of each instance column.
    pub fn num_instances(&self) -> (r: Vec<usize>)
        ensures
            r@.len() == self.spec_instances().len(),
            forall|i: int|
                0 <= i < r@.len() ==> r@[i] == self.spec_instances()[i].len(),
    {
        let mut lens: Vec<usize> = Vec::new();
        let mut i: usize = 0;
        while i < self.instances.len()
            invariant
                i <= self.instances@.len(),
                lens@.len() == i as int,
                forall|j: int| 0 <= j < i ==> lens@[j] == self.instances@[j]@.len(),
            decreases self.instances@.len() - i,
        {
            lens.push(self.instances[i].len());
            i = i + 1;
        }
        lens
    }

    /// The proof's four parts, copied out.
    pub fn unpack(&self) -> (r: (u32, Vec<u8>, Vec<Vec<Fe>>, String))
        ensures
            r.0 == self.spec_degree(),
            r.1@ == self.spec_data(),
            grid_view(r.2@) == self.spec_instances(),
            r.3@ == self.spec_circuit_name(),
    {
        (
            self.degree,
            copy_bytes(&self.data),
            copy_columns(&self.instances),
            self.circuit_name.clone(),
        )
    }
}

} // verus!
