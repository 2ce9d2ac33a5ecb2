//! Runs the engine against a real circuit synthesized by the proving
//! library: the collector below implements the library's `Assignment`
//! interface and records the assigned table, the copy constraints, and
//! the region rows that one synthesis produces.
use halo2_axiom::circuit::{Layouter, SimpleFloorPlanner, Value};
use halo2_axiom::halo2curves::bn256::Fr;
use halo2_axiom::halo2curves::ff::PrimeField;
use halo2_axiom::plonk::{
    Advice, Any, Assigned, Assignment, Challenge, Circuit, Column as H2Column, ConstraintSystem,
    Error as PlonkError, Fixed, FloorPlanner, Instance, Selector,
};
use halo2_axiom::poly::Rotation;

use halo2_inspect::{
    estimate_k, get_number_of_instance_columns, infer_instance, CellValue, CopyConstraint,
    Evaluable, Evaluation, Fe, InstanceValue, RegionRows,
};

fn fe(n: u64) -> Fe {
    Fe { n0: n, n1: 0, n2: 0, n3: 0 }
}

fn fe_from_fr(f: &Fr) -> Fe {
    let repr = f.to_repr();
    Fe {
        n0: u64::from_le_bytes(repr[0..8].try_into().unwrap()),
        n1: u64::from_le_bytes(repr[8..16].try_into().unwrap()),
        n2: u64::from_le_bytes(repr[16..24].try_into().unwrap()),
        n3: u64::from_le_bytes(repr[24..32].try_into().unwrap()),
    }
}

fn fr_from_fe(f: &Fe) -> Fr {
    Fr::from_raw([f.n0, f.n1, f.n2, f.n3])
}

fn lib_column(column: &H2Column<Any>) -> halo2_inspect::Column {
    match column.column_type() {
        Any::Advice(_) => halo2_inspect::Column::Advice(column.index()),
        Any::Fixed => halo2_inspect::Column::Fixed(column.index()),
        Any::Instance => halo2_inspect::Column::Instance(column.index()),
    }
}

struct TraceCollector {
    instance: Vec<Vec<Fr>>,
    advice: Vec<Vec<CellValue<Fe>>>,
    fixed: Vec<Vec<CellValue<Fe>>>,
    selectors: Vec<Vec<bool>>,
    copies: Vec<CopyConstraint>,
    regions: Vec<RegionRows>,
    current_region: Option<RegionRows>,
}

impl TraceCollector {
    fn new(num_advice: usize, num_fixed: usize, num_selectors: usize, instance: Vec<Vec<Fr>>) -> Self {
        TraceCollector {
            instance,
            advice: vec![Vec::new(); num_advice],
            fixed: vec![Vec::new(); num_fixed],
            selectors: vec![Vec::new(); num_selectors],
            copies: Vec::new(),
            regions: Vec::new(),
            current_region: None,
        }
    }

    fn track_row(&mut self, row: usize) {
        if let Some(region) = self.current_region.as_mut() {
            if !region.used {
                region.used = true;
                region.start = row;
                region.end = row;
            } else {
                if row < region.start {
                    region.start = row;
                }
                if row > region.end {
                    region.end = row;
                }
            }
        }
    }

    fn store(cells: &mut Vec<CellValue<Fe>>, row: usize, value: CellValue<Fe>) {
        if cells.len() <= row {
            cells.resize(row + 1, CellValue::Unassigned);
        }
        cells[row] = value;
    }
}

impl Assignment<Fr> for TraceCollector {
    fn enter_region<NR, N>(&mut self, _name: N)
    where
        NR: Into<String>,
        N: FnOnce() -> NR,
    {
        self.current_region = Some(RegionRows { used: false, start: 0, end: 0 });
    }

    fn annotate_column<A, AR>(&mut self, _annotation: A, _column: H2Column<Any>)
    where
        A: FnOnce() -> AR,
        AR: Into<String>,
    {
    }

    fn exit_region(&mut self) {
        if let Some(region) = self.current_region.take() {
            self.regions.push(region);
        }
    }

    fn enable_selector<A, AR>(
        &mut self,
        _annotation: A,
        selector: &Selector,
        row: usize,
    ) -> Result<(), PlonkError>
    where
        A: FnOnce() -> AR,
        AR: Into<String>,
    {
        self.track_row(row);
        let cells = &mut self.selectors[selector.index()];
        if cells.len() <= row {
            cells.resize(row + 1, false);
        }
        cells[row] = true;
        Ok(())
    }

    fn query_instance(&self, column: H2Column<Instance>, row: usize) -> Result<Value<Fr>, PlonkError> {
        let cells = self.instance.get(column.index()).ok_or(PlonkError::BoundsFailure)?;
        // rows past the provided values are padding, which reads as zero
        Ok(Value::known(cells.get(row).copied().unwrap_or(Fr::from(0))))
    }

    fn assign_advice<'v>(
        &mut self,
        column: H2Column<Advice>,
        row: usize,
        to: Value<Assigned<Fr>>,
    ) -> Value<&'v Assigned<Fr>> {
        self.track_row(row);
        let mut assigned: Option<Assigned<Fr>> = None;
        to.map(|v| {
            assigned = Some(v);
            v
        });
        match assigned {
            Some(v) => {
                Self::store(
                    &mut self.advice[column.index()],
                    row,
                    CellValue::Assigned(fe_from_fr(&v.evaluate())),
                );
                Value::known(Box::leak(Box::new(v)))
            }
            None => Value::unknown(),
        }
    }

    fn assign_fixed(&mut self, column: H2Column<Fixed>, row: usize, to: Assigned<Fr>) {
        self.track_row(row);
        Self::store(
            &mut self.fixed[column.index()],
            row,
            CellValue::Assigned(fe_from_fr(&to.evaluate())),
        );
    }

    fn copy(&mut self, left: H2Column<Any>, left_row: usize, right: H2Column<Any>, right_row: usize) {
        self.copies.push(CopyConstraint {
            left: lib_column(&left),
            left_row,
            right: lib_column(&right),
            right_row,
        });
    }

    fn fill_from_row(
        &mut self,
        column: H2Column<Fixed>,
        row: usize,
        to: Value<Assigned<Fr>>,
    ) -> Result<(), PlonkError> {
        // recording the first filled cell is enough for these circuits
        let mut assigned: Option<Assigned<Fr>> = None;
        to.map(|v| {
            assigned = Some(v);
            v
        });
        if let Some(v) = assigned {
            Self::store(
                &mut self.fixed[column.index()],
                row,
                CellValue::Assigned(fe_from_fr(&v.evaluate())),
            );
        }
        Ok(())
    }

    fn get_challenge(&self, _challenge: Challenge) -> Value<Fr> {
        Value::unknown()
    }

    fn push_namespace<NR, N>(&mut self, _name: N)
    where
        NR: Into<String>,
        N: FnOnce() -> NR,
    {
    }

    fn pop_namespace(&mut self, _gadget_name: Option<String>) {}
}

fn evaluate_circuit<C: Circuit<Fr>>(
    circuit: &C,
    instance: Vec<Vec<Fe>>,
) -> Result<Evaluation<Fe>, PlonkError> {
    let mut cs = ConstraintSystem::<Fr>::default();
    let config = C::configure(&mut cs);
    let instance_values: Vec<Vec<Fr>> =
        instance.iter().map(|col| col.iter().map(fr_from_fe).collect()).collect();
    let mut collector = TraceCollector::new(
        cs.num_advice_columns(),
        cs.num_fixed_columns(),
        cs.num_selectors(),
        instance_values,
    );
    C::FloorPlanner::synthesize(&mut collector, circuit, config, cs.constants().clone())?;
    let num_instance = cs.num_instance_columns();
    Ok(Evaluation {
        advice: collector.advice,
        fixed: collector.fixed,
        instance: (0..num_instance)
            .map(|i| {
                collector
                    .instance
                    .get(i)
                    .map(|col| col.iter().map(|v| InstanceValue::Assigned(fe_from_fr(v))).collect())
                    .unwrap_or_default()
            })
            .collect(),
        selectors: collector.selectors,
        copy_constraints: collector.copies,
        regions: collector.regions,
    })
}

#[derive(Clone, Default)]
struct ProductCircuit {
    a: Fr,
    b: Fr,
}

#[derive(Clone)]
struct ProductConfig {
    selector: Selector,
    advice: H2Column<Advice>,
    instance: H2Column<Instance>,
}

impl Circuit<Fr> for ProductCircuit {
    type Config = ProductConfig;
    type FloorPlanner = SimpleFloorPlanner;
    type Params = ();

    fn without_witnesses(&self) -> Self {
        Self::default()
    }

    fn configure(meta: &mut ConstraintSystem<Fr>) -> Self::Config {
        let selector = meta.selector();
        let _advice_temp = meta.advice_column();
        let advice = meta.advice_column();
        let instance = meta.instance_column();

        meta.enable_equality(advice);
        meta.enable_equality(instance);

        meta.create_gate("product check", |meta| {
            let s = meta.query_selector(selector);
            let a = meta.query_advice(advice, Rotation::cur());
            let b = meta.query_advice(advice, Rotation::next());
            let product = meta.query_advice(advice, Rotation(2));
            vec![s * (a * b - product)]
        });

        ProductConfig { selector, advice, instance }
    }

    fn synthesize(
        &self,
        config: Self::Config,
        mut layouter: impl Layouter<Fr>,
    ) -> Result<(), PlonkError> {
        let product_cell = layouter.assign_region(
            || "region main",
            |mut region| {
                config.selector.enable(&mut region, 0)?;
                region.assign_advice(config.advice, 0, Value::known(self.a));
                region.assign_advice(config.advice, 1, Value::known(self.b));
                let product = region.assign_advice(config.advice, 2, Value::known(self.a * self.b));
                Ok(product.cell())
            },
        )?;
        layouter.constrain_instance(product_cell, config.instance, 0);
        Ok(())
    }
}

impl Evaluable<Fe> for ProductCircuit {
    fn evaluate(&self, _k: u32, instance: Vec<Vec<Fe>>) -> Result<Evaluation<Fe>, PlonkError> {
        evaluate_circuit(self, instance)
    }
}

#[test]
fn infers_the_product_instance() {
    let circuit = ProductCircuit { a: Fr::from(2), b: Fr::from(3) };
    let inferred = infer_instance(&circuit, Some(4)).unwrap();
    assert_eq!(inferred, vec![vec![fe(6)]]);
}

#[test]
fn inference_is_deterministic_end_to_end() {
    let circuit = ProductCircuit { a: Fr::from(1234567), b: Fr::from(7654321) };
    let first = infer_instance(&circuit, Some(4)).unwrap();
    let second = infer_instance(&circuit, Some(4)).unwrap();
    assert_eq!(first, second);
    assert_eq!(first, vec![vec![fe(1234567u64 * 7654321u64)]]);
}

#[test]
fn inference_can_estimate_the_table_size_itself() {
    let circuit = ProductCircuit { a: Fr::from(2), b: Fr::from(3) };
    let inferred = infer_instance(&circuit, None).unwrap();
    assert_eq!(inferred, vec![vec![fe(6)]]);
}

#[test]
fn the_configuration_has_one_instance_column() {
    assert_eq!(get_number_of_instance_columns::<ProductCircuit>(), 1);
}

#[test]
fn estimated_table_size_covers_rows_and_blinding() {
    let circuit = ProductCircuit { a: Fr::from(2), b: Fr::from(3) };
    // rows 0..=2 are used and the configuration reserves 5 blinding rows,
    // so 8 rows must fit: k = 4
    assert_eq!(estimate_k(&circuit).unwrap(), 4);
}

#[test]
fn derived_table_size_fits_the_blinding_rows() {
    // 8 minimum rows need k = 4
    assert_eq!(halo2_inspect::derive_k::<ProductCircuit>(), 4);
}
