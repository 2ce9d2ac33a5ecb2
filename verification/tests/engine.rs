use halo2_inspect::{
    collect_instance_assignment, column_mismatches, derive_circuit_name, estimate_k_from_regions,
    instance_value, parse_cell_value, resolve_columns, unwrap_cell_value, unwrap_instance_value,
    CellValue, CircuitExt, Column, CopyConstraint, FactorisationCircuit, Fe, InspectError,
    InstanceValue, RawField, RegionRows, Scalar,
};

fn fe(n: u64) -> Fe {
    Fe { n0: n, n1: 0, n2: 0, n3: 0 }
}

fn assigned(n: u64) -> CellValue<Fe> {
    CellValue::Assigned(fe(n))
}

fn constraint(left: Column, left_row: usize, right: Column, right_row: usize) -> CopyConstraint {
    CopyConstraint { left, left_row, right, right_row }
}

fn internal_message(e: &InspectError) -> &'static str {
    match e {
        InspectError::InternalError(m) => m,
        _ => panic!("expected an internal error"),
    }
}

#[test]
fn infers_value_from_advice_endpoint() {
    let advice = vec![vec![assigned(5), assigned(7), assigned(9)]];
    let fixed: Vec<Vec<CellValue<Fe>>> = vec![];
    let cs = vec![constraint(Column::Instance(0), 0, Column::Advice(0), 2)];
    let out = collect_instance_assignment(1, &advice, &fixed, &cs).unwrap();
    assert_eq!(out, vec![vec![fe(9)]]);
}

#[test]
fn gaps_before_the_constrained_row_are_zero() {
    // two instance columns; only the second one's row 3 is constrained
    let advice = vec![vec![assigned(5), assigned(7), assigned(9)]];
    let fixed: Vec<Vec<CellValue<Fe>>> = vec![];
    let cs = vec![constraint(Column::Advice(0), 2, Column::Instance(1), 3)];
    let out = collect_instance_assignment(2, &advice, &fixed, &cs).unwrap();
    assert_eq!(out, vec![vec![], vec![fe(0), fe(0), fe(0), fe(9)]]);
}

#[test]
fn fixed_endpoints_and_sentinels_resolve() {
    let advice = vec![vec![CellValue::Unassigned]];
    let fixed = vec![vec![assigned(11), CellValue::Poison(6)]];
    let cs = vec![
        constraint(Column::Instance(0), 0, Column::Fixed(0), 0),
        constraint(Column::Instance(0), 1, Column::Fixed(0), 1),
        constraint(Column::Instance(0), 2, Column::Advice(0), 0),
    ];
    let out = collect_instance_assignment(1, &advice, &fixed, &cs).unwrap();
    // an assigned cell, then a poisoned and an unassigned cell, which
    // both resolve to zero for inference
    assert_eq!(out, vec![vec![fe(11), fe(0), fe(0)]]);
}

#[test]
fn constraints_between_private_cells_are_ignored() {
    let advice = vec![vec![assigned(1)], vec![assigned(2)]];
    let fixed: Vec<Vec<CellValue<Fe>>> = vec![];
    let cs = vec![constraint(Column::Advice(0), 0, Column::Advice(1), 0)];
    let out = collect_instance_assignment(1, &advice, &fixed, &cs).unwrap();
    assert_eq!(out, vec![Vec::<Fe>::new()]);
}

#[test]
fn two_runs_agree() {
    let advice = vec![vec![assigned(4), assigned(8)]];
    let fixed = vec![vec![assigned(15)]];
    let cs = vec![
        constraint(Column::Instance(0), 0, Column::Advice(0), 1),
        constraint(Column::Fixed(0), 0, Column::Instance(1), 2),
    ];
    let first = collect_instance_assignment(2, &advice, &fixed, &cs).unwrap();
    let second = collect_instance_assignment(2, &advice, &fixed, &cs).unwrap();
    assert_eq!(first, second);
}

#[test]
fn instance_to_instance_is_rejected() {
    let advice = vec![vec![assigned(1)]];
    let fixed: Vec<Vec<CellValue<Fe>>> = vec![];
    let cs = vec![
        constraint(Column::Instance(0), 0, Column::Advice(0), 0),
        constraint(Column::Instance(0), 1, Column::Instance(1), 0),
    ];
    let err = collect_instance_assignment(2, &advice, &fixed, &cs).unwrap_err();
    assert_eq!(internal_message(&err), "copy constraint joins two instance columns");
}

#[test]
fn no_instance_columns_give_an_empty_assignment() {
    let advice = vec![vec![assigned(1)]];
    let fixed: Vec<Vec<CellValue<Fe>>> = vec![];
    let cs = vec![constraint(Column::Advice(0), 0, Column::Advice(0), 0)];
    let out = collect_instance_assignment(0, &advice, &fixed, &cs).unwrap();
    assert_eq!(out, Vec::<Vec<Fe>>::new());
}

#[test]
fn instance_column_out_of_range_is_rejected() {
    let advice = vec![vec![assigned(1)]];
    let fixed: Vec<Vec<CellValue<Fe>>> = vec![];
    let cs = vec![constraint(Column::Instance(1), 0, Column::Advice(0), 0)];
    let err = collect_instance_assignment(1, &advice, &fixed, &cs).unwrap_err();
    assert_eq!(internal_message(&err), "copy constraint names an instance column out of range");
}

#[test]
fn unresolvable_endpoints_are_rejected() {
    let advice = vec![vec![assigned(1)]];
    let fixed: Vec<Vec<CellValue<Fe>>> = vec![];
    // a selector endpoint
    let cs = vec![constraint(Column::Instance(0), 0, Column::Selector(0), 0)];
    let err = collect_instance_assignment(1, &advice, &fixed, &cs).unwrap_err();
    assert_eq!(internal_message(&err), "copy constraint endpoint is not an advice or fixed cell");
    // an advice row past the table
    let cs = vec![constraint(Column::Instance(0), 0, Column::Advice(0), 7)];
    let err = collect_instance_assignment(1, &advice, &fixed, &cs).unwrap_err();
    assert_eq!(internal_message(&err), "copy constraint endpoint is not an advice or fixed cell");
}

#[test]
fn later_out_of_order_definition_appends_past_the_earlier_one() {
    // the engine does not diagnose out-of-order definitions: the second
    // value lands after the first, not at its own row
    let advice = vec![vec![assigned(5), assigned(7), assigned(9), assigned(13)]];
    let fixed: Vec<Vec<CellValue<Fe>>> = vec![];
    let cs = vec![
        constraint(Column::Instance(0), 3, Column::Advice(0), 3),
        constraint(Column::Instance(0), 1, Column::Advice(0), 1),
    ];
    let out = collect_instance_assignment(1, &advice, &fixed, &cs).unwrap();
    assert_eq!(out, vec![vec![fe(0), fe(0), fe(0), fe(13), fe(7)]]);
}

#[test]
fn cell_sentinels_collapse_to_field_values() {
    assert_eq!(parse_cell_value::<Fe>(CellValue::Unassigned), fe(0));
    assert_eq!(parse_cell_value(CellValue::Assigned(fe(42))), fe(42));
    assert_eq!(parse_cell_value::<Fe>(CellValue::Poison(9)), fe(0));
    assert_eq!(unwrap_cell_value::<Fe>(CellValue::Poison(9)), fe(0));
    assert_eq!(instance_value(&InstanceValue::Assigned(fe(3))), fe(3));
    assert_eq!(instance_value::<Fe>(&InstanceValue::Padding), fe(0));
    assert_eq!(unwrap_instance_value::<Fe>(&InstanceValue::Padding), fe(0));
}

#[test]
fn estimate_k_counts_used_rows_and_blinding() {
    let regions = vec![
        RegionRows { used: true, start: 0, end: 2 },
        RegionRows { used: false, start: 0, end: 0 },
    ];
    // 2 + 5 + 1 = 8 rows need k = 4
    assert_eq!(estimate_k_from_regions(&regions, 5).unwrap(), 4);
    // a single row fits in k = 1
    assert_eq!(estimate_k_from_regions(&vec![], 0).unwrap(), 1);
    // 2 + 6 + 1 = 9 rows need k = 4 as well
    assert_eq!(estimate_k_from_regions(&regions, 6).unwrap(), 4);
    // 2 + 13 + 1 = 16 rows need k = 5
    assert_eq!(estimate_k_from_regions(&regions, 13).unwrap(), 5);
}

#[test]
fn a_backwards_region_is_rejected() {
    let regions = vec![RegionRows { used: true, start: 5, end: 2 }];
    let err = estimate_k_from_regions(&regions, 0).unwrap_err();
    assert_eq!(internal_message(&err), "region reports a last row before its first");
}

#[test]
fn factorisation_circuit_instances_hold_the_product() {
    let circuit = FactorisationCircuit { a: fe(2), b: fe(3) };
    assert_eq!(circuit.instances(), vec![vec![fe(6)]]);
    assert_eq!(circuit.num_instance(), vec![1]);
    // a large product that wraps the first limb
    let circuit = FactorisationCircuit { a: fe(u64::MAX), b: fe(2) };
    let product = circuit.instances()[0][0];
    assert_eq!(product, Fe { n0: u64::MAX - 1, n1: 1, n2: 0, n3: 0 });
}

#[test]
fn derive_circuit_name_takes_the_debug_prefix() {
    let circuit: FactorisationCircuit<Fe> = FactorisationCircuit { a: fe(2), b: fe(3) };
    assert_eq!(derive_circuit_name(&circuit).unwrap(), "FactorisationCircuit");
    // a rendering without a space has no name prefix
    assert!(derive_circuit_name(&42u32).is_err());
}

#[test]
fn scalars_inject_into_the_field() {
    let x: Fe = 7u8.scalar();
    assert_eq!(x, fe(7));
    let x: Fe = true.scalar();
    assert_eq!(x, fe(1));
    let x: Fe = false.scalar();
    assert_eq!(x, fe(0));
    let x: Fe = 1_000_000_000_000u64.scalar();
    assert_eq!(x, fe(1_000_000_000_000));
    let x: Fe = 5usize.scalar();
    assert_eq!(x, fe(5));
    let x: Fe = (-1i32).scalar();
    assert_eq!(x, fe(u64::MAX));
    let x: Fe = 3isize.scalar();
    assert_eq!(x, fe(3));
}

#[test]
fn mismatching_rows_are_listed() {
    let a = vec![assigned(1), CellValue::Unassigned, CellValue::Poison(5), assigned(4)];
    let b = vec![assigned(1), assigned(0), assigned(4)];
    // row 1 agrees (unassigned resolves to zero), row 2 disagrees
    // (poison resolves to zero, the right side holds 4), row 3 is
    // missing on the right
    assert_eq!(column_mismatches(&a, &b), vec![2, 3]);
    assert_eq!(column_mismatches(&Vec::new(), &b), Vec::<usize>::new());
}

#[test]
fn column_names_resolve_in_family_order() {
    let advice = vec!["a".to_string(), "b".to_string()];
    let fixed = vec!["c".to_string(), "b".to_string()];
    let instance = vec!["i".to_string()];
    let selectors = vec!["s".to_string()];
    let asked = vec!["b".to_string(), "c".to_string(), "i".to_string(), "s".to_string()];
    let cols = resolve_columns(&asked, &advice, &fixed, &instance, &selectors).unwrap();
    assert_eq!(
        cols,
        vec![Column::Advice(1), Column::Fixed(0), Column::Instance(0), Column::Selector(0)]
    );
    let missing = vec!["z".to_string()];
    assert!(resolve_columns(&missing, &advice, &fixed, &instance, &selectors).is_err());
}
