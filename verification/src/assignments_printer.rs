//! Resolving the column names a caller asks the printers for.
//!
//! The annotation lists give each column family's names in column order;
//! a requested name resolves to the first column carrying it, searching
//! advice, then fixed, then instance, then selector columns.
use vstd::prelude::*;

use crate::error::InspectError;
use crate::table::Column;

verus! {

/// Whether index `k` is the first position of `names` holding `name`.
pub open spec fn first_match(names: Seq<String>, name: Seq<char>, k: int) -> bool {
    &&& 0 <= k < names.len()
    &&& names[k]@ == name
    &&& forall|j: int| 0 <= j < k ==> names[j]@ != name
}

/// Whether some position of `names` holds `name`.
pub open spec fn has_name(names: Seq<String>, name: Seq<char>) -> bool {
    exists|k: int| 0 <= k < names.len() && names[k]@ == name
}

/// The first column of `names` annotated with `name`, if any.
pub fn find_column_index(names: &Vec<String>, name: &String) -> (r: Option<usize>)
    ensures
        match r {
            Some(k) => first_match(names@, name@, k as int),
            None => !has_name(names@, name@),
        },
{
    let mut i: usize = 0;
    while i < names.len()
        invariant
            i <= names@.len(),
            forall|j: int| 0 <= j < i ==> names@[j]@ != name@,
        decreases names@.len() - i,
    {
        if names[i].eq(name) {
            return Some(i);
        }
        i = i + 1;
    }
    None
}

/// Whether `name` resolves to column `c` given the four annotation lists.
pub open spec fn resolves_to(
    name: Seq<char>,
    advice: Seq<String>,
    fixed: Seq<String>,
    instance: Seq<String>,
    selectors: Seq<String>,
    c: Column,
) -> bool {
    match c {
        Column::Advice(k) => first_match(advice, name, k as int),
        Column::Fixed(k) => !has_name(advice, name) && first_match(fixed, name, k as int),
        Column::Instance(k) => !has_name(advice, name) && !has_name(fixed, name) && first_match(
            instance,
            name,
            k as int,
        ),
        Column::Selector(k) => !has_name(advice, name) && !has_name(fixed, name) && !has_name(
            instance,
            name,
        ) && first_match(selectors, name, k as int),
    }
}

/// Resolve each requested column name to the column that carries it,
/// searching the column families in the printers' order.  Fails when some
/// name is annotated nowhere.
pub fn resolve_columns(
    columns_to_print: &Vec<String>,
    advice_annotations: &Vec<String>,
    fixed_annotations: &Vec<String>,
    instance_annotations: &Vec<String>,
    selector_annotations: &Vec<String>,
) -> (r: Result<Vec<Column>, InspectError>)
    ensures
        match r {
            Ok(cols) => {
                &&& cols@.len() == columns_to_print@.len()
                &&& forall|k: int|
                    0 <= k < cols@.len() ==> resolves_to(
                        (#[trigger] columns_to_print@[k])@,
                        advice_annotations@,
                        fixed_annotations@,
                        instance_annotations@,
                        selector_annotations@,
                        cols@[k],
                    )
            },
            Err(e) => {
                &&& exists|k: int|
                    0 <= k < columns_to_print@.len() && !has_name(
                        advice_annotations@,
                        (#[trigger] columns_to_print@[k])@,
                    ) && !has_name(fixed_annotations@, columns_to_print@[k]@) && !has_name(
                        instance_annotations@,
                        columns_to_print@[k]@,
                    ) && !has_name(selector_annotations@, columns_to_print@[k]@)
                &&& e matches InspectError::InternalError(_)
            },
        },
{
    let mut cols: Vec<Column> = Vec::new();
    let mut i: usize = 0;
    while i < columns_to_print.len()
        invariant
            i <= columns_to_print@.len(),
            cols@.len() == i as int,
            forall|k: int|
                0 <= k < i ==> resolves_to(
                    (#[trigger] columns_to_print@[k])@,
                    advice_annotations@,
                    fixed_annotations@,
                    instance_annotations@,
                    selector_annotations@,
                    cols@[k],
                ),
        decreases columns_to_print@.len() - i,
    {
        let name = &columns_to_print[i];
        let resolved: Column = match find_column_index(advice_annotations, name) {
            Some(k) => Column::Advice(k),
            None => match find_column_index(fixed_annotations, name) {
                Some(k) => Column::Fixed(k),
                None => match find_column_index(instance_annotations, name) {
                    Some(k) => Column::Instance(k),
                    None => match find_column_index(selector_annotations, name) {
                        Some(k) => Column::Selector(k),
                        None => {
                            return Err(
                                InspectError::InternalError("a requested column is not annotated"),
                            );
                        },
                    },
                },
            },
        };
        cols.push(resolved);
        i = i + 1;
    }
    Ok(cols)
}

} // verus!
