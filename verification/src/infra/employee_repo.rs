//! The rows of the local employee table, turned into employees.

use vstd::prelude::*;
use crate::domain::employee::Employee;

verus! {

/// The employee that a row of the local table stands for. The table keeps
/// the active flag as a number: zero for inactive, anything else for active.
pub fn employee_from_row(
    id: i64,
    nik: String,
    name: String,
    department: String,
    position: String,
    base_salary: i64,
    is_active: i64,
) -> (r: Employee)
    ensures
        r == (Employee {
            id,
            nik,
            name,
            department,
            position,
            base_salary,
            is_active: is_active != 0,
        }),
{
    Employee { id, nik, name, department, position, base_salary, is_active: is_active != 0 }
}

/// The rows that decoded, in their order.
pub open spec fn decoded_only<T>(rows: Seq<Option<T>>) -> Seq<T>
    decreases rows.len(),
{
    if rows.len() == 0 {
        seq![]
    } else {
        let rest = decoded_only(rows.drop_last());
        match rows.last() {
            Some(row) => rest.push(row),
            None => rest,
        }
    }
}

/// Keeps the rows that decoded and skips the others: a row that cannot be
/// read does not fail the whole list.
pub fn keep_decoded<T>(rows: Vec<Option<T>>) -> (kept: Vec<T>)
    ensures
        kept@ == decoded_only(rows@),
{
    let ghost all = rows@;
    let mut rows = rows;
    let mut kept: Vec<T> = Vec::new();
    let mut reversed: Vec<T> = Vec::new();
    while rows.len() > 0
        invariant
            rows@.len() <= all.len(),
            rows@ == all.take(rows@.len() as int),
            decoded_only(all) == decoded_only(rows@) + reversed@.reverse(),
        decreases rows.len(),
    {
        let ghost before = rows@;
        let ghost tail = reversed@;
        let last = rows.pop();
        assert(rows@ == before.drop_last());
        match last {
            Some(Some(row)) => {
                reversed.push(row);
                assert(reversed@.reverse() == seq![row] + tail.reverse());
                assert(decoded_only(before) == decoded_only(rows@).push(row));
            },
            _ => {},
        }
    }
    assert(decoded_only(rows@) == Seq::<T>::empty());
    while reversed.len() > 0
        invariant
            decoded_only(all) == kept@ + reversed@.reverse(),
        decreases reversed.len(),
    {
        let ghost tail = reversed@;
        match reversed.pop() {
            Some(row) => {
                kept.push(row);
                assert(tail.reverse() == seq![row] + reversed@.reverse());
            },
            None => {},
        }
    }
    assert(reversed@.reverse() == Seq::<T>::empty());
    kept
}

} // verus!
