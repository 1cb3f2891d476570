//! Employees: list, add, update, delete.

use vstd::prelude::*;
use crate::domain::employee::fields_of;
use crate::domain::employee::Employee;
use crate::domain::employee::NewEmployee;
use crate::infra::query::clause_texts;
use crate::infra::query::filter_integer;
use crate::infra::query::filter_text;
use crate::infra::query::order_ascending;
use crate::infra::query::order_ascending_text;
use crate::infra::query::resource_path;
use crate::infra::query::resource_path_text;
use crate::infra::query::select;
use crate::infra::query::select_text;
use crate::infra::query::Comparison;
use crate::infra::request::Method;
use crate::infra::request::Payload;
use crate::infra::request::Request;
use crate::infra::supabase::request_to;
use crate::infra::supabase::Supabase;
use crate::text::int_text;

verus! {

/// The path of all employees, ordered by their key.
pub open spec fn all_employees_path() -> Seq<char> {
    resource_path_text("employees"@, seq![select_text("*"@), order_ascending_text("id"@)])
}

/// The path of the employee with this key.
pub open spec fn employee_path(id: i64) -> Seq<char> {
    resource_path_text("employees"@, seq![filter_text("id"@, Comparison::Eq, int_text(id as int))])
}

fn path_of_employee(id: i64) -> (r: String)
    ensures
        r@ == employee_path(id),
{
    let mut clauses: Vec<String> = Vec::new();
    clauses.push(filter_integer("id", id));
    assert(clause_texts(clauses@) == seq![
        filter_text("id"@, Comparison::Eq, int_text(id as int)),
    ]);
    resource_path("employees", &clauses)
}

/// Plans the request that returns all employees.
pub fn list_employees(sb: &Supabase) -> (r: Request)
    ensures
        r@ == request_to(*sb, Method::Get, all_employees_path(), Payload::Empty),
{
    let mut clauses: Vec<String> = Vec::new();
    clauses.push(select("*"));
    clauses.push(order_ascending("id"));
    assert(clause_texts(clauses@) == seq![select_text("*"@), order_ascending_text("id"@)]);
    let path = resource_path("employees", &clauses);
    sb.request(Method::Get, path.as_str(), Payload::Empty)
}

/// Plans the request that inserts a new employee. The store assigns the key.
pub fn add_employee(sb: &Supabase, new_emp: NewEmployee) -> (r: Request)
    ensures
        r@ == request_to(*sb, Method::Post, "employees"@, Payload::Employee(new_emp)),
{
    sb.request(Method::Post, "employees", Payload::Employee(new_emp))
}

/// Plans the request that overwrites the fields of the employee with the
/// key of `emp` by those of `emp`.
pub fn update_employee(sb: &Supabase, emp: Employee) -> (r: Request)
    ensures
        r@ == request_to(
            *sb,
            Method::Patch,
            employee_path(emp.id),
            Payload::Employee(fields_of(emp)),
        ),
{
    let path = path_of_employee(emp.id);
    sb.request(Method::Patch, path.as_str(), Payload::Employee(emp.into_fields()))
}

/// Plans the request that removes the employee with this key.
pub fn delete_employee(sb: &Supabase, id: i64) -> (r: Request)
    ensures
        r@ == request_to(*sb, Method::Delete, employee_path(id), Payload::Empty),
{
    let path = path_of_employee(id);
    sb.request(Method::Delete, path.as_str(), Payload::Empty)
}

} // verus!
