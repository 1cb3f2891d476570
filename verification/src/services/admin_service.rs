//! The administrator login: one lookup by email and password.

use vstd::prelude::*;
use crate::domain::admin::Admin;
use crate::error::ServiceError;
use crate::infra::query::clause_texts;
use crate::infra::query::filter;
use crate::infra::query::filter_text;
use crate::infra::query::limit;
use crate::infra::query::limit_text;
use crate::infra::query::resource_path;
use crate::infra::query::resource_path_text;
use crate::infra::query::select;
use crate::infra::query::select_text;
use crate::infra::query::Comparison;
use crate::infra::request::Method;
use crate::infra::request::Payload;
use crate::infra::request::Request;
use crate::infra::supabase::request_to;
use crate::infra::supabase::Supabase;

verus! {

/// The path of the administrators with this email and password, at most one.
pub open spec fn login_path(email: Seq<char>, password: Seq<char>) -> Seq<char> {
    resource_path_text(
        "admin"@,
        seq![
            select_text("email"@),
            filter_text("email"@, Comparison::Eq, email),
            filter_text("password"@, Comparison::Eq, password),
            limit_text(1),
        ],
    )
}

/// Plans the lookup of the administrator with this email and password.
pub fn login_admin(sb: &Supabase, email: String, password: String) -> (r: Request)
    ensures
        r@ == request_to(*sb, Method::Get, login_path(email@, password@), Payload::Empty),
{
    let mut clauses: Vec<String> = Vec::new();
    clauses.push(select("email"));
    clauses.push(filter("email", Comparison::Eq, email.as_str()));
    clauses.push(filter("password", Comparison::Eq, password.as_str()));
    clauses.push(limit(1));
    assert(clause_texts(clauses@) == seq![
        select_text("email"@),
        filter_text("email"@, Comparison::Eq, email@),
        filter_text("password"@, Comparison::Eq, password@),
        limit_text(1),
    ]);
    let path = resource_path("admin", &clauses);
    sb.request(Method::Get, path.as_str(), Payload::Empty)
}

/// The administrator that the lookup found: the first row, or an
/// authentication failure if there is none.
pub fn first_admin(rows: Vec<Admin>) -> (r: Result<Admin, ServiceError>)
    ensures
        rows@.len() == 0 ==> r == Err::<Admin, ServiceError>(ServiceError::AuthenticationFailed),
        rows@.len() > 0 ==> r == Ok::<Admin, ServiceError>(rows@[0]),
{
    let mut rows = rows;
    if rows.len() == 0 {
        Err(ServiceError::AuthenticationFailed)
    } else {
        Ok(rows.swap_remove(0))
    }
}

} // verus!
