//! Job positions: list, add, update, delete. A position is addressed by its
//! name, which must not be empty.

use vstd::prelude::*;
use crate::domain::jabatan::NewJabatan;
use crate::error::ServiceError;
use crate::infra::query::clause_texts;
use crate::infra::query::filter;
use crate::infra::query::filter_text;
use crate::infra::query::order_ascending;
use crate::infra::query::order_ascending_text;
use crate::infra::query::resource_path;
use crate::infra::query::resource_path_text;
use crate::infra::query::select;
use crate::infra::query::select_text;
use crate::infra::query::Comparison;
use crate::infra::request::Method;
use crate::infra::request::Payload;
use crate::infra::request::Request;
use crate::infra::supabase::request_to;
use crate::infra::supabase::Supabase;

verus! {

/// The path of all positions, ordered by name.
pub open spec fn all_jabatan_path() -> Seq<char> {
    resource_path_text("jabatan"@, seq![select_text("*"@), order_ascending_text("nama"@)])
}

/// The path of the position with this name.
pub open spec fn jabatan_path(nama: Seq<char>) -> Seq<char> {
    resource_path_text("jabatan"@, seq![filter_text("nama"@, Comparison::Eq, nama)])
}

fn path_of_jabatan(nama: &str) -> (r: String)
    ensures
        r@ == jabatan_path(nama@),
{
    let mut clauses: Vec<String> = Vec::new();
    clauses.push(filter("nama", Comparison::Eq, nama));
    assert(clause_texts(clauses@) == seq![filter_text("nama"@, Comparison::Eq, nama@)]);
    resource_path("jabatan", &clauses)
}

/// Plans the request that returns all positions.
pub fn list_jabatan(sb: &Supabase) -> (r: Request)
    ensures
        r@ == request_to(*sb, Method::Get, all_jabatan_path(), Payload::Empty),
{
    let mut clauses: Vec<String> = Vec::new();
    clauses.push(select("*"));
    clauses.push(order_ascending("nama"));
    assert(clause_texts(clauses@) == seq![select_text("*"@), order_ascending_text("nama"@)]);
    let path = resource_path("jabatan", &clauses);
    sb.request(Method::Get, path.as_str(), Payload::Empty)
}

/// Plans the request that inserts a new position, or refuses a position
/// without a name.
pub fn add_jabatan(sb: &Supabase, jabatan: NewJabatan) -> (r: Result<Request, ServiceError>)
    ensures
        jabatan.nama@.len() == 0 ==> r == Err::<Request, ServiceError>(ServiceError::InvalidInput),
        jabatan.nama@.len() > 0 ==> (r matches Ok(request) && request@ == request_to(
            *sb,
            Method::Post,
            "jabatan"@,
            Payload::Position(jabatan),
        )),
{
    if jabatan.nama.as_str().is_empty() {
        return Err(ServiceError::InvalidInput);
    }
    Ok(sb.request(Method::Post, "jabatan", Payload::Position(jabatan)))
}

/// Plans the request that overwrites the position named `nama` by
/// `jabatan`, or refuses an empty name on either side. A new name changes
/// the position's identity: later requests address it by that name.
pub fn update_jabatan(sb: &Supabase, nama: String, jabatan: NewJabatan) -> (r: Result<
    Request,
    ServiceError,
>)
    ensures
        (nama@.len() == 0 || jabatan.nama@.len() == 0) ==> r == Err::<Request, ServiceError>(
            ServiceError::InvalidInput,
        ),
        (nama@.len() > 0 && jabatan.nama@.len() > 0) ==> (r matches Ok(request) && request@
            == request_to(*sb, Method::Patch, jabatan_path(nama@), Payload::Position(jabatan))),
{
    if nama.as_str().is_empty() || jabatan.nama.as_str().is_empty() {
        return Err(ServiceError::InvalidInput);
    }
    let path = path_of_jabatan(nama.as_str());
    Ok(sb.request(Method::Patch, path.as_str(), Payload::Position(jabatan)))
}

/// Plans the request that removes the position named `nama`, or refuses an
/// empty name.
pub fn delete_jabatan(sb: &Supabase, nama: String) -> (r: Result<Request, ServiceError>)
    ensures
        nama@.len() == 0 ==> r == Err::<Request, ServiceError>(ServiceError::InvalidInput),
        nama@.len() > 0 ==> (r matches Ok(request) && request@ == request_to(
            *sb,
            Method::Delete,
            jabatan_path(nama@),
            Payload::Empty,
        )),
{
    if nama.as_str().is_empty() {
        return Err(ServiceError::InvalidInput);
    }
    let path = path_of_jabatan(nama.as_str());
    Ok(sb.request(Method::Delete, path.as_str(), Payload::Empty))
}

} // verus!
