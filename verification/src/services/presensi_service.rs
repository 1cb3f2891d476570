//! Attendance: the records of one employee in one month, and the upsert of
//! one record.

use vstd::prelude::*;
use crate::calendar::days_in_month;
use crate::calendar::is_calendar_date;
use crate::calendar::iso_date_text;
use crate::calendar::month_bounds;
use crate::calendar::month_has_bounds;
use crate::calendar::ymd;
use crate::calendar::CalendarDate;
use crate::calendar::DateView;
use crate::domain::presensi::NewPresensi;
use crate::error::ServiceError;
use crate::infra::query::clause_texts;
use crate::infra::query::filter;
use crate::infra::query::filter_integer;
use crate::infra::query::filter_text;
use crate::infra::query::is_unreserved_char;
use crate::infra::query::lemma_digits_are_unreserved;
use crate::infra::query::lemma_unreserved_value_unchanged;
use crate::infra::query::on_conflict;
use crate::infra::query::on_conflict_text;
use crate::infra::query::order_ascending;
use crate::infra::query::order_ascending_text;
use crate::infra::query::percent_encoded;
use crate::infra::query::resource_path;
use crate::infra::query::resource_path_text;
use crate::infra::query::select;
use crate::infra::query::select_text;
use crate::infra::query::Comparison;
use crate::infra::request::header_texts;
use crate::infra::request::Method;
use crate::infra::request::Payload;
use crate::infra::request::Request;
use crate::infra::request::RequestView;
use crate::infra::supabase::endpoint_text;
use crate::infra::supabase::merge_duplicates;
use crate::infra::supabase::merge_duplicates_text;
use crate::infra::supabase::request_headers;
use crate::infra::supabase::request_to;
use crate::infra::supabase::Supabase;
use crate::text::int_text;
use crate::text::lemma_zero_padded_is_digits;
use crate::text::zero_padded;

verus! {

/// The path of the attendance records of one employee from a first to a
/// last day, both included, ordered by day.
pub open spec fn presensi_range_path(employee_id: i64, first: DateView, last: DateView) -> Seq<char> {
    resource_path_text(
        "presensi"@,
        seq![
            select_text("*"@),
            filter_text("employee_id"@, Comparison::Eq, int_text(employee_id as int)),
            filter_text("tanggal"@, Comparison::Gte, iso_date_text(first)),
            filter_text("tanggal"@, Comparison::Lte, iso_date_text(last)),
            order_ascending_text("tanggal"@),
        ],
    )
}

/// The path of the attendance records of one employee in one month.
pub open spec fn month_of_presensi_path(employee_id: i64, year: int, month: int) -> Seq<char> {
    presensi_range_path(employee_id, ymd(year, month, 1), ymd(year, month, days_in_month(year, month)))
}

/// Plans the request that returns the attendance records of one employee
/// from `first` to `last`, both included, ordered by day.
pub fn list_presensi_in_range(
    sb: &Supabase,
    employee_id: i64,
    first: &CalendarDate,
    last: &CalendarDate,
) -> (r: Request)
    ensures
        r@ == request_to(
            *sb,
            Method::Get,
            presensi_range_path(employee_id, first@, last@),
            Payload::Empty,
        ),
{
    let start_date = first.iso_text();
    let end_date = last.iso_text();
    let mut clauses: Vec<String> = Vec::new();
    clauses.push(select("*"));
    clauses.push(filter_integer("employee_id", employee_id));
    clauses.push(filter("tanggal", Comparison::Gte, start_date.as_str()));
    clauses.push(filter("tanggal", Comparison::Lte, end_date.as_str()));
    clauses.push(order_ascending("tanggal"));
    assert(clause_texts(clauses@) == seq![
        select_text("*"@),
        filter_text("employee_id"@, Comparison::Eq, int_text(employee_id as int)),
        filter_text("tanggal"@, Comparison::Gte, start_date@),
        filter_text("tanggal"@, Comparison::Lte, end_date@),
        order_ascending_text("tanggal"@),
    ]);
    let path = resource_path("presensi", &clauses);
    sb.request(Method::Get, path.as_str(), Payload::Empty)
}

/// Plans the request that returns the attendance records of one employee in
/// one month.
///
/// A month outside 1..=12 is refused as invalid input before anything else
/// is looked at; a year whose month the calendar cannot bound is refused as
/// an invalid date range.
pub fn list_presensi_for_employee_month(sb: &Supabase, employee_id: i64, year: i32, month: i32) -> (r:
    Result<Request, ServiceError>)
    ensures
        !(1 <= month <= 12) ==> r == Err::<Request, ServiceError>(ServiceError::InvalidInput),
        (1 <= month <= 12 && !month_has_bounds(year as int, month as int)) ==> r == Err::<
            Request,
            ServiceError,
        >(ServiceError::InvalidDateRange),
        month_has_bounds(year as int, month as int) ==> (r matches Ok(request) && request@
            == request_to(
            *sb,
            Method::Get,
            month_of_presensi_path(employee_id, year as int, month as int),
            Payload::Empty,
        )),
{
    if month < 1 || month > 12 {
        return Err(ServiceError::InvalidInput);
    }
    match month_bounds(year, month) {
        Ok((first, last)) => Ok(list_presensi_in_range(sb, employee_id, &first, &last)),
        Err(error) => Err(error),
    }
}

/// Up to the year 9999 the text of a date is its own encoding: the date
/// filters hold the first and the last day of the month as they are written.
/// (From the year 10000 on the text begins with a plus sign, which is encoded.)
pub proof fn lemma_date_unchanged(date: DateView)
    requires
        is_calendar_date(date.year, date.month, date.day),
        date.year <= 9999,
    ensures
        percent_encoded(iso_date_text(date)) == iso_date_text(date),
{
    let year = if date.year < 0 {
        seq!['-'] + zero_padded((-date.year) as nat, 4)
    } else {
        zero_padded(date.year as nat, 4)
    };
    let month = zero_padded(date.month as nat, 2);
    let day = zero_padded(date.day as nat, 2);
    let text = iso_date_text(date);
    assert(text == year + seq!['-'] + month + seq!['-'] + day);
    lemma_zero_padded_is_digits((-date.year) as nat, 4);
    lemma_zero_padded_is_digits(date.year as nat, 4);
    lemma_zero_padded_is_digits(date.month as nat, 2);
    lemma_zero_padded_is_digits(date.day as nat, 2);
    assert forall|i: int| 0 <= i < year.len() implies is_unreserved_char(#[trigger] year[i]) by {
        lemma_digits_are_unreserved(year[i]);
    }
    assert forall|i: int| 0 <= i < text.len() implies is_unreserved_char(#[trigger] text[i]) by {
        if i < year.len() {
            assert(text[i] == year[i]);
        } else if i == year.len() {
            assert(text[i] == '-');
        } else if i < year.len() + 1 + month.len() {
            assert(text[i] == month[i - year.len() - 1]);
            lemma_digits_are_unreserved(text[i]);
        } else if i == year.len() + 1 + month.len() {
            assert(text[i] == '-');
        } else {
            assert(text[i] == day[i - year.len() - month.len() - 2]);
            lemma_digits_are_unreserved(text[i]);
        }
    }
    lemma_unreserved_value_unchanged(text);
}

/// The path that inserts attendance records and resolves conflicts on the
/// pair of employee and day.
pub open spec fn upsert_presensi_path() -> Seq<char> {
    resource_path_text("presensi"@, seq![on_conflict_text("employee_id,tanggal"@)])
}

/// The request that inserts the record, or merges it into the record that
/// the store already holds for the same employee and day.
pub open spec fn upsert_request(store: Supabase, presensi: NewPresensi) -> RequestView {
    RequestView {
        method: Method::Post,
        url: endpoint_text(store.url@, upsert_presensi_path()),
        headers: request_headers(store.anon_key@, Payload::Attendance(presensi)).push(
            merge_duplicates_text(),
        ),
        body: Payload::Attendance(presensi),
    }
}

/// Plans the request that inserts the record, or overwrites the status of
/// the record that the store already holds for the same employee and day.
pub fn upsert_presensi(sb: &Supabase, presensi: NewPresensi) -> (r: Request)
    ensures
        r@ == upsert_request(*sb, presensi),
{
    let mut clauses: Vec<String> = Vec::new();
    clauses.push(on_conflict("employee_id,tanggal"));
    assert(clause_texts(clauses@) == seq![on_conflict_text("employee_id,tanggal"@)]);
    let path = resource_path("presensi", &clauses);
    let mut request = sb.request(Method::Post, path.as_str(), Payload::Attendance(presensi));
    let ghost before = request.headers@;
    request.headers.push(merge_duplicates());
    assert(header_texts(request.headers@) == header_texts(before).push(merge_duplicates_text()));
    request
}

/// Two upserts for the same store go to the same rows under the same rule
/// for conflicts, whatever their records hold: they differ in the record
/// sent and in nothing else. So an upsert for an employee and day that the
/// store already holds can only overwrite that one record.
pub proof fn lemma_upserts_differ_in_the_record_only(
    store: Supabase,
    first: NewPresensi,
    second: NewPresensi,
)
    ensures
        upsert_request(store, first).method == upsert_request(store, second).method,
        upsert_request(store, first).url == upsert_request(store, second).url,
        upsert_request(store, first).headers == upsert_request(store, second).headers,
        upsert_request(store, first).body == Payload::Attendance(first),
        upsert_request(store, second).body == Payload::Attendance(second),
{
}

} // verus!
