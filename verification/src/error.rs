//! The failures that an operation of the service can end in.

use vstd::prelude::*;
use crate::text::int_text;
use crate::text::integer_text;

verus! {

/// Why an operation did not produce its result.
#[derive(Debug, Clone, PartialEq, Eq)]
pub enum ServiceError {
    /// A value supplied by the caller fails a precondition of the operation.
    InvalidInput,
    /// The year and month do not name a month whose bounds the calendar can give.
    InvalidDateRange,
    /// The store could not be reached; no status code exists.
    TransportError { message: String },
    /// The store answered with a status outside 200..=299.
    BackendError { status: u16, body: String },
    /// The store acknowledged the request but its body has an unexpected shape.
    DecodeError { message: String, raw_body: String },
    /// The credential lookup matched no administrator.
    AuthenticationFailed,
}

/// The operations of the service, for the context of a failure.
#[derive(Debug, Clone, Copy, PartialEq, Eq)]
pub enum Operation {
    ListEmployees,
    AddEmployee,
    UpdateEmployee,
    DeleteEmployee,
    ListJabatan,
    AddJabatan,
    UpdateJabatan,
    DeleteJabatan,
    ListPresensi,
    PresensiSummary,
    UpsertPresensi,
    LoginAdmin,
}

/// The name of an operation, as a failure's message shows it.
pub open spec fn operation_name(operation: Operation) -> Seq<char> {
    match operation {
        Operation::ListEmployees => "list_employees"@,
        Operation::AddEmployee => "add_employee"@,
        Operation::UpdateEmployee => "update_employee"@,
        Operation::DeleteEmployee => "delete_employee"@,
        Operation::ListJabatan => "list_jabatan"@,
        Operation::AddJabatan => "add_jabatan"@,
        Operation::UpdateJabatan => "update_jabatan"@,
        Operation::DeleteJabatan => "delete_jabatan"@,
        Operation::ListPresensi => "list_presensi"@,
        Operation::PresensiSummary => "presensi_summary"@,
        Operation::UpsertPresensi => "upsert_presensi"@,
        Operation::LoginAdmin => "login_admin"@,
    }
}

/// What a failure says of itself, without the operation.
pub open spec fn failure_text(error: ServiceError) -> Seq<char> {
    match error {
        ServiceError::InvalidInput => "invalid input"@,
        ServiceError::InvalidDateRange => "invalid date range"@,
        ServiceError::TransportError { message } => "transport error: "@ + message@,
        ServiceError::BackendError { status, body } => "backend error "@ + int_text(status as int)
            + ": "@ + body@,
        ServiceError::DecodeError { message, raw_body } => "decode error: "@ + message@
            + " | body: "@ + raw_body@,
        ServiceError::AuthenticationFailed => "authentication failed"@,
    }
}

/// The message of a failure: the operation's name, a colon, and what the
/// failure says of itself.
pub open spec fn message_text(operation: Operation, error: ServiceError) -> Seq<char> {
    operation_name(operation) + ": "@ + failure_text(error)
}

impl Operation {
    /// The name of the operation.
    pub fn name(&self) -> (r: &'static str)
        ensures
            r@ == operation_name(*self),
    {
        match self {
            Operation::ListEmployees => "list_employees",
            Operation::AddEmployee => "add_employee",
            Operation::UpdateEmployee => "update_employee",
            Operation::DeleteEmployee => "delete_employee",
            Operation::ListJabatan => "list_jabatan",
            Operation::AddJabatan => "add_jabatan",
            Operation::UpdateJabatan => "update_jabatan",
            Operation::DeleteJabatan => "delete_jabatan",
            Operation::ListPresensi => "list_presensi",
            Operation::PresensiSummary => "presensi_summary",
            Operation::UpsertPresensi => "upsert_presensi",
            Operation::LoginAdmin => "login_admin",
        }
    }
}

impl ServiceError {
    /// The message that the caller of `operation` is shown for this failure.
    pub fn message(&self, operation: Operation) -> (r: String)
        ensures
            r@ == message_text(operation, *self),
    {
        let mut text = String::from_str(operation.name());
        text.append(": ");
        match self {
            ServiceError::InvalidInput => text.append("invalid input"),
            ServiceError::InvalidDateRange => text.append("invalid date range"),
            ServiceError::TransportError { message } => {
                text.append("transport error: ");
                text.append(message.as_str());
            },
            ServiceError::BackendError { status, body } => {
                let code = integer_text(*status as i64);
                text.append("backend error ");
                text.append(code.as_str());
                text.append(": ");
                text.append(body.as_str());
            },
            ServiceError::DecodeError { message, raw_body } => {
                text.append("decode error: ");
                text.append(message.as_str());
                text.append(" | body: ");
                text.append(raw_body.as_str());
            },
            ServiceError::AuthenticationFailed => text.append("authentication failed"),
        }
        text
    }
}

} // verus!
