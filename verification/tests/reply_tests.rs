use kepegawaian::domain::employee::Employee;
use kepegawaian::error::Operation;
use kepegawaian::error::ServiceError;
use kepegawaian::infra::employee_repo::employee_from_row;
use kepegawaian::infra::employee_repo::keep_decoded;
use kepegawaian::infra::reply::acknowledge;
use kepegawaian::infra::reply::decoded_rows;
use kepegawaian::infra::reply::rows_from_reply;
use kepegawaian::infra::reply::Reply;

fn answered(status: u16, body: &str) -> Reply {
    Reply::Answered { status, body: body.to_string() }
}

fn numbers(text: &str) -> Result<Vec<i64>, String> {
    let inner = text.trim().strip_prefix('[').and_then(|t| t.strip_suffix(']'));
    match inner {
        None => Err("not a list".to_string()),
        Some(t) if t.trim().is_empty() => Ok(Vec::new()),
        Some(t) => t
            .split(',')
            .map(|n| n.trim().parse::<i64>().map_err(|e| e.to_string()))
            .collect(),
    }
}

#[test]
fn every_status_from_200_to_299_acknowledges() {
    for status in 200..=299u16 {
        assert_eq!(acknowledge(answered(status, "ignored")), Ok(()));
    }
}

#[test]
fn every_other_status_is_a_backend_error_with_status_and_body() {
    for status in [0u16, 100, 199, 300, 301, 400, 401, 404, 409, 429, 500, 503, 599, 999, u16::MAX] {
        assert_eq!(
            acknowledge(answered(status, "why")),
            Err(ServiceError::BackendError { status, body: "why".to_string() })
        );
    }
}

#[test]
fn a_duplicate_nik_surfaces_as_the_backend_error_of_the_conflict() {
    let body = "{\"code\":\"23505\",\"message\":\"duplicate key value violates unique constraint\"}";
    assert_eq!(
        acknowledge(answered(409, body)),
        Err(ServiceError::BackendError { status: 409, body: body.to_string() })
    );
}

#[test]
fn an_unreachable_store_is_a_transport_error() {
    let reply = Reply::Unreachable { message: "connection refused".to_string() };
    assert_eq!(
        acknowledge(reply.clone()),
        Err(ServiceError::TransportError { message: "connection refused".to_string() })
    );
    assert_eq!(
        rows_from_reply(reply, numbers),
        Err(ServiceError::TransportError { message: "connection refused".to_string() })
    );
}

#[test]
fn transport_and_backend_errors_differ_in_kind() {
    let transport = acknowledge(Reply::Unreachable { message: "x".to_string() }).unwrap_err();
    let backend = acknowledge(answered(500, "x")).unwrap_err();
    assert!(matches!(transport, ServiceError::TransportError { .. }));
    assert!(matches!(backend, ServiceError::BackendError { .. }));
    assert_ne!(transport, backend);
}

#[test]
fn an_empty_resource_lists_as_an_empty_sequence() {
    assert_eq!(rows_from_reply(answered(200, "[]"), numbers), Ok(Vec::new()));
    assert_eq!(decoded_rows::<i64>(Ok(Vec::new()), "[]".to_string()), Ok(Vec::new()));
}

#[test]
fn rows_of_a_positive_reply_are_what_the_decoder_found() {
    assert_eq!(rows_from_reply(answered(200, "[3, 1, 2]"), numbers), Ok(vec![3, 1, 2]));
    assert_eq!(rows_from_reply(answered(206, "[9]"), numbers), Ok(vec![9]));
}

#[test]
fn a_body_that_does_not_decode_is_handed_back() {
    assert_eq!(
        rows_from_reply(answered(200, "{\"oops\":1}"), numbers),
        Err(ServiceError::DecodeError {
            message: "not a list".to_string(),
            raw_body: "{\"oops\":1}".to_string(),
        })
    );
    assert_eq!(
        decoded_rows::<i64>(Err("bad".to_string()), "raw".to_string()),
        Err(ServiceError::DecodeError { message: "bad".to_string(), raw_body: "raw".to_string() })
    );
}

#[test]
fn a_refused_request_is_not_decoded() {
    let mut called = false;
    let result = rows_from_reply(answered(404, "[1]"), |text: &str| {
        called = true;
        numbers(text)
    });
    assert_eq!(result, Err(ServiceError::BackendError { status: 404, body: "[1]".to_string() }));
    assert!(!called);
}

#[test]
fn messages_name_the_operation_and_the_failure() {
    assert_eq!(
        ServiceError::InvalidInput.message(Operation::ListPresensi),
        "list_presensi: invalid input"
    );
    assert_eq!(
        ServiceError::InvalidDateRange.message(Operation::PresensiSummary),
        "presensi_summary: invalid date range"
    );
    assert_eq!(
        ServiceError::TransportError { message: "dns".to_string() }.message(Operation::ListEmployees),
        "list_employees: transport error: dns"
    );
    assert_eq!(
        ServiceError::BackendError { status: 409, body: "dup".to_string() }
            .message(Operation::AddEmployee),
        "add_employee: backend error 409: dup"
    );
    assert_eq!(
        ServiceError::DecodeError { message: "eof".to_string(), raw_body: "[".to_string() }
            .message(Operation::ListJabatan),
        "list_jabatan: decode error: eof | body: ["
    );
    assert_eq!(
        ServiceError::AuthenticationFailed.message(Operation::LoginAdmin),
        "login_admin: authentication failed"
    );
}

#[test]
fn every_operation_has_its_name() {
    let names = [
        (Operation::ListEmployees, "list_employees"),
        (Operation::AddEmployee, "add_employee"),
        (Operation::UpdateEmployee, "update_employee"),
        (Operation::DeleteEmployee, "delete_employee"),
        (Operation::ListJabatan, "list_jabatan"),
        (Operation::AddJabatan, "add_jabatan"),
        (Operation::UpdateJabatan, "update_jabatan"),
        (Operation::DeleteJabatan, "delete_jabatan"),
        (Operation::ListPresensi, "list_presensi"),
        (Operation::PresensiSummary, "presensi_summary"),
        (Operation::UpsertPresensi, "upsert_presensi"),
        (Operation::LoginAdmin, "login_admin"),
    ];
    for (operation, name) in names {
        assert_eq!(operation.name(), name);
    }
}

fn row(id: i64, flag: i64) -> Employee {
    employee_from_row(
        id,
        format!("nik{id}"),
        "Nama".to_string(),
        "Bagian".to_string(),
        "Staf".to_string(),
        1_000,
        flag,
    )
}

#[test]
fn a_row_is_active_unless_its_flag_is_zero() {
    assert!(row(1, 1).is_active);
    assert!(row(1, 2).is_active);
    assert!(row(1, -1).is_active);
    assert!(!row(1, 0).is_active);
    assert_eq!(
        row(5, 1),
        Employee {
            id: 5,
            nik: "nik5".to_string(),
            name: "Nama".to_string(),
            department: "Bagian".to_string(),
            position: "Staf".to_string(),
            base_salary: 1_000,
            is_active: true,
        }
    );
}

#[test]
fn rows_that_did_not_decode_are_skipped() {
    let rows = vec![Some(row(1, 1)), None, Some(row(2, 0)), None, None, Some(row(3, 1))];
    assert_eq!(keep_decoded(rows), vec![row(1, 1), row(2, 0), row(3, 1)]);
    assert_eq!(keep_decoded::<Employee>(vec![None, None]), Vec::new());
    assert_eq!(keep_decoded::<Employee>(Vec::new()), Vec::new());
}
