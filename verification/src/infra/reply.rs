//! What came back for a request, and what it means for the operation.

use vstd::prelude::*;
use crate::error::ServiceError;

verus! {

/// The outcome of sending one request.
#[derive(Debug, Clone, PartialEq, Eq)]
pub enum Reply {
    /// No answer arrived: the name did not resolve, the connection was
    /// refused, the time ran out.
    Unreachable { message: String },
    /// The store answered. The body is empty if it could not be read.
    Answered { status: u16, body: String },
}

/// Whether the status acknowledges the request: the codes 200 to 299.
pub open spec fn is_success(status: u16) -> bool {
    200 <= status <= 299
}

/// What a reply means for an operation that returns nothing.
pub open spec fn acknowledgment(reply: Reply) -> Result<(), ServiceError> {
    match reply {
        Reply::Unreachable { message } => Err(ServiceError::TransportError { message }),
        Reply::Answered { status, body } => if is_success(status) {
            Ok(())
        } else {
            Err(ServiceError::BackendError { status, body })
        },
    }
}

/// The result of an operation that changes the store: success on a positive
/// acknowledgment, and otherwise the failure with all that the reply holds.
pub fn acknowledge(reply: Reply) -> (r: Result<(), ServiceError>)
    ensures
        r == acknowledgment(reply),
{
    match reply {
        Reply::Unreachable { message } => Err(ServiceError::TransportError { message }),
        Reply::Answered { status, body } => {
            if 200 <= status && status <= 299 {
                Ok(())
            } else {
                Err(ServiceError::BackendError { status, body })
            }
        },
    }
}

/// What decoding the body of a positive reply gave, as the result of the
/// operation: the rows, or the failure with the body that was not understood.
pub open spec fn decoding<T>(decoded: Result<Vec<T>, String>, raw_body: String) -> Result<
    Vec<T>,
    ServiceError,
> {
    match decoded {
        Ok(rows) => Ok(rows),
        Err(message) => Err(ServiceError::DecodeError { message, raw_body }),
    }
}

/// The result of an operation that returns rows, from what decoding the
/// body of a positive reply gave.
pub fn decoded_rows<T>(decoded: Result<Vec<T>, String>, raw_body: String) -> (r: Result<
    Vec<T>,
    ServiceError,
>)
    ensures
        r == decoding(decoded, raw_body),
{
    match decoded {
        Ok(rows) => Ok(rows),
        Err(message) => Err(ServiceError::DecodeError { message, raw_body }),
    }
}

/// The result of an operation that returns rows. The body is decoded only
/// when the store answered with success; a body that does not decode is
/// handed back with the decoder's message.
pub fn rows_from_reply<T, F: FnOnce(&str) -> Result<Vec<T>, String>>(reply: Reply, decode: F) -> (r:
    Result<Vec<T>, ServiceError>)
    requires
        forall|text: &str| decode.requires((text,)),
    ensures
        match reply {
            Reply::Unreachable { message } => r == Err::<Vec<T>, ServiceError>(
                ServiceError::TransportError { message },
            ),
            Reply::Answered { status, body } => if is_success(status) {
                exists|text: &str, decoded: Result<Vec<T>, String>|
                    text@ == body@ && #[trigger] decode.ensures((text,), decoded) && r == decoding(
                        decoded,
                        body,
                    )
            } else {
                r == Err::<Vec<T>, ServiceError>(ServiceError::BackendError { status, body })
            },
        },
{
    match reply {
        Reply::Unreachable { message } => Err(ServiceError::TransportError { message }),
        Reply::Answered { status, body } => {
            if 200 <= status && status <= 299 {
                let decoded = decode(body.as_str());
                decoded_rows(decoded, body)
            } else {
                Err(ServiceError::BackendError { status, body })
            }
        },
    }
}

/// A store without matching rows gives an empty list, never a failure: rows
/// that decoded are the result as they are, also when there is none.
pub proof fn lemma_no_rows_is_no_failure<T>(rows: Vec<T>, raw_body: String)
    requires
        rows@.len() == 0,
    ensures
        decoding(Ok(rows), raw_body) matches Ok(found) && found@.len() == 0,
{
}

/// A request that never reached the store and a request that the store
/// refused fail in different kinds: the first as a transport error, the
/// second as a backend error with the status and body of the answer.
pub proof fn lemma_failure_kinds(message: String, status: u16, body: String)
    requires
        !is_success(status),
    ensures
        acknowledgment(Reply::Unreachable { message }) == Err::<(), ServiceError>(
            ServiceError::TransportError { message },
        ),
        acknowledgment(Reply::Answered { status, body }) == Err::<(), ServiceError>(
            ServiceError::BackendError { status, body },
        ),
        acknowledgment(Reply::Unreachable { message }) != acknowledgment(
            Reply::Answered { status, body },
        ),
{
}

} // verus!
