//! A request to the store, as a value.

use vstd::prelude::*;
use crate::domain::employee::NewEmployee;
use crate::domain::jabatan::NewJabatan;
use crate::domain::presensi::NewPresensi;

verus! {

/// What the request asks the store to do with the addressed rows.
#[derive(Debug, Clone, Copy, PartialEq, Eq)]
pub enum Method {
    /// Return them.
    Get,
    /// Insert the body as a new row.
    Post,
    /// Overwrite their fields with those of the body.
    Patch,
    /// Remove them.
    Delete,
}

/// One header line of a request.
#[derive(Debug, Clone, PartialEq, Eq)]
pub struct Header {
    pub name: String,
    pub value: String,
}

/// The record that a request carries. The caller writes it as one JSON
/// object with the record's fields.
#[derive(Debug, Clone, PartialEq, Eq)]
pub enum Payload {
    /// The request has no body.
    Empty,
    /// The fields of an employee, without the key.
    Employee(NewEmployee),
    /// The fields of a position.
    Position(NewJabatan),
    /// The fields of an attendance record, without the key.
    Attendance(NewPresensi),
}

/// A request to the store.
#[derive(Debug, Clone, PartialEq, Eq)]
pub struct Request {
    pub method: Method,
    pub url: String,
    pub headers: Vec<Header>,
    pub body: Payload,
}

/// A request with its texts as sequences of characters.
pub struct RequestView {
    pub method: Method,
    pub url: Seq<char>,
    pub headers: Seq<(Seq<char>, Seq<char>)>,
    pub body: Payload,
}

/// The header lines as pairs of name and value.
pub open spec fn header_texts(headers: Seq<Header>) -> Seq<(Seq<char>, Seq<char>)> {
    headers.map_values(|header: Header| (header.name@, header.value@))
}

impl View for Request {
    type V = RequestView;

    open spec fn view(&self) -> RequestView {
        RequestView {
            method: self.method,
            url: self.url@,
            headers: header_texts(self.headers@),
            body: self.body,
        }
    }
}

} // verus!
