//! Personnel records for an organisation: employees, job positions and
//! attendance, kept in a remote REST store.
//!
//! The crate performs no I/O. Every operation is planned here as a
//! [`infra::request::Request`] value and every answer of the store is
//! interpreted here; sending the request is left to the caller.

pub mod calendar;
pub mod error;
pub mod text;
pub mod domain;
pub mod aggregation;
pub mod infra;
pub mod services;
