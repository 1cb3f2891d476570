//! The operations of the personnel service, one function each.
//!
//! An operation validates what the caller supplied and plans the request to
//! the store. The functions of [`crate::infra::reply`] turn the store's reply
//! into the operation's result.

pub mod admin_service;
pub mod employee_service;
pub mod jabatan_service;
pub mod presensi_service;
