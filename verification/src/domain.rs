//! The records that the service reads and writes.

pub mod admin;
pub mod employee;
pub mod jabatan;
pub mod presensi;
pub mod presensi_summary;
