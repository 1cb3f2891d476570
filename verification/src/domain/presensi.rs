use vstd::prelude::*;

verus! {

/// One attendance record. The store holds at most one per employee and day.
#[derive(Debug, Clone, PartialEq, Eq)]
pub struct Presensi {
    pub id: i64,
    pub employee_id: i64,
    /// The day, as year, month and day with hyphens between them.
    pub tanggal: String,
    /// One of `hadir`, `sakit`, `cuti`, `absen`.
    pub status: String,
}

/// An attendance record to insert, or to merge into the one of the same
/// employee and day.
#[derive(Debug, Clone, PartialEq, Eq)]
pub struct NewPresensi {
    pub employee_id: i64,
    pub tanggal: String,
    pub status: String,
}

} // verus!
