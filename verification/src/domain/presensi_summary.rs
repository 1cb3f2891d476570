use vstd::prelude::*;

verus! {

/// How often each status occurs among the attendance records of one
/// employee and month.
#[derive(Debug, Clone, Copy, PartialEq, Eq)]
pub struct PresensiSummary {
    pub total_hadir: u64,
    pub total_sakit: u64,
    pub total_cuti: u64,
    pub total_absen: u64,
}

} // verus!
