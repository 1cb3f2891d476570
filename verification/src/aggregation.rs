//! Attendance records reduced to one count per status.

use vstd::prelude::*;
use crate::domain::presensi::Presensi;
use crate::domain::presensi_summary::PresensiSummary;

verus! {

/// Whether `status` is one of the four that are counted.
pub open spec fn is_recognized(status: Seq<char>) -> bool {
    status == "hadir"@ || status == "sakit"@ || status == "cuti"@ || status == "absen"@
}

/// The number of records whose status is `status`.
pub open spec fn count_status(records: Seq<Presensi>, status: Seq<char>) -> nat
    decreases records.len(),
{
    if records.len() == 0 {
        0
    } else {
        let rest = count_status(records.drop_last(), status);
        if records.last().status@ == status {
            rest + 1
        } else {
            rest
        }
    }
}

/// The statuses that are counted nowhere, in the order of their records.
pub open spec fn unrecognized(records: Seq<Presensi>) -> Seq<Seq<char>>
    decreases records.len(),
{
    if records.len() == 0 {
        seq![]
    } else {
        let rest = unrecognized(records.drop_last());
        if is_recognized(records.last().status@) {
            rest
        } else {
            rest.push(records.last().status@)
        }
    }
}

/// Counts the records of each status. A record with any other status is
/// counted nowhere.
pub fn summarize(records: &Vec<Presensi>) -> (summary: PresensiSummary)
    ensures
        summary.total_hadir == count_status(records@, "hadir"@),
        summary.total_sakit == count_status(records@, "sakit"@),
        summary.total_cuti == count_status(records@, "cuti"@),
        summary.total_absen == count_status(records@, "absen"@),
{
    let hadir = String::from_str("hadir");
    let sakit = String::from_str("sakit");
    let cuti = String::from_str("cuti");
    let absen = String::from_str("absen");
    let mut summary = PresensiSummary { total_hadir: 0, total_sakit: 0, total_cuti: 0, total_absen: 0 };
    let mut i: usize = 0;
    while i < records.len()
        invariant
            i <= records.len(),
            hadir@ == "hadir"@,
            sakit@ == "sakit"@,
            cuti@ == "cuti"@,
            absen@ == "absen"@,
            summary.total_hadir == count_status(records@.take(i as int), "hadir"@) <= i,
            summary.total_sakit == count_status(records@.take(i as int), "sakit"@) <= i,
            summary.total_cuti == count_status(records@.take(i as int), "cuti"@) <= i,
            summary.total_absen == count_status(records@.take(i as int), "absen"@) <= i,
        decreases records.len() - i,
    {
        assert(records@.take(i + 1).drop_last() == records@.take(i as int));
        let status = &records[i].status;
        if *status == hadir {
            summary.total_hadir += 1;
        }
        if *status == sakit {
            summary.total_sakit += 1;
        }
        if *status == cuti {
            summary.total_cuti += 1;
        }
        if *status == absen {
            summary.total_absen += 1;
        }
        i += 1;
    }
    assert(records@.take(i as int) == records@);
    summary
}

/// The statuses that `summarize` counts nowhere, one entry per such record
/// and in the order of the records, for the caller to report.
pub fn unrecognized_statuses(records: &Vec<Presensi>) -> (found: Vec<String>)
    ensures
        found@.map_values(|status: String| status@) == unrecognized(records@),
        found@.len() == unrecognized(records@).len(),
{
    let hadir = String::from_str("hadir");
    let sakit = String::from_str("sakit");
    let cuti = String::from_str("cuti");
    let absen = String::from_str("absen");
    let mut found: Vec<String> = Vec::new();
    let mut i: usize = 0;
    while i < records.len()
        invariant
            i <= records.len(),
            hadir@ == "hadir"@,
            sakit@ == "sakit"@,
            cuti@ == "cuti"@,
            absen@ == "absen"@,
            found@.map_values(|status: String| status@) == unrecognized(records@.take(i as int)),
        decreases records.len() - i,
    {
        assert(records@.take(i + 1).drop_last() == records@.take(i as int));
        let status = &records[i].status;
        if !(*status == hadir || *status == sakit || *status == cuti || *status == absen) {
            let ghost before = found@;
            let copy = status.clone();
            found.push(copy);
            assert(found@.map_values(|status: String| status@) == before.map_values(
                |status: String| status@,
            ).push(copy@));
        }
        i += 1;
    }
    assert(records@.take(i as int) == records@);
    found
}

/// The four recognized statuses are four different texts.
pub proof fn lemma_statuses_differ()
    ensures
        "hadir"@ != "sakit"@,
        "hadir"@ != "cuti"@,
        "hadir"@ != "absen"@,
        "sakit"@ != "cuti"@,
        "sakit"@ != "absen"@,
        "cuti"@ != "absen"@,
{
    reveal_strlit("hadir");
    reveal_strlit("sakit");
    reveal_strlit("cuti");
    reveal_strlit("absen");
    assert("hadir"@[0] == 'h');
    assert("sakit"@[0] == 's');
    assert("absen"@[0] == 'a');
    assert("cuti"@.len() == 4);
}

/// Without records every count is zero and nothing is left over.
pub proof fn lemma_empty_counts(status: Seq<char>)
    ensures
        count_status(Seq::<Presensi>::empty(), status) == 0,
        unrecognized(Seq::<Presensi>::empty()) == Seq::<Seq<char>>::empty(),
{
}

/// Every record is counted exactly once: under its status if that is one of
/// the four, among the unrecognized otherwise. So the four counts never add
/// up to more than the number of records.
pub proof fn lemma_every_record_counted_once(records: Seq<Presensi>)
    ensures
        count_status(records, "hadir"@) + count_status(records, "sakit"@) + count_status(
            records,
            "cuti"@,
        ) + count_status(records, "absen"@) + unrecognized(records).len() == records.len(),
    decreases records.len(),
{
    lemma_statuses_differ();
    if records.len() > 0 {
        lemma_every_record_counted_once(records.drop_last());
    }
}

/// The statuses of the records, in their order.
pub open spec fn statuses(records: Seq<Presensi>) -> Seq<Seq<char>> {
    records.map_values(|record: Presensi| record.status@)
}

/// A count is the number of times that the status occurs among the statuses
/// of the records, whatever their order.
pub proof fn lemma_count_is_multiplicity(records: Seq<Presensi>, status: Seq<char>)
    ensures
        count_status(records, status) == statuses(records).to_multiset().count(status),
    decreases records.len(),
{
    broadcast use vstd::multiset::group_multiset_axioms;

    if records.len() == 0 {
        assert(statuses(records) == Seq::<Seq<char>>::empty());
        assert(statuses(records).to_multiset().len() == 0) by {
            vstd::seq_lib::to_multiset_len(statuses(records));
        }
    } else {
        lemma_count_is_multiplicity(records.drop_last(), status);
        assert(statuses(records) == statuses(records.drop_last()).push(records.last().status@));
        vstd::seq_lib::to_multiset_build(statuses(records.drop_last()), records.last().status@);
    }
}

/// Two lists of records that hold the same statuses equally often have the
/// same counts: the order of the records does not matter.
pub proof fn lemma_order_independent(first: Seq<Presensi>, second: Seq<Presensi>, status: Seq<char>)
    requires
        statuses(first).to_multiset() == statuses(second).to_multiset(),
    ensures
        count_status(first, status) == count_status(second, status),
{
    lemma_count_is_multiplicity(first, status);
    lemma_count_is_multiplicity(second, status);
}

} // verus!
