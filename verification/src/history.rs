//! The per-day session log: the recorded cycles of one calendar day, the
//! stored record they are persisted as, and the daily rollover policy.

use crate::date::Date;
use crate::time::Duration;
use vstd::prelude::*;

verus! {

/// The recorded measured lengths of one completed cycle, as total second
/// counts.
pub ghost struct EntryModel {
    pub work: int,
    pub rest: int,
}

/// The day a session log belongs to and its recorded cycles, in append
/// order.
#[verifier::ext_equal]
pub ghost struct HistoryModel {
    pub date: Date,
    pub entries: Seq<EntryModel>,
}

impl HistoryModel {
    /// The log's day is a calendar day and every recorded second count fits a
    /// `u64`.
    pub open spec fn wf(self) -> bool {
        &&& self.date.wf()
        &&& forall|i: int|
            0 <= i < self.entries.len() ==> 0 <= (#[trigger] self.entries[i]).work <= u64::MAX
                && 0 <= self.entries[i].rest <= u64::MAX
    }
}

/// One completed cycle: the measured work and rest lengths, immutable once
/// created.
#[derive(Clone, Copy, Debug)]
pub struct HistoryEntry {
    work_interval: Duration,
    rest_interval: Duration,
}

impl View for HistoryEntry {
    type V = EntryModel;

    closed spec fn view(&self) -> EntryModel {
        EntryModel { work: self.work_interval@, rest: self.rest_interval@ }
    }
}

impl HistoryEntry {
    /// Both measured spans are well-formed.
    pub closed spec fn wf(self) -> bool {
        self.work_interval.wf() && self.rest_interval.wf()
    }

    /// Records one completed cycle of measured lengths `work` and `rest`.
    pub fn new(work: Duration, rest: Duration) -> (e: HistoryEntry)
        requires
            work.wf(),
            rest.wf(),
        ensures
            e.wf(),
            e@.work == work@,
            e@.rest == rest@,
    {
        HistoryEntry { work_interval: work, rest_interval: rest }
    }

    /// The measured work span of the cycle.
    pub fn work_interval(&self) -> (d: Duration)
        requires
            self.wf(),
        ensures
            d.wf(),
            d@ == self@.work,
    {
        self.work_interval
    }

    /// The measured rest span of the cycle.
    pub fn rest_interval(&self) -> (d: Duration)
        requires
            self.wf(),
        ensures
            d.wf(),
            d@ == self@.rest,
    {
        self.rest_interval
    }
}

/// One duration field of the stored record: an hours / minutes / seconds
/// decomposition, not necessarily canonical.
#[derive(Clone, Copy, Debug, PartialEq, Eq, Structural)]
pub struct StoredDuration {
    pub hrs: u64,
    pub mins: u64,
    pub secs: u64,
}

/// The mathematical content of a stored duration field.
pub ghost struct StoredDurationModel {
    pub hrs: int,
    pub mins: int,
    pub secs: int,
}

impl StoredDurationModel {
    /// The second count the decomposition stands for.
    pub open spec fn total(self) -> int {
        self.hrs * 3600 + self.mins * 60 + self.secs
    }
}

impl View for StoredDuration {
    type V = StoredDurationModel;

    open spec fn view(&self) -> StoredDurationModel {
        StoredDurationModel { hrs: self.hrs as int, mins: self.mins as int, secs: self.secs as int }
    }
}

/// One entry of the stored record: the two duration decompositions of a
/// recorded cycle.
#[derive(Clone, Copy, Debug, PartialEq, Eq, Structural)]
pub struct StoredEntry {
    pub work_interval: StoredDuration,
    pub rest_interval: StoredDuration,
}

/// The mathematical content of a stored entry.
pub ghost struct StoredEntryModel {
    pub work: StoredDurationModel,
    pub rest: StoredDurationModel,
}

impl View for StoredEntry {
    type V = StoredEntryModel;

    open spec fn view(&self) -> StoredEntryModel {
        StoredEntryModel { work: self.work_interval@, rest: self.rest_interval@ }
    }
}

/// The stored record of a session log: a date text, meant as `YYYY-MM-DD`,
/// and the recorded cycles in order. This is what one persistence overwrite
/// stores, and what a load reads back.
#[derive(Clone, Debug, PartialEq, Eq)]
pub struct StoredHistory {
    pub date: Vec<u8>,
    pub intervals: Vec<StoredEntry>,
}

/// The mathematical content of a stored record.
#[verifier::ext_equal]
pub ghost struct StoredHistoryModel {
    pub date: Seq<u8>,
    pub intervals: Seq<StoredEntryModel>,
}

impl View for StoredHistory {
    type V = StoredHistoryModel;

    open spec fn view(&self) -> StoredHistoryModel {
        StoredHistoryModel {
            date: self.date@,
            intervals: self.intervals@.map_values(|e: StoredEntry| e@),
        }
    }
}

/// The content of an optional stored record.
pub open spec fn spec_stored_view(stored: Option<StoredHistory>) -> Option<StoredHistoryModel> {
    match stored {
        Some(s) => Some(s@),
        None => None,
    }
}

/// Whether a stored record may be reused for `today`: its date text names
/// exactly `today`, and every stored decomposition's total fits a `u64`
/// second count.
pub open spec fn spec_stored_ok(s: StoredHistoryModel, today: Date) -> bool {
    &&& Date::spec_parse_iso(s.date) == Some(today)
    &&& forall|i: int|
        0 <= i < s.intervals.len() ==> (#[trigger] s.intervals[i]).work.total() <= u64::MAX
            && s.intervals[i].rest.total() <= u64::MAX
}

/// The session entries a stored record carries.
pub open spec fn spec_stored_entries(s: StoredHistoryModel) -> Seq<EntryModel> {
    s.intervals.map_values(
        |e: StoredEntryModel| EntryModel { work: e.work.total(), rest: e.rest.total() },
    )
}

/// The load policy: a stored record acceptable for `today` is reused with its
/// entries preserved; a missing, unreadable, overflowing or stale record is
/// discarded for an empty log; either way the loaded log is dated `today`.
pub open spec fn spec_load(stored: Option<StoredHistoryModel>, today: Date) -> HistoryModel {
    match stored {
        Some(s) => if spec_stored_ok(s, today) {
            HistoryModel { date: today, entries: spec_stored_entries(s) }
        } else {
            HistoryModel { date: today, entries: Seq::<EntryModel>::empty() }
        },
        None => HistoryModel { date: today, entries: Seq::<EntryModel>::empty() },
    }
}

/// The canonical stored decomposition of a second count.
pub open spec fn spec_store_duration(total: int) -> StoredDurationModel {
    StoredDurationModel { hrs: total / 3600, mins: (total % 3600) / 60, secs: total % 60 }
}

/// The stored record of a log: its date rendered as `YYYY-MM-DD` and each
/// recorded second count decomposed canonically.
pub open spec fn spec_snapshot(m: HistoryModel) -> StoredHistoryModel {
    StoredHistoryModel {
        date: m.date.spec_to_iso(),
        intervals: m.entries.map_values(
            |e: EntryModel| StoredEntryModel {
                work: spec_store_duration(e.work),
                rest: spec_store_duration(e.rest),
            },
        ),
    }
}

/// The session log of one calendar day: the day it applies to and the
/// recorded cycles in append order.
pub struct History {
    date: Date,
    intervals: Vec<HistoryEntry>,
}

impl View for History {
    type V = HistoryModel;

    closed spec fn view(&self) -> HistoryModel {
        HistoryModel {
            date: self.date,
            entries: self.intervals@.map_values(|e: HistoryEntry| e@),
        }
    }
}

impl History {
    /// The log's day is a calendar day and every entry is well-formed.
    pub closed spec fn wf(self) -> bool {
        &&& self.date.wf()
        &&& forall|i: int|
            0 <= i < self.intervals@.len() ==> (#[trigger] self.intervals@[i]).wf()
    }

    /// An empty log dated `today`.
    pub fn new(today: Date) -> (h: History)
        requires
            today.wf(),
        ensures
            h.wf(),
            h@.date == today,
            h@.entries == Seq::<EntryModel>::empty(),
    {
        let h = History { date: today, intervals: Vec::new() };
        proof {
            assert(h@.entries =~= Seq::<EntryModel>::empty());
        }
        h
    }

    /// The count of recorded cycles.
    pub fn len(&self) -> (n: usize)
        ensures
            n == self@.entries.len(),
    {
        self.intervals.len()
    }

    /// The day the log applies to.
    pub fn date(&self) -> (d: Date)
        ensures
            d == self@.date,
    {
        self.date
    }

    /// Whether the log belongs to the calendar day `today`.
    pub fn is_today(&self, today: &Date) -> (r: bool)
        ensures
            r == (self@.date == *today),
    {
        self.date == *today
    }

    /// Appends one recorded cycle at the end of the log.
    pub fn push(&mut self, interval: HistoryEntry)
        requires
            old(self).wf(),
            interval.wf(),
        ensures
            final(self).wf(),
            final(self)@.date == old(self)@.date,
            final(self)@.entries == old(self)@.entries.push(interval@),
    {
        self.intervals.push(interval);
        proof {
            assert(self@.entries =~= old(self)@.entries.push(interval@));
        }
    }

    /// Rebuilds today's log from a stored record, reusing the record exactly
    /// where it is readable, dated `today`, and within range; everything else
    /// is discarded for an empty log dated `today`.
    pub fn load(stored: Option<StoredHistory>, today: &Date) -> (h: History)
        requires
            today.wf(),
        ensures
            h.wf(),
            h@ == spec_load(spec_stored_view(stored), *today),
    {
        let s = match stored {
            Some(s) => s,
            None => {
                return History::new(*today);
            },
        };
        let parsed = Date::parse_iso(&s.date);
        let date_matches = match parsed {
            Some(d) => d == *today,
            None => false,
        };
        if !date_matches {
            return History::new(*today);
        }
        let mut intervals: Vec<HistoryEntry> = Vec::new();
        let n = s.intervals.len();
        let mut i: usize = 0;
        while i < n
            invariant
                today.wf(),
                spec_stored_view(stored) == Some(s@),
                Date::spec_parse_iso(s.date@) == Some(*today),
                n == s.intervals.len(),
                0 <= i <= n,
                intervals@.len() == i,
                forall|j: int|
                    0 <= j < i ==> (#[trigger] s.intervals@[j])@.work.total() <= u64::MAX
                        && s.intervals@[j]@.rest.total() <= u64::MAX,
                forall|j: int|
                    0 <= j < i ==> (#[trigger] intervals@[j]).wf() && intervals@[j]@
                        == spec_stored_entries(s@)[j],
            decreases n - i,
        {
            let e = &s.intervals[i];
            let work = match Duration::from_parts(
                e.work_interval.hrs,
                e.work_interval.mins,
                e.work_interval.secs,
            ) {
                Some(w) => w,
                None => {
                    proof {
                        assert(s@.intervals[i as int].work.total() > u64::MAX);
                        assert(!spec_stored_ok(s@, *today));
                    }
                    return History::new(*today);
                },
            };
            let rest = match Duration::from_parts(
                e.rest_interval.hrs,
                e.rest_interval.mins,
                e.rest_interval.secs,
            ) {
                Some(r) => r,
                None => {
                    proof {
                        assert(s@.intervals[i as int].rest.total() > u64::MAX);
                        assert(!spec_stored_ok(s@, *today));
                    }
                    return History::new(*today);
                },
            };
            intervals.push(HistoryEntry { work_interval: work, rest_interval: rest });
            i = i + 1;
        }
        let h = History { date: *today, intervals };
        proof {
            assert(spec_stored_ok(s@, *today));
            assert(h@.entries =~= spec_stored_entries(s@));
            assert(h@ =~= spec_load(spec_stored_view(stored), *today));
        }
        h
    }

    /// The record persisted for this log: one full overwrite stores exactly
    /// this.
    pub fn snapshot(&self) -> (r: StoredHistory)
        requires
            self.wf(),
        ensures
            r@ == spec_snapshot(self@),
    {
        let date = self.date.to_iso();
        let mut intervals: Vec<StoredEntry> = Vec::new();
        let n = self.intervals.len();
        let mut i: usize = 0;
        while i < n
            invariant
                self.wf(),
                n == self.intervals.len(),
                date@ == self.date.spec_to_iso(),
                0 <= i <= n,
                intervals@.len() == i,
                forall|j: int|
                    0 <= j < i ==> (#[trigger] intervals@[j])@ == spec_snapshot(self@).intervals[j],
            decreases n - i,
        {
            let e = &self.intervals[i];
            let entry = StoredEntry {
                work_interval: StoredDuration {
                    hrs: e.work_interval.hrs(),
                    mins: e.work_interval.mins(),
                    secs: e.work_interval.secs(),
                },
                rest_interval: StoredDuration {
                    hrs: e.rest_interval.hrs(),
                    mins: e.rest_interval.mins(),
                    secs: e.rest_interval.secs(),
                },
            };
            intervals.push(entry);
            i = i + 1;
        }
        let r = StoredHistory { date, intervals };
        proof {
            assert(r@.intervals =~= spec_snapshot(self@).intervals);
            assert(r@ =~= spec_snapshot(self@));
        }
        r
    }
}

impl Default for History {
    /// A fresh empty log dated the current local day.
    fn default() -> (h: History)
        ensures
            h.wf(),
            h@.entries == Seq::<EntryModel>::empty(),
    {
        History::new(crate::date::today())
    }
}

/// Decomposing a second count canonically and totalling the parts restores
/// the count.
proof fn lemma_store_duration_total(t: int)
    requires
        0 <= t <= u64::MAX,
    ensures
        spec_store_duration(t).total() == t,
{
    assert((t / 3600) * 3600 + ((t % 3600) / 60) * 60 + t % 60 == t) by (nonlinear_arith);
}

/// The daily rollover policy, as one statement: whatever was stored, the
/// loaded log is dated `today`; a record acceptable for `today` is reused
/// with its entries preserved; any other outcome is an empty log.
pub proof fn lemma_load_policy(stored: Option<StoredHistoryModel>, today: Date)
    ensures
        spec_load(stored, today).date == today,
        (stored matches Some(s) && spec_stored_ok(s, today)) ==> spec_load(stored, today).entries
            == spec_stored_entries(stored->Some_0),
        !(stored matches Some(s) && spec_stored_ok(s, today)) ==> spec_load(stored, today).entries
            == Seq::<EntryModel>::empty(),
{
}

/// Persistence round trip: loading a log's stored record back on the day the
/// log belongs to restores the log exactly; hence writing the snapshot,
/// reading it back, and writing again stores the same record.
pub proof fn lemma_persistence_idempotent(m: HistoryModel)
    requires
        m.wf(),
    ensures
        spec_load(Some(spec_snapshot(m)), m.date) == m,
        spec_snapshot(spec_load(Some(spec_snapshot(m)), m.date)) == spec_snapshot(m),
{
    let s = spec_snapshot(m);
    crate::date::lemma_date_round_trip(m.date);
    assert forall|i: int| 0 <= i < s.intervals.len() implies (#[trigger] s.intervals[i]).work.total()
        <= u64::MAX && s.intervals[i].rest.total() <= u64::MAX by {
        lemma_store_duration_total(m.entries[i].work);
        lemma_store_duration_total(m.entries[i].rest);
    }
    assert(spec_stored_ok(s, m.date));
    assert forall|i: int| 0 <= i < m.entries.len() implies spec_stored_entries(s)[i]
        == m.entries[i] by {
        lemma_store_duration_total(m.entries[i].work);
        lemma_store_duration_total(m.entries[i].rest);
    }
    assert(spec_stored_entries(s) =~= m.entries);
    assert(spec_load(Some(s), m.date) =~= m);
}

} // verus!
