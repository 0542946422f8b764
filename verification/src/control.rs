//! The session runner's decision core: it owns the scheduler and today's log,
//! grants intervals, records completed cycles, and says what to persist and
//! when to stop. Waiting, dialogs and file traffic are the embedding
//! program's part.

use crate::config::{Phase, Pomodoro, PomodoroModel, PomodoroSettings, spec_default_model,
    spec_settings_model};
use crate::date::Date;
use crate::history::{EntryModel, History, HistoryEntry, HistoryModel, StoredHistory, spec_load,
    spec_snapshot, spec_stored_view};
use crate::time::Duration;
use vstd::prelude::*;

verus! {

/// The configuration-load policy: a settings record is used exactly where
/// every field is positive; a missing or rejected record is replaced by the
/// defaults.
pub open spec fn spec_load_pomodoro(settings: Option<PomodoroSettings>) -> PomodoroModel {
    match settings {
        Some(s) => if s.work_duration > 0 && s.short_break_duration > 0 && s.long_break_duration
            > 0 && s.cycles_before_long_break > 0 {
            spec_settings_model(s)
        } else {
            spec_default_model()
        },
        None => spec_default_model(),
    }
}

/// The controller of one run: the interval scheduler and today's session log.
pub struct Control {
    pomodoro: Pomodoro,
    history: History,
}

impl Control {
    /// Both owned components are well-formed.
    pub closed spec fn wf(self) -> bool {
        self.pomodoro.wf() && self.history.wf()
    }

    /// The scheduler's state.
    pub closed spec fn spec_pomodoro(self) -> PomodoroModel {
        self.pomodoro@
    }

    /// The session log's content.
    pub closed spec fn spec_history(self) -> HistoryModel {
        self.history@
    }

    /// A controller with the default configuration and an empty log dated the
    /// current local day.
    pub fn new() -> (c: Control)
        ensures
            c.wf(),
            c.spec_pomodoro() == spec_default_model(),
            c.spec_history().entries.len() == 0,
    {
        Control { pomodoro: Pomodoro::default(), history: History::default() }
    }

    /// Builds a scheduler by the configuration-load policy.
    pub fn load_pomodoro(settings: Option<PomodoroSettings>) -> (p: Pomodoro)
        ensures
            p.wf(),
            p@ == spec_load_pomodoro(settings),
    {
        match settings {
            Some(s) => {
                match Pomodoro::from_settings(&s) {
                    Some(p) => p,
                    None => Pomodoro::default(),
                }
            },
            None => Pomodoro::default(),
        }
    }

    /// Builds a session log by the daily rollover policy.
    pub fn load_history(stored: Option<StoredHistory>, today: &Date) -> (h: History)
        requires
            today.wf(),
        ensures
            h.wf(),
            h@ == spec_load(spec_stored_view(stored), *today),
    {
        History::load(stored, today)
    }

    /// A controller for today: the settings are used where valid, else the
    /// defaults; the stored log is reused exactly where dated `today`.
    pub fn load(settings: Option<PomodoroSettings>, stored: Option<StoredHistory>, today: &Date) -> (c:
        Control)
        requires
            today.wf(),
        ensures
            c.wf(),
            c.spec_pomodoro() == spec_load_pomodoro(settings),
            c.spec_history() == spec_load(spec_stored_view(stored), *today),
    {
        Control {
            pomodoro: Control::load_pomodoro(settings),
            history: Control::load_history(stored, today),
        }
    }

    /// Grants the next work interval; see the scheduler's work transition.
    pub fn next_work_interval(&mut self) -> (d: Duration)
        requires
            old(self).wf(),
            old(self).spec_pomodoro().phase == Phase::Working,
        ensures
            final(self).wf(),
            final(self).spec_pomodoro() == old(self).spec_pomodoro().spec_next_work().0,
            final(self).spec_history() == old(self).spec_history(),
            d.wf(),
            d@ == old(self).spec_pomodoro().spec_next_work().1,
    {
        self.pomodoro.next_work_interval()
    }

    /// Grants the next rest interval; see the scheduler's rest transition.
    pub fn next_rest_interval(&mut self) -> (d: Duration)
        requires
            old(self).wf(),
            old(self).spec_pomodoro().phase == Phase::Resting,
        ensures
            final(self).wf(),
            final(self).spec_pomodoro() == old(self).spec_pomodoro().spec_next_rest().0,
            final(self).spec_history() == old(self).spec_history(),
            d.wf(),
            d@ == old(self).spec_pomodoro().spec_next_rest().1,
    {
        self.pomodoro.next_rest_interval()
    }

    /// Whether a work interval is due next.
    pub fn expects_work(&self) -> (r: bool)
        ensures
            r == (self.spec_pomodoro().phase == Phase::Working),
    {
        self.pomodoro.expects_work()
    }

    /// The completed-cycle counter of the scheduler.
    pub fn cycles_done(&self) -> (n: u8)
        ensures
            n as int == self.spec_pomodoro().done,
    {
        self.pomodoro.cycles_done()
    }

    /// Records one completed cycle: the measured work and rest spans are
    /// appended at the end of today's log.
    pub fn record_cycle(&mut self, actual_work: Duration, actual_rest: Duration)
        requires
            old(self).wf(),
            actual_work.wf(),
            actual_rest.wf(),
        ensures
            final(self).wf(),
            final(self).spec_pomodoro() == old(self).spec_pomodoro(),
            final(self).spec_history().date == old(self).spec_history().date,
            final(self).spec_history().entries == old(self).spec_history().entries.push(
                EntryModel { work: actual_work@, rest: actual_rest@ },
            ),
    {
        let entry = HistoryEntry::new(actual_work, actual_rest);
        self.history.push(entry);
    }

    /// The count of cycles recorded today.
    pub fn history_len(&self) -> (n: usize)
        ensures
            n == self.spec_history().entries.len(),
    {
        self.history.len()
    }

    /// The record to persist after a completed cycle: the persistence policy
    /// is a full overwrite of the stored log with exactly this.
    pub fn snapshot(&self) -> (r: StoredHistory)
        requires
            self.wf(),
        ensures
            r@ == spec_snapshot(self.spec_history()),
    {
        self.history.snapshot()
    }
}

/// Whether the answer to the continue prompt keeps the run going: exactly the
/// one-byte text `y`; any other answer, or a dismissed prompt, stops it.
pub fn continue_after_prompt(answer: Option<Vec<u8>>) -> (r: bool)
    ensures
        r == (answer matches Some(a) && a@ == seq![121u8]),
{
    match answer {
        Some(a) => {
            if a.len() == 1 && a[0] == 121 {
                proof {
                    assert(a@ =~= seq![121u8]);
                }
                true
            } else {
                proof {
                    assert(a@ != seq![121u8]);
                }
                false
            }
        },
        None => false,
    }
}

} // verus!
