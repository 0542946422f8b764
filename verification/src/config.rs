//! The pomodoro interval scheduler: configured work and rest lengths, the
//! long-break cadence, and the completed-cycle counter.

use crate::time::Duration;
use vstd::prelude::*;

verus! {

/// Which call the scheduler expects next, in the strict work/rest
/// alternation.
#[derive(Clone, Copy, Debug, PartialEq, Eq, Structural)]
pub enum Phase {
    Working,
    Resting,
}

/// The mathematical state of a pomodoro scheduler: the configured interval
/// lengths in minutes, the long-break cadence, the completed-cycle counter,
/// and whose turn it is.
pub ghost struct PomodoroModel {
    pub work: int,
    pub short: int,
    pub long: int,
    pub cycles: int,
    pub done: int,
    pub phase: Phase,
}

impl PomodoroModel {
    /// The interval lengths and the cadence are positive and bounded by their
    /// carriers, the counter stays in `[0, cycles]`, it is below the cadence
    /// whenever a work interval is due, and at least one whenever a rest
    /// interval is due.
    pub open spec fn wf(self) -> bool {
        &&& 1 <= self.work <= u16::MAX
        &&& 1 <= self.short <= u16::MAX
        &&& 1 <= self.long <= u16::MAX
        &&& 1 <= self.cycles <= u8::MAX
        &&& 0 <= self.done <= self.cycles
        &&& (self.phase == Phase::Working ==> self.done < self.cycles)
        &&& (self.phase == Phase::Resting ==> self.done >= 1)
    }

    /// The work transition: the counter advances by one and the configured
    /// work length, in seconds, is granted.
    pub open spec fn spec_next_work(self) -> (PomodoroModel, int) {
        (PomodoroModel { done: self.done + 1, phase: Phase::Resting, ..self }, self.work * 60)
    }

    /// The rest transition: exactly at the configured cadence the long break
    /// is granted and the counter resets to zero; otherwise the short break
    /// is granted and the counter keeps its value.
    pub open spec fn spec_next_rest(self) -> (PomodoroModel, int) {
        if self.done == self.cycles {
            (PomodoroModel { done: 0, phase: Phase::Working, ..self }, self.long * 60)
        } else {
            (PomodoroModel { phase: Phase::Working, ..self }, self.short * 60)
        }
    }
}

/// The default configuration: 25 work minutes, 5 short and 15 long break
/// minutes, a long break every third cycle, fresh counter.
pub open spec fn spec_default_model() -> PomodoroModel {
    PomodoroModel { work: 25, short: 5, long: 15, cycles: 3, done: 0, phase: Phase::Working }
}

/// The configuration record read from persisted settings: interval lengths in
/// minutes and the long-break cadence.
#[derive(Clone, Copy, Debug, PartialEq, Eq, Structural)]
pub struct PomodoroSettings {
    pub work_duration: u16,
    pub short_break_duration: u16,
    pub long_break_duration: u16,
    pub cycles_before_long_break: u8,
}

/// The model a settings record describes: a scheduler configured by it with a
/// fresh counter.
pub open spec fn spec_settings_model(s: PomodoroSettings) -> PomodoroModel {
    PomodoroModel {
        work: s.work_duration as int,
        short: s.short_break_duration as int,
        long: s.long_break_duration as int,
        cycles: s.cycles_before_long_break as int,
        done: 0,
        phase: Phase::Working,
    }
}

/// The pomodoro interval scheduler. It owns its completed-cycle counter and
/// mutates it only through the two interval calls, which must alternate
/// strictly, work first.
pub struct Pomodoro {
    work_duration: u16,
    short_break_duration: u16,
    long_break_duration: u16,
    cycles_before_long_break: u8,
    current_cycles_amount: u8,
    phase: Phase,
}

impl View for Pomodoro {
    type V = PomodoroModel;

    closed spec fn view(&self) -> PomodoroModel {
        PomodoroModel {
            work: self.work_duration as int,
            short: self.short_break_duration as int,
            long: self.long_break_duration as int,
            cycles: self.cycles_before_long_break as int,
            done: self.current_cycles_amount as int,
            phase: self.phase,
        }
    }
}

impl Pomodoro {
    /// The scheduler's state is well-formed.
    pub open spec fn wf(self) -> bool {
        self@.wf()
    }

    /// Builds a scheduler from a settings record with a fresh counter, or
    /// `None` where a length or the cadence is zero.
    pub fn from_settings(s: &PomodoroSettings) -> (r: Option<Pomodoro>)
        ensures
            r is Some <==> (s.work_duration > 0 && s.short_break_duration > 0
                && s.long_break_duration > 0 && s.cycles_before_long_break > 0),
            r matches Some(p) ==> p.wf() && p@ == spec_settings_model(*s),
    {
        if s.work_duration > 0 && s.short_break_duration > 0 && s.long_break_duration > 0
            && s.cycles_before_long_break > 0 {
            Some(
                Pomodoro {
                    work_duration: s.work_duration,
                    short_break_duration: s.short_break_duration,
                    long_break_duration: s.long_break_duration,
                    cycles_before_long_break: s.cycles_before_long_break,
                    current_cycles_amount: 0,
                    phase: Phase::Working,
                },
            )
        } else {
            None
        }
    }

    /// Grants the next work interval and advances the completed-cycle
    /// counter; a rest interval is due next.
    pub fn next_work_interval(&mut self) -> (d: Duration)
        requires
            old(self).wf(),
            old(self)@.phase == Phase::Working,
        ensures
            final(self)@ == old(self)@.spec_next_work().0,
            final(self).wf(),
            d.wf(),
            d@ == old(self)@.spec_next_work().1,
    {
        self.current_cycles_amount = self.current_cycles_amount + 1;
        self.phase = Phase::Resting;
        Duration::from_minutes(self.work_duration as u64)
    }

    /// Grants the next rest interval: the long break, with the counter reset,
    /// exactly when the counter has reached the configured cadence, and the
    /// short break otherwise; a work interval is due next.
    pub fn next_rest_interval(&mut self) -> (d: Duration)
        requires
            old(self).wf(),
            old(self)@.phase == Phase::Resting,
        ensures
            final(self)@ == old(self)@.spec_next_rest().0,
            final(self).wf(),
            d.wf(),
            d@ == old(self)@.spec_next_rest().1,
    {
        self.phase = Phase::Working;
        if self.current_cycles_amount == self.cycles_before_long_break {
            self.current_cycles_amount = 0;
            Duration::from_minutes(self.long_break_duration as u64)
        } else {
            Duration::from_minutes(self.short_break_duration as u64)
        }
    }

    /// The completed-cycle counter.
    pub fn cycles_done(&self) -> (n: u8)
        ensures
            n as int == self@.done,
    {
        self.current_cycles_amount
    }

    /// Whether a work interval is due next.
    pub fn expects_work(&self) -> (r: bool)
        ensures
            r == (self@.phase == Phase::Working),
    {
        self.phase == Phase::Working
    }
}

impl Default for Pomodoro {
    /// The scheduler with the default configuration and a fresh counter.
    fn default() -> (p: Pomodoro)
        ensures
            p.wf(),
            p@ == spec_default_model(),
    {
        Pomodoro {
            work_duration: 25,
            short_break_duration: 5,
            long_break_duration: 15,
            cycles_before_long_break: 3,
            current_cycles_amount: 0,
            phase: Phase::Working,
        }
    }
}

/// The state after one full cycle (a work transition followed by a rest
/// transition) from `m`.
pub open spec fn spec_cycle(m: PomodoroModel) -> PomodoroModel {
    m.spec_next_work().0.spec_next_rest().0
}

/// The rest length, in seconds, granted in the cycle that starts from `m`.
pub open spec fn spec_cycle_rest(m: PomodoroModel) -> int {
    m.spec_next_work().0.spec_next_rest().1
}

/// The state after `k` full cycles from `m`.
pub open spec fn spec_cycles(m: PomodoroModel, k: nat) -> PomodoroModel
    decreases k,
{
    if k == 0 {
        m
    } else {
        spec_cycle(spec_cycles(m, (k - 1) as nat))
    }
}

/// From a fresh counter, each full cycle short of the cadence leaves the
/// configuration and the phase unchanged and advances only the counter.
proof fn lemma_cycles_progress(m: PomodoroModel, k: int)
    requires
        m.wf(),
        m.done == 0,
        m.phase == Phase::Working,
        0 <= k < m.cycles,
    ensures
        spec_cycles(m, k as nat) == (PomodoroModel { done: k, ..m }),
    decreases k,
{
    if k > 0 {
        lemma_cycles_progress(m, k - 1);
    }
}

/// The long-break cadence. Starting from a fresh counter under a cadence of
/// `cycles`, in the `i`-th cycle of a strict alternation the work call raises
/// the counter to `i`; the rest granted is the short break for `i` short of
/// the cadence and the long break exactly at it; and after the `i`-th rest
/// the counter is `i`, or zero at the cadence point.
pub proof fn lemma_long_break_cadence(m: PomodoroModel, i: int)
    requires
        m.wf(),
        m.done == 0,
        m.phase == Phase::Working,
        1 <= i <= m.cycles,
    ensures
        spec_cycles(m, (i - 1) as nat).spec_next_work().0.done == i,
        spec_cycle_rest(spec_cycles(m, (i - 1) as nat)) == if i == m.cycles {
            m.long * 60
        } else {
            m.short * 60
        },
        spec_cycles(m, i as nat).done == if i == m.cycles {
            0
        } else {
            i
        },
        spec_cycles(m, i as nat).phase == Phase::Working,
{
    lemma_cycles_progress(m, i - 1);
}

/// A buffer of planned work and rest interval lengths, in minutes.
pub struct Buff {
    work_intervals: Vec<u16>,
    rest_intervals: Vec<u16>,
}

impl Buff {
    /// The planned work interval lengths, in order.
    pub closed spec fn spec_work_intervals(self) -> Seq<u16> {
        self.work_intervals@
    }

    /// The planned rest interval lengths, in order.
    pub closed spec fn spec_rest_intervals(self) -> Seq<u16> {
        self.rest_intervals@
    }

    /// An empty buffer.
    pub fn new() -> (b: Buff)
        ensures
            b.spec_work_intervals() == Seq::<u16>::empty(),
            b.spec_rest_intervals() == Seq::<u16>::empty(),
    {
        Buff { work_intervals: Vec::new(), rest_intervals: Vec::new() }
    }

    /// Appends a planned work interval length.
    pub fn add_work_interval(&mut self, interval_len: u16)
        ensures
            final(self).spec_work_intervals() == old(self).spec_work_intervals().push(
                interval_len,
            ),
            final(self).spec_rest_intervals() == old(self).spec_rest_intervals(),
    {
        self.work_intervals.push(interval_len);
    }

    /// Appends a planned rest interval length.
    pub fn add_rest_interval(&mut self, interval_len: u16)
        ensures
            final(self).spec_rest_intervals() == old(self).spec_rest_intervals().push(
                interval_len,
            ),
            final(self).spec_work_intervals() == old(self).spec_work_intervals(),
    {
        self.rest_intervals.push(interval_len);
    }
}

/// A scripted sequence of interval lengths, in minutes: a planned alternative
/// interval source, carried but not yet interpreted.
pub struct Scenario {
    pub scenario: Vec<u16>,
}

} // verus!
