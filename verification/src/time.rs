//! Spans of time in whole seconds, held as a canonical
//! hours / minutes / seconds decomposition.

use vstd::prelude::*;

verus! {

/// An immutable, non-negative span of time in whole seconds.
///
/// The span is stored decomposed into hours, minutes and seconds; a
/// well-formed value is canonical (minutes and seconds below sixty) and its
/// total second count fits in a `u64`. The view of a `Duration` is that total
/// second count.
#[derive(Clone, Copy, Debug, PartialEq, Eq, Structural)]
pub struct Duration {
    hrs: u64,
    mins: u64,
    secs: u64,
}

impl View for Duration {
    type V = int;

    closed spec fn view(&self) -> int {
        self.hrs * 3600 + self.mins * 60 + self.secs
    }
}

impl Duration {
    /// Canonical decomposition whose total second count fits in a `u64`.
    pub closed spec fn wf(self) -> bool {
        self.mins < 60 && self.secs < 60 && self@ <= u64::MAX
    }

    /// The canonical decomposition of a second count.
    pub closed spec fn spec_from_secs(s: int) -> Duration {
        Duration {
            hrs: (s / 3600) as u64,
            mins: ((s % 3600) / 60) as u64,
            secs: (s % 60) as u64,
        }
    }

    /// Builds the span of `secs` whole seconds.
    pub fn from_secs(secs: u64) -> (d: Duration)
        ensures
            d == Duration::spec_from_secs(secs as int),
            d@ == secs as int,
            d.wf(),
    {
        proof {
            lemma_from_secs_round_trip(secs as int);
        }
        let hrs: u64 = secs / 3600;
        let rem: u64 = secs % 3600;
        let mins: u64 = rem / 60;
        let s: u64 = rem % 60;
        Duration { hrs, mins, secs: s }
    }

    /// Builds the span of `mins` whole minutes.
    pub fn from_minutes(mins: u64) -> (d: Duration)
        requires
            mins * 60 <= u64::MAX,
        ensures
            d@ == mins * 60,
            d.wf(),
    {
        Duration::from_secs(mins * 60)
    }

    /// The total second count of the span.
    pub fn into_secs(self) -> (s: u64)
        requires
            self.wf(),
        ensures
            s as int == self@,
    {
        self.secs + self.mins * 60 + self.hrs * 3600
    }

    /// The whole-minute count of the span, rounded down.
    pub fn as_mins(&self) -> (m: u64)
        requires
            self.wf(),
        ensures
            m as int == self@ / 60,
    {
        self.hrs * 60 + self.mins
    }

    /// The hour part of the canonical decomposition.
    pub fn hrs(&self) -> (h: u64)
        requires
            self.wf(),
        ensures
            h as int == self@ / 3600,
    {
        self.hrs
    }

    /// The minute part of the canonical decomposition.
    pub fn mins(&self) -> (m: u64)
        requires
            self.wf(),
        ensures
            m as int == (self@ % 3600) / 60,
    {
        self.mins
    }

    /// The second part of the canonical decomposition.
    pub fn secs(&self) -> (s: u64)
        requires
            self.wf(),
        ensures
            s as int == self@ % 60,
    {
        self.secs
    }

    /// Rebuilds a span from a stored hours / minutes / seconds decomposition,
    /// canonicalizing it, or `None` where the total second count would not
    /// fit in a `u64`. The parts need not be canonical.
    pub fn from_parts(hrs: u64, mins: u64, secs: u64) -> (r: Option<Duration>)
        ensures
            r is Some <==> hrs * 3600 + mins * 60 + secs <= u64::MAX,
            r matches Some(d) ==> d.wf() && d@ == hrs * 3600 + mins * 60 + secs,
    {
        if hrs > u64::MAX / 3600 {
            proof {
                assert(hrs * 3600 > u64::MAX) by (nonlinear_arith)
                    requires
                        hrs > u64::MAX / 3600,
                ;
            }
            return None;
        }
        proof {
            assert(hrs * 3600 <= u64::MAX) by (nonlinear_arith)
                requires
                    hrs <= u64::MAX / 3600,
            ;
        }
        let hs: u64 = hrs * 3600;
        let rem: u64 = u64::MAX - hs;
        if mins > rem / 60 {
            proof {
                assert(mins * 60 > rem) by (nonlinear_arith)
                    requires
                        mins > rem / 60,
                ;
            }
            return None;
        }
        proof {
            assert(mins * 60 <= rem) by (nonlinear_arith)
                requires
                    mins <= rem / 60,
            ;
        }
        let ms: u64 = mins * 60;
        if secs > rem - ms {
            return None;
        }
        Some(Duration::from_secs(hs + ms + secs))
    }

    /// The sum of two spans, or `None` where the total second count would not
    /// fit in a `u64`.
    pub open spec fn spec_checked_add(a: Duration, b: Duration) -> Option<Duration> {
        if a@ + b@ <= u64::MAX {
            Some(Duration::spec_from_secs(a@ + b@))
        } else {
            None
        }
    }

    /// Adds two spans; fails rather than overflowing.
    pub fn checked_add(self, other: Duration) -> (r: Option<Duration>)
        requires
            self.wf(),
            other.wf(),
        ensures
            r == Duration::spec_checked_add(self, other),
            r matches Some(d) ==> d.wf() && d@ == self@ + other@,
    {
        let a = self.into_secs();
        let b = other.into_secs();
        if a <= u64::MAX - b {
            Some(Duration::from_secs(a + b))
        } else {
            None
        }
    }
}

/// Decomposing a second count and summing the parts back gives the same
/// count, and the decomposition is canonical.
pub proof fn lemma_from_secs_round_trip(s: int)
    requires
        0 <= s <= u64::MAX,
    ensures
        Duration::spec_from_secs(s)@ == s,
        Duration::spec_from_secs(s).wf(),
{
    assert((s % 3600) % 60 == s % 60) by (nonlinear_arith);
    assert((s / 3600) * 3600 + ((s % 3600) / 60) * 60 + s % 60 == s) by (nonlinear_arith);
}

/// The left-grouped sum of three spans.
pub open spec fn spec_sum3_left(a: Duration, b: Duration, c: Duration) -> Option<Duration> {
    match Duration::spec_checked_add(a, b) {
        Some(ab) => Duration::spec_checked_add(ab, c),
        None => None,
    }
}

/// The right-grouped sum of three spans.
pub open spec fn spec_sum3_right(a: Duration, b: Duration, c: Duration) -> Option<Duration> {
    match Duration::spec_checked_add(b, c) {
        Some(bc) => Duration::spec_checked_add(a, bc),
        None => None,
    }
}

/// Addition of spans is commutative over the total second count.
pub proof fn lemma_add_comm(a: Duration, b: Duration)
    requires
        a.wf(),
        b.wf(),
    ensures
        Duration::spec_checked_add(a, b) == Duration::spec_checked_add(b, a),
{
}

/// Addition of spans is associative: the grouping changes neither whether the
/// sum is defined nor its value.
pub proof fn lemma_add_assoc(a: Duration, b: Duration, c: Duration)
    requires
        a.wf(),
        b.wf(),
        c.wf(),
    ensures
        spec_sum3_left(a, b, c) == spec_sum3_right(a, b, c),
{
    if a@ + b@ <= u64::MAX {
        lemma_from_secs_round_trip(a@ + b@);
    }
    if b@ + c@ <= u64::MAX {
        lemma_from_secs_round_trip(b@ + c@);
    }
}

} // verus!
