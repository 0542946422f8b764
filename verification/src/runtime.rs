//! A runtime that gathers planned interval lengths into a buffer.

use crate::config::Buff;
use vstd::prelude::*;

verus! {

/// A runtime holding the buffer of planned work and rest interval lengths.
pub struct Runtime {
    buffer: Buff,
}

impl Runtime {
    /// The planned work interval lengths, in order.
    pub closed spec fn spec_work_intervals(self) -> Seq<u16> {
        self.buffer.spec_work_intervals()
    }

    /// The planned rest interval lengths, in order.
    pub closed spec fn spec_rest_intervals(self) -> Seq<u16> {
        self.buffer.spec_rest_intervals()
    }

    /// A runtime with an empty buffer.
    pub fn new() -> (r: Runtime)
        ensures
            r.spec_work_intervals() == Seq::<u16>::empty(),
            r.spec_rest_intervals() == Seq::<u16>::empty(),
    {
        Runtime { buffer: Buff::new() }
    }

    /// Appends a planned work interval length.
    pub fn add_work_interval(&mut self, interval_len: u16)
        ensures
            final(self).spec_work_intervals() == old(self).spec_work_intervals().push(
                interval_len,
            ),
            final(self).spec_rest_intervals() == old(self).spec_rest_intervals(),
    {
        self.buffer.add_work_interval(interval_len);
    }

    /// Appends a planned rest interval length.
    pub fn add_rest_interval(&mut self, interval_len: u16)
        ensures
            final(self).spec_rest_intervals() == old(self).spec_rest_intervals().push(
                interval_len,
            ),
            final(self).spec_work_intervals() == old(self).spec_work_intervals(),
    {
        self.buffer.add_rest_interval(interval_len);
    }
}

} // verus!
