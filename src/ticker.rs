use vstd::prelude::*;

use crate::frame::FrameData;

verus! {

/// A clock that fires every `period` milliseconds; each elapse originates
/// one fresh frame.
pub struct Ticker {
    period: u64,
}

impl Ticker {
    /// The period in milliseconds.
    pub closed spec fn period_spec(&self) -> u64 {
        self.period
    }

    /// A ticker of the given period, which cannot be zero.
    pub fn new(period: u64) -> (r: Ticker)
        requires
            period > 0,
        ensures
            r.period_spec() == period,
    {
        Ticker { period }
    }

    /// The period in milliseconds.
    pub fn period(&self) -> (r: u64)
        ensures
            r == self.period_spec(),
    {
        self.period
    }

    /// The frame an elapse originates: no buffers, no statistics, no fault.
    pub fn fire(&self) -> (r: FrameData)
        ensures
            r.wf(),
            r.buffers() == Map::<u64, Vec<u8>>::empty(),
            r.statistics() == Map::<u64, u128>::empty(),
            r.error() == None::<u64>,
    {
        FrameData::new()
    }

    /// How many whole periods fit in `window` milliseconds.
    pub fn elapses_within(&self, window: u64) -> (r: u64)
        requires
            self.period_spec() > 0,
        ensures
            r == window / self.period_spec(),
    {
        window / self.period
    }
}

} // verus!
