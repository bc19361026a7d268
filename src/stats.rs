use vstd::prelude::*;

use crate::frame::FrameData;

verus! {

/// The sum of `s`.
pub open spec fn sum(s: Seq<u128>) -> int
    decreases s.len(),
{
    if s.len() == 0 {
        0
    } else {
        sum(s.drop_last()) + s.last()
    }
}

/// Gathers the values one statistic took over many frames.
pub struct StatsAggregator {
    key: u64,
    count: usize,
    total: u128,
    values: Ghost<Seq<u128>>,
}

impl StatsAggregator {
    /// The statistic gathered.
    pub closed spec fn key(&self) -> u64 {
        self.key
    }

    /// The values gathered so far, in order.
    pub closed spec fn values(&self) -> Seq<u128> {
        self.values@
    }

    /// The running count and total match the values gathered.
    pub closed spec fn wf(&self) -> bool {
        self.count == self.values@.len() && self.total == sum(self.values@)
    }

    /// An aggregator of the statistic `key`, with nothing gathered.
    pub fn new(key: u64) -> (r: StatsAggregator)
        ensures
            r.wf(),
            r.key() == key,
            r.values() == Seq::<u128>::empty(),
    {
        StatsAggregator { key, count: 0, total: 0, values: Ghost(Seq::empty()) }
    }

    /// Gathers the frame's value of the statistic. Nothing is gathered when
    /// the frame lacks it, or when the count or the total would no longer
    /// fit.
    pub fn add(&mut self, frame: &FrameData) -> (r: bool)
        requires
            old(self).wf(),
            frame.wf(),
        ensures
            final(self).wf(),
            final(self).key() == old(self).key(),
            r <==> frame.statistics().contains_key(old(self).key()) && old(self).values().len()
                < usize::MAX && sum(old(self).values()) + frame.statistics()[old(self).key()]
                <= u128::MAX,
            r ==> final(self).values() == old(self).values().push(
                frame.statistics()[old(self).key()],
            ),
            !r ==> final(self).values() == old(self).values(),
    {
        let v = match frame.get(self.key) {
            Some(v) => v,
            None => return false,
        };
        if self.count == usize::MAX {
            return false;
        }
        let total = match self.total.checked_add(v) {
            Some(t) => t,
            None => return false,
        };
        let ghost before = self.values@;
        self.count = self.count + 1;
        self.total = total;
        self.values = Ghost(self.values@.push(v));
        assert(self.values@.drop_last() =~= before);
        true
    }

    /// How many values were gathered.
    pub fn count(&self) -> (r: usize)
        requires
            self.wf(),
        ensures
            r == self.values().len(),
    {
        self.count
    }

    /// The sum of the values gathered.
    pub fn total(&self) -> (r: u128)
        requires
            self.wf(),
        ensures
            r == sum(self.values()),
    {
        self.total
    }

    /// The mean of the values gathered, rounded down; none before the first.
    pub fn mean(&self) -> (r: Option<u128>)
        requires
            self.wf(),
        ensures
            match r {
                Some(m) => self.values().len() > 0 && m == sum(self.values()) / (
                self.values().len() as int),
                None => self.values().len() == 0,
            },
    {
        if self.count == 0 {
            None
        } else {
            Some(self.total / (self.count as u128))
        }
    }
}

} // verus!
