use vstd::prelude::*;

use crate::slots::KeyedSlots;

verus! {

/// One frame in flight: byte buffers and statistics under numeric keys, and
/// at most one reported fault.
///
/// A buffer present under a key is owned by the frame alone; pulling it out
/// hands that ownership to the caller.
pub struct FrameData {
    buffers: KeyedSlots<Vec<u8>>,
    statistics: KeyedSlots<u128>,
    error: Option<u64>,
}

impl FrameData {
    /// Each key names at most one buffer and at most one statistic.
    pub closed spec fn wf(&self) -> bool {
        self.buffers.wf() && self.statistics.wf()
    }

    /// The buffers held, by key.
    pub closed spec fn buffers(&self) -> Map<u64, Vec<u8>> {
        self.buffers@
    }

    /// The statistics recorded, by key.
    pub closed spec fn statistics(&self) -> Map<u64, u128> {
        self.statistics@
    }

    /// The reported fault, if any.
    pub closed spec fn error(&self) -> Option<u64> {
        self.error
    }

    /// True when the frame holds a buffer under `key`.
    pub open spec fn holds(&self, key: u64) -> bool {
        self.buffers().contains_key(key)
    }

    /// A fresh frame: no buffers, no statistics, no fault.
    pub fn new() -> (r: FrameData)
        ensures
            r.wf(),
            r.buffers() == Map::<u64, Vec<u8>>::empty(),
            r.statistics() == Map::<u64, u128>::empty(),
            r.error() == None::<u64>,
    {
        FrameData { buffers: KeyedSlots::new(), statistics: KeyedSlots::new(), error: None }
    }

    /// Reads the buffer under `key` without removing it.
    pub fn get_ref(&self, key: u64) -> (r: Option<&Vec<u8>>)
        requires
            self.wf(),
        ensures
            match r {
                Some(b) => self.holds(key) && *b == self.buffers()[key],
                None => !self.holds(key),
            },
    {
        self.buffers.get(key)
    }

    /// The buffer under `key`, to be changed in place.
    pub fn get_mut_ref(&mut self, key: u64) -> (r: Option<&mut Vec<u8>>)
        requires
            old(self).wf(),
        ensures
            final(self).wf(),
            final(self).statistics() == old(self).statistics(),
            final(self).error() == old(self).error(),
            match r {
                Some(b) => {
                    &&& old(self).holds(key)
                    &&& *b == old(self).buffers()[key]
                    &&& final(self).buffers() == old(self).buffers().insert(key, *final(b))
                },
                None => !old(self).holds(key) && final(self).buffers() == old(self).buffers(),
            },
    {
        self.buffers.get_mut(key)
    }

    /// Removes the buffer under `key` and hands it to the caller.
    pub fn pull(&mut self, key: u64) -> (r: Option<Vec<u8>>)
        requires
            old(self).wf(),
        ensures
            final(self).wf(),
            match r {
                Some(b) => old(self).holds(key) && b == old(self).buffers()[key],
                None => !old(self).holds(key),
            },
            final(self).buffers() == old(self).buffers().remove(key),
            final(self).statistics() == old(self).statistics(),
            final(self).error() == old(self).error(),
    {
        self.buffers.take(key)
    }

    /// Places `value` under `key`; a buffer held there before is handed back.
    pub fn push(&mut self, key: u64, value: Vec<u8>) -> (r: Option<Vec<u8>>)
        requires
            old(self).wf(),
        ensures
            final(self).wf(),
            match r {
                Some(b) => old(self).holds(key) && b == old(self).buffers()[key],
                None => !old(self).holds(key),
            },
            final(self).buffers() == old(self).buffers().insert(key, value),
            final(self).statistics() == old(self).statistics(),
            final(self).error() == old(self).error(),
    {
        self.buffers.put(key, value)
    }

    /// Records `value` under the statistic `key`, over any earlier one.
    pub fn set(&mut self, key: u64, value: u128)
        requires
            old(self).wf(),
        ensures
            final(self).wf(),
            final(self).statistics() == old(self).statistics().insert(key, value),
            final(self).buffers() == old(self).buffers(),
            final(self).error() == old(self).error(),
    {
        let _ = self.statistics.put(key, value);
    }

    /// The statistic under `key`, if recorded.
    pub fn get(&self, key: u64) -> (r: Option<u128>)
        requires
            self.wf(),
        ensures
            match r {
                Some(v) => self.statistics().contains_key(key) && v == self.statistics()[key],
                None => !self.statistics().contains_key(key),
            },
    {
        match self.statistics.get(key) {
            Some(v) => Some(*v),
            None => None,
        }
    }

    /// Marks the frame as faulted with `error`, over any earlier fault.
    pub fn report_error(&mut self, error: u64)
        requires
            old(self).wf(),
        ensures
            final(self).wf(),
            final(self).error() == Some(error),
            final(self).buffers() == old(self).buffers(),
            final(self).statistics() == old(self).statistics(),
    {
        self.error = Some(error);
    }

    /// The fault reported on this frame, if any.
    pub fn get_error(&self) -> (r: Option<u64>)
        ensures
            r == self.error(),
    {
        self.error
    }
}

} // verus!
