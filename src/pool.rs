use vstd::prelude::*;

use crate::frame::FrameData;

verus! {

/// What a borrow came to.
#[derive(Clone, Copy, Debug, PartialEq, Eq, Structural)]
pub enum BorrowOutcome {
    /// A free buffer was pushed into the frame under the pool's key.
    Granted,
    /// Every buffer is lent out: the borrower waits for a redeem.
    Exhausted,
}

/// Misuse of a pool or of the registry.
#[derive(Clone, Copy, Debug, PartialEq, Eq, Structural)]
pub enum PoolError {
    /// No pool is registered under the key.
    UnknownKey,
    /// A pool is already registered under the key.
    DuplicateKey,
    /// The frame holds no buffer under the pool's key.
    NotHeld,
    /// The pool has lent nothing, so the buffer cannot be one of its own.
    NotLent,
}

/// `n` zero bytes.
pub open spec fn zeroed(n: nat) -> Seq<u8> {
    Seq::new(n, |_i: int| 0u8)
}

/// A fixed number of recycled byte buffers for one buffer key.
///
/// Free buffers wait in `free`; the others are lent to frames. The number
/// lent never exceeds the capacity the pool was made with.
pub struct BuffersPool {
    key: u64,
    capacity: usize,
    size: usize,
    free: Vec<Vec<u8>>,
}

/// Two pools that differ in their free buffers alone.
pub open spec fn same_pool(p: BuffersPool, q: BuffersPool) -> bool {
    p.key() == q.key() && p.capacity() == q.capacity() && p.size() == q.size()
}

/// Two frames that differ in their buffers alone.
pub open spec fn same_metadata(f: FrameData, g: FrameData) -> bool {
    f.statistics() == g.statistics() && f.error() == g.error()
}

/// The state after a borrow that handed out the last free buffer of `p0`.
pub open spec fn granted(p0: BuffersPool, p1: BuffersPool, f0: FrameData, f1: FrameData) -> bool {
    &&& p0.free().len() > 0
    &&& same_pool(p0, p1)
    &&& p1.free() == p0.free().drop_last()
    &&& f1.wf()
    &&& f1.buffers() == f0.buffers().insert(p0.key(), p0.free().last())
    &&& same_metadata(f0, f1)
}

/// The state after the frame's buffer under the pool's key went back to the pool.
pub open spec fn returned(p0: BuffersPool, p1: BuffersPool, f0: FrameData, f1: FrameData) -> bool {
    &&& f0.holds(p0.key())
    &&& p0.free().len() < p0.capacity()
    &&& same_pool(p0, p1)
    &&& p1.free() == p0.free().push(f0.buffers()[p0.key()])
    &&& f1.wf()
    &&& f1.buffers() == f0.buffers().remove(p0.key())
    &&& same_metadata(f0, f1)
}

/// What `borrow` does, outcome by outcome.
pub open spec fn borrow_post(
    p0: BuffersPool,
    p1: BuffersPool,
    f0: FrameData,
    f1: FrameData,
    r: BorrowOutcome,
) -> bool {
    match r {
        BorrowOutcome::Granted => granted(p0, p1, f0, f1),
        BorrowOutcome::Exhausted => p0.free().len() == 0 && p1 == p0 && f1 == f0,
    }
}

/// What `redeem` does, outcome by outcome.
pub open spec fn redeem_post(
    p0: BuffersPool,
    p1: BuffersPool,
    f0: FrameData,
    f1: FrameData,
    r: Result<(), PoolError>,
) -> bool {
    match r {
        Ok(()) => returned(p0, p1, f0, f1),
        Err(PoolError::NotHeld) => !f0.holds(p0.key()) && p1 == p0 && f1 == f0,
        Err(PoolError::NotLent) => {
            &&& f0.holds(p0.key())
            &&& p0.free().len() == p0.capacity()
            &&& p1 == p0
            &&& f1 == f0
        },
        Err(_) => false,
    }
}

/// What `soft_redeem` does, outcome by outcome: `Ok(false)` when there was
/// nothing to return.
pub open spec fn soft_redeem_post(
    p0: BuffersPool,
    p1: BuffersPool,
    f0: FrameData,
    f1: FrameData,
    r: Result<bool, PoolError>,
) -> bool {
    match r {
        Ok(true) => returned(p0, p1, f0, f1),
        Ok(false) => !f0.holds(p0.key()) && p1 == p0 && f1 == f0,
        Err(PoolError::NotLent) => {
            &&& f0.holds(p0.key())
            &&& p0.free().len() == p0.capacity()
            &&& p1 == p0
            &&& f1 == f0
        },
        Err(_) => false,
    }
}

/// A vector of `n` zero bytes.
fn zero_buffer(n: usize) -> (r: Vec<u8>)
    ensures
        r@ == zeroed(n as nat),
{
    let mut v: Vec<u8> = Vec::new();
    let mut i: usize = 0;
    while i < n
        invariant
            i <= n,
            v@ == zeroed(i as nat),
        decreases n - i,
    {
        v.push(0u8);
        i = i + 1;
        assert(v@ =~= zeroed(i as nat));
    }
    v
}

impl BuffersPool {
    /// The buffer key the pool serves.
    pub closed spec fn key(&self) -> u64 {
        self.key
    }

    /// How many buffers the pool was made with.
    pub closed spec fn capacity(&self) -> nat {
        self.capacity as nat
    }

    /// The length each buffer had when the pool made it.
    pub closed spec fn size(&self) -> nat {
        self.size as nat
    }

    /// The buffers waiting to be borrowed; the last one leaves first.
    pub closed spec fn free(&self) -> Seq<Vec<u8>> {
        self.free@
    }

    /// How many buffers are out on loan.
    pub open spec fn lent(&self) -> int {
        self.capacity() - self.free().len()
    }

    /// No more buffers are free than the pool was made with.
    pub open spec fn wf(&self) -> bool {
        self.free().len() <= self.capacity()
    }

    /// A pool of `count` buffers of `size` zero bytes, all free, for `key`.
    pub fn new(key: u64, count: usize, size: usize) -> (r: BuffersPool)
        ensures
            r.wf(),
            r.key() == key,
            r.capacity() == count,
            r.size() == size,
            r.free().len() == count,
            forall|i: int| 0 <= i < count ==> (#[trigger] r.free()[i])@ == zeroed(size as nat),
    {
        let mut free: Vec<Vec<u8>> = Vec::new();
        let mut i: usize = 0;
        while i < count
            invariant
                i <= count,
                free@.len() == i,
                forall|j: int| 0 <= j < i ==> (#[trigger] free@[j])@ == zeroed(size as nat),
            decreases count - i,
        {
            free.push(zero_buffer(size));
            i = i + 1;
        }
        BuffersPool { key, capacity: count, size, free }
    }

    /// The buffer key the pool serves.
    pub fn buffer_key(&self) -> (r: u64)
        ensures
            r == self.key(),
    {
        self.key
    }

    /// How many buffers the pool was made with.
    pub fn capacity_count(&self) -> (r: usize)
        ensures
            r == self.capacity(),
    {
        self.capacity
    }

    /// How many buffers are free now.
    pub fn free_count(&self) -> (r: usize)
        ensures
            r == self.free().len(),
    {
        self.free.len()
    }

    /// Moves a free buffer into `frame` under the pool's key, or reports that
    /// none is free. A buffer the frame held there before is dropped.
    pub fn borrow(&mut self, frame: &mut FrameData) -> (r: BorrowOutcome)
        requires
            old(self).wf(),
            old(frame).wf(),
        ensures
            final(self).wf(),
            final(frame).wf(),
            r == BorrowOutcome::Exhausted <==> old(self).free().len() == 0,
            borrow_post(*old(self), *final(self), *old(frame), *final(frame), r),
    {
        if self.free.len() == 0 {
            return BorrowOutcome::Exhausted;
        }
        match self.free.pop() {
            Some(buffer) => {
                let _ = frame.push(self.key, buffer);
                BorrowOutcome::Granted
            },
            None => BorrowOutcome::Exhausted,
        }
    }

    /// Moves the frame's buffer under the pool's key back into the pool.
    /// Fails when the frame holds no such buffer, or when the pool has lent
    /// nothing.
    pub fn redeem(&mut self, frame: &mut FrameData) -> (r: Result<(), PoolError>)
        requires
            old(self).wf(),
            old(frame).wf(),
        ensures
            final(self).wf(),
            final(frame).wf(),
            r == Err::<(), PoolError>(PoolError::NotHeld) <==> !old(frame).holds(old(self).key()),
            r == Err::<(), PoolError>(PoolError::NotLent) <==> old(frame).holds(old(self).key())
                && old(self).free().len() == old(self).capacity(),
            redeem_post(*old(self), *final(self), *old(frame), *final(frame), r),
    {
        match self.soft_redeem(frame) {
            Ok(true) => Ok(()),
            Ok(false) => Err(PoolError::NotHeld),
            Err(e) => Err(e),
        }
    }

    /// As `redeem`, but a frame that holds no buffer under the pool's key is
    /// left as it is, with `Ok(false)`.
    pub fn soft_redeem(&mut self, frame: &mut FrameData) -> (r: Result<bool, PoolError>)
        requires
            old(self).wf(),
            old(frame).wf(),
        ensures
            final(self).wf(),
            final(frame).wf(),
            r == Ok::<bool, PoolError>(false) <==> !old(frame).holds(old(self).key()),
            r == Err::<bool, PoolError>(PoolError::NotLent) <==> old(frame).holds(old(self).key())
                && old(self).free().len() == old(self).capacity(),
            soft_redeem_post(*old(self), *final(self), *old(frame), *final(frame), r),
    {
        if frame.get_ref(self.key).is_none() {
            return Ok(false);
        }
        if self.free.len() >= self.capacity {
            return Err(PoolError::NotLent);
        }
        match frame.pull(self.key) {
            Some(buffer) => {
                self.free.push(buffer);
                Ok(true)
            },
            None => Ok(false),
        }
    }
}

} // verus!
