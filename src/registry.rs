use vstd::prelude::*;

use crate::frame::FrameData;
use crate::pool::{
    borrow_post, redeem_post, same_metadata, same_pool, soft_redeem_post, zeroed, BorrowOutcome,
    BuffersPool, PoolError,
};

verus! {

/// The pool `p` after a recovery pass over the frame `f`: it took back the
/// frame's buffer under its key when the frame held one and the pool had
/// lent at least one.
pub open spec fn released(p0: BuffersPool, p1: BuffersPool, f: FrameData) -> bool {
    &&& same_pool(p0, p1)
    &&& p1.wf()
    &&& if f.holds(p0.key()) && p0.free().len() < p0.capacity() {
        p1.free() == p0.free().push(f.buffers()[p0.key()])
    } else {
        p1.free() == p0.free()
    }
}

/// The keys among the first `n` pools under which a recovery pass takes a
/// buffer of `f` back.
pub open spec fn released_keys(pools: Seq<BuffersPool>, f: FrameData, n: int) -> Set<u64> {
    Set::new(
        |k: u64|
            exists|i: int|
                0 <= i < n && #[trigger] pools[i].key() == k && f.holds(k) && pools[i].free().len()
                    < pools[i].capacity(),
    )
}

/// What a recovery pass over `f0` does to the registry and to the frame:
/// each pool takes back the frame's buffer under its key, when it has lent
/// one, and the frame keeps only what no pool took back.
pub open spec fn release_all_post(
    r0: PoolRegistry,
    r1: PoolRegistry,
    f0: FrameData,
    f1: FrameData,
) -> bool {
    &&& r1.pools().len() == r0.pools().len()
    &&& forall|i: int|
        0 <= i < r0.pools().len() ==> released(r0.pools()[i], #[trigger] r1.pools()[i], f0)
    &&& f1.buffers() == f0.buffers().remove_keys(
        released_keys(r0.pools(), f0, r0.pools().len() as int),
    )
    &&& same_metadata(f0, f1)
}

/// All buffer pools, one per buffer key.
pub struct PoolRegistry {
    pools: Vec<BuffersPool>,
}

impl PoolRegistry {
    /// The pools, in the order they were registered.
    pub closed spec fn pools(&self) -> Seq<BuffersPool> {
        self.pools@
    }

    /// Every pool is well formed and no two share a key.
    pub open spec fn wf(&self) -> bool {
        &&& forall|i: int| 0 <= i < self.pools().len() ==> (#[trigger] self.pools()[i]).wf()
        &&& forall|i: int, j: int|
            0 <= i < self.pools().len() && 0 <= j < self.pools().len() && i != j
                ==> #[trigger] self.pools()[i].key() != #[trigger] self.pools()[j].key()
    }

    /// True when a pool is registered under `key`.
    pub open spec fn has_pool(&self, key: u64) -> bool {
        exists|i: int| 0 <= i < self.pools().len() && #[trigger] self.pools()[i].key() == key
    }

    /// The index of the pool registered under `key`.
    pub open spec fn pool_index(&self, key: u64) -> int {
        choose|i: int| 0 <= i < self.pools().len() && #[trigger] self.pools()[i].key() == key
    }

    /// The pool at index `i` is the one `pool_index` names for its key.
    pub proof fn lemma_pool_index(&self, i: int)
        requires
            self.wf(),
            0 <= i < self.pools().len(),
        ensures
            self.has_pool(self.pools()[i].key()),
            self.pool_index(self.pools()[i].key()) == i,
    {
        let k = self.pools()[i].key();
        assert(self.has_pool(k));
        let j = self.pool_index(k);
        assert(self.pools()[j].key() == self.pools()[i].key());
    }

    /// A registry with no pools.
    pub fn new() -> (r: PoolRegistry)
        ensures
            r.wf(),
            r.pools() == Seq::<BuffersPool>::empty(),
    {
        PoolRegistry { pools: Vec::new() }
    }

    fn find(&self, key: u64) -> (r: Option<usize>)
        requires
            self.wf(),
        ensures
            match r {
                Some(i) => i < self.pools().len() && self.pools()[i as int].key() == key
                    && self.pool_index(key) == i,
                None => !self.has_pool(key),
            },
    {
        let mut i: usize = 0;
        while i < self.pools.len()
            invariant
                self.wf(),
                i <= self.pools().len(),
                forall|j: int| 0 <= j < i ==> #[trigger] self.pools()[j].key() != key,
            decreases self.pools().len() - i,
        {
            if self.pools[i].buffer_key() == key {
                proof {
                    self.lemma_pool_index(i as int);
                }
                return Some(i);
            }
            i = i + 1;
        }
        None
    }

    /// Adds a pool of `count` zeroed buffers of `size` bytes for `key`.
    /// Fails when a pool is already registered under `key`.
    pub fn register(&mut self, key: u64, count: usize, size: usize) -> (r: Result<(), PoolError>)
        requires
            old(self).wf(),
        ensures
            final(self).wf(),
            r is Err <==> old(self).has_pool(key),
            match r {
                Ok(()) => {
                    let p = final(self).pools().last();
                    &&& final(self).pools() == old(self).pools().push(p)
                    &&& p.key() == key
                    &&& p.capacity() == count
                    &&& p.size() == size
                    &&& p.free().len() == count
                    &&& forall|i: int| 0 <= i < count ==> (#[trigger] p.free()[i])@ == zeroed(
                        size as nat,
                    )
                },
                Err(e) => e == PoolError::DuplicateKey && final(self).pools() == old(self).pools(),
            },
    {
        if self.find(key).is_some() {
            return Err(PoolError::DuplicateKey);
        }
        let pool = BuffersPool::new(key, count, size);
        self.pools.push(pool);
        proof {
            assert(self.pools()[self.pools().len() - 1].key() == key);
            assert forall|i: int, j: int|
                0 <= i < self.pools().len() && 0 <= j < self.pools().len() && i != j
                    implies #[trigger] self.pools()[i].key() != #[trigger] self.pools()[j].key() by {
                if i < old(self).pools().len() && j < old(self).pools().len() {
                    assert(old(self).pools()[i].key() != old(self).pools()[j].key());
                } else if i < old(self).pools().len() {
                    assert(old(self).pools()[i].key() != key);
                } else {
                    assert(old(self).pools()[j].key() != key);
                }
            }
        }
        Ok(())
    }

    /// The pool registered under `key`, if any.
    pub fn get(&self, key: u64) -> (r: Option<&BuffersPool>)
        requires
            self.wf(),
        ensures
            match r {
                Some(p) => self.has_pool(key) && *p == self.pools()[self.pool_index(key)],
                None => !self.has_pool(key),
            },
    {
        match self.find(key) {
            Some(i) => Some(&self.pools[i]),
            None => None,
        }
    }

    /// Borrows from the pool registered under `key` into `frame`.
    pub fn borrow(&mut self, key: u64, frame: &mut FrameData) -> (r: Result<
        BorrowOutcome,
        PoolError,
    >)
        requires
            old(self).wf(),
            old(frame).wf(),
        ensures
            final(self).wf(),
            final(frame).wf(),
            r is Err <==> !old(self).has_pool(key),
            match r {
                Ok(o) => {
                    let i = old(self).pool_index(key);
                    &&& final(self).pools() == old(self).pools().update(i, final(self).pools()[i])
                    &&& borrow_post(
                        old(self).pools()[i],
                        final(self).pools()[i],
                        *old(frame),
                        *final(frame),
                        o,
                    )
                },
                Err(e) => e == PoolError::UnknownKey && *final(self) == *old(self) && *final(frame)
                    == *old(frame),
            },
    {
        match self.find(key) {
            Some(i) => {
                let o = self.pools[i].borrow(frame);
                proof {
                    self.lemma_keys_kept(old(self), i as int);
                }
                Ok(o)
            },
            None => Err(PoolError::UnknownKey),
        }
    }

    /// Redeems `frame`'s buffer under `key` into the pool registered there.
    pub fn redeem(&mut self, key: u64, frame: &mut FrameData) -> (r: Result<(), PoolError>)
        requires
            old(self).wf(),
            old(frame).wf(),
        ensures
            final(self).wf(),
            final(frame).wf(),
            r == Err::<(), PoolError>(PoolError::UnknownKey) <==> !old(self).has_pool(key),
            old(self).has_pool(key) ==> {
                let i = old(self).pool_index(key);
                &&& final(self).pools() == old(self).pools().update(i, final(self).pools()[i])
                &&& redeem_post(
                    old(self).pools()[i],
                    final(self).pools()[i],
                    *old(frame),
                    *final(frame),
                    r,
                )
            },
            !old(self).has_pool(key) ==> *final(self) == *old(self) && *final(frame) == *old(
                frame,
            ),
    {
        match self.find(key) {
            Some(i) => {
                let r = self.pools[i].redeem(frame);
                proof {
                    self.lemma_keys_kept(old(self), i as int);
                }
                r
            },
            None => Err(PoolError::UnknownKey),
        }
    }

    /// As `redeem`, but a frame without a buffer under `key` is left alone,
    /// with `Ok(false)`.
    pub fn soft_redeem(&mut self, key: u64, frame: &mut FrameData) -> (r: Result<bool, PoolError>)
        requires
            old(self).wf(),
            old(frame).wf(),
        ensures
            final(self).wf(),
            final(frame).wf(),
            r == Err::<bool, PoolError>(PoolError::UnknownKey) <==> !old(self).has_pool(key),
            old(self).has_pool(key) ==> {
                let i = old(self).pool_index(key);
                &&& final(self).pools() == old(self).pools().update(i, final(self).pools()[i])
                &&& soft_redeem_post(
                    old(self).pools()[i],
                    final(self).pools()[i],
                    *old(frame),
                    *final(frame),
                    r,
                )
            },
            !old(self).has_pool(key) ==> *final(self) == *old(self) && *final(frame) == *old(
                frame,
            ),
    {
        match self.find(key) {
            Some(i) => {
                let r = self.pools[i].soft_redeem(frame);
                proof {
                    self.lemma_keys_kept(old(self), i as int);
                }
                r
            },
            None => Err(PoolError::UnknownKey),
        }
    }

    /// Replacing pool `i` by a well-formed pool with the same key keeps the
    /// registry well formed.
    proof fn lemma_keys_kept(&self, before: &PoolRegistry, i: int)
        requires
            before.wf(),
            0 <= i < before.pools().len(),
            self.pools() == before.pools().update(i, self.pools()[i]),
            self.pools()[i].key() == before.pools()[i].key(),
            self.pools()[i].wf(),
        ensures
            self.wf(),
    {
        assert forall|a: int, b: int|
            0 <= a < self.pools().len() && 0 <= b < self.pools().len() && a != b
                implies #[trigger] self.pools()[a].key() != #[trigger] self.pools()[b].key() by {
            assert(before.pools()[a].key() != before.pools()[b].key());
        }
    }

    /// Soft-redeems `frame`'s buffer under every registered key: the
    /// clean-up of a faulted frame. A buffer whose pool has lent nothing stays
    /// in the frame.
    pub fn release_all(&mut self, frame: &mut FrameData)
        requires
            old(self).wf(),
            old(frame).wf(),
        ensures
            final(self).wf(),
            final(frame).wf(),
            release_all_post(*old(self), *final(self), *old(frame), *final(frame)),
    {
        let ghost f0 = *frame;
        let ghost ps = self.pools();
        let mut j: usize = 0;
        let n = self.pools.len();
        assert(f0.buffers().remove_keys(released_keys(ps, f0, 0)) =~= f0.buffers());
        while j < n
            invariant
                self.wf(),
                frame.wf(),
                n == ps.len(),
                j <= n,
                self.pools().len() == n,
                forall|i: int| 0 <= i < j ==> released(ps[i], #[trigger] self.pools()[i], f0),
                forall|i: int| j <= i < n ==> #[trigger] self.pools()[i] == ps[i],
                forall|a: int, b: int|
                    0 <= a < n && 0 <= b < n && a != b ==> #[trigger] ps[a].key()
                        != #[trigger] ps[b].key(),
                frame.buffers() == f0.buffers().remove_keys(released_keys(ps, f0, j as int)),
                same_metadata(f0, *frame),
            decreases n - j,
        {
            let ghost cur = *frame;
            let ghost before = *self;
            let ghost k = ps[j as int].key();
            proof {
                assert(!released_keys(ps, f0, j as int).contains(k)) by {
                    if released_keys(ps, f0, j as int).contains(k) {
                        let i = choose|i: int|
                            0 <= i < j && #[trigger] ps[i].key() == k && f0.holds(k)
                                && ps[i].free().len() < ps[i].capacity();
                        assert(ps[i].key() != ps[j as int].key());
                    }
                }
                assert(cur.holds(k) == f0.holds(k));
            }
            let _ = self.pools[j].soft_redeem(frame);
            proof {
                self.lemma_keys_kept(&before, j as int);
                let next = released_keys(ps, f0, j as int + 1);
                let prev = released_keys(ps, f0, j as int);
                if f0.holds(k) && ps[j as int].free().len() < ps[j as int].capacity() {
                    assert(next =~= prev.insert(k));
                    assert(f0.buffers().remove_keys(next) =~= f0.buffers().remove_keys(
                        prev,
                    ).remove(k));
                } else {
                    assert(next =~= prev) by {
                        assert forall|x: u64| next.contains(x) implies prev.contains(x) by {
                            let i = choose|i: int|
                                0 <= i < j + 1 && #[trigger] ps[i].key() == x && f0.holds(x)
                                    && ps[i].free().len() < ps[i].capacity();
                            if i == j {
                                assert(false);
                            }
                        }
                    }
                }
            }
            j = j + 1;
        }
    }
}

} // verus!
