use vstd::prelude::*;

use crate::chain::{ChainRun, NextStep};
use crate::component::{switch_outcome, StepOutcome};
use crate::frame::FrameData;
use crate::registry::{release_all_post, PoolRegistry};
use crate::pool::{borrow_post, granted, redeem_post, soft_redeem_post, BorrowOutcome, BuffersPool, PoolError};

verus! {

/// How many of `frames` hold a buffer under `key`.
pub open spec fn count_holding(frames: Seq<FrameData>, key: u64) -> nat
    decreases frames.len(),
{
    if frames.len() == 0 {
        0
    } else {
        count_holding(frames.drop_last(), key) + if frames.last().holds(key) {
            1nat
        } else {
            0nat
        }
    }
}

/// 1 when `f` holds a buffer under `key`, else 0.
pub open spec fn holding(f: FrameData, key: u64) -> int {
    if f.holds(key) {
        1
    } else {
        0
    }
}

/// Replacing one frame changes the count by that frame's share alone.
pub proof fn lemma_count_update(frames: Seq<FrameData>, i: int, f: FrameData, key: u64)
    requires
        0 <= i < frames.len(),
    ensures
        count_holding(frames.update(i, f), key) == count_holding(frames, key) - holding(
            frames[i],
            key,
        ) + holding(f, key),
    decreases frames.len(),
{
    let g = frames.update(i, f);
    if i == frames.len() - 1 {
        assert(g.drop_last() =~= frames.drop_last());
    } else {
        lemma_count_update(frames.drop_last(), i, f, key);
        assert(g.drop_last() =~= frames.drop_last().update(i, f));
    }
}

/// A pool of capacity `N` never has more than `N` frames holding one of its
/// buffers at once. Read over a set of frames that hold no more of the
/// pool's buffers than it has lent: a borrow into one of them keeps that so;
/// once `N` of them hold a buffer, the next borrow finds the pool exhausted.
pub proof fn lemma_borrow_within_capacity(
    p0: BuffersPool,
    p1: BuffersPool,
    frames: Seq<FrameData>,
    i: int,
    f1: FrameData,
    r: BorrowOutcome,
)
    requires
        p0.wf(),
        count_holding(frames, p0.key()) <= p0.lent(),
        0 <= i < frames.len(),
        borrow_post(p0, p1, frames[i], f1, r),
    ensures
        count_holding(frames, p0.key()) <= p0.capacity(),
        count_holding(frames, p0.key()) == p0.capacity() ==> r == BorrowOutcome::Exhausted,
        p1.wf(),
        count_holding(frames.update(i, f1), p1.key()) <= p1.lent() <= p1.capacity(),
{
    lemma_count_update(frames, i, f1, p0.key());
    if r == BorrowOutcome::Granted {
        assert(f1.holds(p0.key()));
    }
}

/// Redeeming (or soft-redeeming) from one of a set of frames keeps the
/// frames that hold the pool's buffers within what the pool has lent.
pub proof fn lemma_redeem_within_capacity(
    p0: BuffersPool,
    p1: BuffersPool,
    frames: Seq<FrameData>,
    i: int,
    f1: FrameData,
    r: Result<(), PoolError>,
    soft: Result<bool, PoolError>,
)
    requires
        p0.wf(),
        count_holding(frames, p0.key()) <= p0.lent(),
        0 <= i < frames.len(),
        redeem_post(p0, p1, frames[i], f1, r) || soft_redeem_post(p0, p1, frames[i], f1, soft),
    ensures
        p1.wf(),
        count_holding(frames.update(i, f1), p1.key()) <= p1.lent() <= p1.capacity(),
{
    lemma_count_update(frames, i, f1, p0.key());
    if frames[i].holds(p0.key()) && f1 != frames[i] {
        assert(!f1.holds(p0.key()));
    }
}

/// Borrowing a buffer and then redeeming it from the same frame succeeds and
/// leaves the pool with the free buffers it had before the borrow; a frame
/// that held nothing under the key before ends with the buffers it had.
pub proof fn lemma_borrow_redeem_round_trip(
    p0: BuffersPool,
    p1: BuffersPool,
    p2: BuffersPool,
    f0: FrameData,
    f1: FrameData,
    f2: FrameData,
    r: Result<(), PoolError>,
)
    requires
        p0.wf(),
        borrow_post(p0, p1, f0, f1, BorrowOutcome::Granted),
        redeem_post(p1, p2, f1, f2, r),
    ensures
        r == Ok::<(), PoolError>(()),
        p2.free().len() == p0.free().len(),
        p2.free() == p0.free(),
        p2.key() == p0.key() && p2.capacity() == p0.capacity(),
        f2.statistics() == f0.statistics() && f2.error() == f0.error(),
        !f0.holds(p0.key()) ==> f2.buffers() == f0.buffers(),
{
    assert(granted(p0, p1, f0, f1));
    assert(f1.holds(p0.key()));
    assert(f1.buffers()[p0.key()] == p0.free().last());
    assert(p1.free().len() < p1.capacity());
    match r {
        Ok(u) => {
            assert(u == ());
        },
        Err(e) => {
            assert(e != PoolError::NotHeld);
            assert(e != PoolError::NotLent);
        },
    }
    assert(r is Ok);
    assert(p2.free() =~= p0.free());
    if !f0.holds(p0.key()) {
        assert(f2.buffers() =~= f0.buffers());
    }
}

/// Soft-redeeming from a frame that holds nothing under the pool's key does
/// not fail and changes neither the pool nor the frame, however often it is
/// repeated.
pub proof fn lemma_soft_redeem_absent_is_noop(
    p0: BuffersPool,
    p1: BuffersPool,
    f0: FrameData,
    f1: FrameData,
    r: Result<bool, PoolError>,
)
    requires
        !f0.holds(p0.key()),
        soft_redeem_post(p0, p1, f0, f1, r),
    ensures
        r == Ok::<bool, PoolError>(false),
        p1 == p0,
        f1 == f0,
{
}

/// A frame on which a fault was reported never gets past an error switch:
/// the switch diverts it unchanged, the chain records the drop at the
/// switch's position and runs nothing after it, and the recovery pass gives
/// every buffer the frame held back to the pool that lent it.
pub proof fn lemma_fault_isolation(
    f: FrameData,
    outcome: StepOutcome,
    run: ChainRun,
    j: int,
    pools0: PoolRegistry,
    pools1: PoolRegistry,
    f1: FrameData,
)
    requires
        f.error() is Some,
        outcome == switch_outcome(f),
        run.wf(),
        0 <= j < run.verdicts().len(),
        run.verdicts()[j] == (outcome is Continue),
        pools0.wf(),
        forall|i: int|
            0 <= i < pools0.pools().len() && f.holds(#[trigger] pools0.pools()[i].key())
                ==> pools0.pools()[i].lent() > 0,
        release_all_post(pools0, pools1, f, f1),
    ensures
        outcome == StepOutcome::Divert(f),
        run.verdicts().len() == j + 1,
        run.next_spec() == NextStep::Dropped,
        forall|i: int|
            0 <= i < pools0.pools().len() && f.holds(#[trigger] pools0.pools()[i].key()) ==> {
                &&& !f1.holds(pools0.pools()[i].key())
                &&& pools1.pools()[i].free() == pools0.pools()[i].free().push(
                    f.buffers()[pools0.pools()[i].key()],
                )
            },
{
    crate::chain::lemma_drop_short_circuits(run, j);
    assert forall|i: int|
        0 <= i < pools0.pools().len() && f.holds(#[trigger] pools0.pools()[i].key()) implies {
            &&& !f1.holds(pools0.pools()[i].key())
            &&& pools1.pools()[i].free() == pools0.pools()[i].free().push(
                f.buffers()[pools0.pools()[i].key()],
            )
        } by {
        let k = pools0.pools()[i].key();
        assert(crate::registry::released_keys(pools0.pools(), f, pools0.pools().len() as int).contains(k));
        assert(crate::registry::released(pools0.pools()[i], pools1.pools()[i], f));
    }
}

} // verus!
