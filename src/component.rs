use vstd::prelude::*;

use crate::chain::{error_switch, Switched};
use crate::frame::FrameData;
use crate::pool::{granted, redeem_post, soft_redeem_post, PoolError};
use crate::registry::PoolRegistry;

verus! {

/// One processor of a component.
#[derive(Clone, Copy, Debug, PartialEq, Eq, Structural)]
pub enum Step {
    /// The clocked source: a fresh frame every `period` milliseconds.
    Tick(u64),
    /// Takes a buffer from the pool of this key into the frame.
    Borrow(u64),
    /// Returns the frame's buffer under this key to its pool.
    Redeem(u64),
    /// As `Redeem`, but a missing buffer is no fault.
    SoftRedeem(u64),
    /// Records the current clock reading under this statistic key.
    Stamp(u64),
    /// Records a fixed value under a statistic key.
    Mark(u64, u128),
    /// Records, under the second key, the time since the clock reading
    /// recorded under the first; nothing when there is none. A reading later
    /// than now counts as no time at all.
    Since(u64, u64),
    /// Diverts a faulted frame to the recovery stage.
    ErrorSwitch,
    /// A processor supplied by the application, by its number.
    Processor(u64),
}

/// What running one step came to.
pub enum StepOutcome {
    /// The frame goes on to the next step.
    Continue(FrameData),
    /// The pool is exhausted: run the same step again after a redeem.
    Wait(FrameData),
    /// The frame is faulted: it leaves the chain for the recovery stage.
    Divert(FrameData),
    /// The application's processor of this number is to run on the frame.
    Run(u64, FrameData),
    /// A pool was misused; the stage must stop.
    Fault(PoolError),
}

/// Where the error switch sends `frame`: to recovery when a fault was
/// reported on it, on down the chain otherwise.
pub open spec fn switch_outcome(frame: FrameData) -> StepOutcome {
    if frame.error() is Some {
        StepOutcome::Divert(frame)
    } else {
        StepOutcome::Continue(frame)
    }
}

/// The time from the reading `then` to the reading `now`; none when `then`
/// is later.
pub open spec fn elapsed(then: u128, now: u128) -> u128 {
    if then <= now {
        (now - then) as u128
    } else {
        0
    }
}

/// Runs the built-in step `step` on `frame`, with `now` as the clock reading.
pub fn apply(step: Step, frame: FrameData, pools: &mut PoolRegistry, now: u128) -> (r: StepOutcome)
    requires
        frame.wf(),
        old(pools).wf(),
    ensures
        final(pools).wf(),
        match r {
            StepOutcome::Continue(f) | StepOutcome::Wait(f) | StepOutcome::Divert(f) | StepOutcome::Run(
                _,
                f,
            ) => f.wf(),
            StepOutcome::Fault(_) => true,
        },
        match step {
            Step::Borrow(k) | Step::Redeem(k) | Step::SoftRedeem(k) => {
                if !old(pools).has_pool(k) {
                    r == StepOutcome::Fault(PoolError::UnknownKey) && *final(pools) == *old(pools)
                } else {
                    let i = old(pools).pool_index(k);
                    let p0 = old(pools).pools()[i];
                    let p1 = final(pools).pools()[i];
                    &&& final(pools).pools() == old(pools).pools().update(i, p1)
                    &&& match step {
                        Step::Borrow(_) => if p0.free().len() == 0 {
                            r == StepOutcome::Wait(frame) && p1 == p0
                        } else {
                            r matches StepOutcome::Continue(f) && granted(p0, p1, frame, f)
                        },
                        Step::Redeem(_) => match r {
                            StepOutcome::Continue(f) => redeem_post(p0, p1, frame, f, Ok(())),
                            StepOutcome::Fault(e) => redeem_post(p0, p1, frame, frame, Err(e)),
                            _ => false,
                        },
                        _ => match r {
                            StepOutcome::Continue(f) => soft_redeem_post(p0, p1, frame, f, Ok(true))
                                || soft_redeem_post(p0, p1, frame, f, Ok(false)),
                            StepOutcome::Fault(e) => soft_redeem_post(p0, p1, frame, frame, Err(e)),
                            _ => false,
                        },
                    }
                }
            },
            Step::Stamp(k) => *final(pools) == *old(pools) && (r matches StepOutcome::Continue(f)
                && f.buffers() == frame.buffers() && f.error() == frame.error() && f.statistics()
                == frame.statistics().insert(k, now)),
            Step::Mark(k, v) => *final(pools) == *old(pools) && (r matches StepOutcome::Continue(f)
                && f.buffers() == frame.buffers() && f.error() == frame.error() && f.statistics()
                == frame.statistics().insert(k, v)),
            Step::Since(from, into) => *final(pools) == *old(pools) && (r matches StepOutcome::Continue(f)
                && f.buffers() == frame.buffers() && f.error() == frame.error() && f.statistics()
                == if frame.statistics().contains_key(from) {
                frame.statistics().insert(into, elapsed(frame.statistics()[from], now))
            } else {
                frame.statistics()
            }),
            Step::ErrorSwitch => *final(pools) == *old(pools) && r == switch_outcome(frame),
            Step::Processor(id) => *final(pools) == *old(pools) && r == StepOutcome::Run(id, frame),
            Step::Tick(_) => *final(pools) == *old(pools) && r == StepOutcome::Continue(frame),
        },
{
    let mut frame = frame;
    match step {
        Step::Borrow(k) => match pools.borrow(k, &mut frame) {
            Ok(crate::pool::BorrowOutcome::Granted) => StepOutcome::Continue(frame),
            Ok(crate::pool::BorrowOutcome::Exhausted) => StepOutcome::Wait(frame),
            Err(e) => StepOutcome::Fault(e),
        },
        Step::Redeem(k) => match pools.redeem(k, &mut frame) {
            Ok(()) => StepOutcome::Continue(frame),
            Err(e) => StepOutcome::Fault(e),
        },
        Step::SoftRedeem(k) => match pools.soft_redeem(k, &mut frame) {
            Ok(_) => StepOutcome::Continue(frame),
            Err(e) => StepOutcome::Fault(e),
        },
        Step::Stamp(k) => {
            frame.set(k, now);
            StepOutcome::Continue(frame)
        },
        Step::Mark(k, v) => {
            frame.set(k, v);
            StepOutcome::Continue(frame)
        },
        Step::Since(from, into) => {
            match frame.get(from) {
                Some(then) => {
                    let d = if then <= now {
                        now - then
                    } else {
                        0
                    };
                    frame.set(into, d);
                },
                None => {},
            }
            StepOutcome::Continue(frame)
        },
        Step::ErrorSwitch => match error_switch(frame) {
            Switched::Pass(f) => StepOutcome::Continue(f),
            Switched::Divert(f) => StepOutcome::Divert(f),
        },
        Step::Processor(id) => StepOutcome::Run(id, frame),
        Step::Tick(_) => StepOutcome::Continue(frame),
    }
}

/// An ordered chain of steps, run in order on one frame at a time.
pub struct Component {
    steps: Vec<Step>,
}

impl View for Component {
    type V = Seq<Step>;

    closed spec fn view(&self) -> Seq<Step> {
        self.steps@
    }
}

impl Component {
    /// A component with no steps.
    pub fn new() -> (r: Component)
        ensures
            r@ == Seq::<Step>::empty(),
    {
        Component { steps: Vec::new() }
    }

    /// The component with `step` added at the end.
    pub fn append(self, step: Step) -> (r: Component)
        ensures
            r@ == self@.push(step),
    {
        let mut steps = self.steps;
        steps.push(step);
        Component { steps }
    }

    /// The number of steps.
    pub fn len(&self) -> (r: usize)
        ensures
            r == self@.len(),
    {
        self.steps.len()
    }

    /// The step at position `i`.
    pub fn step(&self, i: usize) -> (r: Step)
        requires
            i < self@.len(),
        ensures
            r == self@[i as int],
    {
        self.steps[i]
    }

    /// The period of the clocked source, when the component starts with one.
    pub fn source_period(&self) -> (r: Option<u64>)
        ensures
            match r {
                Some(p) => self@.len() > 0 && self@[0] == Step::Tick(p),
                None => self@.len() == 0 || !(self@[0] is Tick),
            },
    {
        if self.steps.len() == 0 {
            return None;
        }
        match self.steps[0] {
            Step::Tick(p) => Some(p),
            _ => None,
        }
    }
}

} // verus!
