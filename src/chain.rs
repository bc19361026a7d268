use vstd::prelude::*;

use crate::frame::FrameData;

verus! {

/// What a processor hands back: the frame, to go on down the chain, or
/// nothing, when the frame is dropped.
pub enum Flow {
    Continue(FrameData),
    Drop,
}

/// What the chain does next.
#[derive(Clone, Copy, Debug, PartialEq, Eq, Structural)]
pub enum NextStep {
    /// Run the processor at this position.
    Invoke(usize),
    /// Every processor let the frame through.
    Completed,
    /// A processor dropped the frame; the rest are skipped.
    Dropped,
}

/// The progress of one frame through a chain of `length` processors.
///
/// `verdicts` records, for each processor run so far, whether it let the
/// frame through.
pub struct ChainRun {
    length: usize,
    position: usize,
    dropped: bool,
    verdicts: Ghost<Seq<bool>>,
}

impl ChainRun {
    /// The chain's length.
    pub closed spec fn length(&self) -> nat {
        self.length as nat
    }

    /// The verdicts of the processors run so far, in order.
    pub closed spec fn verdicts(&self) -> Seq<bool> {
        self.verdicts@
    }

    /// Processors run in order from the first, and none runs after one that
    /// dropped the frame.
    pub closed spec fn wf(&self) -> bool {
        &&& self.position == self.verdicts@.len()
        &&& self.position <= self.length
        &&& forall|j: int| 0 <= j < self.verdicts@.len() - 1 ==> #[trigger] self.verdicts@[j]
        &&& self.dropped <==> (self.verdicts@.len() > 0 && !self.verdicts@.last())
    }

    /// What the chain does next, given the verdicts so far.
    pub open spec fn next_spec(&self) -> NextStep {
        let v = self.verdicts();
        if v.len() > 0 && !v.last() {
            NextStep::Dropped
        } else if v.len() == self.length() {
            NextStep::Completed
        } else {
            NextStep::Invoke(v.len() as usize)
        }
    }

    /// A frame about to enter a chain of `length` processors.
    pub fn start(length: usize) -> (r: ChainRun)
        ensures
            r.wf(),
            r.length() == length,
            r.verdicts() == Seq::<bool>::empty(),
    {
        ChainRun { length, position: 0, dropped: false, verdicts: Ghost(Seq::empty()) }
    }

    /// What the chain does next.
    pub fn next_step(&self) -> (r: NextStep)
        requires
            self.wf(),
        ensures
            r == self.next_spec(),
    {
        if self.dropped {
            NextStep::Dropped
        } else if self.position == self.length {
            NextStep::Completed
        } else {
            NextStep::Invoke(self.position)
        }
    }

    /// Records the verdict of the processor that `next_step` named.
    pub fn record(&mut self, continued: bool)
        requires
            old(self).wf(),
            old(self).next_spec() is Invoke,
        ensures
            final(self).wf(),
            final(self).length() == old(self).length(),
            final(self).verdicts() == old(self).verdicts().push(continued),
    {
        self.position = self.position + 1;
        self.dropped = !continued;
        self.verdicts = Ghost(self.verdicts@.push(continued));
    }
}

/// Once the processor at position `i` drops the frame, no processor after it
/// is run for that frame: it was the last to give a verdict, and the chain
/// is over.
pub proof fn lemma_drop_short_circuits(run: ChainRun, i: int)
    requires
        run.wf(),
        0 <= i < run.verdicts().len(),
        !run.verdicts()[i],
    ensures
        run.verdicts().len() == i + 1,
        forall|j: int| 0 <= j < i ==> #[trigger] run.verdicts()[j],
        run.next_spec() == NextStep::Dropped,
{
    if i < run.verdicts().len() - 1 {
        assert(run.verdicts()[i]);
    }
}

/// Where the error switch sends a frame.
pub enum Switched {
    /// No fault: the frame goes on down the main chain.
    Pass(FrameData),
    /// A fault was reported: the frame goes to the recovery stage.
    Divert(FrameData),
}

/// Sends a faulted frame to recovery and lets any other through, unchanged.
pub fn error_switch(frame: FrameData) -> (r: Switched)
    ensures
        match r {
            Switched::Pass(f) => frame.error() is None && f == frame,
            Switched::Divert(f) => frame.error() is Some && f == frame,
        },
{
    if frame.get_error().is_some() {
        Switched::Divert(frame)
    } else {
        Switched::Pass(frame)
    }
}

} // verus!
