use vstd::prelude::*;

use crate::component::{Component, Step};

verus! {

/// The statistic key under which a frame's phase is recorded.
pub const PHASE_KEY: u64 = 0;

/// The number of the application processor that prints a frame's buffer.
pub const PRINT_BUFFER: u64 = 0;

/// Where a frame stands in the borrow/redeem round.
#[derive(Clone, Copy, Debug, PartialEq, Eq, Hash, Structural)]
pub enum Phase {
    Unknown,
    PreBorrow,
    PostBorrow,
    PreRedeem,
    PostRedeem,
}

impl Phase {
    /// The value recorded for this phase.
    pub open spec fn code_spec(self) -> u128 {
        match self {
            Phase::Unknown => 0,
            Phase::PreBorrow => 1,
            Phase::PostBorrow => 2,
            Phase::PreRedeem => 3,
            Phase::PostRedeem => 4,
        }
    }

    /// The value recorded for this phase.
    pub fn code(self) -> (r: u128)
        ensures
            r == self.code_spec(),
    {
        match self {
            Phase::Unknown => 0,
            Phase::PreBorrow => 1,
            Phase::PostBorrow => 2,
            Phase::PreRedeem => 3,
            Phase::PostRedeem => 4,
        }
    }

    /// The phase recorded as `code`, if any.
    pub fn from_code(code: u128) -> (r: Option<Phase>)
        ensures
            match r {
                Some(p) => p.code_spec() == code,
                None => code > 4,
            },
    {
        if code == 0 {
            Some(Phase::Unknown)
        } else if code == 1 {
            Some(Phase::PreBorrow)
        } else if code == 2 {
            Some(Phase::PostBorrow)
        } else if code == 3 {
            Some(Phase::PreRedeem)
        } else if code == 4 {
            Some(Phase::PostRedeem)
        } else {
            None
        }
    }
}

impl Default for Phase {
    fn default() -> (r: Phase)
        ensures
            r == Phase::Unknown,
    {
        Phase::Unknown
    }
}

/// The one buffer of the borrow/redeem example.
#[derive(Clone, Copy, Debug, PartialEq, Eq, Hash, Structural)]
pub enum Buffer {
    Dummy,
}

impl Buffer {
    /// The buffer key.
    pub fn key(self) -> (r: u64)
        ensures
            r == 0,
    {
        0
    }
}

/// Steps that the borrow/redeem example adds to a component.
pub trait FrameDataAppends: Sized {
    /// The steps so far.
    spec fn steps_of(&self) -> Seq<Step>;

    /// Adds a step that hands the frame to the buffer printer.
    fn print_buffer(self) -> (r: Self)
        ensures
            r.steps_of() == self.steps_of().push(Step::Processor(PRINT_BUFFER)),
    ;

    /// Adds a step that records `phase` on the frame.
    fn set_phase(self, phase: Phase) -> (r: Self)
        ensures
            r.steps_of() == self.steps_of().push(Step::Mark(PHASE_KEY, phase.code_spec())),
    ;
}

impl FrameDataAppends for Component {
    open spec fn steps_of(&self) -> Seq<Step> {
        self@
    }

    fn print_buffer(self) -> (r: Self) {
        self.append(Step::Processor(PRINT_BUFFER))
    }

    fn set_phase(self, phase: Phase) -> (r: Self) {
        self.append(Step::Mark(PHASE_KEY, phase.code()))
    }
}

} // verus!
