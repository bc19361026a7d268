use vstd::prelude::*;

verus! {

/// The one buffer of the screen mirror.
#[derive(Clone, Copy, Debug, PartialEq, Eq, Structural)]
pub enum BufferType {
    RawFrameBuffer,
}

impl BufferType {
    /// The buffer key.
    pub fn key(self) -> (r: u64)
        ensures
            r == 0,
    {
        0
    }
}

} // verus!
