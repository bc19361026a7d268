use vstd::prelude::*;

verus! {

/// The buffers of the screen streamer.
#[derive(Clone, Copy, Debug, PartialEq, Eq, Hash, Structural)]
pub enum BufferType {
    CapturedRGBAFrameBuffer,
    EncodedFrameBuffer,
    DecodedRGBAFrameBuffer,
}

impl BufferType {
    /// The buffer key.
    pub open spec fn key_spec(self) -> u64 {
        match self {
            BufferType::CapturedRGBAFrameBuffer => 0,
            BufferType::EncodedFrameBuffer => 1,
            BufferType::DecodedRGBAFrameBuffer => 2,
        }
    }

    /// The buffer key; distinct buffers have distinct keys.
    pub fn key(self) -> (r: u64)
        ensures
            r == self.key_spec(),
    {
        match self {
            BufferType::CapturedRGBAFrameBuffer => 0,
            BufferType::EncodedFrameBuffer => 1,
            BufferType::DecodedRGBAFrameBuffer => 2,
        }
    }
}

/// The statistics the screen streamer records.
#[derive(Clone, Copy, Debug, PartialEq, Eq, Hash, Structural)]
pub enum Stat {
    CaptureTime,
    EncodePushTime,
    TransmissionStartTime,
    EncodeTime,
    TransmissionTime,
}

impl Stat {
    /// The statistic key.
    pub open spec fn key_spec(self) -> u64 {
        match self {
            Stat::CaptureTime => 0,
            Stat::EncodePushTime => 1,
            Stat::TransmissionStartTime => 2,
            Stat::EncodeTime => 3,
            Stat::TransmissionTime => 4,
        }
    }

    /// The statistic key; distinct statistics have distinct keys.
    pub fn key(self) -> (r: u64)
        ensures
            r == self.key_spec(),
    {
        match self {
            Stat::CaptureTime => 0,
            Stat::EncodePushTime => 1,
            Stat::TransmissionStartTime => 2,
            Stat::EncodeTime => 3,
            Stat::TransmissionTime => 4,
        }
    }
}

/// The faults a frame of the screen streamer can carry.
#[derive(Clone, Copy, Debug, PartialEq, Eq, Structural)]
pub enum Error {
    NoFrame,
    CodecError,
}

impl Error {
    /// The fault's code on a frame.
    pub open spec fn code_spec(self) -> u64 {
        match self {
            Error::NoFrame => 0,
            Error::CodecError => 1,
        }
    }

    /// The fault's code on a frame.
    pub fn code(self) -> (r: u64)
        ensures
            r == self.code_spec(),
    {
        match self {
            Error::NoFrame => 0,
            Error::CodecError => 1,
        }
    }

    /// The fault with code `code`, if any.
    pub fn from_code(code: u64) -> (r: Option<Error>)
        ensures
            match r {
                Some(e) => e.code_spec() == code,
                None => code > 1,
            },
    {
        if code == 0 {
            Some(Error::NoFrame)
        } else if code == 1 {
            Some(Error::CodecError)
        } else {
            None
        }
    }
}

} // verus!
