//! The status codes of the trace decoder.

use vstd::prelude::*;

verus! {

/// A status of the trace decoder. Only `EndOfStream` ends a decode pass
/// successfully; every other status is fatal for the pass.
#[derive(Clone, Copy, Debug, PartialEq, Eq, Structural, PartialOrd, Ord)]
pub enum PTDecoderStatus {
    NoError,
    EndOfStream,
    Internal,
    CouldNotSync,
    TraceDesync,
    UnsupportedTracePacket,
    NoMap,
}

/// The numeric code of each status.
pub open spec fn status_code(s: PTDecoderStatus) -> int {
    match s {
        PTDecoderStatus::NoError => 0,
        PTDecoderStatus::EndOfStream => 1,
        PTDecoderStatus::Internal => 2,
        PTDecoderStatus::CouldNotSync => 3,
        PTDecoderStatus::TraceDesync => 4,
        PTDecoderStatus::UnsupportedTracePacket => 5,
        PTDecoderStatus::NoMap => 6,
    }
}

/// Whether `code` is the code of some status.
pub open spec fn is_status_code(code: int) -> bool {
    0 <= code <= 6
}

impl PTDecoderStatus {
    /// The numeric code of this status.
    pub fn code(&self) -> (r: u32)
        ensures
            r == status_code(*self),
    {
        match self {
            PTDecoderStatus::NoError => 0,
            PTDecoderStatus::EndOfStream => 1,
            PTDecoderStatus::Internal => 2,
            PTDecoderStatus::CouldNotSync => 3,
            PTDecoderStatus::TraceDesync => 4,
            PTDecoderStatus::UnsupportedTracePacket => 5,
            PTDecoderStatus::NoMap => 6,
        }
    }

    /// The status with numeric code `value`; `Err(value)` where there is none.
    pub fn try_from(value: i32) -> (r: Result<PTDecoderStatus, i32>)
        ensures
            is_status_code(value as int) <==> r is Ok,
            r matches Ok(s) ==> status_code(s) == value,
            r matches Err(v) ==> v == value,
    {
        match value {
            0 => Ok(PTDecoderStatus::NoError),
            1 => Ok(PTDecoderStatus::EndOfStream),
            2 => Ok(PTDecoderStatus::Internal),
            3 => Ok(PTDecoderStatus::CouldNotSync),
            4 => Ok(PTDecoderStatus::TraceDesync),
            5 => Ok(PTDecoderStatus::UnsupportedTracePacket),
            6 => Ok(PTDecoderStatus::NoMap),
            _ => Err(value),
        }
    }
}

} // verus!
