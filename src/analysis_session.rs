//! The rules of a decode session: which trace buffer is current, when a
//! decode pass may run, and what its terminal status means.

use vstd::prelude::*;

use crate::pt_decoder_status::{is_status_code, status_code, PTDecoderStatus};

verus! {

/// Why a decode pass failed.
#[derive(Clone, Copy, Debug, PartialEq, Eq, Structural)]
pub enum DecodeError {
    /// The decoder stopped with a status other than `EndOfStream`.
    Status(PTDecoderStatus),
    /// The decoder returned a value that encodes no status.
    UnexpectedReturn(i32),
    /// No trace buffer is installed, or its one pass already ran.
    NoPassReady,
}

/// What a decode call returning `ret` means: the decoder returns the
/// negated code of its terminal status (0 for `NoError`), and only
/// `EndOfStream` is success.
pub open spec fn decode_outcome(ret: int) -> Result<(), DecodeError> {
    if ret <= 0 && is_status_code(-ret) {
        if -ret == status_code(PTDecoderStatus::EndOfStream) {
            Ok(())
        } else {
            Err(DecodeError::Status(status_of_code(-ret)))
        }
    } else {
        Err(DecodeError::UnexpectedReturn(ret as i32))
    }
}

/// The status whose code is `c` (for `c` in 0..=6).
pub open spec fn status_of_code(c: int) -> PTDecoderStatus {
    if c == 0 {
        PTDecoderStatus::NoError
    } else if c == 1 {
        PTDecoderStatus::EndOfStream
    } else if c == 2 {
        PTDecoderStatus::Internal
    } else if c == 3 {
        PTDecoderStatus::CouldNotSync
    } else if c == 4 {
        PTDecoderStatus::TraceDesync
    } else if c == 5 {
        PTDecoderStatus::UnsupportedTracePacket
    } else {
        PTDecoderStatus::NoMap
    }
}

/// Maps the value returned by a decode call to the pass's result.
pub fn decode_result(ret: i32) -> (r: Result<(), DecodeError>)
    ensures
        r == decode_outcome(ret as int),
        r is Ok <==> ret == -1,
{
    if ret > 0 || ret == i32::MIN {
        return Err(DecodeError::UnexpectedReturn(ret));
    }
    match PTDecoderStatus::try_from(-ret) {
        Ok(PTDecoderStatus::EndOfStream) => Ok(()),
        Ok(s) => Err(DecodeError::Status(s)),
        Err(_) => Err(DecodeError::UnexpectedReturn(ret)),
    }
}

/// Where a decode session stands.
#[derive(Clone, Copy, Debug, PartialEq, Eq, Structural)]
pub enum PassState {
    /// No trace buffer is installed.
    Unconfigured,
    /// A trace buffer is installed and its pass has not run.
    Ready,
    /// The pass over the installed buffer has run to a terminal status.
    Spent,
}

/// The state of a decode session. The decoder itself is driven from outside;
/// this holds the rules: a buffer is installed by reconfiguring, a pass runs
/// once per installed buffer, and its terminal status decides its result.
pub struct AnalysisSession {
    state: PassState,
    trace_slide: usize,
}

impl AnalysisSession {
    pub closed spec fn state_spec(&self) -> PassState {
        self.state
    }

    pub closed spec fn slide_spec(&self) -> usize {
        self.trace_slide
    }

    /// A session with no trace buffer installed, whose native allocation
    /// returned `status`. A negative status is an OS error code, negated.
    pub fn new(status: i32) -> (r: Result<AnalysisSession, i64>)
        ensures
            status < 0 ==> r == Err::<AnalysisSession, i64>((-status) as i64),
            status >= 0 ==> (r matches Ok(s) && s.state_spec() == PassState::Unconfigured),
    {
        if status < 0 {
            Err(-(status as i64))
        } else {
            Ok(AnalysisSession { state: PassState::Unconfigured, trace_slide: 0 })
        }
    }

    pub fn state(&self) -> (r: PassState)
        ensures
            r == self.state_spec(),
    {
        self.state
    }

    /// The address slide of the installed buffer.
    pub fn trace_slide(&self) -> (r: usize)
        ensures
            r == self.slide_spec(),
    {
        self.trace_slide
    }

    /// Records the outcome of installing a new trace buffer with address
    /// slide `trace_slide`, whose installation returned `status`. A negative
    /// status is an OS error code, negated; it leaves no buffer installed.
    pub fn reconfigure_with_terminated_trace_buffer(&mut self, trace_slide: usize, status: i32) -> (r:
        Result<(), i64>)
        ensures
            status >= 0 ==> r is Ok && final(self).state_spec() == PassState::Ready
                && final(self).slide_spec() == trace_slide,
            status < 0 ==> r == Err::<(), i64>((-status) as i64) && final(self).state_spec()
                == PassState::Unconfigured,
    {
        if status < 0 {
            self.state = PassState::Unconfigured;
            Err(-(status as i64))
        } else {
            self.state = PassState::Ready;
            self.trace_slide = trace_slide;
            Ok(())
        }
    }

    /// Whether a decode pass may start now: only once per installed buffer.
    pub fn begin_decode(&self) -> (r: Result<(), DecodeError>)
        ensures
            r is Ok <==> self.state_spec() == PassState::Ready,
            r is Err ==> r == Err::<(), DecodeError>(DecodeError::NoPassReady),
    {
        match self.state {
            PassState::Ready => Ok(()),
            _ => Err(DecodeError::NoPassReady),
        }
    }

    /// Ends the running pass, whose decode call returned `ret`: the pass is
    /// spent whatever the outcome, and succeeds exactly on `EndOfStream`.
    pub fn decode_with_callback(&mut self, ret: i32) -> (r: Result<(), DecodeError>)
        requires
            old(self).state_spec() == PassState::Ready,
        ensures
            r == decode_outcome(ret as int),
            r is Ok <==> ret == -1,
            final(self).state_spec() == PassState::Spent,
            final(self).slide_spec() == old(self).slide_spec(),
    {
        self.state = PassState::Spent;
        decode_result(ret)
    }
}

} // verus!
