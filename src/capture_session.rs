//! The rules of a hardware trace capture session: its configuration, the
//! checks made before tracing is armed, and how native statuses map to
//! errors. The native calls themselves are made by the caller.

use vstd::prelude::*;

use crate::capture_filter::CaptureFilter;

verus! {

/// The most filters one capture session can hold.
pub const MAX_FILTERS: usize = 4;

/// A native call of the capture surface.
#[derive(Clone, Copy, Debug, PartialEq, Eq, Structural)]
pub enum CaptureCall {
    Alloc,
    SetGlobalBufferSize,
    SetTraceEnable,
    ConfigureTracing,
    GetTrace,
}

/// Why a capture operation failed.
#[derive(Clone, Copy, Debug, PartialEq, Eq, Structural)]
pub enum CaptureError {
    /// More than `MAX_FILTERS` filters were given.
    TooManyFilters,
    /// The process may run on this many CPUs, not exactly one.
    NotSingleCpu(usize),
    /// The process is bound to one CPU, but not to the session's.
    BoundElsewhere,
    /// A native call failed with this OS error code.
    Os(CaptureCall, i64),
    /// The captured trace is longer than memory can hold.
    TraceTooLong,
}

/// The result of a native call that returned `status`: a negative status is
/// an OS error code, negated.
pub open spec fn status_outcome(call: CaptureCall, status: i32) -> Result<(), CaptureError> {
    if status < 0 {
        Err(CaptureError::Os(call, (-status) as i64))
    } else {
        Ok(())
    }
}

/// Maps the status returned by a native call to a result.
pub fn check_status(call: CaptureCall, status: i32) -> (r: Result<(), CaptureError>)
    ensures
        r == status_outcome(call, status),
{
    if status < 0 {
        Err(CaptureError::Os(call, -(status as i64)))
    } else {
        Ok(())
    }
}

/// The number of CPUs marked in an affinity mask.
pub open spec fn cpu_count(mask: Seq<bool>) -> nat
    decreases mask.len(),
{
    if mask.len() == 0 {
        0
    } else {
        cpu_count(mask.drop_last()) + if mask.last() {
            1nat
        } else {
            0nat
        }
    }
}

/// Whether `mask` marks `cpu` and no other CPU.
pub open spec fn bound_to(mask: Seq<bool>, cpu: int) -> bool {
    &&& 0 <= cpu < mask.len()
    &&& mask[cpu]
    &&& forall|i: int| 0 <= i < mask.len() && i != cpu ==> !mask[i]
}

/// The result of the affinity check for `mask` on a session bound to `cpu`.
pub open spec fn affinity_outcome(mask: Seq<bool>, cpu: int) -> Result<(), CaptureError> {
    if cpu_count(mask) != 1 {
        Err(CaptureError::NotSingleCpu(cpu_count(mask) as usize))
    } else if bound_to(mask, cpu) {
        Ok(())
    } else {
        Err(CaptureError::BoundElsewhere)
    }
}

/// The result of the checks made before tracing is armed: the filters
/// first, then the affinity mask.
pub open spec fn configure_outcome(filters: nat, mask: Seq<bool>, cpu: int) -> Result<
    (),
    CaptureError,
> {
    if filters > MAX_FILTERS {
        Err(CaptureError::TooManyFilters)
    } else {
        affinity_outcome(mask, cpu)
    }
}

pub proof fn lemma_cpu_count_bound(mask: Seq<bool>)
    ensures
        cpu_count(mask) <= mask.len(),
    decreases mask.len(),
{
    if mask.len() > 0 {
        lemma_cpu_count_bound(mask.drop_last());
    }
}

/// A mask with a single CPU marked marks exactly that CPU.
pub proof fn lemma_single_cpu(mask: Seq<bool>, cpu: int)
    requires
        cpu_count(mask) == 1,
        0 <= cpu < mask.len(),
        mask[cpu],
    ensures
        bound_to(mask, cpu),
    decreases mask.len(),
{
    let p = mask.drop_last();
    assert(forall|i: int| 0 <= i < p.len() ==> p[i] == mask[i]);
    if cpu < mask.len() - 1 {
        if mask.last() {
            lemma_count_positive(p, cpu);
        } else {
            lemma_single_cpu(p, cpu);
            assert forall|i: int| 0 <= i < mask.len() && i != cpu implies !mask[i] by {
                if i < mask.len() - 1 {
                    assert(!p[i]);
                }
            }
        }
    } else {
        lemma_count_zero(p);
        assert forall|i: int| 0 <= i < mask.len() && i != cpu implies !mask[i] by {
            assert(!p[i]);
        }
    }
}

proof fn lemma_count_positive(mask: Seq<bool>, cpu: int)
    requires
        0 <= cpu < mask.len(),
        mask[cpu],
    ensures
        cpu_count(mask) >= 1,
    decreases mask.len(),
{
    if cpu < mask.len() - 1 {
        lemma_count_positive(mask.drop_last(), cpu);
    }
}

proof fn lemma_count_zero(mask: Seq<bool>)
    requires
        cpu_count(mask) == 0,
    ensures
        forall|i: int| 0 <= i < mask.len() ==> !mask[i],
{
    assert forall|i: int| 0 <= i < mask.len() implies !mask[i] by {
        if mask[i] {
            lemma_count_positive(mask, i);
        }
    }
}

/// A hardware trace capture session bound to one CPU.
pub struct CaptureSession {
    cpu_id: u16,
    buffer_count: u32,
    page_power: u8,
    enabled: bool,
}

impl CaptureSession {
    pub closed spec fn cpu_spec(&self) -> u16 {
        self.cpu_id
    }

    pub closed spec fn enabled_spec(&self) -> bool {
        self.enabled
    }

    pub closed spec fn buffer_spec(&self) -> (u32, u8) {
        (self.buffer_count, self.page_power)
    }

    /// The session made on `cpu_id`, whose allocation returned `status`.
    pub fn new(cpu_id: u16, status: i32) -> (r: Result<CaptureSession, CaptureError>)
        ensures
            status < 0 ==> r == Err::<CaptureSession, CaptureError>(
                CaptureError::Os(CaptureCall::Alloc, (-status) as i64),
            ),
            status >= 0 ==> (r matches Ok(s) && s.cpu_spec() == cpu_id && !s.enabled_spec()),
    {
        match check_status(CaptureCall::Alloc, status) {
            Err(e) => Err(e),
            Ok(()) => Ok(CaptureSession { cpu_id, buffer_count: 0, page_power: 0, enabled: false }),
        }
    }

    pub fn cpu_id(&self) -> (r: u16)
        ensures
            r == self.cpu_spec(),
    {
        self.cpu_id
    }

    pub fn is_enabled(&self) -> (r: bool)
        ensures
            r == self.enabled_spec(),
    {
        self.enabled
    }

    /// Records the buffer size set by a native call that returned `status`.
    /// The size is set before tracing is enabled.
    pub fn set_global_buffer_size(&mut self, buffer_count: u32, page_power: u8, status: i32) -> (r:
        Result<(), CaptureError>)
        requires
            !old(self).enabled_spec(),
        ensures
            r == status_outcome(CaptureCall::SetGlobalBufferSize, status),
            final(self).cpu_spec() == old(self).cpu_spec(),
            final(self).enabled_spec() == old(self).enabled_spec(),
            final(self).buffer_spec() == if status >= 0 {
                (buffer_count, page_power)
            } else {
                old(self).buffer_spec()
            },
    {
        let r = check_status(CaptureCall::SetGlobalBufferSize, status);
        if r.is_ok() {
            self.buffer_count = buffer_count;
            self.page_power = page_power;
        }
        r
    }

    /// Records the trace generation switched by a native call that
    /// returned `status`.
    pub fn set_trace_enable(&mut self, enabled: bool, status: i32) -> (r: Result<(), CaptureError>)
        ensures
            r == status_outcome(CaptureCall::SetTraceEnable, status),
            final(self).cpu_spec() == old(self).cpu_spec(),
            final(self).buffer_spec() == old(self).buffer_spec(),
            final(self).enabled_spec() == if status >= 0 {
                enabled
            } else {
                old(self).enabled_spec()
            },
    {
        let r = check_status(CaptureCall::SetTraceEnable, status);
        if r.is_ok() {
            self.enabled = enabled;
        }
        r
    }

    /// The check made on the filters before anything else: at most
    /// `MAX_FILTERS` of them.
    pub fn check_filters(&self, filters: &Vec<CaptureFilter>) -> (r: Result<(), CaptureError>)
        ensures
            r is Ok <==> filters@.len() <= MAX_FILTERS,
            r is Err ==> r == Err::<(), CaptureError>(CaptureError::TooManyFilters),
    {
        if filters.len() > MAX_FILTERS {
            Err(CaptureError::TooManyFilters)
        } else {
            Ok(())
        }
    }

    /// The check made on the affinity mask of the traced process: it must
    /// mark this session's CPU and no other.
    pub fn check_affinity(&self, mask: &Vec<bool>) -> (r: Result<(), CaptureError>)
        ensures
            r == affinity_outcome(mask@, self.cpu_spec() as int),
            r is Ok <==> bound_to(mask@, self.cpu_spec() as int),
    {
        let mut count: usize = 0;
        let mut i: usize = 0;
        while i < mask.len()
            invariant
                i <= mask@.len(),
                count == cpu_count(mask@.take(i as int)),
            decreases mask@.len() - i,
        {
            proof {
                assert(mask@.take(i + 1).drop_last() =~= mask@.take(i as int));
                lemma_cpu_count_bound(mask@.take(i + 1));
            }
            if mask[i] {
                count = count + 1;
            }
            i = i + 1;
        }
        assert(mask@.take(mask@.len() as int) =~= mask@);
        let cpu = self.cpu_id as usize;
        if count != 1 {
            proof {
                if bound_to(mask@, cpu as int) {
                    lemma_count_positive(mask@, cpu as int);
                    lemma_count_exact(mask@, cpu as int);
                }
            }
            Err(CaptureError::NotSingleCpu(count))
        } else if cpu < mask.len() && mask[cpu] {
            proof {
                lemma_single_cpu(mask@, cpu as int);
            }
            Ok(())
        } else {
            Err(CaptureError::BoundElsewhere)
        }
    }

    /// The check made before tracing is armed for a process with affinity
    /// mask `mask`: the filters first, then the mask. Only on `Ok` may the
    /// native configuration call be made.
    pub fn configure_tracing(&self, filters: &Vec<CaptureFilter>, mask: &Vec<bool>) -> (r: Result<
        (),
        CaptureError,
    >)
        ensures
            r == configure_outcome(filters@.len(), mask@, self.cpu_spec() as int),
            r == Err::<(), CaptureError>(CaptureError::TooManyFilters) <==> filters@.len()
                > MAX_FILTERS,
            r is Ok <==> filters@.len() <= MAX_FILTERS && bound_to(mask@, self.cpu_spec() as int),
    {
        match self.check_filters(filters) {
            Err(e) => Err(e),
            Ok(()) => self.check_affinity(mask),
        }
    }

    /// The length of the trace buffer to copy, its terminator included, for a
    /// native call that returned `status` and a trace of `trace_length` bytes.
    /// The trace is read only once capture is disabled.
    pub fn get_trace(&self, status: i32, trace_length: u64) -> (r: Result<usize, CaptureError>)
        requires
            !self.enabled_spec(),
        ensures
            status < 0 ==> r == Err::<usize, CaptureError>(
                CaptureError::Os(CaptureCall::GetTrace, (-status) as i64),
            ),
            status >= 0 && trace_length < usize::MAX ==> r == Ok::<usize, CaptureError>(
                (trace_length + 1) as usize,
            ),
            status >= 0 && trace_length >= usize::MAX ==> r == Err::<usize, CaptureError>(
                CaptureError::TraceTooLong,
            ),
    {
        match check_status(CaptureCall::GetTrace, status) {
            Err(e) => Err(e),
            Ok(()) => {
                if trace_length >= usize::MAX as u64 {
                    Err(CaptureError::TraceTooLong)
                } else {
                    Ok(trace_length as usize + 1)
                }
            },
        }
    }
}

/// A mask that marks `cpu` and no other has exactly one CPU marked.
proof fn lemma_count_exact(mask: Seq<bool>, cpu: int)
    requires
        bound_to(mask, cpu),
    ensures
        cpu_count(mask) == 1,
    decreases mask.len(),
{
    let p = mask.drop_last();
    if cpu < mask.len() - 1 {
        assert(bound_to(p, cpu));
        lemma_count_exact(p, cpu);
    } else {
        lemma_count_none(p);
    }
}

proof fn lemma_count_none(mask: Seq<bool>)
    requires
        forall|i: int| 0 <= i < mask.len() ==> !mask[i],
    ensures
        cpu_count(mask) == 0,
    decreases mask.len(),
{
    if mask.len() > 0 {
        lemma_count_none(mask.drop_last());
    }
}

} // verus!
