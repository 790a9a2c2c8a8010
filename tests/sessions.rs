use rust_honey_analyzer::analysis_session::{decode_result, AnalysisSession, DecodeError, PassState};
use rust_honey_analyzer::capture_filter::CaptureFilter;
use rust_honey_analyzer::capture_session::{check_status, CaptureCall, CaptureError, CaptureSession};
use rust_honey_analyzer::pt_decoder_status::PTDecoderStatus;

fn filter(start: u64) -> CaptureFilter {
    CaptureFilter { enabled: true, start, stop: start + 0x100 }
}

#[test]
fn decoder_status_codes() {
    assert_eq!(PTDecoderStatus::try_from(0), Ok(PTDecoderStatus::NoError));
    assert_eq!(PTDecoderStatus::try_from(3), Ok(PTDecoderStatus::CouldNotSync));
    assert_eq!(PTDecoderStatus::try_from(6), Ok(PTDecoderStatus::NoMap));
    assert_eq!(PTDecoderStatus::try_from(7), Err(7));
    assert_eq!(PTDecoderStatus::try_from(-1), Err(-1));
    assert_eq!(PTDecoderStatus::TraceDesync.code(), 4);
}

#[test]
fn decode_succeeds_only_at_end_of_stream() {
    assert_eq!(decode_result(-1), Ok(()));
    assert_eq!(decode_result(-4), Err(DecodeError::Status(PTDecoderStatus::TraceDesync)));
    assert_eq!(decode_result(-2), Err(DecodeError::Status(PTDecoderStatus::Internal)));
    assert_eq!(decode_result(0), Err(DecodeError::Status(PTDecoderStatus::NoError)));
    assert_eq!(decode_result(1), Err(DecodeError::UnexpectedReturn(1)));
    assert_eq!(decode_result(-7), Err(DecodeError::UnexpectedReturn(-7)));
    assert_eq!(decode_result(-99), Err(DecodeError::UnexpectedReturn(-99)));
    assert_eq!(decode_result(i32::MIN), Err(DecodeError::UnexpectedReturn(i32::MIN)));
}

#[test]
fn decode_pass_runs_once_per_buffer() {
    assert_eq!(AnalysisSession::new(-12).err(), Some(12));
    let mut s = AnalysisSession::new(0).unwrap();
    assert_eq!(s.begin_decode(), Err(DecodeError::NoPassReady));
    assert_eq!(s.reconfigure_with_terminated_trace_buffer(0x1000, 0), Ok(()));
    assert_eq!(s.state(), PassState::Ready);
    assert_eq!(s.trace_slide(), 0x1000);
    assert_eq!(s.begin_decode(), Ok(()));
    assert_eq!(s.decode_with_callback(-5), Err(DecodeError::Status(PTDecoderStatus::UnsupportedTracePacket)));
    assert_eq!(s.state(), PassState::Spent);
    assert_eq!(s.begin_decode(), Err(DecodeError::NoPassReady));
    assert_eq!(s.reconfigure_with_terminated_trace_buffer(0x2000, -12), Err(12));
    assert_eq!(s.state(), PassState::Unconfigured);
    assert_eq!(s.reconfigure_with_terminated_trace_buffer(0x2000, 0), Ok(()));
    assert_eq!(s.decode_with_callback(-1), Ok(()));
}

#[test]
fn native_status_maps_to_os_error() {
    assert_eq!(check_status(CaptureCall::GetTrace, -22), Err(CaptureError::Os(CaptureCall::GetTrace, 22)));
    assert_eq!(check_status(CaptureCall::GetTrace, 0), Ok(()));
    assert_eq!(CaptureSession::new(0, -16).err(), Some(CaptureError::Os(CaptureCall::Alloc, 16)));
}

#[test]
fn five_filters_fail_before_affinity() {
    let s = CaptureSession::new(1, 0).unwrap();
    let filters: Vec<CaptureFilter> = (0..5).map(|i| filter(i * 0x1000)).collect();
    assert_eq!(s.configure_tracing(&filters, &vec![false, true]), Err(CaptureError::TooManyFilters));
    assert_eq!(s.check_filters(&filters), Err(CaptureError::TooManyFilters));
}

#[test]
fn affinity_must_be_this_cpu_alone() {
    let s = CaptureSession::new(1, 0).unwrap();
    let filters: Vec<CaptureFilter> = (0..4).map(|i| filter(i * 0x1000)).collect();
    assert_eq!(s.configure_tracing(&filters, &vec![false, true, false]), Ok(()));
    assert_eq!(s.configure_tracing(&filters, &vec![true, true]), Err(CaptureError::NotSingleCpu(2)));
    assert_eq!(s.configure_tracing(&filters, &vec![false, false]), Err(CaptureError::NotSingleCpu(0)));
    assert_eq!(s.configure_tracing(&filters, &vec![true, false]), Err(CaptureError::BoundElsewhere));
}

#[test]
fn session_state_follows_native_results() {
    let mut s = CaptureSession::new(2, 0).unwrap();
    assert_eq!(s.cpu_id(), 2);
    assert_eq!(s.set_global_buffer_size(400, 5, 0), Ok(()));
    assert_eq!(s.set_trace_enable(true, 0), Ok(()));
    assert!(s.is_enabled());
    assert_eq!(s.set_trace_enable(false, -5), Err(CaptureError::Os(CaptureCall::SetTraceEnable, 5)));
    assert!(s.is_enabled());
    assert_eq!(s.set_trace_enable(false, 0), Ok(()));
    assert_eq!(s.get_trace(0, 99), Ok(100));
    assert_eq!(s.get_trace(-1, 99), Err(CaptureError::Os(CaptureCall::GetTrace, 1)));
}
