use workxgoam::capture::{AudioFormat, CaptureSession, OpenFault, SampleKind, SessionState, PROGRESS_SCALE, RECORDING_DURATION_MS};
use workxgoam::device::AudioDevice;
use workxgoam::errors::CaptureError;
use workxgoam::wav::encode_wav;

fn session() -> CaptureSession {
    let d = AudioDevice { name: "Speakers".to_string(), id: "dev-1".to_string() };
    CaptureSession::new(d, AudioFormat::recording_default())
}

fn streaming(at: u64) -> CaptureSession {
    let mut s = session();
    s.open(Ok(())).unwrap();
    s.start(at, Ok(())).unwrap();
    s
}

#[test]
fn default_format_is_stereo_float_44k() {
    let f = AudioFormat::recording_default();
    assert_eq!(f.sample_rate, 44100);
    assert_eq!(f.channels, 2);
    assert_eq!(f.bits_per_sample, 32);
    assert_eq!(f.sample_kind, SampleKind::Float);
}

#[test]
fn lifecycle_collects_every_packet() {
    let mut s = session();
    assert_eq!(s.state(), &SessionState::Idle);
    s.open(Ok(())).unwrap();
    assert_eq!(s.state(), &SessionState::Initializing);
    s.start(500, Ok(())).unwrap();
    assert_eq!(s.state(), &SessionState::Streaming);
    s.drain(Ok(vec![1, 2, 3])).unwrap();
    s.drain(Ok(vec![])).unwrap();
    s.drain(Ok(vec![4])).unwrap();
    assert_eq!(s.buffered_len(), 4);
    s.halt().unwrap();
    assert_eq!(s.state(), &SessionState::Draining);
    s.drain(Ok(vec![5])).unwrap();
    assert_eq!(s.stop(), Ok(vec![1, 2, 3, 4, 5]));
    assert_eq!(s.state(), &SessionState::Stopped);
}

#[test]
fn second_stop_fails_with_invalid_state() {
    let mut s = streaming(0);
    s.drain(Ok(vec![9; 16])).unwrap();
    assert_eq!(s.stop(), Ok(vec![9; 16]));
    assert_eq!(s.stop(), Err(CaptureError::InvalidStateError));
    assert_eq!(s.state(), &SessionState::Stopped);
}

#[test]
fn stop_right_after_start_gives_empty_buffer() {
    let mut s = streaming(0);
    assert_eq!(s.stop(), Ok(vec![]));
    assert_eq!(s.stop(), Err(CaptureError::InvalidStateError));
}

#[test]
fn open_failures_are_classified() {
    let mut s = session();
    assert_eq!(
        s.open(Err(OpenFault::DeviceUnusable("no client".to_string()))),
        Err(CaptureError::DeviceInitError("no client".to_string()))
    );
    assert_eq!(s.state(), &SessionState::Failed(CaptureError::DeviceInitError("no client".to_string())));
    let mut t = session();
    assert_eq!(
        t.open(Err(OpenFault::FormatRejected("0x88890008".to_string()))),
        Err(CaptureError::FormatNegotiationError("0x88890008".to_string()))
    );
}

#[test]
fn start_failure_fails_the_session() {
    let mut s = session();
    s.open(Ok(())).unwrap();
    assert_eq!(s.start(0, Err("busy".to_string())), Err(CaptureError::StreamStartError("busy".to_string())));
    assert_eq!(s.state(), &SessionState::Failed(CaptureError::StreamStartError("busy".to_string())));
    assert_eq!(s.stop(), Err(CaptureError::InvalidStateError));
}

#[test]
fn read_failure_fails_the_session() {
    let mut s = streaming(0);
    s.drain(Ok(vec![1])).unwrap();
    assert_eq!(s.drain(Err("device lost".to_string())), Err(CaptureError::StreamReadError("device lost".to_string())));
    assert_eq!(s.drain(Ok(vec![2])), Err(CaptureError::InvalidStateError));
    assert_eq!(s.stop(), Err(CaptureError::InvalidStateError));
}

#[test]
fn operations_out_of_order_are_refused() {
    let mut s = session();
    assert_eq!(s.start(0, Ok(())), Err(CaptureError::InvalidStateError));
    assert_eq!(s.drain(Ok(vec![1])), Err(CaptureError::InvalidStateError));
    assert_eq!(s.halt(), Err(CaptureError::InvalidStateError));
    assert_eq!(s.stop(), Err(CaptureError::InvalidStateError));
    assert_eq!(s.state(), &SessionState::Idle);
    s.open(Ok(())).unwrap();
    assert_eq!(s.open(Ok(())), Err(CaptureError::InvalidStateError));
    assert_eq!(s.state(), &SessionState::Initializing);
}

#[test]
fn drain_loop_runs_for_the_duration() {
    let s = streaming(1_000);
    assert!(s.keep_draining(1_000, RECORDING_DURATION_MS));
    assert!(s.keep_draining(10_999, RECORDING_DURATION_MS));
    assert!(!s.keep_draining(11_000, RECORDING_DURATION_MS));
    assert!(s.keep_draining(500, RECORDING_DURATION_MS));
    assert!(!session().keep_draining(0, RECORDING_DURATION_MS));
}

#[test]
fn progress_in_thousandths() {
    let s = streaming(1_000);
    assert_eq!(s.progress(1_000, 10_000), 0);
    assert_eq!(s.progress(3_500, 10_000), 250);
    assert_eq!(s.progress(10_999, 10_000), 999);
    assert_eq!(s.progress(11_000, 10_000), PROGRESS_SCALE);
    assert_eq!(s.progress(50_000, 10_000), 1000);
    assert_eq!(s.progress(1_000, 0), 1000);
    assert_eq!(s.progress(u64::MAX, u64::MAX), 999);
}

#[test]
fn stopped_buffer_encodes_to_container() {
    let mut s = streaming(0);
    s.drain(Ok(vec![0, 0, 128, 63, 0, 0, 128, 191])).unwrap();
    let f = s.format();
    let data = s.stop().unwrap();
    let w = encode_wav(&data, f.channels, f.sample_rate, f.bits_per_sample).unwrap();
    assert_eq!(w.len(), 52);
    assert_eq!(&w[44..], &data[..]);
    assert_eq!(s.device().id, "dev-1");
}

#[test]
fn many_packets_are_kept_in_order_through_encoding() {
    let mut s = streaming(0);
    let mut expected: Vec<u8> = Vec::new();
    for k in 0..50u32 {
        let chunk: Vec<u8> = (0..(k % 7) * 8).map(|i| (i as u8).wrapping_mul(31).wrapping_add(k as u8)).collect();
        expected.extend_from_slice(&chunk);
        s.drain(Ok(chunk)).unwrap();
    }
    let data = s.stop().unwrap();
    assert_eq!(data, expected);
    let w = encode_wav(&data, 2, 44100, 32).unwrap();
    assert_eq!(u32::from_le_bytes([w[40], w[41], w[42], w[43]]) as usize, expected.len());
    assert_eq!(&w[44..], &expected[..]);
}
