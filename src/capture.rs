//! One capture lifecycle: open, start, drain, stop.
//!
//! The session decides; the caller performs the hardware step that each
//! method names and hands its outcome in. A session is owned by the thread
//! that drives it.

use crate::device::AudioDevice;
use crate::errors::CaptureError;
use crate::wav::{
    container_bytes, data_fits, format_fits, lemma_header_fields, read_le32, WAV_HEADER_LEN,
};
use vstd::prelude::*;

verus! {

/// Length of one recording, in milliseconds.
pub const RECORDING_DURATION_MS: u64 = 10000;

/// Longest wait for the buffer-ready signal before the clock is looked at
/// again, in milliseconds.
pub const POLL_INTERVAL_MS: u32 = 100;

/// Progress is reported in thousandths of the recording's duration.
pub const PROGRESS_SCALE: u32 = 1000;

/// How samples are encoded.
#[derive(Debug, Clone, Copy, PartialEq, Eq, Structural)]
pub enum SampleKind {
    Float,
    Int,
}

/// The sample format of a session, fixed before the stream starts.
#[derive(Debug, Clone, Copy, PartialEq, Eq, Structural)]
pub struct AudioFormat {
    pub sample_rate: u32,
    pub channels: u16,
    pub bits_per_sample: u16,
    pub sample_kind: SampleKind,
}

impl AudioFormat {
    /// Stereo, 32-bit float samples at 44100 Hz: the format recordings use.
    pub fn recording_default() -> (r: AudioFormat)
        ensures
            r == (AudioFormat {
                sample_rate: 44100,
                channels: 2,
                bits_per_sample: 32,
                sample_kind: SampleKind::Float,
            }),
    {
        AudioFormat {
            sample_rate: 44100,
            channels: 2,
            bits_per_sample: 32,
            sample_kind: SampleKind::Float,
        }
    }
}

/// Where a session is in its lifecycle. `Stopped` and `Failed` are final.
#[derive(Debug, PartialEq, Eq)]
pub enum SessionState {
    Idle,
    Initializing,
    Streaming,
    Draining,
    Stopped,
    Failed(CaptureError),
}

impl Clone for SessionState {
    fn clone(&self) -> (r: Self)
        ensures
            r == *self,
    {
        match self {
            SessionState::Idle => SessionState::Idle,
            SessionState::Initializing => SessionState::Initializing,
            SessionState::Streaming => SessionState::Streaming,
            SessionState::Draining => SessionState::Draining,
            SessionState::Stopped => SessionState::Stopped,
            SessionState::Failed(e) => SessionState::Failed(e.clone()),
        }
    }
}

/// Why opening the endpoint for capture failed.
#[derive(Debug, PartialEq, Eq)]
pub enum OpenFault {
    /// The endpoint cannot be used (no client, no event handle, ...).
    DeviceUnusable(String),
    /// The endpoint refused the sample format in shared mode.
    FormatRejected(String),
}

/// The abstract state of a session: its lifecycle state, the time the
/// stream started, and the bytes captured so far.
pub struct CaptureModel {
    pub state: SessionState,
    pub started_at: u64,
    pub buffer: Seq<u8>,
}

pub open spec fn fail_with(m: CaptureModel, e: CaptureError) -> (CaptureModel, Result<(), CaptureError>) {
    (CaptureModel { state: SessionState::Failed(e), started_at: m.started_at, buffer: m.buffer }, Err(e))
}

pub open spec fn refuse(m: CaptureModel) -> (CaptureModel, Result<(), CaptureError>) {
    (m, Err(CaptureError::InvalidStateError))
}

pub open spec fn with_state(m: CaptureModel, s: SessionState) -> CaptureModel {
    CaptureModel { state: s, started_at: m.started_at, buffer: m.buffer }
}

/// `Idle -> Initializing` once the endpoint is open in the format.
pub open spec fn open_step(m: CaptureModel, outcome: Result<(), OpenFault>) -> (CaptureModel, Result<(), CaptureError>) {
    if m.state is Idle {
        match outcome {
            Ok(()) => (with_state(m, SessionState::Initializing), Ok(())),
            Err(OpenFault::DeviceUnusable(msg)) => fail_with(m, CaptureError::DeviceInitError(msg)),
            Err(OpenFault::FormatRejected(msg)) => fail_with(
                m,
                CaptureError::FormatNegotiationError(msg),
            ),
        }
    } else {
        refuse(m)
    }
}

/// `Initializing -> Streaming` once the hardware stream runs; the clock
/// starts at `now`.
pub open spec fn start_step(m: CaptureModel, now: u64, outcome: Result<(), String>) -> (CaptureModel, Result<(), CaptureError>) {
    if m.state is Initializing {
        match outcome {
            Ok(()) => (
                CaptureModel { state: SessionState::Streaming, started_at: now, buffer: m.buffer },
                Ok(()),
            ),
            Err(msg) => fail_with(m, CaptureError::StreamStartError(msg)),
        }
    } else {
        refuse(m)
    }
}

/// While streaming or draining, a packet read from the device is appended
/// to the buffer; a failed read ends the session.
pub open spec fn drain_step(m: CaptureModel, packet: Result<Seq<u8>, String>) -> (CaptureModel, Result<(), CaptureError>) {
    if m.state is Streaming || m.state is Draining {
        match packet {
            Ok(bytes) => (
                CaptureModel { state: m.state, started_at: m.started_at, buffer: m.buffer + bytes },
                Ok(()),
            ),
            Err(msg) => fail_with(m, CaptureError::StreamReadError(msg)),
        }
    } else {
        refuse(m)
    }
}

/// `Streaming -> Draining` when the hardware stream is halted; packets
/// still pending may be drained afterwards.
pub open spec fn halt_step(m: CaptureModel) -> (CaptureModel, Result<(), CaptureError>) {
    if m.state is Streaming {
        (with_state(m, SessionState::Draining), Ok(()))
    } else {
        refuse(m)
    }
}

/// `Streaming | Draining -> Stopped`, handing out the captured bytes. Any
/// other state, `Stopped` included, refuses.
pub open spec fn stop_step(m: CaptureModel) -> (CaptureModel, Result<Seq<u8>, CaptureError>) {
    if m.state is Streaming || m.state is Draining {
        (
            CaptureModel { state: SessionState::Stopped, started_at: m.started_at, buffer: Seq::empty() },
            Ok(m.buffer),
        )
    } else {
        (m, Err(CaptureError::InvalidStateError))
    }
}

/// Milliseconds from `started_at` to `now`; a clock that reads earlier than
/// the start counts as no time elapsed.
pub open spec fn elapsed(started_at: u64, now: u64) -> int {
    if now >= started_at {
        now - started_at
    } else {
        0
    }
}

/// Thousandths of `duration` that have elapsed, at most `PROGRESS_SCALE`.
pub open spec fn progress_of(elapsed_ms: int, duration: u64) -> int {
    if duration == 0 || elapsed_ms >= duration {
        PROGRESS_SCALE as int
    } else {
        elapsed_ms * PROGRESS_SCALE / (duration as int)
    }
}

pub open spec fn packet_view(p: Result<Vec<u8>, String>) -> Result<Seq<u8>, String> {
    match p {
        Ok(v) => Ok(v@),
        Err(m) => Err(m),
    }
}

pub open spec fn bytes_view(r: Result<Vec<u8>, CaptureError>) -> Result<Seq<u8>, CaptureError> {
    match r {
        Ok(v) => Ok(v@),
        Err(e) => Err(e),
    }
}

/// A capture session for one device in one format.
pub struct CaptureSession {
    device: AudioDevice,
    format: AudioFormat,
    state: SessionState,
    started_at_ms: u64,
    buffer: Vec<u8>,
}

impl CaptureSession {
    pub closed spec fn view(&self) -> CaptureModel {
        CaptureModel { state: self.state, started_at: self.started_at_ms, buffer: self.buffer@ }
    }

    pub closed spec fn spec_device(&self) -> AudioDevice {
        self.device
    }

    pub closed spec fn spec_format(&self) -> AudioFormat {
        self.format
    }

    /// An idle session with an empty buffer.
    pub fn new(device: AudioDevice, format: AudioFormat) -> (r: CaptureSession)
        ensures
            r.view().state == SessionState::Idle,
            r.view().buffer == Seq::<u8>::empty(),
            r.spec_device() == device,
            r.spec_format() == format,
    {
        CaptureSession {
            device,
            format,
            state: SessionState::Idle,
            started_at_ms: 0,
            buffer: Vec::new(),
        }
    }

    /// The device the session captures from.
    pub fn device(&self) -> (r: &AudioDevice)
        ensures
            *r == self.spec_device(),
    {
        &self.device
    }

    /// The session's sample format.
    pub fn format(&self) -> (r: AudioFormat)
        ensures
            r == self.spec_format(),
    {
        self.format
    }

    /// The lifecycle state.
    pub fn state(&self) -> (r: &SessionState)
        ensures
            *r == self.view().state,
    {
        &self.state
    }

    /// Bytes captured so far.
    pub fn buffered_len(&self) -> (r: usize)
        ensures
            r == self.view().buffer.len(),
    {
        self.buffer.len()
    }

    /// Records the outcome of opening the endpoint in the session's format
    /// (shared mode, event-driven buffering): see `open_step`.
    pub fn open(&mut self, outcome: Result<(), OpenFault>) -> (r: Result<(), CaptureError>)
        ensures
            (final(self).view(), r) == open_step(old(self).view(), outcome),
            final(self).spec_device() == old(self).spec_device(),
            final(self).spec_format() == old(self).spec_format(),
    {
        match &self.state {
            SessionState::Idle => {},
            _ => return Err(CaptureError::InvalidStateError),
        }
        match outcome {
            Ok(()) => {
                self.state = SessionState::Initializing;
                Ok(())
            },
            Err(OpenFault::DeviceUnusable(msg)) => self.fail(CaptureError::DeviceInitError(msg)),
            Err(OpenFault::FormatRejected(msg)) => self.fail(
                CaptureError::FormatNegotiationError(msg),
            ),
        }
    }

    /// Records the outcome of starting the hardware stream at `now_ms`:
    /// see `start_step`.
    pub fn start(&mut self, now_ms: u64, outcome: Result<(), String>) -> (r: Result<(), CaptureError>)
        ensures
            (final(self).view(), r) == start_step(old(self).view(), now_ms, outcome),
            final(self).spec_device() == old(self).spec_device(),
            final(self).spec_format() == old(self).spec_format(),
    {
        match &self.state {
            SessionState::Initializing => {},
            _ => return Err(CaptureError::InvalidStateError),
        }
        match outcome {
            Ok(()) => {
                self.state = SessionState::Streaming;
                self.started_at_ms = now_ms;
                Ok(())
            },
            Err(msg) => self.fail(CaptureError::StreamStartError(msg)),
        }
    }

    /// Records the outcome of one read from the device: see `drain_step`.
    /// On an error the caller also stops the hardware stream, best effort.
    pub fn drain(&mut self, packet: Result<Vec<u8>, String>) -> (r: Result<(), CaptureError>)
        ensures
            (final(self).view(), r) == drain_step(old(self).view(), packet_view(packet)),
            final(self).spec_device() == old(self).spec_device(),
            final(self).spec_format() == old(self).spec_format(),
    {
        match &self.state {
            SessionState::Streaming => {},
            SessionState::Draining => {},
            _ => return Err(CaptureError::InvalidStateError),
        }
        match packet {
            Ok(bytes) => {
                let mut bytes = bytes;
                self.buffer.append(&mut bytes);
                Ok(())
            },
            Err(msg) => self.fail(CaptureError::StreamReadError(msg)),
        }
    }

    /// Marks the hardware stream as halted: see `halt_step`.
    pub fn halt(&mut self) -> (r: Result<(), CaptureError>)
        ensures
            (final(self).view(), r) == halt_step(old(self).view()),
            final(self).spec_device() == old(self).spec_device(),
            final(self).spec_format() == old(self).spec_format(),
    {
        match &self.state {
            SessionState::Streaming => {
                self.state = SessionState::Draining;
                Ok(())
            },
            _ => Err(CaptureError::InvalidStateError),
        }
    }

    /// Ends the session and hands out every byte captured: see `stop_step`.
    /// A second call fails with `InvalidStateError`.
    pub fn stop(&mut self) -> (r: Result<Vec<u8>, CaptureError>)
        ensures
            final(self).view() == stop_step(old(self).view()).0,
            bytes_view(r) == stop_step(old(self).view()).1,
            final(self).spec_device() == old(self).spec_device(),
            final(self).spec_format() == old(self).spec_format(),
    {
        match &self.state {
            SessionState::Streaming => {},
            SessionState::Draining => {},
            _ => return Err(CaptureError::InvalidStateError),
        }
        self.state = SessionState::Stopped;
        let mut out: Vec<u8> = Vec::new();
        out.append(&mut self.buffer);
        Ok(out)
    }

    /// Whether the drain loop goes on at `now_ms`: the stream is running and
    /// less than `duration_ms` has elapsed since it started.
    pub fn keep_draining(&self, now_ms: u64, duration_ms: u64) -> (r: bool)
        ensures
            r == (self.view().state is Streaming && elapsed(self.view().started_at, now_ms)
                < duration_ms),
    {
        match &self.state {
            SessionState::Streaming => {},
            _ => return false,
        }
        let e = if now_ms >= self.started_at_ms {
            now_ms - self.started_at_ms
        } else {
            0
        };
        e < duration_ms
    }

    /// Thousandths of `duration_ms` elapsed at `now_ms`, capped at
    /// `PROGRESS_SCALE`.
    pub fn progress(&self, now_ms: u64, duration_ms: u64) -> (r: u32)
        ensures
            r == progress_of(elapsed(self.view().started_at, now_ms), duration_ms),
            r <= PROGRESS_SCALE,
    {
        let e = if now_ms >= self.started_at_ms {
            now_ms - self.started_at_ms
        } else {
            0
        };
        if duration_ms == 0 || e >= duration_ms {
            return PROGRESS_SCALE;
        }
        let scaled: u128 = e as u128 * PROGRESS_SCALE as u128;
        let q: u128 = scaled / duration_ms as u128;
        assert(q < PROGRESS_SCALE) by (nonlinear_arith)
            requires
                scaled == e * PROGRESS_SCALE,
                q == scaled / (duration_ms as u128),
                e < duration_ms,
                PROGRESS_SCALE == 1000,
        ;
        q as u32
    }

    fn fail(&mut self, e: CaptureError) -> (r: Result<(), CaptureError>)
        ensures
            (final(self).view(), r) == fail_with(old(self).view(), e),
            final(self).spec_device() == old(self).spec_device(),
            final(self).spec_format() == old(self).spec_format(),
    {
        let copy = e.clone();
        self.state = SessionState::Failed(e);
        Err(copy)
    }
}

/// A session whose stream runs hands out its whole buffer on the first
/// `stop`; a second `stop` fails with `InvalidStateError` and changes
/// nothing.
pub proof fn lemma_stop_hands_out_once(m: CaptureModel)
    requires
        m.state is Streaming || m.state is Draining,
    ensures
        stop_step(m).1 == Ok::<Seq<u8>, CaptureError>(m.buffer),
        stop_step(stop_step(m).0).1 == Err::<Seq<u8>, CaptureError>(
            CaptureError::InvalidStateError,
        ),
        stop_step(stop_step(m).0).0 == stop_step(m).0,
{
}

/// After a successful `start`, and any number of successful reads, the
/// first `stop` returns every byte read and a second one fails with
/// `InvalidStateError`.
pub proof fn lemma_start_then_stop_once(m: CaptureModel, now: u64, packets: Seq<Seq<u8>>)
    requires
        m.state is Initializing,
    ensures
        start_step(m, now, Ok(())).1 == Ok::<(), CaptureError>(()),
        ({
            let s = drain_all(start_step(m, now, Ok(())).0, packets);
            &&& stop_step(s).1 == Ok::<Seq<u8>, CaptureError>(m.buffer + packets.flatten())
            &&& stop_step(stop_step(s).0).1 == Err::<Seq<u8>, CaptureError>(
                CaptureError::InvalidStateError,
            )
        }),
{
    let s0 = start_step(m, now, Ok(())).0;
    lemma_drain_all(s0, packets);
    lemma_stop_hands_out_once(drain_all(s0, packets));
}

/// The session after each of `packets` was read successfully, in order.
pub open spec fn drain_all(m: CaptureModel, packets: Seq<Seq<u8>>) -> CaptureModel
    decreases packets.len(),
{
    if packets.len() == 0 {
        m
    } else {
        drain_all(drain_step(m, Ok(packets[0])).0, packets.drop_first())
    }
}

/// Successful reads keep a running stream running and append their bytes.
pub proof fn lemma_drain_all(m: CaptureModel, packets: Seq<Seq<u8>>)
    requires
        m.state is Streaming || m.state is Draining,
    ensures
        drain_all(m, packets).state == m.state,
        drain_all(m, packets).buffer == m.buffer + packets.flatten(),
    decreases packets.len(),
{
    if packets.len() > 0 {
        let m1 = drain_step(m, Ok(packets[0])).0;
        lemma_drain_all(m1, packets.drop_first());
        assert(packets.flatten() == packets[0] + packets.drop_first().flatten());
        assert(m.buffer + packets.flatten() =~= m1.buffer + packets.drop_first().flatten());
    } else {
        assert(packets.flatten() =~= Seq::<u8>::empty());
        assert(m.buffer + packets.flatten() =~= m.buffer);
    }
}

/// A whole recording: after a successful start, reads of `packets` in any
/// number, and the stop, the buffer handed out is every packet's bytes in
/// order, none lost, repeated or moved; the container encoded from it has
/// a data length field equal to that length and carries those bytes after
/// its header.
pub proof fn lemma_recording_container(
    m: CaptureModel,
    now: u64,
    packets: Seq<Seq<u8>>,
    channels: u16,
    sample_rate: u32,
    bits_per_sample: u16,
)
    requires
        m.state is Initializing,
        m.buffer == Seq::<u8>::empty(),
        format_fits(channels, sample_rate, bits_per_sample),
        data_fits(packets.flatten().len() as int),
    ensures
        ({
            let s = drain_all(start_step(m, now, Ok(())).0, packets);
            let data = packets.flatten();
            let w = container_bytes(data, channels, sample_rate, bits_per_sample);
            &&& stop_step(s).1 == Ok::<Seq<u8>, CaptureError>(data)
            &&& read_le32(w, 40) == data.len()
            &&& w.subrange(WAV_HEADER_LEN as int, w.len() as int) == data
        }),
{
    let data = packets.flatten();
    lemma_start_then_stop_once(m, now, packets);
    assert(m.buffer + data =~= data);
    lemma_header_fields(data.len() as u32, channels, sample_rate, bits_per_sample);
    let h = crate::wav::header_bytes(data.len() as u32, channels, sample_rate, bits_per_sample);
    let w = container_bytes(data, channels, sample_rate, bits_per_sample);
    assert(w.subrange(0, 44) =~= h);
    assert(w.subrange(44, w.len() as int) =~= data);
}
} // verus!
