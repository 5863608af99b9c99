//! Back-to-back recordings until cancelled.
//!
//! The controller is the state shared between the thread that asks for
//! start and stop and the worker thread that runs the recordings; the
//! caller keeps it behind a lock. The worker asks `next_iteration` before
//! each recording and reports each one with `iteration_done`, both with the
//! handle of its session; cancellation is seen only between recordings.
//! A session ends with exactly one of `Stopped` or `Error`.

use vstd::prelude::*;

verus! {

/// `Idle -> Running -> Stopping -> Idle`.
#[derive(Debug, Clone, Copy, PartialEq, Eq, Structural)]
pub enum ControllerState {
    Idle,
    Running,
    Stopping,
}

/// Names one continuous session; `stop` takes it back.
#[derive(Debug, Clone, Copy, PartialEq, Eq, Structural)]
pub struct ContinuousRecordingHandle {
    session: u64,
}

impl ContinuousRecordingHandle {
    pub closed spec fn spec_session(&self) -> u64 {
        self.session
    }

    /// The number of the session this handle names.
    pub fn session(&self) -> (r: u64)
        ensures
            r == self.spec_session(),
    {
        self.session
    }
}

/// Why a start or stop request was refused.
#[derive(Debug, Clone, Copy, PartialEq, Eq, Structural)]
pub enum ControlError {
    /// A continuous session is already active.
    AlreadyRunning,
    /// No continuous session named by the handle is active.
    NotRunning,
}

/// What the worker reports to the user interface.
#[derive(Debug, PartialEq, Eq)]
pub enum ContinuousEvent {
    /// The worker began.
    Started,
    /// Recordings completed so far.
    Progress(u64),
    /// A recording failed; the loop ends.
    Error(String),
    /// The loop ended after this many completed recordings.
    Stopped(u64),
}

pub open spec fn continuous_event_name(e: ContinuousEvent) -> Seq<char> {
    match e {
        ContinuousEvent::Started => "continuous_recording_started"@,
        ContinuousEvent::Progress(_) => "continuous_recording_progress"@,
        ContinuousEvent::Error(_) => "continuous_recording_error"@,
        ContinuousEvent::Stopped(_) => "continuous_recording_stopped"@,
    }
}

impl ContinuousEvent {
    /// The name the user interface listens for.
    pub fn name(&self) -> (r: String)
        ensures
            r@ == continuous_event_name(*self),
    {
        match self {
            ContinuousEvent::Started => String::from_str("continuous_recording_started"),
            ContinuousEvent::Progress(_) => String::from_str("continuous_recording_progress"),
            ContinuousEvent::Error(_) => String::from_str("continuous_recording_error"),
            ContinuousEvent::Stopped(_) => String::from_str("continuous_recording_stopped"),
        }
    }
}

/// The abstract state of a controller.
#[derive(Debug, Clone, Copy, PartialEq, Eq, Structural)]
pub struct ControllerModel {
    pub state: ControllerState,
    pub session: u64,
    pub count: u64,
}

pub open spec fn next_session(s: u64) -> u64 {
    if s < u64::MAX {
        (s + 1) as u64
    } else {
        0
    }
}

pub open spec fn next_count(c: u64) -> u64 {
    if c < u64::MAX {
        (c + 1) as u64
    } else {
        c
    }
}

pub open spec fn is_active(m: ControllerModel) -> bool {
    m.state is Running || m.state is Stopping
}

/// From `Idle`, a new session with a fresh number and no recordings.
pub open spec fn start_step(m: ControllerModel) -> (ControllerModel, Result<u64, ControlError>) {
    if m.state is Idle {
        let s = next_session(m.session);
        (ControllerModel { state: ControllerState::Running, session: s, count: 0 }, Ok(s))
    } else {
        (m, Err(ControlError::AlreadyRunning))
    }
}

/// Raises the cancellation flag of the active session named by `session`.
pub open spec fn stop_step(m: ControllerModel, session: u64) -> (ControllerModel, Result<(), ControlError>) {
    if is_active(m) && m.session == session {
        (ControllerModel { state: ControllerState::Stopping, ..m }, Ok(()))
    } else {
        (m, Err(ControlError::NotRunning))
    }
}

/// Before each recording of the worker of `session`: go on while running;
/// once cancelled, end the session with `Stopped(count)`. A worker whose
/// session is over (ended by an error, or replaced by a newer one) stops
/// without a word.
pub open spec fn next_iteration_step(m: ControllerModel, session: u64) -> (ControllerModel, bool, Option<ContinuousEvent>) {
    if m.session != session {
        (m, false, None)
    } else {
        match m.state {
            ControllerState::Running => (m, true, None),
            ControllerState::Stopping => (
                ControllerModel { state: ControllerState::Idle, ..m },
                false,
                Some(ContinuousEvent::Stopped(m.count)),
            ),
            ControllerState::Idle => (m, false, None),
        }
    }
}

/// After each recording of the worker of `session`: count a success and
/// report the new count; a failure ends the session at once with `Error`,
/// its only end event, even when a stop was already asked for. Reports of
/// a worker whose session is over are ignored.
pub open spec fn iteration_done_step(m: ControllerModel, session: u64, outcome: Result<(), String>) -> (ControllerModel, Option<ContinuousEvent>) {
    if is_active(m) && m.session == session {
        match outcome {
            Ok(()) => {
                let c = next_count(m.count);
                (ControllerModel { count: c, ..m }, Some(ContinuousEvent::Progress(c)))
            },
            Err(msg) => (
                ControllerModel { state: ControllerState::Idle, ..m },
                Some(ContinuousEvent::Error(msg)),
            ),
        }
    } else {
        (m, None)
    }
}

/// At most one continuous session at a time.
pub struct ContinuousRecordingController {
    state: ControllerState,
    session: u64,
    count: u64,
}

impl ContinuousRecordingController {
    pub closed spec fn view(&self) -> ControllerModel {
        ControllerModel { state: self.state, session: self.session, count: self.count }
    }

    /// An idle controller.
    pub fn new() -> (r: ContinuousRecordingController)
        ensures
            r.view() == (ControllerModel { state: ControllerState::Idle, session: 0, count: 0 }),
    {
        ContinuousRecordingController { state: ControllerState::Idle, session: 0, count: 0 }
    }

    /// The lifecycle state.
    pub fn state(&self) -> (r: ControllerState)
        ensures
            r == self.view().state,
    {
        self.state
    }

    /// Recordings completed in the current (or last) session.
    pub fn count(&self) -> (r: u64)
        ensures
            r == self.view().count,
    {
        self.count
    }

    /// Begins a session: see `start_step`. The worker then reports
    /// `ContinuousEvent::Started` and enters its loop.
    pub fn start(&mut self) -> (r: Result<ContinuousRecordingHandle, ControlError>)
        ensures
            final(self).view() == start_step(old(self).view()).0,
            match r {
                Ok(h) => start_step(old(self).view()).1 == Ok::<u64, ControlError>(h.spec_session()),
                Err(e) => start_step(old(self).view()).1 == Err::<u64, ControlError>(e),
            },
    {
        match self.state {
            ControllerState::Idle => {},
            _ => return Err(ControlError::AlreadyRunning),
        }
        let s = if self.session < u64::MAX {
            self.session + 1
        } else {
            0
        };
        self.state = ControllerState::Running;
        self.session = s;
        self.count = 0;
        Ok(ContinuousRecordingHandle { session: s })
    }

    /// Asks the session of `handle` to end: see `stop_step`. Does not wait;
    /// the recording under way finishes first.
    pub fn stop(&mut self, handle: &ContinuousRecordingHandle) -> (r: Result<(), ControlError>)
        ensures
            (final(self).view(), r) == stop_step(old(self).view(), handle.spec_session()),
    {
        match self.state {
            ControllerState::Idle => return Err(ControlError::NotRunning),
            _ => {},
        }
        if self.session != handle.session {
            return Err(ControlError::NotRunning);
        }
        self.state = ControllerState::Stopping;
        Ok(())
    }

    /// The check of the worker of `handle` before each recording: see
    /// `next_iteration_step`. Returns whether to record again and what to
    /// report.
    pub fn next_iteration(&mut self, handle: &ContinuousRecordingHandle) -> (r: (bool, Option<ContinuousEvent>))
        ensures
            (final(self).view(), r.0, r.1) == next_iteration_step(old(self).view(), handle.spec_session()),
    {
        if self.session != handle.session {
            return (false, None);
        }
        match self.state {
            ControllerState::Running => (true, None),
            ControllerState::Stopping => {
                self.state = ControllerState::Idle;
                (false, Some(ContinuousEvent::Stopped(self.count)))
            },
            ControllerState::Idle => (false, None),
        }
    }

    /// The report of the worker of `handle` after each recording: see
    /// `iteration_done_step`.
    pub fn iteration_done(&mut self, handle: &ContinuousRecordingHandle, outcome: Result<(), String>) -> (r: Option<ContinuousEvent>)
        ensures
            (final(self).view(), r) == iteration_done_step(old(self).view(), handle.spec_session(), outcome),
    {
        if self.session != handle.session {
            return None;
        }
        match self.state {
            ControllerState::Idle => return None,
            _ => {},
        }
        match outcome {
            Ok(()) => {
                if self.count < u64::MAX {
                    self.count = self.count + 1;
                }
                Some(ContinuousEvent::Progress(self.count))
            },
            Err(msg) => {
                self.state = ControllerState::Idle;
                Some(ContinuousEvent::Error(msg))
            },
        }
    }
}

/// Stopping a running session while a recording is under way, which then
/// completes: it is counted and reported, and the worker's next check
/// returns the controller to `Idle` with exactly one `Stopped`, carrying
/// every recording completed; nothing is reported after it.
pub proof fn lemma_stop_during_recording(m: ControllerModel)
    requires
        m.state is Running,
    ensures
        ({
            let (s1, r1) = stop_step(m, m.session);
            let (s2, e2) = iteration_done_step(s1, m.session, Ok(()));
            let (s3, go3, e3) = next_iteration_step(s2, m.session);
            &&& r1 == Ok::<(), ControlError>(())
            &&& e2 == Some(ContinuousEvent::Progress(next_count(m.count)))
            &&& s3.state is Idle
            &&& !go3
            &&& e3 == Some(ContinuousEvent::Stopped(next_count(m.count)))
            &&& quiet_after(s3, m.session)
        }),
{
}

/// A failed recording ends its session at once, stopped or not: the
/// controller is `Idle`, `Error` is the only end event, and the worker's
/// next check ends the loop without reporting anything.
pub proof fn lemma_failure_ends_with_error(m: ControllerModel, msg: String)
    requires
        is_active(m),
    ensures
        ({
            let (s1, e1) = iteration_done_step(m, m.session, Err(msg));
            let (s2, go2, e2) = next_iteration_step(s1, m.session);
            &&& s1.state is Idle
            &&& e1 == Some(ContinuousEvent::Error(msg))
            &&& !go2
            &&& e2 is None
            &&& s2 == s1
            &&& quiet_after(s1, m.session)
        }),
{
}

/// A worker whose session is not the controller's current one neither
/// records again nor reports anything, and changes nothing.
pub proof fn lemma_stale_worker_is_quiet(m: ControllerModel, session: u64)
    requires
        session != m.session,
    ensures
        quiet_after(m, session),
{
}

/// Stopping a running session between two recordings: the worker's next
/// check returns the controller to `Idle` with exactly one `Stopped`,
/// carrying the recordings completed, and nothing is reported after it.
pub proof fn lemma_stop_between_recordings(m: ControllerModel)
    requires
        m.state is Running,
    ensures
        ({
            let (s1, r1) = stop_step(m, m.session);
            let (s2, go2, e2) = next_iteration_step(s1, m.session);
            &&& r1 == Ok::<(), ControlError>(())
            &&& s2.state is Idle
            &&& !go2
            &&& e2 == Some(ContinuousEvent::Stopped(m.count))
            &&& quiet_after(s2, m.session)
        }),
{
}

/// The worker of `session` gets nothing more from the controller: it does
/// not record again, nothing is reported, and nothing changes, whatever it
/// tells the controller.
pub open spec fn quiet_after(m: ControllerModel, session: u64) -> bool {
    &&& next_iteration_step(m, session) == (m, false, None::<ContinuousEvent>)
    &&& forall|o: Result<(), String>| #[trigger] iteration_done_step(m, session, o) == (m, None::<ContinuousEvent>)
}

} // verus!
