//! What a one-shot recording reports, and the name of the file it writes.

use crate::errors::CaptureError;
use vstd::prelude::*;

verus! {

/// Lifecycle notifications of one recording, in the order
/// `Started`, `Progress`*, then `Finished` or `Error`.
#[derive(Debug, PartialEq, Eq)]
pub enum RecordingEvent {
    Started,
    /// Thousandths of the recording's duration elapsed.
    Progress(u32),
    /// The name of the file written.
    Finished(String),
    /// What went wrong.
    Error(String),
}

pub open spec fn recording_event_name(e: RecordingEvent) -> Seq<char> {
    match e {
        RecordingEvent::Started => "recording_started"@,
        RecordingEvent::Progress(_) => "recording_progress"@,
        RecordingEvent::Finished(_) => "recording_finished"@,
        RecordingEvent::Error(_) => "recording_error"@,
    }
}

impl RecordingEvent {
    /// The name the user interface listens for.
    pub fn name(&self) -> (r: String)
        ensures
            r@ == recording_event_name(*self),
    {
        match self {
            RecordingEvent::Started => String::from_str("recording_started"),
            RecordingEvent::Progress(_) => String::from_str("recording_progress"),
            RecordingEvent::Finished(_) => String::from_str("recording_finished"),
            RecordingEvent::Error(_) => String::from_str("recording_error"),
        }
    }
}

/// How far the notifications of one recording have got.
#[derive(Debug, Clone, Copy, PartialEq, Eq, Structural)]
pub enum NoticePhase {
    /// Nothing reported yet.
    Pending,
    /// `Started` was reported.
    Started,
    /// `Finished` or `Error` was reported; nothing follows.
    Ended,
}

/// `Started`, once, before anything else.
pub open spec fn started_step(p: NoticePhase) -> (NoticePhase, Option<RecordingEvent>) {
    if p is Pending {
        (NoticePhase::Started, Some(RecordingEvent::Started))
    } else {
        (p, None)
    }
}

/// `Progress`, only between `Started` and the end.
pub open spec fn progress_step(p: NoticePhase, permille: u32) -> (NoticePhase, Option<RecordingEvent>) {
    if p is Started {
        (p, Some(RecordingEvent::Progress(permille)))
    } else {
        (p, None)
    }
}

/// `Finished`, only after `Started`, and it ends the recording.
pub open spec fn finished_step(p: NoticePhase, file: String) -> (NoticePhase, Option<RecordingEvent>) {
    if p is Started {
        (NoticePhase::Ended, Some(RecordingEvent::Finished(file)))
    } else {
        (p, None)
    }
}

/// `Error`, before or after `Started` (a recording can fail before its
/// stream starts), and it ends the recording.
pub open spec fn failed_step(p: NoticePhase, msg: String) -> (NoticePhase, Option<RecordingEvent>) {
    if p is Ended {
        (p, None)
    } else {
        (NoticePhase::Ended, Some(RecordingEvent::Error(msg)))
    }
}

/// Decides which notification of one recording is due, so that they come
/// as `Started`, `Progress`*, then one of `Finished` or `Error`; a
/// recording that fails before its stream starts reports only `Error`.
/// The caller emits exactly what the methods return.
pub struct RecordingNotices {
    phase: NoticePhase,
}

impl RecordingNotices {
    pub closed spec fn view(&self) -> NoticePhase {
        self.phase
    }

    /// Nothing reported yet.
    pub fn new() -> (r: RecordingNotices)
        ensures
            r.view() == NoticePhase::Pending,
    {
        RecordingNotices { phase: NoticePhase::Pending }
    }

    /// The stream started: see `started_step`.
    pub fn started(&mut self) -> (r: Option<RecordingEvent>)
        ensures
            (final(self).view(), r) == started_step(old(self).view()),
    {
        match self.phase {
            NoticePhase::Pending => {
                self.phase = NoticePhase::Started;
                Some(RecordingEvent::Started)
            },
            _ => None,
        }
    }

    /// Thousandths of the duration elapsed: see `progress_step`.
    pub fn progress(&mut self, permille: u32) -> (r: Option<RecordingEvent>)
        ensures
            (final(self).view(), r) == progress_step(old(self).view(), permille),
    {
        match self.phase {
            NoticePhase::Started => Some(RecordingEvent::Progress(permille)),
            _ => None,
        }
    }

    /// The recording was written to `file`: see `finished_step`.
    pub fn finished(&mut self, file: String) -> (r: Option<RecordingEvent>)
        ensures
            (final(self).view(), r) == finished_step(old(self).view(), file),
    {
        match self.phase {
            NoticePhase::Started => {
                self.phase = NoticePhase::Ended;
                Some(RecordingEvent::Finished(file))
            },
            _ => None,
        }
    }

    /// The recording failed with `msg`: see `failed_step`.
    pub fn failed(&mut self, msg: String) -> (r: Option<RecordingEvent>)
        ensures
            (final(self).view(), r) == failed_step(old(self).view(), msg),
    {
        match self.phase {
            NoticePhase::Ended => None,
            _ => {
                self.phase = NoticePhase::Ended;
                Some(RecordingEvent::Error(msg))
            },
        }
    }
}

/// A recording has at most one end event: once `Finished` or `Error` was
/// reported nothing more is, and `Finished` and `Progress` never come
/// before `Started`.
pub proof fn lemma_notices_end_once(p: NoticePhase, permille: u32, file: String, msg: String)
    ensures
        finished_step(p, file).1 is Some ==> finished_step(p, file).0 is Ended,
        failed_step(p, msg).1 is Some ==> failed_step(p, msg).0 is Ended,
        p is Ended ==> {
            &&& started_step(p) == (p, None::<RecordingEvent>)
            &&& progress_step(p, permille) == (p, None::<RecordingEvent>)
            &&& finished_step(p, file) == (p, None::<RecordingEvent>)
            &&& failed_step(p, msg) == (p, None::<RecordingEvent>)
        },
        p is Pending ==> progress_step(p, permille).1 is None && finished_step(p, file).1 is None,
{
}

/// The human-readable text of a capture error.
pub open spec fn error_message(e: CaptureError) -> Seq<char> {
    match e {
        CaptureError::EnumerationError(m) => "cannot list audio devices: "@ + m@,
        CaptureError::DeviceNotFound(id) => "audio device not found: "@ + id@,
        CaptureError::DeviceInitError(m) => "cannot open audio device: "@ + m@,
        CaptureError::FormatNegotiationError(m) => "audio format rejected: "@ + m@,
        CaptureError::StreamStartError(m) => "cannot start audio stream: "@ + m@,
        CaptureError::StreamReadError(m) => "cannot read audio data: "@ + m@,
        CaptureError::InvalidStateError => "operation not valid in the session's state"@,
    }
}

impl CaptureError {
    /// The text carried by an error notification.
    pub fn message(&self) -> (r: String)
        ensures
            r@ == error_message(*self),
    {
        let (prefix, cause) = match self {
            CaptureError::EnumerationError(m) => ("cannot list audio devices: ", m),
            CaptureError::DeviceNotFound(id) => ("audio device not found: ", id),
            CaptureError::DeviceInitError(m) => ("cannot open audio device: ", m),
            CaptureError::FormatNegotiationError(m) => ("audio format rejected: ", m),
            CaptureError::StreamStartError(m) => ("cannot start audio stream: ", m),
            CaptureError::StreamReadError(m) => ("cannot read audio data: ", m),
            CaptureError::InvalidStateError => {
                return String::from_str("operation not valid in the session's state");
            },
        };
        String::from_str(prefix).concat(cause.as_str())
    }
}

/// The strftime pattern of the time stamp in a recording's file name:
/// year, month, day, `_`, hour, minute, second.
pub open spec fn stamp_pattern() -> Seq<char> {
    "%Y%m%d_%H%M%S"@
}

pub open spec fn is_digit(c: char) -> bool {
    '0' <= c && c <= '9'
}

/// What chrono writes for the stamp pattern: the year zero-padded to four
/// digits (with a sign, and possibly more digits, outside 0..=9999), then
/// two digits each for month and day, `_`, and two digits each for hour,
/// minute and second. So at least 15 characters, `_` seventh from the end,
/// every other character a digit but for the sign of such a year.
pub open spec fn is_stamp(s: Seq<char>) -> bool {
    &&& s.len() >= 15
    &&& s[s.len() - 7] == '_'
    &&& forall|i: int|
        0 <= i < s.len() && i != s.len() - 7 ==> is_digit(#[trigger] s[i]) || (i == 0 && s.len()
            > 15 && (s[0] == '+' || s[0] == '-'))
}

/// Relies on chrono's `Local::now` and `DateTime::format`: the current
/// local time written with a strftime pattern. Only the stamp pattern is
/// admitted, since chrono panics on a pattern it cannot parse. Its numeric
/// fields are zero-padded (`write_two`, and `write_year` padding to four
/// digits with a sign outside 0..=9999).
#[verifier::external_body]
fn format_local_now(pattern: &str) -> (r: String)
    requires
        pattern@ == stamp_pattern(),
    ensures
        is_stamp(r@),
{
    chrono::Local::now().format(pattern).to_string()
}

/// `record_<stamp>.wav`.
pub open spec fn file_name_for(stamp: Seq<char>) -> Seq<char> {
    "record_"@ + stamp + ".wav"@
}

/// The file name of a recording made at the time `stamp` reads.
pub fn recording_file_name(stamp: &str) -> (r: String)
    ensures
        r@ == file_name_for(stamp@),
{
    String::from_str("record_").concat(stamp).concat(".wav")
}

/// The file name of a recording made now: `record_<YYYYMMDD_HHMMSS>.wav`
/// in local time. It names a file in the working directory: the stamp holds
/// digits, `_` and at most a leading sign, never a path separator.
pub fn new_recording_file_name() -> (r: String)
    ensures
        exists|stamp: Seq<char>| r@ == file_name_for(stamp) && is_stamp(stamp),
{
    let pattern = "%Y%m%d_%H%M%S";
    let stamp = format_local_now(pattern);
    recording_file_name(stamp.as_str())
}

} // verus!
