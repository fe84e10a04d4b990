//! What the island reads of local capture: the status of the capture
//! pipeline, its latest frame and its sessions.
use vstd::prelude::*;
use crate::text::{opt_str, str_eq};

verus! {

/// A capture session.
#[derive(Debug, Clone, PartialEq, Eq, Default)]
pub struct CaptureSession {
    pub id: String,
    pub started_at: i64,
    pub stopped_at: Option<i64>,
}

/// The latest captured frame, as far as the island reads it.
#[derive(Debug, Clone, PartialEq, Eq, Default)]
pub struct CaptureFrame {
    pub id: i64,
    pub captured_at: i64,
    pub session_id: Option<String>,
    pub app_name: Option<String>,
    pub window_name: Option<String>,
    pub scope: Option<String>,
    pub text_source: Option<String>,
    pub capture_trigger: String,
    pub privacy_status: Option<String>,
}

/// The status of local capture.
#[derive(Debug, Clone, PartialEq, Eq, Default)]
pub struct CaptureStatus {
    pub running: bool,
    pub frame_count: i64,
    pub recent_app_labels: Vec<String>,
    pub signal_count: i64,
    pub event_count: i64,
    pub active_session: Option<CaptureSession>,
    pub latest_session: Option<CaptureSession>,
    pub started_at: Option<i64>,
    pub last_error: Option<String>,
    pub latest_frame: Option<CaptureFrame>,
}

/// A request to open a resume point in the app that owns it.
#[derive(Debug, Clone, PartialEq, Eq, Default)]
pub struct OpenResumePointInput {
    pub output_path: Option<String>,
    pub session_id: Option<String>,
    pub continue_decision_id: Option<String>,
    pub target_artifact_id: Option<String>,
    pub source: Option<String>,
    pub diagnostic_allowed: Option<bool>,
    pub strict_continue_target: bool,
    pub current_frame_id: Option<i64>,
    pub target_frame_id: Option<i64>,
}

/// What opening a resume point did, as far as the island reads it.
#[derive(Debug, Clone, PartialEq, Eq, Default)]
pub struct OpenResumePointResult {
    pub opened_url: Option<String>,
    pub strategy: String,
    pub warnings: Vec<String>,
}

/// The active session, or else the latest one.
pub open spec fn current_session(status: CaptureStatus) -> Option<CaptureSession> {
    match status.active_session {
        Some(s) => Some(s),
        None => status.latest_session,
    }
}

/// The id of the current session.
pub open spec fn current_session_id(status: CaptureStatus) -> Option<Seq<char>> {
    match current_session(status) {
        Some(s) => Some(s.id@),
        None => None,
    }
}

/// The session the status belongs to: the current session's id, or else the
/// latest frame's.
pub open spec fn status_session_id(status: CaptureStatus) -> Option<Seq<char>> {
    match current_session(status) {
        Some(s) => Some(s.id@),
        None => match status.latest_frame {
            Some(f) => opt_str(f.session_id),
            None => None,
        },
    }
}

/// A count clamped at zero.
pub open spec fn count_of(x: i64) -> u64 {
    if x < 0 {
        0
    } else {
        x as u64
    }
}

/// When the latest frame was captured.
pub open spec fn newest_evidence(status: CaptureStatus) -> Option<i64> {
    match status.latest_frame {
        Some(f) => Some(f.captured_at),
        None => None,
    }
}

/// A count clamped at zero.
pub fn nonnegative(x: i64) -> (r: u64)
    ensures
        r == count_of(x),
{
    if x < 0 {
        0
    } else {
        x as u64
    }
}

/// A copy of an optional string.
pub fn copy_opt_str(o: &Option<String>) -> (r: Option<String>)
    ensures
        opt_str(r) == opt_str(*o),
{
    match o {
        Some(s) => Some(s.clone()),
        None => None,
    }
}

/// Two optional strings are equal.
pub fn opt_str_eq(a: &Option<String>, b: &Option<String>) -> (r: bool)
    ensures
        r == (opt_str(*a) == opt_str(*b)),
{
    match (a, b) {
        (Some(x), Some(y)) => str_eq(x.as_str(), y.as_str()),
        (None, None) => true,
        _ => false,
    }
}

impl CaptureStatus {
    /// The active session, or else the latest one.
    pub fn session(&self) -> (r: Option<&CaptureSession>)
        ensures
            match r {
                Some(s) => current_session(*self) == Some(*s),
                None => current_session(*self) is None,
            },
    {
        match &self.active_session {
            Some(s) => Some(s),
            None => match &self.latest_session {
                Some(s) => Some(s),
                None => None,
            },
        }
    }

    /// The id of the current session.
    pub fn session_id(&self) -> (r: Option<String>)
        ensures
            opt_str(r) == current_session_id(*self),
    {
        match self.session() {
            Some(s) => Some(s.id.clone()),
            None => None,
        }
    }

    /// The session the status belongs to: the current session's id, or else
    /// the latest frame's.
    pub fn evidence_session_id(&self) -> (r: Option<String>)
        ensures
            opt_str(r) == status_session_id(*self),
    {
        match self.session() {
            Some(s) => Some(s.id.clone()),
            None => match &self.latest_frame {
                Some(f) => copy_opt_str(&f.session_id),
                None => None,
            },
        }
    }

    /// When the latest frame was captured.
    pub fn newest_evidence_ms(&self) -> (r: Option<i64>)
        ensures
            r == newest_evidence(*self),
    {
        match &self.latest_frame {
            Some(f) => Some(f.captured_at),
            None => None,
        }
    }
}

} // verus!
