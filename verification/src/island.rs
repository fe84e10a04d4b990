//! The session island's snapshot: what the native panel shows of local
//! memory and of the latest Continue decision.
//!
//! The snapshot is computed here from plain values: the capture status, the
//! time, and the Continue state the island remembers. Whoever drives the
//! panel keeps that memory and sends the snapshot.
use vstd::prelude::*;
use crate::capture::{
    copy_opt_str, count_of, current_session_id, newest_evidence, nonnegative, status_session_id,
    CaptureStatus, opt_str_eq,
};
use crate::contract::{
    anchor_count, island_state_from_continue_decision, island_state_of, lemma_offers_open_view,
    opens_target, opt_state,
    refresh_action_list, refresh_actions, IslandActionKind, IslandContinueState,
    IslandDisplayState, IslandFreshness, IslandStateContext, StateView,
};
use crate::decision::{ContinueDecisionResult, LedgerValue};
use crate::request::{ContinueAuditMode, ContinueDecisionRequest};
use crate::copy::{clean_line, clean_one_line};
use crate::history::{
    ContinueHistoryAnswerRowV1, ContinueHistoryCursorV1, ContinueHistoryOutputV1,
    ContinueHistorySummaryV1,
};
use crate::text::{copy_str, is_blank, opt_str, str_eq, str_is_blank, str_trim, strs, trim};
use crate::action::{trimmed_id, trimmed_nonempty};
use crate::turn::{parse_i64, parsed_i64};
use crate::contract::copy_strings;
use crate::contract::error_continue_state;

verus! {

/// Schema of a page of Continue history.
pub const HISTORY_PAGE_SCHEMA: &'static str = "smalltalk.island_continue_history_page.v1";

/// Schema of one saved Continue output shown by the island.
pub const HISTORY_OUTPUT_SCHEMA: &'static str = "smalltalk.island_continue_history_output.v1";

/// The panel's presentation state.
#[derive(Debug, Clone, Copy, PartialEq, Eq)]
pub enum SessionIslandState {
    Hidden,
    Ready,
    Starting,
    RecordingCompact,
    RecordingExpanded,
    Processing,
    StoppedToast,
    TrailReconstructing,
    ResumeReady,
    Error,
}

/// The panel's expanded view closes when it enters a state that has none:
/// hidden, starting, processing, reconstructing, or the stopped toast.
pub open spec fn collapses_panel(state: SessionIslandState) -> bool {
    ||| state == SessionIslandState::Hidden
    ||| state == SessionIslandState::Starting
    ||| state == SessionIslandState::Processing
    ||| state == SessionIslandState::TrailReconstructing
    ||| state == SessionIslandState::StoppedToast
}

/// Whether showing a snapshot in `state` closes the panel's expanded view.
pub fn collapses_expanded_view(state: SessionIslandState) -> (b: bool)
    ensures
        b == collapses_panel(state),
{
    match state {
        SessionIslandState::Hidden | SessionIslandState::Starting | SessionIslandState::Processing
        | SessionIslandState::TrailReconstructing | SessionIslandState::StoppedToast => true,
        _ => false,
    }
}

/// An image that shows where the answer was seen.
#[derive(Debug, Clone, PartialEq, Eq)]
pub struct IslandVisualCue {
    pub image_path: String,
}

/// The session and frame whose image may illustrate the answer a snapshot
/// shows: the answer's session and the frame of its evidence preview.
pub open spec fn cue_frame_of(s: SessionIslandSnapshot) -> Option<(Seq<char>, i64)> {
    match s.island_continue_state {
        Some(state) => match state.semantic_answer {
            Some(answer) => match (answer.atomic_identity.session_id, answer.evidence_preview) {
                (Some(session), Some(preview)) => match parsed_i64(trim(preview.frame_id@)) {
                    Some(frame) => Some((session@, frame)),
                    None => None,
                },
                _ => None,
            },
            None => None,
        },
        None => None,
    }
}

/// The session and frame whose image may illustrate the shown answer.
pub fn visual_cue_frame(snapshot: &SessionIslandSnapshot) -> (r: Option<(String, i64)>)
    ensures
        match r {
            Some((session, frame)) => cue_frame_of(*snapshot) == Some((session@, frame)),
            None => cue_frame_of(*snapshot) is None,
        },
{
    let state = match &snapshot.island_continue_state {
        Some(state) => state,
        None => {
            return None;
        },
    };
    let answer = match &state.semantic_answer {
        Some(answer) => answer,
        None => {
            return None;
        },
    };
    match (&answer.atomic_identity.session_id, &answer.evidence_preview) {
        (Some(session), Some(preview)) => {
            let trimmed = str_trim(preview.frame_id.as_str());
            match parse_i64(trimmed.as_str()) {
                Some(frame) => Some((session.clone(), frame)),
                None => None,
            }
        },
        _ => None,
    }
}

/// The image a frame offers as the answer's visual cue, before the file is
/// checked: only a frame of the answer's session with normal privacy, and
/// its full display image before its snapshot.
pub open spec fn cue_candidate(
    expected: Seq<char>,
    frame_session: Option<Seq<char>>,
    privacy: Option<Seq<char>>,
    full: Option<Seq<char>>,
    snapshot: Seq<char>,
) -> Option<Seq<char>> {
    let e = trim(expected);
    if e.len() == 0 || (match frame_session {
        Some(f) => trim(f) != e,
        None => true,
    }) || (match privacy {
        Some(p) => trim(p) != "normal"@,
        None => true,
    }) {
        None
    } else {
        let chosen = match trimmed_id(full) {
            Some(f) => f,
            None => trim(snapshot),
        };
        if chosen.len() == 0 {
            None
        } else {
            Some(chosen)
        }
    }
}

/// The image a frame offers as the answer's visual cue, before the file is
/// checked.
pub fn visual_cue_candidate(
    expected_session_id: &str,
    frame_session_id: Option<&str>,
    privacy_status: Option<&str>,
    full_screenshot_path: Option<&str>,
    snapshot_path: &str,
) -> (r: Option<String>)
    ensures
        opt_str(r) == cue_candidate(
            expected_session_id@,
            match frame_session_id {
                Some(f) => Some(f@),
                None => None,
            },
            match privacy_status {
                Some(p) => Some(p@),
                None => None,
            },
            match full_screenshot_path {
                Some(f) => Some(f@),
                None => None,
            },
            snapshot_path@,
        ),
{
    let expected = str_trim(expected_session_id);
    if expected.as_str().is_empty() {
        return None;
    }
    let same_session = match frame_session_id {
        Some(f) => {
            let t = str_trim(f);
            str_eq(t.as_str(), expected.as_str())
        },
        None => false,
    };
    let normal = match privacy_status {
        Some(p) => {
            let t = str_trim(p);
            str_eq(t.as_str(), "normal")
        },
        None => false,
    };
    if !same_session || !normal {
        return None;
    }
    let full = match full_screenshot_path {
        Some(f) => trimmed_nonempty(&Some(copy_str(f))),
        None => None,
    };
    let chosen = match full {
        Some(f) => f,
        None => str_trim(snapshot_path),
    };
    if chosen.as_str().is_empty() {
        None
    } else {
        Some(chosen)
    }
}

/// A page of saved Continue outputs.
#[derive(Debug, Clone, PartialEq, Eq)]
pub struct IslandContinueHistoryPage {
    pub schema: String,
    pub items: Vec<ContinueHistorySummaryV1>,
    pub next_cursor: Option<ContinueHistoryCursorV1>,
    pub request_id: u64,
    pub error: Option<String>,
}

/// One saved Continue output, with the request it answers.
#[derive(Debug, Clone, PartialEq, Eq)]
pub struct IslandContinueHistoryOutput {
    pub schema: String,
    pub decision_id: String,
    pub created_at_ms: i64,
    pub origin: String,
    pub title: String,
    pub rows: Vec<ContinueHistoryAnswerRowV1>,
    pub request_id: u64,
    pub error: Option<String>,
}

impl IslandContinueHistoryPage {
    /// A page holding exactly the given items and cursor.
    pub fn ready(
        items: Vec<ContinueHistorySummaryV1>,
        next_cursor: Option<ContinueHistoryCursorV1>,
        request_id: u64,
    ) -> (r: Self)
        ensures
            r.schema@ == HISTORY_PAGE_SCHEMA@,
            r.items == items,
            r.next_cursor == next_cursor,
            r.request_id == request_id,
            r.error is None,
    {
        IslandContinueHistoryPage {
            schema: copy_str(HISTORY_PAGE_SCHEMA),
            items,
            next_cursor,
            request_id,
            error: None,
        }
    }

    /// An empty page that reports an error.
    pub fn error(request_id: u64, error: String) -> (r: Self)
        ensures
            r.schema@ == HISTORY_PAGE_SCHEMA@,
            r.items@.len() == 0,
            r.next_cursor is None,
            r.request_id == request_id,
            r.error == Some(error),
    {
        IslandContinueHistoryPage {
            schema: copy_str(HISTORY_PAGE_SCHEMA),
            items: Vec::new(),
            next_cursor: None,
            request_id,
            error: Some(error),
        }
    }
}

impl IslandContinueHistoryOutput {
    /// A saved output, shown with its exact saved wording.
    pub fn ready(output: ContinueHistoryOutputV1, request_id: u64) -> (r: Self)
        ensures
            r.schema@ == HISTORY_OUTPUT_SCHEMA@,
            r.decision_id == output.decision_id,
            r.created_at_ms == output.created_at_ms,
            r.origin == output.origin,
            r.title == output.title,
            r.rows == output.rows,
            r.request_id == request_id,
            r.error is None,
    {
        IslandContinueHistoryOutput {
            schema: copy_str(HISTORY_OUTPUT_SCHEMA),
            decision_id: output.decision_id,
            created_at_ms: output.created_at_ms,
            origin: output.origin,
            title: output.title,
            rows: output.rows,
            request_id,
            error: None,
        }
    }

    /// An empty output that reports an error.
    pub fn error(decision_id: Option<String>, request_id: u64, error: String) -> (r: Self)
        ensures
            r.schema@ == HISTORY_OUTPUT_SCHEMA@,
            r.decision_id@ == match decision_id {
                Some(d) => d@,
                None => Seq::<char>::empty(),
            },
            r.created_at_ms == 0,
            r.origin@.len() == 0,
            r.title@.len() == 0,
            r.rows@.len() == 0,
            r.request_id == request_id,
            r.error == Some(error),
    {
        let id = match decision_id {
            Some(d) => d,
            None => String::new(),
        };
        IslandContinueHistoryOutput {
            schema: copy_str(HISTORY_OUTPUT_SCHEMA),
            decision_id: id,
            created_at_ms: 0,
            origin: String::new(),
            title: String::new(),
            rows: Vec::new(),
            request_id,
            error: Some(error),
        }
    }
}

/// What the panel shows.
#[derive(Debug, Clone)]
pub struct SessionIslandSnapshot {
    pub state: SessionIslandState,
    pub memory_active: bool,
    pub session_id: Option<String>,
    pub elapsed_ms: u64,
    pub frame_count: u64,
    pub event_count: u64,
    pub trail_app_count: u64,
    pub trail_moment_count: u64,
    pub trail_labels: Vec<String>,
    pub last_frame_id: Option<i64>,
    pub current_app: Option<String>,
    pub current_window: Option<String>,
    pub current_surface_kind: Option<String>,
    pub last_trigger: Option<String>,
    pub last_capture_at_ms: Option<i64>,
    pub capture_pulse_nonce: Option<u64>,
    pub last_error: Option<String>,
    pub resume_headline: Option<String>,
    pub resume_detail: Option<String>,
    pub resume_point: Option<String>,
    pub resume_source: Option<String>,
    pub resume_model: Option<String>,
    pub resume_response_id: Option<String>,
    pub continue_decision_id: Option<String>,
    pub continue_freshness: Option<String>,
    pub evidence_updated_at_ms: Option<i64>,
    pub decision_updated_at_ms: Option<i64>,
    pub continue_openable: Option<bool>,
    pub resume_warning: Option<String>,
    pub island_continue_state: Option<IslandContinueState>,
    pub visual_cue: Option<IslandVisualCue>,
    pub continue_history_page: Option<IslandContinueHistoryPage>,
    pub continue_history_output: Option<IslandContinueHistoryOutput>,
    pub privacy_label: Option<String>,
    pub is_sensitive: bool,
}

/// The Continue decision the island remembers, with what it knew of local
/// memory when it took it.
#[derive(Debug, Clone)]
pub struct RememberedContinueIslandState {
    pub session_id: Option<String>,
    pub decision_id: String,
    pub request_trigger: String,
    pub task_turn_id: Option<String>,
    pub task_turn_revision: Option<i64>,
    pub task_confidence_permille: u32,
    pub wording_source: String,
    pub target_selection_source: String,
    pub resume_headline: Option<String>,
    pub resume_detail: Option<String>,
    pub resume_point: Option<String>,
    pub resume_warning: Option<String>,
    pub continue_freshness: String,
    pub evidence_updated_at_ms: Option<i64>,
    pub decision_updated_at_ms: Option<i64>,
    pub continue_openable: bool,
    pub feedback_or_open_watermark_ms: Option<i64>,
    pub frame_count: u64,
    pub signal_count: u64,
    pub event_count: u64,
    pub island_continue_state: IslandContinueState,
}

/// The Continue part of a snapshot, by views.
pub struct ContinueFields {
    pub resume_source: Option<Seq<char>>,
    pub resume_model: Option<Seq<char>>,
    pub resume_response_id: Option<Seq<char>>,
    pub resume_headline: Option<Seq<char>>,
    pub resume_detail: Option<Seq<char>>,
    pub resume_point: Option<Seq<char>>,
    pub continue_decision_id: Option<Seq<char>>,
    pub continue_freshness: Option<Seq<char>>,
    pub evidence_updated_at_ms: Option<i64>,
    pub decision_updated_at_ms: Option<i64>,
    pub continue_openable: Option<bool>,
    pub resume_warning: Option<Seq<char>>,
    pub island_continue_state: Option<StateView>,
}

/// The Continue part of a snapshot.
pub open spec fn continue_fields(s: SessionIslandSnapshot) -> ContinueFields {
    ContinueFields {
        resume_source: opt_str(s.resume_source),
        resume_model: opt_str(s.resume_model),
        resume_response_id: opt_str(s.resume_response_id),
        resume_headline: opt_str(s.resume_headline),
        resume_detail: opt_str(s.resume_detail),
        resume_point: opt_str(s.resume_point),
        continue_decision_id: opt_str(s.continue_decision_id),
        continue_freshness: opt_str(s.continue_freshness),
        evidence_updated_at_ms: s.evidence_updated_at_ms,
        decision_updated_at_ms: s.decision_updated_at_ms,
        continue_openable: s.continue_openable,
        resume_warning: opt_str(s.resume_warning),
        island_continue_state: opt_state(s.island_continue_state),
    }
}

/// Everything but the Continue part is the same in both snapshots.
pub open spec fn same_capture_part(a: SessionIslandSnapshot, b: SessionIslandSnapshot) -> bool {
    &&& a.state == b.state
    &&& a.memory_active == b.memory_active
    &&& a.session_id == b.session_id
    &&& a.elapsed_ms == b.elapsed_ms
    &&& a.frame_count == b.frame_count
    &&& a.event_count == b.event_count
    &&& a.trail_app_count == b.trail_app_count
    &&& a.trail_moment_count == b.trail_moment_count
    &&& a.trail_labels == b.trail_labels
    &&& a.last_frame_id == b.last_frame_id
    &&& a.current_app == b.current_app
    &&& a.current_window == b.current_window
    &&& a.current_surface_kind == b.current_surface_kind
    &&& a.last_trigger == b.last_trigger
    &&& a.last_capture_at_ms == b.last_capture_at_ms
    &&& a.capture_pulse_nonce == b.capture_pulse_nonce
    &&& a.last_error == b.last_error
    &&& a.visual_cue == b.visual_cue
    &&& a.continue_history_page == b.continue_history_page
    &&& a.continue_history_output == b.continue_history_output
    &&& a.privacy_label == b.privacy_label
    &&& a.is_sensitive == b.is_sensitive
}

/// A snapshot that shows nothing but its state.
pub open spec fn empty_snapshot(s: SessionIslandSnapshot, state: SessionIslandState) -> bool {
    &&& s.state == state
    &&& !s.memory_active
    &&& s.session_id is None
    &&& s.elapsed_ms == 0
    &&& s.frame_count == 0
    &&& s.event_count == 0
    &&& s.trail_app_count == 0
    &&& s.trail_moment_count == 0
    &&& s.trail_labels@.len() == 0
    &&& s.last_frame_id is None
    &&& s.current_app is None
    &&& s.current_window is None
    &&& s.current_surface_kind is None
    &&& s.last_trigger is None
    &&& s.last_capture_at_ms is None
    &&& s.capture_pulse_nonce is None
    &&& s.last_error is None
    &&& s.resume_headline is None
    &&& s.resume_detail is None
    &&& s.resume_point is None
    &&& s.resume_source is None
    &&& s.resume_model is None
    &&& s.resume_response_id is None
    &&& s.continue_decision_id is None
    &&& s.continue_freshness is None
    &&& s.evidence_updated_at_ms is None
    &&& s.decision_updated_at_ms is None
    &&& s.continue_openable is None
    &&& s.resume_warning is None
    &&& s.island_continue_state is None
    &&& s.visual_cue is None
    &&& s.continue_history_page is None
    &&& s.continue_history_output is None
    &&& s.privacy_label is None
    &&& !s.is_sensitive
}

/// The panel after a failure: every field as in the hidden panel but the
/// state, which is `Error`, the last error, which is the message, and the
/// Continue state, which is the error state with the one warning
/// `island_continue_error`.
pub open spec fn error_snapshot(r: SessionIslandSnapshot, message: Seq<char>) -> bool {
    &&& empty_snapshot(
        SessionIslandSnapshot { last_error: None, island_continue_state: None, ..r },
        SessionIslandState::Error,
    )
    &&& opt_str(r.last_error) == Some(message)
    &&& r.island_continue_state matches Some(s) && error_continue_state(
        s,
        s.generated_at_ms,
        Some("island_continue_error"@),
    )
}

/// The current time in milliseconds since the Unix epoch (0 before it).
#[verifier::external_body]
pub(crate) fn now_millis() -> (t: i64) {
    std::time::SystemTime::now().duration_since(std::time::UNIX_EPOCH).unwrap_or_default().as_millis() as i64
}

impl SessionIslandSnapshot {
    /// A snapshot of the given state that shows nothing else.
    fn empty(state: SessionIslandState) -> (r: Self)
        ensures
            empty_snapshot(r, state),
    {
        SessionIslandSnapshot {
            state,
            memory_active: false,
            session_id: None,
            elapsed_ms: 0,
            frame_count: 0,
            event_count: 0,
            trail_app_count: 0,
            trail_moment_count: 0,
            trail_labels: Vec::new(),
            last_frame_id: None,
            current_app: None,
            current_window: None,
            current_surface_kind: None,
            last_trigger: None,
            last_capture_at_ms: None,
            capture_pulse_nonce: None,
            last_error: None,
            resume_headline: None,
            resume_detail: None,
            resume_point: None,
            resume_source: None,
            resume_model: None,
            resume_response_id: None,
            continue_decision_id: None,
            continue_freshness: None,
            evidence_updated_at_ms: None,
            decision_updated_at_ms: None,
            continue_openable: None,
            resume_warning: None,
            island_continue_state: None,
            visual_cue: None,
            continue_history_page: None,
            continue_history_output: None,
            privacy_label: None,
            is_sensitive: false,
        }
    }

    /// The hidden panel.
    pub fn hidden() -> (r: Self)
        ensures
            empty_snapshot(r, SessionIslandState::Hidden),
    {
        Self::empty(SessionIslandState::Hidden)
    }

    /// The idle panel.
    pub fn ready() -> (r: Self)
        ensures
            empty_snapshot(r, SessionIslandState::Ready),
    {
        Self::empty(SessionIslandState::Ready)
    }

    /// The panel while local memory starts.
    pub fn starting() -> (r: Self)
        ensures
            empty_snapshot(r, SessionIslandState::Starting),
    {
        Self::empty(SessionIslandState::Starting)
    }

    /// The panel after a failure at `now_ms`: the hidden panel's fields, in
    /// the error state, with the message and the Continue error state.
    pub fn error_at(message: String, now_ms: i64) -> (r: Self)
        ensures
            error_snapshot(r, message@),
            r.island_continue_state matches Some(s) && s.generated_at_ms == now_ms,
    {
        let mut r = Self::empty(SessionIslandState::Error);
        r.island_continue_state = Some(
            IslandContinueState::error(now_ms, Some(copy_str("island_continue_error"))),
        );
        r.last_error = Some(message);
        r
    }

    /// The panel after a failure, stamped with the current time.
    pub fn error(message: String) -> (r: Self)
        ensures
            error_snapshot(r, message@),
    {
        Self::error_at(message, now_millis())
    }
}

/// A privacy label that does not mark the frame as sensitive.
pub open spec fn benign_privacy_label(label: Seq<char>) -> bool {
    label == "normal"@ || label == "ok"@ || label == "allowed"@
}

/// `is_sensitive_privacy_label`: any label but the benign ones.
pub fn is_sensitive_privacy_label(label: &str) -> (b: bool)
    ensures
        b == !benign_privacy_label(label@),
{
    !(str_eq(label, "normal") || str_eq(label, "ok") || str_eq(label, "allowed"))
}

/// The latest frame's privacy label, unless it is blank.
pub open spec fn privacy_of(status: CaptureStatus) -> Option<Seq<char>> {
    match status.latest_frame {
        Some(f) => match f.privacy_status {
            Some(p) => if is_blank(p@) {
                None
            } else {
                Some(p@)
            },
            None => None,
        },
        None => None,
    }
}

/// The latest frame is marked sensitive.
pub open spec fn sensitive_of(status: CaptureStatus) -> bool {
    match privacy_of(status) {
        Some(p) => !benign_privacy_label(p),
        None => false,
    }
}

/// `a - b`, saturated to the range of `i64`.
pub open spec fn sat_sub(a: i64, b: i64) -> i64 {
    let d = a - b;
    if d > i64::MAX {
        i64::MAX
    } else if d < i64::MIN {
        i64::MIN
    } else {
        d as i64
    }
}

/// The bits of `x` read as unsigned.
pub open spec fn bits_u64(x: i64) -> u64 {
    if x >= 0 {
        x as u64
    } else {
        (x + 0x1_0000_0000_0000_0000) as u64
    }
}

/// How long local memory has been running, or ran in the latest session.
pub open spec fn elapsed_of(status: CaptureStatus, now_ms: i64) -> u64 {
    match status.started_at {
        Some(s) => bits_u64(sat_sub(now_ms, s)),
        None => match status.latest_session {
            Some(sess) => match sess.stopped_at {
                Some(t) => bits_u64(sat_sub(t, sess.started_at)),
                None => 0,
            },
            None => 0,
        },
    }
}

/// `a.saturating_sub(b) as u64`.
fn elapsed_between(a: i64, b: i64) -> (r: u64)
    ensures
        r == bits_u64(sat_sub(a, b)),
{
    let d: i128 = a as i128 - b as i128;
    let s: i64 = if d > i64::MAX as i128 {
        i64::MAX
    } else if d < i64::MIN as i128 {
        i64::MIN
    } else {
        d as i64
    };
    if s >= 0 {
        s as u64
    } else {
        (s as i128 + 0x1_0000_0000_0000_0000i128) as u64
    }
}

/// The frame's label of `field`, cleaned to one line.
pub open spec fn frame_line(v: Option<String>) -> Option<Seq<char>> {
    clean_line(opt_str(v))
}

/// The capture part of a snapshot of `status` in `state` at `now_ms`.
pub open spec fn reads_status(
    r: SessionIslandSnapshot,
    status: CaptureStatus,
    state: SessionIslandState,
    now_ms: i64,
) -> bool {
    let sensitive = sensitive_of(status);
    &&& r.state == state
    &&& r.memory_active == status.running
    &&& opt_str(r.session_id) == current_session_id(status)
    &&& r.elapsed_ms == elapsed_of(status, now_ms)
    &&& r.frame_count == count_of(status.frame_count)
    &&& r.event_count == count_of(status.event_count)
    &&& r.trail_app_count == status.recent_app_labels@.len()
    &&& r.trail_moment_count == count_of(status.signal_count)
    &&& strs(r.trail_labels@) == strs(status.recent_app_labels@)
    &&& r.last_frame_id == match status.latest_frame {
        Some(f) => Some(f.id),
        None => None,
    }
    &&& opt_str(r.current_app) == match status.latest_frame {
        Some(f) => if sensitive {
            None
        } else {
            frame_line(f.app_name)
        },
        None => None,
    }
    &&& opt_str(r.current_window) == match status.latest_frame {
        Some(f) => if sensitive {
            None
        } else {
            frame_line(f.window_name)
        },
        None => None,
    }
    &&& opt_str(r.current_surface_kind) == match status.latest_frame {
        Some(f) => match f.scope {
            Some(s) => clean_line(Some(s@)),
            None => frame_line(f.text_source),
        },
        None => None,
    }
    &&& opt_str(r.last_trigger) == match status.latest_frame {
        Some(f) => clean_line(Some(f.capture_trigger@)),
        None => None,
    }
    &&& r.last_capture_at_ms == newest_evidence(status)
    &&& r.capture_pulse_nonce == match status.latest_frame {
        Some(f) => if f.id > 0 {
            Some(f.id as u64)
        } else {
            None
        },
        None => None,
    }
    &&& opt_str(r.last_error) == opt_str(status.last_error)
    &&& r.visual_cue is None
    &&& r.continue_history_page is None
    &&& r.continue_history_output is None
    &&& opt_str(r.privacy_label) == privacy_of(status)
    &&& r.is_sensitive == sensitive
}

/// The Continue part of a snapshot before anything remembered is applied:
/// only the time of the newest evidence.
pub open spec fn initial_fields(status: CaptureStatus) -> ContinueFields {
    ContinueFields {
        resume_source: None,
        resume_model: None,
        resume_response_id: None,
        resume_headline: None,
        resume_detail: None,
        resume_point: None,
        continue_decision_id: None,
        continue_freshness: None,
        evidence_updated_at_ms: newest_evidence(status),
        decision_updated_at_ms: None,
        continue_openable: None,
        resume_warning: None,
        island_continue_state: None,
    }
}

/// The presentation states that keep whatever Continue part they have.
pub open spec fn keeps_continue_part(state: SessionIslandState) -> bool {
    ||| state == SessionIslandState::Hidden
    ||| state == SessionIslandState::TrailReconstructing
    ||| state == SessionIslandState::StoppedToast
    ||| state == SessionIslandState::Error
}

/// An optional time, or 0.
pub open spec fn or_zero(t: Option<i64>) -> i64 {
    match t {
        Some(v) => v,
        None => 0,
    }
}

/// The larger of two times.
pub open spec fn later(a: i64, b: i64) -> i64 {
    if a >= b {
        a
    } else {
        b
    }
}

/// The remembered decision predates what local memory now holds: another
/// session, more frames, moments or events, or a newer capture.
pub open spec fn has_new_evidence(
    capture_at: Option<i64>,
    frames: u64,
    moments: u64,
    events: u64,
    status: CaptureStatus,
    rem: RememberedContinueIslandState,
) -> bool {
    ||| opt_str(rem.session_id) != status_session_id(status)
    ||| frames > rem.frame_count
    ||| moments > rem.signal_count
    ||| events > rem.event_count
    ||| or_zero(capture_at) > or_zero(rem.evidence_updated_at_ms)
}

/// A remembered state shown as outdated: it asks for a refresh and offers
/// nothing but refresh, inspection and Smalltalk.
pub open spec fn stale_view(v: StateView, watermark: i64) -> StateView {
    StateView {
        display_state: IslandDisplayState::NeedsRefresh,
        decision_stale: true,
        evidence_watermark_ms: Some(watermark),
        available_actions: refresh_actions(),
        ..v
    }
}

/// The remembered state, if any, as a value.
pub open spec fn rem_of(o: Option<&RememberedContinueIslandState>) -> Option<RememberedContinueIslandState> {
    match o {
        Some(r) => Some(*r),
        None => None,
    }
}

/// The Continue part after the remembered decision is applied to a snapshot
/// in `state` whose capture part holds the given counts.
pub open spec fn applied_fields(
    state: SessionIslandState,
    capture_at: Option<i64>,
    frames: u64,
    moments: u64,
    events: u64,
    before: ContinueFields,
    status: CaptureStatus,
    rem: Option<RememberedContinueIslandState>,
) -> ContinueFields {
    match rem {
        None => before,
        Some(r) => if keeps_continue_part(state) {
            before
        } else {
            let wm = later(or_zero(capture_at), or_zero(r.evidence_updated_at_ms));
            let fresh = !has_new_evidence(capture_at, frames, moments, events, status, r);
            ContinueFields {
                resume_source: before.resume_source,
                resume_model: before.resume_model,
                resume_response_id: before.resume_response_id,
                resume_headline: if fresh {
                    opt_str(r.resume_headline)
                } else {
                    Some("New evidence"@)
                },
                resume_detail: if fresh {
                    opt_str(r.resume_detail)
                } else {
                    Some("Refresh Continue"@)
                },
                resume_point: opt_str(r.resume_point),
                continue_decision_id: Some(r.decision_id@),
                continue_freshness: Some(
                    if fresh {
                        r.continue_freshness@
                    } else {
                        "new_evidence"@
                    },
                ),
                evidence_updated_at_ms: Some(wm),
                decision_updated_at_ms: r.decision_updated_at_ms,
                continue_openable: Some(r.continue_openable),
                resume_warning: if fresh {
                    opt_str(r.resume_warning)
                } else {
                    None
                },
                island_continue_state: Some(
                    if fresh {
                        r.island_continue_state@
                    } else {
                        stale_view(r.island_continue_state@, wm)
                    },
                ),
            }
        },
    }
}

/// Shows the remembered Continue decision in a snapshot of local memory,
/// marked as outdated when local memory holds newer evidence.
pub fn apply_remembered_continue_to_status_snapshot(
    snapshot: &mut SessionIslandSnapshot,
    status: &CaptureStatus,
    remembered: Option<&RememberedContinueIslandState>,
)
    ensures
        same_capture_part(*old(snapshot), *final(snapshot)),
        continue_fields(*final(snapshot)) == applied_fields(
            old(snapshot).state,
            old(snapshot).last_capture_at_ms,
            old(snapshot).frame_count,
            old(snapshot).trail_moment_count,
            old(snapshot).event_count,
            continue_fields(*old(snapshot)),
            *status,
            rem_of(remembered),
        ),
{
    match snapshot.state {
        SessionIslandState::Hidden | SessionIslandState::TrailReconstructing
        | SessionIslandState::StoppedToast | SessionIslandState::Error => {
            return;
        },
        _ => {},
    }
    let remembered = match remembered {
        Some(r) => r,
        None => {
            return;
        },
    };
    let status_session = status.evidence_session_id();
    let session_changed = !opt_str_eq(&remembered.session_id, &status_session);
    let latest = match snapshot.last_capture_at_ms {
        Some(t) => t,
        None => 0,
    };
    let remembered_at = match remembered.evidence_updated_at_ms {
        Some(t) => t,
        None => 0,
    };
    let has_new = session_changed || snapshot.frame_count > remembered.frame_count
        || snapshot.trail_moment_count > remembered.signal_count || snapshot.event_count
        > remembered.event_count || latest > remembered_at;
    let watermark = if latest >= remembered_at {
        latest
    } else {
        remembered_at
    };
    snapshot.continue_decision_id = Some(remembered.decision_id.clone());
    snapshot.continue_openable = Some(remembered.continue_openable);
    snapshot.decision_updated_at_ms = remembered.decision_updated_at_ms;
    snapshot.evidence_updated_at_ms = Some(watermark);
    snapshot.resume_point = copy_opt_str(&remembered.resume_point);
    let mut state = remembered.island_continue_state.copy();
    if has_new {
        state.display_state = IslandDisplayState::NeedsRefresh;
        state.decision_stale = true;
        state.evidence_watermark_ms = Some(watermark);
        state.available_actions = refresh_action_list();
        assert(state@ == stale_view(remembered.island_continue_state@, watermark));
        snapshot.island_continue_state = Some(state);
        snapshot.continue_freshness = Some(copy_str("new_evidence"));
        snapshot.resume_headline = Some(copy_str("New evidence"));
        snapshot.resume_detail = Some(copy_str("Refresh Continue"));
        snapshot.resume_warning = None;
    } else {
        snapshot.island_continue_state = Some(state);
        snapshot.continue_freshness = Some(remembered.continue_freshness.clone());
        snapshot.resume_headline = copy_opt_str(&remembered.resume_headline);
        snapshot.resume_detail = copy_opt_str(&remembered.resume_detail);
        snapshot.resume_warning = copy_opt_str(&remembered.resume_warning);
    }
}

/// The frame's optional label, cleaned to one line.
fn clean_label(v: &Option<String>) -> (r: Option<String>)
    ensures
        opt_str(r) == frame_line(*v),
{
    match v {
        Some(s) => clean_one_line(Some(s.as_str())),
        None => clean_one_line(None),
    }
}

/// A copy of a list of strings.
fn copy_labels(v: &Vec<String>) -> (r: Vec<String>)
    ensures
        strs(r@) == strs(v@),
{
    copy_strings(v)
}

/// The capture part of a snapshot, with nothing remembered applied yet.
fn status_snapshot(status: &CaptureStatus, state: SessionIslandState, now_ms: i64) -> (r:
    SessionIslandSnapshot)
    ensures
        reads_status(r, *status, state, now_ms),
        continue_fields(r) == initial_fields(*status),
{
    let privacy_label: Option<String> = match &status.latest_frame {
        Some(f) => match &f.privacy_status {
            Some(p) => if str_is_blank(p.as_str()) {
                None
            } else {
                Some(p.clone())
            },
            None => None,
        },
        None => None,
    };
    let is_sensitive = match &privacy_label {
        Some(p) => is_sensitive_privacy_label(p.as_str()),
        None => false,
    };
    let elapsed_ms = match status.started_at {
        Some(started) => elapsed_between(now_ms, started),
        None => match &status.latest_session {
            Some(sess) => match sess.stopped_at {
                Some(stopped) => elapsed_between(stopped, sess.started_at),
                None => 0,
            },
            None => 0,
        },
    };
    let mut r = SessionIslandSnapshot::empty(state);
    r.memory_active = status.running;
    r.session_id = status.session_id();
    r.elapsed_ms = elapsed_ms;
    r.frame_count = nonnegative(status.frame_count);
    r.event_count = nonnegative(status.event_count);
    r.trail_app_count = status.recent_app_labels.len() as u64;
    r.trail_moment_count = nonnegative(status.signal_count);
    r.trail_labels = copy_labels(&status.recent_app_labels);
    r.last_error = copy_opt_str(&status.last_error);
    match &status.latest_frame {
        Some(f) => {
            r.last_frame_id = Some(f.id);
            if !is_sensitive {
                r.current_app = clean_label(&f.app_name);
                r.current_window = clean_label(&f.window_name);
            }
            r.current_surface_kind = match &f.scope {
                Some(s) => clean_one_line(Some(s.as_str())),
                None => clean_label(&f.text_source),
            };
            r.last_trigger = clean_one_line(Some(f.capture_trigger.as_str()));
            r.last_capture_at_ms = Some(f.captured_at);
            r.capture_pulse_nonce = if f.id > 0 {
                Some(f.id as u64)
            } else {
                None
            };
            r.evidence_updated_at_ms = Some(f.captured_at);
        },
        None => {},
    }
    r.privacy_label = privacy_label;
    r.is_sensitive = is_sensitive;
    r
}

/// The snapshot of `status` in `state` at `now_ms`, with the remembered
/// Continue decision shown.
pub fn snapshot_from_status(
    status: &CaptureStatus,
    state: SessionIslandState,
    now_ms: i64,
    remembered: Option<&RememberedContinueIslandState>,
) -> (r: SessionIslandSnapshot)
    ensures
        reads_status(r, *status, state, now_ms),
        continue_fields(r) == applied_fields(
            state,
            newest_evidence(*status),
            count_of(status.frame_count),
            count_of(status.signal_count),
            count_of(status.event_count),
            initial_fields(*status),
            *status,
            rem_of(remembered),
        ),
{
    let mut r = status_snapshot(status, state, now_ms);
    apply_remembered_continue_to_status_snapshot(&mut r, status, remembered);
    r
}

/// How fresh the island calls a Continue answer in each display state.
pub open spec fn freshness_label(d: IslandDisplayState) -> Seq<char> {
    match d {
        IslandDisplayState::ContinueReady => "current"@,
        IslandDisplayState::NeedsRefresh => "new_evidence"@,
        IslandDisplayState::CheckingContinue => "updating"@,
        IslandDisplayState::NoLocalMemory | IslandDisplayState::LocalMemoryWarming => "needs_evidence"@,
        _ => "thin_evidence"@,
    }
}

/// The panel's headline in each display state.
pub open spec fn headline_of(d: IslandDisplayState) -> Seq<char> {
    match d {
        IslandDisplayState::ContinueReady => "Ready to continue"@,
        IslandDisplayState::ThinCurrentWork => "Evidence is thin"@,
        IslandDisplayState::TargetSuppressed => "Target suppressed"@,
        IslandDisplayState::SupportBlocked => "Support branch blocked"@,
        IslandDisplayState::NeedsRefresh => "New evidence"@,
        IslandDisplayState::NoClearContinuation => "No clear continuation"@,
        IslandDisplayState::InspectOnly => "Inspect evidence"@,
        IslandDisplayState::NoLocalMemory => "No local memory yet"@,
        IslandDisplayState::LocalMemoryWarming => "Local memory warming"@,
        IslandDisplayState::CheckingContinue => "Checking Continue"@,
        IslandDisplayState::Error => "Continue unavailable"@,
    }
}

/// How fresh the island calls the answer of a state.
pub fn continue_freshness_from_island_state(state: &IslandContinueState) -> (r: String)
    ensures
        r@ == freshness_label(state.display_state),
{
    let label = match state.display_state {
        IslandDisplayState::ContinueReady => "current",
        IslandDisplayState::NeedsRefresh => "new_evidence",
        IslandDisplayState::CheckingContinue => "updating",
        IslandDisplayState::NoLocalMemory | IslandDisplayState::LocalMemoryWarming => "needs_evidence",
        IslandDisplayState::ThinCurrentWork | IslandDisplayState::TargetSuppressed
        | IslandDisplayState::SupportBlocked | IslandDisplayState::InspectOnly
        | IslandDisplayState::NoClearContinuation | IslandDisplayState::Error => "thin_evidence",
    };
    copy_str(label)
}

/// The panel's headline for a state.
pub fn headline_from_island_state(state: &IslandContinueState) -> (r: &'static str)
    ensures
        r@ == headline_of(state.display_state),
{
    match state.display_state {
        IslandDisplayState::ContinueReady => "Ready to continue",
        IslandDisplayState::ThinCurrentWork => "Evidence is thin",
        IslandDisplayState::TargetSuppressed => "Target suppressed",
        IslandDisplayState::SupportBlocked => "Support branch blocked",
        IslandDisplayState::NeedsRefresh => "New evidence",
        IslandDisplayState::NoClearContinuation => "No clear continuation",
        IslandDisplayState::InspectOnly => "Inspect evidence",
        IslandDisplayState::NoLocalMemory => "No local memory yet",
        IslandDisplayState::LocalMemoryWarming => "Local memory warming",
        IslandDisplayState::CheckingContinue => "Checking Continue",
        IslandDisplayState::Error => "Continue unavailable",
    }
}

/// The evidence time the decision's freshness ledger reports: its latest
/// evidence time if present, else its decision watermark, when that entry
/// is an integer.
pub open spec fn ledger_ms(d: ContinueDecisionResult) -> Option<i64> {
    match d.evidence_freshness_ledger {
        None => None,
        Some(l) => {
            let v = match l.latest_any_evidence_ms {
                Some(v) => Some(v),
                None => l.decision_watermark_ms,
            };
            match v {
                Some(LedgerValue::Integer(t)) => Some(t),
                _ => None,
            }
        },
    }
}

/// The evidence time the decision's freshness ledger reports.
pub fn decision_evidence_updated_at_ms(decision: &ContinueDecisionResult) -> (r: Option<i64>)
    ensures
        r == ledger_ms(*decision),
{
    match &decision.evidence_freshness_ledger {
        None => None,
        Some(l) => {
            let v = match l.latest_any_evidence_ms {
                Some(v) => Some(v),
                None => l.decision_watermark_ms,
            };
            match v {
                Some(LedgerValue::Integer(t)) => Some(t),
                _ => None,
            }
        },
    }
}

/// The island's base decision request: a normal, model-assisted decision
/// that writes no audit output.
pub open spec fn base_request(r: ContinueDecisionRequest) -> bool {
    &&& opt_str(r.mode) == Some("normal"@)
    &&& r.session_id is None
    &&& r.rebuild_layers == Some(false)
    &&& r.micro_inference_enabled == Some(true)
    &&& r.activity_recap_model_enabled == Some(true)
    &&& r.max_candidates_for_model == Some(5usize)
    &&& r.audit_output_enabled == Some(false)
    &&& r.audit_mode == Some(ContinueAuditMode::Off)
    &&& opt_str(r.request_trigger) == Some("island"@)
    &&& r.island_trigger_reason is None
    &&& r.island_source is None
}

/// The island's base decision request.
pub fn island_continue_decision_request() -> (r: ContinueDecisionRequest)
    ensures
        base_request(r),
{
    ContinueDecisionRequest {
        mode: Some(copy_str("normal")),
        session_id: None,
        rebuild_layers: Some(false),
        micro_inference_enabled: Some(true),
        activity_recap_model_enabled: Some(true),
        max_candidates_for_model: Some(5),
        audit_output_enabled: Some(false),
        audit_mode: Some(ContinueAuditMode::Off),
        request_trigger: Some(copy_str("island")),
        island_trigger_reason: None,
        island_source: None,
    }
}

/// The first missing evidence, else the first warning, of a state.
pub open spec fn first_note(v: StateView) -> Option<Seq<char>> {
    if v.missing_evidence.len() > 0 {
        Some(v.missing_evidence[0])
    } else if v.warnings.len() > 0 {
        Some(v.warnings[0])
    } else {
        None
    }
}

/// The title of the state's resume target, else of its return target, on
/// one line.
pub open spec fn resume_point_of(v: StateView) -> Option<Seq<char>> {
    match v.resume_work_target {
        Some(t) => clean_line(Some(t.title)),
        None => match v.return_target {
            Some(t) => clean_line(Some(t.title)),
            None => None,
        },
    }
}

/// The Continue part of a snapshot that shows the state `v` for the decision
/// `decision_id`, updated at `updated_at`.
pub open spec fn shown_fields(
    v: StateView,
    decision_id: Option<Seq<char>>,
    updated_at: i64,
    capture_at: Option<i64>,
) -> ContinueFields {
    ContinueFields {
        resume_source: Some("continue"@),
        resume_model: None,
        resume_response_id: None,
        resume_headline: Some(headline_of(v.display_state)),
        resume_detail: v.next_action,
        resume_point: resume_point_of(v),
        continue_decision_id: decision_id,
        continue_freshness: Some(freshness_label(v.display_state)),
        evidence_updated_at_ms: Some(
            match v.evidence_watermark_ms {
                Some(t) => t,
                None => match capture_at {
                    Some(t) => t,
                    None => updated_at,
                },
            },
        ),
        decision_updated_at_ms: Some(updated_at),
        continue_openable: Some(opens_target(v.available_actions)),
        resume_warning: match first_note(v) {
            Some(n) => clean_line(Some(n)),
            None => None,
        },
        island_continue_state: Some(v),
    }
}

/// Shows `island_state` in the snapshot.
fn show_state(
    snapshot: &mut SessionIslandSnapshot,
    island_state: IslandContinueState,
    decision_id: Option<String>,
    updated_at: i64,
)
    ensures
        same_capture_part(*old(snapshot), *final(snapshot)),
        continue_fields(*final(snapshot)) == shown_fields(
            island_state@,
            opt_str(decision_id),
            updated_at,
            old(snapshot).last_capture_at_ms,
        ),
        final(snapshot).island_continue_state == Some(island_state),
{
    let openable = island_state.allows_open_continue_target();
    proof {
        lemma_offers_open_view(island_state.available_actions@);
    }
    snapshot.continue_decision_id = decision_id;
    snapshot.continue_freshness = Some(continue_freshness_from_island_state(&island_state));
    snapshot.decision_updated_at_ms = Some(updated_at);
    snapshot.evidence_updated_at_ms = match island_state.evidence_watermark_ms {
        Some(t) => Some(t),
        None => match snapshot.last_capture_at_ms {
            Some(t) => Some(t),
            None => Some(updated_at),
        },
    };
    snapshot.continue_openable = Some(openable);
    snapshot.resume_source = Some(copy_str("continue"));
    snapshot.resume_model = None;
    snapshot.resume_response_id = None;
    snapshot.resume_headline = Some(copy_str(headline_from_island_state(&island_state)));
    snapshot.resume_detail = copy_opt_str(&island_state.next_action);
    snapshot.resume_point = match &island_state.resume_work_target {
        Some(t) => clean_one_line(Some(t.title.as_str())),
        None => match &island_state.return_target {
            Some(t) => clean_one_line(Some(t.title.as_str())),
            None => None,
        },
    };
    proof {
        assert(island_state@.missing_evidence.len() == island_state.missing_evidence@.len());
        assert(island_state@.warnings.len() == island_state.warnings@.len());
    }
    snapshot.resume_warning = if island_state.missing_evidence.len() > 0 {
        assert(island_state@.missing_evidence[0] == island_state.missing_evidence@[0]@);
        clean_one_line(Some(island_state.missing_evidence[0].as_str()))
    } else if island_state.warnings.len() > 0 {
        assert(island_state@.warnings[0] == island_state.warnings@[0]@);
        clean_one_line(Some(island_state.warnings[0].as_str()))
    } else {
        None
    };
    snapshot.island_continue_state = Some(island_state);
}

/// Shows a Continue state in the snapshot.
pub fn apply_island_continue_state_to_snapshot(
    snapshot: &mut SessionIslandSnapshot,
    island_state: &IslandContinueState,
)
    ensures
        same_capture_part(*old(snapshot), *final(snapshot)),
        continue_fields(*final(snapshot)) == shown_fields(
            island_state@,
            island_state@.decision_id,
            island_state.generated_at_ms,
            old(snapshot).last_capture_at_ms,
        ),
{
    let id = copy_opt_str(&island_state.decision_id);
    let copy = island_state.copy();
    show_state(snapshot, copy, id, island_state.generated_at_ms);
}

/// The freshness of a decision made from a snapshot at `now_ms`.
pub open spec fn decision_freshness(capture_at: Option<i64>, d: ContinueDecisionResult, now_ms: i64) -> IslandFreshness {
    IslandFreshness {
        evidence_watermark_ms: match ledger_ms(d) {
            Some(t) => Some(t),
            None => capture_at,
        },
        newest_evidence_ms: capture_at,
        decision_updated_at_ms: Some(now_ms),
        decision_stale: false,
    }
}

/// Local memory as a snapshot shows it.
pub open spec fn snapshot_context(s: SessionIslandSnapshot) -> IslandStateContext {
    IslandStateContext {
        local_memory_running: s.state == SessionIslandState::RecordingCompact || s.state
            == SessionIslandState::RecordingExpanded,
        has_local_memory: s.frame_count > 0 || s.event_count > 0 || s.trail_moment_count > 0,
    }
}

/// The island remembers a decision together with the snapshot that showed it.
pub open spec fn remembers(
    m: RememberedContinueIslandState,
    d: ContinueDecisionResult,
    s: SessionIslandSnapshot,
    freshness: Seq<char>,
    openable: bool,
    state: StateView,
) -> bool {
    &&& opt_str(m.session_id) == opt_str(s.session_id)
    &&& m.decision_id@ == d.decision_id@
    &&& m.request_trigger@ == d.request_trigger@
    &&& opt_str(m.task_turn_id) == match d.current_task_turn {
        Some(t) => Some(t.task_turn_id@),
        None => None,
    }
    &&& m.task_turn_revision == match d.current_task_turn {
        Some(t) => Some(t.revision),
        None => None,
    }
    &&& m.task_confidence_permille == d.task_confidence_permille
    &&& m.wording_source@ == d.wording_source@
    &&& m.target_selection_source@ == d.target_selection_source@
    &&& opt_str(m.resume_headline) == opt_str(s.resume_headline)
    &&& opt_str(m.resume_detail) == opt_str(s.resume_detail)
    &&& opt_str(m.resume_point) == opt_str(s.resume_point)
    &&& opt_str(m.resume_warning) == opt_str(s.resume_warning)
    &&& m.continue_freshness@ == freshness
    &&& m.evidence_updated_at_ms == s.evidence_updated_at_ms
    &&& m.decision_updated_at_ms == s.decision_updated_at_ms
    &&& m.continue_openable == openable
    &&& m.feedback_or_open_watermark_ms is None
    &&& m.frame_count == s.frame_count
    &&& m.signal_count == s.trail_moment_count
    &&& m.event_count == s.event_count
    &&& m.island_continue_state@ == state
}

/// What the island remembers of a decision that a snapshot shows.
pub fn remember_continue_decision_from_snapshot(
    decision: &ContinueDecisionResult,
    snapshot: &SessionIslandSnapshot,
    continue_freshness: String,
    continue_openable: bool,
    island_continue_state: IslandContinueState,
) -> (m: RememberedContinueIslandState)
    ensures
        remembers(
            m,
            *decision,
            *snapshot,
            continue_freshness@,
            continue_openable,
            island_continue_state@,
        ),
{
    RememberedContinueIslandState {
        session_id: copy_opt_str(&snapshot.session_id),
        decision_id: decision.decision_id.clone(),
        request_trigger: decision.request_trigger.clone(),
        task_turn_id: match &decision.current_task_turn {
            Some(t) => Some(t.task_turn_id.clone()),
            None => None,
        },
        task_turn_revision: match &decision.current_task_turn {
            Some(t) => Some(t.revision),
            None => None,
        },
        task_confidence_permille: decision.task_confidence_permille,
        wording_source: decision.wording_source.clone(),
        target_selection_source: decision.target_selection_source.clone(),
        resume_headline: copy_opt_str(&snapshot.resume_headline),
        resume_detail: copy_opt_str(&snapshot.resume_detail),
        resume_point: copy_opt_str(&snapshot.resume_point),
        resume_warning: copy_opt_str(&snapshot.resume_warning),
        continue_freshness,
        evidence_updated_at_ms: snapshot.evidence_updated_at_ms,
        decision_updated_at_ms: snapshot.decision_updated_at_ms,
        continue_openable,
        feedback_or_open_watermark_ms: None,
        frame_count: snapshot.frame_count,
        signal_count: snapshot.trail_moment_count,
        event_count: snapshot.event_count,
        island_continue_state,
    }
}

/// Shows a fresh Continue decision, made at `now_ms`, in the snapshot, and
/// returns what the island remembers of it.
pub fn apply_continue_decision_to_snapshot(
    snapshot: &mut SessionIslandSnapshot,
    decision: &ContinueDecisionResult,
    now_ms: i64,
) -> (m: RememberedContinueIslandState)
    requires
        anchor_count(*decision) < usize::MAX,
    ensures
        same_capture_part(*old(snapshot), *final(snapshot)),
        match final(snapshot).island_continue_state {
            Some(s) => {
                &&& island_state_of(
                    *decision,
                    decision_freshness(old(snapshot).last_capture_at_ms, *decision, now_ms),
                    snapshot_context(*old(snapshot)),
                    s,
                )
                &&& continue_fields(*final(snapshot)) == shown_fields(
                    s@,
                    Some(decision.decision_id@),
                    now_ms,
                    old(snapshot).last_capture_at_ms,
                )
                &&& remembers(
                    m,
                    *decision,
                    *final(snapshot),
                    freshness_label(s.display_state),
                    opens_target(s@.available_actions),
                    s@,
                )
            },
            None => false,
        },
{
    let freshness = IslandFreshness {
        evidence_watermark_ms: match decision_evidence_updated_at_ms(decision) {
            Some(t) => Some(t),
            None => snapshot.last_capture_at_ms,
        },
        newest_evidence_ms: snapshot.last_capture_at_ms,
        decision_updated_at_ms: Some(now_ms),
        decision_stale: false,
    };
    let context = IslandStateContext {
        local_memory_running: match snapshot.state {
            SessionIslandState::RecordingCompact | SessionIslandState::RecordingExpanded => true,
            _ => false,
        },
        has_local_memory: snapshot.frame_count > 0 || snapshot.event_count > 0
            || snapshot.trail_moment_count > 0,
    };
    let island_state = island_state_from_continue_decision(decision, freshness, context);
    let openable = island_state.allows_open_continue_target();
    proof {
        lemma_offers_open_view(island_state.available_actions@);
    }
    let freshness_copy = continue_freshness_from_island_state(&island_state);
    let kept = island_state.copy();
    show_state(snapshot, island_state, Some(decision.decision_id.clone()), now_ms);
    remember_continue_decision_from_snapshot(decision, snapshot, freshness_copy, openable, kept)
}

/// Feedback on a task that an island action records: its kind, the task
/// field it affects, and whether it names a hypothesis.
pub open spec fn scoped_feedback_of(kind: IslandActionKind) -> Option<(Seq<char>, Seq<char>, bool)> {
    match kind {
        IslandActionKind::ChooseTaskAlternative => Some(("corrected"@, "hypothesis"@, true)),
        IslandActionKind::RejectSelectedTask => Some(("rejected"@, "task_summary"@, false)),
        IslandActionKind::RejectTaskAlternative => Some(("rejected"@, "hypothesis"@, true)),
        IslandActionKind::MarkSupportingWork => Some(("supporting_work"@, "relationship"@, true)),
        IslandActionKind::MarkUnrelatedActivity => Some(
            ("unrelated_activity"@, "relationship"@, true),
        ),
        IslandActionKind::MarkTaskCompleted => Some(("completed"@, "task_status"@, true)),
        IslandActionKind::ReactivateTask => Some(("reactivated"@, "task_status"@, true)),
        _ => None,
    }
}

/// The task feedback an island action records, if it is task feedback.
pub fn scoped_task_feedback_contract(kind: &IslandActionKind) -> (r: Option<(&'static str, &'static str, bool)>)
    ensures
        match r {
            Some((k, f, h)) => scoped_feedback_of(*kind) == Some((k@, f@, h)),
            None => scoped_feedback_of(*kind) is None,
        },
{
    match kind {
        IslandActionKind::ChooseTaskAlternative => Some(("corrected", "hypothesis", true)),
        IslandActionKind::RejectSelectedTask => Some(("rejected", "task_summary", false)),
        IslandActionKind::RejectTaskAlternative => Some(("rejected", "hypothesis", true)),
        IslandActionKind::MarkSupportingWork => Some(("supporting_work", "relationship", true)),
        IslandActionKind::MarkUnrelatedActivity => Some(("unrelated_activity", "relationship", true)),
        IslandActionKind::MarkTaskCompleted => Some(("completed", "task_status", true)),
        IslandActionKind::ReactivateTask => Some(("reactivated", "task_status", true)),
        _ => None,
    }
}

/// A remembered decision shown next to newer evidence asks for a refresh
/// and never offers to open its target; without newer evidence it is shown
/// as remembered.
pub proof fn law_outdated_memory_never_opens(
    state: SessionIslandState,
    capture_at: Option<i64>,
    frames: u64,
    moments: u64,
    events: u64,
    before: ContinueFields,
    status: CaptureStatus,
    rem: RememberedContinueIslandState,
)
    requires
        !keeps_continue_part(state),
    ensures
        ({
            let f = applied_fields(state, capture_at, frames, moments, events, before, status, Some(rem));
            &&& has_new_evidence(capture_at, frames, moments, events, status, rem) ==> {
                &&& f.island_continue_state matches Some(v) && v.display_state
                    == IslandDisplayState::NeedsRefresh && v.decision_stale && !opens_target(
                    v.available_actions,
                )
                &&& f.continue_freshness == Some("new_evidence"@)
            }
            &&& !has_new_evidence(capture_at, frames, moments, events, status, rem) ==> {
                &&& f.island_continue_state == Some(rem.island_continue_state@)
                &&& f.continue_freshness == Some(rem.continue_freshness@)
            }
            &&& f.continue_decision_id == Some(rem.decision_id@)
        }),
{
    let v = refresh_actions();
    if opens_target(v) {
        let i = choose|i: int|
            0 <= i < v.len() && (#[trigger] v[i]).enabled && v[i].kind == IslandActionKind::OpenContinueTarget;
    }
}

} // verus!
