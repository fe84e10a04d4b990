//! The envelope the native panel sends when the user acts, and where each
//! action goes.
//!
//! The panel names its action on the wire; `native_action_route` decides
//! which island work answers it, with the fields that work needs. Every
//! wire action has a route in the island's route inventory.
use vstd::prelude::*;
use crate::action::{trimmed_id, trimmed_nonempty, IslandContinueActionInput};
use crate::contract::IslandActionKind;
use crate::history::{ContinueHistoryCursorV1, ContinueHistoryOutputV1, ContinueHistorySummaryV1};
use crate::inventory::{route_at, ROUTE_COUNT};
use crate::island::{IslandContinueHistoryOutput, IslandContinueHistoryPage, HISTORY_OUTPUT_SCHEMA, HISTORY_PAGE_SCHEMA};
use crate::text::{copy_str, opt_str, str_eq};

verus! {

/// The actions the native panel sends.
#[derive(Debug, Clone, Copy, PartialEq, Eq)]
pub enum SessionIslandActionKind {
    Continue,
    StartCapture,
    StopCapture,
    CaptureOnce,
    ReconstructTrail,
    ShowTrail,
    OpenResumePoint,
    PerformContinueAction,
    OpenMainWindow,
    ResumeMe,
    ToggleExpanded,
    Collapse,
    OpenContinueHistory,
    LoadOlderContinueHistory,
    RetryContinueHistory,
    SelectContinueHistoryOutput,
}

/// The wire name of a native action.
pub open spec fn wire_name(k: SessionIslandActionKind) -> Seq<char> {
    match k {
        SessionIslandActionKind::Continue => "continue"@,
        SessionIslandActionKind::StartCapture => "start_capture"@,
        SessionIslandActionKind::StopCapture => "stop_capture"@,
        SessionIslandActionKind::CaptureOnce => "capture_once"@,
        SessionIslandActionKind::ReconstructTrail => "reconstruct_trail"@,
        SessionIslandActionKind::ShowTrail => "show_trail"@,
        SessionIslandActionKind::OpenResumePoint => "open_resume_point"@,
        SessionIslandActionKind::PerformContinueAction => "perform_continue_action"@,
        SessionIslandActionKind::OpenMainWindow => "open_main_window"@,
        SessionIslandActionKind::ResumeMe => "resume_me"@,
        SessionIslandActionKind::ToggleExpanded => "toggle_expanded"@,
        SessionIslandActionKind::Collapse => "collapse"@,
        SessionIslandActionKind::OpenContinueHistory => "open_continue_history"@,
        SessionIslandActionKind::LoadOlderContinueHistory => "load_older_continue_history"@,
        SessionIslandActionKind::RetryContinueHistory => "retry_continue_history"@,
        SessionIslandActionKind::SelectContinueHistoryOutput => "select_continue_history_output"@,
    }
}

/// The route of the island's inventory that answers a native action.
pub open spec fn inventory_route(k: SessionIslandActionKind) -> Seq<char> {
    match k {
        SessionIslandActionKind::Continue => "native_action_continue"@,
        SessionIslandActionKind::StartCapture => "native_action_start_capture"@,
        SessionIslandActionKind::StopCapture => "native_action_stop_capture"@,
        SessionIslandActionKind::CaptureOnce => "native_action_capture_once"@,
        SessionIslandActionKind::ReconstructTrail => "native_action_reconstruct_trail"@,
        SessionIslandActionKind::ShowTrail => "native_action_show_trail"@,
        SessionIslandActionKind::OpenResumePoint => "native_action_open_resume_point"@,
        SessionIslandActionKind::PerformContinueAction => "native_action_perform_continue_action"@,
        SessionIslandActionKind::OpenMainWindow => "native_action_open_main_window"@,
        SessionIslandActionKind::ResumeMe => "native_action_resume_me"@,
        SessionIslandActionKind::ToggleExpanded => "native_action_toggle_expanded"@,
        SessionIslandActionKind::Collapse => "native_action_collapse"@,
        SessionIslandActionKind::OpenContinueHistory
        | SessionIslandActionKind::LoadOlderContinueHistory
        | SessionIslandActionKind::RetryContinueHistory
        | SessionIslandActionKind::SelectContinueHistoryOutput => "native_action_continue_history"@,
    }
}

impl SessionIslandActionKind {
    /// The wire name of this action.
    pub fn wire_name(&self) -> (s: &'static str)
        ensures
            s@ == wire_name(*self),
    {
        match self {
            SessionIslandActionKind::Continue => "continue",
            SessionIslandActionKind::StartCapture => "start_capture",
            SessionIslandActionKind::StopCapture => "stop_capture",
            SessionIslandActionKind::CaptureOnce => "capture_once",
            SessionIslandActionKind::ReconstructTrail => "reconstruct_trail",
            SessionIslandActionKind::ShowTrail => "show_trail",
            SessionIslandActionKind::OpenResumePoint => "open_resume_point",
            SessionIslandActionKind::PerformContinueAction => "perform_continue_action",
            SessionIslandActionKind::OpenMainWindow => "open_main_window",
            SessionIslandActionKind::ResumeMe => "resume_me",
            SessionIslandActionKind::ToggleExpanded => "toggle_expanded",
            SessionIslandActionKind::Collapse => "collapse",
            SessionIslandActionKind::OpenContinueHistory => "open_continue_history",
            SessionIslandActionKind::LoadOlderContinueHistory => "load_older_continue_history",
            SessionIslandActionKind::RetryContinueHistory => "retry_continue_history",
            SessionIslandActionKind::SelectContinueHistoryOutput => "select_continue_history_output",
        }
    }

    /// The native action with this wire name, if there is one.
    pub fn from_wire_name(name: &str) -> (r: Option<Self>)
        ensures
            match r {
                Some(k) => wire_name(k) == name@,
                None => forall|k: SessionIslandActionKind| wire_name(k) != name@,
            },
    {
        if str_eq(SessionIslandActionKind::Continue.wire_name(), name) {
            return Some(SessionIslandActionKind::Continue);
        }
        if str_eq(SessionIslandActionKind::StartCapture.wire_name(), name) {
            return Some(SessionIslandActionKind::StartCapture);
        }
        if str_eq(SessionIslandActionKind::StopCapture.wire_name(), name) {
            return Some(SessionIslandActionKind::StopCapture);
        }
        if str_eq(SessionIslandActionKind::CaptureOnce.wire_name(), name) {
            return Some(SessionIslandActionKind::CaptureOnce);
        }
        if str_eq(SessionIslandActionKind::ReconstructTrail.wire_name(), name) {
            return Some(SessionIslandActionKind::ReconstructTrail);
        }
        if str_eq(SessionIslandActionKind::ShowTrail.wire_name(), name) {
            return Some(SessionIslandActionKind::ShowTrail);
        }
        if str_eq(SessionIslandActionKind::OpenResumePoint.wire_name(), name) {
            return Some(SessionIslandActionKind::OpenResumePoint);
        }
        if str_eq(SessionIslandActionKind::PerformContinueAction.wire_name(), name) {
            return Some(SessionIslandActionKind::PerformContinueAction);
        }
        if str_eq(SessionIslandActionKind::OpenMainWindow.wire_name(), name) {
            return Some(SessionIslandActionKind::OpenMainWindow);
        }
        if str_eq(SessionIslandActionKind::ResumeMe.wire_name(), name) {
            return Some(SessionIslandActionKind::ResumeMe);
        }
        if str_eq(SessionIslandActionKind::ToggleExpanded.wire_name(), name) {
            return Some(SessionIslandActionKind::ToggleExpanded);
        }
        if str_eq(SessionIslandActionKind::Collapse.wire_name(), name) {
            return Some(SessionIslandActionKind::Collapse);
        }
        if str_eq(SessionIslandActionKind::OpenContinueHistory.wire_name(), name) {
            return Some(SessionIslandActionKind::OpenContinueHistory);
        }
        if str_eq(SessionIslandActionKind::LoadOlderContinueHistory.wire_name(), name) {
            return Some(SessionIslandActionKind::LoadOlderContinueHistory);
        }
        if str_eq(SessionIslandActionKind::RetryContinueHistory.wire_name(), name) {
            return Some(SessionIslandActionKind::RetryContinueHistory);
        }
        if str_eq(SessionIslandActionKind::SelectContinueHistoryOutput.wire_name(), name) {
            return Some(SessionIslandActionKind::SelectContinueHistoryOutput);
        }
        proof {
            assert forall|k: SessionIslandActionKind| wire_name(k) != name@ by {
                match k {
                    SessionIslandActionKind::Continue => {},
                    SessionIslandActionKind::StartCapture => {},
                    SessionIslandActionKind::StopCapture => {},
                    SessionIslandActionKind::CaptureOnce => {},
                    SessionIslandActionKind::ReconstructTrail => {},
                    SessionIslandActionKind::ShowTrail => {},
                    SessionIslandActionKind::OpenResumePoint => {},
                    SessionIslandActionKind::PerformContinueAction => {},
                    SessionIslandActionKind::OpenMainWindow => {},
                    SessionIslandActionKind::ResumeMe => {},
                    SessionIslandActionKind::ToggleExpanded => {},
                    SessionIslandActionKind::Collapse => {},
                    SessionIslandActionKind::OpenContinueHistory => {},
                    SessionIslandActionKind::LoadOlderContinueHistory => {},
                    SessionIslandActionKind::RetryContinueHistory => {},
                    SessionIslandActionKind::SelectContinueHistoryOutput => {},
                }
            }
        }
        None
    }

    /// The inventory route that answers this action.
    pub fn inventory_route(&self) -> (s: &'static str)
        ensures
            s@ == inventory_route(*self),
    {
        match self {
            SessionIslandActionKind::Continue => "native_action_continue",
            SessionIslandActionKind::StartCapture => "native_action_start_capture",
            SessionIslandActionKind::StopCapture => "native_action_stop_capture",
            SessionIslandActionKind::CaptureOnce => "native_action_capture_once",
            SessionIslandActionKind::ReconstructTrail => "native_action_reconstruct_trail",
            SessionIslandActionKind::ShowTrail => "native_action_show_trail",
            SessionIslandActionKind::OpenResumePoint => "native_action_open_resume_point",
            SessionIslandActionKind::PerformContinueAction => "native_action_perform_continue_action",
            SessionIslandActionKind::OpenMainWindow => "native_action_open_main_window",
            SessionIslandActionKind::ResumeMe => "native_action_resume_me",
            SessionIslandActionKind::ToggleExpanded => "native_action_toggle_expanded",
            SessionIslandActionKind::Collapse => "native_action_collapse",
            SessionIslandActionKind::OpenContinueHistory
            | SessionIslandActionKind::LoadOlderContinueHistory
            | SessionIslandActionKind::RetryContinueHistory
            | SessionIslandActionKind::SelectContinueHistoryOutput => "native_action_continue_history",
        }
    }
}

/// The wire name of a typed Continue action.
pub open spec fn action_kind_name(k: IslandActionKind) -> Seq<char> {
    match k {
        IslandActionKind::RefreshContinue => "refresh_continue"@,
        IslandActionKind::OpenContinueTarget => "open_continue_target"@,
        IslandActionKind::MarkWrongTarget => "mark_wrong_target"@,
        IslandActionKind::MarkNotUseful => "mark_not_useful"@,
        IslandActionKind::ChooseTaskAlternative => "choose_task_alternative"@,
        IslandActionKind::RejectSelectedTask => "reject_selected_task"@,
        IslandActionKind::RejectTaskAlternative => "reject_task_alternative"@,
        IslandActionKind::MarkSupportingWork => "mark_supporting_work"@,
        IslandActionKind::MarkUnrelatedActivity => "mark_unrelated_activity"@,
        IslandActionKind::MarkTaskCompleted => "mark_task_completed"@,
        IslandActionKind::ReactivateTask => "reactivate_task"@,
        IslandActionKind::InspectEvidence => "inspect_evidence"@,
        IslandActionKind::OpenSmalltalk => "open_smalltalk"@,
        IslandActionKind::StartLocalMemory => "start_local_memory"@,
        IslandActionKind::CaptureEvidenceNow => "capture_evidence_now"@,
    }
}

impl IslandActionKind {
    /// The wire name of this action.
    pub fn wire_name(&self) -> (s: &'static str)
        ensures
            s@ == action_kind_name(*self),
    {
        match self {
            IslandActionKind::RefreshContinue => "refresh_continue",
            IslandActionKind::OpenContinueTarget => "open_continue_target",
            IslandActionKind::MarkWrongTarget => "mark_wrong_target",
            IslandActionKind::MarkNotUseful => "mark_not_useful",
            IslandActionKind::ChooseTaskAlternative => "choose_task_alternative",
            IslandActionKind::RejectSelectedTask => "reject_selected_task",
            IslandActionKind::RejectTaskAlternative => "reject_task_alternative",
            IslandActionKind::MarkSupportingWork => "mark_supporting_work",
            IslandActionKind::MarkUnrelatedActivity => "mark_unrelated_activity",
            IslandActionKind::MarkTaskCompleted => "mark_task_completed",
            IslandActionKind::ReactivateTask => "reactivate_task",
            IslandActionKind::InspectEvidence => "inspect_evidence",
            IslandActionKind::OpenSmalltalk => "open_smalltalk",
            IslandActionKind::StartLocalMemory => "start_local_memory",
            IslandActionKind::CaptureEvidenceNow => "capture_evidence_now",
        }
    }

    /// The typed action with this wire name, if there is one.
    pub fn from_wire_name(name: &str) -> (r: Option<Self>)
        ensures
            match r {
                Some(k) => action_kind_name(k) == name@,
                None => forall|k: IslandActionKind| action_kind_name(k) != name@,
            },
    {
        if str_eq(IslandActionKind::RefreshContinue.wire_name(), name) {
            return Some(IslandActionKind::RefreshContinue);
        }
        if str_eq(IslandActionKind::OpenContinueTarget.wire_name(), name) {
            return Some(IslandActionKind::OpenContinueTarget);
        }
        if str_eq(IslandActionKind::MarkWrongTarget.wire_name(), name) {
            return Some(IslandActionKind::MarkWrongTarget);
        }
        if str_eq(IslandActionKind::MarkNotUseful.wire_name(), name) {
            return Some(IslandActionKind::MarkNotUseful);
        }
        if str_eq(IslandActionKind::ChooseTaskAlternative.wire_name(), name) {
            return Some(IslandActionKind::ChooseTaskAlternative);
        }
        if str_eq(IslandActionKind::RejectSelectedTask.wire_name(), name) {
            return Some(IslandActionKind::RejectSelectedTask);
        }
        if str_eq(IslandActionKind::RejectTaskAlternative.wire_name(), name) {
            return Some(IslandActionKind::RejectTaskAlternative);
        }
        if str_eq(IslandActionKind::MarkSupportingWork.wire_name(), name) {
            return Some(IslandActionKind::MarkSupportingWork);
        }
        if str_eq(IslandActionKind::MarkUnrelatedActivity.wire_name(), name) {
            return Some(IslandActionKind::MarkUnrelatedActivity);
        }
        if str_eq(IslandActionKind::MarkTaskCompleted.wire_name(), name) {
            return Some(IslandActionKind::MarkTaskCompleted);
        }
        if str_eq(IslandActionKind::ReactivateTask.wire_name(), name) {
            return Some(IslandActionKind::ReactivateTask);
        }
        if str_eq(IslandActionKind::InspectEvidence.wire_name(), name) {
            return Some(IslandActionKind::InspectEvidence);
        }
        if str_eq(IslandActionKind::OpenSmalltalk.wire_name(), name) {
            return Some(IslandActionKind::OpenSmalltalk);
        }
        if str_eq(IslandActionKind::StartLocalMemory.wire_name(), name) {
            return Some(IslandActionKind::StartLocalMemory);
        }
        if str_eq(IslandActionKind::CaptureEvidenceNow.wire_name(), name) {
            return Some(IslandActionKind::CaptureEvidenceNow);
        }
        proof {
            assert forall|k: IslandActionKind| action_kind_name(k) != name@ by {
                match k {
                    IslandActionKind::RefreshContinue => {},
                    IslandActionKind::OpenContinueTarget => {},
                    IslandActionKind::MarkWrongTarget => {},
                    IslandActionKind::MarkNotUseful => {},
                    IslandActionKind::ChooseTaskAlternative => {},
                    IslandActionKind::RejectSelectedTask => {},
                    IslandActionKind::RejectTaskAlternative => {},
                    IslandActionKind::MarkSupportingWork => {},
                    IslandActionKind::MarkUnrelatedActivity => {},
                    IslandActionKind::MarkTaskCompleted => {},
                    IslandActionKind::ReactivateTask => {},
                    IslandActionKind::InspectEvidence => {},
                    IslandActionKind::OpenSmalltalk => {},
                    IslandActionKind::StartLocalMemory => {},
                    IslandActionKind::CaptureEvidenceNow => {},
                }
            }
        }
        None
    }
}

/// Every native action is answered by a route of the island's inventory.
pub proof fn law_native_actions_are_inventoried(k: SessionIslandActionKind)
    ensures
        exists|i: int| 0 <= i < ROUTE_COUNT && (#[trigger] route_at(i)).route_name == inventory_route(k),
{
    let i: int = match k {
        SessionIslandActionKind::Continue => 0,
        SessionIslandActionKind::PerformContinueAction => 1,
        SessionIslandActionKind::OpenResumePoint => 3,
        SessionIslandActionKind::OpenMainWindow => 4,
        SessionIslandActionKind::StartCapture => 5,
        SessionIslandActionKind::StopCapture => 6,
        SessionIslandActionKind::CaptureOnce => 7,
        SessionIslandActionKind::ShowTrail => 8,
        SessionIslandActionKind::ReconstructTrail => 9,
        SessionIslandActionKind::ResumeMe => 10,
        SessionIslandActionKind::ToggleExpanded => 12,
        SessionIslandActionKind::Collapse => 13,
        _ => 11,
    };
    assert(route_at(i).route_name == inventory_route(k));
}

/// What the native panel sends when the user acts.
#[derive(Debug, Clone, PartialEq, Eq)]
pub struct SessionIslandAction {
    pub action: SessionIslandActionKind,
    pub action_kind: Option<IslandActionKind>,
    pub decision_id: Option<String>,
    pub source: Option<String>,
    pub trace_id: Option<String>,
    pub task_snapshot_id: Option<String>,
    pub task_snapshot_revision: Option<i64>,
    pub affected_task_field: Option<String>,
    pub task_hypothesis_id: Option<String>,
    pub history_cursor: Option<ContinueHistoryCursorV1>,
    pub history_request_id: Option<u64>,
}

/// The island work that answers a native action.
pub enum NativeActionRoute {
    /// Ask for Continue.
    Continue,
    StartCapture,
    StopCapture,
    CaptureOnce,
    OpenMainWindow,
    /// The deprecated resume action is blocked: only the main window opens.
    BlockedResumeMe,
    /// Open the Continue target of a decision; the main window opens when
    /// the target does not.
    OpenResumePoint(IslandContinueActionInput),
    /// A typed Continue action.
    Perform(IslandContinueActionInput),
    /// A typed Continue action that does not say which: the main window
    /// opens.
    MissingActionKind,
    ToggleExpanded,
    Collapse,
    /// Load a page of Continue history.
    LoadHistory { cursor: Option<ContinueHistoryCursorV1>, request_id: u64 },
    /// Show one saved Continue output.
    SelectHistoryOutput { decision_id: Option<String>, request_id: u64 },
}

/// The source a native action reports, or the native callback by default.
pub open spec fn native_source(o: Option<Seq<char>>) -> Seq<char> {
    match o {
        Some(s) => s,
        None => "native_callback"@,
    }
}

/// The typed input of a native action: its decision, source and trace,
/// with the task fields of the action when `with_task`, else none.
pub open spec fn typed_input(
    i: IslandContinueActionInput,
    kind: IslandActionKind,
    a: SessionIslandAction,
    with_task: bool,
) -> bool {
    &&& i.action_kind == kind
    &&& opt_str(i.decision_id) == opt_str(a.decision_id)
    &&& opt_str(i.source) == Some(native_source(opt_str(a.source)))
    &&& opt_str(i.trace_id) == opt_str(a.trace_id)
    &&& if with_task {
        &&& opt_str(i.task_snapshot_id) == opt_str(a.task_snapshot_id)
        &&& i.task_snapshot_revision == a.task_snapshot_revision
        &&& opt_str(i.affected_task_field) == opt_str(a.affected_task_field)
        &&& opt_str(i.task_hypothesis_id) == opt_str(a.task_hypothesis_id)
    } else {
        &&& i.task_snapshot_id is None
        &&& i.task_snapshot_revision is None
        &&& i.affected_task_field is None
        &&& i.task_hypothesis_id is None
    }
}

/// The request id of a history action, zero when the panel gave none.
pub open spec fn request_id_of(o: Option<u64>) -> u64 {
    match o {
        Some(n) => n,
        None => 0,
    }
}

/// The source a native action reports, or the native callback by default.
fn source_or_native(source: Option<String>) -> (r: Option<String>)
    ensures
        opt_str(r) == Some(native_source(opt_str(source))),
{
    match source {
        Some(s) => Some(s),
        None => Some(copy_str("native_callback")),
    }
}

/// Which island work answers a native action, with the fields it needs.
pub fn native_action_route(action: SessionIslandAction) -> (r: NativeActionRoute)
    ensures
        match action.action {
            SessionIslandActionKind::StartCapture => r is StartCapture,
            SessionIslandActionKind::StopCapture => r is StopCapture,
            SessionIslandActionKind::CaptureOnce => r is CaptureOnce,
            SessionIslandActionKind::Continue | SessionIslandActionKind::ReconstructTrail => r is Continue,
            SessionIslandActionKind::ShowTrail | SessionIslandActionKind::OpenMainWindow => r is OpenMainWindow,
            SessionIslandActionKind::ResumeMe => r is BlockedResumeMe,
            SessionIslandActionKind::OpenResumePoint => r matches NativeActionRoute::OpenResumePoint(i)
                && typed_input(i, IslandActionKind::OpenContinueTarget, action, false),
            SessionIslandActionKind::PerformContinueAction => match action.action_kind {
                Some(kind) => r matches NativeActionRoute::Perform(i) && typed_input(i, kind, action, true),
                None => r is MissingActionKind,
            },
            SessionIslandActionKind::ToggleExpanded => r is ToggleExpanded,
            SessionIslandActionKind::Collapse => r is Collapse,
            SessionIslandActionKind::OpenContinueHistory
            | SessionIslandActionKind::RetryContinueHistory => r matches NativeActionRoute::LoadHistory { cursor, request_id }
                && cursor is None && request_id == request_id_of(action.history_request_id),
            SessionIslandActionKind::LoadOlderContinueHistory => r matches NativeActionRoute::LoadHistory { cursor, request_id }
                && cursor == action.history_cursor && request_id == request_id_of(action.history_request_id),
            SessionIslandActionKind::SelectContinueHistoryOutput => r matches NativeActionRoute::SelectHistoryOutput { decision_id, request_id }
                && opt_str(decision_id) == trimmed_id(opt_str(action.decision_id))
                && request_id == request_id_of(action.history_request_id),
        },
{
    let request_id = match action.history_request_id {
        Some(n) => n,
        None => 0,
    };
    match action.action {
        SessionIslandActionKind::StartCapture => NativeActionRoute::StartCapture,
        SessionIslandActionKind::StopCapture => NativeActionRoute::StopCapture,
        SessionIslandActionKind::CaptureOnce => NativeActionRoute::CaptureOnce,
        SessionIslandActionKind::Continue | SessionIslandActionKind::ReconstructTrail => NativeActionRoute::Continue,
        SessionIslandActionKind::ShowTrail | SessionIslandActionKind::OpenMainWindow => NativeActionRoute::OpenMainWindow,
        SessionIslandActionKind::ResumeMe => NativeActionRoute::BlockedResumeMe,
        SessionIslandActionKind::OpenResumePoint => NativeActionRoute::OpenResumePoint(
            IslandContinueActionInput {
                action_kind: IslandActionKind::OpenContinueTarget,
                decision_id: action.decision_id,
                source: source_or_native(action.source),
                trace_id: action.trace_id,
                task_snapshot_id: None,
                task_snapshot_revision: None,
                affected_task_field: None,
                task_hypothesis_id: None,
            },
        ),
        SessionIslandActionKind::PerformContinueAction => match action.action_kind {
            Some(kind) => NativeActionRoute::Perform(
                IslandContinueActionInput {
                    action_kind: kind,
                    decision_id: action.decision_id,
                    source: source_or_native(action.source),
                    trace_id: action.trace_id,
                    task_snapshot_id: action.task_snapshot_id,
                    task_snapshot_revision: action.task_snapshot_revision,
                    affected_task_field: action.affected_task_field,
                    task_hypothesis_id: action.task_hypothesis_id,
                },
            ),
            None => NativeActionRoute::MissingActionKind,
        },
        SessionIslandActionKind::ToggleExpanded => NativeActionRoute::ToggleExpanded,
        SessionIslandActionKind::Collapse => NativeActionRoute::Collapse,
        SessionIslandActionKind::OpenContinueHistory
        | SessionIslandActionKind::RetryContinueHistory => NativeActionRoute::LoadHistory {
            cursor: None,
            request_id,
        },
        SessionIslandActionKind::LoadOlderContinueHistory => NativeActionRoute::LoadHistory {
            cursor: action.history_cursor,
            request_id,
        },
        SessionIslandActionKind::SelectContinueHistoryOutput => NativeActionRoute::SelectHistoryOutput {
            decision_id: trimmed_nonempty(&action.decision_id),
            request_id,
        },
    }
}

/// The history page shown for a listing: the page listed, or an empty page
/// that says history is unavailable.
pub fn history_page_result(
    request_id: u64,
    listed: Result<(Vec<ContinueHistorySummaryV1>, Option<ContinueHistoryCursorV1>), String>,
) -> (r: IslandContinueHistoryPage)
    ensures
        r.schema@ == HISTORY_PAGE_SCHEMA@,
        r.request_id == request_id,
        match listed {
            Ok((items, next_cursor)) => r.items == items && r.next_cursor == next_cursor
                && r.error is None,
            Err(_) => r.items@.len() == 0 && r.next_cursor is None && opt_str(r.error) == Some(
                "History unavailable"@,
            ),
        },
{
    match listed {
        Ok((items, next_cursor)) => IslandContinueHistoryPage::ready(items, next_cursor, request_id),
        Err(_) => IslandContinueHistoryPage::error(request_id, copy_str("History unavailable")),
    }
}

/// The saved output shown for a selection: the output found for the
/// selected decision, or an empty output that says it is unavailable.
pub fn history_output_result(
    decision_id: Option<String>,
    request_id: u64,
    found: Result<Option<ContinueHistoryOutputV1>, String>,
) -> (r: IslandContinueHistoryOutput)
    ensures
        r.schema@ == HISTORY_OUTPUT_SCHEMA@,
        r.request_id == request_id,
        match (decision_id, found) {
            (Some(_), Ok(Some(o))) => r.decision_id == o.decision_id && r.created_at_ms
                == o.created_at_ms && r.origin == o.origin && r.title == o.title && r.rows == o.rows
                && r.error is None,
            _ => r.decision_id@ == (match decision_id {
                Some(d) => d@,
                None => Seq::<char>::empty(),
            }) && r.created_at_ms == 0 && r.rows@.len() == 0 && opt_str(r.error) == Some(
                "Saved answer unavailable"@,
            ),
        },
{
    if decision_id.is_some() {
        if let Ok(Some(output)) = found {
            return IslandContinueHistoryOutput::ready(output, request_id);
        }
    }
    IslandContinueHistoryOutput::error(decision_id, request_id, copy_str("Saved answer unavailable"))
}

} // verus!
