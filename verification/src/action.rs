//! The island's typed Continue actions: refresh, open the Continue target,
//! feedback on the answer or on the task, open Smalltalk, and start or take
//! local memory.
//!
//! An action runs in steps around the services it needs. `plan_island_action`
//! checks the input and names the first step; the driver performs it (asks
//! the gateway, records the feedback, opens the target) and hands the
//! outcome to the function the step names, which builds the action's
//! result.
use vstd::prelude::*;
use crate::capture::{copy_opt_str, OpenResumePointInput, OpenResumePointResult};
use crate::contract::{offers_open, IslandActionKind, IslandContinueState, IslandDisplayState};
use crate::gateway::{IslandContinueReason, IslandContinueStateInput};
use crate::island::scoped_feedback_of;
use crate::request::ContinueExplicitFeedbackRequest;
use crate::text::{
    copy_str, is_blank, opt_str, push_string, starts_with, str_eq, str_is_blank,
    str_starts_with, str_trim, strs, trim,
};

verus! {

/// What the panel asks an island action to do.
#[derive(Debug, Clone, PartialEq, Eq)]
pub struct IslandContinueActionInput {
    pub action_kind: IslandActionKind,
    pub decision_id: Option<String>,
    pub source: Option<String>,
    pub trace_id: Option<String>,
    pub task_snapshot_id: Option<String>,
    pub task_snapshot_revision: Option<i64>,
    pub affected_task_field: Option<String>,
    pub task_hypothesis_id: Option<String>,
}

/// What an island action did.
#[derive(Debug, Clone)]
pub struct IslandContinueActionResult {
    pub action_kind: IslandActionKind,
    pub decision_id: Option<String>,
    pub opened: bool,
    pub open_strategy: Option<String>,
    pub refreshed_state: Option<IslandContinueState>,
    pub warnings: Vec<String>,
}

/// Work an action leaves to the app, with no outcome to wait for.
#[derive(Debug, Clone, Copy, PartialEq, Eq)]
pub enum IslandActionEffect {
    OpenSmalltalk,
    StartLocalMemory,
    CaptureEvidenceNow,
}

/// The first step of an island action.
pub enum IslandActionStep {
    /// Ask the gateway with `input`; build the result with
    /// `refreshed_action_result`.
    Refresh { input: IslandContinueStateInput },
    /// Record `request`, then ask the gateway with `refresh`; build the
    /// result with `feedback_action_result`.
    RecordFeedback {
        kind: IslandActionKind,
        request: ContinueExplicitFeedbackRequest,
        refresh: IslandContinueStateInput,
        strategy: String,
        warnings: Vec<String>,
    },
    /// Ask the gateway with `check` for the state of `decision_id`, and
    /// weigh it with `open_gate`.
    CheckOpen { decision_id: String, check: IslandContinueStateInput },
    /// Perform `effect`, if any, and answer with `result`.
    Done { result: IslandContinueActionResult, effect: Option<IslandActionEffect> },
}

/// Whether an open may go ahead once the gateway answered.
#[derive(Debug, Clone, Copy, PartialEq, Eq)]
pub enum OpenGate {
    /// Open the target.
    Open,
    /// Do not open; when `refresh_first`, show a freshly refreshed state,
    /// else the state the gateway gave.
    Blocked { refresh_first: bool },
}

/// An optional id, trimmed, when something is left of it.
pub open spec fn trimmed_id(o: Option<Seq<char>>) -> Option<Seq<char>> {
    match o {
        Some(s) => if trim(s).len() == 0 {
            None
        } else {
            Some(trim(s))
        },
        None => None,
    }
}

/// The gateway request of a user who pressed Continue (asking for a new
/// decision).
pub open spec fn user_continue(i: IslandContinueStateInput, id: Option<Seq<char>>) -> bool {
    &&& i.reason == IslandContinueReason::UserPressedContinue
    &&& opt_str(i.existing_decision_id) == id
    &&& i.allow_refresh
    &&& i.force_refresh
    &&& opt_str(i.source) == Some("native_island"@)
}

/// The gateway request that follows recorded feedback.
pub open spec fn after_feedback(i: IslandContinueStateInput, id: Option<Seq<char>>) -> bool {
    &&& i.reason == IslandContinueReason::EvidenceChanged
    &&& opt_str(i.existing_decision_id) == id
    &&& i.allow_refresh
    &&& i.force_refresh
    &&& opt_str(i.source) == Some("island_primary"@)
}

/// The gateway request that checks a decision before opening its target:
/// no new decision is asked for.
pub open spec fn open_check(i: IslandContinueStateInput, id: Seq<char>) -> bool {
    &&& i.reason == IslandContinueReason::UserPressedContinue
    &&& opt_str(i.existing_decision_id) == Some(id)
    &&& !i.allow_refresh
    &&& !i.force_refresh
    &&& opt_str(i.source) == Some("island_primary"@)
}

/// Feedback on a decision's answer from the island's primary surface.
pub open spec fn answer_feedback(
    r: ContinueExplicitFeedbackRequest,
    id: Option<Seq<char>>,
    kind: Seq<char>,
) -> bool {
    &&& opt_str(r.decision_id) == id
    &&& r.selected_candidate_id is None
    &&& r.workstream_id is None
    &&& r.target_artifact_id is None
    &&& r.corrected_artifact_id is None
    &&& r.feedback_kind@ == kind
    &&& r.note is None
    &&& opt_str(r.source) == Some("island_primary"@)
    &&& r.task_snapshot_id is None
    &&& r.task_snapshot_revision is None
    &&& r.affected_task_field is None
    &&& r.task_hypothesis_id is None
}

/// Why scoped task feedback cannot be recorded, checked in this order; none
/// when it can.
pub open spec fn scoped_error(input: IslandContinueActionInput) -> Option<Seq<char>> {
    match scoped_feedback_of(input.action_kind) {
        None => Some("island action is not scoped task feedback"@),
        Some((_, field, needs_hypothesis)) => if trimmed_id(opt_str(input.task_snapshot_id))
            is None {
            Some("scoped island task feedback requires snapshot id"@)
        } else if !(input.task_snapshot_revision matches Some(n) && n > 0) {
            Some("scoped island task feedback requires snapshot revision"@)
        } else if opt_str(input.affected_task_field) != Some(field) {
            Some("scoped island task feedback field does not match its action"@)
        } else if needs_hypothesis && (match input.task_hypothesis_id {
            Some(h) => is_blank(h@),
            None => true,
        }) {
            Some("scoped island task feedback requires hypothesis id"@)
        } else {
            None
        },
    }
}

/// Scoped task feedback for a checked input.
pub open spec fn task_feedback(r: ContinueExplicitFeedbackRequest, input: IslandContinueActionInput) -> bool {
    match scoped_feedback_of(input.action_kind) {
        Some((kind, field, _)) => {
            &&& opt_str(r.decision_id) == trimmed_id(opt_str(input.decision_id))
            &&& r.selected_candidate_id is None
            &&& r.workstream_id is None
            &&& r.target_artifact_id is None
            &&& r.corrected_artifact_id is None
            &&& r.feedback_kind@ == kind
            &&& r.note is None
            &&& opt_str(r.source) == Some("island_primary"@)
            &&& opt_str(r.task_snapshot_id) == trimmed_id(opt_str(input.task_snapshot_id))
            &&& r.task_snapshot_revision == input.task_snapshot_revision
            &&& opt_str(r.affected_task_field) == Some(field)
            &&& opt_str(r.task_hypothesis_id) == opt_str(input.task_hypothesis_id)
        },
        None => false,
    }
}

/// A result that opened nothing, refreshed nothing and warns of nothing.
pub open spec fn quiet_result(
    r: IslandContinueActionResult,
    kind: IslandActionKind,
    id: Option<Seq<char>>,
    strategy: Seq<char>,
) -> bool {
    &&& r.action_kind == kind
    &&& opt_str(r.decision_id) == id
    &&& !r.opened
    &&& opt_str(r.open_strategy) == Some(strategy)
    &&& r.refreshed_state is None
    &&& r.warnings@.len() == 0
}

/// The warning of an open asked for without a decision id.
pub open spec fn missing_id_warning() -> Seq<char> {
    "blocked_by_continue_policy:island_primary_requires_continue_decision_id"@
}

/// The warning of an open whose decision may not be opened.
pub open spec fn not_openable_warning() -> Seq<char> {
    "blocked_by_continue_policy:island_primary_state_not_openable"@
}

/// An optional id, trimmed, when something is left of it.
pub fn trimmed_nonempty(o: &Option<String>) -> (r: Option<String>)
    ensures
        opt_str(r) == trimmed_id(opt_str(*o)),
{
    match o {
        Some(s) => {
            let t = str_trim(s.as_str());
            if t.as_str().is_empty() {
                None
            } else {
                Some(t)
            }
        },
        None => None,
    }
}

/// A gateway request with every field given.
fn state_input(
    reason: IslandContinueReason,
    existing_decision_id: Option<String>,
    refresh: bool,
    source: &str,
) -> (r: IslandContinueStateInput)
    ensures
        r.reason == reason,
        r.existing_decision_id == existing_decision_id,
        r.allow_refresh == refresh,
        r.force_refresh == refresh,
        opt_str(r.source) == Some(source@),
{
    IslandContinueStateInput {
        reason,
        existing_decision_id,
        allow_refresh: refresh,
        force_refresh: refresh,
        source: Some(copy_str(source)),
    }
}

/// A result that opened nothing, refreshed nothing and warns of nothing.
fn quiet(kind: IslandActionKind, decision_id: Option<String>, strategy: &str) -> (r: IslandContinueActionResult)
    ensures
        quiet_result(r, kind, opt_str(decision_id), strategy@),
{
    IslandContinueActionResult {
        action_kind: kind,
        decision_id,
        opened: false,
        open_strategy: Some(copy_str(strategy)),
        refreshed_state: None,
        warnings: Vec::new(),
    }
}

/// Feedback on a decision's answer.
fn answer_feedback_request(decision_id: Option<String>, kind: &str) -> (r: ContinueExplicitFeedbackRequest)
    ensures
        answer_feedback(r, opt_str(decision_id), kind@),
{
    ContinueExplicitFeedbackRequest {
        decision_id,
        selected_candidate_id: None,
        workstream_id: None,
        target_artifact_id: None,
        corrected_artifact_id: None,
        feedback_kind: copy_str(kind),
        note: None,
        source: Some(copy_str("island_primary")),
        task_snapshot_id: None,
        task_snapshot_revision: None,
        affected_task_field: None,
        task_hypothesis_id: None,
    }
}

/// The task feedback an input asks to record, or why it cannot be.
pub fn scoped_feedback_request(input: &IslandContinueActionInput) -> (r: Result<
    ContinueExplicitFeedbackRequest,
    String,
>)
    ensures
        match r {
            Ok(req) => scoped_error(*input) is None && task_feedback(req, *input),
            Err(e) => scoped_error(*input) == Some(e@),
        },
{
    let (feedback_kind, expected_field, hypothesis_required) = match crate::island::scoped_task_feedback_contract(
        &input.action_kind,
    ) {
        Some(c) => c,
        None => {
            return Err(copy_str("island action is not scoped task feedback"));
        },
    };
    let snapshot_id = match trimmed_nonempty(&input.task_snapshot_id) {
        Some(s) => s,
        None => {
            return Err(copy_str("scoped island task feedback requires snapshot id"));
        },
    };
    let snapshot_revision = match input.task_snapshot_revision {
        Some(n) => if n > 0 {
            n
        } else {
            return Err(copy_str("scoped island task feedback requires snapshot revision"));
        },
        None => {
            return Err(copy_str("scoped island task feedback requires snapshot revision"));
        },
    };
    let field_matches = match &input.affected_task_field {
        Some(f) => str_eq(f.as_str(), expected_field),
        None => false,
    };
    if !field_matches {
        return Err(copy_str("scoped island task feedback field does not match its action"));
    }
    let hypothesis_missing = match &input.task_hypothesis_id {
        Some(h) => str_is_blank(h.as_str()),
        None => true,
    };
    if hypothesis_required && hypothesis_missing {
        return Err(copy_str("scoped island task feedback requires hypothesis id"));
    }
    Ok(ContinueExplicitFeedbackRequest {
        decision_id: trimmed_nonempty(&input.decision_id),
        selected_candidate_id: None,
        workstream_id: None,
        target_artifact_id: None,
        corrected_artifact_id: None,
        feedback_kind: copy_str(feedback_kind),
        note: None,
        source: Some(copy_str("island_primary")),
        task_snapshot_id: Some(snapshot_id),
        task_snapshot_revision: Some(snapshot_revision),
        affected_task_field: Some(copy_str(expected_field)),
        task_hypothesis_id: copy_opt_str(&input.task_hypothesis_id),
    })
}

/// The first step of an island action, or why it cannot be taken.
///
/// Refresh asks for a new decision; answer feedback and task feedback are
/// recorded and followed by a refresh; an open needs a decision id, which
/// is checked with the gateway before anything is opened; the rest answer
/// at once and leave their work to the app.
pub fn plan_island_action(input: IslandContinueActionInput) -> (r: Result<IslandActionStep, String>)
    ensures
        match input.action_kind {
            IslandActionKind::RefreshContinue => r matches Ok(IslandActionStep::Refresh { input: i })
                && user_continue(i, opt_str(input.decision_id)),
            IslandActionKind::OpenContinueTarget => match trimmed_id(opt_str(input.decision_id)) {
                Some(id) => r matches Ok(IslandActionStep::CheckOpen { decision_id, check })
                    && decision_id@ == id && open_check(check, id),
                None => r matches Ok(IslandActionStep::Done { result, effect: None })
                    && result.action_kind == IslandActionKind::OpenContinueTarget
                    && result.decision_id is None && !result.opened
                    && opt_str(result.open_strategy) == Some("blocked_by_continue_policy"@)
                    && result.refreshed_state is None
                    && strs(result.warnings@) == seq![missing_id_warning()],
            },
            IslandActionKind::MarkWrongTarget | IslandActionKind::MarkNotUseful => {
                let id = trimmed_id(opt_str(input.decision_id));
                let kind = if input.action_kind == IslandActionKind::MarkWrongTarget {
                    "rejected"@
                } else {
                    "ignored"@
                };
                let warning = if input.action_kind == IslandActionKind::MarkWrongTarget {
                    "island_wrong_target"@
                } else {
                    "island_not_useful"@
                };
                r matches Ok(IslandActionStep::RecordFeedback { kind: k, request, refresh, strategy, warnings })
                    && k == input.action_kind && answer_feedback(request, id, kind)
                    && after_feedback(refresh, id) && strategy@ == "feedback_recorded"@
                    && strs(warnings@) == seq![warning]
            },
            IslandActionKind::ChooseTaskAlternative
            | IslandActionKind::RejectSelectedTask
            | IslandActionKind::RejectTaskAlternative
            | IslandActionKind::MarkSupportingWork
            | IslandActionKind::MarkUnrelatedActivity
            | IslandActionKind::MarkTaskCompleted
            | IslandActionKind::ReactivateTask => match scoped_error(input) {
                Some(e) => r matches Err(m) && m@ == e,
                None => r matches Ok(IslandActionStep::RecordFeedback { kind: k, request, refresh, strategy, warnings })
                    && k == input.action_kind && task_feedback(request, input)
                    && after_feedback(refresh, trimmed_id(opt_str(input.decision_id)))
                    && strategy@ == "scoped_task_feedback_recorded"@
                    && warnings@.len() == 0,
            },
            IslandActionKind::InspectEvidence | IslandActionKind::OpenSmalltalk => r matches Ok(
                IslandActionStep::Done { result, effect: Some(IslandActionEffect::OpenSmalltalk) },
            ) && quiet_result(result, input.action_kind, opt_str(input.decision_id), "open_smalltalk"@),
            IslandActionKind::StartLocalMemory => r matches Ok(
                IslandActionStep::Done { result, effect: Some(IslandActionEffect::StartLocalMemory) },
            ) && quiet_result(result, input.action_kind, opt_str(input.decision_id), "start_local_memory"@),
            IslandActionKind::CaptureEvidenceNow => r matches Ok(
                IslandActionStep::Done { result, effect: Some(IslandActionEffect::CaptureEvidenceNow) },
            ) && quiet_result(result, input.action_kind, opt_str(input.decision_id), "capture_evidence_now"@),
        },
{
    match input.action_kind {
        IslandActionKind::RefreshContinue => Ok(IslandActionStep::Refresh {
            input: IslandContinueStateInput::for_user_continue(input.decision_id),
        }),
        IslandActionKind::OpenContinueTarget => match trimmed_nonempty(&input.decision_id) {
            Some(decision_id) => {
                let check = state_input(
                    IslandContinueReason::UserPressedContinue,
                    Some(decision_id.clone()),
                    false,
                    "island_primary",
                );
                Ok(IslandActionStep::CheckOpen { decision_id, check })
            },
            None => {
                let mut warnings: Vec<String> = Vec::new();
                push_string(
                    &mut warnings,
                    copy_str("blocked_by_continue_policy:island_primary_requires_continue_decision_id"),
                );
                Ok(IslandActionStep::Done {
                    result: IslandContinueActionResult {
                        action_kind: IslandActionKind::OpenContinueTarget,
                        decision_id: None,
                        opened: false,
                        open_strategy: Some(copy_str("blocked_by_continue_policy")),
                        refreshed_state: None,
                        warnings,
                    },
                    effect: None,
                })
            },
        },
        IslandActionKind::MarkWrongTarget | IslandActionKind::MarkNotUseful => {
            let wrong = matches!(input.action_kind, IslandActionKind::MarkWrongTarget);
            let decision_id = trimmed_nonempty(&input.decision_id);
            let request = answer_feedback_request(
                copy_opt_str(&decision_id),
                if wrong {
                    "rejected"
                } else {
                    "ignored"
                },
            );
            let refresh = state_input(
                IslandContinueReason::EvidenceChanged,
                decision_id,
                true,
                "island_primary",
            );
            let mut warnings: Vec<String> = Vec::new();
            push_string(
                &mut warnings,
                copy_str(
                    if wrong {
                        "island_wrong_target"
                    } else {
                        "island_not_useful"
                    },
                ),
            );
            Ok(IslandActionStep::RecordFeedback {
                kind: input.action_kind,
                request,
                refresh,
                strategy: copy_str("feedback_recorded"),
                warnings,
            })
        },
        IslandActionKind::ChooseTaskAlternative
        | IslandActionKind::RejectSelectedTask
        | IslandActionKind::RejectTaskAlternative
        | IslandActionKind::MarkSupportingWork
        | IslandActionKind::MarkUnrelatedActivity
        | IslandActionKind::MarkTaskCompleted
        | IslandActionKind::ReactivateTask => {
            let request = scoped_feedback_request(&input)?;
            let refresh = state_input(
                IslandContinueReason::EvidenceChanged,
                copy_opt_str(&request.decision_id),
                true,
                "island_primary",
            );
            Ok(IslandActionStep::RecordFeedback {
                kind: input.action_kind,
                request,
                refresh,
                strategy: copy_str("scoped_task_feedback_recorded"),
                warnings: Vec::new(),
            })
        },
        IslandActionKind::InspectEvidence | IslandActionKind::OpenSmalltalk => Ok(
            IslandActionStep::Done {
                result: quiet(input.action_kind, input.decision_id, "open_smalltalk"),
                effect: Some(IslandActionEffect::OpenSmalltalk),
            },
        ),
        IslandActionKind::StartLocalMemory => Ok(IslandActionStep::Done {
            result: quiet(input.action_kind, input.decision_id, "start_local_memory"),
            effect: Some(IslandActionEffect::StartLocalMemory),
        }),
        IslandActionKind::CaptureEvidenceNow => Ok(IslandActionStep::Done {
            result: quiet(input.action_kind, input.decision_id, "capture_evidence_now"),
            effect: Some(IslandActionEffect::CaptureEvidenceNow),
        }),
    }
}

/// The result of a refresh: the fresh state and its decision.
pub fn refreshed_action_result(state: IslandContinueState) -> (r: IslandContinueActionResult)
    ensures
        r.action_kind == IslandActionKind::RefreshContinue,
        opt_str(r.decision_id) == opt_str(state.decision_id),
        !r.opened,
        r.open_strategy is None,
        r.refreshed_state == Some(state),
        r.warnings@.len() == 0,
{
    IslandContinueActionResult {
        action_kind: IslandActionKind::RefreshContinue,
        decision_id: copy_opt_str(&state.decision_id),
        opened: false,
        open_strategy: None,
        refreshed_state: Some(state),
        warnings: Vec::new(),
    }
}

/// The result of recorded feedback: the decision the feedback named, or
/// else the one the recorder reports, and the state refreshed after it.
pub fn feedback_action_result(
    kind: IslandActionKind,
    request: &ContinueExplicitFeedbackRequest,
    strategy: String,
    warnings: Vec<String>,
    recorded_decision_id: Option<String>,
    refreshed: IslandContinueState,
) -> (r: IslandContinueActionResult)
    ensures
        r.action_kind == kind,
        opt_str(r.decision_id) == (match request.decision_id {
            Some(d) => Some(d@),
            None => opt_str(recorded_decision_id),
        }),
        !r.opened,
        opt_str(r.open_strategy) == Some(strategy@),
        r.refreshed_state == Some(refreshed),
        r.warnings == warnings,
{
    let decision_id = match &request.decision_id {
        Some(d) => Some(d.clone()),
        None => recorded_decision_id,
    };
    IslandContinueActionResult {
        action_kind: kind,
        decision_id,
        opened: false,
        open_strategy: Some(strategy),
        refreshed_state: Some(refreshed),
        warnings,
    }
}

/// The gateway's state for a decision lets its target be opened: it is the
/// state of that decision, it is not stale, and it offers the open action.
pub open spec fn gate_opens(state: IslandContinueState, id: Seq<char>) -> bool {
    &&& opt_str(state.decision_id) == Some(id)
    &&& !state.decision_stale
    &&& offers_open(state.available_actions@)
}

/// Whether the target of `decision_id` may be opened, given the state the
/// gateway gave for it; a stale state, or one that asks for a refresh, is
/// refreshed before it is shown.
pub fn open_gate(state: &IslandContinueState, decision_id: &str) -> (g: OpenGate)
    ensures
        gate_opens(*state, decision_id@) ==> g == OpenGate::Open,
        !gate_opens(*state, decision_id@) ==> g == (OpenGate::Blocked {
            refresh_first: state.decision_stale || state.display_state
                == IslandDisplayState::NeedsRefresh,
        }),
{
    let matches_decision = match &state.decision_id {
        Some(d) => str_eq(d.as_str(), decision_id),
        None => false,
    };
    if matches_decision && !state.decision_stale && state.allows_open_continue_target() {
        OpenGate::Open
    } else {
        OpenGate::Blocked {
            refresh_first: state.decision_stale || matches!(
                state.display_state,
                IslandDisplayState::NeedsRefresh
            ),
        }
    }
}

/// Why an open was refused, as the audit records it for the state shown.
pub open spec fn blocked_reason(state: IslandContinueState) -> Seq<char> {
    if state.decision_stale {
        "stale_decision"@
    } else {
        match state.display_state {
            IslandDisplayState::TargetSuppressed => "p1_suppressed"@,
            IslandDisplayState::SupportBlocked => "p2_support_blocked"@,
            IslandDisplayState::ThinCurrentWork | IslandDisplayState::InspectOnly => "thin_weak_surface"@,
            _ => "state_not_openable"@,
        }
    }
}

/// Why an open was refused, as the audit records it for the state shown.
pub fn blocked_audit_reason(state: &IslandContinueState) -> (r: &'static str)
    ensures
        r@ == blocked_reason(*state),
{
    if state.decision_stale {
        "stale_decision"
    } else {
        match state.display_state {
            IslandDisplayState::TargetSuppressed => "p1_suppressed",
            IslandDisplayState::SupportBlocked => "p2_support_blocked",
            IslandDisplayState::ThinCurrentWork | IslandDisplayState::InspectOnly => "thin_weak_surface",
            _ => "state_not_openable",
        }
    }
}

/// The result of a refused open: nothing opened, the state shown instead.
pub fn blocked_open_result(decision_id: String, shown: IslandContinueState) -> (r: IslandContinueActionResult)
    ensures
        r.action_kind == IslandActionKind::OpenContinueTarget,
        opt_str(r.decision_id) == Some(decision_id@),
        !r.opened,
        opt_str(r.open_strategy) == Some("blocked_by_continue_policy"@),
        r.refreshed_state == Some(shown),
        strs(r.warnings@) == seq![not_openable_warning()],
{
    let mut warnings: Vec<String> = Vec::new();
    push_string(
        &mut warnings,
        copy_str("blocked_by_continue_policy:island_primary_state_not_openable"),
    );
    IslandContinueActionResult {
        action_kind: IslandActionKind::OpenContinueTarget,
        decision_id: Some(decision_id),
        opened: false,
        open_strategy: Some(copy_str("blocked_by_continue_policy")),
        refreshed_state: Some(shown),
        warnings,
    }
}

/// The request that opens the Continue target of a checked decision: strict,
/// never a diagnostic target.
pub fn open_target_request(decision_id: &String) -> (r: OpenResumePointInput)
    ensures
        r.output_path is None,
        r.session_id is None,
        opt_str(r.continue_decision_id) == Some(decision_id@),
        r.target_artifact_id is None,
        opt_str(r.source) == Some("island_primary"@),
        r.diagnostic_allowed == Some(false),
        r.strict_continue_target,
        r.current_frame_id is None,
        r.target_frame_id is None,
{
    OpenResumePointInput {
        output_path: None,
        session_id: None,
        continue_decision_id: Some(decision_id.clone()),
        target_artifact_id: None,
        source: Some(copy_str("island_primary")),
        diagnostic_allowed: Some(false),
        strict_continue_target: true,
        current_frame_id: None,
        target_frame_id: None,
    }
}

/// The opener opened the target itself: it gave a URL, and did not fall back
/// to Smalltalk or to the Continue policy.
pub open spec fn opened_by(outcome: OpenResumePointResult) -> bool {
    &&& outcome.opened_url is Some
    &&& !starts_with(outcome.strategy@, "smalltalk_"@)
    &&& outcome.strategy@ != "blocked_by_continue_policy"@
}

/// The result of an open that went ahead, and the fallback the audit
/// records when the target was not opened itself.
pub fn opened_action_result(
    decision_id: String,
    checked: IslandContinueState,
    outcome: OpenResumePointResult,
) -> (r: (IslandContinueActionResult, Option<&'static str>))
    ensures
        r.0.action_kind == IslandActionKind::OpenContinueTarget,
        opt_str(r.0.decision_id) == Some(decision_id@),
        r.0.opened == opened_by(outcome),
        opt_str(r.0.open_strategy) == Some(outcome.strategy@),
        r.0.refreshed_state == Some(checked),
        r.0.warnings == outcome.warnings,
        match r.1 {
            Some(reason) => !r.0.opened && reason@ == "continue_open_fallback"@,
            None => r.0.opened,
        },
{
    let opened = outcome.opened_url.is_some() && !str_starts_with(
        outcome.strategy.as_str(),
        "smalltalk_",
    ) && !str_eq(outcome.strategy.as_str(), "blocked_by_continue_policy");
    let fallback = if opened {
        None
    } else {
        Some("continue_open_fallback")
    };
    (
        IslandContinueActionResult {
            action_kind: IslandActionKind::OpenContinueTarget,
            decision_id: Some(decision_id),
            opened,
            open_strategy: Some(outcome.strategy),
            refreshed_state: Some(checked),
            warnings: outcome.warnings,
        },
        fallback,
    )
}

} // verus!
