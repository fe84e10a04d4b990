//! The island Continue state contract: what the island may show and offer
//! for a Continue decision.
use vstd::prelude::*;
use crate::copy::{
    first_safe, merge_notes, merge_safe_notes, safe, safe_code_or_note, safe_note,
    safe_text, safe_text_opt,
};
use crate::decision::{
    ActivityConfidence, ActivityCurrentState, AnswerView, ContinueDecisionResult,
    AlternativeView, ContinueFocusSummary, ContinueReturnTarget, CurrentActivityView,
    ReturnTargetView,
    TaskTruthAuthorityStateV1, TaskTruthCurrentActivityV1, TaskTruthPublicAnswerV1, copy_opt,
};
use crate::text::{
    ascii_lower, chars_of, contains, copy_str, is_blank, opt_str, sort_dedup,
    sorted_unique, str_contains, str_eq, str_eq_ignore_ascii_case, str_is_blank, string_of, strs,
};

verus! {

/// Schema name carried by every island Continue state.
pub const ISLAND_CONTINUE_STATE_SCHEMA: &'static str = "smalltalk.island_continue_state.v1";

/// Where an island Continue state came from.
#[derive(Debug, Clone, Copy, PartialEq, Eq)]
pub enum IslandContinueSource {
    ContinueDecision,
    ContinueDecisionCache,
    NoEvidence,
    Error,
}

/// What the island shows.
#[derive(Debug, Clone, Copy, PartialEq, Eq)]
pub enum IslandDisplayState {
    NoLocalMemory,
    LocalMemoryWarming,
    CheckingContinue,
    ContinueReady,
    ThinCurrentWork,
    TargetSuppressed,
    SupportBlocked,
    NeedsRefresh,
    InspectOnly,
    NoClearContinuation,
    Error,
}

/// An action the island can offer.
#[derive(Debug, Clone, Copy, PartialEq, Eq)]
pub enum IslandActionKind {
    RefreshContinue,
    OpenContinueTarget,
    MarkWrongTarget,
    MarkNotUseful,
    ChooseTaskAlternative,
    RejectSelectedTask,
    RejectTaskAlternative,
    MarkSupportingWork,
    MarkUnrelatedActivity,
    MarkTaskCompleted,
    ReactivateTask,
    InspectEvidence,
    OpenSmalltalk,
    StartLocalMemory,
    CaptureEvidenceNow,
}

/// An action offered by the island.
#[derive(Debug, Clone, PartialEq, Eq)]
pub struct IslandAvailableAction {
    pub kind: IslandActionKind,
    pub label: String,
    pub enabled: bool,
    pub decision_id: Option<String>,
    pub task_snapshot_id: Option<String>,
    pub task_snapshot_revision: Option<i64>,
    pub affected_task_field: Option<String>,
    pub task_hypothesis_id: Option<String>,
}

/// An action, by views.
pub struct ActionView {
    pub kind: IslandActionKind,
    pub label: Seq<char>,
    pub enabled: bool,
    pub decision_id: Option<Seq<char>>,
    pub task_snapshot_id: Option<Seq<char>>,
    pub task_snapshot_revision: Option<i64>,
    pub affected_task_field: Option<Seq<char>>,
    pub task_hypothesis_id: Option<Seq<char>>,
}

impl View for IslandAvailableAction {
    type V = ActionView;

    open spec fn view(&self) -> ActionView {
        ActionView {
            kind: self.kind,
            label: self.label@,
            enabled: self.enabled,
            decision_id: opt_str(self.decision_id),
            task_snapshot_id: opt_str(self.task_snapshot_id),
            task_snapshot_revision: self.task_snapshot_revision,
            affected_task_field: opt_str(self.affected_task_field),
            task_hypothesis_id: opt_str(self.task_hypothesis_id),
        }
    }
}

/// Views of a list of actions.
pub open spec fn actions_view(v: Seq<IslandAvailableAction>) -> Seq<ActionView> {
    v.map_values(|a: IslandAvailableAction| a@)
}

/// An enabled action with no task scope.
pub open spec fn plain(kind: IslandActionKind, label: Seq<char>, decision_id: Option<Seq<char>>) -> ActionView {
    ActionView {
        kind,
        label,
        enabled: true,
        decision_id,
        task_snapshot_id: None,
        task_snapshot_revision: None,
        affected_task_field: None,
        task_hypothesis_id: None,
    }
}

/// An enabled action scoped to one task snapshot of an answer.
pub open spec fn scoped(
    kind: IslandActionKind,
    label: Seq<char>,
    decision_id: Seq<char>,
    answer: AnswerView,
    field: Seq<char>,
    hypothesis: Option<Seq<char>>,
) -> ActionView {
    ActionView {
        kind,
        label,
        enabled: true,
        decision_id: Some(decision_id),
        task_snapshot_id: Some(answer.snapshot_id),
        task_snapshot_revision: Some(answer.snapshot_revision),
        affected_task_field: Some(field),
        task_hypothesis_id: hypothesis,
    }
}

impl IslandAvailableAction {
    /// An enabled action of the given kind, label and decision.
    pub fn enabled(kind: IslandActionKind, label: &str, decision_id: Option<String>) -> (r: Self)
        ensures
            r@ == plain(kind, label@, opt_str(decision_id)),
    {
        IslandAvailableAction {
            kind,
            label: copy_str(label),
            enabled: true,
            decision_id,
            task_snapshot_id: None,
            task_snapshot_revision: None,
            affected_task_field: None,
            task_hypothesis_id: None,
        }
    }

    /// Feedback on one field of the answer's task snapshot.
    fn scoped_task_feedback(
        kind: IslandActionKind,
        label: String,
        decision_id: &str,
        answer: &TaskTruthPublicAnswerV1,
        affected_task_field: &str,
        task_hypothesis_id: Option<String>,
    ) -> (r: Self)
        ensures
            r@ == scoped(
                kind,
                label@,
                decision_id@,
                answer@,
                affected_task_field@,
                opt_str(task_hypothesis_id),
            ),
    {
        IslandAvailableAction {
            kind,
            label,
            enabled: true,
            decision_id: Some(copy_str(decision_id)),
            task_snapshot_id: Some(answer.snapshot_id.clone()),
            task_snapshot_revision: Some(answer.snapshot_revision),
            affected_task_field: Some(copy_str(affected_task_field)),
            task_hypothesis_id,
        }
    }
}

/// The focused surface, as the island shows it.
#[derive(Debug, Clone, PartialEq, Eq)]
pub struct IslandFocusSummary {
    pub title: String,
    pub subtitle: Option<String>,
    pub app_name: Option<String>,
    pub window_title: Option<String>,
    pub openability: Option<String>,
}

/// A target, as the island shows it.
#[derive(Debug, Clone, PartialEq, Eq)]
pub struct IslandTargetSummary {
    pub title: String,
    pub subtitle: Option<String>,
    pub artifact_kind: Option<String>,
    pub openability: String,
    pub openable: bool,
}

/// Timestamps that decide whether a decision is still current.
#[derive(Debug, Clone, Copy, Default)]
pub struct IslandFreshness {
    pub evidence_watermark_ms: Option<i64>,
    pub newest_evidence_ms: Option<i64>,
    pub decision_updated_at_ms: Option<i64>,
    pub decision_stale: bool,
}

/// Whether local memory runs and holds anything.
#[derive(Debug, Clone, Copy, Default)]
pub struct IslandStateContext {
    pub local_memory_running: bool,
    pub has_local_memory: bool,
}

/// Everything the island shows for Continue.
#[derive(Debug, Clone)]
pub struct IslandContinueState {
    pub schema: String,
    pub generated_at_ms: i64,
    pub source: IslandContinueSource,
    pub display_state: IslandDisplayState,
    pub decision_id: Option<String>,
    pub decision_cache_hit: bool,
    pub evidence_watermark_ms: Option<i64>,
    pub decision_stale: bool,
    pub target_state: String,
    pub target_reason_codes: Vec<String>,
    pub semantic_answer: Option<TaskTruthPublicAnswerV1>,
    pub current_focus: Option<IslandFocusSummary>,
    pub current_activity: Option<String>,
    pub activity_label: Option<String>,
    pub activity_summary: Option<String>,
    pub activity_where: Option<String>,
    pub activity_state: Option<String>,
    pub activity_confidence_label: Option<String>,
    pub target_confidence_label: Option<String>,
    pub recent_context_summary: Option<String>,
    pub selected_workstream_title: Option<String>,
    pub return_target: Option<IslandTargetSummary>,
    pub resume_work_target: Option<IslandTargetSummary>,
    pub next_action: Option<String>,
    pub confidence_label: Option<String>,
    pub validation_status: Option<String>,
    pub provenance_label: Option<String>,
    pub missing_evidence: Vec<String>,
    pub warnings: Vec<String>,
    pub suppression_reasons: Vec<String>,
    pub available_actions: Vec<IslandAvailableAction>,
    pub inspect_anchor_count: usize,
    pub audit_path: Option<String>,
}

/// The state may offer to open its Continue target.
pub open spec fn offers_open(actions: Seq<IslandAvailableAction>) -> bool {
    exists|i: int|
        0 <= i < actions.len() && (#[trigger] actions[i]).enabled && actions[i].kind
            == IslandActionKind::OpenContinueTarget
}

/// The actions of a state with no decision yet.
pub open spec fn no_evidence_actions(context: IslandStateContext) -> Seq<ActionView> {
    let memory = context.local_memory_running || context.has_local_memory;
    (if memory {
        seq![
            plain(IslandActionKind::RefreshContinue, "Continue"@, None),
            plain(IslandActionKind::OpenSmalltalk, "Open Smalltalk"@, None),
        ]
    } else {
        Seq::empty()
    }) + (if context.local_memory_running {
        seq![plain(IslandActionKind::CaptureEvidenceNow, "Update local evidence"@, None)]
    } else if !context.has_local_memory {
        seq![plain(IslandActionKind::StartLocalMemory, "Start local memory"@, None)]
    } else {
        Seq::empty()
    })
}

/// The actions of a state that must be refreshed first.
pub open spec fn refresh_actions() -> Seq<ActionView> {
    seq![
        plain(IslandActionKind::RefreshContinue, "Refresh Continue"@, None),
        plain(IslandActionKind::InspectEvidence, "Inspect evidence"@, None),
        plain(IslandActionKind::OpenSmalltalk, "Open Smalltalk"@, None),
    ]
}

/// No copy, focus, target or answer is shown.
pub open spec fn blank_copy(s: IslandContinueState) -> bool {
    &&& s.semantic_answer is None
    &&& s.current_focus is None
    &&& s.current_activity is None
    &&& s.activity_label is None
    &&& s.activity_summary is None
    &&& s.activity_where is None
    &&& s.activity_state is None
    &&& s.activity_confidence_label is None
    &&& s.target_confidence_label is None
    &&& s.recent_context_summary is None
    &&& s.selected_workstream_title is None
    &&& s.return_target is None
    &&& s.resume_work_target is None
    &&& s.confidence_label is None
    &&& s.provenance_label is None
    &&& s.missing_evidence@.len() == 0
    &&& s.suppression_reasons@.len() == 0
    &&& s.inspect_anchor_count == 0
    &&& s.audit_path is None
}

/// The state when no decision has been made yet.
pub open spec fn no_evidence_state(freshness: IslandFreshness, context: IslandStateContext, r: IslandContinueState) -> bool {
    &&& r.schema@ == ISLAND_CONTINUE_STATE_SCHEMA@
    &&& r.generated_at_ms == match freshness.decision_updated_at_ms {
        Some(t) => t,
        None => 0,
    }
    &&& r.source == IslandContinueSource::NoEvidence
    &&& r.display_state == if context.local_memory_running || context.has_local_memory {
        IslandDisplayState::LocalMemoryWarming
    } else {
        IslandDisplayState::NoLocalMemory
    }
    &&& r.decision_id is None
    &&& !r.decision_cache_hit
    &&& r.evidence_watermark_ms == freshness.evidence_watermark_ms
    &&& r.decision_stale == freshness.decision_stale
    &&& r.target_state@ == "no_clear_task"@
    &&& strs(r.target_reason_codes@) == seq!["no_clear_task_or_target"@]
    &&& blank_copy(r)
    &&& opt_str(r.next_action) == Some("Open Smalltalk to inspect local evidence."@)
    &&& r.validation_status is None
    &&& r.warnings@.len() == 0
    &&& actions_view(r.available_actions@) == no_evidence_actions(context)
}

/// The state of a remembered decision that newer evidence has outdated.
pub open spec fn refresh_needed_state(
    freshness: IslandFreshness,
    context: IslandStateContext,
    decision_id: Option<Seq<char>>,
    r: IslandContinueState,
) -> bool {
    &&& r.schema@ == ISLAND_CONTINUE_STATE_SCHEMA@
    &&& r.generated_at_ms == match freshness.decision_updated_at_ms {
        Some(t) => t,
        None => 0,
    }
    &&& r.source == IslandContinueSource::ContinueDecisionCache
    &&& r.display_state == IslandDisplayState::NeedsRefresh
    &&& opt_str(r.decision_id) == decision_id
    &&& r.decision_cache_hit
    &&& r.evidence_watermark_ms == freshness.evidence_watermark_ms
    &&& r.decision_stale
    &&& r.target_state@ == "stale_decision"@
    &&& strs(r.target_reason_codes@) == seq!["target_stale"@]
    &&& blank_copy(r)
    &&& opt_str(r.next_action) == Some(
        if context.has_local_memory {
            "Refresh Continue before opening a target."@
        } else {
            "Open Smalltalk to inspect local evidence."@
        },
    )
    &&& opt_str(r.validation_status) == Some("needs_refresh"@)
    &&& r.warnings@.len() == 0
    &&& actions_view(r.available_actions@) == refresh_actions()
}

/// Pushes an enabled action.
fn push_plain(
    actions: &mut Vec<IslandAvailableAction>,
    kind: IslandActionKind,
    label: &str,
    decision_id: Option<String>,
)
    ensures
        actions_view(final(actions)@) == actions_view(old(actions)@).push(
            plain(kind, label@, opt_str(decision_id)),
        ),
{
    let a = IslandAvailableAction::enabled(kind, label, decision_id);
    actions.push(a);
    assert(actions_view(actions@) =~= actions_view(old(actions)@).push(a@));
}

/// The Continue error state at `generated_at_ms`: no decision, target
/// state and validation `error`, no copy, the one warning given, and only
/// "Open Smalltalk" offered.
pub open spec fn error_continue_state(r: IslandContinueState, generated_at_ms: i64, warning: Option<Seq<char>>) -> bool {
    &&& r.schema@ == ISLAND_CONTINUE_STATE_SCHEMA@
    &&& r.generated_at_ms == generated_at_ms
    &&& r.source == IslandContinueSource::Error
    &&& r.display_state == IslandDisplayState::Error
    &&& r.decision_id is None
    &&& !r.decision_cache_hit
    &&& r.evidence_watermark_ms is None
    &&& !r.decision_stale
    &&& r.target_state@ == "error"@
    &&& r.target_reason_codes@.len() == 0
    &&& blank_copy(r)
    &&& opt_str(r.next_action) == Some("Open Smalltalk to inspect local evidence."@)
    &&& opt_str(r.validation_status) == Some("error"@)
    &&& strs(r.warnings@) == match warning {
        Some(w) => seq![w],
        None => Seq::<Seq<char>>::empty(),
    }
    &&& actions_view(r.available_actions@) == seq![
        plain(IslandActionKind::OpenSmalltalk, "Open Smalltalk"@, None),
    ]
}

impl IslandContinueState {
    /// The state when no decision has been made yet.
    pub fn no_evidence(freshness: IslandFreshness, context: IslandStateContext) -> (r: Self)
        ensures
            no_evidence_state(freshness, context, r),
    {
        let mut available_actions: Vec<IslandAvailableAction> = Vec::new();
        if context.local_memory_running || context.has_local_memory {
            push_plain(&mut available_actions, IslandActionKind::RefreshContinue, "Continue", None);
            push_plain(
                &mut available_actions,
                IslandActionKind::OpenSmalltalk,
                "Open Smalltalk",
                None,
            );
        }
        if context.local_memory_running {
            push_plain(
                &mut available_actions,
                IslandActionKind::CaptureEvidenceNow,
                "Update local evidence",
                None,
            );
        } else if !context.has_local_memory {
            push_plain(
                &mut available_actions,
                IslandActionKind::StartLocalMemory,
                "Start local memory",
                None,
            );
        }
        assert(actions_view(available_actions@) =~= no_evidence_actions(context));
        let mut codes: Vec<String> = Vec::new();
        codes.push(copy_str("no_clear_task_or_target"));
        assert(strs(codes@) =~= seq!["no_clear_task_or_target"@]);
        IslandContinueState {
            schema: copy_str(ISLAND_CONTINUE_STATE_SCHEMA),
            generated_at_ms: match freshness.decision_updated_at_ms {
                Some(t) => t,
                None => 0,
            },
            source: IslandContinueSource::NoEvidence,
            display_state: if context.local_memory_running || context.has_local_memory {
                IslandDisplayState::LocalMemoryWarming
            } else {
                IslandDisplayState::NoLocalMemory
            },
            decision_id: None,
            decision_cache_hit: false,
            evidence_watermark_ms: freshness.evidence_watermark_ms,
            decision_stale: freshness.decision_stale,
            target_state: copy_str("no_clear_task"),
            target_reason_codes: codes,
            semantic_answer: None,
            current_focus: None,
            current_activity: None,
            activity_label: None,
            activity_summary: None,
            activity_where: None,
            activity_state: None,
            activity_confidence_label: None,
            target_confidence_label: None,
            recent_context_summary: None,
            selected_workstream_title: None,
            return_target: None,
            resume_work_target: None,
            next_action: Some(copy_str("Open Smalltalk to inspect local evidence.")),
            confidence_label: None,
            validation_status: None,
            provenance_label: None,
            missing_evidence: Vec::new(),
            warnings: Vec::new(),
            suppression_reasons: Vec::new(),
            available_actions,
            inspect_anchor_count: 0,
            audit_path: None,
        }
    }

    /// The state of a remembered decision that newer evidence has outdated.
    pub fn refresh_needed(
        freshness: IslandFreshness,
        context: IslandStateContext,
        decision_id: Option<String>,
    ) -> (r: Self)
        ensures
            refresh_needed_state(freshness, context, opt_str(decision_id), r),
    {
        let mut available_actions: Vec<IslandAvailableAction> = Vec::new();
        push_plain(
            &mut available_actions,
            IslandActionKind::RefreshContinue,
            "Refresh Continue",
            None,
        );
        push_plain(&mut available_actions, IslandActionKind::InspectEvidence, "Inspect evidence", None);
        push_plain(&mut available_actions, IslandActionKind::OpenSmalltalk, "Open Smalltalk", None);
        assert(actions_view(available_actions@) =~= refresh_actions());
        let mut codes: Vec<String> = Vec::new();
        codes.push(copy_str("target_stale"));
        assert(strs(codes@) =~= seq!["target_stale"@]);
        IslandContinueState {
            schema: copy_str(ISLAND_CONTINUE_STATE_SCHEMA),
            generated_at_ms: match freshness.decision_updated_at_ms {
                Some(t) => t,
                None => 0,
            },
            source: IslandContinueSource::ContinueDecisionCache,
            display_state: IslandDisplayState::NeedsRefresh,
            decision_id,
            decision_cache_hit: true,
            evidence_watermark_ms: freshness.evidence_watermark_ms,
            decision_stale: true,
            target_state: copy_str("stale_decision"),
            target_reason_codes: codes,
            semantic_answer: None,
            current_focus: None,
            current_activity: None,
            activity_label: None,
            activity_summary: None,
            activity_where: None,
            activity_state: None,
            activity_confidence_label: None,
            target_confidence_label: None,
            recent_context_summary: None,
            selected_workstream_title: None,
            return_target: None,
            resume_work_target: None,
            next_action: Some(
                if context.has_local_memory {
                    copy_str("Refresh Continue before opening a target.")
                } else {
                    copy_str("Open Smalltalk to inspect local evidence.")
                },
            ),
            confidence_label: None,
            validation_status: Some(copy_str("needs_refresh")),
            provenance_label: None,
            missing_evidence: Vec::new(),
            warnings: Vec::new(),
            suppression_reasons: Vec::new(),
            available_actions,
            inspect_anchor_count: 0,
            audit_path: None,
        }
    }

    /// The state when Continue failed.
    pub fn error(generated_at_ms: i64, warning: Option<String>) -> (r: Self)
        ensures
            error_continue_state(r, generated_at_ms, opt_str(warning)),
    {
        let mut available_actions: Vec<IslandAvailableAction> = Vec::new();
        push_plain(&mut available_actions, IslandActionKind::OpenSmalltalk, "Open Smalltalk", None);
        assert(actions_view(available_actions@) =~= seq![
            plain(IslandActionKind::OpenSmalltalk, "Open Smalltalk"@, None),
        ]);
        let mut warnings: Vec<String> = Vec::new();
        match warning {
            Some(w) => warnings.push(w),
            None => {},
        }
        assert(strs(warnings@) =~= match opt_str(warning) {
            Some(w) => seq![w],
            None => Seq::<Seq<char>>::empty(),
        });
        IslandContinueState {
            schema: copy_str(ISLAND_CONTINUE_STATE_SCHEMA),
            generated_at_ms,
            source: IslandContinueSource::Error,
            display_state: IslandDisplayState::Error,
            decision_id: None,
            decision_cache_hit: false,
            evidence_watermark_ms: None,
            decision_stale: false,
            target_state: copy_str("error"),
            target_reason_codes: Vec::new(),
            semantic_answer: None,
            current_focus: None,
            current_activity: None,
            activity_label: None,
            activity_summary: None,
            activity_where: None,
            activity_state: None,
            activity_confidence_label: None,
            target_confidence_label: None,
            recent_context_summary: None,
            selected_workstream_title: None,
            return_target: None,
            resume_work_target: None,
            next_action: Some(copy_str("Open Smalltalk to inspect local evidence.")),
            confidence_label: None,
            validation_status: Some(copy_str("error")),
            provenance_label: None,
            missing_evidence: Vec::new(),
            warnings,
            suppression_reasons: Vec::new(),
            available_actions,
            inspect_anchor_count: 0,
            audit_path: None,
        }
    }

    /// Whether an enabled "open Continue target" action is offered.
    pub fn allows_open_continue_target(&self) -> (b: bool)
        ensures
            b == offers_open(self.available_actions@),
    {
        let mut i: usize = 0;
        while i < self.available_actions.len()
            invariant
                i <= self.available_actions@.len(),
                forall|k: int|
                    0 <= k < i ==> !((#[trigger] self.available_actions@[k]).enabled
                        && self.available_actions@[k].kind == IslandActionKind::OpenContinueTarget),
            decreases self.available_actions.len() - i,
        {
            let a = &self.available_actions[i];
            if a.enabled && matches!(a.kind, IslandActionKind::OpenContinueTarget) {
                return true;
            }
            i = i + 1;
        }
        false
    }
}


/// An optional text that is present and not blank.
pub open spec fn nonblank_opt(o: Option<Seq<char>>) -> bool {
    match o {
        Some(s) => !is_blank(s),
        None => false,
    }
}

/// Every part of the answer's atomic identity is present.
pub open spec fn complete_identity(a: AnswerView) -> bool {
    let id = a.atomic_identity;
    &&& nonblank_opt(id.task_thread_id)
    &&& match id.task_thread_revision {
        Some(r) => r > 0,
        None => false,
    }
    &&& !is_blank(id.task_snapshot_id)
    &&& id.snapshot_revision > 0
    &&& nonblank_opt(id.selected_hypothesis_id)
    &&& nonblank_opt(id.model_response_id)
    &&& !is_blank(id.observation_packet_id)
    &&& !is_blank(id.evidence_watermark)
}

/// The answer may speak for the island: it was released with authority, or
/// the user asked for Continue and a diagnostic exists.
pub open spec fn answer_eligible(d: ContinueDecisionResult) -> bool {
    ||| d.task_truth_v2.effective_state == TaskTruthAuthorityStateV1::Authoritative
        && d.task_truth_v2.release_gate_passed
    ||| d.request_trigger@ == "manual"@ && d.task_truth_v2.has_inference_diagnostic
}

/// The answer with every task claim withdrawn, marked with `status`.
pub open spec fn unresolved_view(a: AnswerView, status: Seq<char>) -> AnswerView {
    AnswerView {
        task_resolution_status: "unresolved"@,
        observed_surface: None,
        immediate_user_operation: None,
        semantic_effect_of_operation: None,
        current_subtask: None,
        current_activity: CurrentActivityView {
            observed_surface: None,
            immediate_user_operation: None,
            semantic_effect_of_operation: None,
            current_subtask: None,
            relationship_to_primary: "unrelated_or_unknown"@,
        },
        task_summary: None,
        task_object: None,
        last_meaningful_progress: None,
        unfinished_state: None,
        execution_state: "unclear"@,
        next_action: None,
        where_summary: None,
        relationship_to_prior: "unrelated_or_unknown"@,
        alternative_hypotheses: Seq::empty(),
        direct_return_target: None,
        field_support: Seq::empty(),
        task_understanding_source: "unresolved"@,
        semantic_source: "unresolved"@,
        inference_status: status,
        ..a
    }
}

/// The task-truth answer the island may use: the decision's answer as it
/// is when it is eligible and either unresolved or fully identified, and
/// otherwise the same answer with its claims withdrawn.
pub open spec fn authoritative_answer(d: ContinueDecisionResult) -> Option<AnswerView> {
    match d.task_truth_v2.answer {
        None => None,
        Some(a) => if !answer_eligible(d) {
            Some(unresolved_view(a@, "authority_not_released"@))
        } else if a.task_resolution_status@ == "unresolved"@ || complete_identity(a@) {
            Some(a@)
        } else {
            Some(unresolved_view(a@, "invalid_atomic_identity"@))
        },
    }
}

/// View of an optional answer.
pub open spec fn opt_answer(o: Option<TaskTruthPublicAnswerV1>) -> Option<AnswerView> {
    match o {
        Some(a) => Some(a@),
        None => None,
    }
}

/// The answer shows some task semantics.
pub open spec fn visible_semantics(a: AnswerView) -> bool {
    ||| nonblank_opt(a.task_summary)
    ||| nonblank_opt(a.task_object)
    ||| nonblank_opt(a.current_subtask)
    ||| nonblank_opt(a.current_activity.observed_surface)
    ||| nonblank_opt(a.current_activity.immediate_user_operation)
    ||| nonblank_opt(a.current_activity.semantic_effect_of_operation)
    ||| nonblank_opt(a.current_activity.current_subtask)
    ||| nonblank_opt(a.last_meaningful_progress)
    ||| nonblank_opt(a.unfinished_state)
    ||| nonblank_opt(a.next_action)
    ||| nonblank_opt(a.where_summary)
}

/// An optional text is present and not blank.
fn opt_nonblank(o: &Option<String>) -> (b: bool)
    ensures
        b == nonblank_opt(opt_str(*o)),
{
    match o {
        Some(s) => !str_is_blank(s.as_str()),
        None => false,
    }
}

/// `has_complete_task_truth_atomic_identity`.
pub fn has_complete_task_truth_atomic_identity(answer: &TaskTruthPublicAnswerV1) -> (b: bool)
    ensures
        b == complete_identity(answer@),
{
    let id = &answer.atomic_identity;
    opt_nonblank(&id.task_thread_id) && match id.task_thread_revision {
        Some(r) => r > 0,
        None => false,
    } && !str_is_blank(id.task_snapshot_id.as_str()) && id.snapshot_revision > 0 && opt_nonblank(
        &id.selected_hypothesis_id,
    ) && opt_nonblank(&id.model_response_id) && !str_is_blank(id.observation_packet_id.as_str())
        && !str_is_blank(id.evidence_watermark.as_str())
}

/// `has_visible_task_truth_semantics`.
pub fn has_visible_task_truth_semantics(answer: &TaskTruthPublicAnswerV1) -> (b: bool)
    ensures
        b == visible_semantics(answer@),
{
    opt_nonblank(&answer.task_summary) || opt_nonblank(&answer.task_object) || opt_nonblank(
        &answer.current_subtask,
    ) || opt_nonblank(&answer.current_activity.observed_surface) || opt_nonblank(
        &answer.current_activity.immediate_user_operation,
    ) || opt_nonblank(&answer.current_activity.semantic_effect_of_operation) || opt_nonblank(
        &answer.current_activity.current_subtask,
    ) || opt_nonblank(&answer.last_meaningful_progress) || opt_nonblank(&answer.unfinished_state)
        || opt_nonblank(&answer.next_action) || opt_nonblank(&answer.where_summary)
}

/// `force_task_truth_unresolved`: withdraws every task claim of the answer.
pub fn force_task_truth_unresolved(answer: &mut TaskTruthPublicAnswerV1, inference_status: &str)
    ensures
        final(answer)@ == unresolved_view(old(answer)@, inference_status@),
{
    answer.task_resolution_status = copy_str("unresolved");
    answer.observed_surface = None;
    answer.immediate_user_operation = None;
    answer.semantic_effect_of_operation = None;
    answer.current_subtask = None;
    answer.current_activity = TaskTruthCurrentActivityV1 {
        observed_surface: None,
        immediate_user_operation: None,
        semantic_effect_of_operation: None,
        current_subtask: None,
        relationship_to_primary: copy_str("unrelated_or_unknown"),
    };
    answer.task_summary = None;
    answer.task_object = None;
    answer.last_meaningful_progress = None;
    answer.unfinished_state = None;
    answer.execution_state = copy_str("unclear");
    answer.next_action = None;
    answer.where_summary = None;
    answer.relationship_to_prior = copy_str("unrelated_or_unknown");
    answer.alternative_hypotheses = Vec::new();
    answer.direct_return_target = None;
    answer.field_support = Vec::new();
    answer.task_understanding_source = copy_str("unresolved");
    answer.semantic_source = copy_str("unresolved");
    answer.inference_status = copy_str(inference_status);
    assert(answer@.alternative_hypotheses =~= Seq::empty());
    assert(answer@.field_support =~= Seq::empty());
    assert(answer@ == unresolved_view(old(answer)@, inference_status@));
}

/// `authoritative_task_truth_answer`.
pub fn authoritative_task_truth_answer(decision: &ContinueDecisionResult) -> (r: Option<
    TaskTruthPublicAnswerV1,
>)
    ensures
        opt_answer(r) == authoritative_answer(*decision),
{
    let eligible = (matches!(
        decision.task_truth_v2.effective_state,
        TaskTruthAuthorityStateV1::Authoritative
    ) && decision.task_truth_v2.release_gate_passed) || (str_eq(
        decision.request_trigger.as_str(),
        "manual",
    ) && decision.task_truth_v2.has_inference_diagnostic);
    match &decision.task_truth_v2.answer {
        None => None,
        Some(original) => {
            let mut answer = original.copy();
            if !eligible {
                force_task_truth_unresolved(&mut answer, "authority_not_released");
                return Some(answer);
            }
            if str_eq(answer.task_resolution_status.as_str(), "unresolved")
                || has_complete_task_truth_atomic_identity(&answer) {
                return Some(answer);
            }
            force_task_truth_unresolved(&mut answer, "invalid_atomic_identity");
            Some(answer)
        },
    }
}


/// A focus summary, by views.
pub struct FocusView {
    pub title: Seq<char>,
    pub subtitle: Option<Seq<char>>,
    pub app_name: Option<Seq<char>>,
    pub window_title: Option<Seq<char>>,
    pub openability: Option<Seq<char>>,
}

impl View for IslandFocusSummary {
    type V = FocusView;

    open spec fn view(&self) -> FocusView {
        FocusView {
            title: self.title@,
            subtitle: opt_str(self.subtitle),
            app_name: opt_str(self.app_name),
            window_title: opt_str(self.window_title),
            openability: opt_str(self.openability),
        }
    }
}

/// A target summary, by views.
pub struct TargetSummaryView {
    pub title: Seq<char>,
    pub subtitle: Option<Seq<char>>,
    pub artifact_kind: Option<Seq<char>>,
    pub openability: Seq<char>,
    pub openable: bool,
}

impl View for IslandTargetSummary {
    type V = TargetSummaryView;

    open spec fn view(&self) -> TargetSummaryView {
        TargetSummaryView {
            title: self.title@,
            subtitle: opt_str(self.subtitle),
            artifact_kind: opt_str(self.artifact_kind),
            openability: self.openability@,
            openable: self.openable,
        }
    }
}

/// View of an optional focus summary.
pub open spec fn opt_focus(o: Option<IslandFocusSummary>) -> Option<FocusView> {
    match o {
        Some(f) => Some(f@),
        None => None,
    }
}

/// View of an optional target summary.
pub open spec fn opt_summary(o: Option<IslandTargetSummary>) -> Option<TargetSummaryView> {
    match o {
        Some(t) => Some(t@),
        None => None,
    }
}

/// The first present value, then the second.
pub open spec fn or_else<T>(a: Option<T>, b: Option<T>) -> Option<T> {
    match a {
        Some(x) => Some(x),
        None => b,
    }
}

/// `focus_summary`: the focus under its first safe title, if it has one.
pub open spec fn focus_of(f: ContinueFocusSummary) -> Option<FocusView> {
    match first_safe(
        seq![opt_str(f.display_title), opt_str(f.title), opt_str(f.window_title), opt_str(f.app_name)],
    ) {
        None => None,
        Some(title) => Some(
            FocusView {
                title,
                subtitle: or_else(safe(opt_str(f.app_name)), safe(opt_str(f.artifact_kind))),
                app_name: safe(opt_str(f.app_name)),
                window_title: safe(opt_str(f.window_title)),
                openability: safe(opt_str(f.openability)),
            },
        ),
    }
}

/// `target_summary`: safe copy of the target; it is openable only when its
/// openability is "openable" and it carries a URL or a document path.
pub open spec fn target_of(t: ReturnTargetView) -> TargetSummaryView {
    let kind = safe(t.artifact_kind);
    let title = match safe(t.title) {
        Some(x) => x,
        None => match kind {
            Some(k) => k,
            None => "Continue target"@,
        },
    };
    let openability = match safe(Some(t.openability)) {
        Some(o) => o,
        None => "unknown"@,
    };
    TargetSummaryView {
        title,
        subtitle: kind,
        artifact_kind: kind,
        openability,
        openable: openability == "openable"@ && (t.browser_url is Some || t.document_path is Some),
    }
}

/// `first_safe_text` over a list of four optional texts.
fn first_safe_text4(
    a: &Option<String>,
    b: &Option<String>,
    c: &Option<String>,
    d: &Option<String>,
) -> (r: Option<String>)
    ensures
        opt_str(r) == first_safe(seq![opt_str(*a), opt_str(*b), opt_str(*c), opt_str(*d)]),
{
    let ghost vals = seq![opt_str(*a), opt_str(*b), opt_str(*c), opt_str(*d)];
    assert(vals.drop_first() =~= seq![opt_str(*b), opt_str(*c), opt_str(*d)]);
    assert(vals.drop_first().drop_first() =~= seq![opt_str(*c), opt_str(*d)]);
    assert(vals.drop_first().drop_first().drop_first() =~= seq![opt_str(*d)]);
    assert(vals.drop_first().drop_first().drop_first().drop_first() =~= Seq::<
        Option<Seq<char>>,
    >::empty());
    proof {
        reveal_with_fuel(first_safe, 5);
    }
    match safe_text_opt(a) {
        Some(t) => return Some(t),
        None => {},
    }
    match safe_text_opt(b) {
        Some(t) => return Some(t),
        None => {},
    }
    match safe_text_opt(c) {
        Some(t) => return Some(t),
        None => {},
    }
    safe_text_opt(d)
}

/// `focus_summary`.
fn focus_summary(focus: &ContinueFocusSummary) -> (r: Option<IslandFocusSummary>)
    ensures
        opt_focus(r) == focus_of(*focus),
{
    let title = first_safe_text4(
        &focus.display_title,
        &focus.title,
        &focus.window_title,
        &focus.app_name,
    );
    match title {
        None => None,
        Some(title) => {
            let subtitle = match safe_text_opt(&focus.app_name) {
                Some(t) => Some(t),
                None => safe_text_opt(&focus.artifact_kind),
            };
            Some(
                IslandFocusSummary {
                    title,
                    subtitle,
                    app_name: safe_text_opt(&focus.app_name),
                    window_title: safe_text_opt(&focus.window_title),
                    openability: safe_text_opt(&focus.openability),
                },
            )
        },
    }
}

/// `target_summary`.
fn target_summary(target: &ContinueReturnTarget) -> (r: IslandTargetSummary)
    ensures
        r@ == target_of(target@),
{
    let artifact_kind = safe_text_opt(&target.artifact_kind);
    let title = match safe_text_opt(&target.title) {
        Some(t) => t,
        None => match &artifact_kind {
            Some(k) => k.clone(),
            None => copy_str("Continue target"),
        },
    };
    let openability = match safe_text(Some(target.openability.as_str())) {
        Some(o) => o,
        None => copy_str("unknown"),
    };
    let openable = str_eq(openability.as_str(), "openable") && (target.browser_url.is_some()
        || target.document_path.is_some());
    let subtitle = match &artifact_kind {
        Some(k) => Some(k.clone()),
        None => None,
    };
    IslandTargetSummary { title, subtitle, artifact_kind, openability, openable }
}

/// `activity_state_label`.
pub open spec fn state_label(state: ActivityCurrentState) -> Option<Seq<char>> {
    match state {
        ActivityCurrentState::ActivelyWorking => Some("Actively working"@),
        ActivityCurrentState::RecentlyDetoured => Some("Recently detoured"@),
        ActivityCurrentState::PausedAfterProgress => Some("Paused after progress"@),
        ActivityCurrentState::Blocked => Some("Blocked"@),
        ActivityCurrentState::CompleteOrIdle => Some("Complete or idle"@),
        ActivityCurrentState::Unclear => None,
    }
}

/// `activity_confidence_label`.
pub open spec fn confidence_label_of(c: ActivityConfidence) -> Seq<char> {
    match c {
        ActivityConfidence::High => "high"@,
        ActivityConfidence::Medium => "medium"@,
        ActivityConfidence::Low => "low"@,
        ActivityConfidence::Absent => "none"@,
    }
}

/// `activity_state_label`.
fn activity_state_label(state: ActivityCurrentState) -> (r: Option<&'static str>)
    ensures
        match r {
            Some(s) => state_label(state) == Some(s@),
            None => state_label(state) is None,
        },
{
    match state {
        ActivityCurrentState::ActivelyWorking => Some("Actively working"),
        ActivityCurrentState::RecentlyDetoured => Some("Recently detoured"),
        ActivityCurrentState::PausedAfterProgress => Some("Paused after progress"),
        ActivityCurrentState::Blocked => Some("Blocked"),
        ActivityCurrentState::CompleteOrIdle => Some("Complete or idle"),
        ActivityCurrentState::Unclear => None,
    }
}

/// `activity_confidence_label`.
fn activity_confidence_label(confidence: ActivityConfidence) -> (r: &'static str)
    ensures
        r@ == confidence_label_of(confidence),
{
    match confidence {
        ActivityConfidence::High => "high",
        ActivityConfidence::Medium => "medium",
        ActivityConfidence::Low => "low",
        ActivityConfidence::Absent => "none",
    }
}

/// `validation_rejected`.
pub open spec fn rejected_status(s: Seq<char>) -> bool {
    contains(s, "rejected"@) || contains(s, "blocked"@) || contains(s, "invalid"@) || contains(
        s,
        "suppressed"@,
    )
}

/// `validation_rejected`.
fn validation_rejected(status: &str) -> (b: bool)
    ensures
        b == rejected_status(status@),
{
    str_contains(status, "rejected") || str_contains(status, "blocked") || str_contains(
        status,
        "invalid",
    ) || str_contains(status, "suppressed")
}

/// Some warning mentions the blocked support branch.
pub open spec fn warns_branch_support(w: Seq<Seq<char>>) -> bool {
    exists|i: int|
        0 <= i < w.len() && contains(#[trigger] w[i], "branch_support_not_default_return_target"@)
}

/// `support_branch_blocked`.
pub open spec fn support_blocked(d: ContinueDecisionResult) -> bool {
    ||| d.branch_validation_failures@.len() > 0
    ||| d.excluded_branch_candidate_ids@.len() > 0
    ||| warns_branch_support(strs(d.warnings@))
}

/// `support_branch_blocked`.
fn support_branch_blocked(decision: &ContinueDecisionResult) -> (b: bool)
    ensures
        b == support_blocked(*decision),
{
    if decision.branch_validation_failures.len() > 0 || decision.excluded_branch_candidate_ids.len()
        > 0 {
        return true;
    }
    let mut i: usize = 0;
    while i < decision.warnings.len()
        invariant
            i <= decision.warnings@.len(),
            forall|k: int|
                0 <= k < i ==> !contains(
                    #[trigger] strs(decision.warnings@)[k],
                    "branch_support_not_default_return_target"@,
                ),
        decreases decision.warnings.len() - i,
    {
        if str_contains(decision.warnings[i].as_str(), "branch_support_not_default_return_target") {
            assert(contains(strs(decision.warnings@)[i as int], "branch_support_not_default_return_target"@));
            return true;
        }
        i = i + 1;
    }
    false
}

/// `decision_is_thin`.
pub open spec fn thin(d: ContinueDecisionResult) -> bool {
    ||| d.confidence_permille < 550
    ||| ascii_lower(d.confidence_label@) == ascii_lower("thin"@)
    ||| ascii_lower(d.confidence_label@) == ascii_lower("low"@)
    ||| contains(d.validation_status@, "thin"@)
    ||| contains(d.validation_status@, "no_clear"@)
    ||| contains(d.validation_status@, "no_candidates"@)
    ||| d.validation_failures@.len() > 0
    ||| d.p0_quality_signals.thin_mode_truthful
    ||| match d.active_current_work_unresolved {
        Some(w) => !w.has_openable_target,
        None => false,
    }
}

/// `decision_is_thin`.
fn decision_is_thin(decision: &ContinueDecisionResult) -> (b: bool)
    ensures
        b == thin(*decision),
{
    decision.confidence_permille < 550 || str_eq_ignore_ascii_case(
        decision.confidence_label.as_str(),
        "thin",
    ) || str_eq_ignore_ascii_case(decision.confidence_label.as_str(), "low") || str_contains(
        decision.validation_status.as_str(),
        "thin",
    ) || str_contains(decision.validation_status.as_str(), "no_clear") || str_contains(
        decision.validation_status.as_str(),
        "no_candidates",
    ) || decision.validation_failures.len() > 0 || decision.p0_quality_signals.thin_mode_truthful
        || match &decision.active_current_work_unresolved {
        Some(w) => !w.has_openable_target,
        None => false,
    }
}

/// `a` followed by `b`.
pub fn concat(a: &str, b: &str) -> (r: String)
    ensures
        r@ == a@ + b@,
{
    let mut v = chars_of(a);
    let bv = chars_of(b);
    let mut i: usize = 0;
    while i < bv.len()
        invariant
            i <= bv@.len(),
            v@ == a@ + bv@.take(i as int),
        decreases bv.len() - i,
    {
        v.push(bv[i]);
        i = i + 1;
        assert(v@ =~= a@ + bv@.take(i as int));
    }
    assert(bv@.take(bv@.len() as int) =~= bv@);
    string_of(&v)
}

/// One "validation:" reason per safe validation failure, in order.
pub open spec fn validation_reasons(fs: Seq<Seq<char>>) -> Seq<Seq<char>>
    decreases fs.len(),
{
    if fs.len() == 0 {
        Seq::empty()
    } else {
        let prev = validation_reasons(fs.drop_last());
        match safe_note(fs.last()) {
            Some(v) => prev.push("validation:"@ + v),
            None => prev,
        }
    }
}

/// A stale target was suppressed.
pub open spec fn stale_reason(d: ContinueDecisionResult) -> Seq<Seq<char>> {
    if d.p0_quality_signals.stale_target_suppressed {
        seq!["stale_target_suppressed"@]
    } else {
        Seq::empty()
    }
}

/// The selected target is older than the current focus.
pub open spec fn older_reason(d: ContinueDecisionResult) -> Seq<Seq<char>> {
    if d.p0_quality_signals.selected_target_older_than_current_focus {
        seq!["selected_target_older_than_current_focus"@]
    } else {
        Seq::empty()
    }
}

/// The dossier's audit suppressed a stale target.
pub open spec fn audit_reason(d: ContinueDecisionResult) -> Seq<Seq<char>> {
    match d.continue_dossier {
        Some(dossier) => match dossier.stale_target_suppression {
            Some(audit) => if audit.suppressed {
                seq!["stale_target:"@ + audit.reason@]
            } else {
                Seq::empty()
            },
            None => Seq::empty(),
        },
        None => Seq::empty(),
    }
}

/// Feedback suppressed a candidate, or capped the score of a missing target.
pub open spec fn feedback_reasons(d: ContinueDecisionResult) -> Seq<Seq<char>> {
    (if d.feedback_suppressed_candidate_count > 0 {
        seq!["feedback_suppressed_candidate"@]
    } else {
        Seq::empty()
    }) + (if d.feedback_score_capped_candidate_count > 0 && d.return_target is None {
        seq!["feedback_score_capped_target"@]
    } else {
        Seq::empty()
    })
}

/// Current work has no openable target.
pub open spec fn work_reason(d: ContinueDecisionResult) -> Seq<Seq<char>> {
    match d.active_current_work_unresolved {
        Some(w) => if !w.has_openable_target {
            seq!["active_current_work:"@ + w.unresolved_reason@]
        } else {
            Seq::empty()
        },
        None => Seq::empty(),
    }
}

/// The suppression reasons of a decision, before sorting.
pub open spec fn raw_suppression_reasons(d: ContinueDecisionResult) -> Seq<Seq<char>> {
    stale_reason(d) + older_reason(d) + audit_reason(d) + feedback_reasons(d) + work_reason(d)
        + validation_reasons(strs(d.validation_failures@))
}

/// The reasons that do not come from validation failures.
fn base_suppression_reasons(decision: &ContinueDecisionResult) -> (r: Vec<String>)
    ensures
        strs(r@) == stale_reason(*decision) + older_reason(*decision) + audit_reason(*decision)
            + feedback_reasons(*decision) + work_reason(*decision),
{
    let ghost d = *decision;
    let mut reasons: Vec<String> = Vec::new();
    if decision.p0_quality_signals.stale_target_suppressed {
        push_str(&mut reasons, copy_str("stale_target_suppressed"));
    }
    assert(strs(reasons@) =~= stale_reason(d));
    if decision.p0_quality_signals.selected_target_older_than_current_focus {
        push_str(&mut reasons, copy_str("selected_target_older_than_current_focus"));
    }
    assert(strs(reasons@) =~= stale_reason(d) + older_reason(d));
    match &decision.continue_dossier {
        Some(dossier) => match &dossier.stale_target_suppression {
            Some(audit) => if audit.suppressed {
                push_str(&mut reasons, concat("stale_target:", audit.reason.as_str()));
            },
            None => {},
        },
        None => {},
    }
    assert(strs(reasons@) =~= stale_reason(d) + older_reason(d) + audit_reason(d));
    let ghost before_feedback = strs(reasons@);
    if decision.feedback_suppressed_candidate_count > 0 {
        push_str(&mut reasons, copy_str("feedback_suppressed_candidate"));
    }
    if decision.feedback_score_capped_candidate_count > 0 && decision.return_target.is_none() {
        push_str(&mut reasons, copy_str("feedback_score_capped_target"));
    }
    assert(strs(reasons@) =~= before_feedback + feedback_reasons(d));
    let ghost before_work = strs(reasons@);
    match &decision.active_current_work_unresolved {
        Some(w) => if !w.has_openable_target {
            push_str(&mut reasons, concat("active_current_work:", w.unresolved_reason.as_str()));
        },
        None => {},
    }
    assert(strs(reasons@) =~= before_work + work_reason(d));
    reasons
}

/// Pushes a string.
fn push_str(v: &mut Vec<String>, s: String)
    ensures
        strs(final(v)@) == strs(old(v)@).push(s@),
{
    v.push(s);
    assert(strs(v@) =~= strs(old(v)@).push(s@));
}

/// `suppression_reasons`: the distinct reasons why the decision's target is
/// suppressed, sorted.
fn suppression_reasons(decision: &ContinueDecisionResult) -> (r: Vec<String>)
    ensures
        sorted_unique(strs(r@)),
        strs(r@).to_set() == raw_suppression_reasons(*decision).to_set(),
        r@.len() == 0 <==> raw_suppression_reasons(*decision).len() == 0,
{
    let ghost d = *decision;
    let mut reasons = base_suppression_reasons(decision);
    let ghost base = strs(reasons@);
    let fs = &decision.validation_failures;
    let mut i: usize = 0;
    while i < fs.len()
        invariant
            i <= fs@.len(),
            strs(reasons@) == base + validation_reasons(strs(fs@).take(i as int)),
        decreases fs.len() - i,
    {
        assert(strs(fs@).take(i as int + 1).drop_last() =~= strs(fs@).take(i as int));
        assert(strs(fs@).take(i as int + 1).last() == fs@[i as int]@);
        match safe_code_or_note(fs[i].as_str()) {
            Some(value) => {
                push_str(&mut reasons, concat("validation:", value.as_str()));
                assert(strs(reasons@) =~= base + validation_reasons(strs(fs@).take(i as int + 1)));
            },
            None => {},
        }
        i = i + 1;
    }
    assert(strs(fs@).take(fs@.len() as int) =~= strs(fs@));
    assert(strs(reasons@) =~= raw_suppression_reasons(d));
    let ghost raw = strs(reasons@);
    let r = sort_dedup(reasons);
    proof {
        if raw.len() > 0 {
            assert(raw.to_set().contains(raw[0]));
            assert(strs(r@).to_set().contains(raw[0]));
        }
        if r@.len() > 0 {
            assert(strs(r@).to_set().contains(strs(r@)[0]));
            assert(raw.to_set().contains(strs(r@)[0]));
        }
    }
    r
}

/// What `semantic_current_activity` adds about the relationship to the task.
pub open spec fn relationship_copy(rel: Seq<char>) -> Seq<char> {
    if rel == "continuation"@ {
        "This continues the primary task."@
    } else if rel == "supporting_research"@ {
        "This supports the primary task."@
    } else if rel == "verification"@ {
        "This verifies the primary task."@
    } else if rel == "temporary_detour"@ {
        "This is a temporary detour."@
    } else if rel == "interruption"@ {
        "This interrupted the task without completing it."@
    } else if rel == "new_task"@ {
        "This appears to be a separate new task."@
    } else if rel == "return_to_prior_task"@ {
        "This returns to the earlier task."@
    } else {
        "Its relationship to the earlier task is not clear."@
    }
}

/// `semantic_current_activity`.
pub open spec fn semantic_activity(a: AnswerView) -> Option<Seq<char>> {
    if a.task_resolution_status == "unresolved"@ && !visible_semantics(a) {
        None
    } else {
        match safe(
            or_else(
                a.current_activity.current_subtask,
                or_else(a.current_activity.immediate_user_operation, a.current_activity.observed_surface),
            ),
        ) {
            None => None,
            Some(activity) => Some(activity + " "@ + relationship_copy(
                a.current_activity.relationship_to_primary,
            )),
        }
    }
}

/// The first present one of three optional texts.
fn first_present3<'a>(a: &'a Option<String>, b: &'a Option<String>, c: &'a Option<String>) -> (r:
    Option<&'a str>)
    ensures
        match r {
            Some(s) => or_else(opt_str(*a), or_else(opt_str(*b), opt_str(*c))) == Some(s@),
            None => or_else(opt_str(*a), or_else(opt_str(*b), opt_str(*c))) is None,
        },
{
    match a {
        Some(s) => Some(s.as_str()),
        None => match b {
            Some(s) => Some(s.as_str()),
            None => match c {
                Some(s) => Some(s.as_str()),
                None => None,
            },
        },
    }
}

/// `semantic_current_activity`.
fn semantic_current_activity(answer: &TaskTruthPublicAnswerV1) -> (r: Option<String>)
    ensures
        opt_str(r) == semantic_activity(answer@),
{
    if str_eq(answer.task_resolution_status.as_str(), "unresolved")
        && !has_visible_task_truth_semantics(answer) {
        return None;
    }
    let source = first_present3(
        &answer.current_activity.current_subtask,
        &answer.current_activity.immediate_user_operation,
        &answer.current_activity.observed_surface,
    );
    let activity = match safe_text(source) {
        Some(t) => t,
        None => return None,
    };
    let rel = answer.current_activity.relationship_to_primary.as_str();
    let relationship = if str_eq(rel, "continuation") {
        "This continues the primary task."
    } else if str_eq(rel, "supporting_research") {
        "This supports the primary task."
    } else if str_eq(rel, "verification") {
        "This verifies the primary task."
    } else if str_eq(rel, "temporary_detour") {
        "This is a temporary detour."
    } else if str_eq(rel, "interruption") {
        "This interrupted the task without completing it."
    } else if str_eq(rel, "new_task") {
        "This appears to be a separate new task."
    } else if str_eq(rel, "return_to_prior_task") {
        "This returns to the earlier task."
    } else {
        "Its relationship to the earlier task is not clear."
    };
    let with_space = concat(activity.as_str(), " ");
    Some(concat(with_space.as_str(), relationship))
}


/// The return target the island may show: the answer's direct target when
/// an answer speaks, else the decision's return target.
pub open spec fn ret_target(d: ContinueDecisionResult) -> Option<TargetSummaryView> {
    match authoritative_answer(d) {
        Some(a) => match a.direct_return_target {
            Some(t) => Some(target_of(t)),
            None => None,
        },
        None => match d.return_target {
            Some(t) => Some(target_of(t@)),
            None => None,
        },
    }
}

/// The resume target the island may show: only without an answer.
pub open spec fn resume_target(d: ContinueDecisionResult) -> Option<TargetSummaryView> {
    if authoritative_answer(d) is None {
        match d.resume_work_target {
            Some(t) => Some(target_of(t@)),
            None => None,
        }
    } else {
        None
    }
}

/// Number of evidence anchors of the decision.
pub open spec fn anchor_count(d: ContinueDecisionResult) -> int {
    (d.evidence_anchors.frame_ids@.len() + d.evidence_anchors.action_ids@.len()
        + d.evidence_anchors.episode_ids@.len() + d.evidence_anchors.artifact_ids@.len()) as int
}

/// The first shown target is openable.
pub open spec fn has_openable(d: ContinueDecisionResult) -> bool {
    match or_else(ret_target(d), resume_target(d)) {
        Some(t) => t.openable,
        None => false,
    }
}

/// Some target is shown.
pub open spec fn has_any_target(d: ContinueDecisionResult) -> bool {
    ret_target(d) is Some || resume_target(d) is Some
}

/// The decision's output mode says there is no clear continuation.
pub open spec fn no_clear_mode(d: ContinueDecisionResult) -> bool {
    d.continue_output_mode@ == "no_clear_continuation"@
}

/// The work truth supports a task or an activity.
pub open spec fn work_supported(d: ContinueDecisionResult) -> bool {
    d.work_truth.resolution_status@ == "task_supported"@ || d.work_truth.resolution_status@
        == "activity_supported"@
}

/// There is no clear current task.
pub open spec fn no_clear_task(d: ContinueDecisionResult) -> bool {
    match authoritative_answer(d) {
        Some(a) => a.task_resolution_status == "unresolved"@ && !visible_semantics(a),
        None => d.task_resolution_status@ == "no_clear_current_task"@ && !work_supported(d),
    }
}

/// Newer evidence than the decision exists, or the caller says so.
pub open spec fn is_stale(f: IslandFreshness) -> bool {
    f.decision_stale || match (f.newest_evidence_ms, f.decision_updated_at_ms) {
        (Some(n), Some(t)) => n > t,
        _ => false,
    }
}

/// The decision's target is suppressed for some reason.
pub open spec fn suppressed(d: ContinueDecisionResult) -> bool {
    raw_suppression_reasons(d).len() > 0
}

/// The recap's safe note on a recent detour or on supporting context.
pub open spec fn recent_context(d: ContinueDecisionResult) -> Option<Seq<char>> {
    let recap = d.activity_recap;
    or_else(
        if recap.recent_detours@.len() > 0 {
            safe(Some(recap.recent_detours@[0].reason@))
        } else {
            None
        },
        if recap.supporting_context@.len() > 0 {
            safe(Some(recap.supporting_context@[0].summary@))
        } else {
            None
        },
    )
}

/// The recap has some safe copy to show.
pub open spec fn recap_useful(d: ContinueDecisionResult) -> bool {
    let recap = d.activity_recap;
    ||| safe(opt_str(recap.primary_work_summary)) is Some
    ||| safe(opt_str(recap.primary_work_label)) is Some
    ||| safe(opt_str(recap.primary_where_summary)) is Some
    ||| safe(opt_str(recap.last_meaningful_state)) is Some
    ||| safe(opt_str(recap.unfinished_state)) is Some
    ||| recent_context(d) is Some
}

/// The island may open the Continue target.
pub open spec fn can_open(d: ContinueDecisionResult, f: IslandFreshness) -> bool {
    match authoritative_answer(d) {
        Some(a) => {
            &&& !is_stale(f)
            &&& a.task_resolution_status != "unresolved"@
            &&& match ret_target(d) {
                Some(t) => t.openable,
                None => false,
            }
            &&& !is_blank(d.decision_id@)
        },
        None => {
            &&& !is_stale(f)
            &&& !no_clear_task(d)
            &&& !suppressed(d)
            &&& !support_blocked(d)
            &&& !rejected_status(d.validation_status@)
            &&& !no_clear_mode(d)
            &&& has_openable(d)
            &&& d.direct_target_policy.direct_target_allowed
            &&& d.target_truth.state@ == "direct_continue_ready"@
            &&& !is_blank(d.decision_id@)
        },
    }
}

/// Evidence can be inspected.
pub open spec fn inspectable(d: ContinueDecisionResult) -> bool {
    anchor_count(d) > 0 || match authoritative_answer(d) {
        Some(a) => a.evidence_preview is Some,
        None => false,
    }
}

/// The island's display state for a decision.
pub open spec fn display_of(
    d: ContinueDecisionResult,
    f: IslandFreshness,
    c: IslandStateContext,
) -> IslandDisplayState {
    let ts = d.target_truth.state@;
    if is_stale(f) {
        IslandDisplayState::NeedsRefresh
    } else if authoritative_answer(d) is Some {
        if no_clear_task(d) {
            IslandDisplayState::NoClearContinuation
        } else if can_open(d, f) {
            IslandDisplayState::ContinueReady
        } else {
            IslandDisplayState::InspectOnly
        }
    } else if support_blocked(d) {
        IslandDisplayState::SupportBlocked
    } else if suppressed(d) {
        IslandDisplayState::TargetSuppressed
    } else if no_clear_task(d) {
        IslandDisplayState::NoClearContinuation
    } else if can_open(d, f) {
        IslandDisplayState::ContinueReady
    } else if ts == "task_known_target_unknown"@ || ts == "activity_known_target_unknown"@ {
        IslandDisplayState::InspectOnly
    } else if ts == "thin_task_seen"@ {
        IslandDisplayState::ThinCurrentWork
    } else if no_clear_mode(d) && !work_supported(d) {
        IslandDisplayState::NoClearContinuation
    } else if d.current_focus is Some && !has_any_target(d) {
        if d.active_current_work_unresolved is Some || thin(d) {
            IslandDisplayState::ThinCurrentWork
        } else {
            IslandDisplayState::NoClearContinuation
        }
    } else if thin(d) {
        IslandDisplayState::ThinCurrentWork
    } else if inspectable(d) {
        IslandDisplayState::InspectOnly
    } else if c.local_memory_running || c.has_local_memory {
        IslandDisplayState::LocalMemoryWarming
    } else {
        IslandDisplayState::NoClearContinuation
    }
}

/// Choose-or-reject feedback on one alternative hypothesis.
pub open spec fn alt_actions(id: Seq<char>, a: AnswerView, h: AlternativeView) -> Seq<ActionView> {
    seq![
        scoped(
            IslandActionKind::ChooseTaskAlternative,
            "Use: "@ + h.task_summary,
            id,
            a,
            "hypothesis"@,
            Some(h.hypothesis_id),
        ),
        scoped(
            IslandActionKind::RejectTaskAlternative,
            "Reject: "@ + h.task_summary,
            id,
            a,
            "hypothesis"@,
            Some(h.hypothesis_id),
        ),
    ]
}

/// Label of the action that reactivates the selected task.
pub open spec fn reactivate_label() -> Seq<char> {
    "Reactivate this"@ + " task"@
}

/// Feedback actions scoped to the answer's task snapshot: the first two
/// alternatives, the selected task, and the selected hypothesis.
pub open spec fn task_feedback_actions(id: Seq<char>, a: AnswerView) -> Seq<ActionView> {
    let alts = a.alternative_hypotheses;
    (if alts.len() >= 1 {
        alt_actions(id, a, alts[0])
    } else {
        Seq::empty()
    }) + (if alts.len() >= 2 {
        alt_actions(id, a, alts[1])
    } else {
        Seq::empty()
    }) + (if a.task_summary is Some {
        seq![
            scoped(
                IslandActionKind::RejectSelectedTask,
                "Selected task is not right"@,
                id,
                a,
                "task_summary"@,
                None,
            ),
        ]
    } else {
        Seq::empty()
    }) + (match a.selected_hypothesis_id {
        Some(h) => seq![
            scoped(
                IslandActionKind::MarkSupportingWork,
                "This was supporting work"@,
                id,
                a,
                "relationship"@,
                Some(h),
            ),
            scoped(
                IslandActionKind::MarkUnrelatedActivity,
                "This was unrelated"@,
                id,
                a,
                "relationship"@,
                Some(h),
            ),
            scoped(
                IslandActionKind::MarkTaskCompleted,
                "Mark task complete"@,
                id,
                a,
                "task_status"@,
                Some(h),
            ),
            scoped(
                IslandActionKind::ReactivateTask,
                reactivate_label(),
                id,
                a,
                "task_status"@,
                Some(h),
            ),
        ],
        None => Seq::empty(),
    })
}

/// Task feedback is offered for a current answer with a snapshot identity.
pub open spec fn scoped_part(id: Seq<char>, ans: Option<AnswerView>, stale: bool) -> Seq<ActionView> {
    if stale {
        Seq::empty()
    } else {
        match ans {
            Some(a) => if !is_blank(id) && !is_blank(a.snapshot_id) && a.snapshot_revision > 0 {
                task_feedback_actions(id, a)
            } else {
                Seq::empty()
            },
            None => Seq::empty(),
        }
    }
}

/// Display states in which the island offers to refresh Continue.
pub open spec fn soft_state(ds: IslandDisplayState) -> bool {
    ||| ds == IslandDisplayState::ThinCurrentWork
    ||| ds == IslandDisplayState::TargetSuppressed
    ||| ds == IslandDisplayState::SupportBlocked
    ||| ds == IslandDisplayState::InspectOnly
    ||| ds == IslandDisplayState::NoClearContinuation
}

/// Facts about a decision that select the island's actions.
pub struct ActionFacts {
    pub stale: bool,
    pub display: IslandDisplayState,
    pub can_open: bool,
    pub no_clear: bool,
    pub has_any_target: bool,
    pub thin: bool,
    pub has_openable: bool,
    pub support_blocked: bool,
    pub suppressed: bool,
    pub anchors: bool,
    pub unresolved_work: bool,
}

/// Refresh first when the decision is stale.
pub open spec fn stale_part(x: ActionFacts) -> Seq<ActionView> {
    if x.stale {
        seq![plain(IslandActionKind::RefreshContinue, "Refresh Continue"@, None)]
    } else {
        Seq::empty()
    }
}

/// Refresh when the state is current but weak.
pub open spec fn soft_part(x: ActionFacts) -> Seq<ActionView> {
    if !x.stale && soft_state(x.display) {
        seq![plain(IslandActionKind::RefreshContinue, "Refresh Continue"@, None)]
    } else {
        Seq::empty()
    }
}

/// Open the target, under the decision's id.
pub open spec fn open_part(id: Seq<char>, x: ActionFacts) -> Seq<ActionView> {
    if x.can_open {
        seq![plain(IslandActionKind::OpenContinueTarget, "Continue here"@, Some(id))]
    } else {
        Seq::empty()
    }
}

/// "Not right" feedback on the target, under the decision's id.
pub open spec fn wrong_target_part(id: Seq<char>, x: ActionFacts) -> Seq<ActionView> {
    if !x.no_clear && x.has_any_target && !is_blank(id) {
        seq![plain(IslandActionKind::MarkWrongTarget, "Not right"@, Some(id))]
    } else {
        Seq::empty()
    }
}

/// "Not useful" feedback on the target, under the decision's id.
pub open spec fn not_useful_part(id: Seq<char>, x: ActionFacts) -> Seq<ActionView> {
    if !x.no_clear && x.has_any_target && !is_blank(id) {
        seq![plain(IslandActionKind::MarkNotUseful, "Not useful"@, Some(id))]
    } else {
        Seq::empty()
    }
}

/// "Open Smalltalk" is always offered.
pub open spec fn smalltalk_part() -> Seq<ActionView> {
    seq![plain(IslandActionKind::OpenSmalltalk, "Open Smalltalk"@, None)]
}

/// Inspect the evidence when there is any or the target is weak.
pub open spec fn inspect_part(x: ActionFacts) -> Seq<ActionView> {
    if x.anchors || x.thin || !x.has_openable || x.support_blocked || x.suppressed
        || x.unresolved_work {
        seq![plain(IslandActionKind::InspectEvidence, "Inspect evidence"@, None)]
    } else {
        Seq::empty()
    }
}

/// Capture new evidence when current work is thin or unclear.
pub open spec fn capture_part(x: ActionFacts) -> Seq<ActionView> {
    if x.display == IslandDisplayState::ThinCurrentWork || x.display
        == IslandDisplayState::NoClearContinuation {
        seq![plain(IslandActionKind::CaptureEvidenceNow, "Update local evidence"@, None)]
    } else {
        Seq::empty()
    }
}

/// The actions offered for the given facts, in order.
pub open spec fn action_list(id: Seq<char>, ans: Option<AnswerView>, x: ActionFacts) -> Seq<ActionView> {
    stale_part(x) + soft_part(x) + open_part(id, x) + wrong_target_part(id, x) + not_useful_part(
        id,
        x,
    ) + scoped_part(id, ans, x.stale) + inspect_part(x) + smalltalk_part() + capture_part(x)
}

/// The facts of a decision under the given freshness and context.
pub open spec fn facts_of(d: ContinueDecisionResult, f: IslandFreshness, c: IslandStateContext) -> ActionFacts {
    ActionFacts {
        stale: is_stale(f),
        display: display_of(d, f, c),
        can_open: can_open(d, f),
        no_clear: no_clear_task(d),
        has_any_target: has_any_target(d),
        thin: thin(d),
        has_openable: has_openable(d),
        support_blocked: support_blocked(d),
        suppressed: suppressed(d),
        anchors: anchor_count(d) > 0,
        unresolved_work: d.active_current_work_unresolved is Some,
    }
}

/// Appends a scoped feedback action.
fn push_scoped(
    actions: &mut Vec<IslandAvailableAction>,
    kind: IslandActionKind,
    label: String,
    decision_id: &str,
    answer: &TaskTruthPublicAnswerV1,
    field: &str,
    hypothesis: Option<String>,
)
    ensures
        actions_view(final(actions)@) == actions_view(old(actions)@).push(
            scoped(kind, label@, decision_id@, answer@, field@, opt_str(hypothesis)),
        ),
{
    let a = IslandAvailableAction::scoped_task_feedback(
        kind,
        label,
        decision_id,
        answer,
        field,
        hypothesis,
    );
    actions.push(a);
    assert(actions_view(actions@) =~= actions_view(old(actions)@).push(a@));
}

/// Appends the task feedback actions for an answer.
fn push_task_feedback(
    actions: &mut Vec<IslandAvailableAction>,
    decision_id: &str,
    answer: &TaskTruthPublicAnswerV1,
)
    ensures
        actions_view(final(actions)@) == actions_view(old(actions)@) + task_feedback_actions(
            decision_id@,
            answer@,
        ),
{
    let ghost start = actions_view(actions@);
    let ghost a = answer@;
    let ghost id = decision_id@;
    let alts = &answer.alternative_hypotheses;
    if alts.len() >= 1 {
        let h = &alts[0];
        assert(a.alternative_hypotheses[0] == h@);
        push_scoped(
            actions,
            IslandActionKind::ChooseTaskAlternative,
            concat("Use: ", h.task_summary.as_str()),
            decision_id,
            answer,
            "hypothesis",
            Some(h.hypothesis_id.clone()),
        );
        push_scoped(
            actions,
            IslandActionKind::RejectTaskAlternative,
            concat("Reject: ", h.task_summary.as_str()),
            decision_id,
            answer,
            "hypothesis",
            Some(h.hypothesis_id.clone()),
        );
    }
    let ghost after_first = actions_view(actions@);
    assert(after_first =~= start + (if a.alternative_hypotheses.len() >= 1 {
        alt_actions(id, a, a.alternative_hypotheses[0])
    } else {
        Seq::empty()
    }));
    if alts.len() >= 2 {
        let h = &alts[1];
        assert(a.alternative_hypotheses[1] == h@);
        push_scoped(
            actions,
            IslandActionKind::ChooseTaskAlternative,
            concat("Use: ", h.task_summary.as_str()),
            decision_id,
            answer,
            "hypothesis",
            Some(h.hypothesis_id.clone()),
        );
        push_scoped(
            actions,
            IslandActionKind::RejectTaskAlternative,
            concat("Reject: ", h.task_summary.as_str()),
            decision_id,
            answer,
            "hypothesis",
            Some(h.hypothesis_id.clone()),
        );
    }
    let ghost after_second = actions_view(actions@);
    assert(after_second =~= after_first + (if a.alternative_hypotheses.len() >= 2 {
        alt_actions(id, a, a.alternative_hypotheses[1])
    } else {
        Seq::empty()
    }));
    if answer.task_summary.is_some() {
        push_scoped(
            actions,
            IslandActionKind::RejectSelectedTask,
            copy_str("Selected task is not right"),
            decision_id,
            answer,
            "task_summary",
            None,
        );
    }
    let ghost after_task = actions_view(actions@);
    match &answer.selected_hypothesis_id {
        Some(h) => {
            push_scoped(
                actions,
                IslandActionKind::MarkSupportingWork,
                copy_str("This was supporting work"),
                decision_id,
                answer,
                "relationship",
                Some(h.clone()),
            );
            push_scoped(
                actions,
                IslandActionKind::MarkUnrelatedActivity,
                copy_str("This was unrelated"),
                decision_id,
                answer,
                "relationship",
                Some(h.clone()),
            );
            push_scoped(
                actions,
                IslandActionKind::MarkTaskCompleted,
                copy_str("Mark task complete"),
                decision_id,
                answer,
                "task_status",
                Some(h.clone()),
            );
            push_scoped(
                actions,
                IslandActionKind::ReactivateTask,
                concat("Reactivate this", " task"),
                decision_id,
                answer,
                "task_status",
                Some(h.clone()),
            );
        },
        None => {},
    }
    assert(actions_view(actions@) =~= start + task_feedback_actions(id, a));
}

/// Appends an enabled action when `cond` holds.
fn extend_if(
    actions: &mut Vec<IslandAvailableAction>,
    cond: bool,
    kind: IslandActionKind,
    label: &str,
    decision_id: Option<String>,
)
    ensures
        actions_view(final(actions)@) == actions_view(old(actions)@) + (if cond {
            seq![plain(kind, label@, opt_str(decision_id))]
        } else {
            Seq::empty()
        }),
{
    if cond {
        push_plain(actions, kind, label, decision_id);
        assert(actions_view(old(actions)@).push(plain(kind, label@, opt_str(decision_id)))
            =~= actions_view(old(actions)@) + seq![plain(kind, label@, opt_str(decision_id))]);
    } else {
        assert(actions_view(old(actions)@) =~= actions_view(old(actions)@) + Seq::<
            ActionView,
        >::empty());
    }
}

/// Appends the task feedback actions when they are offered.
fn extend_scoped(
    actions: &mut Vec<IslandAvailableAction>,
    decision_id: &str,
    answer: &Option<TaskTruthPublicAnswerV1>,
    stale: bool,
)
    ensures
        actions_view(final(actions)@) == actions_view(old(actions)@) + scoped_part(
            decision_id@,
            opt_answer(*answer),
            stale,
        ),
{
    let mut done = false;
    if !stale {
        match answer {
            Some(a) => {
                if !str_is_blank(decision_id) && !str_is_blank(a.snapshot_id.as_str())
                    && a.snapshot_revision > 0 {
                    push_task_feedback(actions, decision_id, a);
                    done = true;
                }
            },
            None => {},
        }
    }
    if !done {
        assert(actions_view(old(actions)@) =~= actions_view(old(actions)@) + Seq::<
            ActionView,
        >::empty());
    }
}

/// The actions of the island for the given facts.
fn build_actions(
    decision_id: &str,
    answer: &Option<TaskTruthPublicAnswerV1>,
    x: &ActionFactsExec,
) -> (r: Vec<IslandAvailableAction>)
    ensures
        actions_view(r@) == action_list(decision_id@, opt_answer(*answer), x.facts()),
{
    let ghost id = decision_id@;
    let ghost fx = x.facts();
    let blank_id = str_is_blank(decision_id);
    let mut actions: Vec<IslandAvailableAction> = Vec::new();
    assert(actions_view(actions@) =~= Seq::<ActionView>::empty());
    extend_if(&mut actions, x.stale, IslandActionKind::RefreshContinue, "Refresh Continue", None);
    assert(Seq::<ActionView>::empty() + stale_part(fx) =~= stale_part(fx));
    let soft = matches!(
        x.display,
        IslandDisplayState::ThinCurrentWork | IslandDisplayState::TargetSuppressed
            | IslandDisplayState::SupportBlocked | IslandDisplayState::InspectOnly
            | IslandDisplayState::NoClearContinuation
    );
    extend_if(
        &mut actions,
        !x.stale && soft,
        IslandActionKind::RefreshContinue,
        "Refresh Continue",
        None,
    );
    extend_if(
        &mut actions,
        x.can_open,
        IslandActionKind::OpenContinueTarget,
        "Continue here",
        Some(copy_str(decision_id)),
    );
    let feedback = !x.no_clear && x.has_any_target && !blank_id;
    extend_if(
        &mut actions,
        feedback,
        IslandActionKind::MarkWrongTarget,
        "Not right",
        Some(copy_str(decision_id)),
    );
    extend_if(
        &mut actions,
        feedback,
        IslandActionKind::MarkNotUseful,
        "Not useful",
        Some(copy_str(decision_id)),
    );
    extend_scoped(&mut actions, decision_id, answer, x.stale);
    extend_if(
        &mut actions,
        x.anchors || x.thin || !x.has_openable || x.support_blocked || x.suppressed
            || x.unresolved_work,
        IslandActionKind::InspectEvidence,
        "Inspect evidence",
        None,
    );
    extend_if(&mut actions, true, IslandActionKind::OpenSmalltalk, "Open Smalltalk", None);
    let capture = matches!(
        x.display,
        IslandDisplayState::ThinCurrentWork | IslandDisplayState::NoClearContinuation
    );
    extend_if(
        &mut actions,
        capture,
        IslandActionKind::CaptureEvidenceNow,
        "Update local evidence",
        None,
    );
    actions
}

/// The facts that select the actions, as computed.
pub struct ActionFactsExec {
    pub stale: bool,
    pub display: IslandDisplayState,
    pub can_open: bool,
    pub no_clear: bool,
    pub has_any_target: bool,
    pub thin: bool,
    pub has_openable: bool,
    pub support_blocked: bool,
    pub suppressed: bool,
    pub anchors: bool,
    pub unresolved_work: bool,
}

impl ActionFactsExec {
    /// The same facts.
    pub open spec fn facts(&self) -> ActionFacts {
        ActionFacts {
            stale: self.stale,
            display: self.display,
            can_open: self.can_open,
            no_clear: self.no_clear,
            has_any_target: self.has_any_target,
            thin: self.thin,
            has_openable: self.has_openable,
            support_blocked: self.support_blocked,
            suppressed: self.suppressed,
            anchors: self.anchors,
            unresolved_work: self.unresolved_work,
        }
    }
}


/// The target state the island reports.
pub open spec fn target_state_of(d: ContinueDecisionResult, f: IslandFreshness) -> Seq<char> {
    if is_stale(f) {
        "stale_decision"@
    } else {
        match authoritative_answer(d) {
            Some(a) => if a.task_resolution_status == "unresolved"@ && !visible_semantics(a) {
                "no_clear_task"@
            } else if a.direct_return_target is Some {
                "direct_continue_ready"@
            } else {
                "task_known_target_unknown"@
            },
            None => d.target_truth.state@,
        }
    }
}

/// The reason codes the island reports.
pub open spec fn reason_codes_of(d: ContinueDecisionResult, f: IslandFreshness) -> Seq<Seq<char>> {
    if is_stale(f) {
        seq!["target_stale"@]
    } else if authoritative_answer(d) is Some {
        strs(d.task_truth_v2.reason_codes@)
    } else {
        strs(d.target_truth.reason_codes@)
    }
}

/// The focus the island shows: only without an answer.
pub open spec fn focus_shown(d: ContinueDecisionResult) -> Option<FocusView> {
    if authoritative_answer(d) is None {
        match d.current_focus {
            Some(fc) => focus_of(fc),
            None => None,
        }
    } else {
        None
    }
}

/// The current activity line.
pub open spec fn activity_of(d: ContinueDecisionResult) -> Option<Seq<char>> {
    match authoritative_answer(d) {
        Some(a) => semantic_activity(a),
        None => if !no_clear_task(d) {
            safe(or_else(opt_str(d.work_truth.activity_summary), opt_str(d.current_activity)))
        } else {
            None
        },
    }
}

/// The activity label: only without an answer and with a clear task.
pub open spec fn activity_label_of(d: ContinueDecisionResult) -> Option<Seq<char>> {
    if authoritative_answer(d) is None && !no_clear_task(d) {
        if d.work_truth.resolution_status@ == "activity_supported"@ {
            or_else(
                safe(Some(d.work_truth.activity_kind@)),
                safe(opt_str(d.activity_recap.primary_work_label)),
            )
        } else {
            safe(opt_str(d.activity_recap.primary_work_label))
        }
    } else {
        None
    }
}

/// The activity summary: the answer's task summary, or the decision's
/// activity, answer or recap summary.
pub open spec fn activity_summary_of(d: ContinueDecisionResult) -> Option<Seq<char>> {
    if no_clear_task(d) {
        None
    } else {
        match authoritative_answer(d) {
            Some(a) => safe(a.task_summary),
            None => safe(
                or_else(
                    opt_str(d.work_truth.activity_summary),
                    or_else(
                        opt_str(d.answer.what_you_were_doing),
                        opt_str(d.activity_recap.primary_work_summary),
                    ),
                ),
            ),
        }
    }
}

/// Where the activity happens.
pub open spec fn activity_where_of(d: ContinueDecisionResult) -> Option<Seq<char>> {
    match authoritative_answer(d) {
        Some(a) => safe(a.where_summary),
        None => if no_clear_task(d) {
            safe(opt_str(d.supported_surface))
        } else {
            safe(
                or_else(
                    opt_str(d.work_truth.where_summary),
                    or_else(
                        opt_str(d.answer.where_label),
                        opt_str(d.activity_recap.primary_where_summary),
                    ),
                ),
            )
        },
    }
}

/// Two optional parts joined by a space.
pub open spec fn join_parts(p: Option<Seq<char>>, q: Option<Seq<char>>) -> Option<Seq<char>> {
    match (p, q) {
        (Some(x), Some(y)) => Some(x + " "@ + y),
        (Some(x), None) => Some(x),
        (None, Some(y)) => Some(y),
        (None, None) => None,
    }
}

/// Where the work stands.
pub open spec fn activity_state_of(d: ContinueDecisionResult) -> Option<Seq<char>> {
    if no_clear_task(d) {
        None
    } else {
        match authoritative_answer(d) {
            Some(a) => join_parts(safe(a.last_meaningful_progress), safe(a.unfinished_state)),
            None => safe(
                or_else(
                    opt_str(d.answer.where_you_left_off),
                    or_else(
                        opt_str(d.activity_recap.last_meaningful_state),
                        or_else(
                            opt_str(d.activity_recap.unfinished_state),
                            state_label(d.activity_recap.current_state),
                        ),
                    ),
                ),
            ),
        }
    }
}

/// Confidence labels are shown only for a legacy decision with useful copy.
pub open spec fn shows_confidence(d: ContinueDecisionResult) -> bool {
    authoritative_answer(d) is None && !no_clear_task(d) && recap_useful(d)
}

/// The activity confidence label.
pub open spec fn activity_confidence_of(d: ContinueDecisionResult) -> Option<Seq<char>> {
    if shows_confidence(d) {
        if d.answer.what_you_were_doing is Some {
            Some(d.answer.task_confidence_label@)
        } else {
            Some(confidence_label_of(d.activity_recap.activity_confidence))
        }
    } else {
        None
    }
}

/// The target confidence label.
pub open spec fn target_confidence_of(d: ContinueDecisionResult) -> Option<Seq<char>> {
    if shows_confidence(d) {
        if d.answer.what_you_were_doing is Some {
            Some(d.answer.target_confidence_label@)
        } else {
            Some(confidence_label_of(d.activity_recap.target_confidence))
        }
    } else {
        None
    }
}

/// Legacy copy is shown only without an answer and with a clear task.
pub open spec fn shows_legacy(d: ContinueDecisionResult) -> bool {
    authoritative_answer(d) is None && !no_clear_task(d)
}

/// The selected workstream's title.
pub open spec fn workstream_title_of(d: ContinueDecisionResult) -> Option<Seq<char>> {
    if shows_legacy(d) {
        match d.selected_workstream {
            Some(w) => safe(opt_str(w.title_candidate)),
            None => None,
        }
    } else {
        None
    }
}

/// The next action.
pub open spec fn next_action_of(d: ContinueDecisionResult) -> Option<Seq<char>> {
    if no_clear_task(d) {
        None
    } else {
        match authoritative_answer(d) {
            Some(a) => safe(a.next_action),
            None => safe(
                or_else(opt_str(d.activity_recap.next_action_summary), Some(d.answer.next@)),
            ),
        }
    }
}

/// The validation status.
pub open spec fn validation_status_of(d: ContinueDecisionResult) -> Option<Seq<char>> {
    match authoritative_answer(d) {
        Some(a) => safe(Some(a.task_resolution_status)),
        None => safe(Some(d.validation_status@)),
    }
}

/// What `island_state_from_continue_decision` returns, field by field.
pub open spec fn island_state_of(
    d: ContinueDecisionResult,
    f: IslandFreshness,
    c: IslandStateContext,
    r: IslandContinueState,
) -> bool {
    let ans = authoritative_answer(d);
    let no_clear = no_clear_task(d);
    let legacy = ans is None;
    &&& r.schema@ == ISLAND_CONTINUE_STATE_SCHEMA@
    &&& r.generated_at_ms == match f.decision_updated_at_ms {
        Some(t) => t,
        None => 0,
    }
    &&& r.source == if d.cache_hit {
        IslandContinueSource::ContinueDecisionCache
    } else {
        IslandContinueSource::ContinueDecision
    }
    &&& r.display_state == display_of(d, f, c)
    &&& opt_str(r.decision_id) == if is_blank(d.decision_id@) {
        None
    } else {
        Some(d.decision_id@)
    }
    &&& r.decision_cache_hit == d.cache_hit
    &&& r.evidence_watermark_ms == f.evidence_watermark_ms
    &&& r.decision_stale == is_stale(f)
    &&& r.target_state@ == target_state_of(d, f)
    &&& strs(r.target_reason_codes@) == reason_codes_of(d, f)
    &&& opt_answer(r.semantic_answer) == ans
    &&& opt_focus(r.current_focus) == focus_shown(d)
    &&& opt_str(r.current_activity) == activity_of(d)
    &&& opt_str(r.activity_label) == activity_label_of(d)
    &&& opt_str(r.activity_summary) == activity_summary_of(d)
    &&& opt_str(r.activity_where) == activity_where_of(d)
    &&& opt_str(r.activity_state) == activity_state_of(d)
    &&& opt_str(r.activity_confidence_label) == activity_confidence_of(d)
    &&& opt_str(r.target_confidence_label) == target_confidence_of(d)
    &&& opt_str(r.recent_context_summary) == if shows_legacy(d) {
        recent_context(d)
    } else {
        None
    }
    &&& opt_str(r.selected_workstream_title) == workstream_title_of(d)
    &&& opt_summary(r.return_target) == if no_clear {
        None
    } else {
        ret_target(d)
    }
    &&& opt_summary(r.resume_work_target) == if no_clear {
        None
    } else {
        resume_target(d)
    }
    &&& opt_str(r.next_action) == next_action_of(d)
    &&& opt_str(r.confidence_label) == if legacy {
        safe(Some(d.confidence_label@))
    } else {
        None
    }
    &&& opt_str(r.validation_status) == validation_status_of(d)
    &&& opt_str(r.provenance_label) == if legacy {
        safe(Some(d.wording_source@))
    } else {
        None
    }
    &&& strs(r.missing_evidence@) == merge_notes(
        merge_notes(Seq::empty(), strs(d.activity_recap.missing_evidence@)),
        strs(d.missing_evidence@),
    )
    &&& strs(r.warnings@) == merge_notes(
        merge_notes(Seq::empty(), strs(d.activity_recap.warnings@)),
        strs(d.warnings@),
    )
    &&& if legacy {
        &&& sorted_unique(strs(r.suppression_reasons@))
        &&& strs(r.suppression_reasons@).to_set() == raw_suppression_reasons(d).to_set()
    } else {
        r.suppression_reasons@.len() == 0
    }
    &&& actions_view(r.available_actions@) == action_list(d.decision_id@, ans, facts_of(d, f, c))
    &&& r.inspect_anchor_count == anchor_count(d) + match ans {
        Some(a) => if a.evidence_preview is Some {
            1int
        } else {
            0
        },
        None => 0,
    }
    &&& r.audit_path is None
}


/// The first present one of two optional texts.
fn first_present2<'a>(a: &'a Option<String>, b: &'a Option<String>) -> (r: Option<&'a str>)
    ensures
        match r {
            Some(s) => or_else(opt_str(*a), opt_str(*b)) == Some(s@),
            None => or_else(opt_str(*a), opt_str(*b)) is None,
        },
{
    match a {
        Some(s) => Some(s.as_str()),
        None => match b {
            Some(s) => Some(s.as_str()),
            None => None,
        },
    }
}

/// The shown return and resume targets.
fn shown_targets(
    decision: &ContinueDecisionResult,
    answer: &Option<TaskTruthPublicAnswerV1>,
) -> (r: (Option<IslandTargetSummary>, Option<IslandTargetSummary>))
    requires
        opt_answer(*answer) == authoritative_answer(*decision),
    ensures
        opt_summary(r.0) == ret_target(*decision),
        opt_summary(r.1) == resume_target(*decision),
{
    let return_target = match answer {
        Some(a) => match &a.direct_return_target {
            Some(t) => Some(target_summary(t)),
            None => None,
        },
        None => match &decision.return_target {
            Some(t) => Some(target_summary(t)),
            None => None,
        },
    };
    let resume_work_target = if answer.is_none() {
        match &decision.resume_work_target {
            Some(t) => Some(target_summary(t)),
            None => None,
        }
    } else {
        None
    };
    (return_target, resume_work_target)
}

/// Whether there is no clear current task.
fn no_clear_current_task(
    decision: &ContinueDecisionResult,
    answer: &Option<TaskTruthPublicAnswerV1>,
) -> (b: bool)
    requires
        opt_answer(*answer) == authoritative_answer(*decision),
    ensures
        b == no_clear_task(*decision),
{
    match answer {
        Some(a) => str_eq(a.task_resolution_status.as_str(), "unresolved")
            && !has_visible_task_truth_semantics(a),
        None => {
            let rs = decision.work_truth.resolution_status.as_str();
            let work_supported = str_eq(rs, "task_supported") || str_eq(rs, "activity_supported");
            str_eq(decision.task_resolution_status.as_str(), "no_clear_current_task")
                && !work_supported
        },
    }
}

/// The recap's safe note on a detour or supporting context.
fn recent_context_summary(decision: &ContinueDecisionResult) -> (r: Option<String>)
    ensures
        opt_str(r) == recent_context(*decision),
{
    let recap = &decision.activity_recap;
    let detour = if recap.recent_detours.len() > 0 {
        safe_text(Some(recap.recent_detours[0].reason.as_str()))
    } else {
        None
    };
    match detour {
        Some(t) => Some(t),
        None => if recap.supporting_context.len() > 0 {
            safe_text(Some(recap.supporting_context[0].summary.as_str()))
        } else {
            None
        },
    }
}

/// Whether the recap has some safe copy.
fn recap_has_useful_copy(decision: &ContinueDecisionResult, recent: &Option<String>) -> (b: bool)
    requires
        opt_str(*recent) == recent_context(*decision),
    ensures
        b == recap_useful(*decision),
{
    let recap = &decision.activity_recap;
    safe_text_opt(&recap.primary_work_summary).is_some() || safe_text_opt(
        &recap.primary_work_label,
    ).is_some() || safe_text_opt(&recap.primary_where_summary).is_some() || safe_text_opt(
        &recap.last_meaningful_state,
    ).is_some() || safe_text_opt(&recap.unfinished_state).is_some() || recent.is_some()
}

/// The current activity line.
fn current_activity_line(
    decision: &ContinueDecisionResult,
    answer: &Option<TaskTruthPublicAnswerV1>,
    no_clear: bool,
) -> (r: Option<String>)
    requires
        opt_answer(*answer) == authoritative_answer(*decision),
        no_clear == no_clear_task(*decision),
    ensures
        opt_str(r) == activity_of(*decision),
{
    match answer {
        Some(a) => semantic_current_activity(a),
        None => if !no_clear {
            safe_text(first_present2(&decision.work_truth.activity_summary, &decision.current_activity))
        } else {
            None
        },
    }
}

/// The activity label.
fn activity_label_line(
    decision: &ContinueDecisionResult,
    answer: &Option<TaskTruthPublicAnswerV1>,
    no_clear: bool,
) -> (r: Option<String>)
    requires
        opt_answer(*answer) == authoritative_answer(*decision),
        no_clear == no_clear_task(*decision),
    ensures
        opt_str(r) == activity_label_of(*decision),
{
    if answer.is_none() && !no_clear {
        if str_eq(decision.work_truth.resolution_status.as_str(), "activity_supported") {
            match safe_text(Some(decision.work_truth.activity_kind.as_str())) {
                Some(t) => Some(t),
                None => safe_text_opt(&decision.activity_recap.primary_work_label),
            }
        } else {
            safe_text_opt(&decision.activity_recap.primary_work_label)
        }
    } else {
        None
    }
}

/// The activity summary.
fn activity_summary_line(
    decision: &ContinueDecisionResult,
    answer: &Option<TaskTruthPublicAnswerV1>,
    no_clear: bool,
) -> (r: Option<String>)
    requires
        opt_answer(*answer) == authoritative_answer(*decision),
        no_clear == no_clear_task(*decision),
    ensures
        opt_str(r) == activity_summary_of(*decision),
{
    if no_clear {
        return None;
    }
    match answer {
        Some(a) => safe_text_opt(&a.task_summary),
        None => safe_text(
            first_present3(
                &decision.work_truth.activity_summary,
                &decision.answer.what_you_were_doing,
                &decision.activity_recap.primary_work_summary,
            ),
        ),
    }
}

/// Where the activity happens.
fn activity_where_line(
    decision: &ContinueDecisionResult,
    answer: &Option<TaskTruthPublicAnswerV1>,
    no_clear: bool,
) -> (r: Option<String>)
    requires
        opt_answer(*answer) == authoritative_answer(*decision),
        no_clear == no_clear_task(*decision),
    ensures
        opt_str(r) == activity_where_of(*decision),
{
    match answer {
        Some(a) => safe_text_opt(&a.where_summary),
        None => if no_clear {
            safe_text_opt(&decision.supported_surface)
        } else {
            safe_text(
                first_present3(
                    &decision.work_truth.where_summary,
                    &decision.answer.where_label,
                    &decision.activity_recap.primary_where_summary,
                ),
            )
        },
    }
}

/// Where the work stands.
fn activity_state_line(
    decision: &ContinueDecisionResult,
    answer: &Option<TaskTruthPublicAnswerV1>,
    no_clear: bool,
) -> (r: Option<String>)
    requires
        opt_answer(*answer) == authoritative_answer(*decision),
        no_clear == no_clear_task(*decision),
    ensures
        opt_str(r) == activity_state_of(*decision),
{
    if no_clear {
        return None;
    }
    match answer {
        Some(a) => {
            let p = safe_text_opt(&a.last_meaningful_progress);
            let q = safe_text_opt(&a.unfinished_state);
            match (p, q) {
                (Some(x), Some(y)) => {
                    let with_space = concat(x.as_str(), " ");
                    Some(concat(with_space.as_str(), y.as_str()))
                },
                (Some(x), None) => Some(x),
                (None, Some(y)) => Some(y),
                (None, None) => None,
            }
        },
        None => {
            let recap = &decision.activity_recap;
            let source = match first_present3(
                &decision.answer.where_you_left_off,
                &recap.last_meaningful_state,
                &recap.unfinished_state,
            ) {
                Some(s) => Some(s),
                None => activity_state_label(recap.current_state),
            };
            safe_text(source)
        },
    }
}

/// The activity and target confidence labels.
fn confidence_lines(decision: &ContinueDecisionResult, shows: bool) -> (r: (
    Option<String>,
    Option<String>,
))
    requires
        shows == shows_confidence(*decision),
    ensures
        opt_str(r.0) == activity_confidence_of(*decision),
        opt_str(r.1) == target_confidence_of(*decision),
{
    if !shows {
        return (None, None);
    }
    if decision.answer.what_you_were_doing.is_some() {
        (
            Some(decision.answer.task_confidence_label.clone()),
            Some(decision.answer.target_confidence_label.clone()),
        )
    } else {
        (
            Some(copy_str(activity_confidence_label(decision.activity_recap.activity_confidence))),
            Some(copy_str(activity_confidence_label(decision.activity_recap.target_confidence))),
        )
    }
}

/// The next action.
fn next_action_line(
    decision: &ContinueDecisionResult,
    answer: &Option<TaskTruthPublicAnswerV1>,
    no_clear: bool,
) -> (r: Option<String>)
    requires
        opt_answer(*answer) == authoritative_answer(*decision),
        no_clear == no_clear_task(*decision),
    ensures
        opt_str(r) == next_action_of(*decision),
{
    if no_clear {
        return None;
    }
    match answer {
        Some(a) => safe_text_opt(&a.next_action),
        None => match &decision.activity_recap.next_action_summary {
            Some(s) => safe_text(Some(s.as_str())),
            None => safe_text(Some(decision.answer.next.as_str())),
        },
    }
}

/// The target state.
fn target_state_line(
    decision: &ContinueDecisionResult,
    answer: &Option<TaskTruthPublicAnswerV1>,
    stale: bool,
    freshness: IslandFreshness,
) -> (r: String)
    requires
        opt_answer(*answer) == authoritative_answer(*decision),
        stale == is_stale(freshness),
    ensures
        r@ == target_state_of(*decision, freshness),
{
    if stale {
        copy_str("stale_decision")
    } else {
        match answer {
            Some(a) => if str_eq(a.task_resolution_status.as_str(), "unresolved")
                && !has_visible_task_truth_semantics(a) {
                copy_str("no_clear_task")
            } else if a.direct_return_target.is_some() {
                copy_str("direct_continue_ready")
            } else {
                copy_str("task_known_target_unknown")
            },
            None => decision.target_truth.state.clone(),
        }
    }
}

/// A copy of a list of strings.
pub fn copy_strings(v: &Vec<String>) -> (r: Vec<String>)
    ensures
        strs(r@) == strs(v@),
{
    let mut r: Vec<String> = Vec::new();
    let mut i: usize = 0;
    while i < v.len()
        invariant
            i <= v@.len(),
            strs(r@) == strs(v@).take(i as int),
        decreases v.len() - i,
    {
        push_str(&mut r, v[i].clone());
        i = i + 1;
        assert(strs(r@) =~= strs(v@).take(i as int));
    }
    assert(strs(v@).take(v@.len() as int) =~= strs(v@));
    r
}

/// The reason codes.
fn reason_codes_line(
    decision: &ContinueDecisionResult,
    answer: &Option<TaskTruthPublicAnswerV1>,
    stale: bool,
    freshness: IslandFreshness,
) -> (r: Vec<String>)
    requires
        opt_answer(*answer) == authoritative_answer(*decision),
        stale == is_stale(freshness),
    ensures
        strs(r@) == reason_codes_of(*decision, freshness),
{
    if stale {
        let mut v: Vec<String> = Vec::new();
        push_str(&mut v, copy_str("target_stale"));
        assert(strs(v@) =~= seq!["target_stale"@]);
        v
    } else if answer.is_some() {
        copy_strings(&decision.task_truth_v2.reason_codes)
    } else {
        copy_strings(&decision.target_truth.reason_codes)
    }
}

/// Whether the island may open the target.
fn can_open_target(
    decision: &ContinueDecisionResult,
    answer: &Option<TaskTruthPublicAnswerV1>,
    return_target: &Option<IslandTargetSummary>,
    x: &ActionFactsExec,
    rejected: bool,
    no_clear_output: bool,
    blank_id: bool,
    freshness: IslandFreshness,
) -> (b: bool)
    requires
        opt_answer(*answer) == authoritative_answer(*decision),
        opt_summary(*return_target) == ret_target(*decision),
        x.stale == is_stale(freshness),
        x.no_clear == no_clear_task(*decision),
        x.suppressed == suppressed(*decision),
        x.support_blocked == support_blocked(*decision),
        x.has_openable == has_openable(*decision),
        rejected == rejected_status(decision.validation_status@),
        no_clear_output == no_clear_mode(*decision),
        blank_id == is_blank(decision.decision_id@),
    ensures
        b == can_open(*decision, freshness),
{
    match answer {
        Some(a) => !x.stale && !str_eq(a.task_resolution_status.as_str(), "unresolved")
            && match return_target {
            Some(t) => t.openable,
            None => false,
        } && !blank_id,
        None => !x.stale && !x.no_clear && !x.suppressed && !x.support_blocked && !rejected
            && !no_clear_output && x.has_openable && decision.direct_target_policy.direct_target_allowed
            && str_eq(decision.target_truth.state.as_str(), "direct_continue_ready") && !blank_id,
    }
}

/// The display state.
fn display_state_for(
    decision: &ContinueDecisionResult,
    answer: &Option<TaskTruthPublicAnswerV1>,
    x: &ActionFactsExec,
    no_clear_output: bool,
    inspectable_evidence: bool,
    freshness: IslandFreshness,
    context: IslandStateContext,
) -> (r: IslandDisplayState)
    requires
        opt_answer(*answer) == authoritative_answer(*decision),
        x.stale == is_stale(freshness),
        x.no_clear == no_clear_task(*decision),
        x.can_open == can_open(*decision, freshness),
        x.suppressed == suppressed(*decision),
        x.support_blocked == support_blocked(*decision),
        x.has_any_target == has_any_target(*decision),
        x.thin == thin(*decision),
        no_clear_output == no_clear_mode(*decision),
        inspectable_evidence == inspectable(*decision),
    ensures
        r == display_of(*decision, freshness, context),
{
    let ts = decision.target_truth.state.as_str();
    let rs = decision.work_truth.resolution_status.as_str();
    let work_supported = str_eq(rs, "task_supported") || str_eq(rs, "activity_supported");
    if x.stale {
        IslandDisplayState::NeedsRefresh
    } else if answer.is_some() {
        if x.no_clear {
            IslandDisplayState::NoClearContinuation
        } else if x.can_open {
            IslandDisplayState::ContinueReady
        } else {
            IslandDisplayState::InspectOnly
        }
    } else if x.support_blocked {
        IslandDisplayState::SupportBlocked
    } else if x.suppressed {
        IslandDisplayState::TargetSuppressed
    } else if x.no_clear {
        IslandDisplayState::NoClearContinuation
    } else if x.can_open {
        IslandDisplayState::ContinueReady
    } else if str_eq(ts, "task_known_target_unknown") || str_eq(ts, "activity_known_target_unknown") {
        IslandDisplayState::InspectOnly
    } else if str_eq(ts, "thin_task_seen") {
        IslandDisplayState::ThinCurrentWork
    } else if no_clear_output && !work_supported {
        IslandDisplayState::NoClearContinuation
    } else if decision.current_focus.is_some() && !x.has_any_target {
        if decision.active_current_work_unresolved.is_some() || x.thin {
            IslandDisplayState::ThinCurrentWork
        } else {
            IslandDisplayState::NoClearContinuation
        }
    } else if x.thin {
        IslandDisplayState::ThinCurrentWork
    } else if inspectable_evidence {
        IslandDisplayState::InspectOnly
    } else if context.local_memory_running || context.has_local_memory {
        IslandDisplayState::LocalMemoryWarming
    } else {
        IslandDisplayState::NoClearContinuation
    }
}


#[verifier::rlimit(100)]
/// `island_state_from_continue_decision`: what the island shows and offers
/// for a Continue decision (see `island_state_of`).
pub fn island_state_from_continue_decision(
    decision: &ContinueDecisionResult,
    freshness: IslandFreshness,
    context: IslandStateContext,
) -> (r: IslandContinueState)
    requires
        anchor_count(*decision) < usize::MAX,
    ensures
        island_state_of(*decision, freshness, context, r),
{
    let ghost d = *decision;
    let answer = authoritative_task_truth_answer(decision);
    let current_focus = match &decision.current_focus {
        Some(fc) => focus_summary(fc),
        None => None,
    };
    let (return_target, resume_work_target) = shown_targets(decision, &answer);
    let anchors = &decision.evidence_anchors;
    let inspect_anchor_count = anchors.frame_ids.len() + anchors.action_ids.len()
        + anchors.episode_ids.len() + anchors.artifact_ids.len();
    let suppression = suppression_reasons(decision);
    let support_blocked = support_branch_blocked(decision);
    let target_suppressed = suppression.len() > 0;
    let thin = decision_is_thin(decision);
    let has_openable_target = match &return_target {
        Some(t) => t.openable,
        None => match &resume_work_target {
            Some(t) => t.openable,
            None => false,
        },
    };
    let has_any_target = return_target.is_some() || resume_work_target.is_some();
    let rejected = validation_rejected(decision.validation_status.as_str());
    let no_clear_output = str_eq(decision.continue_output_mode.as_str(), "no_clear_continuation");
    let no_clear = no_clear_current_task(decision, &answer);
    let decision_stale = freshness.decision_stale || match (
        freshness.newest_evidence_ms,
        freshness.decision_updated_at_ms,
    ) {
        (Some(newest), Some(decision_at)) => newest > decision_at,
        _ => false,
    };
    let recent = recent_context_summary(decision);
    let useful = recap_has_useful_copy(decision, &recent);
    let recap = &decision.activity_recap;
    let missing_evidence = merge_safe_notes(&recap.missing_evidence, &decision.missing_evidence);
    let warnings = merge_safe_notes(&recap.warnings, &decision.warnings);
    let blank_id = str_is_blank(decision.decision_id.as_str());
    let mut facts = ActionFactsExec {
        stale: decision_stale,
        display: IslandDisplayState::Error,
        can_open: false,
        no_clear,
        has_any_target,
        thin,
        has_openable: has_openable_target,
        support_blocked,
        suppressed: target_suppressed,
        anchors: inspect_anchor_count > 0,
        unresolved_work: decision.active_current_work_unresolved.is_some(),
    };
    let can_open = can_open_target(
        decision,
        &answer,
        &return_target,
        &facts,
        rejected,
        no_clear_output,
        blank_id,
        freshness,
    );
    facts.can_open = can_open;
    let answer_preview = match &answer {
        Some(a) => a.evidence_preview.is_some(),
        None => false,
    };
    let inspectable_evidence = inspect_anchor_count > 0 || answer_preview;
    let display_state = display_state_for(
        decision,
        &answer,
        &facts,
        no_clear_output,
        inspectable_evidence,
        freshness,
        context,
    );
    facts.display = display_state;
    assert(facts.facts() == facts_of(d, freshness, context));
    let available_actions = build_actions(decision.decision_id.as_str(), &answer, &facts);
    let target_state = target_state_line(decision, &answer, decision_stale, freshness);
    let target_reason_codes = reason_codes_line(decision, &answer, decision_stale, freshness);
    let current_activity = current_activity_line(decision, &answer, no_clear);
    let activity_label = activity_label_line(decision, &answer, no_clear);
    let activity_summary = activity_summary_line(decision, &answer, no_clear);
    let activity_where = activity_where_line(decision, &answer, no_clear);
    let activity_state = activity_state_line(decision, &answer, no_clear);
    let (activity_confidence_label, target_confidence_label) = confidence_lines(
        decision,
        answer.is_none() && !no_clear && useful,
    );
    let legacy = answer.is_none();
    let selected_workstream_title = if legacy && !no_clear {
        match &decision.selected_workstream {
            Some(w) => safe_text_opt(&w.title_candidate),
            None => None,
        }
    } else {
        None
    };
    let next_action = next_action_line(decision, &answer, no_clear);
    let confidence_label = if legacy {
        safe_text(Some(decision.confidence_label.as_str()))
    } else {
        None
    };
    let validation_status = match &answer {
        Some(a) => safe_text(Some(a.task_resolution_status.as_str())),
        None => safe_text(Some(decision.validation_status.as_str())),
    };
    let provenance_label = if legacy {
        safe_text(Some(decision.wording_source.as_str()))
    } else {
        None
    };
    let extra: usize = if answer_preview {
        1
    } else {
        0
    };
    IslandContinueState {
        schema: copy_str(ISLAND_CONTINUE_STATE_SCHEMA),
        generated_at_ms: match freshness.decision_updated_at_ms {
            Some(t) => t,
            None => 0,
        },
        source: if decision.cache_hit {
            IslandContinueSource::ContinueDecisionCache
        } else {
            IslandContinueSource::ContinueDecision
        },
        display_state,
        decision_id: if blank_id {
            None
        } else {
            Some(decision.decision_id.clone())
        },
        decision_cache_hit: decision.cache_hit,
        evidence_watermark_ms: freshness.evidence_watermark_ms,
        decision_stale,
        target_state,
        target_reason_codes,
        semantic_answer: answer,
        current_focus: if legacy {
            current_focus
        } else {
            None
        },
        current_activity,
        activity_label,
        activity_summary,
        activity_where,
        activity_state,
        activity_confidence_label,
        target_confidence_label,
        recent_context_summary: if legacy && !no_clear {
            recent
        } else {
            None
        },
        selected_workstream_title,
        return_target: if no_clear {
            None
        } else {
            return_target
        },
        resume_work_target: if no_clear {
            None
        } else {
            resume_work_target
        },
        next_action,
        confidence_label,
        validation_status,
        provenance_label,
        missing_evidence,
        warnings,
        suppression_reasons: if legacy {
            suppression
        } else {
            Vec::new()
        },
        available_actions,
        inspect_anchor_count: inspect_anchor_count + extra,
        audit_path: None,
    }
}


/// An island Continue state, by views.
pub struct StateView {
    pub schema: Seq<char>,
    pub generated_at_ms: i64,
    pub source: IslandContinueSource,
    pub display_state: IslandDisplayState,
    pub decision_id: Option<Seq<char>>,
    pub decision_cache_hit: bool,
    pub evidence_watermark_ms: Option<i64>,
    pub decision_stale: bool,
    pub target_state: Seq<char>,
    pub target_reason_codes: Seq<Seq<char>>,
    pub semantic_answer: Option<AnswerView>,
    pub current_focus: Option<FocusView>,
    pub current_activity: Option<Seq<char>>,
    pub activity_label: Option<Seq<char>>,
    pub activity_summary: Option<Seq<char>>,
    pub activity_where: Option<Seq<char>>,
    pub activity_state: Option<Seq<char>>,
    pub activity_confidence_label: Option<Seq<char>>,
    pub target_confidence_label: Option<Seq<char>>,
    pub recent_context_summary: Option<Seq<char>>,
    pub selected_workstream_title: Option<Seq<char>>,
    pub return_target: Option<TargetSummaryView>,
    pub resume_work_target: Option<TargetSummaryView>,
    pub next_action: Option<Seq<char>>,
    pub confidence_label: Option<Seq<char>>,
    pub validation_status: Option<Seq<char>>,
    pub provenance_label: Option<Seq<char>>,
    pub missing_evidence: Seq<Seq<char>>,
    pub warnings: Seq<Seq<char>>,
    pub suppression_reasons: Seq<Seq<char>>,
    pub available_actions: Seq<ActionView>,
    pub inspect_anchor_count: usize,
    pub audit_path: Option<Seq<char>>,
}

impl View for IslandContinueState {
    type V = StateView;

    open spec fn view(&self) -> StateView {
        StateView {
            schema: self.schema@,
            generated_at_ms: self.generated_at_ms,
            source: self.source,
            display_state: self.display_state,
            decision_id: opt_str(self.decision_id),
            decision_cache_hit: self.decision_cache_hit,
            evidence_watermark_ms: self.evidence_watermark_ms,
            decision_stale: self.decision_stale,
            target_state: self.target_state@,
            target_reason_codes: strs(self.target_reason_codes@),
            semantic_answer: opt_answer(self.semantic_answer),
            current_focus: opt_focus(self.current_focus),
            current_activity: opt_str(self.current_activity),
            activity_label: opt_str(self.activity_label),
            activity_summary: opt_str(self.activity_summary),
            activity_where: opt_str(self.activity_where),
            activity_state: opt_str(self.activity_state),
            activity_confidence_label: opt_str(self.activity_confidence_label),
            target_confidence_label: opt_str(self.target_confidence_label),
            recent_context_summary: opt_str(self.recent_context_summary),
            selected_workstream_title: opt_str(self.selected_workstream_title),
            return_target: opt_summary(self.return_target),
            resume_work_target: opt_summary(self.resume_work_target),
            next_action: opt_str(self.next_action),
            confidence_label: opt_str(self.confidence_label),
            validation_status: opt_str(self.validation_status),
            provenance_label: opt_str(self.provenance_label),
            missing_evidence: strs(self.missing_evidence@),
            warnings: strs(self.warnings@),
            suppression_reasons: strs(self.suppression_reasons@),
            available_actions: actions_view(self.available_actions@),
            inspect_anchor_count: self.inspect_anchor_count,
            audit_path: opt_str(self.audit_path),
        }
    }
}

impl IslandAvailableAction {
    /// A copy of this action.
    pub fn copy(&self) -> (r: Self)
        ensures
            r@ == self@,
    {
        IslandAvailableAction {
            kind: self.kind,
            label: self.label.clone(),
            enabled: self.enabled,
            decision_id: copy_opt(&self.decision_id),
            task_snapshot_id: copy_opt(&self.task_snapshot_id),
            task_snapshot_revision: self.task_snapshot_revision,
            affected_task_field: copy_opt(&self.affected_task_field),
            task_hypothesis_id: copy_opt(&self.task_hypothesis_id),
        }
    }
}

/// Pushes an action.
fn push_action(actions: &mut Vec<IslandAvailableAction>, a: IslandAvailableAction)
    ensures
        actions_view(final(actions)@) == actions_view(old(actions)@).push(a@),
{
    actions.push(a);
    assert(actions_view(actions@) =~= actions_view(old(actions)@).push(a@));
}

/// A copy of a list of actions.
pub fn copy_actions(v: &Vec<IslandAvailableAction>) -> (r: Vec<IslandAvailableAction>)
    ensures
        actions_view(r@) == actions_view(v@),
{
    let mut r: Vec<IslandAvailableAction> = Vec::new();
    let mut i: usize = 0;
    while i < v.len()
        invariant
            i <= v@.len(),
            actions_view(r@) == actions_view(v@).take(i as int),
        decreases v@.len() - i,
    {
        push_action(&mut r, v[i].copy());
        i = i + 1;
        assert(actions_view(r@) =~= actions_view(v@).take(i as int));
    }
    assert(actions_view(v@).take(v@.len() as int) =~= actions_view(v@));
    r
}

impl IslandFocusSummary {
    /// A copy of this summary.
    pub fn copy(&self) -> (r: Self)
        ensures
            r@ == self@,
    {
        IslandFocusSummary {
            title: self.title.clone(),
            subtitle: copy_opt(&self.subtitle),
            app_name: copy_opt(&self.app_name),
            window_title: copy_opt(&self.window_title),
            openability: copy_opt(&self.openability),
        }
    }
}

impl IslandTargetSummary {
    /// A copy of this summary.
    pub fn copy(&self) -> (r: Self)
        ensures
            r@ == self@,
    {
        IslandTargetSummary {
            title: self.title.clone(),
            subtitle: copy_opt(&self.subtitle),
            artifact_kind: copy_opt(&self.artifact_kind),
            openability: self.openability.clone(),
            openable: self.openable,
        }
    }
}

impl IslandContinueState {
    /// A copy of this state.
    pub fn copy(&self) -> (r: Self)
        ensures
            r@ == self@,
    {
        let semantic_answer = match &self.semantic_answer {
            Some(a) => Some(a.copy()),
            None => None,
        };
        let current_focus = match &self.current_focus {
            Some(f) => Some(f.copy()),
            None => None,
        };
        let return_target = match &self.return_target {
            Some(t) => Some(t.copy()),
            None => None,
        };
        let resume_work_target = match &self.resume_work_target {
            Some(t) => Some(t.copy()),
            None => None,
        };
        IslandContinueState {
            schema: self.schema.clone(),
            generated_at_ms: self.generated_at_ms,
            source: self.source,
            display_state: self.display_state,
            decision_id: copy_opt(&self.decision_id),
            decision_cache_hit: self.decision_cache_hit,
            evidence_watermark_ms: self.evidence_watermark_ms,
            decision_stale: self.decision_stale,
            target_state: self.target_state.clone(),
            target_reason_codes: copy_strings(&self.target_reason_codes),
            semantic_answer,
            current_focus,
            current_activity: copy_opt(&self.current_activity),
            activity_label: copy_opt(&self.activity_label),
            activity_summary: copy_opt(&self.activity_summary),
            activity_where: copy_opt(&self.activity_where),
            activity_state: copy_opt(&self.activity_state),
            activity_confidence_label: copy_opt(&self.activity_confidence_label),
            target_confidence_label: copy_opt(&self.target_confidence_label),
            recent_context_summary: copy_opt(&self.recent_context_summary),
            selected_workstream_title: copy_opt(&self.selected_workstream_title),
            return_target,
            resume_work_target,
            next_action: copy_opt(&self.next_action),
            confidence_label: copy_opt(&self.confidence_label),
            validation_status: copy_opt(&self.validation_status),
            provenance_label: copy_opt(&self.provenance_label),
            missing_evidence: copy_strings(&self.missing_evidence),
            warnings: copy_strings(&self.warnings),
            suppression_reasons: copy_strings(&self.suppression_reasons),
            available_actions: copy_actions(&self.available_actions),
            inspect_anchor_count: self.inspect_anchor_count,
            audit_path: copy_opt(&self.audit_path),
        }
    }
}

/// The actions of a state that must be refreshed first.
pub fn refresh_action_list() -> (r: Vec<IslandAvailableAction>)
    ensures
        actions_view(r@) == refresh_actions(),
{
    let mut r: Vec<IslandAvailableAction> = Vec::new();
    push_plain(&mut r, IslandActionKind::RefreshContinue, "Refresh Continue", None);
    push_plain(&mut r, IslandActionKind::InspectEvidence, "Inspect evidence", None);
    push_plain(&mut r, IslandActionKind::OpenSmalltalk, "Open Smalltalk", None);
    assert(actions_view(r@) =~= refresh_actions());
    r
}

/// View of an optional state.
pub open spec fn opt_state(o: Option<IslandContinueState>) -> Option<StateView> {
    match o {
        Some(s) => Some(s@),
        None => None,
    }
}

/// The actions offer to open the Continue target.
pub open spec fn opens_target(actions: Seq<ActionView>) -> bool {
    exists|i: int|
        0 <= i < actions.len() && (#[trigger] actions[i]).enabled && actions[i].kind
            == IslandActionKind::OpenContinueTarget
}

/// Offering to open the target is a property of the actions' views.
pub proof fn lemma_offers_open_view(v: Seq<IslandAvailableAction>)
    ensures
        offers_open(v) == opens_target(actions_view(v)),
{
    if offers_open(v) {
        let i = choose|i: int|
            0 <= i < v.len() && (#[trigger] v[i]).enabled && v[i].kind == IslandActionKind::OpenContinueTarget;
        assert(actions_view(v)[i] == v[i]@);
    }
    if opens_target(actions_view(v)) {
        let i = choose|i: int|
            0 <= i < actions_view(v).len() && (#[trigger] actions_view(v)[i]).enabled && actions_view(v)[i].kind
                == IslandActionKind::OpenContinueTarget;
        assert(actions_view(v)[i] == v[i]@);
    }
}

/// No action of the list opens the Continue target.
pub open spec fn no_open_kind(s: Seq<ActionView>) -> bool {
    forall|i: int| 0 <= i < s.len() ==> (#[trigger] s[i]).kind != IslandActionKind::OpenContinueTarget
}

proof fn lemma_no_open_concat(a: Seq<ActionView>, b: Seq<ActionView>)
    requires
        no_open_kind(a),
        no_open_kind(b),
    ensures
        no_open_kind(a + b),
{
    assert forall|i: int| 0 <= i < (a + b).len() implies (#[trigger] (a + b)[i]).kind
        != IslandActionKind::OpenContinueTarget by {
        if i < a.len() {
            assert((a + b)[i] == a[i]);
        } else {
            assert((a + b)[i] == b[i - a.len()]);
        }
    }
}

proof fn lemma_feedback_never_opens(id: Seq<char>, ans: Option<AnswerView>, stale: bool)
    ensures
        no_open_kind(scoped_part(id, ans, stale)),
{
    match ans {
        Some(a) => {
            let alts = a.alternative_hypotheses;
            let p0 = if alts.len() >= 1 {
                alt_actions(id, a, alts[0])
            } else {
                Seq::empty()
            };
            let p1 = if alts.len() >= 2 {
                alt_actions(id, a, alts[1])
            } else {
                Seq::empty()
            };
            let p2 = if a.task_summary is Some {
                seq![
                    scoped(
                        IslandActionKind::RejectSelectedTask,
                        "Selected task is not right"@,
                        id,
                        a,
                        "task_summary"@,
                        None,
                    ),
                ]
            } else {
                Seq::empty()
            };
            let p3 = match a.selected_hypothesis_id {
                Some(h) => seq![
                    scoped(
                        IslandActionKind::MarkSupportingWork,
                        "This was supporting work"@,
                        id,
                        a,
                        "relationship"@,
                        Some(h),
                    ),
                    scoped(
                        IslandActionKind::MarkUnrelatedActivity,
                        "This was unrelated"@,
                        id,
                        a,
                        "relationship"@,
                        Some(h),
                    ),
                    scoped(
                        IslandActionKind::MarkTaskCompleted,
                        "Mark task complete"@,
                        id,
                        a,
                        "task_status"@,
                        Some(h),
                    ),
                    scoped(
                        IslandActionKind::ReactivateTask,
                        reactivate_label(),
                        id,
                        a,
                        "task_status"@,
                        Some(h),
                    ),
                ],
                None => Seq::empty(),
            };
            assert(task_feedback_actions(id, a) == p0 + p1 + p2 + p3);
            assert(no_open_kind(p0));
            assert(no_open_kind(p1));
            assert(no_open_kind(p2));
            assert(no_open_kind(p3));
            lemma_no_open_concat(p0, p1);
            lemma_no_open_concat(p0 + p1, p2);
            lemma_no_open_concat(p0 + p1 + p2, p3);
        },
        None => {},
    }
}

/// Every open action of the list is enabled and names the decision `id`.
pub open spec fn opens_name(s: Seq<ActionView>, id: Seq<char>) -> bool {
    forall|i: int|
        0 <= i < s.len() && (#[trigger] s[i]).kind == IslandActionKind::OpenContinueTarget ==> s[i].enabled
            && s[i].decision_id == Some(id)
}

proof fn lemma_append_no_open(l: Seq<ActionView>, p: Seq<ActionView>, id: Seq<char>)
    requires
        no_open_kind(p),
    ensures
        opens_name(l, id) ==> opens_name(l + p, id),
        opens_target(l + p) == opens_target(l),
{
    if opens_name(l, id) {
        assert forall|i: int|
            0 <= i < (l + p).len() && (#[trigger] (l + p)[i]).kind == IslandActionKind::OpenContinueTarget implies (l
                + p)[i].enabled && (l + p)[i].decision_id == Some(id) by {
            if i < l.len() {
                assert((l + p)[i] == l[i]);
            } else {
                assert((l + p)[i] == p[i - l.len()]);
            }
        }
    }
    if opens_target(l + p) {
        let i = choose|i: int|
            0 <= i < (l + p).len() && (#[trigger] (l + p)[i]).enabled && (l + p)[i].kind
                == IslandActionKind::OpenContinueTarget;
        if i < l.len() {
            assert((l + p)[i] == l[i]);
        } else {
            assert((l + p)[i] == p[i - l.len()]);
        }
    }
    if opens_target(l) {
        let i = choose|i: int|
            0 <= i < l.len() && (#[trigger] l[i]).enabled && l[i].kind == IslandActionKind::OpenContinueTarget;
        assert((l + p)[i] == l[i]);
    }
}

/// An action list offers to open the target exactly when its facts allow
/// it, and every open action is enabled and names the decision.
pub proof fn lemma_action_list_opens(id: Seq<char>, ans: Option<AnswerView>, x: ActionFacts)
    ensures
        opens_target(action_list(id, ans, x)) == x.can_open,
        opens_name(action_list(id, ans, x), id),
{
    let l0 = stale_part(x) + soft_part(x);
    assert(no_open_kind(stale_part(x)));
    assert(no_open_kind(soft_part(x)));
    lemma_no_open_concat(stale_part(x), soft_part(x));
    assert(!opens_target(l0)) by {
        if opens_target(l0) {
            let i = choose|i: int|
                0 <= i < l0.len() && (#[trigger] l0[i]).enabled && l0[i].kind == IslandActionKind::OpenContinueTarget;
        }
    }
    let l1 = l0 + open_part(id, x);
    assert(opens_name(l1, id) && opens_target(l1) == x.can_open) by {
        if x.can_open {
            assert(l1[l0.len() as int] == open_part(id, x)[0]);
        } else {
            assert(open_part(id, x) =~= Seq::<ActionView>::empty());
            assert(l1 =~= l0);
        }
        assert forall|i: int|
            0 <= i < l1.len() && (#[trigger] l1[i]).kind == IslandActionKind::OpenContinueTarget implies l1[i].enabled
                && l1[i].decision_id == Some(id) by {
            if i < l0.len() {
                assert(l1[i] == l0[i]);
            } else {
                assert(l1[i] == open_part(id, x)[i - l0.len()]);
            }
        }
    }
    assert(no_open_kind(wrong_target_part(id, x)));
    lemma_append_no_open(l1, wrong_target_part(id, x), id);
    let l2 = l1 + wrong_target_part(id, x);
    assert(no_open_kind(not_useful_part(id, x)));
    lemma_append_no_open(l2, not_useful_part(id, x), id);
    let l3 = l2 + not_useful_part(id, x);
    lemma_feedback_never_opens(id, ans, x.stale);
    lemma_append_no_open(l3, scoped_part(id, ans, x.stale), id);
    let l4 = l3 + scoped_part(id, ans, x.stale);
    assert(no_open_kind(inspect_part(x)));
    lemma_append_no_open(l4, inspect_part(x), id);
    let l5 = l4 + inspect_part(x);
    assert(no_open_kind(smalltalk_part()));
    lemma_append_no_open(l5, smalltalk_part(), id);
    let l6 = l5 + smalltalk_part();
    assert(no_open_kind(capture_part(x)));
    lemma_append_no_open(l6, capture_part(x), id);
    assert(action_list(id, ans, x) == l6 + capture_part(x));
}

/// The island offers to open the Continue target exactly when the decision
/// may be continued (fresh, with an openable target that the policy admits,
/// and a decision id), and every open action is enabled and names the
/// decision.
pub proof fn law_open_only_when_continuable(
    d: ContinueDecisionResult,
    f: IslandFreshness,
    c: IslandStateContext,
    r: IslandContinueState,
)
    requires
        island_state_of(d, f, c, r),
    ensures
        opens_target(actions_view(r.available_actions@)) == can_open(d, f),
        can_open(d, f) ==> !is_stale(f) && !is_blank(d.decision_id@),
        forall|i: int|
            0 <= i < r.available_actions@.len() && (#[trigger] r.available_actions@[i]).kind
                == IslandActionKind::OpenContinueTarget ==> r.available_actions@[i].enabled
                && opt_str(r.available_actions@[i].decision_id) == Some(d.decision_id@),
{
    let acts = actions_view(r.available_actions@);
    let ans = authoritative_answer(d);
    let x = facts_of(d, f, c);
    assert(acts == action_list(d.decision_id@, ans, x));
    lemma_action_list_opens(d.decision_id@, ans, x);
    assert forall|i: int|
        0 <= i < r.available_actions@.len() && (#[trigger] r.available_actions@[i]).kind
            == IslandActionKind::OpenContinueTarget implies r.available_actions@[i].enabled
            && opt_str(r.available_actions@[i].decision_id) == Some(d.decision_id@) by {
        assert(acts[i] == r.available_actions@[i]@);
    }
}

/// A list holds one "open the Continue target" action at most.
pub open spec fn one_open(l: Seq<ActionView>) -> bool {
    forall|i: int, j: int|
        0 <= i < l.len() && 0 <= j < l.len() && (#[trigger] l[i]).kind
            == IslandActionKind::OpenContinueTarget && (#[trigger] l[j]).kind
            == IslandActionKind::OpenContinueTarget ==> i == j
}

proof fn lemma_append_keeps_one_open(l: Seq<ActionView>, p: Seq<ActionView>)
    requires
        one_open(l),
        no_open_kind(p),
    ensures
        one_open(l + p),
{
    assert forall|i: int, j: int|
        0 <= i < (l + p).len() && 0 <= j < (l + p).len() && (#[trigger] (l + p)[i]).kind
            == IslandActionKind::OpenContinueTarget && (#[trigger] (l + p)[j]).kind
            == IslandActionKind::OpenContinueTarget implies i == j by {
        if i >= l.len() {
            assert((l + p)[i] == p[i - l.len()]);
        }
        if j >= l.len() {
            assert((l + p)[j] == p[j - l.len()]);
        }
        assert((l + p)[i] == l[i]);
        assert((l + p)[j] == l[j]);
    }
}

/// An action list holds one "open the Continue target" action at most.
proof fn lemma_action_list_one_open(id: Seq<char>, ans: Option<AnswerView>, x: ActionFacts)
    ensures
        one_open(action_list(id, ans, x)),
{
    let l0 = stale_part(x) + soft_part(x);
    assert(no_open_kind(stale_part(x)));
    assert(no_open_kind(soft_part(x)));
    lemma_no_open_concat(stale_part(x), soft_part(x));
    let l1 = l0 + open_part(id, x);
    assert(one_open(l1)) by {
        assert forall|i: int|
            0 <= i < l1.len() && (#[trigger] l1[i]).kind == IslandActionKind::OpenContinueTarget implies i
                == l0.len() by {
            if i < l0.len() {
                assert(l1[i] == l0[i]);
            }
        }
    }
    assert(no_open_kind(wrong_target_part(id, x)));
    lemma_append_keeps_one_open(l1, wrong_target_part(id, x));
    let l2 = l1 + wrong_target_part(id, x);
    assert(no_open_kind(not_useful_part(id, x)));
    lemma_append_keeps_one_open(l2, not_useful_part(id, x));
    let l3 = l2 + not_useful_part(id, x);
    lemma_feedback_never_opens(id, ans, x.stale);
    lemma_append_keeps_one_open(l3, scoped_part(id, ans, x.stale));
    let l4 = l3 + scoped_part(id, ans, x.stale);
    assert(no_open_kind(inspect_part(x)));
    lemma_append_keeps_one_open(l4, inspect_part(x));
    let l5 = l4 + inspect_part(x);
    assert(no_open_kind(smalltalk_part()));
    lemma_append_keeps_one_open(l5, smalltalk_part());
    let l6 = l5 + smalltalk_part();
    assert(no_open_kind(capture_part(x)));
    lemma_append_keeps_one_open(l6, capture_part(x));
    assert(action_list(id, ans, x) == l6 + capture_part(x));
}

/// The island offers to open the Continue target exactly in the
/// ContinueReady state, never for a stale decision, and through one action
/// at most; that action is enabled and names the decision, whose id is not
/// blank.
pub proof fn law_open_only_when_ready(
    d: ContinueDecisionResult,
    f: IslandFreshness,
    c: IslandStateContext,
    r: IslandContinueState,
)
    requires
        island_state_of(d, f, c, r),
    ensures
        offers_open(r.available_actions@) <==> r.display_state == IslandDisplayState::ContinueReady,
        r.decision_stale ==> !offers_open(r.available_actions@),
        offers_open(r.available_actions@) ==> !is_blank(d.decision_id@),
        forall|i: int, j: int|
            0 <= i < r.available_actions@.len() && 0 <= j < r.available_actions@.len()
                && (#[trigger] r.available_actions@[i]).kind == IslandActionKind::OpenContinueTarget
                && (#[trigger] r.available_actions@[j]).kind == IslandActionKind::OpenContinueTarget
                ==> i == j,
        forall|i: int|
            0 <= i < r.available_actions@.len() && (#[trigger] r.available_actions@[i]).kind
                == IslandActionKind::OpenContinueTarget ==> r.available_actions@[i].enabled
                && opt_str(r.available_actions@[i].decision_id) == Some(d.decision_id@),
{
    law_open_only_when_continuable(d, f, c, r);
    lemma_offers_open_view(r.available_actions@);
    let ans = authoritative_answer(d);
    let x = facts_of(d, f, c);
    let acts = actions_view(r.available_actions@);
    assert(acts == action_list(d.decision_id@, ans, x));
    lemma_action_list_one_open(d.decision_id@, ans, x);
    assert(one_open(acts));
    assert(can_open(d, f) <==> display_of(d, f, c) == IslandDisplayState::ContinueReady);
    assert forall|i: int, j: int|
        0 <= i < r.available_actions@.len() && 0 <= j < r.available_actions@.len()
            && (#[trigger] r.available_actions@[i]).kind == IslandActionKind::OpenContinueTarget
            && (#[trigger] r.available_actions@[j]).kind == IslandActionKind::OpenContinueTarget
            implies i == j by {
        assert(acts[i] == r.available_actions@[i]@);
        assert(acts[j] == r.available_actions@[j]@);
    }
}

/// With an authoritative answer and a clear task, the island says where the
/// work stands from the answer alone: its progress, then its unfinished
/// state after a space, each only when safe to show; so the unfinished state
/// is never dropped when it is safe. With no clear task it says nothing.
pub proof fn law_activity_line_tells_progress_then_unfinished(
    d: ContinueDecisionResult,
    f: IslandFreshness,
    c: IslandStateContext,
    r: IslandContinueState,
)
    requires
        island_state_of(d, f, c, r),
    ensures
        no_clear_task(d) ==> r.activity_state is None,
        !no_clear_task(d) && authoritative_answer(d) is Some ==> ({
            let a = authoritative_answer(d)->0;
            let p = safe(a.last_meaningful_progress);
            let u = safe(a.unfinished_state);
            &&& p is Some && u is Some ==> opt_str(r.activity_state) == Some(p->0 + " "@ + u->0)
            &&& p is Some && u is None ==> opt_str(r.activity_state) == p
            &&& p is None && u is Some ==> opt_str(r.activity_state) == u
            &&& p is None && u is None ==> r.activity_state is None
        }),
{
}

} // verus!
