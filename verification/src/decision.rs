//! The Continue decision as the island reads it.
//!
//! A Continue decision is produced by the capture pipeline; the island only
//! reads the fields declared here. Confidences are carried in thousandths
//! (`*_permille`), so that every comparison the island makes is an integer
//! comparison.
use vstd::prelude::*;
use crate::text::opt_str;

verus! {

/// Where the recap places the user's activity right now.
#[derive(Debug, Clone, Copy, PartialEq, Eq, Default)]
pub enum ActivityCurrentState {
    ActivelyWorking,
    RecentlyDetoured,
    PausedAfterProgress,
    Blocked,
    CompleteOrIdle,
    #[default]
    Unclear,
}

/// How sure the recap is of an activity or a target.
#[derive(Debug, Clone, Copy, PartialEq, Eq, Default)]
pub enum ActivityConfidence {
    High,
    Medium,
    Low,
    #[default]
    Absent,
}

/// A short detour that the recap observed.
#[derive(Debug, Clone, PartialEq, Default)]
pub struct ActivityDetourSummary {
    pub surface_title: Option<String>,
    pub app_name: Option<String>,
    pub activity_label: Option<String>,
    pub reason: String,
    pub start_ms: Option<i64>,
    pub end_ms: Option<i64>,
    pub evidence_anchor_ids: Vec<String>,
}

/// Context that supported the primary work.
#[derive(Debug, Clone, PartialEq, Default)]
pub struct ActivitySupportSummary {
    pub summary: String,
}

/// The activity recap attached to a decision.
#[derive(Debug, Clone, PartialEq, Default)]
pub struct ContinueActivityRecap {
    pub primary_work_summary: Option<String>,
    pub primary_work_label: Option<String>,
    pub primary_where_summary: Option<String>,
    pub last_meaningful_state: Option<String>,
    pub unfinished_state: Option<String>,
    pub next_action_summary: Option<String>,
    pub why_no_safe_target: Option<String>,
    pub current_state: ActivityCurrentState,
    pub activity_confidence: ActivityConfidence,
    pub target_confidence: ActivityConfidence,
    pub recent_detours: Vec<ActivityDetourSummary>,
    pub supporting_context: Vec<ActivitySupportSummary>,
    pub missing_evidence: Vec<String>,
    pub warnings: Vec<String>,
}

/// The focused surface when the decision was made.
#[derive(Debug, Clone, PartialEq, Default)]
pub struct ContinueFocusSummary {
    pub frame_id: String,
    pub artifact_kind: Option<String>,
    pub app_name: Option<String>,
    pub window_title: Option<String>,
    pub title: Option<String>,
    pub display_title: Option<String>,
    pub openability: Option<String>,
    pub captured_at_ms: i64,
}

/// A place the user could return to.
#[derive(Debug, Clone, PartialEq, Default)]
pub struct ContinueReturnTarget {
    pub artifact_id: Option<String>,
    pub artifact_kind: Option<String>,
    pub title: Option<String>,
    pub browser_url: Option<String>,
    pub document_path: Option<String>,
    pub openability: String,
    pub fallback_frame_id: Option<String>,
}

/// Ids of the evidence the decision rests on.
#[derive(Debug, Clone, PartialEq, Default)]
pub struct ContinueEvidenceAnchors {
    pub frame_ids: Vec<String>,
    pub action_ids: Vec<String>,
    pub episode_ids: Vec<String>,
    pub artifact_ids: Vec<String>,
}

/// What the decision found the user working on.
#[derive(Debug, Clone, PartialEq, Default)]
pub struct ContinueWorkTruth {
    pub resolution_status: String,
    pub activity_kind: String,
    pub activity_summary: Option<String>,
    pub where_summary: Option<String>,
}

/// Whether a direct open of the target is allowed.
#[derive(Debug, Clone, PartialEq, Default)]
pub struct ContinueDirectTargetPolicy {
    pub direct_target_allowed: bool,
}

/// The decision's verdict on its target.
#[derive(Debug, Clone, PartialEq, Default)]
pub struct ContinueTargetTruth {
    pub state: String,
    pub reason_codes: Vec<String>,
}

/// Quality signals raised while selecting a target.
#[derive(Debug, Clone, PartialEq, Default)]
pub struct P0QualitySignals {
    pub thin_mode_truthful: bool,
    pub stale_target_suppressed: bool,
    pub selected_target_older_than_current_focus: bool,
}

/// Current work that could not be tied to a target.
#[derive(Debug, Clone, PartialEq, Default)]
pub struct ActiveCurrentWorkUnresolved {
    pub has_openable_target: bool,
    pub unresolved_reason: String,
}

/// An audit of a target suppressed as stale.
#[derive(Debug, Clone, PartialEq, Default)]
pub struct StaleTargetSuppressionAudit {
    pub suppressed: bool,
    pub reason: String,
}

/// The part of the decision dossier the island reads.
#[derive(Debug, Clone, PartialEq, Default)]
pub struct ContinueDossier {
    pub stale_target_suppression: Option<StaleTargetSuppressionAudit>,
}

/// The workstream the decision selected.
#[derive(Debug, Clone, PartialEq, Default)]
pub struct ContinueSelectedWorkstream {
    pub workstream_id: String,
    pub title_candidate: Option<String>,
}

/// The user-facing answer of the decision.
#[derive(Debug, Clone, PartialEq, Default)]
pub struct ContinueInterruptionRecoveryAnswer {
    pub what_you_were_doing: Option<String>,
    pub where_label: Option<String>,
    pub where_you_left_off: Option<String>,
    pub next: String,
    pub task_confidence_label: String,
    pub target_confidence_label: String,
}

/// The task turn the decision was made for.
#[derive(Debug, Clone, PartialEq, Default)]
pub struct ContinueCurrentTaskTurn {
    pub task_turn_id: String,
    pub revision: i64,
}

/// A value of the evidence freshness ledger: an integer, or anything else.
#[derive(Debug, Clone, Copy, PartialEq, Eq)]
pub enum LedgerValue {
    Integer(i64),
    NotAnInteger,
}

/// The two watermarks of the evidence freshness ledger that the island reads.
#[derive(Debug, Clone, PartialEq, Default)]
pub struct EvidenceFreshnessLedger {
    pub latest_any_evidence_ms: Option<LedgerValue>,
    pub decision_watermark_ms: Option<LedgerValue>,
}

/// Authority of the task-truth answer.
#[derive(Debug, Clone, Copy, PartialEq, Eq, Default)]
pub enum TaskTruthAuthorityStateV1 {
    #[default]
    Disabled,
    Shadow,
    Authoritative,
}

/// The current activity in a task-truth answer.
#[derive(Debug, Clone, PartialEq, Default)]
pub struct TaskTruthCurrentActivityV1 {
    pub observed_surface: Option<String>,
    pub immediate_user_operation: Option<String>,
    pub semantic_effect_of_operation: Option<String>,
    pub current_subtask: Option<String>,
    pub relationship_to_primary: String,
}

/// An alternative task hypothesis.
#[derive(Debug, Clone, PartialEq, Default)]
pub struct TaskTruthAlternativeV1 {
    pub hypothesis_id: String,
    pub task_summary: String,
    pub relation: String,
    pub confidence_permille: u32,
}

/// Support for one field of a task-truth answer.
#[derive(Debug, Clone, PartialEq, Default)]
pub struct TaskTruthFieldSupportV1 {
    pub field: String,
    pub confidence_permille: Option<u32>,
}

/// The identity that ties a task-truth answer to one snapshot.
#[derive(Debug, Clone, PartialEq, Default)]
pub struct TaskTruthAtomicIdentityV1 {
    pub session_id: Option<String>,
    pub task_thread_id: Option<String>,
    pub task_thread_revision: Option<i64>,
    pub task_snapshot_id: String,
    pub snapshot_revision: i64,
    pub selected_hypothesis_id: Option<String>,
    pub model_response_id: Option<String>,
    pub observation_packet_id: String,
    pub evidence_watermark: String,
}

/// A preview of the evidence behind an answer.
#[derive(Debug, Clone, PartialEq, Default)]
pub struct ContinueEvidencePreview {
    pub schema: String,
    pub preview_kind: String,
    pub frame_id: String,
}

/// The public task-truth answer.
#[derive(Debug, Clone, PartialEq, Default)]
pub struct TaskTruthPublicAnswerV1 {
    pub task_resolution_status: String,
    pub observed_surface: Option<String>,
    pub immediate_user_operation: Option<String>,
    pub semantic_effect_of_operation: Option<String>,
    pub current_subtask: Option<String>,
    pub current_activity: TaskTruthCurrentActivityV1,
    pub task_summary: Option<String>,
    pub task_object: Option<String>,
    pub last_meaningful_progress: Option<String>,
    pub unfinished_state: Option<String>,
    pub execution_state: String,
    pub next_action: Option<String>,
    pub where_summary: Option<String>,
    pub relationship_to_prior: String,
    pub alternative_hypotheses: Vec<TaskTruthAlternativeV1>,
    pub direct_return_target: Option<ContinueReturnTarget>,
    pub field_support: Vec<TaskTruthFieldSupportV1>,
    pub task_understanding_source: String,
    pub semantic_source: String,
    pub wording_source: String,
    pub target_selection_source: String,
    pub inference_status: String,
    pub snapshot_id: String,
    pub snapshot_revision: i64,
    pub evidence_watermark: String,
    pub selected_hypothesis_id: Option<String>,
    pub atomic_identity: TaskTruthAtomicIdentityV1,
    pub evidence_preview: Option<ContinueEvidencePreview>,
}

/// The task-truth section of a decision.
#[derive(Debug, Clone, PartialEq, Default)]
pub struct ContinueTaskTruthV2 {
    pub effective_state: TaskTruthAuthorityStateV1,
    pub release_gate_passed: bool,
    pub has_inference_diagnostic: bool,
    pub answer: Option<TaskTruthPublicAnswerV1>,
    pub reason_codes: Vec<String>,
}

/// A Continue decision, as far as the island reads it.
#[derive(Debug, Clone, PartialEq, Default)]
pub struct ContinueDecisionResult {
    pub decision_id: String,
    pub cache_hit: bool,
    pub request_trigger: String,
    pub current_focus: Option<ContinueFocusSummary>,
    pub active_current_work_unresolved: Option<ActiveCurrentWorkUnresolved>,
    pub p0_quality_signals: P0QualitySignals,
    pub work_truth: ContinueWorkTruth,
    pub current_activity: Option<String>,
    pub current_task_turn: Option<ContinueCurrentTaskTurn>,
    pub task_resolution_status: String,
    pub task_resolution_reason_codes: Vec<String>,
    pub supported_surface: Option<String>,
    pub wording_source: String,
    pub target_selection_source: String,
    pub task_truth_v2: ContinueTaskTruthV2,
    pub selected_workstream: Option<ContinueSelectedWorkstream>,
    pub direct_target_policy: ContinueDirectTargetPolicy,
    pub target_truth: ContinueTargetTruth,
    pub return_target: Option<ContinueReturnTarget>,
    pub resume_work_target: Option<ContinueReturnTarget>,
    pub confidence_permille: u32,
    pub task_confidence_permille: u32,
    pub confidence_label: String,
    pub evidence_anchors: ContinueEvidenceAnchors,
    pub missing_evidence: Vec<String>,
    pub warnings: Vec<String>,
    pub validation_failures: Vec<String>,
    pub validation_status: String,
    pub feedback_suppressed_candidate_count: usize,
    pub feedback_score_capped_candidate_count: usize,
    pub excluded_branch_candidate_ids: Vec<String>,
    pub branch_validation_failures: Vec<String>,
    pub continue_output_mode: String,
    pub evidence_freshness_ledger: Option<EvidenceFreshnessLedger>,
    pub continue_dossier: Option<ContinueDossier>,
    pub activity_recap: ContinueActivityRecap,
    pub answer: ContinueInterruptionRecoveryAnswer,
    pub continue_output_path: Option<String>,
}


/// A return target, by views.
pub struct ReturnTargetView {
    pub artifact_id: Option<Seq<char>>,
    pub artifact_kind: Option<Seq<char>>,
    pub title: Option<Seq<char>>,
    pub browser_url: Option<Seq<char>>,
    pub document_path: Option<Seq<char>>,
    pub openability: Seq<char>,
    pub fallback_frame_id: Option<Seq<char>>,
}

impl View for ContinueReturnTarget {
    type V = ReturnTargetView;

    open spec fn view(&self) -> ReturnTargetView {
        ReturnTargetView {
            artifact_id: opt_str(self.artifact_id),
            artifact_kind: opt_str(self.artifact_kind),
            title: opt_str(self.title),
            browser_url: opt_str(self.browser_url),
            document_path: opt_str(self.document_path),
            openability: self.openability@,
            fallback_frame_id: opt_str(self.fallback_frame_id),
        }
    }
}

/// View of an optional return target.
pub open spec fn opt_target(t: Option<ContinueReturnTarget>) -> Option<ReturnTargetView> {
    match t {
        Some(t) => Some(t@),
        None => None,
    }
}

/// The current activity of an answer, by views.
pub struct CurrentActivityView {
    pub observed_surface: Option<Seq<char>>,
    pub immediate_user_operation: Option<Seq<char>>,
    pub semantic_effect_of_operation: Option<Seq<char>>,
    pub current_subtask: Option<Seq<char>>,
    pub relationship_to_primary: Seq<char>,
}

impl View for TaskTruthCurrentActivityV1 {
    type V = CurrentActivityView;

    open spec fn view(&self) -> CurrentActivityView {
        CurrentActivityView {
            observed_surface: opt_str(self.observed_surface),
            immediate_user_operation: opt_str(self.immediate_user_operation),
            semantic_effect_of_operation: opt_str(self.semantic_effect_of_operation),
            current_subtask: opt_str(self.current_subtask),
            relationship_to_primary: self.relationship_to_primary@,
        }
    }
}

/// An alternative hypothesis, by views.
pub struct AlternativeView {
    pub hypothesis_id: Seq<char>,
    pub task_summary: Seq<char>,
    pub relation: Seq<char>,
    pub confidence_permille: u32,
}

impl View for TaskTruthAlternativeV1 {
    type V = AlternativeView;

    open spec fn view(&self) -> AlternativeView {
        AlternativeView {
            hypothesis_id: self.hypothesis_id@,
            task_summary: self.task_summary@,
            relation: self.relation@,
            confidence_permille: self.confidence_permille,
        }
    }
}

/// Field support, by views.
pub struct FieldSupportView {
    pub field: Seq<char>,
    pub confidence_permille: Option<u32>,
}

impl View for TaskTruthFieldSupportV1 {
    type V = FieldSupportView;

    open spec fn view(&self) -> FieldSupportView {
        FieldSupportView { field: self.field@, confidence_permille: self.confidence_permille }
    }
}

/// The atomic identity, by views.
pub struct AtomicIdentityView {
    pub session_id: Option<Seq<char>>,
    pub task_thread_id: Option<Seq<char>>,
    pub task_thread_revision: Option<i64>,
    pub task_snapshot_id: Seq<char>,
    pub snapshot_revision: i64,
    pub selected_hypothesis_id: Option<Seq<char>>,
    pub model_response_id: Option<Seq<char>>,
    pub observation_packet_id: Seq<char>,
    pub evidence_watermark: Seq<char>,
}

impl View for TaskTruthAtomicIdentityV1 {
    type V = AtomicIdentityView;

    open spec fn view(&self) -> AtomicIdentityView {
        AtomicIdentityView {
            session_id: opt_str(self.session_id),
            task_thread_id: opt_str(self.task_thread_id),
            task_thread_revision: self.task_thread_revision,
            task_snapshot_id: self.task_snapshot_id@,
            snapshot_revision: self.snapshot_revision,
            selected_hypothesis_id: opt_str(self.selected_hypothesis_id),
            model_response_id: opt_str(self.model_response_id),
            observation_packet_id: self.observation_packet_id@,
            evidence_watermark: self.evidence_watermark@,
        }
    }
}

/// An evidence preview, by views.
pub struct PreviewView {
    pub schema: Seq<char>,
    pub preview_kind: Seq<char>,
    pub frame_id: Seq<char>,
}

impl View for ContinueEvidencePreview {
    type V = PreviewView;

    open spec fn view(&self) -> PreviewView {
        PreviewView {
            schema: self.schema@,
            preview_kind: self.preview_kind@,
            frame_id: self.frame_id@,
        }
    }
}

/// The public task-truth answer, by views.
pub struct AnswerView {
    pub task_resolution_status: Seq<char>,
    pub observed_surface: Option<Seq<char>>,
    pub immediate_user_operation: Option<Seq<char>>,
    pub semantic_effect_of_operation: Option<Seq<char>>,
    pub current_subtask: Option<Seq<char>>,
    pub current_activity: CurrentActivityView,
    pub task_summary: Option<Seq<char>>,
    pub task_object: Option<Seq<char>>,
    pub last_meaningful_progress: Option<Seq<char>>,
    pub unfinished_state: Option<Seq<char>>,
    pub execution_state: Seq<char>,
    pub next_action: Option<Seq<char>>,
    pub where_summary: Option<Seq<char>>,
    pub relationship_to_prior: Seq<char>,
    pub alternative_hypotheses: Seq<AlternativeView>,
    pub direct_return_target: Option<ReturnTargetView>,
    pub field_support: Seq<FieldSupportView>,
    pub task_understanding_source: Seq<char>,
    pub semantic_source: Seq<char>,
    pub wording_source: Seq<char>,
    pub target_selection_source: Seq<char>,
    pub inference_status: Seq<char>,
    pub snapshot_id: Seq<char>,
    pub snapshot_revision: i64,
    pub evidence_watermark: Seq<char>,
    pub selected_hypothesis_id: Option<Seq<char>>,
    pub atomic_identity: AtomicIdentityView,
    pub evidence_preview: Option<PreviewView>,
}

impl View for TaskTruthPublicAnswerV1 {
    type V = AnswerView;

    open spec fn view(&self) -> AnswerView {
        AnswerView {
            task_resolution_status: self.task_resolution_status@,
            observed_surface: opt_str(self.observed_surface),
            immediate_user_operation: opt_str(self.immediate_user_operation),
            semantic_effect_of_operation: opt_str(self.semantic_effect_of_operation),
            current_subtask: opt_str(self.current_subtask),
            current_activity: self.current_activity@,
            task_summary: opt_str(self.task_summary),
            task_object: opt_str(self.task_object),
            last_meaningful_progress: opt_str(self.last_meaningful_progress),
            unfinished_state: opt_str(self.unfinished_state),
            execution_state: self.execution_state@,
            next_action: opt_str(self.next_action),
            where_summary: opt_str(self.where_summary),
            relationship_to_prior: self.relationship_to_prior@,
            alternative_hypotheses: self.alternative_hypotheses@.map_values(
                |h: TaskTruthAlternativeV1| h@,
            ),
            direct_return_target: opt_target(self.direct_return_target),
            field_support: self.field_support@.map_values(|f: TaskTruthFieldSupportV1| f@),
            task_understanding_source: self.task_understanding_source@,
            semantic_source: self.semantic_source@,
            wording_source: self.wording_source@,
            target_selection_source: self.target_selection_source@,
            inference_status: self.inference_status@,
            snapshot_id: self.snapshot_id@,
            snapshot_revision: self.snapshot_revision,
            evidence_watermark: self.evidence_watermark@,
            selected_hypothesis_id: opt_str(self.selected_hypothesis_id),
            atomic_identity: self.atomic_identity@,
            evidence_preview: match self.evidence_preview {
                Some(p) => Some(p@),
                None => None,
            },
        }
    }
}

/// A copy of an optional string.
pub fn copy_opt(o: &Option<String>) -> (r: Option<String>)
    ensures
        opt_str(r) == opt_str(*o),
{
    match o {
        Some(s) => Some(s.clone()),
        None => None,
    }
}

impl ContinueReturnTarget {
    /// A copy of this target.
    pub fn copy(&self) -> (r: Self)
        ensures
            r@ == self@,
    {
        ContinueReturnTarget {
            artifact_id: copy_opt(&self.artifact_id),
            artifact_kind: copy_opt(&self.artifact_kind),
            title: copy_opt(&self.title),
            browser_url: copy_opt(&self.browser_url),
            document_path: copy_opt(&self.document_path),
            openability: self.openability.clone(),
            fallback_frame_id: copy_opt(&self.fallback_frame_id),
        }
    }
}

impl TaskTruthCurrentActivityV1 {
    /// A copy of this activity.
    pub fn copy(&self) -> (r: Self)
        ensures
            r@ == self@,
    {
        TaskTruthCurrentActivityV1 {
            observed_surface: copy_opt(&self.observed_surface),
            immediate_user_operation: copy_opt(&self.immediate_user_operation),
            semantic_effect_of_operation: copy_opt(&self.semantic_effect_of_operation),
            current_subtask: copy_opt(&self.current_subtask),
            relationship_to_primary: self.relationship_to_primary.clone(),
        }
    }
}

impl TaskTruthAtomicIdentityV1 {
    /// A copy of this identity.
    pub fn copy(&self) -> (r: Self)
        ensures
            r@ == self@,
    {
        TaskTruthAtomicIdentityV1 {
            session_id: copy_opt(&self.session_id),
            task_thread_id: copy_opt(&self.task_thread_id),
            task_thread_revision: self.task_thread_revision,
            task_snapshot_id: self.task_snapshot_id.clone(),
            snapshot_revision: self.snapshot_revision,
            selected_hypothesis_id: copy_opt(&self.selected_hypothesis_id),
            model_response_id: copy_opt(&self.model_response_id),
            observation_packet_id: self.observation_packet_id.clone(),
            evidence_watermark: self.evidence_watermark.clone(),
        }
    }
}

/// A copy of a list of alternatives.
pub fn copy_alternatives(v: &Vec<TaskTruthAlternativeV1>) -> (r: Vec<TaskTruthAlternativeV1>)
    ensures
        r@.map_values(|h: TaskTruthAlternativeV1| h@) == v@.map_values(
            |h: TaskTruthAlternativeV1| h@,
        ),
{
    let mut r: Vec<TaskTruthAlternativeV1> = Vec::new();
    let mut i: usize = 0;
    while i < v.len()
        invariant
            i <= v@.len(),
            r@.len() == i,
            forall|k: int| 0 <= k < i ==> #[trigger] r@[k]@ == v@[k]@,
        decreases v.len() - i,
    {
        let h = &v[i];
        r.push(
            TaskTruthAlternativeV1 {
                hypothesis_id: h.hypothesis_id.clone(),
                task_summary: h.task_summary.clone(),
                relation: h.relation.clone(),
                confidence_permille: h.confidence_permille,
            },
        );
        i = i + 1;
    }
    assert(r@.map_values(|h: TaskTruthAlternativeV1| h@) =~= v@.map_values(|h: TaskTruthAlternativeV1| h@));
    r
}

/// A copy of a list of field supports.
pub fn copy_field_support(v: &Vec<TaskTruthFieldSupportV1>) -> (r: Vec<TaskTruthFieldSupportV1>)
    ensures
        r@.map_values(|f: TaskTruthFieldSupportV1| f@) == v@.map_values(
            |f: TaskTruthFieldSupportV1| f@,
        ),
{
    let mut r: Vec<TaskTruthFieldSupportV1> = Vec::new();
    let mut i: usize = 0;
    while i < v.len()
        invariant
            i <= v@.len(),
            r@.len() == i,
            forall|k: int| 0 <= k < i ==> #[trigger] r@[k]@ == v@[k]@,
        decreases v.len() - i,
    {
        let f = &v[i];
        r.push(
            TaskTruthFieldSupportV1 {
                field: f.field.clone(),
                confidence_permille: f.confidence_permille,
            },
        );
        i = i + 1;
    }
    assert(r@.map_values(|f: TaskTruthFieldSupportV1| f@) =~= v@.map_values(|f: TaskTruthFieldSupportV1| f@));
    r
}

impl TaskTruthPublicAnswerV1 {
    /// A copy of this answer.
    pub fn copy(&self) -> (r: Self)
        ensures
            r@ == self@,
    {
        let preview = match &self.evidence_preview {
            Some(p) => Some(
                ContinueEvidencePreview {
                    schema: p.schema.clone(),
                    preview_kind: p.preview_kind.clone(),
                    frame_id: p.frame_id.clone(),
                },
            ),
            None => None,
        };
        let target = match &self.direct_return_target {
            Some(t) => Some(t.copy()),
            None => None,
        };
        TaskTruthPublicAnswerV1 {
            task_resolution_status: self.task_resolution_status.clone(),
            observed_surface: copy_opt(&self.observed_surface),
            immediate_user_operation: copy_opt(&self.immediate_user_operation),
            semantic_effect_of_operation: copy_opt(&self.semantic_effect_of_operation),
            current_subtask: copy_opt(&self.current_subtask),
            current_activity: self.current_activity.copy(),
            task_summary: copy_opt(&self.task_summary),
            task_object: copy_opt(&self.task_object),
            last_meaningful_progress: copy_opt(&self.last_meaningful_progress),
            unfinished_state: copy_opt(&self.unfinished_state),
            execution_state: self.execution_state.clone(),
            next_action: copy_opt(&self.next_action),
            where_summary: copy_opt(&self.where_summary),
            relationship_to_prior: self.relationship_to_prior.clone(),
            alternative_hypotheses: copy_alternatives(&self.alternative_hypotheses),
            direct_return_target: target,
            field_support: copy_field_support(&self.field_support),
            task_understanding_source: self.task_understanding_source.clone(),
            semantic_source: self.semantic_source.clone(),
            wording_source: self.wording_source.clone(),
            target_selection_source: self.target_selection_source.clone(),
            inference_status: self.inference_status.clone(),
            snapshot_id: self.snapshot_id.clone(),
            snapshot_revision: self.snapshot_revision,
            evidence_watermark: self.evidence_watermark.clone(),
            selected_hypothesis_id: copy_opt(&self.selected_hypothesis_id),
            atomic_identity: self.atomic_identity.copy(),
            evidence_preview: preview,
        }
    }
}

} // verus!
