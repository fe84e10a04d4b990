//! The requests the island sends to the Continue pipeline: a decision
//! request and explicit feedback on a decision.
use vstd::prelude::*;

verus! {

/// How much of a decision's audit the pipeline writes.
#[derive(Debug, Clone, Copy, PartialEq, Eq)]
pub enum ContinueAuditMode {
    /// No audit review output.
    Off,
    /// The full review audit of a manual Continue.
    MftiReview,
}

/// A request for a Continue decision.
#[derive(Debug, Clone, PartialEq, Eq, Default)]
pub struct ContinueDecisionRequest {
    pub mode: Option<String>,
    pub session_id: Option<String>,
    pub rebuild_layers: Option<bool>,
    pub micro_inference_enabled: Option<bool>,
    pub activity_recap_model_enabled: Option<bool>,
    pub max_candidates_for_model: Option<usize>,
    pub audit_output_enabled: Option<bool>,
    pub audit_mode: Option<ContinueAuditMode>,
    pub request_trigger: Option<String>,
    pub island_trigger_reason: Option<String>,
    pub island_source: Option<String>,
}

/// Explicit feedback on a Continue decision.
#[derive(Debug, Clone, PartialEq, Eq, Default)]
pub struct ContinueExplicitFeedbackRequest {
    pub decision_id: Option<String>,
    pub selected_candidate_id: Option<String>,
    pub workstream_id: Option<String>,
    pub target_artifact_id: Option<String>,
    pub corrected_artifact_id: Option<String>,
    pub feedback_kind: String,
    pub note: Option<String>,
    pub source: Option<String>,
    pub task_snapshot_id: Option<String>,
    pub task_snapshot_revision: Option<i64>,
    pub affected_task_field: Option<String>,
    pub task_hypothesis_id: Option<String>,
}

} // verus!
