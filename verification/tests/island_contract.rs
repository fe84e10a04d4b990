use smalltalk_island::contract::{
    island_state_from_continue_decision, IslandActionKind, IslandContinueState,
    IslandDisplayState, IslandFreshness, IslandStateContext,
};
use smalltalk_island::decision::{
    ActivityConfidence, ActivityDetourSummary, ContinueDecisionResult, ContinueEvidenceAnchors,
    ContinueFocusSummary, ContinueReturnTarget,
    ContinueSelectedWorkstream, ContinueTargetTruth, ContinueWorkTruth,
    TaskTruthAlternativeV1, TaskTruthAtomicIdentityV1, TaskTruthAuthorityStateV1,
    TaskTruthCurrentActivityV1, TaskTruthPublicAnswerV1,
};

fn base_decision() -> ContinueDecisionResult {
    let mut decision = ContinueDecisionResult {
        decision_id: "continue-test".to_string(),
        cache_hit: false,
        request_trigger: "manual".to_string(),
        current_focus: Some(ContinueFocusSummary {
            frame_id: "frame-current".to_string(),
            artifact_kind: Some("codex_thread".to_string()),
            app_name: Some("Codex".to_string()),
            window_title: Some("Smalltalk P4".to_string()),
            title: Some("Smalltalk P4".to_string()),
            display_title: Some("Smalltalk P4".to_string()),
            openability: Some("inspect_only".to_string()),
            captured_at_ms: 2_000,
        }),
        active_current_work_unresolved: None,
        work_truth: ContinueWorkTruth {
            resolution_status: "unresolved".to_string(),
            activity_kind: "unknown".to_string(),
            activity_summary: None,
            where_summary: None,
        },
        current_activity: Some("Implementing island Continue state".to_string()),
        current_task_turn: None,
        task_resolution_status: "current_task_supported".to_string(),
        task_resolution_reason_codes: vec!["test_fixture".to_string()],
        supported_surface: Some("Codex".to_string()),
        wording_source: "local_deterministic".to_string(),
        target_selection_source: "local_validated_target_policy".to_string(),
        selected_workstream: Some(ContinueSelectedWorkstream {
            workstream_id: "workstream-test".to_string(),
            title_candidate: Some("P4 Island Contract".to_string()),
        }),
        target_truth: ContinueTargetTruth {
            state: "direct_continue_ready".to_string(),
            reason_codes: vec!["direct_target_available".to_string()],
        },
        return_target: Some(ContinueReturnTarget {
            artifact_id: Some("artifact-target".to_string()),
            artifact_kind: Some("code_file".to_string()),
            title: Some("session_island.rs".to_string()),
            browser_url: Some("https://example.com/raw-should-not-leak".to_string()),
            document_path: Some("/Users/example/raw-should-not-leak.rs".to_string()),
            openability: "openable".to_string(),
            fallback_frame_id: Some("frame-target".to_string()),
        }),
        resume_work_target: None,
        confidence_permille: 820,
        confidence_label: "High".to_string(),
        evidence_anchors: ContinueEvidenceAnchors {
            frame_ids: vec!["frame-current".to_string()],
            action_ids: vec!["action-current".to_string()],
            episode_ids: Vec::new(),
            artifact_ids: vec!["artifact-target".to_string()],
        },
        validation_status: "validated".to_string(),
        continue_output_mode: "normal".to_string(),
        continue_output_path: Some("/Users/example/continue_outputs/raw-path".to_string()),
        ..Default::default()
    };
    decision.direct_target_policy.direct_target_allowed = true;
    decision
}

fn test_freshness() -> IslandFreshness {
    IslandFreshness {
        evidence_watermark_ms: Some(2_000),
        newest_evidence_ms: Some(2_000),
        decision_updated_at_ms: Some(2_100),
        decision_stale: false,
    }
}

fn mapped(decision: &ContinueDecisionResult) -> IslandContinueState {
    island_state_from_continue_decision(
        decision,
        test_freshness(),
        IslandStateContext {
            local_memory_running: true,
            has_local_memory: true,
        },
    )
}

fn complete_identity(
    thread: &str,
    revision: i64,
    snapshot: &str,
    hypothesis: &str,
    response: &str,
    packet: &str,
    watermark: &str,
) -> TaskTruthAtomicIdentityV1 {
    TaskTruthAtomicIdentityV1 {
        task_thread_id: Some(thread.into()),
        task_thread_revision: Some(revision),
        task_snapshot_id: snapshot.into(),
        snapshot_revision: revision,
        selected_hypothesis_id: Some(hypothesis.into()),
        model_response_id: Some(response.into()),
        observation_packet_id: packet.into(),
        evidence_watermark: watermark.into(),
        ..Default::default()
    }
}

#[test]
fn recording_without_a_decision_keeps_continue_primary_and_capture_secondary() {
    let state = IslandContinueState::no_evidence(
        IslandFreshness::default(),
        IslandStateContext {
            local_memory_running: true,
            has_local_memory: true,
        },
    );

    assert_eq!(state.display_state, IslandDisplayState::LocalMemoryWarming);
    assert_eq!(
        state.available_actions.first().map(|action| &action.kind),
        Some(&IslandActionKind::RefreshContinue)
    );
    assert_eq!(state.available_actions[0].label, "Continue");
    assert!(state.available_actions.iter().any(|action| {
        action.kind == IslandActionKind::CaptureEvidenceNow
            && action.label == "Update local evidence"
    }));
}

#[test]
fn island_state_continue_ready_has_open_action_with_decision_id() {
    let decision = base_decision();
    let state = mapped(&decision);

    assert_eq!(state.display_state, IslandDisplayState::ContinueReady);
    assert!(state.allows_open_continue_target());
    assert!(state.available_actions.iter().any(|action| {
        action.kind == IslandActionKind::OpenContinueTarget
            && action.decision_id.as_deref() == Some("continue-test")
    }));
    assert!(state.activity_summary.is_none());
    assert!(state.activity_confidence_label.is_none());
    assert!(state.target_confidence_label.is_none());
}

#[test]
fn island_state_thin_current_work_has_no_open_continue_action() {
    let mut decision = base_decision();
    decision.return_target = None;
    decision.resume_work_target = None;
    decision.direct_target_policy.direct_target_allowed = false;
    decision.target_truth.state = "thin_task_seen".to_string();
    decision.target_truth.reason_codes = vec!["frame_preview_only".to_string()];
    decision.confidence_permille = 420;
    decision.confidence_label = "Thin".to_string();
    decision.validation_status = "thin_evidence".to_string();
    decision.missing_evidence = vec!["missing_fresh_heavy_frame_for_current_focus".to_string()];
    decision.activity_recap.primary_work_summary =
        Some("Writing the P5 activity-memory card".to_string());
    decision.activity_recap.activity_confidence = ActivityConfidence::Medium;
    decision.activity_recap.target_confidence = ActivityConfidence::Low;

    let state = mapped(&decision);

    assert_eq!(state.display_state, IslandDisplayState::ThinCurrentWork);
    assert!(!state.allows_open_continue_target());
    assert!(state
        .available_actions
        .iter()
        .any(|action| action.kind == IslandActionKind::InspectEvidence));
    assert_eq!(
        state.activity_summary.as_deref(),
        Some("Writing the P5 activity-memory card")
    );
    assert_eq!(state.activity_confidence_label.as_deref(), Some("medium"));
    assert_eq!(state.target_confidence_label.as_deref(), Some("low"));
}

#[test]
fn island_state_suppressed_target_has_no_open_continue_action() {
    let mut decision = base_decision();
    decision.p0_quality_signals.stale_target_suppressed = true;
    decision
        .p0_quality_signals
        .selected_target_older_than_current_focus = true;

    let state = mapped(&decision);

    assert_eq!(state.display_state, IslandDisplayState::TargetSuppressed);
    assert!(!state.allows_open_continue_target());
    assert!(state
        .suppression_reasons
        .contains(&"stale_target_suppressed".to_string()));
}

#[test]
fn island_state_p1_hard_suppressed_has_no_open_continue_action() {
    let mut decision = base_decision();
    decision.feedback_suppressed_candidate_count = 1;
    decision.validation_status = "suppressed_by_feedback".to_string();

    let state = mapped(&decision);

    assert_eq!(state.display_state, IslandDisplayState::TargetSuppressed);
    assert!(!state.allows_open_continue_target());
    assert!(state
        .suppression_reasons
        .contains(&"feedback_suppressed_candidate".to_string()));
}

#[test]
fn island_state_support_blocked_has_no_open_continue_action_unless_origin_valid() {
    let mut decision = base_decision();
    decision.branch_validation_failures =
        vec!["branch_support_not_default_return_target".to_string()];

    let blocked = mapped(&decision);

    assert_eq!(blocked.display_state, IslandDisplayState::SupportBlocked);
    assert!(!blocked.allows_open_continue_target());

    decision.branch_validation_failures.clear();
    decision.warnings.clear();
    let valid_origin = mapped(&decision);
    assert_eq!(
        valid_origin.display_state,
        IslandDisplayState::ContinueReady
    );
    assert!(valid_origin.allows_open_continue_target());
}

#[test]
fn island_state_needs_refresh_prefers_refresh_action() {
    let decision = base_decision();
    let state = island_state_from_continue_decision(
        &decision,
        IslandFreshness {
            evidence_watermark_ms: Some(2_500),
            newest_evidence_ms: Some(2_500),
            decision_updated_at_ms: Some(2_100),
            decision_stale: true,
        },
        IslandStateContext::default(),
    );

    assert_eq!(state.display_state, IslandDisplayState::NeedsRefresh);
    assert!(!state.allows_open_continue_target());
    assert_eq!(
        state.available_actions.first().map(|action| &action.kind),
        Some(&IslandActionKind::RefreshContinue)
    );
}

#[test]
fn island_state_no_clear_continuation_has_no_open_continue_action() {
    let mut decision = base_decision();
    decision.return_target = None;
    decision.resume_work_target = None;
    decision.confidence_permille = 700;
    decision.confidence_label = "Medium".to_string();
    decision.validation_status = "validated".to_string();
    decision.direct_target_policy.direct_target_allowed = false;
    decision.target_truth.state = "no_clear_task".to_string();
    decision.target_truth.reason_codes = vec!["no_clear_task_or_target".to_string()];

    let state = mapped(&decision);

    assert_eq!(state.display_state, IslandDisplayState::NoClearContinuation);
    assert!(!state.allows_open_continue_target());
}

#[test]
fn observed_activity_renders_before_generic_no_clear_state() {
    let mut decision = base_decision();
    decision.task_resolution_status = "no_clear_current_task".into();
    decision.continue_output_mode = "thin_continue".into();
    decision.work_truth = ContinueWorkTruth {
        resolution_status: "activity_supported".into(),
        activity_kind: "editing".into(),
        activity_summary: Some("Editing tt2-05-completion-audit.md".into()),
        where_summary: Some("tt2-05-completion-audit.md in Visual Studio Code".into()),
    };

    let state = mapped(&decision);

    assert_eq!(state.display_state, IslandDisplayState::ContinueReady);
    assert_eq!(
        state.activity_summary.as_deref(),
        Some("Editing tt2-05-completion-audit.md")
    );
    assert!(state.allows_open_continue_target());
}

#[test]
fn typed_no_clear_task_suppresses_polluted_task_copy_and_leaked_targets() {
    let mut decision = base_decision();
    decision.task_resolution_status = "no_clear_current_task".to_string();
    decision.task_resolution_reason_codes = vec![
        "no_eligible_current_user_goal".to_string(),
        "categorical_control_ineligible".to_string(),
    ];
    decision.continue_output_mode = "no_clear_continuation".to_string();
    decision.target_truth.state = "no_clear_task".to_string();
    decision.target_truth.reason_codes = decision.task_resolution_reason_codes.clone();
    decision.answer.what_you_were_doing = Some("Approve for me".to_string());
    decision.answer.where_you_left_off = Some("Approve for me".to_string());
    decision.activity_recap.primary_work_summary = Some("Approve for me".to_string());
    decision.activity_recap.primary_work_label = Some("Approve for me".to_string());
    decision.activity_recap.last_meaningful_state = Some("Approve for me".to_string());
    decision
        .selected_workstream
        .as_mut()
        .unwrap()
        .title_candidate = Some("Approve for me".to_string());

    let state = mapped(&decision);

    assert_eq!(state.display_state, IslandDisplayState::NoClearContinuation);
    assert!(!state.allows_open_continue_target());
    assert!(state.return_target.is_none());
    assert!(state.resume_work_target.is_none());
    assert!(state.activity_summary.is_none());
    assert!(state.activity_label.is_none());
    assert!(state.activity_state.is_none());
    assert!(state.selected_workstream_title.is_none());
    assert!(!state
        .next_action
        .as_deref()
        .unwrap_or_default()
        .contains("Approve"));
    assert_eq!(
        state.target_reason_codes,
        decision.task_resolution_reason_codes
    );
}

#[test]
fn p6_08_task_known_target_unknown_keeps_recap_and_inspect_action() {
    let mut decision = base_decision();
    decision.return_target = None;
    decision.resume_work_target = None;
    decision.direct_target_policy.direct_target_allowed = false;
    decision.target_truth.state = "task_known_target_unknown".to_string();
    decision.target_truth.reason_codes = vec![
        "frame_preview_only".to_string(),
        "missing_url_or_path".to_string(),
        "task_known_target_unknown".to_string(),
    ];
    decision.activity_recap.primary_work_summary =
        Some("Investigating what the island Capture button does".to_string());
    decision.activity_recap.last_meaningful_state =
        Some("The agent was tracing the Swift bridge and Rust handler".to_string());
    decision.activity_recap.next_action_summary =
        Some("Wait for the tracing result or inspect implementation evidence".to_string());
    decision.activity_recap.activity_confidence = ActivityConfidence::High;
    decision.activity_recap.target_confidence = ActivityConfidence::Absent;

    let state = mapped(&decision);

    assert_eq!(state.display_state, IslandDisplayState::InspectOnly);
    assert_eq!(state.target_state, "task_known_target_unknown");
    assert_eq!(
        state.activity_summary.as_deref(),
        Some("Investigating what the island Capture button does")
    );
    assert_eq!(state.target_confidence_label.as_deref(), Some("none"));
    assert!(!state.allows_open_continue_target());
    assert!(state
        .available_actions
        .iter()
        .any(|action| action.kind == IslandActionKind::InspectEvidence));
}

#[test]
fn island_no_clear_output_never_reopens_a_leaked_target() {
    let mut decision = base_decision();
    decision.continue_output_mode = "no_clear_continuation".to_string();

    let state = mapped(&decision);

    assert_eq!(state.display_state, IslandDisplayState::NoClearContinuation);
    assert!(!state.allows_open_continue_target());
    assert!(state
        .available_actions
        .iter()
        .all(|action| action.kind != IslandActionKind::OpenContinueTarget));
}

#[test]
fn island_state_p3_weak_surface_inspect_only_has_no_open_continue_action() {
    let mut decision = base_decision();
    decision.current_focus = None;
    decision.return_target = None;
    decision.resume_work_target = None;
    decision.confidence_permille = 740;
    decision.confidence_label = "Medium".to_string();
    decision.validation_status = "validated".to_string();

    let state = mapped(&decision);

    assert_eq!(state.display_state, IslandDisplayState::InspectOnly);
    assert!(!state.allows_open_continue_target());
    assert!(state
        .available_actions
        .iter()
        .any(|action| action.kind == IslandActionKind::InspectEvidence));
}

#[test]
fn island_state_error_has_no_open_continue_action() {
    let state = IslandContinueState::error(2_000, Some("test_error".to_string()));

    assert_eq!(state.display_state, IslandDisplayState::Error);
    assert!(!state.allows_open_continue_target());
    assert!(state
        .available_actions
        .iter()
        .all(|action| action.kind != IslandActionKind::OpenContinueTarget));
}

#[test]
fn island_state_redacts_raw_url_and_path() {
    let mut decision = base_decision();
    decision.return_target.as_mut().unwrap().title =
        Some("https://example.com/raw-target".to_string());
    decision.current_focus.as_mut().unwrap().display_title =
        Some("/Users/example/private-project/file.rs".to_string());
    decision.current_focus.as_mut().unwrap().title = Some("Safe focus title".to_string());

    let state = mapped(&decision);
    let payload = format!("{state:?}");

    assert!(!payload.contains("https://example.com"));
    assert!(!payload.contains("/Users/example"));
    assert!(!payload.contains("raw-path"));
    assert_eq!(
        state
            .return_target
            .as_ref()
            .map(|target| target.title.as_str()),
        Some("code_file")
    );
    assert_eq!(
        state
            .current_focus
            .as_ref()
            .map(|focus| focus.title.as_str()),
        Some("Safe focus title")
    );
}

#[test]
fn island_compact_recap_matches_main_decision_without_exposing_proof_ids() {
    let mut decision = base_decision();
    decision.activity_recap.primary_work_summary =
        Some("Integrating P5 into the Continue lifecycle".to_string());
    decision.activity_recap.primary_work_label = Some("Integrating P5".to_string());
    decision.activity_recap.primary_where_summary = Some("Smalltalk codebase".to_string());
    decision.activity_recap.last_meaningful_state =
        Some("The recap pipeline was connected to the decision.".to_string());
    decision.activity_recap.activity_confidence = ActivityConfidence::High;
    decision.activity_recap.target_confidence = ActivityConfidence::Medium;
    decision.activity_recap.next_action_summary =
        Some("Verify the Continue card and island together.".to_string());
    decision.activity_recap.missing_evidence =
        vec!["The exact active file was not visible.".to_string()];
    decision.activity_recap.recent_detours.push(ActivityDetourSummary {
        surface_title: Some("Finder".to_string()),
        app_name: Some("Finder".to_string()),
        activity_label: Some("File browsing".to_string()),
        reason: "Finder was a brief detour from the primary work.".to_string(),
        start_ms: Some(1_000),
        end_ms: Some(1_100),
        evidence_anchor_ids: vec!["frame-secret-anchor".to_string()],
    });

    let state = mapped(&decision);
    let payload = format!("{state:?}");

    assert_eq!(state.display_state, IslandDisplayState::ContinueReady);
    assert!(state.allows_open_continue_target());
    assert_eq!(
        state.activity_summary.as_deref(),
        decision.activity_recap.primary_work_summary.as_deref()
    );
    assert_eq!(state.activity_where.as_deref(), Some("Smalltalk codebase"));
    assert_eq!(state.activity_label.as_deref(), Some("Integrating P5"));
    assert_eq!(
        state.activity_state.as_deref(),
        Some("The recap pipeline was connected to the decision.")
    );
    assert_eq!(state.activity_confidence_label.as_deref(), Some("high"));
    assert_eq!(state.target_confidence_label.as_deref(), Some("medium"));
    assert_eq!(
        state.next_action.as_deref(),
        Some("Verify the Continue card and island together.")
    );
    assert_eq!(
        state.missing_evidence.first().map(String::as_str),
        Some("The exact active file was not visible.")
    );
    assert_eq!(
        state.recent_context_summary.as_deref(),
        Some("Finder was a brief detour from the primary work.")
    );
    assert!(!payload.contains("activity_recap"));
    assert!(!payload.contains("frame-secret-anchor"));
    assert!(!payload.contains("/Users/"));
    assert!(!payload.contains("://"));
}

#[test]
fn island_keeps_useful_activity_when_there_is_no_safe_target() {
    let mut decision = base_decision();
    decision.return_target = None;
    decision.resume_work_target = None;
    decision.activity_recap.primary_work_summary =
        Some("Planning the P5 activity-memory UI".to_string());
    decision.activity_recap.primary_work_label = Some("Planning P5 UI".to_string());
    decision.activity_recap.primary_where_summary = Some("Smalltalk project".to_string());
    decision.activity_recap.activity_confidence = ActivityConfidence::High;
    decision.activity_recap.target_confidence = ActivityConfidence::Absent;
    decision.activity_recap.why_no_safe_target =
        Some("The exact thread was not visible.".to_string());

    let state = mapped(&decision);

    assert_eq!(state.display_state, IslandDisplayState::NoClearContinuation);
    assert!(!state.allows_open_continue_target());
    assert!(state
        .available_actions
        .iter()
        .any(|action| action.kind == IslandActionKind::InspectEvidence));
    assert_eq!(state.activity_label.as_deref(), Some("Planning P5 UI"));
    assert_eq!(state.activity_confidence_label.as_deref(), Some("high"));
    assert_eq!(state.target_confidence_label.as_deref(), Some("none"));
}

#[test]
fn island_filters_internal_looking_activity_copy() {
    let mut decision = base_decision();
    decision.activity_recap.primary_work_summary =
        Some("Review candidate-secret before opening".to_string());
    decision.activity_recap.primary_work_label = Some("artifact-secret".to_string());
    decision.activity_recap.primary_where_summary = Some("workstream-secret".to_string());
    decision.activity_recap.last_meaningful_state =
        Some("frame-fallback remained visible".to_string());

    let state = mapped(&decision);

    assert!(state.activity_summary.is_none());
    assert!(state.activity_label.is_none());
    assert!(state.activity_where.is_none());
    assert!(state.activity_state.is_none());
    assert!(state.activity_confidence_label.is_none());
    assert!(state.target_confidence_label.is_none());
}

#[test]
fn authoritative_task_truth_with_null_target_cannot_leak_legacy_open_target() {
    let mut decision = base_decision();
    decision.task_truth_v2.effective_state = TaskTruthAuthorityStateV1::Authoritative;
    decision.task_truth_v2.release_gate_passed = true;
    decision.task_truth_v2.answer = Some(TaskTruthPublicAnswerV1 {
        task_resolution_status: "resolved".into(),
        task_summary: Some("Implement Task Truth authority".into()),
        where_summary: Some("Smalltalk".into()),
        snapshot_id: "snapshot-current".into(),
        snapshot_revision: 3,
        evidence_watermark: "watermark-current".into(),
        selected_hypothesis_id: Some("hypothesis-current".into()),
        atomic_identity: complete_identity(
            "thread-current",
            3,
            "snapshot-current",
            "hypothesis-current",
            "response-current",
            "packet-current",
            "watermark-current",
        ),
        ..Default::default()
    });

    let state = mapped(&decision);

    assert_eq!(
        state.activity_summary.as_deref(),
        Some("Implement Task Truth authority")
    );
    assert!(state.return_target.is_none());
    assert!(state.resume_work_target.is_none());
    assert!(!state.allows_open_continue_target());
    assert_eq!(state.display_state, IslandDisplayState::InspectOnly);
    assert!(state.current_focus.is_none());
    assert!(state.next_action.is_none());
}

#[test]
fn authoritative_task_truth_owns_island_copy_and_open_policy() {
    let mut decision = base_decision();
    let authoritative_target = decision.return_target.clone().unwrap();
    decision.task_resolution_status = "no_clear_current_task".into();
    decision.continue_output_mode = "no_clear_continuation".into();
    decision.validation_status = "rejected_legacy".into();
    decision.target_truth.state = "support_only".into();
    decision.direct_target_policy.direct_target_allowed = false;
    decision.answer.next = "Legacy next action must not leak".into();
    decision.activity_recap.primary_where_summary = Some("Legacy location".into());
    decision.task_truth_v2.effective_state = TaskTruthAuthorityStateV1::Authoritative;
    decision.task_truth_v2.release_gate_passed = true;
    decision.task_truth_v2.answer = Some(TaskTruthPublicAnswerV1 {
        task_resolution_status: "resolved".into(),
        task_summary: Some("Use the authoritative island contract".into()),
        direct_return_target: Some(authoritative_target),
        snapshot_id: "snapshot-authoritative".into(),
        snapshot_revision: 4,
        evidence_watermark: "watermark-authoritative".into(),
        selected_hypothesis_id: Some("hypothesis-authoritative".into()),
        atomic_identity: complete_identity(
            "thread-authoritative",
            4,
            "snapshot-authoritative",
            "hypothesis-authoritative",
            "response-authoritative",
            "packet-authoritative",
            "watermark-authoritative",
        ),
        ..Default::default()
    });

    let state = mapped(&decision);

    assert_eq!(state.display_state, IslandDisplayState::ContinueReady);
    assert!(state.allows_open_continue_target());
    assert_eq!(
        state.activity_summary.as_deref(),
        Some("Use the authoritative island contract")
    );
    assert!(state.current_focus.is_none());
    assert!(state.activity_where.is_none());
    assert!(state.next_action.is_none());
    assert_eq!(state.target_state, "direct_continue_ready");
    assert_eq!(state.validation_status.as_deref(), Some("resolved"));
}

#[test]
fn unresolved_model_answer_with_admitted_fields_is_inspectable_not_no_clear() {
    let mut decision = base_decision();
    decision.task_truth_v2.effective_state = TaskTruthAuthorityStateV1::Authoritative;
    decision.task_truth_v2.release_gate_passed = true;
    decision.task_truth_v2.answer = Some(TaskTruthPublicAnswerV1 {
        task_resolution_status: "unresolved".into(),
        current_subtask: Some("Review the admitted Continue response".into()),
        current_activity: TaskTruthCurrentActivityV1 {
            current_subtask: Some("Review the admitted Continue response".into()),
            relationship_to_primary: "unclear".into(),
            ..Default::default()
        },
        last_meaningful_progress: Some("The provider returned usable evidence".into()),
        unfinished_state: Some("The exact primary task remains uncertain".into()),
        inference_status: "model_answer_visible_with_validation_limits".into(),
        ..Default::default()
    });

    let state = mapped(&decision);

    assert_eq!(state.display_state, IslandDisplayState::InspectOnly);
    assert_eq!(state.target_state, "task_known_target_unknown");
    assert_eq!(
        state.activity_summary.as_deref(),
        None,
        "a current step must not be relabeled as the primary task"
    );
    assert_eq!(
        state.current_activity.as_deref(),
        Some("Review the admitted Continue response Its relationship to the earlier task is not clear.")
    );
    assert!(!state.allows_open_continue_target());
}

#[test]
fn island_serializes_the_exact_atomic_semantic_answer() {
    let mut decision = base_decision();
    decision.task_truth_v2.effective_state = TaskTruthAuthorityStateV1::Authoritative;
    decision.task_truth_v2.release_gate_passed = true;
    let answer = TaskTruthPublicAnswerV1 {
        task_resolution_status: "ambiguous".into(),
        task_summary: Some("Implement bounded task threads".into()),
        current_activity: TaskTruthCurrentActivityV1 {
            observed_surface: Some("MCP documentation".into()),
            current_subtask: Some("Reviewing supporting protocol documentation".into()),
            relationship_to_primary: "supporting_research".into(),
            ..Default::default()
        },
        relationship_to_prior: "supporting_research".into(),
        selected_hypothesis_id: Some("hypothesis-a".into()),
        alternative_hypotheses: vec![
            TaskTruthAlternativeV1 {
                hypothesis_id: "hypothesis-b".into(),
                task_summary: "Review task-thread evidence".into(),
                relation: "verification".into(),
                confidence_permille: 780,
            },
            TaskTruthAlternativeV1 {
                hypothesis_id: "hypothesis-c".into(),
                task_summary: "Repair island parity".into(),
                relation: "continuation".into(),
                confidence_permille: 760,
            },
            TaskTruthAlternativeV1 {
                hypothesis_id: "hypothesis-out-of-bound".into(),
                task_summary: "This must not become an island action".into(),
                relation: "unrelated_or_unknown".into(),
                confidence_permille: 200,
            },
        ],
        snapshot_id: "snapshot-thread-2".into(),
        snapshot_revision: 2,
        evidence_watermark: "watermark-thread-2".into(),
        atomic_identity: TaskTruthAtomicIdentityV1 {
            session_id: Some("session-a".into()),
            ..complete_identity(
                "thread-a",
                2,
                "snapshot-thread-2",
                "hypothesis-a",
                "response-a",
                "packet-a",
                "watermark-thread-2",
            )
        },
        ..Default::default()
    };
    decision.task_truth_v2.answer = Some(answer.clone());

    let state = mapped(&decision);

    assert_eq!(state.semantic_answer.as_ref(), Some(&answer));
    assert_eq!(
        format!("{:?}", state.semantic_answer.as_ref().unwrap()),
        format!("{:?}", &answer)
    );
    assert!(state
        .current_activity
        .as_deref()
        .is_some_and(|copy| copy.contains("supports the primary task")));
    let scoped = state
        .available_actions
        .iter()
        .filter(|action| action.task_snapshot_id.is_some())
        .collect::<Vec<_>>();
    assert_eq!(
        scoped
            .iter()
            .filter(|action| action.kind == IslandActionKind::ChooseTaskAlternative)
            .count(),
        2
    );
    assert!(scoped.iter().all(|action| {
        action.task_snapshot_id.as_deref() == Some("snapshot-thread-2")
            && action.task_snapshot_revision == Some(2)
            && action.decision_id.as_deref() == Some("continue-test")
    }));
    assert!(scoped.iter().any(|action| {
        action.kind == IslandActionKind::RejectSelectedTask
            && action.affected_task_field.as_deref() == Some("task_summary")
            && action.task_hypothesis_id.is_none()
    }));
    for kind in [
        IslandActionKind::MarkSupportingWork,
        IslandActionKind::MarkUnrelatedActivity,
        IslandActionKind::MarkTaskCompleted,
        IslandActionKind::ReactivateTask,
    ] {
        assert!(scoped.iter().any(|action| {
            action.kind == kind && action.task_hypothesis_id.as_deref() == Some("hypothesis-a")
        }));
    }
    assert!(scoped.iter().all(|action| {
        action.task_hypothesis_id.as_deref() != Some("hypothesis-out-of-bound")
    }));
}

#[test]
fn island_sanitizes_resolved_task_truth_with_incomplete_atomic_identity() {
    let mut decision = base_decision();
    decision.task_truth_v2.effective_state = TaskTruthAuthorityStateV1::Authoritative;
    decision.task_truth_v2.release_gate_passed = true;
    decision.task_truth_v2.answer = Some(TaskTruthPublicAnswerV1 {
        task_resolution_status: "resolved".into(),
        task_summary: Some("This claim must not reach the island".into()),
        direct_return_target: decision.return_target.clone(),
        snapshot_id: "snapshot-incomplete".into(),
        snapshot_revision: 2,
        evidence_watermark: "watermark-incomplete".into(),
        ..Default::default()
    });

    let state = mapped(&decision);

    assert_eq!(state.display_state, IslandDisplayState::NoClearContinuation);
    assert_eq!(
        state
            .semantic_answer
            .as_ref()
            .map(|answer| answer.inference_status.as_str()),
        Some("invalid_atomic_identity")
    );
    assert!(state.activity_summary.is_none());
    assert!(state.activity_state.is_none());
    assert!(state.activity_where.is_none());
    assert!(state.next_action.is_none());
    assert!(state.return_target.is_none());
    assert!(!state.allows_open_continue_target());
}

#[test]
fn the_open_action_is_offered_once_and_only_when_ready() {
    let ready = mapped(&base_decision());
    let mut thin_decision = base_decision();
    thin_decision.return_target = None;
    let thin = mapped(&thin_decision);
    for state in [ready, thin] {
        let opens = state
            .available_actions
            .iter()
            .filter(|a| a.kind == IslandActionKind::OpenContinueTarget)
            .count();
        assert!(opens <= 1);
        assert_eq!(
            state.allows_open_continue_target(),
            state.display_state == IslandDisplayState::ContinueReady
        );
    }
}
