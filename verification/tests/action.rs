use smalltalk_island::action::{
    blocked_audit_reason, blocked_open_result, feedback_action_result, open_gate,
    open_target_request, opened_action_result, plan_island_action, refreshed_action_result,
    scoped_feedback_request, trimmed_nonempty, IslandActionEffect, IslandActionStep,
    IslandContinueActionInput, OpenGate,
};
use smalltalk_island::capture::OpenResumePointResult;
use smalltalk_island::contract::{
    IslandActionKind, IslandAvailableAction, IslandContinueState, IslandDisplayState,
};
use smalltalk_island::gateway::IslandContinueReason;
use smalltalk_island::history::{ContinueHistoryCursorV1, ContinueHistoryOutputV1};
use smalltalk_island::inventory::island_route_inventory;
use smalltalk_island::island::scoped_task_feedback_contract;
use smalltalk_island::native::{
    history_output_result, history_page_result, native_action_route, NativeActionRoute,
    SessionIslandAction, SessionIslandActionKind,
};
use smalltalk_island::request::ContinueExplicitFeedbackRequest;

fn input(kind: IslandActionKind, decision_id: Option<&str>) -> IslandContinueActionInput {
    IslandContinueActionInput {
        action_kind: kind,
        decision_id: decision_id.map(str::to_string),
        source: None,
        trace_id: None,
        task_snapshot_id: None,
        task_snapshot_revision: None,
        affected_task_field: None,
        task_hypothesis_id: None,
    }
}

fn scoped_input() -> IslandContinueActionInput {
    IslandContinueActionInput {
        action_kind: IslandActionKind::ChooseTaskAlternative,
        decision_id: Some(" decision-a ".to_string()),
        source: Some("native_island".to_string()),
        trace_id: None,
        task_snapshot_id: Some("  snapshot-a ".to_string()),
        task_snapshot_revision: Some(4),
        affected_task_field: Some("hypothesis".to_string()),
        task_hypothesis_id: Some("hypothesis-b".to_string()),
    }
}

fn openable_state(decision_id: &str) -> IslandContinueState {
    let mut state = IslandContinueState::error(1_000, None);
    state.display_state = IslandDisplayState::ContinueReady;
    state.decision_id = Some(decision_id.to_string());
    state.available_actions = vec![IslandAvailableAction::enabled(
        IslandActionKind::OpenContinueTarget,
        "Continue",
        Some(decision_id.to_string()),
    )];
    state
}

fn empty_action(action: SessionIslandActionKind) -> SessionIslandAction {
    SessionIslandAction {
        action,
        action_kind: None,
        decision_id: None,
        source: None,
        trace_id: None,
        task_snapshot_id: None,
        task_snapshot_revision: None,
        affected_task_field: None,
        task_hypothesis_id: None,
        history_cursor: None,
        history_request_id: None,
    }
}

fn action_from_json(text: &str) -> SessionIslandAction {
    let value: serde_json::Value = serde_json::from_str(text).unwrap();
    let text_of = |key: &str| value.get(key).and_then(|v| v.as_str()).map(str::to_string);
    SessionIslandAction {
        action: SessionIslandActionKind::from_wire_name(value["action"].as_str().unwrap()).unwrap(),
        action_kind: text_of("action_kind")
            .map(|name| IslandActionKind::from_wire_name(&name).unwrap()),
        decision_id: text_of("decision_id"),
        source: text_of("source"),
        trace_id: text_of("trace_id"),
        task_snapshot_id: text_of("task_snapshot_id"),
        task_snapshot_revision: value.get("task_snapshot_revision").and_then(|v| v.as_i64()),
        affected_task_field: text_of("affected_task_field"),
        task_hypothesis_id: text_of("task_hypothesis_id"),
        history_cursor: value.get("history_cursor").map(|cursor| ContinueHistoryCursorV1 {
            created_at_ms: cursor["created_at_ms"].as_i64().unwrap(),
            decision_id: cursor["decision_id"].as_str().unwrap().to_string(),
        }),
        history_request_id: value.get("history_request_id").and_then(|v| v.as_u64()),
    }
}

#[test]
fn native_scoped_task_feedback_envelope_preserves_exact_identity() {
    let action = action_from_json(
        r#"{
            "action": "perform_continue_action",
            "action_kind": "choose_task_alternative",
            "decision_id": "decision-a",
            "task_snapshot_id": "snapshot-a",
            "task_snapshot_revision": 4,
            "affected_task_field": "hypothesis",
            "task_hypothesis_id": "hypothesis-b",
            "source": "native_island"
        }"#,
    );
    assert_eq!(
        action.action_kind,
        Some(IslandActionKind::ChooseTaskAlternative)
    );
    assert_eq!(action.task_snapshot_id.as_deref(), Some("snapshot-a"));
    assert_eq!(action.task_snapshot_revision, Some(4));
    assert_eq!(action.affected_task_field.as_deref(), Some("hypothesis"));
    assert_eq!(action.task_hypothesis_id.as_deref(), Some("hypothesis-b"));

    assert_eq!(
        scoped_task_feedback_contract(&IslandActionKind::ChooseTaskAlternative),
        Some(("corrected", "hypothesis", true))
    );
    assert_eq!(
        scoped_task_feedback_contract(&IslandActionKind::RejectSelectedTask),
        Some(("rejected", "task_summary", false))
    );
    assert_eq!(
        scoped_task_feedback_contract(&IslandActionKind::MarkSupportingWork),
        Some(("supporting_work", "relationship", true))
    );
    assert_eq!(
        scoped_task_feedback_contract(&IslandActionKind::MarkUnrelatedActivity),
        Some(("unrelated_activity", "relationship", true))
    );
    assert_eq!(
        scoped_task_feedback_contract(&IslandActionKind::MarkTaskCompleted),
        Some(("completed", "task_status", true))
    );
    assert_eq!(
        scoped_task_feedback_contract(&IslandActionKind::ReactivateTask),
        Some(("reactivated", "task_status", true))
    );
}

#[test]
fn native_continue_history_envelope_preserves_cursor_and_request_identity() {
    let action = action_from_json(
        r#"{
            "action": "load_older_continue_history",
            "history_cursor": {
                "created_at_ms": 1234,
                "decision_id": "decision-history"
            },
            "history_request_id": 7
        }"#,
    );
    assert_eq!(
        action.action,
        SessionIslandActionKind::LoadOlderContinueHistory
    );
    let cursor = action.history_cursor.clone().expect("history cursor");
    assert_eq!(cursor.created_at_ms, 1_234);
    assert_eq!(cursor.decision_id, "decision-history");
    assert_eq!(action.history_request_id, Some(7));
    match native_action_route(action) {
        NativeActionRoute::LoadHistory { cursor, request_id } => {
            assert_eq!(cursor.unwrap().decision_id, "decision-history");
            assert_eq!(request_id, 7);
        }
        _ => panic!("older history must load a page"),
    }
}

#[test]
fn island_native_wire_actions_are_classified_in_inventory() {
    let actions = [
        ("continue", "native_action_continue"),
        ("start_capture", "native_action_start_capture"),
        ("stop_capture", "native_action_stop_capture"),
        ("capture_once", "native_action_capture_once"),
        ("reconstruct_trail", "native_action_reconstruct_trail"),
        ("show_trail", "native_action_show_trail"),
        ("open_resume_point", "native_action_open_resume_point"),
        (
            "perform_continue_action",
            "native_action_perform_continue_action",
        ),
        ("open_main_window", "native_action_open_main_window"),
        ("resume_me", "native_action_resume_me"),
        ("toggle_expanded", "native_action_toggle_expanded"),
        ("collapse", "native_action_collapse"),
        ("open_continue_history", "native_action_continue_history"),
        (
            "load_older_continue_history",
            "native_action_continue_history",
        ),
        ("retry_continue_history", "native_action_continue_history"),
        (
            "select_continue_history_output",
            "native_action_continue_history",
        ),
    ];
    let inventory = island_route_inventory();
    for (wire_action, route_name) in actions {
        let payload = format!(r#"{{"action":"{wire_action}"}}"#);
        let action = action_from_json(&payload);
        assert_eq!(action.action.wire_name(), wire_action);
        assert_eq!(action.action.inventory_route(), route_name);
        assert!(
            inventory.iter().any(|route| route.route_name == route_name),
            "{wire_action} must have an explicit route classification"
        );
    }
}

#[test]
fn wire_names_round_trip_and_unknown_names_are_refused() {
    for kind in [
        IslandActionKind::RefreshContinue,
        IslandActionKind::OpenContinueTarget,
        IslandActionKind::MarkWrongTarget,
        IslandActionKind::MarkNotUseful,
        IslandActionKind::ChooseTaskAlternative,
        IslandActionKind::RejectSelectedTask,
        IslandActionKind::RejectTaskAlternative,
        IslandActionKind::MarkSupportingWork,
        IslandActionKind::MarkUnrelatedActivity,
        IslandActionKind::MarkTaskCompleted,
        IslandActionKind::ReactivateTask,
        IslandActionKind::InspectEvidence,
        IslandActionKind::OpenSmalltalk,
        IslandActionKind::StartLocalMemory,
        IslandActionKind::CaptureEvidenceNow,
    ] {
        assert_eq!(IslandActionKind::from_wire_name(kind.wire_name()), Some(kind));
    }
    assert_eq!(IslandActionKind::wire_name(&IslandActionKind::MarkTaskCompleted), "mark_task_completed");
    assert_eq!(IslandActionKind::from_wire_name("open_resume_point"), None);
    assert_eq!(SessionIslandActionKind::from_wire_name("resume"), None);
    assert_eq!(
        SessionIslandActionKind::from_wire_name("retry_continue_history"),
        Some(SessionIslandActionKind::RetryContinueHistory)
    );
}

#[test]
fn refresh_asks_for_a_new_decision_for_the_given_id() {
    match plan_island_action(input(IslandActionKind::RefreshContinue, Some(" d-1 "))) {
        Ok(IslandActionStep::Refresh { input }) => {
            assert_eq!(input.reason, IslandContinueReason::UserPressedContinue);
            assert_eq!(input.existing_decision_id.as_deref(), Some(" d-1 "));
            assert!(input.allow_refresh && input.force_refresh);
            assert_eq!(input.source.as_deref(), Some("native_island"));
        }
        _ => panic!("refresh must ask the gateway"),
    }
    let state = openable_state("d-9");
    let result = refreshed_action_result(state);
    assert_eq!(result.action_kind, IslandActionKind::RefreshContinue);
    assert_eq!(result.decision_id.as_deref(), Some("d-9"));
    assert!(!result.opened);
    assert!(result.open_strategy.is_none());
    assert!(result.refreshed_state.is_some());
    assert!(result.warnings.is_empty());
}

#[test]
fn open_without_a_decision_id_is_blocked_by_policy() {
    for id in [None, Some("   ")] {
        match plan_island_action(input(IslandActionKind::OpenContinueTarget, id)) {
            Ok(IslandActionStep::Done { result, effect }) => {
                assert!(effect.is_none());
                assert!(!result.opened);
                assert!(result.decision_id.is_none());
                assert_eq!(
                    result.open_strategy.as_deref(),
                    Some("blocked_by_continue_policy")
                );
                assert_eq!(
                    result.warnings,
                    vec![
                        "blocked_by_continue_policy:island_primary_requires_continue_decision_id"
                            .to_string()
                    ]
                );
            }
            _ => panic!("an open without a decision id must be refused"),
        }
    }
}

#[test]
fn open_checks_the_trimmed_decision_without_refreshing() {
    match plan_island_action(input(IslandActionKind::OpenContinueTarget, Some("  d-1\n"))) {
        Ok(IslandActionStep::CheckOpen { decision_id, check }) => {
            assert_eq!(decision_id, "d-1");
            assert_eq!(check.reason, IslandContinueReason::UserPressedContinue);
            assert_eq!(check.existing_decision_id.as_deref(), Some("d-1"));
            assert!(!check.allow_refresh && !check.force_refresh);
            assert_eq!(check.source.as_deref(), Some("island_primary"));
        }
        _ => panic!("an open must be checked first"),
    }
    let request = open_target_request(&"d-1".to_string());
    assert_eq!(request.continue_decision_id.as_deref(), Some("d-1"));
    assert_eq!(request.source.as_deref(), Some("island_primary"));
    assert_eq!(request.diagnostic_allowed, Some(false));
    assert!(request.strict_continue_target);
    assert!(request.output_path.is_none() && request.session_id.is_none());
}

#[test]
fn open_gate_needs_the_same_fresh_openable_decision() {
    let state = openable_state("d-1");
    assert_eq!(open_gate(&state, "d-1"), OpenGate::Open);
    assert_eq!(
        open_gate(&state, "d-2"),
        OpenGate::Blocked { refresh_first: false }
    );
    let mut stale = openable_state("d-1");
    stale.decision_stale = true;
    assert_eq!(
        open_gate(&stale, "d-1"),
        OpenGate::Blocked { refresh_first: true }
    );
    assert_eq!(blocked_audit_reason(&stale), "stale_decision");
    let mut needs_refresh = openable_state("d-1");
    needs_refresh.display_state = IslandDisplayState::NeedsRefresh;
    needs_refresh.available_actions[0].enabled = false;
    assert_eq!(
        open_gate(&needs_refresh, "d-1"),
        OpenGate::Blocked { refresh_first: true }
    );
    let mut suppressed = openable_state("d-1");
    suppressed.display_state = IslandDisplayState::TargetSuppressed;
    suppressed.available_actions.clear();
    assert_eq!(
        open_gate(&suppressed, "d-1"),
        OpenGate::Blocked { refresh_first: false }
    );
    assert_eq!(blocked_audit_reason(&suppressed), "p1_suppressed");
    suppressed.display_state = IslandDisplayState::SupportBlocked;
    assert_eq!(blocked_audit_reason(&suppressed), "p2_support_blocked");
    suppressed.display_state = IslandDisplayState::InspectOnly;
    assert_eq!(blocked_audit_reason(&suppressed), "thin_weak_surface");
    suppressed.display_state = IslandDisplayState::NoClearContinuation;
    assert_eq!(blocked_audit_reason(&suppressed), "state_not_openable");

    let blocked = blocked_open_result("d-1".to_string(), suppressed);
    assert!(!blocked.opened);
    assert_eq!(blocked.decision_id.as_deref(), Some("d-1"));
    assert_eq!(
        blocked.warnings,
        vec!["blocked_by_continue_policy:island_primary_state_not_openable".to_string()]
    );
    assert!(blocked.refreshed_state.is_some());
}

#[test]
fn only_a_real_target_open_counts_as_opened() {
    let outcome = |url: Option<&str>, strategy: &str| OpenResumePointResult {
        opened_url: url.map(str::to_string),
        strategy: strategy.to_string(),
        warnings: vec!["w".to_string()],
    };
    let (opened, fallback) = opened_action_result(
        "d-1".to_string(),
        openable_state("d-1"),
        outcome(Some("https://example.test/doc"), "browser_url"),
    );
    assert!(opened.opened);
    assert!(fallback.is_none());
    assert_eq!(opened.open_strategy.as_deref(), Some("browser_url"));
    assert_eq!(opened.warnings, vec!["w".to_string()]);

    let (main_window, fallback) = opened_action_result(
        "d-1".to_string(),
        openable_state("d-1"),
        outcome(Some("smalltalk://main"), "smalltalk_main_window"),
    );
    assert!(!main_window.opened);
    assert_eq!(fallback, Some("continue_open_fallback"));

    let (policy, _) = opened_action_result(
        "d-1".to_string(),
        openable_state("d-1"),
        outcome(Some("x"), "blocked_by_continue_policy"),
    );
    assert!(!policy.opened);
    let (no_url, _) = opened_action_result(
        "d-1".to_string(),
        openable_state("d-1"),
        outcome(None, "browser_url"),
    );
    assert!(!no_url.opened);
}

#[test]
fn answer_feedback_records_and_refreshes() {
    match plan_island_action(input(IslandActionKind::MarkWrongTarget, Some(" d-3 "))) {
        Ok(IslandActionStep::RecordFeedback {
            kind,
            request,
            refresh,
            strategy,
            warnings,
        }) => {
            assert_eq!(kind, IslandActionKind::MarkWrongTarget);
            assert_eq!(request.decision_id.as_deref(), Some("d-3"));
            assert_eq!(request.feedback_kind, "rejected");
            assert_eq!(request.source.as_deref(), Some("island_primary"));
            assert_eq!(refresh.reason, IslandContinueReason::EvidenceChanged);
            assert!(refresh.force_refresh);
            assert_eq!(strategy, "feedback_recorded");
            assert_eq!(warnings, vec!["island_wrong_target".to_string()]);
        }
        _ => panic!("feedback must be recorded"),
    }
    match plan_island_action(input(IslandActionKind::MarkNotUseful, None)) {
        Ok(IslandActionStep::RecordFeedback { request, warnings, .. }) => {
            assert!(request.decision_id.is_none());
            assert_eq!(request.feedback_kind, "ignored");
            assert_eq!(warnings, vec!["island_not_useful".to_string()]);
        }
        _ => panic!("feedback must be recorded"),
    }
    let request = ContinueExplicitFeedbackRequest {
        feedback_kind: "ignored".to_string(),
        ..Default::default()
    };
    let result = feedback_action_result(
        IslandActionKind::MarkNotUseful,
        &request,
        "feedback_recorded".to_string(),
        vec!["island_not_useful".to_string()],
        Some("d-recorded".to_string()),
        openable_state("d-recorded"),
    );
    assert_eq!(result.decision_id.as_deref(), Some("d-recorded"));
    assert!(!result.opened);
}

#[test]
fn scoped_task_feedback_is_checked_in_order() {
    let ok = scoped_feedback_request(&scoped_input()).unwrap();
    assert_eq!(ok.decision_id.as_deref(), Some("decision-a"));
    assert_eq!(ok.feedback_kind, "corrected");
    assert_eq!(ok.task_snapshot_id.as_deref(), Some("snapshot-a"));
    assert_eq!(ok.task_snapshot_revision, Some(4));
    assert_eq!(ok.affected_task_field.as_deref(), Some("hypothesis"));
    assert_eq!(ok.task_hypothesis_id.as_deref(), Some("hypothesis-b"));
    assert_eq!(ok.source.as_deref(), Some("island_primary"));

    let mut missing_snapshot = scoped_input();
    missing_snapshot.task_snapshot_id = Some(" ".to_string());
    missing_snapshot.task_snapshot_revision = None;
    assert_eq!(
        scoped_feedback_request(&missing_snapshot).unwrap_err(),
        "scoped island task feedback requires snapshot id"
    );
    let mut zero_revision = scoped_input();
    zero_revision.task_snapshot_revision = Some(0);
    assert_eq!(
        scoped_feedback_request(&zero_revision).unwrap_err(),
        "scoped island task feedback requires snapshot revision"
    );
    let mut wrong_field = scoped_input();
    wrong_field.affected_task_field = Some("task_summary".to_string());
    assert_eq!(
        scoped_feedback_request(&wrong_field).unwrap_err(),
        "scoped island task feedback field does not match its action"
    );
    let mut blank_hypothesis = scoped_input();
    blank_hypothesis.task_hypothesis_id = Some("  ".to_string());
    assert_eq!(
        scoped_feedback_request(&blank_hypothesis).unwrap_err(),
        "scoped island task feedback requires hypothesis id"
    );
    let mut summary = scoped_input();
    summary.action_kind = IslandActionKind::RejectSelectedTask;
    summary.affected_task_field = Some("task_summary".to_string());
    summary.task_hypothesis_id = None;
    assert_eq!(
        scoped_feedback_request(&summary).unwrap().feedback_kind,
        "rejected"
    );
    assert_eq!(
        scoped_feedback_request(&input(IslandActionKind::RefreshContinue, None)).unwrap_err(),
        "island action is not scoped task feedback"
    );
    match plan_island_action(blank_hypothesis) {
        Err(error) => assert_eq!(error, "scoped island task feedback requires hypothesis id"),
        Ok(_) => panic!("a scoped action without its hypothesis is refused"),
    }
    match plan_island_action(scoped_input()) {
        Ok(IslandActionStep::RecordFeedback { strategy, warnings, refresh, .. }) => {
            assert_eq!(strategy, "scoped_task_feedback_recorded");
            assert!(warnings.is_empty());
            assert_eq!(refresh.existing_decision_id.as_deref(), Some("decision-a"));
        }
        _ => panic!("scoped feedback must be recorded"),
    }
}

#[test]
fn app_actions_answer_at_once() {
    let cases = [
        (IslandActionKind::InspectEvidence, IslandActionEffect::OpenSmalltalk, "open_smalltalk"),
        (IslandActionKind::OpenSmalltalk, IslandActionEffect::OpenSmalltalk, "open_smalltalk"),
        (IslandActionKind::StartLocalMemory, IslandActionEffect::StartLocalMemory, "start_local_memory"),
        (
            IslandActionKind::CaptureEvidenceNow,
            IslandActionEffect::CaptureEvidenceNow,
            "capture_evidence_now",
        ),
    ];
    for (kind, expected_effect, strategy) in cases {
        match plan_island_action(input(kind, Some(" d "))) {
            Ok(IslandActionStep::Done { result, effect }) => {
                assert_eq!(effect, Some(expected_effect));
                assert_eq!(result.action_kind, kind);
                assert_eq!(result.decision_id.as_deref(), Some(" d "));
                assert_eq!(result.open_strategy.as_deref(), Some(strategy));
                assert!(!result.opened && result.refreshed_state.is_none());
            }
            _ => panic!("app actions answer at once"),
        }
    }
}

#[test]
fn native_routes_fill_in_defaults() {
    let mut open = empty_action(SessionIslandActionKind::OpenResumePoint);
    open.decision_id = Some("d-1".to_string());
    open.task_snapshot_id = Some("ignored".to_string());
    match native_action_route(open) {
        NativeActionRoute::OpenResumePoint(input) => {
            assert_eq!(input.action_kind, IslandActionKind::OpenContinueTarget);
            assert_eq!(input.source.as_deref(), Some("native_callback"));
            assert!(input.task_snapshot_id.is_none());
        }
        _ => panic!("open_resume_point opens the Continue target"),
    }
    assert!(matches!(
        native_action_route(empty_action(SessionIslandActionKind::PerformContinueAction)),
        NativeActionRoute::MissingActionKind
    ));
    assert!(matches!(
        native_action_route(empty_action(SessionIslandActionKind::ResumeMe)),
        NativeActionRoute::BlockedResumeMe
    ));
    assert!(matches!(
        native_action_route(empty_action(SessionIslandActionKind::ReconstructTrail)),
        NativeActionRoute::Continue
    ));
    let mut select = empty_action(SessionIslandActionKind::SelectContinueHistoryOutput);
    select.decision_id = Some("  d-5 ".to_string());
    match native_action_route(select) {
        NativeActionRoute::SelectHistoryOutput {
            decision_id,
            request_id,
        } => {
            assert_eq!(decision_id.as_deref(), Some("d-5"));
            assert_eq!(request_id, 0);
        }
        _ => panic!("selection shows one saved output"),
    }
}

#[test]
fn history_failures_show_unavailable_copy() {
    let page = history_page_result(3, Err("db locked".to_string()));
    assert_eq!(page.request_id, 3);
    assert!(page.items.is_empty());
    assert_eq!(page.error.as_deref(), Some("History unavailable"));

    let missing = history_output_result(None, 4, Ok(None));
    assert_eq!(missing.decision_id, "");
    assert_eq!(missing.error.as_deref(), Some("Saved answer unavailable"));

    let saved = ContinueHistoryOutputV1 {
        decision_id: "d-7".to_string(),
        title: "Saved".to_string(),
        created_at_ms: 55,
        ..Default::default()
    };
    let found = history_output_result(Some("d-7".to_string()), 5, Ok(Some(saved.clone())));
    assert_eq!(found.title, "Saved");
    assert_eq!(found.created_at_ms, 55);
    assert!(found.error.is_none());
    let ignored = history_output_result(None, 5, Ok(Some(saved)));
    assert_eq!(ignored.error.as_deref(), Some("Saved answer unavailable"));
    assert_eq!(trimmed_nonempty(&Some("\t".to_string())), None);
}
