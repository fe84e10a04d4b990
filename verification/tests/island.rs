use smalltalk_island::capture::{CaptureFrame, CaptureSession, CaptureStatus};
use smalltalk_island::contract::{
    IslandActionKind, IslandAvailableAction, IslandContinueState, IslandDisplayState,
    IslandFreshness, IslandStateContext,
};
use smalltalk_island::history::{
    ContinueHistoryAnswerRowV1, ContinueHistoryCursorV1, ContinueHistoryOutputV1,
    ContinueHistorySummaryV1,
};
use smalltalk_island::inventory::{
    island_route_inventory, island_state_inventory, IslandActionDisposition, IslandRouteKind,
};
use smalltalk_island::island::{
    collapses_expanded_view,
    apply_island_continue_state_to_snapshot, continue_freshness_from_island_state,
    headline_from_island_state, is_sensitive_privacy_label, island_continue_decision_request,
    scoped_task_feedback_contract, snapshot_from_status,
    IslandContinueHistoryOutput, IslandContinueHistoryPage, RememberedContinueIslandState,
    SessionIslandSnapshot, SessionIslandState,
};
use smalltalk_island::request::ContinueAuditMode;

fn now_millis() -> i64 {
    std::time::SystemTime::now()
        .duration_since(std::time::UNIX_EPOCH)
        .map(|d| d.as_millis() as i64)
        .unwrap_or(0)
}

fn remembered_for_test(
    frame_count: u64,
    signal_count: u64,
    event_count: u64,
    freshness: &str,
) -> RememberedContinueIslandState {
    let mut island_continue_state = IslandContinueState::no_evidence(
        IslandFreshness {
            evidence_watermark_ms: Some(10_000),
            newest_evidence_ms: Some(10_000),
            decision_updated_at_ms: Some(11_000),
            decision_stale: false,
        },
        IslandStateContext {
            local_memory_running: true,
            has_local_memory: true,
        },
    );
    island_continue_state.decision_id = Some("decision-test".to_string());
    island_continue_state.display_state = IslandDisplayState::ContinueReady;
    island_continue_state.available_actions = vec![IslandAvailableAction::enabled(
        IslandActionKind::OpenContinueTarget,
        "Open Continue target",
        Some("decision-test".to_string()),
    )];
    RememberedContinueIslandState {
        session_id: None,
        decision_id: "decision-test".to_string(),
        request_trigger: "manual".to_string(),
        task_turn_id: Some("task-test".to_string()),
        task_turn_revision: Some(1),
        task_confidence_permille: 900,
        wording_source: "model_assisted".to_string(),
        target_selection_source: "local_validated_target_policy".to_string(),
        resume_headline: Some("Ready to continue".to_string()),
        resume_detail: Some("Editing was in progress.".to_string()),
        resume_point: Some("PRODUCT.md".to_string()),
        resume_warning: None,
        continue_freshness: freshness.to_string(),
        evidence_updated_at_ms: Some(10_000),
        decision_updated_at_ms: Some(11_000),
        continue_openable: true,
        feedback_or_open_watermark_ms: None,
        frame_count,
        signal_count,
        event_count,
        island_continue_state,
    }
}

fn status_for_island_freshness(
    frame_count: i64,
    signal_count: i64,
    event_count: i64,
    latest_capture_at_ms: i64,
) -> CaptureStatus {
    CaptureStatus {
        running: true,
        frame_count,
        recent_app_labels: vec!["Codex".to_string()],
        signal_count,
        event_count,
        active_session: None,
        latest_session: None,
        started_at: Some(now_millis()),
        last_error: None,
        latest_frame: Some(CaptureFrame {
            id: 1,
            session_id: None,
            captured_at: latest_capture_at_ms,
            app_name: Some("Codex".to_string()),
            window_name: Some("PRODUCT.md".to_string()),
            scope: None,
            text_source: None,
            capture_trigger: "event".to_string(),
            privacy_status: None,
        }),
    }
}

fn snapshot(status: &CaptureStatus, state: SessionIslandState, remembered: Option<&RememberedContinueIslandState>) -> SessionIslandSnapshot {
    snapshot_from_status(status, state, now_millis(), remembered)
}

#[test]
fn native_continue_history_responses_preserve_saved_copy_and_request_identity() {
    let page = IslandContinueHistoryPage::ready(
        vec![ContinueHistorySummaryV1 {
            decision_id: "decision-history".to_string(),
            created_at_ms: 1_234,
            origin: "island".to_string(),
            title: "Exact saved title".to_string(),
        }],
        Some(ContinueHistoryCursorV1 {
            created_at_ms: 1_234,
            decision_id: "decision-history".to_string(),
        }),
        7,
    );
    assert_eq!(page.request_id, 7);
    assert_eq!(page.items[0].title, "Exact saved title");
    assert_eq!(
        page.next_cursor
            .as_ref()
            .map(|cursor| cursor.decision_id.as_str()),
        Some("decision-history")
    );

    let output = IslandContinueHistoryOutput::ready(
        ContinueHistoryOutputV1 {
            schema: "smalltalk.continue_history_output.v1".to_string(),
            decision_id: "decision-history".to_string(),
            created_at_ms: 1_234,
            origin: "island".to_string(),
            title: "Exact saved title".to_string(),
            rows: vec![ContinueHistoryAnswerRowV1 {
                label: "Next action".to_string(),
                value: "Use the saved wording exactly.".to_string(),
            }],
        },
        8,
    );
    assert_eq!(output.request_id, 8);
    assert_eq!(output.title, "Exact saved title");
    assert_eq!(output.rows[0].value, "Use the saved wording exactly.");
}

#[test]
fn history_errors_keep_the_request_identity() {
    let page = IslandContinueHistoryPage::error(9, "history unavailable".to_string());
    assert_eq!(page.schema, "smalltalk.island_continue_history_page.v1");
    assert!(page.items.is_empty());
    assert!(page.next_cursor.is_none());
    assert_eq!(page.error.as_deref(), Some("history unavailable"));
    let output = IslandContinueHistoryOutput::error(None, 10, "missing".to_string());
    assert_eq!(output.schema, "smalltalk.island_continue_history_output.v1");
    assert_eq!(output.decision_id, "");
    assert_eq!(output.request_id, 10);
    assert_eq!(output.created_at_ms, 0);
    assert!(output.rows.is_empty());
}

#[test]
fn snapshot_from_status_uses_event_backed_signal_count_for_trail_moments() {
    let status = CaptureStatus {
        running: true,
        frame_count: 1,
        recent_app_labels: vec![
            "Helium".to_string(),
            "Codex".to_string(),
            "smalltalk".to_string(),
        ],
        signal_count: 7,
        event_count: 1370,
        active_session: None,
        latest_session: None,
        started_at: Some(now_millis()),
        last_error: None,
        latest_frame: None,
    };

    let snapshot = snapshot(&status, SessionIslandState::RecordingCompact, None);

    assert_eq!(snapshot.frame_count, 1);
    assert_eq!(snapshot.event_count, 1370);
    assert_eq!(snapshot.trail_app_count, 3);
    assert_eq!(snapshot.trail_moment_count, 7);
    assert!(snapshot.memory_active);
}

#[test]
fn snapshot_from_status_preserves_current_remembered_continue_without_new_evidence() {
    let remembered = remembered_for_test(1, 7, 12, "current");
    let status = status_for_island_freshness(1, 7, 12, 10_000);

    let snapshot = snapshot(&status, SessionIslandState::RecordingCompact, Some(&remembered));

    assert_eq!(
        snapshot.continue_decision_id.as_deref(),
        Some("decision-test")
    );
    assert_eq!(snapshot.continue_freshness.as_deref(), Some("current"));
    assert_eq!(
        snapshot.resume_headline.as_deref(),
        Some("Ready to continue")
    );
    assert_eq!(snapshot.resume_point.as_deref(), Some("PRODUCT.md"));
}

#[test]
fn snapshot_from_status_marks_remembered_continue_stale_on_event_only_evidence() {
    let remembered = remembered_for_test(1, 7, 12, "current");
    let status = status_for_island_freshness(1, 7, 13, 10_000);

    let snapshot = snapshot(&status, SessionIslandState::RecordingCompact, Some(&remembered));

    assert_eq!(
        snapshot.continue_decision_id.as_deref(),
        Some("decision-test")
    );
    assert_eq!(snapshot.continue_freshness.as_deref(), Some("new_evidence"));
    assert_eq!(snapshot.resume_headline.as_deref(), Some("New evidence"));
    assert_eq!(snapshot.resume_detail.as_deref(), Some("Refresh Continue"));
    assert_eq!(snapshot.resume_point.as_deref(), Some("PRODUCT.md"));
}

#[test]
fn capture_status_session_change_preserves_atomic_continue_as_stale() {
    let mut remembered = remembered_for_test(1, 7, 12, "current");
    remembered.session_id = Some("previous-session".to_string());
    let status = status_for_island_freshness(1, 7, 12, 10_000);

    let snapshot = snapshot(&status, SessionIslandState::RecordingCompact, Some(&remembered));

    assert_eq!(
        snapshot.continue_decision_id.as_deref(),
        Some("decision-test")
    );
    assert_eq!(snapshot.continue_freshness.as_deref(), Some("new_evidence"));
    let state = snapshot.island_continue_state.unwrap();
    assert_eq!(state.display_state, IslandDisplayState::NeedsRefresh);
    assert_eq!(state.decision_id.as_deref(), Some("decision-test"));
    assert_eq!(
        state.available_actions.first().map(|action| &action.kind),
        Some(&IslandActionKind::RefreshContinue)
    );
    assert!(!state.allows_open_continue_target());
}

#[test]
fn processing_capture_status_does_not_erase_latest_continue_state() {
    let remembered = remembered_for_test(1, 7, 12, "current");
    let status = status_for_island_freshness(1, 7, 12, 10_000);

    let snapshot = snapshot(&status, SessionIslandState::Processing, Some(&remembered));

    assert_eq!(
        snapshot.continue_decision_id.as_deref(),
        Some("decision-test")
    );
    assert_eq!(snapshot.continue_freshness.as_deref(), Some("current"));
    assert_eq!(
        snapshot
            .island_continue_state
            .as_ref()
            .map(|state| &state.display_state),
        Some(&IslandDisplayState::ContinueReady)
    );
    assert!(snapshot.memory_active);
}

#[test]
fn memory_active_is_independent_from_continue_presentation_state() {
    let status = status_for_island_freshness(1, 7, 12, 10_000);

    for state in [
        SessionIslandState::ResumeReady,
        SessionIslandState::TrailReconstructing,
        SessionIslandState::Ready,
    ] {
        let snapshot = snapshot(&status, state, None);
        assert!(
            snapshot.memory_active,
            "running capture must stay active in {state:?}"
        );
    }

    let mut paused_status = status;
    paused_status.running = false;
    let paused_snapshot = snapshot(&paused_status, SessionIslandState::RecordingCompact, None);
    assert!(!paused_snapshot.memory_active);
}

#[test]
fn active_snapshot_keeps_privacy_and_error_signals_for_swift_precedence() {
    let mut status = status_for_island_freshness(1, 7, 12, 10_000);
    status.last_error = Some("capture provider unavailable".to_string());
    status
        .latest_frame
        .as_mut()
        .expect("fixture frame")
        .privacy_status = Some("sensitive".to_string());

    let snapshot = snapshot(&status, SessionIslandState::RecordingCompact, None);

    assert!(snapshot.memory_active);
    assert!(snapshot.is_sensitive);
    assert_eq!(snapshot.privacy_label.as_deref(), Some("sensitive"));
    assert_eq!(
        snapshot.last_error.as_deref(),
        Some("capture provider unavailable")
    );
    assert!(snapshot.current_app.is_none());
    assert!(snapshot.current_window.is_none());
}

#[test]
fn hidden_and_error_snapshots_keep_remembered_continue_out() {
    let remembered = remembered_for_test(1, 7, 12, "current");
    let status = status_for_island_freshness(1, 7, 12, 10_000);
    for state in [SessionIslandState::Hidden, SessionIslandState::Error] {
        let snapshot = snapshot(&status, state, Some(&remembered));
        assert!(snapshot.continue_decision_id.is_none());
        assert!(snapshot.island_continue_state.is_none());
        assert_eq!(snapshot.evidence_updated_at_ms, Some(10_000));
    }
}

#[test]
fn snapshot_cleans_frame_labels_and_reports_session_and_elapsed_time() {
    let mut status = status_for_island_freshness(3, 2, 1, 5_000);
    status.started_at = None;
    status.latest_session = Some(CaptureSession {
        id: "session-7".to_string(),
        started_at: 1_000,
        stopped_at: Some(4_500),
    });
    {
        let frame = status.latest_frame.as_mut().unwrap();
        frame.id = 42;
        frame.app_name = Some("  Code \n  Editor ".to_string());
        frame.window_name = Some("   ".to_string());
        frame.scope = Some(" active  window ".to_string());
        frame.capture_trigger = "app\tswitch".to_string();
        frame.privacy_status = Some("  ".to_string());
    }
    let snapshot = snapshot(&status, SessionIslandState::Ready, None);
    assert_eq!(snapshot.session_id.as_deref(), Some("session-7"));
    assert_eq!(snapshot.elapsed_ms, 3_500);
    assert_eq!(snapshot.current_app.as_deref(), Some("Code Editor"));
    assert!(snapshot.current_window.is_none());
    assert_eq!(snapshot.current_surface_kind.as_deref(), Some("active window"));
    assert_eq!(snapshot.last_trigger.as_deref(), Some("app switch"));
    assert_eq!(snapshot.capture_pulse_nonce, Some(42));
    assert_eq!(snapshot.last_frame_id, Some(42));
    assert!(snapshot.privacy_label.is_none());
    assert!(!snapshot.is_sensitive);
    assert_eq!(snapshot.trail_labels, vec!["Codex".to_string()]);
}

#[test]
fn elapsed_time_wraps_like_an_unsigned_cast_when_the_clock_is_behind() {
    let mut status = status_for_island_freshness(1, 1, 1, 5);
    status.started_at = Some(10);
    let snapshot = snapshot_from_status(&status, SessionIslandState::Ready, 4, None);
    assert_eq!(snapshot.elapsed_ms, u64::MAX - 5);
    status.started_at = Some(i64::MIN);
    let snapshot = snapshot_from_status(&status, SessionIslandState::Ready, i64::MAX, None);
    assert_eq!(snapshot.elapsed_ms, i64::MAX as u64);
}

#[test]
fn privacy_labels_other_than_normal_ok_allowed_are_sensitive() {
    assert!(!is_sensitive_privacy_label("normal"));
    assert!(!is_sensitive_privacy_label("ok"));
    assert!(!is_sensitive_privacy_label("allowed"));
    assert!(is_sensitive_privacy_label("Normal"));
    assert!(is_sensitive_privacy_label("private"));
}

#[test]
fn snapshot_constructors_show_only_their_state() {
    assert_eq!(SessionIslandSnapshot::hidden().state, SessionIslandState::Hidden);
    assert_eq!(SessionIslandSnapshot::ready().state, SessionIslandState::Ready);
    assert_eq!(SessionIslandSnapshot::starting().state, SessionIslandState::Starting);
    assert!(SessionIslandSnapshot::ready().island_continue_state.is_none());
    let error = SessionIslandSnapshot::error("boom".to_string());
    assert_eq!(error.state, SessionIslandState::Error);
    assert_eq!(error.last_error.as_deref(), Some("boom"));
    let state = error.island_continue_state.unwrap();
    assert_eq!(state.display_state, IslandDisplayState::Error);
    assert_eq!(state.warnings, vec!["island_continue_error".to_string()]);
    assert!(!state.allows_open_continue_target());
}

#[test]
fn island_base_request_does_not_write_full_audit_output() {
    let request = island_continue_decision_request();

    assert_eq!(request.mode.as_deref(), Some("normal"));
    assert_eq!(request.rebuild_layers, Some(false));
    assert_eq!(request.micro_inference_enabled, Some(true));
    assert_eq!(request.activity_recap_model_enabled, Some(true));
    assert_eq!(request.max_candidates_for_model, Some(5));
    assert_eq!(request.audit_output_enabled, Some(false));
    assert!(matches!(request.audit_mode, Some(ContinueAuditMode::Off)));
}

#[test]
fn applied_state_sets_headline_freshness_and_resume_point() {
    let mut state = remembered_for_test(1, 1, 1, "current").island_continue_state;
    state.missing_evidence = vec!["  needs   a frame ".to_string()];
    state.warnings = vec!["later".to_string()];
    state.evidence_watermark_ms = None;
    state.generated_at_ms = 77;
    let mut snapshot = SessionIslandSnapshot::ready();
    snapshot.last_capture_at_ms = Some(55);
    apply_island_continue_state_to_snapshot(&mut snapshot, &state);
    assert_eq!(snapshot.resume_headline.as_deref(), Some("Ready to continue"));
    assert_eq!(snapshot.continue_freshness.as_deref(), Some("current"));
    assert_eq!(snapshot.resume_source.as_deref(), Some("continue"));
    assert_eq!(snapshot.resume_warning.as_deref(), Some("needs a frame"));
    assert_eq!(snapshot.evidence_updated_at_ms, Some(55));
    assert_eq!(snapshot.decision_updated_at_ms, Some(77));
    assert_eq!(snapshot.continue_openable, Some(true));
    assert_eq!(snapshot.continue_decision_id.as_deref(), Some("decision-test"));
    assert_eq!(headline_from_island_state(&state), "Ready to continue");
    state.display_state = IslandDisplayState::SupportBlocked;
    assert_eq!(continue_freshness_from_island_state(&state), "thin_evidence");
    assert_eq!(headline_from_island_state(&state), "Support branch blocked");
}

#[test]
fn scoped_feedback_actions_name_their_field() {
    assert_eq!(
        scoped_task_feedback_contract(&IslandActionKind::RejectSelectedTask),
        Some(("rejected", "task_summary", false))
    );
    assert_eq!(
        scoped_task_feedback_contract(&IslandActionKind::ChooseTaskAlternative),
        Some(("corrected", "hypothesis", true))
    );
    assert_eq!(
        scoped_task_feedback_contract(&IslandActionKind::ReactivateTask),
        Some(("reactivated", "task_status", true))
    );
    assert_eq!(scoped_task_feedback_contract(&IslandActionKind::OpenSmalltalk), None);
}

#[test]
fn island_primary_routes_do_not_include_diagnostic_or_deprecated_paths() {
    for route in island_route_inventory() {
        if route.allowed_in_primary_ui {
            assert!(
                !matches!(
                    route.kind,
                    IslandRouteKind::DiagnosticCloudResume
                        | IslandRouteKind::DiagnosticSessionTrail
                        | IslandRouteKind::DeprecatedLegacyOpen
                ),
                "{} must not be primary because it is {:?}",
                route.route_name,
                route.kind
            );
            assert_ne!(
                route.disposition,
                IslandActionDisposition::DiagnosticOnly,
                "{} must not expose diagnostic-only routes in primary UI",
                route.route_name
            );
            assert_ne!(
                route.disposition,
                IslandActionDisposition::DeprecatedBlocked,
                "{} must not expose deprecated routes in primary UI",
                route.route_name
            );
        }
    }
}

#[test]
fn island_primary_open_requires_continue_decision_id() {
    let inventory = island_route_inventory();
    let primary_opens: Vec<_> = inventory
        .iter()
        .filter(|route| route.kind == IslandRouteKind::PrimaryContinueOpen)
        .collect();

    assert!(
        !primary_opens.is_empty(),
        "P4 island inventory must identify the primary Continue open route"
    );
    for route in primary_opens {
        assert!(
            route.requires_continue_decision_id,
            "{} must require continue_decision_id",
            route.route_name
        );
        assert!(
            route.replacement.contains("continue_decision_id"),
            "{} must document the Continue-id replacement path",
            route.route_name
        );
    }
}

#[test]
fn island_legacy_action_aliases_are_blocked_from_primary_ui() {
    let inventory = island_route_inventory();
    for route_name in ["native_action_resume_me", "native_action_reconstruct_trail"] {
        let route = inventory
            .iter()
            .find(|route| route.route_name == route_name)
            .unwrap_or_else(|| panic!("missing island route inventory item {route_name}"));

        assert_eq!(
            route.disposition,
            IslandActionDisposition::DeprecatedBlocked
        );
        assert!(
            !route.allowed_in_primary_ui,
            "{} must stay out of the primary island UI",
            route.route_name
        );
    }
}

#[test]
fn island_legacy_resume_routes_are_diagnostic_only() {
    let inventory = island_route_inventory();
    for route_name in [
        "apply_cloud_resume_to_snapshot",
        "remember_cloud_resume_output_path",
        "legacy_command_run_cloud_resume",
        "legacy_command_build_resume_query_bundle",
        "legacy_command_get_native_resume_card",
        "legacy_command_get_native_storyboard_dossier",
    ] {
        let route = inventory
            .iter()
            .find(|route| route.route_name == route_name)
            .unwrap_or_else(|| panic!("missing island route inventory item {route_name}"));

        assert_eq!(route.disposition, IslandActionDisposition::DiagnosticOnly);
        assert!(
            !route.allowed_in_primary_ui,
            "{} must not feed island primary behavior",
            route.route_name
        );
    }
}

#[test]
fn island_state_replacements_use_continue_first_language() {
    let banned_copy_terms = [
        "recording",
        "recorder",
        "session",
        "trail",
        "reconstruct",
        "resume query",
        "cloud resume",
        "native resume",
        "resume me",
    ];

    for state in island_state_inventory() {
        let replacement = state.replacement_copy.to_lowercase();
        for banned in banned_copy_terms {
            assert!(
                !replacement.contains(banned),
                "{} replacement copy {:?} contains legacy term {:?}",
                state.state_name,
                state.replacement_copy,
                banned
            );
        }
        if state.state_name == "resume_ready" {
            assert!(
                state.requires_continue_decision_id,
                "resume_ready must be backed by continue_decision_id"
            );
        }
    }
}

#[test]
fn native_wire_routes_are_classified_in_inventory() {
    let inventory = island_route_inventory();
    for route_name in [
        "native_action_continue",
        "native_action_start_capture",
        "native_action_stop_capture",
        "native_action_capture_once",
        "native_action_reconstruct_trail",
        "native_action_show_trail",
        "native_action_open_resume_point",
        "native_action_perform_continue_action",
        "native_action_open_main_window",
        "native_action_resume_me",
        "native_action_toggle_expanded",
        "native_action_collapse",
        "native_action_continue_history",
    ] {
        assert!(inventory.iter().any(|route| route.route_name == route_name));
    }
    assert_eq!(inventory.len(), 22);
    assert_eq!(island_state_inventory().len(), 10);
}

#[test]
fn entering_a_state_without_an_expanded_view_collapses_the_panel() {
    for state in [
        SessionIslandState::Hidden,
        SessionIslandState::Starting,
        SessionIslandState::Processing,
        SessionIslandState::TrailReconstructing,
        SessionIslandState::StoppedToast,
    ] {
        assert!(collapses_expanded_view(state));
    }
    for state in [
        SessionIslandState::Ready,
        SessionIslandState::RecordingCompact,
        SessionIslandState::RecordingExpanded,
        SessionIslandState::ResumeReady,
        SessionIslandState::Error,
    ] {
        assert!(!collapses_expanded_view(state));
    }
}
