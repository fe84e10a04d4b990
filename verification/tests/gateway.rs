use smalltalk_island::capture::{CaptureFrame, CaptureSession, CaptureStatus};
use smalltalk_island::contract::{
    IslandActionKind, IslandAvailableAction, IslandContinueState, IslandDisplayState,
    IslandFreshness, IslandStateContext,
};
use smalltalk_island::decision::{
    ContinueCurrentTaskTurn, ContinueDecisionResult, EvidenceFreshnessLedger, LedgerValue,
};
use smalltalk_island::gateway::{
    annotate_gateway_state, continue_answer_snapshot, continue_decision_request_for_input, gateway_adopt, gateway_step,
    rejected_gateway_adoption, remember_gateway_decision, remembered_fresh_state,
    remembered_state_is_stale, source_quality_rank, target_source_quality_rank, GatewayStep,
    IslandContinueGatewayResult, IslandContinueReason, IslandContinueStateInput,
};
use smalltalk_island::island::{
    decision_evidence_updated_at_ms, RememberedContinueIslandState, SessionIslandState,
};
use smalltalk_island::request::ContinueAuditMode;

fn status(
    frame_count: i64,
    signal_count: i64,
    event_count: i64,
    captured_at: Option<i64>,
) -> CaptureStatus {
    CaptureStatus {
        running: frame_count > 0 || event_count > 0,
        frame_count,
        recent_app_labels: Vec::new(),
        signal_count,
        event_count,
        active_session: None,
        latest_session: None,
        started_at: None,
        last_error: None,
        latest_frame: captured_at.map(|captured_at| CaptureFrame {
            id: 1,
            captured_at,
            session_id: Some("session-test".to_string()),
            app_name: Some("Codex".to_string()),
            window_name: Some("Smalltalk".to_string()),
            scope: None,
            text_source: None,
            capture_trigger: "test".to_string(),
            privacy_status: Some("normal".to_string()),
        }),
    }
}

fn remembered() -> RememberedContinueIslandState {
    let mut island_continue_state = IslandContinueState::refresh_needed(
        IslandFreshness {
            evidence_watermark_ms: Some(1_000),
            newest_evidence_ms: Some(1_000),
            decision_updated_at_ms: Some(1_100),
            decision_stale: false,
        },
        IslandStateContext {
            local_memory_running: true,
            has_local_memory: true,
        },
        Some("decision-test".to_string()),
    );
    island_continue_state.display_state = IslandDisplayState::ContinueReady;
    island_continue_state.decision_stale = false;
    island_continue_state.available_actions = vec![IslandAvailableAction::enabled(
        IslandActionKind::OpenContinueTarget,
        "Open Continue target",
        Some("decision-test".to_string()),
    )];
    RememberedContinueIslandState {
        session_id: Some("session-test".to_string()),
        decision_id: "decision-test".to_string(),
        request_trigger: "manual".to_string(),
        task_turn_id: Some("task-test".to_string()),
        task_turn_revision: Some(2),
        task_confidence_permille: 900,
        wording_source: "model_assisted".to_string(),
        target_selection_source: "local_validated_target_policy".to_string(),
        resume_headline: Some("Ready to continue".to_string()),
        resume_detail: Some("Continue from the gateway.".to_string()),
        resume_point: Some("session_island.rs".to_string()),
        resume_warning: None,
        continue_freshness: "current".to_string(),
        evidence_updated_at_ms: Some(1_000),
        decision_updated_at_ms: Some(1_100),
        continue_openable: true,
        feedback_or_open_watermark_ms: Some(900),
        frame_count: 1,
        signal_count: 2,
        event_count: 3,
        island_continue_state,
    }
}

fn input(reason: IslandContinueReason, force_refresh: bool, allow_refresh: bool) -> IslandContinueStateInput {
    IslandContinueStateInput {
        reason,
        existing_decision_id: None,
        allow_refresh,
        force_refresh,
        source: Some("test".to_string()),
    }
}

fn challenger() -> ContinueDecisionResult {
    ContinueDecisionResult {
        decision_id: "decision-new".to_string(),
        request_trigger: "island".to_string(),
        current_task_turn: Some(ContinueCurrentTaskTurn {
            task_turn_id: "task-test".to_string(),
            revision: 2,
        }),
        task_resolution_status: "current_task_supported".to_string(),
        wording_source: "model_assisted".to_string(),
        target_selection_source: "local_validated_target_policy".to_string(),
        task_confidence_permille: 950,
        evidence_freshness_ledger: Some(EvidenceFreshnessLedger {
            latest_any_evidence_ms: Some(LedgerValue::Integer(2_000)),
            decision_watermark_ms: None,
        }),
        ..Default::default()
    }
}

#[test]
fn island_continue_gateway_reuses_existing_fresh_decision_state() {
    let remembered = remembered();
    assert!(!remembered_state_is_stale(
        &remembered,
        &status(1, 2, 3, Some(1_000)),
        Some(900)
    ));
}

#[test]
fn island_continue_gateway_rejects_remembered_state_from_adjacent_session() {
    let mut remembered = remembered();
    remembered.session_id = Some("session-a".to_string());
    assert!(remembered_state_is_stale(
        &remembered,
        &status(1, 2, 3, Some(1_000)),
        Some(900)
    ));
}

#[test]
fn island_continue_gateway_refreshes_for_event_only_evidence_growth() {
    let remembered = remembered();
    assert!(remembered_state_is_stale(
        &remembered,
        &status(1, 2, 4, Some(1_000)),
        Some(900)
    ));
}

#[test]
fn island_continue_gateway_refreshes_for_new_frame_evidence() {
    let remembered = remembered();
    assert!(remembered_state_is_stale(
        &remembered,
        &status(2, 2, 3, Some(1_200)),
        Some(900)
    ));
}

#[test]
fn island_continue_gateway_refreshes_for_feedback_or_open_watermark_growth() {
    let remembered = remembered();
    assert!(remembered_state_is_stale(
        &remembered,
        &status(1, 2, 3, Some(1_000)),
        Some(901)
    ));
}

#[test]
fn island_continue_gateway_no_evidence_state_has_no_open_action() {
    let mut state = IslandContinueState::no_evidence(
        IslandFreshness {
            evidence_watermark_ms: None,
            newest_evidence_ms: None,
            decision_updated_at_ms: Some(2_000),
            decision_stale: false,
        },
        IslandStateContext::default(),
    );
    annotate_gateway_state(
        &mut state,
        &IslandContinueStateInput {
            reason: IslandContinueReason::InitialRender,
            existing_decision_id: None,
            allow_refresh: false,
            force_refresh: false,
            source: Some("test".to_string()),
        },
    );

    assert_eq!(state.display_state, IslandDisplayState::NoLocalMemory);
    assert!(!state.allows_open_continue_target());
    assert_eq!(
        state.provenance_label.as_deref(),
        Some("island:test:initial_render")
    );
}

#[test]
fn explicit_island_continue_uses_manual_semantic_trigger_with_island_provenance() {
    let input = IslandContinueStateInput::for_user_continue(Some("decision-prior".into()));

    let request = continue_decision_request_for_input(&input);

    assert_eq!(request.request_trigger.as_deref(), Some("manual"));
    assert_eq!(
        request.island_trigger_reason.as_deref(),
        Some("user_pressed_continue")
    );
    assert_eq!(request.island_source.as_deref(), Some("native_island"));
    assert_eq!(request.audit_output_enabled, Some(false));
    assert!(matches!(
        request.audit_mode,
        Some(ContinueAuditMode::MftiReview)
    ));
}

#[test]
fn background_requests_use_the_island_trigger_without_review_audit() {
    let request = continue_decision_request_for_input(&input(IslandContinueReason::TimerRefresh, false, true));
    assert_eq!(request.request_trigger.as_deref(), Some("island"));
    assert_eq!(request.island_trigger_reason.as_deref(), Some("timer_refresh"));
    assert!(matches!(request.audit_mode, Some(ContinueAuditMode::Off)));
    assert_eq!(request.island_source.as_deref(), Some("test"));
}

#[test]
fn stale_check_ignores_a_missing_feedback_watermark_but_not_a_new_one() {
    let mut remembered = remembered();
    assert!(!remembered_state_is_stale(&remembered, &status(1, 2, 3, Some(1_000)), None));
    remembered.feedback_or_open_watermark_ms = None;
    assert!(remembered_state_is_stale(&remembered, &status(1, 2, 3, Some(1_000)), Some(1)));
    assert!(remembered_state_is_stale(&remembered, &status(1, 2, 3, Some(1_001)), None));
}

#[test]
fn forced_refresh_is_noted_once_and_open_actions_name_the_decision() {
    let mut state = remembered().island_continue_state;
    state.warnings = vec!["zeta".to_string(), "alpha".to_string(), "alpha".to_string()];
    state.decision_id = Some("decision-x".to_string());
    state.available_actions.push(IslandAvailableAction::enabled(
        IslandActionKind::InspectEvidence,
        "Inspect evidence",
        Some("keep".to_string()),
    ));
    let input = IslandContinueStateInput {
        reason: IslandContinueReason::EvidenceChanged,
        existing_decision_id: None,
        allow_refresh: true,
        force_refresh: true,
        source: None,
    };
    annotate_gateway_state(&mut state, &input);
    assert_eq!(
        state.warnings,
        vec![
            "alpha".to_string(),
            "island_gateway_force_refresh".to_string(),
            "zeta".to_string()
        ]
    );
    assert_eq!(state.provenance_label.as_deref(), Some("island:unknown:evidence_changed"));
    assert_eq!(state.available_actions[0].decision_id.as_deref(), Some("decision-x"));
    assert_eq!(state.available_actions[1].decision_id.as_deref(), Some("keep"));
}

#[test]
fn remembered_state_is_reused_only_for_its_own_decision() {
    let remembered = remembered();
    let st = status(1, 2, 3, Some(1_000));
    let mut request = input(IslandContinueReason::UserOpenedIsland, false, true);
    let reused = remembered_fresh_state(&st, &request, Some(900), Some(&remembered)).unwrap();
    assert!(reused.decision_cache_hit);
    assert_eq!(reused.provenance_label.as_deref(), Some("island:test:user_opened_island"));
    request.existing_decision_id = Some("other".to_string());
    assert!(remembered_fresh_state(&st, &request, Some(900), Some(&remembered)).is_none());
    assert!(remembered_fresh_state(&st, &request, Some(900), None).is_none());
}

#[test]
fn gateway_answers_without_local_memory_and_from_fresh_memory() {
    let remembered = remembered();
    match gateway_step(&status(0, 0, 0, None), &input(IslandContinueReason::InitialRender, false, true), 5_000, Some(&remembered), None) {
        GatewayStep::Answer(state) => {
            assert_eq!(state.display_state, IslandDisplayState::NoLocalMemory);
            assert!(!state.allows_open_continue_target());
            assert_eq!(state.generated_at_ms, 5_000);
        }
        GatewayStep::Decide(_) => panic!("no local memory needs no decision"),
    }
    match gateway_step(&status(1, 2, 3, Some(1_000)), &input(IslandContinueReason::UserOpenedIsland, false, true), 5_000, Some(&remembered), Some(900)) {
        GatewayStep::Answer(state) => assert!(state.decision_cache_hit),
        GatewayStep::Decide(_) => panic!("fresh memory should be reused"),
    }
    match gateway_step(&status(2, 2, 3, Some(1_000)), &input(IslandContinueReason::UserOpenedIsland, false, false), 5_000, Some(&remembered), Some(900)) {
        GatewayStep::Answer(state) => {
            assert_eq!(state.display_state, IslandDisplayState::NeedsRefresh);
            assert!(state.decision_stale);
            assert!(!state.allows_open_continue_target());
        }
        GatewayStep::Decide(_) => panic!("refresh is not allowed"),
    }
}

#[test]
fn gateway_asks_for_a_decision_in_the_current_session() {
    let mut st = status(1, 2, 3, Some(1_000));
    st.active_session = Some(CaptureSession {
        id: "session-live".to_string(),
        started_at: 1,
        stopped_at: None,
    });
    match gateway_step(&st, &IslandContinueStateInput::for_user_continue(None), 5_000, None, None) {
        GatewayStep::Decide(request) => {
            assert_eq!(request.session_id.as_deref(), Some("session-live"));
            assert_eq!(request.request_trigger.as_deref(), Some("manual"));
        }
        GatewayStep::Answer(_) => panic!("a forced refresh must decide"),
    }
}

#[test]
fn ranks_prefer_model_wording_and_validated_targets() {
    assert_eq!(source_quality_rank("model_assisted"), 2);
    assert_eq!(source_quality_rank("local_fallback"), 0);
    assert_eq!(source_quality_rank("abstained"), 0);
    assert_eq!(source_quality_rank("local_deterministic"), 1);
    assert_eq!(target_source_quality_rank("local_validated_target_policy"), 2);
    assert_eq!(target_source_quality_rank("abstained"), 0);
    assert_eq!(target_source_quality_rank("heuristic"), 1);
}

#[test]
fn ledger_reports_latest_evidence_then_watermark() {
    let mut decision = challenger();
    assert_eq!(decision_evidence_updated_at_ms(&decision), Some(2_000));
    decision.evidence_freshness_ledger = Some(EvidenceFreshnessLedger {
        latest_any_evidence_ms: None,
        decision_watermark_ms: Some(LedgerValue::Integer(7)),
    });
    assert_eq!(decision_evidence_updated_at_ms(&decision), Some(7));
    decision.evidence_freshness_ledger = Some(EvidenceFreshnessLedger {
        latest_any_evidence_ms: Some(LedgerValue::NotAnInteger),
        decision_watermark_ms: Some(LedgerValue::Integer(7)),
    });
    assert_eq!(decision_evidence_updated_at_ms(&decision), None);
}

#[test]
fn an_older_weaker_decision_does_not_replace_a_manual_result() {
    let remembered = remembered();
    let st = status(1, 2, 3, Some(1_000));
    let mut weaker = challenger();
    weaker.evidence_freshness_ledger = None;
    weaker.task_confidence_permille = 500;
    weaker.wording_source = "local_fallback".to_string();
    let challenger_state = IslandContinueState::error(3_000, None);
    let timer = input(IslandContinueReason::TimerRefresh, false, true);
    let (kept, reasons) =
        rejected_gateway_adoption(&weaker, &challenger_state, &st, &timer, Some(&remembered))
            .expect("the weaker decision must be rejected");
    assert_eq!(kept.decision_id.as_deref(), Some("decision-test"));
    assert_eq!(
        reasons,
        vec![
            "rejected_evidence_not_causally_newer".to_string(),
            "rejected_lower_task_identity_confidence".to_string(),
            "rejected_target_policy_downgrade".to_string(),
            "rejected_wording_source_downgrade".to_string(),
            "retained_stronger_manual_result".to_string(),
        ]
    );
    let pressed = IslandContinueStateInput::for_user_continue(None);
    assert!(rejected_gateway_adoption(&weaker, &challenger_state, &st, &pressed, Some(&remembered)).is_none());
    assert!(rejected_gateway_adoption(&weaker, &challenger_state, &st, &timer, None).is_none());

    let outcome = gateway_adopt(challenger_state, &weaker, &st, &timer, Some(&remembered));
    assert!(!outcome.adopted);
    assert_eq!(outcome.rejection_reasons.len(), 5);
    assert_eq!(outcome.state.decision_id.as_deref(), Some("decision-test"));
    assert!(outcome
        .state
        .warnings
        .contains(&"result_adoption:rejected_wording_source_downgrade".to_string()));
    assert_eq!(outcome.state.provenance_label.as_deref(), Some("island:test:timer_refresh"));
}

#[test]
fn a_newer_decision_for_a_new_supported_task_is_adopted() {
    let remembered = remembered();
    let st = status(1, 2, 3, Some(1_000));
    let mut newer = challenger();
    newer.current_task_turn = Some(ContinueCurrentTaskTurn {
        task_turn_id: "task-next".to_string(),
        revision: 1,
    });
    newer.continue_output_path = Some("/tmp/decision".to_string());
    let mut decided = remembered.island_continue_state.clone();
    decided.decision_id = Some("decision-new".to_string());
    let timer = input(IslandContinueReason::TimerRefresh, false, true);
    let outcome = gateway_adopt(decided, &newer, &st, &timer, Some(&remembered));
    assert!(outcome.adopted);
    assert!(outcome.rejection_reasons.is_empty());
    assert_eq!(outcome.state.audit_path.as_deref(), Some("/tmp/decision"));
    assert_eq!(outcome.state.available_actions[0].decision_id.as_deref(), Some("decision-new"));

    let memory = remember_gateway_decision(&newer, &outcome.state, &st, Some(950));
    assert_eq!(memory.decision_id, "decision-new");
    assert_eq!(memory.task_turn_id.as_deref(), Some("task-next"));
    assert_eq!(memory.task_turn_revision, Some(1));
    assert_eq!(memory.task_confidence_permille, 950);
    assert_eq!(memory.continue_freshness, "current");
    assert_eq!(memory.resume_headline.as_deref(), Some("Ready to continue"));
    assert!(memory.continue_openable);
    assert_eq!(memory.feedback_or_open_watermark_ms, Some(950));
    assert_eq!((memory.frame_count, memory.signal_count, memory.event_count), (1, 2, 3));
}

#[test]
fn losing_task_identity_is_an_objection() {
    let remembered = remembered();
    let st = status(1, 2, 3, Some(1_000));
    let mut lost = challenger();
    lost.current_task_turn = None;
    lost.request_trigger = "island".to_string();
    let state = remembered.island_continue_state.clone();
    let (_, reasons) = rejected_gateway_adoption(
        &lost,
        &state,
        &st,
        &input(IslandContinueReason::EvidenceChanged, false, true),
        Some(&remembered),
    )
    .unwrap();
    assert_eq!(
        reasons,
        vec![
            "rejected_lost_task_identity".to_string(),
            "retained_stronger_manual_result".to_string(),
        ]
    );
}

#[test]
fn a_continue_answer_is_ready_to_resume_only_with_a_decision() {
    let state = IslandContinueState::no_evidence(
        IslandFreshness {
            evidence_watermark_ms: None,
            newest_evidence_ms: None,
            decision_updated_at_ms: Some(2_000),
            decision_stale: false,
        },
        IslandStateContext::default(),
    );
    let answer = IslandContinueGatewayResult { state: state.clone(), decision: None };
    let (snapshot, memory) = continue_answer_snapshot(&status(0, 0, 0, None), 3_000, None, &answer)
        .expect("a state is always shown");
    assert_eq!(snapshot.state, SessionIslandState::Ready);
    assert!(snapshot.continue_decision_id.is_none());
    let shown = snapshot.island_continue_state.expect("the state is shown");
    assert_eq!(shown.display_state, state.display_state);
    assert_eq!(shown.next_action, state.next_action);
    assert!(!shown.allows_open_continue_target());
    assert!(memory.is_none());

    let decided = IslandContinueGatewayResult { state: answer.state.clone(), decision: Some(challenger()) };
    let (snapshot, memory) = continue_answer_snapshot(&status(3, 0, 0, Some(1_000)), 3_000, None, &decided)
        .expect("the decision is shown");
    assert_eq!(snapshot.state, SessionIslandState::ResumeReady);
    assert_eq!(snapshot.continue_decision_id.as_deref(), Some("decision-new"));
    assert_eq!(memory.expect("the decision is remembered").decision_id, "decision-new");
}
