use smalltalk_island::provisional::{
    provisional_axes, provisional_lineage, provisional_turn_id, task_object_candidate,
    PriorTurnLineage, TaskObjectCandidate,
};
use smalltalk_island::turn::{
    stable_hash, text_hash, TaskExecutionState, TaskTurnActor, TaskTurnRelation, TaskTurnWaitingOn,
};

fn prior(id: &str, goal: &str, hash: &str, state: TaskExecutionState) -> PriorTurnLineage {
    PriorTurnLineage {
        task_turn_id: id.to_string(),
        latest_user_goal_hash: Some(hash.to_string()),
        latest_user_goal_summary: Some(goal.to_string()),
        execution_state: state,
        relation_to_prior: TaskTurnRelation::Clarification,
        prior_task_turn_id: Some("turn-0".to_string()),
        supersedes_task_turn_id: None,
        parent_task_turn_id: Some("turn-parent".to_string()),
    }
}

#[test]
fn agent_state_sets_the_axes() {
    let done = provisional_axes(Some("The update is complete."), true);
    assert_eq!(done.execution_state, TaskExecutionState::Completed);
    assert_eq!(done.waiting_on, TaskTurnWaitingOn::Nobody);
    assert!(done.agent_state_is_completion_evidence);
    assert_eq!(
        done.reason_codes,
        vec!["attributed_agent_completion_after_user_boundary".to_string()]
    );
    let waiting = provisional_axes(Some("Blocked by CI; waiting for external review"), true);
    assert_eq!(waiting.current_actor, TaskTurnActor::AssistantOrAgent);
    assert_eq!(waiting.execution_state, TaskExecutionState::Blocked);
    assert_eq!(waiting.waiting_on, TaskTurnWaitingOn::External);
    let asking = provisional_axes(Some("Please provide the API token"), true);
    assert_eq!(asking.waiting_on, TaskTurnWaitingOn::User);
    assert_eq!(asking.execution_state, TaskExecutionState::Active);
    let user_only = provisional_axes(None, true);
    assert_eq!(user_only.current_actor, TaskTurnActor::User);
    assert_eq!(user_only.waiting_on, TaskTurnWaitingOn::Agent);
    let nothing = provisional_axes(Some(""), false);
    assert_eq!(nothing.execution_state, TaskExecutionState::Unclear);
    assert_eq!(
        nothing.reason_codes,
        vec!["missing_typed_user_and_agent_state".to_string()]
    );
}

#[test]
fn turn_ids_hash_the_boundary_identity() {
    let expected = |session: &str, identity: &str| {
        format!(
            "task-turn-{}",
            stable_hash(format!("smalltalk.current_task_turn.v2|{session}|{identity}").as_bytes())
        )
    };
    assert_eq!(
        provisional_turn_id(Some("s-1"), Some("goal-hash"), Some("record-1"), Some("Fix it"), "7"),
        expected("s-1", "goal-hash")
    );
    assert_eq!(
        provisional_turn_id(None, None, Some("record-1"), Some("Fix it"), "7"),
        expected("none", &text_hash("Fix it"))
    );
    assert_eq!(
        provisional_turn_id(None, None, Some("record-1"), None, "7"),
        expected("none", "record-1")
    );
    assert_eq!(provisional_turn_id(None, None, None, None, "7"), expected("none", "frame:7"));
}

#[test]
fn lineage_links_new_turns_and_keeps_reobserved_ones() {
    let reasons = vec!["latest_user_goal_without_agent_state".to_string()];
    let open = prior("turn-1", "Implement the export dialog", "h-1", TaskExecutionState::Active);
    let superseding = provisional_lineage("turn-2", Some("Write release notes"), Some("h-2"), Some(&open), &reasons);
    assert_eq!(superseding.relation, "supersedes");
    assert_eq!(superseding.prior_id.as_deref(), Some("turn-1"));
    assert_eq!(superseding.supersedes_id.as_deref(), Some("turn-1"));
    assert!(superseding.parent_id.is_none());
    assert_eq!(
        superseding.reason_codes,
        vec![
            "provisional_boundary_from_p6_02_typed_evidence".to_string(),
            "latest_user_goal_without_agent_state".to_string(),
            "relation_supersedes".to_string()
        ]
    );
    let support = provisional_lineage("turn-3", Some("Run the tests"), Some("h-3"), Some(&open), &reasons);
    assert_eq!(support.relation, "child_support_step");
    assert_eq!(support.parent_id.as_deref(), Some("turn-1"));
    let same_goal = provisional_lineage("turn-4", Some("Anything"), Some("h-1"), Some(&open), &reasons);
    assert_eq!(same_goal.relation, "continuation");
    let again = provisional_lineage("turn-1", Some("Write release notes"), Some("h-9"), Some(&open), &reasons);
    assert_eq!(again.relation, "clarification");
    assert_eq!(again.prior_id.as_deref(), Some("turn-0"));
    assert_eq!(again.parent_id.as_deref(), Some("turn-parent"));
    let first = provisional_lineage("turn-5", Some("Anything"), None, None, &Vec::new());
    assert_eq!(first.relation, "new_task");
    assert!(first.prior_id.is_none());
}

#[test]
fn task_objects_are_known_phrases_or_first_words() {
    assert_eq!(
        task_object_candidate(Some("Why does the capture-button flicker?")),
        TaskObjectCandidate::Known("island_capture_button".to_string())
    );
    assert_eq!(
        task_object_candidate(Some("Update the Continue_Card copy")),
        TaskObjectCandidate::Known("continue_card_copy".to_string())
    );
    assert_eq!(
        task_object_candidate(Some("  Please investigate the flaky parser-tests in CI pipeline today now ")),
        TaskObjectCandidate::Words("flaky parser-tests pipeline today now".to_string())
    );
    assert_eq!(
        task_object_candidate(Some("one two three four five six seven eight")),
        TaskObjectCandidate::Words("one two three four five six".to_string())
    );
    assert_eq!(task_object_candidate(Some("Fix it")), TaskObjectCandidate::Nothing);
    assert_eq!(task_object_candidate(None), TaskObjectCandidate::Nothing);
}

#[test]
fn stored_turns_widen_their_time_and_spans() {
    let stored = smalltalk_island::provisional::StoredTurnSpans {
        started_at_ms: 50,
        last_observed_at_ms: 80,
        latest_user_span_ids: vec!["u-2".to_string()],
        current_state_span_ids: Vec::new(),
        prior_boundary_span_ids: vec!["p-1".to_string()],
        revision: 2,
        updated_at_ms: 80,
        material_fingerprint: Some("fp-1".to_string()),
    };
    let sighting = smalltalk_island::provisional::ProvisionalSighting {
        observed_at_ms: 100,
        user_span_ids: vec!["u-1".to_string(), "u-2".to_string()],
        agent_span_ids: vec!["a-1".to_string()],
        prior_span_ids: Vec::new(),
        missing_evidence: vec!["x".to_string()],
        quality_flags: Vec::new(),
    };
    let record = smalltalk_island::provisional::provisional_record(Some(&stored), &sighting, false, "unknown", true);
    assert_eq!((record.started_at_ms, record.last_observed_at_ms), (50, 100));
    assert_eq!(record.latest_user_span_ids, vec!["u-1".to_string(), "u-2".to_string()]);
    assert_eq!(record.current_state_span_ids, vec!["a-1".to_string()]);
    assert_eq!(record.prior_boundary_span_ids, vec!["p-1".to_string()]);
    assert_eq!(record.evidence_quality, "strong");
    assert_eq!(
        record.missing_evidence,
        vec!["x".to_string(), "public_safe_latest_user_goal".to_string()]
    );
    assert_eq!(record.quality_flags, vec!["ambiguous_task_relation".to_string()]);
    let fresh = smalltalk_island::provisional::provisional_record(None, &sighting, true, "unknown", false);
    assert_eq!(fresh.evidence_quality, "partial");
    assert!(fresh.quality_flags.is_empty());
    assert_eq!(fresh.missing_evidence, vec!["x".to_string()]);
    let mut thin = sighting.clone();
    thin.user_span_ids.clear();
    assert_eq!(
        smalltalk_island::provisional::provisional_record(None, &thin, true, "new_task", true).evidence_quality,
        "thin"
    );
    assert_eq!(
        smalltalk_island::provisional::provisional_revision(Some(&stored), "fp-1", 500),
        (2, 80, false)
    );
    assert_eq!(
        smalltalk_island::provisional::provisional_revision(Some(&stored), "fp-2", 500),
        (3, 500, true)
    );
    assert_eq!(smalltalk_island::provisional::provisional_revision(None, "fp-2", 500), (1, 500, true));
}

#[test]
fn reobserved_turns_keep_or_continue_their_lineage() {
    let stored = prior("turn-1", "Goal", "h-1", TaskExecutionState::Active);
    let fresh = smalltalk_island::provisional::ProvisionalLineage {
        relation: "supersedes".to_string(),
        prior_id: Some("turn-x".to_string()),
        supersedes_id: Some("turn-x".to_string()),
        parent_id: None,
        reason_codes: vec!["relation_supersedes".to_string()],
    };
    let kept = smalltalk_island::provisional::reobserved_lineage(fresh.clone(), true, Some(&stored), false);
    assert_eq!(kept.relation, "clarification");
    assert_eq!(kept.prior_id.as_deref(), Some("turn-0"));
    assert!(kept.supersedes_id.is_none());
    assert_eq!(kept.parent_id.as_deref(), Some("turn-parent"));
    assert_eq!(kept.reason_codes, vec!["relation_supersedes".to_string()]);
    let again = smalltalk_island::provisional::reobserved_lineage(fresh.clone(), false, Some(&stored), true);
    assert_eq!(again.relation, "continuation");
    assert_eq!(again.prior_id.as_deref(), Some("turn-x"));
    assert!(again.supersedes_id.is_none());
    assert_eq!(
        again.reason_codes,
        vec![
            "relation_supersedes".to_string(),
            "same_task_reobserved_after_support_detour".to_string()
        ]
    );
    let untouched = smalltalk_island::provisional::reobserved_lineage(fresh.clone(), false, None, false);
    assert_eq!(untouched, fresh);
}

#[test]
fn resolving_the_same_sighting_again_changes_nothing() {
    let sighting = smalltalk_island::provisional::ProvisionalSighting {
        observed_at_ms: 100,
        user_span_ids: vec!["u-2".to_string(), "u-1".to_string()],
        agent_span_ids: vec!["a-1".to_string()],
        prior_span_ids: Vec::new(),
        missing_evidence: Vec::new(),
        quality_flags: Vec::new(),
    };
    let first = smalltalk_island::provisional::provisional_record(None, &sighting, true, "new_task", true);
    let (revision, updated_at_ms, changed) = smalltalk_island::provisional::provisional_revision(None, "fp-1", 500);
    assert!(changed);
    let stored = smalltalk_island::provisional::StoredTurnSpans {
        started_at_ms: first.started_at_ms,
        last_observed_at_ms: first.last_observed_at_ms,
        latest_user_span_ids: first.latest_user_span_ids.clone(),
        current_state_span_ids: first.current_state_span_ids.clone(),
        prior_boundary_span_ids: first.prior_boundary_span_ids.clone(),
        revision,
        updated_at_ms,
        material_fingerprint: Some("fp-1".to_string()),
    };
    let second = smalltalk_island::provisional::provisional_record(Some(&stored), &sighting, true, "new_task", true);
    assert_eq!(second, first);
    assert_eq!(
        smalltalk_island::provisional::provisional_revision(Some(&stored), "fp-1", 900),
        (1, 500, false)
    );
}
