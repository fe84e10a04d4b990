use smalltalk_island::finalize::{
    chosen_workstreams, finalize_turn, i64_to_decimal, workstream_link, WorkstreamLinkBefore, supersede_turn, task_turn_history_id, turn_axes_after, TurnAction,
    TurnSupport,
};
use smalltalk_island::turn::{
    material_fingerprint, stable_hash, TaskExecutionState, TaskTurnActor, TaskTurnRelation, TaskTurnWaitingOn,
};

fn before() -> TurnSupport {
    TurnSupport {
        latest_user_goal_summary: Some("Fix the exporter".to_string()),
        task_object: None,
        task_kind: "implementation".to_string(),
        execution_state: TaskExecutionState::Active,
        current_actor: TaskTurnActor::User,
        waiting_on: TaskTurnWaitingOn::Agent,
        relation_to_prior: TaskTurnRelation::NewTask,
        supporting_action_ids: Vec::new(),
        supporting_event_ids: Vec::new(),
        reason_codes: vec!["latest_user_goal_without_agent_state".to_string()],
        revision: 3,
    }
}

fn action(id: &str, kind: &str, after: &str, events: &[&str], at: i64) -> TurnAction {
    TurnAction {
        id: id.to_string(),
        action_kind: kind.to_string(),
        semantic_delta_kind: String::new(),
        semantic_after_hint: after.to_string(),
        evidence_event_ids: events.iter().map(|e| e.to_string()).collect(),
        created_at_ms: at,
    }
}

#[test]
fn no_actions_means_nothing_to_write() {
    assert_eq!(finalize_turn(&before(), &Vec::new(), Vec::new()), Ok(None));
}

#[test]
fn completion_wording_completes_the_turn() {
    let actions = vec![
        action("a1", "Editing", "", &["e2", "e1"], 10),
        action("a2", "agent_status", "All tests passed", &["e1"], 20),
    ];
    let done = finalize_turn(&before(), &actions, vec!["e3".to_string()])
        .unwrap()
        .expect("the turn changes");
    assert_eq!(done.execution_state, TaskExecutionState::Completed);
    assert_eq!(done.current_actor, TaskTurnActor::AssistantOrAgent);
    assert_eq!(done.waiting_on, TaskTurnWaitingOn::Nobody);
    assert_eq!(done.reason, "turn_scoped_action_completion");
    assert_eq!(done.supporting_action_ids, vec!["a1".to_string(), "a2".to_string()]);
    assert_eq!(
        done.supporting_event_ids,
        vec!["e1".to_string(), "e2".to_string(), "e3".to_string()]
    );
    assert_eq!(done.supporting_action_ids_json, r#"["a1","a2"]"#);
    assert_eq!(done.supporting_event_ids_json, r#"["e1","e2","e3"]"#);
    assert_eq!(
        done.reason_codes,
        vec![
            "latest_user_goal_without_agent_state".to_string(),
            "turn_scoped_action_completion".to_string()
        ]
    );
    assert_eq!(done.revision, 4);
    assert_eq!(done.history_observed_at_ms, 20);
    assert_eq!(
        done.material_fingerprint,
        material_fingerprint(&[
            "Fix the exporter",
            "",
            "implementation",
            "completed",
            "assistant_or_agent",
            "none",
            "new_task",
            r#"["a1","a2"]"#,
            r#"["e1","e2","e3"]"#,
        ])
    );
}

#[test]
fn failure_blocks_and_work_activates() {
    let support = before();
    assert_eq!(
        turn_axes_after("run failed with error", &support),
        (
            TaskExecutionState::Blocked,
            TaskTurnActor::AssistantOrAgent,
            TaskTurnWaitingOn::External,
            "turn_scoped_action_blocked"
        )
    );
    assert_eq!(
        turn_axes_after("searching the docs", &support),
        (
            TaskExecutionState::Active,
            TaskTurnActor::AssistantOrAgent,
            TaskTurnWaitingOn::Agent,
            "turn_scoped_action_active"
        )
    );
    assert_eq!(
        turn_axes_after("focus moved", &support),
        (
            TaskExecutionState::Active,
            TaskTurnActor::User,
            TaskTurnWaitingOn::Agent,
            "turn_scoped_action_no_axis_change"
        )
    );
}

#[test]
fn an_up_to_date_turn_is_left_alone() {
    let mut support = before();
    support.current_actor = TaskTurnActor::AssistantOrAgent;
    support.supporting_action_ids = vec!["a1".to_string()];
    support.supporting_event_ids = vec!["e1".to_string(), "e2".to_string()];
    let actions = vec![action("a1", "navigate", "", &["e2", "e1", "e2"], 5)];
    assert_eq!(finalize_turn(&support, &actions, Vec::new()), Ok(None));
    // A new linked event changes the support.
    assert!(finalize_turn(&support, &actions, vec!["e0".to_string()])
        .unwrap()
        .is_some());
}

#[test]
fn integers_print_in_decimal() {
    assert_eq!(i64_to_decimal(0), "0");
    assert_eq!(i64_to_decimal(4), "4");
    assert_eq!(i64_to_decimal(-1207), "-1207");
    assert_eq!(i64_to_decimal(i64::MIN), "-9223372036854775808");
    assert_eq!(i64_to_decimal(i64::MAX), "9223372036854775807");
}

#[test]
fn history_ids_are_stable_hashes_of_the_transition() {
    let id = task_turn_history_id(
        "turn-1",
        4,
        "completed",
        "assistant_or_agent",
        "none",
        "turn_scoped_action_completion",
        "turn_scoped_actions",
    );
    let expected = format!(
        "task-turn-history-{}",
        stable_hash(
            "turn-1|4|completed|assistant_or_agent|none|turn_scoped_action_completion|turn_scoped_actions"
                .as_bytes()
        )
    );
    assert_eq!(id, expected);
}

#[test]
fn only_unfinished_turns_are_superseded() {
    let open = before();
    let superseded = supersede_turn(&open, "turn-9").expect("an active turn is superseded");
    assert_eq!(superseded.revision, 4);
    assert_eq!(
        superseded.reason_codes,
        vec![
            "latest_user_goal_without_agent_state".to_string(),
            "superseded_by:turn-9".to_string()
        ]
    );
    assert_eq!(
        superseded.material_fingerprint,
        material_fingerprint(&["Fix the exporter", "superseded", "turn-9"])
    );
    let mut done = before();
    done.execution_state = TaskExecutionState::Completed;
    assert!(supersede_turn(&done, "turn-9").is_none());
    done.execution_state = TaskExecutionState::Superseded;
    assert!(supersede_turn(&done, "turn-9").is_none());
}

#[test]
fn each_turn_takes_its_best_workstream() {
    let candidates = vec![
        ("turn-b".to_string(), "ws-2".to_string()),
        ("turn-a".to_string(), "ws-1".to_string()),
        ("turn-b".to_string(), "ws-3".to_string()),
        ("turn-a".to_string(), "ws-4".to_string()),
    ];
    let (turns, workstreams) = chosen_workstreams(&candidates);
    assert_eq!(turns, vec!["turn-a".to_string(), "turn-b".to_string()]);
    assert_eq!(workstreams, vec!["ws-1".to_string(), "ws-2".to_string()]);
    let (none, _) = chosen_workstreams(&Vec::new());
    assert!(none.is_empty());
}

#[test]
fn only_a_moved_turn_gets_a_new_revision() {
    let before = WorkstreamLinkBefore {
        workstream_id: Some("ws-1".to_string()),
        latest_user_goal_hash: Some("goal-hash".to_string()),
        execution_state: TaskExecutionState::Active,
        current_actor: TaskTurnActor::User,
        waiting_on: TaskTurnWaitingOn::Agent,
        relation_to_prior: TaskTurnRelation::NewTask,
        revision: 7,
    };
    let same = workstream_link(&before, "ws-1");
    assert!(same.moved.is_none());
    assert_eq!(same.revision, 7);
    assert_eq!(
        same.membership_reason_codes,
        vec![
            "action_episode_workstream_membership".to_string(),
            "current_task_turn_justifies_selection".to_string()
        ]
    );
    let moved = workstream_link(&before, "ws-2");
    assert_eq!(moved.revision, 8);
    assert_eq!(
        moved.moved,
        Some(material_fingerprint(&["goal-hash", "active", "user", "agent", "new_task", "ws-2"]))
    );
}

#[test]
fn finalizing_twice_writes_nothing_the_second_time() {
    let actions = vec![
        action("a1", "Editing", "", &["e2", "e1"], 10),
        action("a2", "agent_status", "run failed with error", &["e1"], 20),
    ];
    let linked = vec!["e3".to_string()];
    let first = finalize_turn(&before(), &actions, linked.clone())
        .unwrap()
        .expect("the first finalization writes");
    let mut written = before();
    written.execution_state = first.execution_state;
    written.current_actor = first.current_actor;
    written.waiting_on = first.waiting_on;
    written.supporting_action_ids = first.supporting_action_ids.clone();
    written.supporting_event_ids = first.supporting_event_ids.clone();
    written.reason_codes = first.reason_codes.clone();
    written.revision = first.revision;
    assert_eq!(written.execution_state, TaskExecutionState::Blocked);
    assert_eq!(finalize_turn(&written, &actions, linked), Ok(None));
}

#[test]
fn support_lists_are_written_as_escaped_json() {
    let actions = vec![action("a\"1\\", "agent_status", "All tests passed", &["tab\there", "bell\u{7}", "é"], 5)];
    let done = finalize_turn(&before(), &actions, Vec::new())
        .unwrap()
        .expect("the turn changes");
    assert_eq!(done.supporting_action_ids_json, "[\"a\\\"1\\\\\"]");
    assert_eq!(
        done.supporting_event_ids_json,
        "[\"bell\\u0007\",\"tab\\there\",\"é\"]"
    );
}
