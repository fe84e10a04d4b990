use smalltalk_island::resolve::{
    alternative_turn_ids, conflict_flags, empty_batch_outcome, keeps_selected_turn, plan_salient_rows, selected_turn_id, SalientRowSummary, SelectedTurnLineage,
};
use smalltalk_island::turn::stable_hash;
use smalltalk_island::turn::TaskTurnRelation;

fn row(frame: &str, at: i64, user: bool, agent: bool, prior: bool, hash: Option<&str>) -> SalientRowSummary {
    let spans = |present: bool, name: &str| {
        if present {
            vec![format!("{name}-{frame}")]
        } else {
            Vec::new()
        }
    };
    SalientRowSummary {
        frame_id: frame.to_string(),
        session_id: Some("s-1".to_string()),
        surface_key: Some("chat-window".to_string()),
        user_hash: hash.map(str::to_string),
        observed_at_ms: at,
        user_span_ids: spans(user, "user"),
        agent_span_ids: spans(agent, "agent"),
        prior_span_ids: spans(prior, "prior"),
    }
}

#[test]
fn user_frames_are_taken_in_time_then_id_order() {
    let rows = vec![
        row("12", 200, true, false, false, Some("goal-b")),
        row("3", 100, true, false, false, Some("goal-a")),
        row("10", 200, true, true, false, Some("goal-a")),
        row("11", 150, false, true, false, None),
    ];
    let plan = plan_salient_rows(&rows);
    assert_eq!(plan.ordered, vec![1, 2, 0]);
    assert_eq!(plan.later_reobservation, vec![true, false, false]);
    assert_eq!(plan.latest_sample, Some(0));
    assert!(!plan.prior_only_evidence_observed);
}

#[test]
fn ties_keep_arrival_order_and_the_last_latest_frame_wins() {
    let rows = vec![
        row("frame-a", 100, true, false, false, None),
        row("frame-b", 100, true, false, false, None),
        row("frame-c", 50, false, false, true, None),
    ];
    let plan = plan_salient_rows(&rows);
    // Non-numeric ids all sort as the largest id, so arrival decides.
    assert_eq!(plan.ordered, vec![0, 1]);
    assert_eq!(plan.latest_sample, Some(1));
    assert!(plan.prior_only_evidence_observed);
    assert_eq!(plan.later_reobservation, vec![false, false]);
}

#[test]
fn an_empty_batch_has_no_latest_frame() {
    let plan = plan_salient_rows(&Vec::new());
    assert!(plan.ordered.is_empty());
    assert_eq!(plan.latest_sample, None);
}

#[test]
fn support_steps_select_their_parent() {
    assert_eq!(
        selected_turn_id(
            TaskTurnRelation::ChildSupportStep,
            Some("parent".to_string()),
            "child".to_string()
        ),
        "parent"
    );
    assert_eq!(
        selected_turn_id(TaskTurnRelation::ChildSupportStep, None, "child".to_string()),
        "child"
    );
    assert_eq!(
        selected_turn_id(
            TaskTurnRelation::Continuation,
            Some("parent".to_string()),
            "child".to_string()
        ),
        "child"
    );
}

#[test]
fn an_empty_sample_keeps_only_a_recent_same_surface_turn() {
    let sample = row("20", 10_000, false, false, false, None);
    let selected = SelectedTurnLineage {
        session_id: Some("s-1".to_string()),
        surface_key_hash: Some(stable_hash("task-turn-surface|chat-window".as_bytes())),
        last_observed_at_ms: 0,
        latest_user_span_ids: vec!["user-1".to_string()],
    };
    assert!(keeps_selected_turn(&sample, &selected, true));
    assert!(!keeps_selected_turn(&sample, &selected, false));
    let mut late = sample.clone();
    late.observed_at_ms = 15_001;
    assert!(!keeps_selected_turn(&late, &selected, true));
    let mut earlier = sample.clone();
    earlier.observed_at_ms = -1;
    assert!(!keeps_selected_turn(&earlier, &selected, true));
    let mut elsewhere = sample.clone();
    elsewhere.surface_key = Some("terminal".to_string());
    assert!(!keeps_selected_turn(&elsewhere, &selected, true));
    let mut unknown_surface = sample.clone();
    unknown_surface.surface_key = None;
    let mut no_hash = selected.clone();
    no_hash.surface_key_hash = None;
    assert!(!keeps_selected_turn(&unknown_surface, &no_hash, true));
    let mut no_goal = selected.clone();
    no_goal.latest_user_span_ids.clear();
    assert!(!keeps_selected_turn(&sample, &no_goal, true));
}

#[test]
fn an_empty_batch_clears_only_what_it_cannot_keep() {
    let kept = empty_batch_outcome(false, Some("turn-1".to_string()), true);
    assert!(!kept.clear_selection);
    assert_eq!(kept.selected_task_turn_id.as_deref(), Some("turn-1"));
    assert_eq!(kept.selection_reason_codes, vec!["same_surface_empty_sample_preserved".to_string()]);
    assert_eq!(kept.missing_evidence, vec!["current_user_goal_evidence".to_string()]);
    assert!(empty_batch_outcome(true, None, false).clear_selection);
    assert!(empty_batch_outcome(false, None, true).clear_selection);
    let quiet = empty_batch_outcome(false, None, false);
    assert!(!quiet.clear_selection);
    assert!(quiet.selection_reason_codes.is_empty());
}

#[test]
fn resolution_lists_are_sorted_and_distinct() {
    let ids = vec!["t-3".to_string(), "t-1".to_string(), "t-2".to_string(), "t-1".to_string()];
    assert_eq!(
        alternative_turn_ids(&ids, &Some("t-2".to_string())),
        vec!["t-1".to_string(), "t-3".to_string()]
    );
    assert_eq!(alternative_turn_ids(&ids, &None).len(), 3);
    let flags = vec![
        "flattened_ax_tree".to_string(),
        "thin_ocr".to_string(),
        "ambiguous_task_relation".to_string(),
        "flattened_ax_tree".to_string(),
    ];
    assert_eq!(
        conflict_flags(&flags),
        vec!["ambiguous_task_relation".to_string(), "flattened_ax_tree".to_string()]
    );
}

#[test]
fn scopes_take_sorted_spans_and_joined_text() {
    let user = vec!["u-2".to_string(), "u-1".to_string()];
    let state = vec!["a-1".to_string(), "u-1".to_string()];
    let scope = smalltalk_island::resolve::turn_scope_core(
        &user,
        &state,
        Some("Fix the exporter"),
        Some("running tests"),
        true,
        &vec!["thin_ocr".to_string()],
    );
    assert_eq!(
        scope.current_span_ids,
        vec!["a-1".to_string(), "u-1".to_string(), "u-2".to_string()]
    );
    assert_eq!(scope.current_semantic_text, "Fix the exporter running tests");
    assert!(scope.has_current_agent_state);
    assert!(scope.typed_boundary_confident);
    let flattened = smalltalk_island::resolve::turn_scope_core(
        &user,
        &Vec::new(),
        None,
        Some("running tests"),
        true,
        &vec!["flattened_text_fallback".to_string()],
    );
    assert_eq!(flattened.current_semantic_text, "running tests");
    assert!(!flattened.has_current_agent_state);
    assert!(!flattened.typed_boundary_confident);
    let empty = smalltalk_island::resolve::turn_scope_core(&Vec::new(), &Vec::new(), None, None, true, &Vec::new());
    assert_eq!(empty.current_semantic_text, "");
    assert!(!empty.typed_boundary_confident);
}
