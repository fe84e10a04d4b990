use smalltalk_island::evidence::{ConversationalRole, RegionRole};
use smalltalk_island::latest::{select_latest_turn, turn_samples, LatestTurnChoice, TurnFrameView, TurnSpanView};

fn frame() -> TurnFrameView {
    TurnFrameView {
        observed_at_ms: 100,
        session_id: Some("session".to_string()),
        bundle_id: Some("com.openai.codex".to_string()),
        app_name: Some("Codex".to_string()),
        window_id: Some(1),
    }
}

fn span(id: &str, region: RegionRole, role: ConversationalRole, order: i64) -> TurnSpanView {
    TurnSpanView {
        span_id: id.to_string(),
        session_id: Some("session".to_string()),
        observed_at_ms: 100,
        owner_app_id: Some("com.openai.codex".to_string()),
        owner_window_id: Some(1),
        source_scope: "active_window".to_string(),
        ownership_kind: "ActiveWindowOwned".to_string(),
        region_role: region,
        conversational_role: role,
        reading_order: order,
        region_confident: true,
        speaker_confident: true,
        quality_flags: Vec::new(),
    }
}

#[test]
fn user_agent_and_prior_are_taken_in_reading_order() {
    let spans = vec![
        span("prior", RegionRole::ConversationHistory, ConversationalRole::AssistantOrAgent, 0),
        span("old-user", RegionRole::UserMessage, ConversationalRole::User, 1),
        span("user", RegionRole::UserMessage, ConversationalRole::User, 2),
        span("agent", RegionRole::AgentMessage, ConversationalRole::AssistantOrAgent, 3),
        span("composer", RegionRole::Composer, ConversationalRole::User, 4),
    ];
    let choice = select_latest_turn(&frame(), &spans, Some("stored_post_frame"));
    assert_eq!(choice.eligible, vec![0, 1, 2, 3, 4]);
    assert_eq!(choice.latest_user, Some(2));
    assert_eq!(choice.current_agent, Some(3));
    assert_eq!(choice.prior_boundary, Some(0));
    assert_eq!(
        choice.salient_span_ids,
        vec!["user".to_string(), "agent".to_string(), "prior".to_string(), "composer".to_string()]
    );
    assert!(choice.missing_roles.is_empty());
    assert_eq!(choice.rejected_spans.len(), 1);
    assert_eq!(choice.rejected_spans[0].span_id, "old-user");
    assert_eq!(choice.rejected_spans[0].reason_code, "not_salient_for_latest_turn");
    assert_eq!(choice.fallback_flags, vec!["causal_typing:stored_post_frame".to_string()]);
}

#[test]
fn foreign_and_low_confidence_spans_do_not_count() {
    let mut other_window = span("other", RegionRole::UserMessage, ConversationalRole::User, 1);
    other_window.owner_window_id = Some(2);
    let mut later = span("later", RegionRole::UserMessage, ConversationalRole::User, 2);
    later.observed_at_ms = 101;
    let mut unsure = span("unsure", RegionRole::UserMessage, ConversationalRole::User, 3);
    unsure.speaker_confident = false;
    let mut flattened = span("flat", RegionRole::Unknown, ConversationalRole::Unknown, 4);
    flattened.quality_flags = vec!["flattened_text_fallback".to_string()];
    let spans = vec![other_window, later, unsure, flattened];
    let choice = select_latest_turn(&frame(), &spans, None);
    assert_eq!(choice.eligible, vec![2, 3]);
    assert_eq!(choice.latest_user, None);
    assert!(choice.salient_span_ids.is_empty());
    assert_eq!(
        choice.missing_roles,
        vec!["latest_user_message".to_string(), "typed_salient_semantic_unit".to_string()]
    );
    assert_eq!(choice.fallback_flags, vec!["flattened_text_fallback".to_string()]);
    assert_eq!(choice.rejected_spans.len(), 2);
    assert_eq!(choice.rejected_spans[0].reason_code, "not_salient_for_latest_turn");
}

#[test]
fn a_user_turn_without_an_answer_misses_the_agent() {
    let spans = vec![
        span("agent-before", RegionRole::AgentMessage, ConversationalRole::AssistantOrAgent, 0),
        span("user", RegionRole::UserMessage, ConversationalRole::User, 1),
    ];
    let choice = select_latest_turn(&frame(), &spans, None);
    assert_eq!(choice.latest_user, Some(1));
    assert_eq!(choice.current_agent, None);
    assert_eq!(
        choice.missing_roles,
        vec!["current_agent_response_or_status".to_string()]
    );
    assert_eq!(choice.rejected_spans[0].reason_code, "not_user_authored");
}

#[test]
fn at_most_twenty_four_spans_are_reported_as_rejected() {
    let spans: Vec<TurnSpanView> = (0..30)
        .map(|i| span(&format!("s-{i}"), RegionRole::Unknown, ConversationalRole::Unknown, i))
        .collect();
    let choice = select_latest_turn(&frame(), &spans, None);
    assert_eq!(choice.rejected_spans.len(), 24);
    assert_eq!(choice.rejected_spans[23].span_id, "s-23");
}

fn chosen(user: bool, agent: bool, prior: bool) -> LatestTurnChoice {
    LatestTurnChoice {
        eligible: vec![0, 1, 2],
        latest_user: if user { Some(1) } else { None },
        current_agent: if agent { Some(2) } else { None },
        prior_boundary: if prior { Some(0) } else { None },
        salient_span_ids: Vec::new(),
        missing_roles: Vec::new(),
        rejected_spans: Vec::new(),
        fallback_flags: Vec::new(),
    }
}

fn text(n: usize) -> Option<String> {
    Some("x".repeat(n))
}

#[test]
fn privacy_blocked_surfaces_keep_no_samples() {
    let r = turn_samples(&chosen(true, true, true), "sensitive_blocked", text(10), text(10), text(10), text(5), text(5));
    assert_eq!((r.salient_user_goal_sample, r.salient_agent_state_sample, r.prior_boundary_sample), (None, None, None));
}

#[test]
fn a_role_without_a_chosen_span_has_no_sample() {
    let r = turn_samples(&chosen(false, true, false), "normal", text(10), text(20), text(30), None, None);
    assert_eq!(r.salient_user_goal_sample, None);
    assert_eq!(r.salient_agent_state_sample, text(20));
    assert_eq!(r.prior_boundary_sample, None);
}

#[test]
fn samples_share_eight_hundred_characters() {
    // Together they fit.
    let r = turn_samples(&chosen(true, true, true), "normal", text(320), text(320), text(160), text(1), text(1));
    assert_eq!((r.salient_user_goal_sample, r.salient_agent_state_sample, r.prior_boundary_sample), (text(320), text(320), text(160)));
    // The prior sample goes first.
    let r = turn_samples(&chosen(true, true, true), "normal", text(400), text(300), text(200), text(1), text(1));
    assert_eq!((r.salient_user_goal_sample, r.salient_agent_state_sample, r.prior_boundary_sample), (text(400), text(300), None));
    // Then user and agent are cut to their share.
    let r = turn_samples(&chosen(true, true, true), "normal", text(500), text(400), text(100), text(400), text(400));
    assert_eq!((r.salient_user_goal_sample, r.salient_agent_state_sample, r.prior_boundary_sample), (text(400), text(400), None));
}
