use smalltalk_island::evidence::{ConversationalRole, RegionRole, SurfaceFamily};
use smalltalk_island::surface::{
    adapt_surface_roles, conversation_pane, AdaptedConfidence, AdaptedSpan, CausalTypingView,
    SurfaceFrameView, SurfaceSpanView,
};

fn span(pane: &str, order: i64, text: &str) -> SurfaceSpanView {
    SurfaceSpanView {
        pane_id: pane.to_string(),
        region_role: RegionRole::Unknown,
        conversational_role: ConversationalRole::Unknown,
        reading_order: order,
        text: text.to_string(),
        text_hash: format!("hash-{order}"),
        source_scope: "frame".to_string(),
        ownership_kind: "FrameOwned".to_string(),
        reason_codes: Vec::new(),
        quality_flags: Vec::new(),
        placed: true,
        near_composer: false,
        right_aligned: false,
        left_aligned: true,
    }
}

fn right(mut s: SurfaceSpanView) -> SurfaceSpanView {
    s.right_aligned = true;
    s.left_aligned = false;
    s
}

fn frame(family: SurfaceFamily, panes: &[&str]) -> SurfaceFrameView {
    SurfaceFrameView {
        family,
        panes: panes.iter().map(|p| p.to_string()).collect(),
        causal_typing: None,
        has_agent_status_event: false,
        pre_frame_text_hashes: Vec::new(),
    }
}

fn typed(
    region: RegionRole,
    speaker: ConversationalRole,
    region_pct: u8,
    speaker_pct: u8,
    reason: &str,
) -> AdaptedSpan {
    AdaptedSpan {
        region_role: region,
        conversational_role: speaker,
        confidence: Some(AdaptedConfidence::Hundredths(region_pct, speaker_pct)),
        added_reason_codes: vec![reason.to_string()],
    }
}

fn kept(s: &SurfaceSpanView) -> AdaptedSpan {
    AdaptedSpan {
        region_role: s.region_role,
        conversational_role: s.conversational_role,
        confidence: None,
        added_reason_codes: Vec::new(),
    }
}

#[test]
fn other_surfaces_are_left_as_they_are() {
    let spans = vec![span("nav", 1, "Old project name"), right(span("chat", 2, "Investigate the Capture control"))];
    let f = frame(SurfaceFamily::Editor, &["nav", "chat", "terminal"]);
    let out = adapt_surface_roles(&f, &spans);
    assert_eq!(out, vec![kept(&spans[0]), kept(&spans[1])]);
    let f = frame(SurfaceFamily::AgentChat, &[]);
    assert_eq!(adapt_surface_roles(&f, &spans), vec![kept(&spans[0]), kept(&spans[1])]);
}

#[test]
fn the_middle_pane_holds_the_conversation() {
    let spans = vec![span("a", 1, "x"), span("b", 2, "y"), span("b", 3, "z")];
    let three: Vec<String> = vec!["a".into(), "b".into(), "c".into()];
    assert_eq!(conversation_pane(&three, &spans), Some(1));
    let two: Vec<String> = vec!["a".into(), "b".into()];
    assert_eq!(conversation_pane(&two, &spans), Some(1));
    let tie = vec![span("a", 1, "x"), span("b", 2, "y")];
    assert_eq!(conversation_pane(&two, &tie), Some(1));
    let left_heavy = vec![span("a", 1, "x"), span("a", 2, "y"), span("b", 3, "z")];
    assert_eq!(conversation_pane(&two, &left_heavy), Some(0));
    assert_eq!(conversation_pane(&Vec::new(), &spans), None);
}

#[test]
fn thin_ocr_reads_panes_and_the_turn_from_geometry() {
    let mut f = frame(SurfaceFamily::AgentChat, &["nav", "chat", "terminal"]);
    f.has_agent_status_event = true;
    let mut composer = span("chat", 9, "Message the agent");
    composer.region_role = RegionRole::Composer;
    let spans = vec![
        span("nav", 1, "Old project name"),
        span("chat", 2, "Earlier the build was broken"),
        right(span("chat", 3, "Investigate the Capture control")),
        span("chat", 4, "Tracing the bridge and handler"),
        span("terminal", 5, "Verification passed"),
        composer.clone(),
    ];
    let out = adapt_surface_roles(&f, &spans);
    assert_eq!(
        out,
        vec![
            typed(RegionRole::Navigation, ConversationalRole::NonConversation, 72, 92, "agent_surface_left_navigation_pane"),
            typed(RegionRole::ConversationHistory, ConversationalRole::AssistantOrAgent, 68, 64, "agent_surface_prior_left_turn"),
            typed(RegionRole::UserMessage, ConversationalRole::User, 58, 58, "agent_surface_right_aligned_turn_unconfirmed"),
            typed(RegionRole::AgentStatus, ConversationalRole::AssistantOrAgent, 76, 72, "agent_surface_following_status_turn"),
            typed(RegionRole::TerminalOutput, ConversationalRole::NonConversation, 70, 92, "agent_surface_right_terminal_pane"),
            kept(&composer),
        ]
    );
}

#[test]
fn without_the_agent_at_work_the_answer_stays_unknown() {
    let f = frame(SurfaceFamily::BrowserChat, &["chat"]);
    let spans = vec![
        right(span("chat", 1, "Investigate the Capture control")),
        span("chat", 2, "Tracing the bridge and handler"),
    ];
    let out = adapt_surface_roles(&f, &spans);
    assert_eq!(out[0].region_role, RegionRole::UserMessage);
    assert_eq!(out[1], kept(&spans[1]));
}

#[test]
fn status_markers_and_composer_controls_are_typed_first() {
    let f = frame(SurfaceFamily::AgentChat, &["chat"]);
    let mut stop = span("chat", 4, "Stop");
    stop.near_composer = true;
    let spans = vec![
        right(span("chat", 1, "Please fix the failing export")),
        span("chat", 2, "Thinking about the export"),
        span("chat", 3, "Here is what I found so far"),
        stop,
    ];
    let out = adapt_surface_roles(&f, &spans);
    assert_eq!(out[0].region_role, RegionRole::UserMessage);
    assert_eq!(
        out[1],
        typed(RegionRole::AgentStatus, ConversationalRole::AssistantOrAgent, 82, 78, "agent_surface_status_marker")
    );
    // The marker after the user's turn shows the agent at work, so the
    // latest left-aligned span after it is the answer.
    assert_eq!(
        out[2],
        typed(RegionRole::AgentStatus, ConversationalRole::AssistantOrAgent, 76, 72, "agent_surface_following_status_turn")
    );
    assert_eq!(
        out[3],
        typed(RegionRole::Control, ConversationalRole::NonConversation, 78, 92, "composer_adjacent_action_control")
    );
}

#[test]
fn a_confirmed_typing_burst_names_the_one_new_candidate() {
    let mut f = frame(SurfaceFamily::AgentChat, &["chat"]);
    f.causal_typing = Some(CausalTypingView {
        confident: true,
        surface_match_result: "exact_app_and_window".to_string(),
    });
    f.pre_frame_text_hashes = vec!["hash-2".to_string()];
    let spans = vec![
        right(span("chat", 1, "Repair causal task evidence now")),
        right(span("chat", 2, "An older request on screen")),
    ];
    let out = adapt_surface_roles(&f, &spans);
    assert_eq!(
        out[0],
        AdaptedSpan {
            region_role: RegionRole::UserMessage,
            conversational_role: ConversationalRole::User,
            confidence: Some(AdaptedConfidence::CausalTyping),
            added_reason_codes: vec!["causal_typing_novel_post_frame_span".to_string()],
        }
    );
    assert_eq!(out[1], kept(&spans[1]));
    // An unconfirmed burst falls back to the latest candidate; the longer
    // span before it is earlier conversation.
    f.causal_typing = Some(CausalTypingView {
        confident: false,
        surface_match_result: "exact_app_and_window".to_string(),
    });
    let out = adapt_surface_roles(&f, &spans);
    assert_eq!(
        out[0],
        typed(RegionRole::ConversationHistory, ConversationalRole::AssistantOrAgent, 68, 64, "agent_surface_prior_left_turn")
    );
    assert_eq!(out[1].region_role, RegionRole::UserMessage);
    assert_eq!(out[1].confidence, Some(AdaptedConfidence::Hundredths(58, 58)));
}

#[test]
fn the_users_turn_marks_the_first_span_at_its_reading_order() {
    let f = frame(SurfaceFamily::AgentChat, &["chat"]);
    let mut composer = span("chat", 3, "Message the agent");
    composer.region_role = RegionRole::Composer;
    let spans = vec![composer, right(span("chat", 3, "Investigate the Capture control"))];
    let out = adapt_surface_roles(&f, &spans);
    assert_eq!(
        out[0],
        typed(RegionRole::UserMessage, ConversationalRole::User, 58, 58, "agent_surface_right_aligned_turn_unconfirmed")
    );
    assert_eq!(out[1], kept(&spans[1]));
}
