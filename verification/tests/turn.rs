use smalltalk_island::evidence::{
    classify_role, rejection_reason, SurfaceFamily, join_with, selection_semantic_text, span_matches_context_surface, typing_surface_matches,
    user_goal_geometry_candidate_is_eligible, user_goal_ineligibility, TypingSurface,
};
use smalltalk_island::evidence::{
    is_categorical_control_hint, is_privacy_blocked, any_privacy_blocked, has_agent_status_event, normalized_identity, source_ref,
    text_hash as span_text_hash, ConversationalRole, EvidenceSourceKind, RegionRole,
    TextStorageClass,
};
use smalltalk_island::turn::{
    classify_task_kind, contains_any, is_completion_text, material_fingerprint, normalize_text,
    numeric_id, push_unique, sample_length, stable_hash, summary_redaction_status, text_hash,
    union_strings, TaskExecutionState, TaskTurnActor, TaskTurnRelation, TaskTurnWaitingOn,
};

#[test]
fn labels_round_trip_through_parse() {
    for state in [
        TaskExecutionState::Active,
        TaskExecutionState::Blocked,
        TaskExecutionState::Completed,
        TaskExecutionState::Superseded,
        TaskExecutionState::Suspended,
        TaskExecutionState::IdleAfterProgress,
        TaskExecutionState::Unclear,
    ] {
        assert_eq!(TaskExecutionState::parse(state.label()), Ok(state));
    }
    assert_eq!(TaskTurnWaitingOn::Nobody.label(), "none");
    assert_eq!(TaskTurnWaitingOn::parse("none"), Ok(TaskTurnWaitingOn::Nobody));
    assert_eq!(TaskTurnActor::parse("assistant_or_agent"), Ok(TaskTurnActor::AssistantOrAgent));
    assert_eq!(TaskTurnRelation::parse("child_support_step"), Ok(TaskTurnRelation::ChildSupportStep));
    assert_eq!(
        TaskExecutionState::parse("Active"),
        Err("invalid TaskExecutionState label: Active".to_string())
    );
    assert_eq!(
        TaskTurnRelation::parse(""),
        Err("invalid TaskTurnRelation label: ".to_string())
    );
}

#[test]
fn goals_are_classified_by_their_words() {
    assert_eq!(classify_task_kind(Some("Why does the island hide?")), "investigation");
    assert_eq!(classify_task_kind(Some("Please FIX the capture button")), "implementation");
    assert_eq!(classify_task_kind(Some("review the PR")), "verification");
    assert_eq!(classify_task_kind(Some("write the release notes")), "documentation");
    assert_eq!(classify_task_kind(Some("lunch")), "unknown");
    assert_eq!(classify_task_kind(None), "unknown");
}

#[test]
fn completion_text_is_recognised_case_insensitively() {
    assert!(is_completion_text("All Tests Passed on main"));
    assert!(is_completion_text("the update is complete"));
    assert!(!is_completion_text("still running the tests"));
    assert!(!is_completion_text(""));
}

#[test]
fn contains_any_matches_any_needle() {
    assert!(contains_any("a model_picker chip", &["axbutton", "model_picker"]));
    assert!(!contains_any("plain text", &["axbutton", "model_picker"]));
    assert!(!contains_any("anything", &[]));
}

#[test]
fn redaction_status_reports_why_a_summary_is_missing() {
    assert_eq!(summary_redaction_status(Some("ok"), &[]), "bounded_public_safe_summary");
    assert_eq!(summary_redaction_status(None, &[]), "missing_source");
    assert_eq!(
        summary_redaction_status(None, &["span-1".to_string()]),
        "redacted_or_unsafe"
    );
}

#[test]
fn unique_pushes_and_unions_are_sorted_sets() {
    let mut values = vec!["b".to_string()];
    push_unique(&mut values, "a".to_string());
    push_unique(&mut values, "b".to_string());
    assert_eq!(values, vec!["b".to_string(), "a".to_string()]);
    let existing = vec!["z".to_string(), "a".to_string()];
    assert_eq!(
        union_strings(Some(&existing), &["m".to_string(), "a".to_string()]),
        vec!["a".to_string(), "m".to_string(), "z".to_string()]
    );
    assert_eq!(union_strings(None, &["q".to_string(), "q".to_string()]), vec!["q".to_string()]);
}

#[test]
fn normalization_collapses_space_and_lowercases_ascii() {
    assert_eq!(normalize_text("  Fix   The\tBUG "), "fix the bug");
    assert_eq!(normalize_text("Ünïcode  ÄB"), "Ünïcode Äb");
    assert_eq!(sample_length(&Some("héllo".to_string())), 5);
    assert_eq!(sample_length(&None), 0);
}

#[test]
fn stable_hashes_are_fnv1a_hex() {
    assert_eq!(stable_hash(b""), "cbf29ce484222325");
    assert_eq!(stable_hash(b"a"), "af63dc4c8601ec8c");
    assert_eq!(text_hash("  Fix   The\tBUG "), "64bed3b7ac019b30");
    assert_eq!(text_hash("fix the bug"), text_hash("FIX  the bug"));
    assert_eq!(text_hash("Ünïcode  ÄB"), "8ca175e059f91635");
    assert_eq!(material_fingerprint(&["a", "b", "c"]), "c9ddc9381a0939ab");
    assert_eq!(material_fingerprint(&["solo"]), "6038d218f0bdf9aa");
    assert_eq!(material_fingerprint(&[]), "cbf29ce484222325");
}

#[test]
fn numeric_ids_parse_like_i64_or_fall_back_to_max() {
    assert_eq!(numeric_id("42"), 42);
    assert_eq!(numeric_id("-7"), -7);
    assert_eq!(numeric_id("+8"), 8);
    assert_eq!(numeric_id("9223372036854775807"), i64::MAX);
    assert_eq!(numeric_id("-9223372036854775808"), i64::MIN);
    assert_eq!(numeric_id("9223372036854775808"), i64::MAX);
    assert_eq!(numeric_id("-9223372036854775809"), i64::MAX);
    assert_eq!(numeric_id("99999999999999999999999"), i64::MAX);
    assert_eq!(numeric_id(""), i64::MAX);
    assert_eq!(numeric_id("-"), i64::MAX);
    assert_eq!(numeric_id(" 1"), i64::MAX);
    assert_eq!(numeric_id("1a"), i64::MAX);
    assert_eq!(numeric_id("frame-12"), i64::MAX);
}

#[test]
fn evidence_labels_and_priorities() {
    assert_eq!(EvidenceSourceKind::AccessibilityNode.label(), "accessibility_node");
    assert_eq!(EvidenceSourceKind::FlattenedTextFallback.label(), "flattened_text_fallback");
    assert!(EvidenceSourceKind::AccessibilityNode.priority() > EvidenceSourceKind::ContentUnit.priority());
    assert!(EvidenceSourceKind::ContentUnit.priority() > EvidenceSourceKind::OcrSpan.priority());
    assert!(EvidenceSourceKind::OcrSpan.priority() > EvidenceSourceKind::FlattenedTextFallback.priority());
    assert_eq!(TextStorageClass::BoundedPublicSafeSummary.label(), "bounded_public_safe_summary");
    assert_eq!(RegionRole::ConversationHistory.label(), "conversation_history");
    assert!(RegionRole::AgentStatus.is_agent());
    assert!(!RegionRole::UserMessage.is_agent());
    assert_eq!(ConversationalRole::NonConversation.label(), "non_conversation");
}

#[test]
fn source_refs_name_the_text_without_holding_it() {
    let r = source_ref(EvidenceSourceKind::OcrSpan, "span-9", "Hello  World");
    assert_eq!(r.source_record_id, "span-9");
    assert_eq!(r.source_text_reference, "ocr_span:span-9:text");
    assert_eq!(r.text_hash, "8d6793d724c2d904");
    assert_eq!(span_text_hash("hello world"), r.text_hash);
}

#[test]
fn control_hints_and_privacy_blocks_are_screened() {
    assert!(is_categorical_control_hint("AXButton? no: axbutton"));
    assert!(is_categorical_control_hint("primary button here"));
    assert!(!is_categorical_control_hint("user_message"));
    assert!(is_privacy_blocked("Privacy: SENSITIVE"));
    assert!(!is_privacy_blocked("normal"));
}

#[test]
fn identities_ignore_case_and_surrounding_space() {
    assert_eq!(normalized_identity(Some("  Codex App ")), Some("codex app".to_string()));
    assert_eq!(normalized_identity(Some(" \t ")), None);
    assert_eq!(normalized_identity(None), None);
}

#[test]
fn summary_slugs_name_known_tasks_and_default_the_object() {
    assert_eq!(
        smalltalk_island::turn::task_summary_slug(Some("island_capture_button"), "investigation"),
        "capture_button_investigation"
    );
    assert_eq!(
        smalltalk_island::turn::task_summary_slug(Some("continue_card_copy"), "implementation"),
        "continue_card_copy_update"
    );
    assert_eq!(
        smalltalk_island::turn::task_summary_slug(None, "verification"),
        "current_task_verification"
    );
}

#[test]
fn salient_keys_fall_back_to_none_and_the_frame() {
    assert_eq!(
        smalltalk_island::turn::salient_identity_key(Some("s-1"), Some("hash"), "f-1"),
        "s-1|hash"
    );
    assert_eq!(
        smalltalk_island::turn::salient_identity_key(None, None, "f-1"),
        "none|f-1"
    );
}

#[test]
fn goal_ineligibility_checks_region_then_author_then_surface() {
    assert_eq!(
        user_goal_ineligibility(RegionRole::Control, ConversationalRole::User, "window", "FrameOwned"),
        Some("categorical_control_ineligible")
    );
    assert_eq!(
        user_goal_ineligibility(RegionRole::Composer, ConversationalRole::User, "window", "FrameOwned"),
        Some("non_authored_region_ineligible")
    );
    assert_eq!(
        user_goal_ineligibility(
            RegionRole::UserMessage,
            ConversationalRole::AssistantOrAgent,
            "window",
            "FrameOwned"
        ),
        Some("not_user_authored")
    );
    assert_eq!(
        user_goal_ineligibility(
            RegionRole::UserMessage,
            ConversationalRole::User,
            "background_display",
            "FrameOwned"
        ),
        Some("surface_ownership_ineligible")
    );
    assert_eq!(
        user_goal_ineligibility(
            RegionRole::UserMessage,
            ConversationalRole::User,
            "window",
            "DisplayOnlyUnattributed"
        ),
        Some("surface_ownership_ineligible")
    );
    assert_eq!(
        user_goal_ineligibility(RegionRole::UserMessage, ConversationalRole::User, "window", "FrameOwned"),
        None
    );
}

#[test]
fn typing_surface_matches_by_ids_first_then_names() {
    let typed = TypingSurface {
        app_bundle_id: Some("com.example.chat".to_string()),
        app_name: Some("Chat".to_string()),
        window_id: Some(7),
        window_title: Some("Thread".to_string()),
    };
    assert!(typing_surface_matches(&typed, Some("com.example.chat"), None, Some(7), None));
    assert!(!typing_surface_matches(&typed, Some("com.example.mail"), Some("Chat"), Some(7), None));
    assert!(typing_surface_matches(&typed, Some("  "), Some(" chat "), None, Some("THREAD")));
    assert!(!typing_surface_matches(&typed, None, Some("Chat"), Some(8), Some("Thread")));
    let unnamed = TypingSurface::default();
    assert!(!typing_surface_matches(&unnamed, None, None, None, None));
}

#[test]
fn geometry_candidates_exclude_controls_and_foreign_surfaces() {
    let none: Vec<String> = Vec::new();
    assert!(user_goal_geometry_candidate_is_eligible("window", "FrameOwned", &none, &none, RegionRole::Unknown));
    assert!(!user_goal_geometry_candidate_is_eligible("window", "FrameOwned", &none, &none, RegionRole::UserMessage));
    assert!(!user_goal_geometry_candidate_is_eligible(
        "background_display",
        "FrameOwned",
        &none,
        &none,
        RegionRole::Unknown
    ));
    assert!(!user_goal_geometry_candidate_is_eligible(
        "window",
        "FrameOwned",
        &vec!["AXButton".to_string()],
        &none,
        RegionRole::Unknown
    ));
    // The hint " button" needs the space that joining puts between codes.
    assert!(!user_goal_geometry_candidate_is_eligible(
        "window",
        "FrameOwned",
        &vec!["primary".to_string()],
        &vec!["Button".to_string()],
        RegionRole::Unknown
    ));
    assert_eq!(join_with(&vec!["a".to_string(), "b".to_string()], ", "), "a, b");
    assert_eq!(join_with(&Vec::new(), ", "), "");
}

#[test]
fn semantic_text_keeps_each_sample_once() {
    assert_eq!(selection_semantic_text(Some("goal"), Some("state")), "goal\nstate");
    assert_eq!(selection_semantic_text(Some("same"), Some("same")), "same");
    assert_eq!(selection_semantic_text(None, Some("state")), "state");
    assert_eq!(selection_semantic_text(None, None), "");
}

#[test]
fn spans_match_the_surface_where_both_sides_know_it() {
    assert!(span_matches_context_surface(Some("com.app"), Some(3), Some("com.app"), Some("App"), Some(3)));
    assert!(!span_matches_context_surface(Some("App"), None, Some("com.app"), Some("App"), None));
    assert!(span_matches_context_surface(Some("App"), None, None, Some("App"), None));
    assert!(!span_matches_context_surface(None, Some(3), None, None, Some(4)));
    assert!(span_matches_context_surface(None, None, Some("com.app"), None, Some(4)));
}

#[test]
fn control_hints_classify_spans_as_controls_that_are_never_goals() {
    for hint in [
        "AXButton AXPress",
        "AXMenuItem AXPress",
        "approval_chip AXButton",
        "composer_placeholder AXButton",
        "notification_action AXButton",
        "model_picker AXPopUpButton",
    ] {
        let lower = hint.to_ascii_lowercase();
        let role = classify_role(SurfaceFamily::AgentChat, true, &lower, "", false);
        assert_eq!(role.region_role, RegionRole::Control, "{hint}");
        assert_eq!(role.conversational_role, ConversationalRole::NonConversation);
        assert_eq!(
            user_goal_ineligibility(role.region_role, ConversationalRole::User, "active_window", "ActiveWindowOwned"),
            Some("categorical_control_ineligible")
        );
    }
}

#[test]
fn roles_follow_structure_then_surface_adapters() {
    let chat = |hint: &str| classify_role(SurfaceFamily::AgentChat, false, hint, "", false);
    assert_eq!(chat("ax-user message").region_role, RegionRole::UserMessage);
    assert_eq!(chat("ax-user message").region_confidence_hundredths, 94);
    assert_eq!(chat("ax-agent").region_role, RegionRole::AgentMessage);
    assert_eq!(
        classify_role(SurfaceFamily::AgentChat, true, "ax-agent", "", false).region_role,
        RegionRole::AgentStatus
    );
    assert_eq!(chat("ax-prior ax-user").region_role, RegionRole::ConversationHistory);
    assert_eq!(chat("textarea").region_role, RegionRole::Unknown);
    assert_eq!(
        classify_role(SurfaceFamily::AgentChat, false, "textarea", "", true).conversational_role,
        ConversationalRole::User
    );
    assert_eq!(
        classify_role(SurfaceFamily::Terminal, false, "command line", "", false).region_role,
        RegionRole::TerminalInput
    );
    let output = classify_role(SurfaceFamily::Terminal, false, "scrollback", "", false);
    assert_eq!(output.region_role, RegionRole::TerminalOutput);
    assert_eq!(output.reason, "terminal_adapter_output");
    assert_eq!(
        classify_role(SurfaceFamily::Editor, false, "ax-user", "", false).region_role,
        RegionRole::EditorContent
    );
    assert_eq!(
        classify_role(SurfaceFamily::Other, false, "", "tool_output", false).region_role,
        RegionRole::ToolOutput
    );
    let unknown = classify_role(SurfaceFamily::Other, false, "ax-user", "", false);
    assert_eq!(unknown.region_role, RegionRole::Unknown);
    assert_eq!((unknown.region_confidence_hundredths, unknown.speaker_confidence_hundredths), (28, 20));
}

#[test]
fn rejections_name_the_first_reason_that_applies() {
    let reject = |region, role, at, latest, low| {
        rejection_reason(region, role, "active_window", "ActiveWindowOwned", at, latest, low)
    };
    assert_eq!(
        reject(RegionRole::Sidebar, ConversationalRole::NonConversation, 5, None, false),
        "non_authored_region_ineligible"
    );
    assert_eq!(
        reject(RegionRole::AgentMessage, ConversationalRole::AssistantOrAgent, 5, None, false),
        "not_user_authored"
    );
    assert_eq!(
        reject(RegionRole::TerminalOutput, ConversationalRole::User, 5, None, false),
        "unrelated_terminal_pane"
    );
    assert_eq!(
        reject(RegionRole::ConversationHistory, ConversationalRole::User, 5, None, false),
        "prior_conversation_context"
    );
    assert_eq!(
        reject(RegionRole::UserMessage, ConversationalRole::User, 5, Some(9), true),
        "older_than_latest_user_turn"
    );
    assert_eq!(
        reject(RegionRole::UserMessage, ConversationalRole::User, 9, Some(9), true),
        "role_confidence_below_threshold"
    );
    assert_eq!(
        reject(RegionRole::UserMessage, ConversationalRole::User, 9, None, false),
        "not_salient_for_latest_turn"
    );
}

#[test]
fn one_blocked_span_blocks_the_turn() {
    assert!(!any_privacy_blocked(&Vec::new()));
    assert!(!any_privacy_blocked(&vec![None, Some("normal".to_string())]));
    assert!(any_privacy_blocked(&vec![
        Some("normal".to_string()),
        None,
        Some("Excluded by policy".to_string()),
    ]));
}

#[test]
fn a_streaming_event_shows_the_agent_at_work() {
    assert!(!has_agent_status_event(&Vec::new()));
    assert!(!has_agent_status_event(&vec!["key_down".to_string()]));
    assert!(has_agent_status_event(&vec!["key_down".to_string(), "AX_Value_Changed".to_string()]));
}
