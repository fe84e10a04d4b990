use smalltalk_island::evidence::{
    source_ref, ConversationalRole, EvidenceSourceKind, EvidenceSourceRef, RegionRole, SurfaceFamily,
};
use smalltalk_island::group::{group_span, pane_id, reading_orders, GroupFrame, GroupMember, GroupPrimary};
use smalltalk_island::turn::stable_hash;

fn frame() -> GroupFrame {
    GroupFrame {
        frame_id: "7".to_string(),
        family: SurfaceFamily::AgentChat,
        has_agent_status_event: false,
        window_id: Some(42),
        bundle_id: Some("com.example.agent".to_string()),
        app_name: Some("Agent".to_string()),
    }
}

fn primary(source: EvidenceSourceRef, hint: &str) -> GroupPrimary {
    GroupPrimary {
        source,
        structural_hint: hint.to_string(),
        quality_flags: vec!["ocr_low_contrast".to_string()],
        semantic_role: None,
        focused: false,
        has_parent: false,
        placed: true,
        owner_window_id: None,
        owner_app_id: None,
    }
}

fn member(source: EvidenceSourceRef, hint: &str, flags: &[&str]) -> GroupMember {
    GroupMember {
        source,
        structural_hint: hint.to_string(),
        quality_flags: flags.iter().map(|f| f.to_string()).collect(),
    }
}

#[test]
fn a_lone_span_is_identified_by_its_source() {
    let text = "Investigate the Capture control";
    let source = source_ref(EvidenceSourceKind::OcrSpan, "ocr-1", text);
    let hash = source.text_hash.clone();
    let span = group_span(&frame(), &primary(source.clone(), "static_text"), &Vec::new());
    let material = format!("smalltalk.task_turn_evidence.v2|7|ocr_span:ocr-1|{hash}");
    assert_eq!(span.span_id, format!("turn-span-{}", stable_hash(material.as_bytes())));
    assert_eq!(span.contributing_sources, vec![source]);
    assert_eq!(span.quality_flags, vec!["ocr_low_contrast".to_string()]);
    assert_eq!(span.order_confidence_hundredths, 74);
    assert_eq!(span.owner_window_id, Some(42));
    assert_eq!(span.owner_app_id, Some("com.example.agent".to_string()));
}

#[test]
fn merged_sources_are_sorted_once_each_and_flagged() {
    let text = "Verification passed";
    let ocr = source_ref(EvidenceSourceKind::OcrSpan, "ocr-9", text);
    let ax_b = source_ref(EvidenceSourceKind::AccessibilityNode, "ax-b", text);
    let ax_a = source_ref(EvidenceSourceKind::AccessibilityNode, "ax-a", text);
    let fallback = source_ref(EvidenceSourceKind::FlattenedTextFallback, "frame:7", text);
    let contributors = vec![
        member(ax_b.clone(), "AXStaticText", &["ocr_low_contrast", "clipped"]),
        member(ax_a.clone(), "", &["clipped"]),
        member(ocr.clone(), "", &[]),
    ];
    let span = group_span(&frame(), &primary(fallback.clone(), "static_text"), &contributors);
    assert_eq!(span.contributing_sources, vec![ax_a, ax_b, ocr, fallback.clone()]);
    let hash = fallback.text_hash.clone();
    let material = format!(
        "smalltalk.task_turn_evidence.v2|7|accessibility_node:ax-a|accessibility_node:ax-b|ocr_span:ocr-9|flattened_text_fallback:frame:7|{hash}"
    );
    assert_eq!(span.span_id, format!("turn-span-{}", stable_hash(material.as_bytes())));
    assert_eq!(
        span.quality_flags,
        vec![
            "ocr_low_contrast".to_string(),
            "clipped".to_string(),
            "merged_duplicate_provenance".to_string(),
            "flattened_text_fallback".to_string(),
        ]
    );
}

#[test]
fn order_confidence_follows_what_places_the_span() {
    let source = source_ref(EvidenceSourceKind::AccessibilityNode, "ax-1", "Send");
    let mut p = primary(source, "AXButton");
    p.has_parent = true;
    assert_eq!(group_span(&frame(), &p, &Vec::new()).order_confidence_hundredths, 90);
    p.has_parent = false;
    p.placed = false;
    assert_eq!(group_span(&frame(), &p, &Vec::new()).order_confidence_hundredths, 62);
    p.source = source_ref(EvidenceSourceKind::ContentUnit, "cu-1", "Send");
    assert_eq!(group_span(&frame(), &p, &Vec::new()).order_confidence_hundredths, 30);
}

#[test]
fn the_hints_of_every_member_type_the_span() {
    let source = source_ref(EvidenceSourceKind::OcrSpan, "ocr-2", "Send");
    let contributors = vec![member(
        source_ref(EvidenceSourceKind::AccessibilityNode, "ax-2", "Send"),
        "AXButton",
        &[],
    )];
    let span = group_span(&frame(), &primary(source, "static_text"), &contributors);
    assert_eq!(span.roles.region_role, RegionRole::Control);
    assert_eq!(span.roles.conversational_role, ConversationalRole::NonConversation);
    assert_eq!(span.roles.reason, "categorical_control_ineligible");
}

#[test]
fn spans_are_numbered_overall_and_within_their_pane() {
    let panes: Vec<String> = ["nav", "chat", "chat", "nav", "terminal", "chat"]
        .iter()
        .map(|p| p.to_string())
        .collect();
    assert_eq!(
        reading_orders(&panes),
        vec![(0, 0), (1, 0), (2, 1), (3, 1), (4, 0), (5, 2)]
    );
    assert!(reading_orders(&Vec::new()).is_empty());
}

#[test]
fn panes_are_named_by_the_boundaries_to_their_left() {
    assert_eq!(pane_id(Some(0)), "pane-00");
    assert_eq!(pane_id(Some(3)), "pane-03");
    assert_eq!(pane_id(Some(12)), "pane-12");
    assert_eq!(pane_id(Some(104)), "pane-104");
    assert_eq!(pane_id(None), "pane-unknown");
}

#[test]
fn the_same_sources_in_another_order_give_the_same_span() {
    let text = "Verification passed";
    let ocr = source_ref(EvidenceSourceKind::OcrSpan, "ocr-9", text);
    let ax = source_ref(EvidenceSourceKind::AccessibilityNode, "ax-a", text);
    let first = group_span(
        &frame(),
        &primary(ocr.clone(), "static_text"),
        &vec![member(ax.clone(), "", &[])],
    );
    let second = group_span(
        &frame(),
        &primary(ax.clone(), "static_text"),
        &vec![member(ocr.clone(), "", &[]), member(ax.clone(), "", &[])],
    );
    assert_eq!(first.contributing_sources, second.contributing_sources);
    assert_eq!(first.span_id, second.span_id);
}
