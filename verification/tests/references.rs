use smalltalk_island::references::{
    normalize_reference, reference_is_control, reference_is_historical_without_continuity,
    reference_is_private, reference_supports_user_authorship, EvidenceHandle, EvidencePacket,
    PacketAnchorFact, PacketDelta, PacketElement, PacketEvent, PacketKeyframe,
};

fn element(id: &str, frame: &str, control: bool, user: bool) -> PacketElement {
    PacketElement {
        element_id: id.to_string(),
        frame_id: frame.to_string(),
        text_reference: Some(format!("text-{id}")),
        control_role: control,
        task_eligible: true,
        user_authored: user,
        has_causal_refs: false,
    }
}

fn packet() -> EvidencePacket {
    EvidencePacket {
        current_frame_id: "f2".to_string(),
        canonical_elements: vec![
            element("element-user", "f2", false, true),
            element("element-button", "f2", true, false),
            element("element-old", "f1", false, false),
            element("element-private", "f3", false, false),
        ],
        causal_events: vec![PacketEvent {
            event_id: "event-enter".to_string(),
            frame_id: "f2".to_string(),
            committed: Some(true),
            source: "typing".to_string(),
            causal_parent_ids: vec!["element-user".to_string()],
        }],
        semantic_keyframes: vec![
            PacketKeyframe { frame_id: "f2".to_string(), local_image_handle_hash: Some("img-2".to_string()), model_eligible: true },
            PacketKeyframe { frame_id: "f3".to_string(), local_image_handle_hash: None, model_eligible: false },
        ],
        frame_changes: vec![PacketDelta { delta_id: "delta-1".to_string(), frame_id: "f2".to_string() }],
        transition_ids: vec!["transition-1".to_string()],
        capture_trigger_ids: Vec::new(),
        return_anchor_facts: vec![PacketAnchorFact {
            record_id: "fact-1".to_string(),
            frame_id: None,
            content_hash: Some("hash-1".to_string()),
        }],
        previous_valid_snapshot_id: Some("snapshot-1".to_string()),
        prior_frame_ids: vec!["f1".to_string()],
    }
}

fn handle(kind: &str, id: &str, frame: Option<&str>, hash: Option<&str>) -> EvidenceHandle {
    EvidenceHandle {
        source_kind: kind.to_string(),
        record_id: id.to_string(),
        frame_id: frame.map(|f| f.to_string()),
        content_hash: hash.map(|h| h.to_string()),
    }
}

#[test]
fn references_take_the_frame_and_hash_of_their_record() {
    let p = packet();
    assert_eq!(
        normalize_reference(&p, None, &handle("canonical_element", "element-user", None, Some("stale"))),
        Some((handle("canonical_element", "element-user", Some("f2"), Some("text-element-user")), true))
    );
    assert_eq!(
        normalize_reference(&p, None, &handle("keyframe", "f2", Some("f2"), Some("  "))),
        Some((handle("keyframe", "f2", Some("f2"), Some("img-2")), true))
    );
    assert_eq!(
        normalize_reference(&p, None, &handle("causal_event", "event-enter", None, None)),
        Some((handle("causal_event", "event-enter", Some("f2"), None), false))
    );
    assert_eq!(
        normalize_reference(&p, None, &handle("return_anchor_fact", "fact-1", None, Some("hash-1"))),
        Some((handle("return_anchor_fact", "fact-1", None, Some("hash-1")), false))
    );
    assert_eq!(
        normalize_reference(&p, None, &handle("transition", "transition-1", Some("f9"), None)),
        Some((handle("transition", "transition-1", Some("f9"), None), false))
    );
    assert_eq!(
        normalize_reference(&p, Some("snapshot-1"), &handle("prior_snapshot", "snapshot-1", None, None)),
        Some((handle("prior_snapshot", "snapshot-1", None, None), false))
    );
    // A reference to another frame, an unknown record or an unknown kind matches nothing.
    assert_eq!(normalize_reference(&p, None, &handle("semantic_delta", "delta-1", Some("f1"), None)), None);
    assert_eq!(normalize_reference(&p, None, &handle("canonical_element", "missing", None, None)), None);
    assert_eq!(normalize_reference(&p, None, &handle("prior_snapshot", "snapshot-1", None, None)), None);
    assert_eq!(normalize_reference(&p, None, &handle("screenshot", "x", None, None)), None);
    assert_eq!(
        normalize_reference(&p, None, &handle("prior_thread_revision", "r1", None, Some("h"))),
        Some((handle("prior_thread_revision", "r1", None, Some("h")), false))
    );
}

#[test]
fn references_are_classified_by_the_record_they_name() {
    let p = packet();
    assert!(reference_is_private(&p, &handle("canonical_element", "element-private", None, None)));
    assert!(!reference_is_private(&p, &handle("canonical_element", "element-user", None, None)));
    assert!(reference_is_control(&p, &handle("canonical_element", "element-button", None, None)));
    assert!(!reference_is_control(&p, &handle("canonical_element", "element-user", None, None)));
    assert!(reference_is_historical_without_continuity(&p, &handle("canonical_element", "element-old", None, None)));
    assert!(!reference_is_historical_without_continuity(&p, &handle("canonical_element", "element-user", None, None)));
    assert!(reference_supports_user_authorship(&p, &handle("causal_event", "event-enter", None, None)));
    assert!(reference_supports_user_authorship(&p, &handle("canonical_element", "element-user", None, None)));
    assert!(!reference_supports_user_authorship(&p, &handle("canonical_element", "element-button", None, None)));
}
