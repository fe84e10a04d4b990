use smalltalk_island::contract::IslandContinueState;
use smalltalk_island::decision::{
    ContinueEvidencePreview, TaskTruthAtomicIdentityV1, TaskTruthPublicAnswerV1,
};
use smalltalk_island::island::{visual_cue_candidate, visual_cue_frame, SessionIslandSnapshot};
use smalltalk_island::turn::parse_i64;

fn snapshot_with_answer(session: Option<&str>, frame_id: Option<&str>) -> SessionIslandSnapshot {
    let mut state = IslandContinueState::error(0, None);
    state.semantic_answer = Some(TaskTruthPublicAnswerV1 {
        atomic_identity: TaskTruthAtomicIdentityV1 {
            session_id: session.map(str::to_string),
            ..Default::default()
        },
        evidence_preview: frame_id.map(|id| ContinueEvidencePreview {
            frame_id: id.to_string(),
            ..Default::default()
        }),
        ..Default::default()
    });
    let mut snapshot = SessionIslandSnapshot::ready();
    snapshot.island_continue_state = Some(state);
    snapshot
}

#[test]
fn visual_cue_frame_is_the_answers_preview_frame() {
    let snapshot = snapshot_with_answer(Some("session-a"), Some(" 42 "));
    assert_eq!(visual_cue_frame(&snapshot), Some(("session-a".to_string(), 42)));
    assert_eq!(
        visual_cue_frame(&snapshot_with_answer(None, Some("42"))),
        None
    );
    assert_eq!(
        visual_cue_frame(&snapshot_with_answer(Some("session-a"), Some("frame-42"))),
        None
    );
    assert_eq!(
        visual_cue_frame(&snapshot_with_answer(Some("session-a"), None)),
        None
    );
    assert_eq!(visual_cue_frame(&SessionIslandSnapshot::ready()), None);
}

#[test]
fn visual_cue_prefers_full_display_then_snapshot_of_the_same_session() {
    assert_eq!(
        visual_cue_candidate(
            "session-a",
            Some("session-a"),
            Some("normal"),
            Some(" /captures/full.jpg "),
            "/captures/snapshot.jpg",
        )
        .as_deref(),
        Some("/captures/full.jpg")
    );
    assert_eq!(
        visual_cue_candidate(
            "session-a",
            Some(" session-a "),
            Some("normal"),
            Some("  "),
            " /captures/snapshot.jpg",
        )
        .as_deref(),
        Some("/captures/snapshot.jpg")
    );
}

#[test]
fn visual_cue_rejects_other_sessions_and_private_frames() {
    let snapshot = "/captures/snapshot.jpg";
    assert!(visual_cue_candidate("session-a", Some("session-b"), Some("normal"), None, snapshot).is_none());
    assert!(visual_cue_candidate("session-a", Some("session-a"), Some("sensitive"), None, snapshot).is_none());
    assert!(visual_cue_candidate("session-a", Some("session-a"), None, None, snapshot).is_none());
    assert!(visual_cue_candidate("  ", Some("  "), Some("normal"), None, snapshot).is_none());
    assert!(visual_cue_candidate("session-a", None, Some("normal"), None, snapshot).is_none());
    assert!(visual_cue_candidate("session-a", Some("session-a"), Some("normal"), None, " ").is_none());
}

#[test]
fn integers_parse_like_std() {
    assert_eq!(parse_i64("42"), Some(42));
    assert_eq!(parse_i64("+7"), Some(7));
    assert_eq!(parse_i64("-9223372036854775808"), Some(i64::MIN));
    assert_eq!(parse_i64("9223372036854775808"), None);
    assert_eq!(parse_i64("-"), None);
    assert_eq!(parse_i64(""), None);
    assert_eq!(parse_i64("4 2"), None);
}
