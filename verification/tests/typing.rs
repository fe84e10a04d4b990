use smalltalk_island::evidence::TypingSurface;
use smalltalk_island::typing::{
    recovered_typing_candidate, stored_typing_candidates, TypingCandidate, TypingFrame,
};

fn frame() -> TypingFrame {
    TypingFrame {
        observed_at_ms: 100_000,
        bundle_id: Some("com.example.agent".to_string()),
        app_name: Some("Agent".to_string()),
        window_id: Some(42),
        window_title: Some("Agent".to_string()),
        previous_frame_id: Some("41".to_string()),
        trigger_pre_frame_id: None,
    }
}

fn burst(id: &str, ended: i64, window: i64, pre: Option<&str>) -> TypingCandidate {
    TypingCandidate {
        id: id.to_string(),
        ended_at_ms: ended,
        pre_frame_id: pre.map(|p| p.to_string()),
        surface: TypingSurface {
            app_bundle_id: Some("com.example.agent".to_string()),
            app_name: Some("Agent".to_string()),
            window_id: Some(window),
            window_title: None,
        },
    }
}

#[test]
fn stored_bursts_count_within_a_minute_on_the_frames_window() {
    let cands = vec![
        burst("other-window", 99_000, 99, None),
        burst("too-old", 39_999, 42, None),
        burst("after-the-frame", 100_001, 42, None),
        burst("typed-here", 98_000, 42, None),
        burst("a-minute-before", 40_000, 42, None),
    ];
    assert_eq!(stored_typing_candidates(&cands, &frame()), vec![3, 4]);
}

#[test]
fn legacy_typing_never_transfers_across_window_or_from_ambiguous_rows() {
    // Another window never transfers.
    let cands = vec![burst("other-window", 99_500, 99, Some("41"))];
    assert_eq!(recovered_typing_candidate(&cands, &frame()), None);
    // Two bursts that fit recover neither.
    let cands = vec![
        burst("first", 99_000, 42, None),
        burst("second", 99_500, 42, None),
    ];
    assert_eq!(recovered_typing_candidate(&cands, &frame()), None);
    // One that fits is recovered: close to the frame, or from its
    // direct predecessor however long before.
    let cands = vec![burst("late", 90_000, 42, None), burst("close", 98_000, 42, None)];
    assert_eq!(recovered_typing_candidate(&cands, &frame()), Some(1));
    let cands = vec![burst("from-predecessor", 50_000, 42, Some("41"))];
    assert_eq!(recovered_typing_candidate(&cands, &frame()), Some(0));
}
