use smalltalk_island::cloud::{
    apply_cloud_resume_to_snapshot, cloud_answer_text, cloud_output_path_to_remember,
    cloud_target_label, resume_point_label, CloudResumeResult, CloudTarget, NativeResumeCard,
    ResumeContinueFrom,
};
use smalltalk_island::island::SessionIslandSnapshot;

fn card() -> NativeResumeCard {
    NativeResumeCard {
        focus_now: "Local focus".to_string(),
        what_was_i_doing: "Local  detail\nline".to_string(),
        continue_from: ResumeContinueFrom {
            window_name: Some("Editor window".to_string()),
            app_name: Some("Editor".to_string()),
            ..Default::default()
        },
    }
}

fn target(title: &str) -> CloudTarget {
    CloudTarget {
        title: Some(title.to_string()),
        ..Default::default()
    }
}

#[test]
fn target_labels_take_the_first_text_offered() {
    let full = CloudTarget {
        line_anchor_quote: None,
        exact_visible_words: Some("  visible   words ".to_string()),
        exact_words: Some("exact".to_string()),
        title: Some("Title".to_string()),
        app: Some("App".to_string()),
    };
    assert_eq!(cloud_target_label(&full).as_deref(), Some("visible words"));
    let blank_first = CloudTarget {
        line_anchor_quote: Some("   ".to_string()),
        title: Some("Title".to_string()),
        ..Default::default()
    };
    assert_eq!(cloud_target_label(&blank_first), None);
    assert_eq!(cloud_target_label(&CloudTarget::default()), None);
    assert_eq!(resume_point_label(&card()).as_deref(), Some("Editor window"));
}

#[test]
fn split_cloud_targets_say_so() {
    let result = CloudResumeResult {
        source: "cloud".to_string(),
        model: Some("model-a".to_string()),
        decision: "ambiguous_current_focus_vs_prior_task".to_string(),
        warnings: vec!["  ".to_string(), "second\twarning".to_string()],
        current_focus: target("Inbox"),
        resume_target_if_returning: target("Report draft"),
        local_card: card(),
        ..Default::default()
    };
    let mut snapshot = SessionIslandSnapshot::ready();
    apply_cloud_resume_to_snapshot(&mut snapshot, &result);
    assert_eq!(snapshot.resume_source.as_deref(), Some("cloud"));
    assert_eq!(snapshot.resume_model.as_deref(), Some("model-a"));
    assert_eq!(snapshot.resume_warning.as_deref(), Some("second warning"));
    assert_eq!(
        snapshot.resume_headline.as_deref(),
        Some("Current focus differs from return target")
    );
    assert_eq!(
        snapshot.resume_detail.as_deref(),
        Some("Current focus: Inbox. Return target: Report draft.")
    );
    assert_eq!(snapshot.resume_point.as_deref(), Some("Report draft"));
}

#[test]
fn cloud_answer_wording_falls_back_to_the_local_card() {
    let result = CloudResumeResult {
        source: "cloud".to_string(),
        decision: "continue_prior_task".to_string(),
        answer: vec![("focus_now".to_string(), " Writing   the report ".to_string())],
        current_focus: target("Inbox"),
        resume_target_if_returning: target("Report draft"),
        local_card: card(),
        ..Default::default()
    };
    assert_eq!(
        cloud_answer_text(&result, "focus_now").as_deref(),
        Some("Writing the report")
    );
    assert_eq!(cloud_answer_text(&result, "what_was_i_doing"), None);
    let mut snapshot = SessionIslandSnapshot::ready();
    apply_cloud_resume_to_snapshot(&mut snapshot, &result);
    assert_eq!(snapshot.resume_headline.as_deref(), Some("Writing the report"));
    assert_eq!(snapshot.resume_detail.as_deref(), Some("Local detail line"));
    assert_eq!(snapshot.resume_point.as_deref(), Some("Report draft"));
}

#[test]
fn local_fallback_names_a_missing_key() {
    let keyed = CloudResumeResult {
        source: "local".to_string(),
        warnings: vec!["OPENAI_API_KEY is not set".to_string()],
        local_card: card(),
        ..Default::default()
    };
    let mut snapshot = SessionIslandSnapshot::ready();
    apply_cloud_resume_to_snapshot(&mut snapshot, &keyed);
    assert_eq!(snapshot.resume_headline.as_deref(), Some("OpenAI key missing"));
    assert_eq!(snapshot.resume_detail.as_deref(), Some("OPENAI_API_KEY is not set"));
    assert_eq!(snapshot.resume_point.as_deref(), Some("Editor window"));

    let offline = CloudResumeResult {
        source: "local".to_string(),
        local_card: card(),
        ..Default::default()
    };
    let mut snapshot = SessionIslandSnapshot::ready();
    apply_cloud_resume_to_snapshot(&mut snapshot, &offline);
    assert_eq!(snapshot.resume_headline.as_deref(), Some("OpenAI unavailable"));
    assert_eq!(snapshot.resume_detail.as_deref(), Some("Local detail line"));
    assert!(snapshot.resume_warning.is_none());
}

#[test]
fn only_real_output_paths_are_remembered() {
    let mut result = CloudResumeResult::default();
    assert_eq!(cloud_output_path_to_remember(&result), None);
    result.output_path = Some(" \n".to_string());
    assert_eq!(cloud_output_path_to_remember(&result), None);
    result.output_path = Some(" /tmp/out ".to_string());
    assert_eq!(cloud_output_path_to_remember(&result).as_deref(), Some(" /tmp/out "));
}
