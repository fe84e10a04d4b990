use smalltalk_island::relation::{relation_to_prior, word_set_of, wording_overlaps, PriorTurnSummary};
use smalltalk_island::turn::TaskExecutionState;

fn prior(goal: &str, state: TaskExecutionState) -> PriorTurnSummary {
    PriorTurnSummary {
        latest_user_goal_summary: Some(goal.to_string()),
        execution_state: state,
    }
}

#[test]
fn words_are_distinct_lowercase_and_longer_than_three_bytes() {
    assert_eq!(
        word_set_of("Fix the Parser, then fix the parser-tests: run it!"),
        vec!["parser".to_string(), "then".to_string(), "tests".to_string()]
    );
    assert!(word_set_of("a an the").is_empty());
}

#[test]
fn overlap_is_compared_against_the_smaller_word_set() {
    // Shared {parser, tests} out of the smaller set {parser, tests, flaky}: 2/3 >= 0.55.
    assert!(wording_overlaps(
        "why are parser tests flaky",
        "Fix the parser tests for the release build"
    ));
    // Shared {parser} out of {parser, release, notes}: 1/3 < 0.55.
    assert!(!wording_overlaps("parser release notes", "parser grammar cleanup"));
    assert!(!wording_overlaps("", "parser grammar cleanup"));
}

#[test]
fn relation_labels_follow_the_cues_in_order() {
    let open = prior("Implement the export dialog", TaskExecutionState::Active);
    let done = prior("Implement the export dialog", TaskExecutionState::Completed);
    assert_eq!(relation_to_prior(Some("anything"), None, false), "new_task");
    assert_eq!(relation_to_prior(Some("anything"), Some(&open), true), "continuation");
    assert_eq!(
        relation_to_prior(Some("Actually, use CSV instead"), Some(&open), false),
        "correction"
    );
    assert_eq!(
        relation_to_prior(Some("Can you explain the retry logic?"), Some(&open), false),
        "clarification"
    );
    assert_eq!(
        relation_to_prior(Some("export dialog implement"), Some(&open), false),
        "clarification"
    );
    assert_eq!(
        relation_to_prior(Some("Run the tests in the terminal"), Some(&open), false),
        "child_support_step"
    );
    assert_eq!(
        relation_to_prior(Some("Write release notes"), Some(&open), false),
        "supersedes"
    );
    assert_eq!(
        relation_to_prior(Some("Write release notes"), Some(&done), false),
        "new_task"
    );
    assert_eq!(relation_to_prior(None, Some(&done), false), "new_task");
}
