use smalltalk_island::field_rules::{
    generic_next_action, is_task_identity_field, lifecycle_value_allowed,
    unsafe_or_invented_next_action,
};

#[test]
fn task_identity_fields_are_the_task_names() {
    assert!(is_task_identity_field("likely_primary_task"));
    assert!(is_task_identity_field("task_object"));
    assert!(is_task_identity_field("current_subtask"));
    assert!(!is_task_identity_field("next_action"));
    assert!(!is_task_identity_field("Task_object"));
}

#[test]
fn lifecycle_fields_take_only_their_values() {
    assert!(lifecycle_value_allowed("execution_state", "idle_after_progress"));
    assert!(!lifecycle_value_allowed("execution_state", "done"));
    assert!(lifecycle_value_allowed("current_actor", "application"));
    assert!(!lifecycle_value_allowed("current_actor", "external"));
    assert!(lifecycle_value_allowed("waiting_on", "nothing"));
    assert!(!lifecycle_value_allowed("waiting_on", "active"));
    assert!(lifecycle_value_allowed("task_object", "anything at all"));
}

#[test]
fn generic_next_actions_are_short_or_stock() {
    assert!(generic_next_action("  Continue  "));
    assert!(generic_next_action("KEEP GOING"));
    assert!(generic_next_action("fix it"));
    assert!(!generic_next_action("fix it now"));
    // Eight bytes in UTF-8 even though only four characters.
    assert!(!generic_next_action("éééé"));
    assert!(generic_next_action("ééé"));
    assert!(!generic_next_action("Rerun the failing parser test"));
}

#[test]
fn unsafe_next_actions_are_destructive_or_locators() {
    assert!(unsafe_or_invented_next_action("  Delete the old branch"));
    assert!(unsafe_or_invented_next_action("git reset --hard"));
    assert!(unsafe_or_invented_next_action("Open https://example.test/page"));
    assert!(unsafe_or_invented_next_action("Edit ../secrets.txt"));
    assert!(unsafe_or_invented_next_action("look in ~/notes"));
    assert!(!unsafe_or_invented_next_action("Deleted rows stay in the report"));
    assert!(!unsafe_or_invented_next_action("Rerun the failing parser test"));
}
