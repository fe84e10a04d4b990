//! Field rules of the task-truth evidence verifier: which fields name the
//! task, which lifecycle values a field may take, and which next actions are
//! too generic, or unsafe or invented, to be shown.
use vstd::prelude::*;
use crate::text::{
    ascii_lower, ascii_lowercase, contains, starts_with, str_contains, str_eq, str_starts_with,
    str_trim, trim,
};

verus! {

/// The fields that name the task itself.
pub open spec fn task_identity_field(field: Seq<char>) -> bool {
    field == "likely_primary_task"@ || field == "task_object"@ || field == "current_subtask"@
}

/// Whether a field names the task itself.
pub fn is_task_identity_field(field: &str) -> (b: bool)
    ensures
        b == task_identity_field(field@),
{
    str_eq(field, "likely_primary_task") || str_eq(field, "task_object") || str_eq(
        field,
        "current_subtask",
    )
}

/// The execution states a snapshot may state.
pub open spec fn execution_state_value(v: Seq<char>) -> bool {
    ||| v == "active"@
    ||| v == "composing"@
    ||| v == "editing"@
    ||| v == "reviewing"@
    ||| v == "waiting"@
    ||| v == "debugging"@
    ||| v == "searching"@
    ||| v == "comparing"@
    ||| v == "blocked"@
    ||| v == "interrupted"@
    ||| v == "suspended"@
    ||| v == "completed"@
    ||| v == "superseded"@
    ||| v == "idle_after_progress"@
    ||| v == "unclear"@
}

/// The actors a snapshot may name as acting now.
pub open spec fn actor_value(v: Seq<char>) -> bool {
    v == "user"@ || v == "assistant_or_agent"@ || v == "application"@ || v == "unknown"@
}

/// Who a snapshot may say the task waits on.
pub open spec fn waiting_value(v: Seq<char>) -> bool {
    ||| v == "user"@
    ||| v == "assistant_or_agent"@
    ||| v == "application"@
    ||| v == "external"@
    ||| v == "nothing"@
    ||| v == "unknown"@
}

/// Lifecycle fields take only their own values; other fields are free.
pub open spec fn lifecycle_allowed(field: Seq<char>, value: Seq<char>) -> bool {
    if field == "execution_state"@ {
        execution_state_value(value)
    } else if field == "current_actor"@ {
        actor_value(value)
    } else if field == "waiting_on"@ {
        waiting_value(value)
    } else {
        true
    }
}

/// Whether a value is allowed for a field.
pub fn lifecycle_value_allowed(field: &str, value: &str) -> (b: bool)
    ensures
        b == lifecycle_allowed(field@, value@),
{
    if str_eq(field, "execution_state") {
        str_eq(value, "active") || str_eq(value, "composing") || str_eq(value, "editing")
            || str_eq(value, "reviewing") || str_eq(value, "waiting") || str_eq(value, "debugging")
            || str_eq(value, "searching") || str_eq(value, "comparing") || str_eq(value, "blocked")
            || str_eq(value, "interrupted") || str_eq(value, "suspended") || str_eq(
            value,
            "completed",
        ) || str_eq(value, "superseded") || str_eq(value, "idle_after_progress") || str_eq(
            value,
            "unclear",
        )
    } else if str_eq(field, "current_actor") {
        str_eq(value, "user") || str_eq(value, "assistant_or_agent") || str_eq(value, "application")
            || str_eq(value, "unknown")
    } else if str_eq(field, "waiting_on") {
        str_eq(value, "user") || str_eq(value, "assistant_or_agent") || str_eq(value, "application")
            || str_eq(value, "external") || str_eq(value, "nothing") || str_eq(value, "unknown")
    } else {
        true
    }
}

/// The number of bytes a character takes in UTF-8.
pub open spec fn char_utf8_len(c: char) -> nat {
    if (c as u32) < 0x80 {
        1
    } else if (c as u32) < 0x800 {
        2
    } else if (c as u32) < 0x10000 {
        3
    } else {
        4
    }
}

/// The number of bytes a text takes in UTF-8 (`str::len`).
pub open spec fn utf8_len(s: Seq<char>) -> nat
    decreases s.len(),
{
    if s.len() == 0 {
        0
    } else {
        utf8_len(s.drop_last()) + char_utf8_len(s.last())
    }
}

/// A text is at least as long in UTF-8 as each of its prefixes.
proof fn lemma_utf8_len_prefix(s: Seq<char>, i: int)
    requires
        0 <= i <= s.len(),
    ensures
        utf8_len(s.take(i)) <= utf8_len(s),
    decreases s.len() - i,
{
    if i < s.len() {
        lemma_utf8_len_prefix(s, i + 1);
        assert(s.take(i + 1).drop_last() =~= s.take(i));
    } else {
        assert(s.take(i) =~= s);
    }
}

/// Whether characters take at most `limit` bytes in UTF-8.
pub fn utf8_len_at_most(v: &Vec<char>, limit: usize) -> (b: bool)
    ensures
        b == (utf8_len(v@) <= limit),
{
    let mut acc: u128 = 0;
    let mut i: usize = 0;
    assert(v@.take(0) =~= Seq::<char>::empty());
    while i < v.len()
        invariant
            i <= v@.len(),
            acc == utf8_len(v@.take(i as int)),
            acc <= limit,
        decreases v.len() - i,
    {
        let code = v[i] as u32;
        let width: u128 = if code < 0x80 {
            1
        } else if code < 0x800 {
            2
        } else if code < 0x10000 {
            3
        } else {
            4
        };
        assert(v@.take(i as int + 1).drop_last() =~= v@.take(i as int));
        acc = acc + width;
        i = i + 1;
        if acc > limit as u128 {
            proof {
                lemma_utf8_len_prefix(v@, i as int);
            }
            return false;
        }
    }
    assert(v@.take(i as int) =~= v@);
    true
}

/// Whether a text takes fewer than eight bytes in UTF-8.
fn utf8_shorter_than_eight(s: &str) -> (b: bool)
    ensures
        b == (utf8_len(s@) < 8),
{
    utf8_len_at_most(&crate::text::chars_of(s), 7)
}

/// A next action trimmed and folded to ASCII lower case.
pub open spec fn normalized_action(value: Seq<char>) -> Seq<char> {
    ascii_lower(trim(value))
}

/// A next action too generic to be shown: shorter than eight bytes, or a
/// stock phrase.
pub open spec fn generic_action(value: Seq<char>) -> bool {
    let n = normalized_action(value);
    ||| utf8_len(n) < 8
    ||| n == "continue"@
    ||| n == "keep going"@
    ||| n == "finish it"@
    ||| n == "review"@
    ||| n == "try again"@
    ||| n == "proceed"@
}

/// Whether a next action is too generic to be shown.
pub fn generic_next_action(value: &str) -> (b: bool)
    ensures
        b == generic_action(value@),
{
    let trimmed = str_trim(value);
    let n = ascii_lowercase(trimmed.as_str());
    let s = n.as_str();
    utf8_shorter_than_eight(s) || str_eq(s, "continue") || str_eq(s, "keep going") || str_eq(
        s,
        "finish it",
    ) || str_eq(s, "review") || str_eq(s, "try again") || str_eq(s, "proceed")
}

/// The commands a next action may not start with.
pub open spec fn destructive_start(n: Seq<char>) -> bool {
    ||| starts_with(n, "delete "@)
    ||| starts_with(n, "erase "@)
    ||| starts_with(n, "drop "@)
    ||| starts_with(n, "overwrite "@)
    ||| starts_with(n, "reset "@)
    ||| starts_with(n, "remove "@)
    ||| starts_with(n, "send "@)
    ||| starts_with(n, "submit "@)
    ||| starts_with(n, "post "@)
    ||| starts_with(n, "publish "@)
    ||| starts_with(n, "force push "@)
    ||| starts_with(n, "git reset "@)
    ||| starts_with(n, "rm "@)
    ||| starts_with(n, "sudo "@)
}

/// The locators a next action may not hold.
pub open spec fn holds_locator(n: Seq<char>) -> bool {
    ||| contains(n, "http://"@)
    ||| contains(n, "https://"@)
    ||| contains(n, "file://"@)
    ||| contains(n, "../"@)
    ||| contains(n, "~/"@)
}

/// A next action that is unsafe or invented: it starts with a destructive
/// or sending command, or holds a URL or a path.
pub open spec fn unsafe_action(value: Seq<char>) -> bool {
    destructive_start(normalized_action(value)) || holds_locator(normalized_action(value))
}

/// Whether a next action is unsafe or invented.
pub fn unsafe_or_invented_next_action(value: &str) -> (b: bool)
    ensures
        b == unsafe_action(value@),
{
    let trimmed = str_trim(value);
    let n = ascii_lowercase(trimmed.as_str());
    let s = n.as_str();
    let destructive = str_starts_with(s, "delete ") || str_starts_with(s, "erase ")
        || str_starts_with(s, "drop ") || str_starts_with(s, "overwrite ") || str_starts_with(
        s,
        "reset ",
    ) || str_starts_with(s, "remove ") || str_starts_with(s, "send ") || str_starts_with(
        s,
        "submit ",
    ) || str_starts_with(s, "post ") || str_starts_with(s, "publish ") || str_starts_with(
        s,
        "force push ",
    ) || str_starts_with(s, "git reset ") || str_starts_with(s, "rm ") || str_starts_with(
        s,
        "sudo ",
    );
    destructive || str_contains(s, "http://") || str_contains(s, "https://") || str_contains(
        s,
        "file://",
    ) || str_contains(s, "../") || str_contains(s, "~/")
}

} // verus!
