//! Text rules of the current task turn: its typed labels, how a goal is
//! classified, when agent text reports completion, and the stable hashes
//! that identify public text without storing it.
use vstd::prelude::*;
use vstd::utf8::encode_utf8;
use crate::contract::concat;
use crate::copy::vec_contains_str;
use crate::digest::{hex_char, hex_digit};
use crate::text::{
    ascii_lower, ascii_lowercase, collapse_whitespace, copy_str, collapse_ws, contains, push_char,
    sort_dedup, sorted_unique, str_contains, str_eq, strs, push_string,
};

verus! {

/// The execution state of a task turn.
#[derive(Debug, Clone, Copy, PartialEq, Eq)]
pub enum TaskExecutionState {
    Active,
    Blocked,
    Completed,
    Superseded,
    Suspended,
    IdleAfterProgress,
    Unclear,
}

/// Who acts in a task turn.
#[derive(Debug, Clone, Copy, PartialEq, Eq)]
pub enum TaskTurnActor {
    User,
    AssistantOrAgent,
    Tool,
    System,
    Unknown,
}

/// Whom a task turn waits on.
#[derive(Debug, Clone, Copy, PartialEq, Eq)]
pub enum TaskTurnWaitingOn {
    /// Nobody: the label `none`.
    Nobody,
    User,
    Agent,
    External,
    Unknown,
}

/// How a task turn relates to the one before.
#[derive(Debug, Clone, Copy, PartialEq, Eq)]
pub enum TaskTurnRelation {
    NewTask,
    Continuation,
    Clarification,
    ChildSupportStep,
    Correction,
    Supersedes,
    Unknown,
}

/// The label of an execution state.
pub open spec fn execution_label(s: TaskExecutionState) -> Seq<char> {
    match s {
        TaskExecutionState::Active => "active"@,
        TaskExecutionState::Blocked => "blocked"@,
        TaskExecutionState::Completed => "completed"@,
        TaskExecutionState::Superseded => "superseded"@,
        TaskExecutionState::Suspended => "suspended"@,
        TaskExecutionState::IdleAfterProgress => "idle_after_progress"@,
        TaskExecutionState::Unclear => "unclear"@,
    }
}

/// The label of an actor.
pub open spec fn actor_label(a: TaskTurnActor) -> Seq<char> {
    match a {
        TaskTurnActor::User => "user"@,
        TaskTurnActor::AssistantOrAgent => "assistant_or_agent"@,
        TaskTurnActor::Tool => "tool"@,
        TaskTurnActor::System => "system"@,
        TaskTurnActor::Unknown => "unknown"@,
    }
}

/// The label of whom a turn waits on.
pub open spec fn waiting_label(w: TaskTurnWaitingOn) -> Seq<char> {
    match w {
        TaskTurnWaitingOn::Nobody => "none"@,
        TaskTurnWaitingOn::User => "user"@,
        TaskTurnWaitingOn::Agent => "agent"@,
        TaskTurnWaitingOn::External => "external"@,
        TaskTurnWaitingOn::Unknown => "unknown"@,
    }
}

/// The label of a relation.
pub open spec fn relation_label(r: TaskTurnRelation) -> Seq<char> {
    match r {
        TaskTurnRelation::NewTask => "new_task"@,
        TaskTurnRelation::Continuation => "continuation"@,
        TaskTurnRelation::Clarification => "clarification"@,
        TaskTurnRelation::ChildSupportStep => "child_support_step"@,
        TaskTurnRelation::Correction => "correction"@,
        TaskTurnRelation::Supersedes => "supersedes"@,
        TaskTurnRelation::Unknown => "unknown"@,
    }
}

impl TaskExecutionState {
    /// The label of this state.
    pub fn label(self) -> (s: &'static str)
        ensures
            s@ == execution_label(self),
    {
        match self {
            TaskExecutionState::Active => "active",
            TaskExecutionState::Blocked => "blocked",
            TaskExecutionState::Completed => "completed",
            TaskExecutionState::Superseded => "superseded",
            TaskExecutionState::Suspended => "suspended",
            TaskExecutionState::IdleAfterProgress => "idle_after_progress",
            TaskExecutionState::Unclear => "unclear",
        }
    }

    /// The state with the given label.
    pub fn parse(value: &str) -> (r: Result<Self, String>)
        ensures
            match r {
                Ok(s) => execution_label(s) == value@,
                Err(e) => {
                    &&& forall|s: TaskExecutionState| execution_label(s) != value@
                    &&& e@ == "invalid TaskExecutionState label: "@ + value@
                },
            },
    {
        let all = [
            TaskExecutionState::Active,
            TaskExecutionState::Blocked,
            TaskExecutionState::Completed,
            TaskExecutionState::Superseded,
            TaskExecutionState::Suspended,
            TaskExecutionState::IdleAfterProgress,
            TaskExecutionState::Unclear,
        ];
        let mut i: usize = 0;
        while i < 7
            invariant
                i <= 7,
                all@ == seq![
                    TaskExecutionState::Active,
                    TaskExecutionState::Blocked,
                    TaskExecutionState::Completed,
                    TaskExecutionState::Superseded,
                    TaskExecutionState::Suspended,
                    TaskExecutionState::IdleAfterProgress,
                    TaskExecutionState::Unclear,
                ],
                forall|k: int| 0 <= k < i ==> execution_label(#[trigger] all@[k]) != value@,
            decreases 7 - i,
        {
            if str_eq(all[i].label(), value) {
                return Ok(all[i]);
            }
            i = i + 1;
        }
        proof {
            assert forall|s: TaskExecutionState| execution_label(s) != value@ by {
                match s {
                    TaskExecutionState::Active => assert(all@[0] == s),
                    TaskExecutionState::Blocked => assert(all@[1] == s),
                    TaskExecutionState::Completed => assert(all@[2] == s),
                    TaskExecutionState::Superseded => assert(all@[3] == s),
                    TaskExecutionState::Suspended => assert(all@[4] == s),
                    TaskExecutionState::IdleAfterProgress => assert(all@[5] == s),
                    TaskExecutionState::Unclear => assert(all@[6] == s),
                }
            }
        }
        Err(concat("invalid TaskExecutionState label: ", value))
    }
}

impl TaskTurnActor {
    /// The label of this value.
    pub fn label(self) -> (s: &'static str)
        ensures
            s@ == actor_label(self),
    {
        match self {
            TaskTurnActor::User => "user",
            TaskTurnActor::AssistantOrAgent => "assistant_or_agent",
            TaskTurnActor::Tool => "tool",
            TaskTurnActor::System => "system",
            TaskTurnActor::Unknown => "unknown",
        }
    }

    /// The value with the given label.
    pub fn parse(value: &str) -> (r: Result<Self, String>)
        ensures
            match r {
                Ok(s) => actor_label(s) == value@,
                Err(e) => {
                    &&& forall|s: TaskTurnActor| actor_label(s) != value@
                    &&& e@ == "invalid TaskTurnActor label: "@ + value@
                },
            },
    {
        let all = [
            TaskTurnActor::User,
            TaskTurnActor::AssistantOrAgent,
            TaskTurnActor::Tool,
            TaskTurnActor::System,
            TaskTurnActor::Unknown,
        ];
        let mut i: usize = 0;
        while i < 5
            invariant
                i <= 5,
                all@ == seq![
                    TaskTurnActor::User,
                    TaskTurnActor::AssistantOrAgent,
                    TaskTurnActor::Tool,
                    TaskTurnActor::System,
                    TaskTurnActor::Unknown,
                ],
                forall|k: int| 0 <= k < i ==> actor_label(#[trigger] all@[k]) != value@,
            decreases 5 - i,
        {
            if str_eq(all[i].label(), value) {
                return Ok(all[i]);
            }
            i = i + 1;
        }
        proof {
            assert forall|s: TaskTurnActor| actor_label(s) != value@ by {
                match s {
                    TaskTurnActor::User => assert(all@[0] == s),
                    TaskTurnActor::AssistantOrAgent => assert(all@[1] == s),
                    TaskTurnActor::Tool => assert(all@[2] == s),
                    TaskTurnActor::System => assert(all@[3] == s),
                    TaskTurnActor::Unknown => assert(all@[4] == s),
                }
            }
        }
        Err(concat("invalid TaskTurnActor label: ", value))
    }
}

impl TaskTurnWaitingOn {
    /// The label of this value.
    pub fn label(self) -> (s: &'static str)
        ensures
            s@ == waiting_label(self),
    {
        match self {
            TaskTurnWaitingOn::Nobody => "none",
            TaskTurnWaitingOn::User => "user",
            TaskTurnWaitingOn::Agent => "agent",
            TaskTurnWaitingOn::External => "external",
            TaskTurnWaitingOn::Unknown => "unknown",
        }
    }

    /// The value with the given label.
    pub fn parse(value: &str) -> (r: Result<Self, String>)
        ensures
            match r {
                Ok(s) => waiting_label(s) == value@,
                Err(e) => {
                    &&& forall|s: TaskTurnWaitingOn| waiting_label(s) != value@
                    &&& e@ == "invalid TaskTurnWaitingOn label: "@ + value@
                },
            },
    {
        let all = [
            TaskTurnWaitingOn::Nobody,
            TaskTurnWaitingOn::User,
            TaskTurnWaitingOn::Agent,
            TaskTurnWaitingOn::External,
            TaskTurnWaitingOn::Unknown,
        ];
        let mut i: usize = 0;
        while i < 5
            invariant
                i <= 5,
                all@ == seq![
                    TaskTurnWaitingOn::Nobody,
                    TaskTurnWaitingOn::User,
                    TaskTurnWaitingOn::Agent,
                    TaskTurnWaitingOn::External,
                    TaskTurnWaitingOn::Unknown,
                ],
                forall|k: int| 0 <= k < i ==> waiting_label(#[trigger] all@[k]) != value@,
            decreases 5 - i,
        {
            if str_eq(all[i].label(), value) {
                return Ok(all[i]);
            }
            i = i + 1;
        }
        proof {
            assert forall|s: TaskTurnWaitingOn| waiting_label(s) != value@ by {
                match s {
                    TaskTurnWaitingOn::Nobody => assert(all@[0] == s),
                    TaskTurnWaitingOn::User => assert(all@[1] == s),
                    TaskTurnWaitingOn::Agent => assert(all@[2] == s),
                    TaskTurnWaitingOn::External => assert(all@[3] == s),
                    TaskTurnWaitingOn::Unknown => assert(all@[4] == s),
                }
            }
        }
        Err(concat("invalid TaskTurnWaitingOn label: ", value))
    }
}

impl TaskTurnRelation {
    /// The label of this value.
    pub fn label(self) -> (s: &'static str)
        ensures
            s@ == relation_label(self),
    {
        match self {
            TaskTurnRelation::NewTask => "new_task",
            TaskTurnRelation::Continuation => "continuation",
            TaskTurnRelation::Clarification => "clarification",
            TaskTurnRelation::ChildSupportStep => "child_support_step",
            TaskTurnRelation::Correction => "correction",
            TaskTurnRelation::Supersedes => "supersedes",
            TaskTurnRelation::Unknown => "unknown",
        }
    }

    /// The value with the given label.
    pub fn parse(value: &str) -> (r: Result<Self, String>)
        ensures
            match r {
                Ok(s) => relation_label(s) == value@,
                Err(e) => {
                    &&& forall|s: TaskTurnRelation| relation_label(s) != value@
                    &&& e@ == "invalid TaskTurnRelation label: "@ + value@
                },
            },
    {
        let all = [
            TaskTurnRelation::NewTask,
            TaskTurnRelation::Continuation,
            TaskTurnRelation::Clarification,
            TaskTurnRelation::ChildSupportStep,
            TaskTurnRelation::Correction,
            TaskTurnRelation::Supersedes,
            TaskTurnRelation::Unknown,
        ];
        let mut i: usize = 0;
        while i < 7
            invariant
                i <= 7,
                all@ == seq![
                    TaskTurnRelation::NewTask,
                    TaskTurnRelation::Continuation,
                    TaskTurnRelation::Clarification,
                    TaskTurnRelation::ChildSupportStep,
                    TaskTurnRelation::Correction,
                    TaskTurnRelation::Supersedes,
                    TaskTurnRelation::Unknown,
                ],
                forall|k: int| 0 <= k < i ==> relation_label(#[trigger] all@[k]) != value@,
            decreases 7 - i,
        {
            if str_eq(all[i].label(), value) {
                return Ok(all[i]);
            }
            i = i + 1;
        }
        proof {
            assert forall|s: TaskTurnRelation| relation_label(s) != value@ by {
                match s {
                    TaskTurnRelation::NewTask => assert(all@[0] == s),
                    TaskTurnRelation::Continuation => assert(all@[1] == s),
                    TaskTurnRelation::Clarification => assert(all@[2] == s),
                    TaskTurnRelation::ChildSupportStep => assert(all@[3] == s),
                    TaskTurnRelation::Correction => assert(all@[4] == s),
                    TaskTurnRelation::Supersedes => assert(all@[5] == s),
                    TaskTurnRelation::Unknown => assert(all@[6] == s),
                }
            }
        }
        Err(concat("invalid TaskTurnRelation label: ", value))
    }
}

/// Whether `value` contains any of `needles`.
pub open spec fn contains_some(value: Seq<char>, needles: Seq<Seq<char>>) -> bool {
    exists|i: int| 0 <= i < needles.len() && contains(value, #[trigger] needles[i])
}

/// Whether `value` contains any of `needles`.
pub fn contains_any(value: &str, needles: &[&str]) -> (b: bool)
    ensures
        b == contains_some(value@, needles@.map_values(|n: &str| n@)),
{
    let ghost ns = needles@.map_values(|n: &str| n@);
    let mut i: usize = 0;
    while i < needles.len()
        invariant
            i <= needles@.len(),
            ns == needles@.map_values(|n: &str| n@),
            forall|k: int| 0 <= k < i ==> !contains(value@, #[trigger] ns[k]),
        decreases needles@.len() - i,
    {
        if str_contains(value, needles[i]) {
            assert(ns[i as int] == needles@[i as int]@);
            return true;
        }
        i = i + 1;
    }
    false
}

/// Agent text, lowercased, reports that the work is complete.
pub open spec fn completion_text(text: Seq<char>) -> bool {
    let l = ascii_lower(text);
    ||| contains(l, "completed successfully"@)
    ||| contains(l, "implementation is complete"@)
    ||| contains(l, "update is complete"@)
    ||| contains(l, " is complete"@)
    ||| contains(l, "implemented and verified"@)
    ||| contains(l, "finished the"@)
    ||| contains(l, "fixed and tested"@)
    ||| contains(l, "all tests passed"@)
    ||| contains(l, "verification passed"@)
    ||| contains(l, "task is done"@)
}

/// Whether agent text reports that the work is complete.
pub fn is_completion_text(text: &str) -> (b: bool)
    ensures
        b == completion_text(text@),
{
    let lower = ascii_lowercase(text);
    let l = lower.as_str();
    str_contains(l, "completed successfully") || str_contains(l, "implementation is complete")
        || str_contains(l, "update is complete") || str_contains(l, " is complete")
        || str_contains(l, "implemented and verified") || str_contains(l, "finished the")
        || str_contains(l, "fixed and tested") || str_contains(l, "all tests passed")
        || str_contains(l, "verification passed") || str_contains(l, "task is done")
}

/// The kind of task a goal names, by the words of its lowercase text:
/// questions and tracing are investigation, changes are implementation,
/// checks are verification, writing is documentation.
pub open spec fn task_kind_of(goal: Seq<char>) -> Seq<char> {
    let l = ascii_lower(goal);
    if contains(l, "why"@) || contains(l, "how does"@) || contains(l, "investigat"@) || contains(
        l,
        "trace"@,
    ) || contains(l, "understand"@) || contains(l, "what does"@) {
        "investigation"@
    } else if contains(l, "implement"@) || contains(l, "update"@) || contains(l, "change"@)
        || contains(l, "add"@) || contains(l, "fix"@) || contains(l, "refactor"@) || contains(
        l,
        "build"@,
    ) {
        "implementation"@
    } else if contains(l, "review"@) || contains(l, "verify"@) || contains(l, "check"@) || contains(
        l,
        "test"@,
    ) || contains(l, "audit"@) {
        "verification"@
    } else if contains(l, "write"@) || contains(l, "document"@) || contains(l, "docs"@) || contains(
        l,
        "copy"@,
    ) {
        "documentation"@
    } else {
        "unknown"@
    }
}

/// Whether lowercase text asks a question or traces something.
fn asks_investigation(l: &str) -> (b: bool)
    ensures
        b == (contains(l@, "why"@) || contains(l@, "how does"@) || contains(l@, "investigat"@)
            || contains(l@, "trace"@) || contains(l@, "understand"@) || contains(l@, "what does"@)),
{
    str_contains(l, "why") || str_contains(l, "how does") || str_contains(l, "investigat")
        || str_contains(l, "trace") || str_contains(l, "understand") || str_contains(l, "what does")
}

/// Whether lowercase text asks for a change.
fn asks_implementation(l: &str) -> (b: bool)
    ensures
        b == (contains(l@, "implement"@) || contains(l@, "update"@) || contains(l@, "change"@)
            || contains(l@, "add"@) || contains(l@, "fix"@) || contains(l@, "refactor"@) || contains(
            l@,
            "build"@,
        )),
{
    str_contains(l, "implement") || str_contains(l, "update") || str_contains(l, "change")
        || str_contains(l, "add") || str_contains(l, "fix") || str_contains(l, "refactor")
        || str_contains(l, "build")
}

/// Whether lowercase text asks for a check.
fn asks_verification(l: &str) -> (b: bool)
    ensures
        b == (contains(l@, "review"@) || contains(l@, "verify"@) || contains(l@, "check"@)
            || contains(l@, "test"@) || contains(l@, "audit"@)),
{
    str_contains(l, "review") || str_contains(l, "verify") || str_contains(l, "check")
        || str_contains(l, "test") || str_contains(l, "audit")
}

/// Whether lowercase text asks for writing.
fn asks_documentation(l: &str) -> (b: bool)
    ensures
        b == (contains(l@, "write"@) || contains(l@, "document"@) || contains(l@, "docs"@)
            || contains(l@, "copy"@)),
{
    str_contains(l, "write") || str_contains(l, "document") || str_contains(l, "docs")
        || str_contains(l, "copy")
}

/// The kind of task a goal names; no goal is read as empty text.
pub fn classify_task_kind(goal: Option<&str>) -> (r: String)
    ensures
        r@ == task_kind_of(
            match goal {
                Some(g) => g@,
                None => Seq::empty(),
            },
        ),
{
    let lower = match goal {
        Some(g) => ascii_lowercase(g),
        None => String::new(),
    };
    proof {
        if goal is None {
            assert(ascii_lower(Seq::<char>::empty()) =~= Seq::<char>::empty());
        }
    }
    let l = lower.as_str();
    let kind = if asks_investigation(l) {
        "investigation"
    } else if asks_implementation(l) {
        "implementation"
    } else if asks_verification(l) {
        "verification"
    } else if asks_documentation(l) {
        "documentation"
    } else {
        "unknown"
    };
    crate::text::copy_str(kind)
}

/// How a summary was redacted: kept as a bounded public summary, missing
/// because there was no source, or withheld as unsafe.
pub open spec fn redaction_status(has_summary: bool, span_count: int) -> Seq<char> {
    if has_summary {
        "bounded_public_safe_summary"@
    } else if span_count == 0 {
        "missing_source"@
    } else {
        "redacted_or_unsafe"@
    }
}

/// How a summary was redacted.
pub fn summary_redaction_status(summary: Option<&str>, source_spans: &[String]) -> (r: &'static str)
    ensures
        r@ == redaction_status(summary is Some, source_spans@.len() as int),
{
    if summary.is_some() {
        "bounded_public_safe_summary"
    } else if source_spans.len() == 0 {
        "missing_source"
    } else {
        "redacted_or_unsafe"
    }
}

/// Appends `value` unless it is already present.
pub fn push_unique(values: &mut Vec<String>, value: String)
    ensures
        strs(final(values)@) == if strs(old(values)@).contains(value@) {
            strs(old(values)@)
        } else {
            strs(old(values)@).push(value@)
        },
{
    if !vec_contains_str(values, value.as_str()) {
        values.push(value);
        assert(strs(values@) =~= strs(old(values)@).push(value@));
    }
}

/// The union of two lists of strings, sorted and once each.
pub fn union_strings(existing: Option<&Vec<String>>, new: &[String]) -> (r: Vec<String>)
    ensures
        sorted_unique(strs(r@)),
        strs(r@).to_set() == match existing {
            Some(e) => strs(e@).to_set(),
            None => Set::<Seq<char>>::empty(),
        }.union(strs(new@).to_set()),
{
    let mut all: Vec<String> = Vec::new();
    match existing {
        Some(e) => {
            let mut i: usize = 0;
            while i < e.len()
                invariant
                    i <= e@.len(),
                    strs(all@) == strs(e@).take(i as int),
                decreases e@.len() - i,
            {
                assert(strs(e@).take(i as int + 1) =~= strs(e@).take(i as int).push(e@[i as int]@));
                push_string(&mut all, e[i].clone());
                i = i + 1;
            }
            assert(strs(e@).take(e@.len() as int) =~= strs(e@));
        },
        None => {},
    }
    let ghost first = strs(all@);
    let mut j: usize = 0;
    while j < new.len()
        invariant
            j <= new@.len(),
            strs(all@) == first + strs(new@).take(j as int),
        decreases new@.len() - j,
    {
        assert(first + strs(new@).take(j as int + 1) =~= (first + strs(new@).take(j as int)).push(
            new@[j as int]@,
        ));
        push_string(&mut all, new[j].clone());
        j = j + 1;
    }
    assert(strs(new@).take(new@.len() as int) =~= strs(new@));
    proof {
        vstd::seq_lib::seq_to_set_distributes_over_add(first, strs(new@));
        if existing is None {
            assert(first.to_set() =~= Set::<Seq<char>>::empty());
        }
    }
    sort_dedup(all)
}

/// Text with its whitespace collapsed and lowercased.
pub open spec fn normalized(text: Seq<char>) -> Seq<char> {
    ascii_lower(collapse_ws(text))
}

/// Text with its whitespace collapsed and lowercased.
pub fn normalize_text(value: &str) -> (r: String)
    ensures
        r@ == normalized(value@),
{
    let collapsed = collapse_whitespace(value);
    ascii_lowercase(collapsed.as_str())
}

/// The number of characters of an optional text.
pub fn sample_length(value: &Option<String>) -> (n: usize)
    ensures
        n == match value {
            Some(s) => s@.len(),
            None => 0,
        },
{
    match value {
        Some(s) => s.as_str().unicode_len(),
        None => 0,
    }
}

/// The FNV-1a 64-bit hash of `bytes`.
pub open spec fn fnv1a(bytes: Seq<u8>) -> u64
    decreases bytes.len(),
{
    if bytes.len() == 0 {
        0xcbf29ce484222325u64
    } else {
        (((fnv1a(bytes.drop_last()) ^ (bytes.last() as u64)) as nat * 0x100000001b3nat)
            % 0x1_0000_0000_0000_0000nat) as u64
    }
}

/// `16` to the power `n`.
pub open spec fn pow16(n: nat) -> nat
    decreases n,
{
    if n == 0 {
        1
    } else {
        16 * pow16((n - 1) as nat)
    }
}

/// The sixteen lowercase hex digits of `v`, most significant first.
pub open spec fn hex16(v: u64) -> Seq<char> {
    Seq::new(16, |k: int| hex_digit(((v as nat / pow16((15 - k) as nat)) % 16) as u8))
}

proof fn lemma_pow16_positive(n: nat)
    ensures
        pow16(n) > 0,
    decreases n,
{
    if n > 0 {
        lemma_pow16_positive((n - 1) as nat);
    }
}

/// The sixteen lowercase hex digits of `v`.
fn hex_u64(v: u64) -> (r: String)
    ensures
        r@ == hex16(v),
{
    let mut digits: Vec<char> = Vec::new();
    let mut n: usize = 0;
    while n < 16
        invariant
            n <= 16,
            digits@.len() == n,
        decreases 16 - n,
    {
        digits.push('0');
        n = n + 1;
    }
    let mut x: u64 = v;
    let mut k: usize = 0;
    assert(pow16(0) == 1);
    while k < 16
        invariant
            k <= 16,
            digits@.len() == 16,
            x as nat == v as nat / pow16(k as nat),
            forall|j: int| 16 - k <= j < 16 ==> #[trigger] digits@[j] == hex16(v)[j],
        decreases 16 - k,
    {
        let d = (x % 16) as u8;
        digits.set(15 - k, hex_char(d));
        proof {
            lemma_pow16_positive(k as nat);
            vstd::arithmetic::div_mod::lemma_div_denominator(v as int, pow16(k as nat) as int, 16);
            assert(pow16(k as nat + 1) == 16 * pow16(k as nat));
            assert(hex16(v)[15 - k as int] == hex_digit(((v as nat / pow16(k as nat)) % 16) as u8));
        }
        x = x / 16;
        k = k + 1;
    }
    assert(digits@ =~= hex16(v));
    crate::text::string_of(&digits)
}

/// The stable hash of `bytes`: FNV-1a, as sixteen lowercase hex digits.
pub fn stable_hash(bytes: &[u8]) -> (r: String)
    ensures
        r@ == hex16(fnv1a(bytes@)),
{
    let mut hash: u64 = 0xcbf29ce484222325u64;
    let mut i: usize = 0;
    assert(bytes@.take(0) =~= Seq::<u8>::empty());
    while i < bytes.len()
        invariant
            i <= bytes@.len(),
            hash == fnv1a(bytes@.take(i as int)),
        decreases bytes@.len() - i,
    {
        assert(bytes@.take(i as int + 1).drop_last() =~= bytes@.take(i as int));
        hash = (hash ^ (bytes[i] as u64)).wrapping_mul(0x100000001b3u64);
        i = i + 1;
    }
    assert(bytes@.take(bytes@.len() as int) =~= bytes@);
    hex_u64(hash)
}

/// The hash that identifies public text without storing it.
pub fn text_hash(value: &str) -> (r: String)
    ensures
        r@ == hex16(fnv1a(encode_utf8("task-turn-public-text|"@ + normalized(value@)))),
{
    let normal = normalize_text(value);
    let material = concat("task-turn-public-text|", normal.as_str());
    stable_hash(material.as_str().as_bytes())
}

/// Parts joined by the unit separator.
pub open spec fn joined(parts: Seq<Seq<char>>) -> Seq<char>
    decreases parts.len(),
{
    if parts.len() == 0 {
        Seq::empty()
    } else if parts.len() == 1 {
        parts[0]
    } else {
        joined(parts.drop_last()) + seq!['\u{1f}'] + parts.last()
    }
}

/// The hash of parts joined by the unit separator.
pub fn material_fingerprint(parts: &[&str]) -> (r: String)
    ensures
        r@ == hex16(fnv1a(encode_utf8(joined(parts@.map_values(|p: &str| p@))))),
{
    let ghost ps = parts@.map_values(|p: &str| p@);
    let mut material = String::new();
    let mut i: usize = 0;
    assert(ps.take(0) =~= Seq::<Seq<char>>::empty());
    while i < parts.len()
        invariant
            i <= parts@.len(),
            ps == parts@.map_values(|p: &str| p@),
            material@ == joined(ps.take(i as int)),
        decreases parts@.len() - i,
    {
        assert(ps.take(i as int + 1).drop_last() =~= ps.take(i as int));
        assert(ps.take(i as int + 1).last() == parts@[i as int]@);
        if i > 0 {
            push_char(&mut material, '\u{1f}');
        } else {
            assert(ps.take(1) =~= seq![parts@[0]@]);
        }
        material = concat(material.as_str(), parts[i]);
        i = i + 1;
    }
    assert(ps.take(parts@.len() as int) =~= ps);
    stable_hash(material.as_str().as_bytes())
}

/// A decimal digit.
pub open spec fn is_digit(c: char) -> bool {
    '0' <= c && c <= '9'
}

/// The value of a string of decimal digits.
pub open spec fn digits_value(s: Seq<char>) -> int
    decreases s.len(),
{
    if s.len() == 0 {
        0
    } else {
        digits_value(s.drop_last()) * 10 + (s.last() as int - '0' as int)
    }
}

/// The text after an optional leading sign.
pub open spec fn unsigned_part(s: Seq<char>) -> Seq<char> {
    if s.len() > 0 && (s[0] == '-' || s[0] == '+') {
        s.drop_first()
    } else {
        s
    }
}

/// Every character is a decimal digit.
pub open spec fn all_digits(s: Seq<char>) -> bool {
    forall|i: int| 0 <= i < s.len() ==> is_digit(#[trigger] s[i])
}

/// `str::parse::<i64>`: an optional sign and at least one decimal digit,
/// whose value fits.
pub open spec fn parsed_i64(s: Seq<char>) -> Option<i64> {
    let neg = s.len() > 0 && s[0] == '-';
    let body = unsigned_part(s);
    if body.len() == 0 || !all_digits(body) {
        None
    } else {
        let v = if neg {
            -digits_value(body)
        } else {
            digits_value(body)
        };
        if i64::MIN <= v && v <= i64::MAX {
            Some(v as i64)
        } else {
            None
        }
    }
}

/// A record id as a number, or `i64::MAX` when it is not one.
pub fn numeric_id(value: &str) -> (r: i64)
    ensures
        r == match parsed_i64(value@) {
            Some(v) => v,
            None => i64::MAX,
        },
{
    match parse_i64(value) {
        Some(v) => v,
        None => i64::MAX,
    }
}

/// `str::parse::<i64>`: an optional sign and decimal digits that fit.
pub fn parse_i64(value: &str) -> (r: Option<i64>)
    ensures
        r == parsed_i64(value@),
{
    let v = crate::text::chars_of(value);
    let n = v.len();
    if n == 0 {
        return None;
    }
    let neg = v[0] == '-';
    let start: usize = if v[0] == '-' || v[0] == '+' {
        1
    } else {
        0
    };
    let ghost body = v@.subrange(start as int, n as int);
    proof {
        if start == 1 {
            assert(v@.drop_first() =~= body);
        } else {
            assert(v@ =~= body);
        }
    }
    if start == n {
        return None;
    }
    let cap: i128 = 0x8000_0000_0000_0001;
    let mut acc: i128 = 0;
    let mut i: usize = start;
    while i < n
        invariant
            start <= i <= n,
            n == v@.len(),
            v@ == value@,
            body == v@.subrange(start as int, n as int),
            body == unsigned_part(v@),
            forall|k: int| start <= k < i ==> is_digit(#[trigger] v@[k]),
            cap == 0x8000_0000_0000_0001i128,
            0 <= acc <= cap,
            acc == if digits_value(v@.subrange(start as int, i as int)) < cap {
                digits_value(v@.subrange(start as int, i as int))
            } else {
                cap as int
            },
        decreases n - i,
    {
        let c = v[i];
        if !('0' <= c && c <= '9') {
            proof {
                let j = i - start;
                assert(body[j] == c);
                assert(!is_digit(body[j]));
                assert(!all_digits(body));
            }
            return None;
        }
        let d = (c as u32 - '0' as u32) as i128;
        proof {
            let pre = v@.subrange(start as int, i as int);
            let next = v@.subrange(start as int, i as int + 1);
            assert(next.drop_last() =~= pre);
            assert(next.last() == c);
            lemma_digits_nonneg(pre);
        }
        let grown = acc * 10 + d;
        acc = if grown < cap {
            grown
        } else {
            cap
        };
        i = i + 1;
    }
    proof {
        assert(v@.subrange(start as int, n as int) =~= body);
        assert forall|k: int| 0 <= k < body.len() implies is_digit(#[trigger] body[k]) by {
            assert(body[k] == v@[start + k]);
        }
    }
    let value: i128 = if neg {
        -acc
    } else {
        acc
    };
    if value < i64::MIN as i128 || value > i64::MAX as i128 {
        None
    } else {
        Some(value as i64)
    }
}

/// Digit strings have non-negative values.
proof fn lemma_digits_nonneg(s: Seq<char>)
    requires
        forall|i: int| 0 <= i < s.len() ==> is_digit(#[trigger] s[i]),
    ensures
        digits_value(s) >= 0,
    decreases s.len(),
{
    if s.len() > 0 {
        lemma_digits_nonneg(s.drop_last());
    }
}

/// Distinct values of `TaskExecutionState` have distinct labels, so a label parses
/// back to the value it names.
pub proof fn law_task_execution_state_labels_are_distinct(a: TaskExecutionState, b: TaskExecutionState)
    requires
        execution_label(a) == execution_label(b),
    ensures
        a == b,
{
    reveal_strlit("active");
    reveal_strlit("blocked");
    reveal_strlit("completed");
    reveal_strlit("superseded");
    reveal_strlit("suspended");
    reveal_strlit("idle_after_progress");
    reveal_strlit("unclear");
    match (a, b) {
        (TaskExecutionState::Active, TaskExecutionState::Blocked) => {
            assert("active"@.len() != "blocked"@.len());
        },
        (TaskExecutionState::Active, TaskExecutionState::Completed) => {
            assert("active"@.len() != "completed"@.len());
        },
        (TaskExecutionState::Active, TaskExecutionState::Superseded) => {
            assert("active"@.len() != "superseded"@.len());
        },
        (TaskExecutionState::Active, TaskExecutionState::Suspended) => {
            assert("active"@.len() != "suspended"@.len());
        },
        (TaskExecutionState::Active, TaskExecutionState::IdleAfterProgress) => {
            assert("active"@.len() != "idle_after_progress"@.len());
        },
        (TaskExecutionState::Active, TaskExecutionState::Unclear) => {
            assert("active"@.len() != "unclear"@.len());
        },
        (TaskExecutionState::Blocked, TaskExecutionState::Active) => {
            assert("blocked"@.len() != "active"@.len());
        },
        (TaskExecutionState::Blocked, TaskExecutionState::Completed) => {
            assert("blocked"@.len() != "completed"@.len());
        },
        (TaskExecutionState::Blocked, TaskExecutionState::Superseded) => {
            assert("blocked"@.len() != "superseded"@.len());
        },
        (TaskExecutionState::Blocked, TaskExecutionState::Suspended) => {
            assert("blocked"@.len() != "suspended"@.len());
        },
        (TaskExecutionState::Blocked, TaskExecutionState::IdleAfterProgress) => {
            assert("blocked"@.len() != "idle_after_progress"@.len());
        },
        (TaskExecutionState::Blocked, TaskExecutionState::Unclear) => {
            assert("blocked"@[0] != "unclear"@[0]);
        },
        (TaskExecutionState::Completed, TaskExecutionState::Active) => {
            assert("completed"@.len() != "active"@.len());
        },
        (TaskExecutionState::Completed, TaskExecutionState::Blocked) => {
            assert("completed"@.len() != "blocked"@.len());
        },
        (TaskExecutionState::Completed, TaskExecutionState::Superseded) => {
            assert("completed"@.len() != "superseded"@.len());
        },
        (TaskExecutionState::Completed, TaskExecutionState::Suspended) => {
            assert("completed"@[0] != "suspended"@[0]);
        },
        (TaskExecutionState::Completed, TaskExecutionState::IdleAfterProgress) => {
            assert("completed"@.len() != "idle_after_progress"@.len());
        },
        (TaskExecutionState::Completed, TaskExecutionState::Unclear) => {
            assert("completed"@.len() != "unclear"@.len());
        },
        (TaskExecutionState::Superseded, TaskExecutionState::Active) => {
            assert("superseded"@.len() != "active"@.len());
        },
        (TaskExecutionState::Superseded, TaskExecutionState::Blocked) => {
            assert("superseded"@.len() != "blocked"@.len());
        },
        (TaskExecutionState::Superseded, TaskExecutionState::Completed) => {
            assert("superseded"@.len() != "completed"@.len());
        },
        (TaskExecutionState::Superseded, TaskExecutionState::Suspended) => {
            assert("superseded"@.len() != "suspended"@.len());
        },
        (TaskExecutionState::Superseded, TaskExecutionState::IdleAfterProgress) => {
            assert("superseded"@.len() != "idle_after_progress"@.len());
        },
        (TaskExecutionState::Superseded, TaskExecutionState::Unclear) => {
            assert("superseded"@.len() != "unclear"@.len());
        },
        (TaskExecutionState::Suspended, TaskExecutionState::Active) => {
            assert("suspended"@.len() != "active"@.len());
        },
        (TaskExecutionState::Suspended, TaskExecutionState::Blocked) => {
            assert("suspended"@.len() != "blocked"@.len());
        },
        (TaskExecutionState::Suspended, TaskExecutionState::Completed) => {
            assert("suspended"@[0] != "completed"@[0]);
        },
        (TaskExecutionState::Suspended, TaskExecutionState::Superseded) => {
            assert("suspended"@.len() != "superseded"@.len());
        },
        (TaskExecutionState::Suspended, TaskExecutionState::IdleAfterProgress) => {
            assert("suspended"@.len() != "idle_after_progress"@.len());
        },
        (TaskExecutionState::Suspended, TaskExecutionState::Unclear) => {
            assert("suspended"@.len() != "unclear"@.len());
        },
        (TaskExecutionState::IdleAfterProgress, TaskExecutionState::Active) => {
            assert("idle_after_progress"@.len() != "active"@.len());
        },
        (TaskExecutionState::IdleAfterProgress, TaskExecutionState::Blocked) => {
            assert("idle_after_progress"@.len() != "blocked"@.len());
        },
        (TaskExecutionState::IdleAfterProgress, TaskExecutionState::Completed) => {
            assert("idle_after_progress"@.len() != "completed"@.len());
        },
        (TaskExecutionState::IdleAfterProgress, TaskExecutionState::Superseded) => {
            assert("idle_after_progress"@.len() != "superseded"@.len());
        },
        (TaskExecutionState::IdleAfterProgress, TaskExecutionState::Suspended) => {
            assert("idle_after_progress"@.len() != "suspended"@.len());
        },
        (TaskExecutionState::IdleAfterProgress, TaskExecutionState::Unclear) => {
            assert("idle_after_progress"@.len() != "unclear"@.len());
        },
        (TaskExecutionState::Unclear, TaskExecutionState::Active) => {
            assert("unclear"@.len() != "active"@.len());
        },
        (TaskExecutionState::Unclear, TaskExecutionState::Blocked) => {
            assert("unclear"@[0] != "blocked"@[0]);
        },
        (TaskExecutionState::Unclear, TaskExecutionState::Completed) => {
            assert("unclear"@.len() != "completed"@.len());
        },
        (TaskExecutionState::Unclear, TaskExecutionState::Superseded) => {
            assert("unclear"@.len() != "superseded"@.len());
        },
        (TaskExecutionState::Unclear, TaskExecutionState::Suspended) => {
            assert("unclear"@.len() != "suspended"@.len());
        },
        (TaskExecutionState::Unclear, TaskExecutionState::IdleAfterProgress) => {
            assert("unclear"@.len() != "idle_after_progress"@.len());
        },
        _ => {},
    }
}

/// Distinct values of `TaskTurnActor` have distinct labels, so a label parses
/// back to the value it names.
pub proof fn law_task_turn_actor_labels_are_distinct(a: TaskTurnActor, b: TaskTurnActor)
    requires
        actor_label(a) == actor_label(b),
    ensures
        a == b,
{
    reveal_strlit("user");
    reveal_strlit("assistant_or_agent");
    reveal_strlit("tool");
    reveal_strlit("system");
    reveal_strlit("unknown");
    match (a, b) {
        (TaskTurnActor::User, TaskTurnActor::AssistantOrAgent) => {
            assert("user"@.len() != "assistant_or_agent"@.len());
        },
        (TaskTurnActor::User, TaskTurnActor::Tool) => {
            assert("user"@[0] != "tool"@[0]);
        },
        (TaskTurnActor::User, TaskTurnActor::System) => {
            assert("user"@.len() != "system"@.len());
        },
        (TaskTurnActor::User, TaskTurnActor::Unknown) => {
            assert("user"@.len() != "unknown"@.len());
        },
        (TaskTurnActor::AssistantOrAgent, TaskTurnActor::User) => {
            assert("assistant_or_agent"@.len() != "user"@.len());
        },
        (TaskTurnActor::AssistantOrAgent, TaskTurnActor::Tool) => {
            assert("assistant_or_agent"@.len() != "tool"@.len());
        },
        (TaskTurnActor::AssistantOrAgent, TaskTurnActor::System) => {
            assert("assistant_or_agent"@.len() != "system"@.len());
        },
        (TaskTurnActor::AssistantOrAgent, TaskTurnActor::Unknown) => {
            assert("assistant_or_agent"@.len() != "unknown"@.len());
        },
        (TaskTurnActor::Tool, TaskTurnActor::User) => {
            assert("tool"@[0] != "user"@[0]);
        },
        (TaskTurnActor::Tool, TaskTurnActor::AssistantOrAgent) => {
            assert("tool"@.len() != "assistant_or_agent"@.len());
        },
        (TaskTurnActor::Tool, TaskTurnActor::System) => {
            assert("tool"@.len() != "system"@.len());
        },
        (TaskTurnActor::Tool, TaskTurnActor::Unknown) => {
            assert("tool"@.len() != "unknown"@.len());
        },
        (TaskTurnActor::System, TaskTurnActor::User) => {
            assert("system"@.len() != "user"@.len());
        },
        (TaskTurnActor::System, TaskTurnActor::AssistantOrAgent) => {
            assert("system"@.len() != "assistant_or_agent"@.len());
        },
        (TaskTurnActor::System, TaskTurnActor::Tool) => {
            assert("system"@.len() != "tool"@.len());
        },
        (TaskTurnActor::System, TaskTurnActor::Unknown) => {
            assert("system"@.len() != "unknown"@.len());
        },
        (TaskTurnActor::Unknown, TaskTurnActor::User) => {
            assert("unknown"@.len() != "user"@.len());
        },
        (TaskTurnActor::Unknown, TaskTurnActor::AssistantOrAgent) => {
            assert("unknown"@.len() != "assistant_or_agent"@.len());
        },
        (TaskTurnActor::Unknown, TaskTurnActor::Tool) => {
            assert("unknown"@.len() != "tool"@.len());
        },
        (TaskTurnActor::Unknown, TaskTurnActor::System) => {
            assert("unknown"@.len() != "system"@.len());
        },
        _ => {},
    }
}

/// Distinct values of `TaskTurnWaitingOn` have distinct labels, so a label parses
/// back to the value it names.
pub proof fn law_task_turn_waiting_on_labels_are_distinct(a: TaskTurnWaitingOn, b: TaskTurnWaitingOn)
    requires
        waiting_label(a) == waiting_label(b),
    ensures
        a == b,
{
    reveal_strlit("none");
    reveal_strlit("user");
    reveal_strlit("agent");
    reveal_strlit("external");
    reveal_strlit("unknown");
    match (a, b) {
        (TaskTurnWaitingOn::Nobody, TaskTurnWaitingOn::User) => {
            assert("none"@[0] != "user"@[0]);
        },
        (TaskTurnWaitingOn::Nobody, TaskTurnWaitingOn::Agent) => {
            assert("none"@.len() != "agent"@.len());
        },
        (TaskTurnWaitingOn::Nobody, TaskTurnWaitingOn::External) => {
            assert("none"@.len() != "external"@.len());
        },
        (TaskTurnWaitingOn::Nobody, TaskTurnWaitingOn::Unknown) => {
            assert("none"@.len() != "unknown"@.len());
        },
        (TaskTurnWaitingOn::User, TaskTurnWaitingOn::Nobody) => {
            assert("user"@[0] != "none"@[0]);
        },
        (TaskTurnWaitingOn::User, TaskTurnWaitingOn::Agent) => {
            assert("user"@.len() != "agent"@.len());
        },
        (TaskTurnWaitingOn::User, TaskTurnWaitingOn::External) => {
            assert("user"@.len() != "external"@.len());
        },
        (TaskTurnWaitingOn::User, TaskTurnWaitingOn::Unknown) => {
            assert("user"@.len() != "unknown"@.len());
        },
        (TaskTurnWaitingOn::Agent, TaskTurnWaitingOn::Nobody) => {
            assert("agent"@.len() != "none"@.len());
        },
        (TaskTurnWaitingOn::Agent, TaskTurnWaitingOn::User) => {
            assert("agent"@.len() != "user"@.len());
        },
        (TaskTurnWaitingOn::Agent, TaskTurnWaitingOn::External) => {
            assert("agent"@.len() != "external"@.len());
        },
        (TaskTurnWaitingOn::Agent, TaskTurnWaitingOn::Unknown) => {
            assert("agent"@.len() != "unknown"@.len());
        },
        (TaskTurnWaitingOn::External, TaskTurnWaitingOn::Nobody) => {
            assert("external"@.len() != "none"@.len());
        },
        (TaskTurnWaitingOn::External, TaskTurnWaitingOn::User) => {
            assert("external"@.len() != "user"@.len());
        },
        (TaskTurnWaitingOn::External, TaskTurnWaitingOn::Agent) => {
            assert("external"@.len() != "agent"@.len());
        },
        (TaskTurnWaitingOn::External, TaskTurnWaitingOn::Unknown) => {
            assert("external"@.len() != "unknown"@.len());
        },
        (TaskTurnWaitingOn::Unknown, TaskTurnWaitingOn::Nobody) => {
            assert("unknown"@.len() != "none"@.len());
        },
        (TaskTurnWaitingOn::Unknown, TaskTurnWaitingOn::User) => {
            assert("unknown"@.len() != "user"@.len());
        },
        (TaskTurnWaitingOn::Unknown, TaskTurnWaitingOn::Agent) => {
            assert("unknown"@.len() != "agent"@.len());
        },
        (TaskTurnWaitingOn::Unknown, TaskTurnWaitingOn::External) => {
            assert("unknown"@.len() != "external"@.len());
        },
        _ => {},
    }
}

/// Distinct values of `TaskTurnRelation` have distinct labels, so a label parses
/// back to the value it names.
pub proof fn law_task_turn_relation_labels_are_distinct(a: TaskTurnRelation, b: TaskTurnRelation)
    requires
        relation_label(a) == relation_label(b),
    ensures
        a == b,
{
    reveal_strlit("new_task");
    reveal_strlit("continuation");
    reveal_strlit("clarification");
    reveal_strlit("child_support_step");
    reveal_strlit("correction");
    reveal_strlit("supersedes");
    reveal_strlit("unknown");
    match (a, b) {
        (TaskTurnRelation::NewTask, TaskTurnRelation::Continuation) => {
            assert("new_task"@.len() != "continuation"@.len());
        },
        (TaskTurnRelation::NewTask, TaskTurnRelation::Clarification) => {
            assert("new_task"@.len() != "clarification"@.len());
        },
        (TaskTurnRelation::NewTask, TaskTurnRelation::ChildSupportStep) => {
            assert("new_task"@.len() != "child_support_step"@.len());
        },
        (TaskTurnRelation::NewTask, TaskTurnRelation::Correction) => {
            assert("new_task"@.len() != "correction"@.len());
        },
        (TaskTurnRelation::NewTask, TaskTurnRelation::Supersedes) => {
            assert("new_task"@.len() != "supersedes"@.len());
        },
        (TaskTurnRelation::NewTask, TaskTurnRelation::Unknown) => {
            assert("new_task"@.len() != "unknown"@.len());
        },
        (TaskTurnRelation::Continuation, TaskTurnRelation::NewTask) => {
            assert("continuation"@.len() != "new_task"@.len());
        },
        (TaskTurnRelation::Continuation, TaskTurnRelation::Clarification) => {
            assert("continuation"@.len() != "clarification"@.len());
        },
        (TaskTurnRelation::Continuation, TaskTurnRelation::ChildSupportStep) => {
            assert("continuation"@.len() != "child_support_step"@.len());
        },
        (TaskTurnRelation::Continuation, TaskTurnRelation::Correction) => {
            assert("continuation"@.len() != "correction"@.len());
        },
        (TaskTurnRelation::Continuation, TaskTurnRelation::Supersedes) => {
            assert("continuation"@.len() != "supersedes"@.len());
        },
        (TaskTurnRelation::Continuation, TaskTurnRelation::Unknown) => {
            assert("continuation"@.len() != "unknown"@.len());
        },
        (TaskTurnRelation::Clarification, TaskTurnRelation::NewTask) => {
            assert("clarification"@.len() != "new_task"@.len());
        },
        (TaskTurnRelation::Clarification, TaskTurnRelation::Continuation) => {
            assert("clarification"@.len() != "continuation"@.len());
        },
        (TaskTurnRelation::Clarification, TaskTurnRelation::ChildSupportStep) => {
            assert("clarification"@.len() != "child_support_step"@.len());
        },
        (TaskTurnRelation::Clarification, TaskTurnRelation::Correction) => {
            assert("clarification"@.len() != "correction"@.len());
        },
        (TaskTurnRelation::Clarification, TaskTurnRelation::Supersedes) => {
            assert("clarification"@.len() != "supersedes"@.len());
        },
        (TaskTurnRelation::Clarification, TaskTurnRelation::Unknown) => {
            assert("clarification"@.len() != "unknown"@.len());
        },
        (TaskTurnRelation::ChildSupportStep, TaskTurnRelation::NewTask) => {
            assert("child_support_step"@.len() != "new_task"@.len());
        },
        (TaskTurnRelation::ChildSupportStep, TaskTurnRelation::Continuation) => {
            assert("child_support_step"@.len() != "continuation"@.len());
        },
        (TaskTurnRelation::ChildSupportStep, TaskTurnRelation::Clarification) => {
            assert("child_support_step"@.len() != "clarification"@.len());
        },
        (TaskTurnRelation::ChildSupportStep, TaskTurnRelation::Correction) => {
            assert("child_support_step"@.len() != "correction"@.len());
        },
        (TaskTurnRelation::ChildSupportStep, TaskTurnRelation::Supersedes) => {
            assert("child_support_step"@.len() != "supersedes"@.len());
        },
        (TaskTurnRelation::ChildSupportStep, TaskTurnRelation::Unknown) => {
            assert("child_support_step"@.len() != "unknown"@.len());
        },
        (TaskTurnRelation::Correction, TaskTurnRelation::NewTask) => {
            assert("correction"@.len() != "new_task"@.len());
        },
        (TaskTurnRelation::Correction, TaskTurnRelation::Continuation) => {
            assert("correction"@.len() != "continuation"@.len());
        },
        (TaskTurnRelation::Correction, TaskTurnRelation::Clarification) => {
            assert("correction"@.len() != "clarification"@.len());
        },
        (TaskTurnRelation::Correction, TaskTurnRelation::ChildSupportStep) => {
            assert("correction"@.len() != "child_support_step"@.len());
        },
        (TaskTurnRelation::Correction, TaskTurnRelation::Supersedes) => {
            assert("correction"@[0] != "supersedes"@[0]);
        },
        (TaskTurnRelation::Correction, TaskTurnRelation::Unknown) => {
            assert("correction"@.len() != "unknown"@.len());
        },
        (TaskTurnRelation::Supersedes, TaskTurnRelation::NewTask) => {
            assert("supersedes"@.len() != "new_task"@.len());
        },
        (TaskTurnRelation::Supersedes, TaskTurnRelation::Continuation) => {
            assert("supersedes"@.len() != "continuation"@.len());
        },
        (TaskTurnRelation::Supersedes, TaskTurnRelation::Clarification) => {
            assert("supersedes"@.len() != "clarification"@.len());
        },
        (TaskTurnRelation::Supersedes, TaskTurnRelation::ChildSupportStep) => {
            assert("supersedes"@.len() != "child_support_step"@.len());
        },
        (TaskTurnRelation::Supersedes, TaskTurnRelation::Correction) => {
            assert("supersedes"@[0] != "correction"@[0]);
        },
        (TaskTurnRelation::Supersedes, TaskTurnRelation::Unknown) => {
            assert("supersedes"@.len() != "unknown"@.len());
        },
        (TaskTurnRelation::Unknown, TaskTurnRelation::NewTask) => {
            assert("unknown"@.len() != "new_task"@.len());
        },
        (TaskTurnRelation::Unknown, TaskTurnRelation::Continuation) => {
            assert("unknown"@.len() != "continuation"@.len());
        },
        (TaskTurnRelation::Unknown, TaskTurnRelation::Clarification) => {
            assert("unknown"@.len() != "clarification"@.len());
        },
        (TaskTurnRelation::Unknown, TaskTurnRelation::ChildSupportStep) => {
            assert("unknown"@.len() != "child_support_step"@.len());
        },
        (TaskTurnRelation::Unknown, TaskTurnRelation::Correction) => {
            assert("unknown"@.len() != "correction"@.len());
        },
        (TaskTurnRelation::Unknown, TaskTurnRelation::Supersedes) => {
            assert("unknown"@.len() != "supersedes"@.len());
        },
        _ => {},
    }
}

/// A text, or a default when there is none.
pub open spec fn or_default(o: Option<Seq<char>>, d: Seq<char>) -> Seq<char> {
    match o {
        Some(s) => s,
        None => d,
    }
}

/// The short name of a task turn's summary: two known tasks have names of
/// their own, the rest are named by object and kind.
pub open spec fn summary_slug(task_object: Option<Seq<char>>, task_kind: Seq<char>) -> Seq<char> {
    let object = or_default(task_object, "current_task"@);
    if object == "island_capture_button"@ && task_kind == "investigation"@ {
        "capture_button_investigation"@
    } else if object == "continue_card_copy"@ && task_kind == "implementation"@ {
        "continue_card_copy_update"@
    } else {
        object + "_"@ + task_kind
    }
}

/// The short name of a task turn's summary.
pub fn task_summary_slug(task_object: Option<&str>, task_kind: &str) -> (r: String)
    ensures
        r@ == summary_slug(
            match task_object {
                Some(o) => Some(o@),
                None => None,
            },
            task_kind@,
        ),
{
    let object: &str = match task_object {
        Some(o) => o,
        None => "current_task",
    };
    if str_eq(object, "island_capture_button") && str_eq(task_kind, "investigation") {
        copy_str("capture_button_investigation")
    } else if str_eq(object, "continue_card_copy") && str_eq(task_kind, "implementation") {
        copy_str("continue_card_copy_update")
    } else {
        concat(concat(object, "_").as_str(), task_kind)
    }
}

/// The key that identifies a salient user turn: its session (or "none"),
/// then its user text hash, or else its frame.
pub open spec fn salient_key(
    session_id: Option<Seq<char>>,
    user_hash: Option<Seq<char>>,
    frame_id: Seq<char>,
) -> Seq<char> {
    or_default(session_id, "none"@) + "|"@ + or_default(user_hash, frame_id)
}

/// The key that identifies a salient user turn.
pub fn salient_identity_key(session_id: Option<&str>, user_hash: Option<&str>, frame_id: &str) -> (r: String)
    ensures
        r@ == salient_key(
            match session_id {
                Some(s) => Some(s@),
                None => None,
            },
            match user_hash {
                Some(h) => Some(h@),
                None => None,
            },
            frame_id@,
        ),
{
    let session: &str = match session_id {
        Some(s) => s,
        None => "none",
    };
    let identity: &str = match user_hash {
        Some(h) => h,
        None => frame_id,
    };
    concat(concat(session, "|").as_str(), identity)
}

} // verus!
