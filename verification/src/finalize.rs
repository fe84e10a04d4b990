//! Finalizing a task turn from the actions recorded under it: the turn's
//! axes follow the wording of its latest action, and its supporting actions
//! and events are brought up to date. A turn whose axes and support do not
//! change is left alone.
//!
//! The store reads the turn and its actions and writes the finalization
//! back; what is written is computed here.
use vstd::prelude::*;
use vstd::utf8::encode_utf8;
use crate::contract::concat;
use crate::evidence::joined_by;
use crate::text::{
    ascii_lower, ascii_lowercase, contains, opt_str, sort_dedup, sorted_unique, str_contains, strs,
};
use crate::turn::{
    actor_label, completion_text, execution_label, fnv1a, hex16, is_completion_text, joined,
    material_fingerprint, relation_label, union_strings, waiting_label, TaskExecutionState,
    TaskTurnActor, TaskTurnRelation, TaskTurnWaitingOn,
};

verus! {

/// A lowercase hexadecimal digit.
pub open spec fn hex_digit(d: int) -> char {
    if d < 10 {
        (('0' as int) + d) as char
    } else {
        (('a' as int) + d - 10) as char
    }
}

/// A character inside a JSON string: quote and backslash escaped, the
/// control characters with a short escape where JSON has one and as
/// `\u00XX` otherwise; every other character as it is.
pub open spec fn json_char(c: char) -> Seq<char> {
    let u = c as int;
    if c == '"' {
        seq!['\\', '"']
    } else if c == '\\' {
        seq!['\\', '\\']
    } else if u == 8 {
        seq!['\\', 'b']
    } else if u == 9 {
        seq!['\\', 't']
    } else if u == 10 {
        seq!['\\', 'n']
    } else if u == 12 {
        seq!['\\', 'f']
    } else if u == 13 {
        seq!['\\', 'r']
    } else if u < 0x20 {
        seq!['\\', 'u', '0', '0', hex_digit(u / 16), hex_digit(u % 16)]
    } else {
        seq![c]
    }
}

/// The characters of a string, escaped for JSON.
pub open spec fn json_escaped(s: Seq<char>) -> Seq<char>
    decreases s.len(),
{
    if s.len() == 0 {
        Seq::empty()
    } else {
        json_escaped(s.drop_last()) + json_char(s.last())
    }
}

/// A string as JSON: escaped, between quotes.
pub open spec fn json_string(s: Seq<char>) -> Seq<char> {
    seq!['"'] + json_escaped(s) + seq!['"']
}

/// A list of strings as compact JSON: `[`, the strings as JSON joined by
/// `,`, then `]`.
pub open spec fn json_strings(v: Seq<Seq<char>>) -> Seq<char> {
    seq!['['] + joined_by(v.map_values(|s: Seq<char>| json_string(s)), ","@) + seq![']']
}

/// `serde_json::to_string` of a list of strings: compact JSON, as
/// `json_strings` states. It writes into a byte vector, which never fails,
/// and strings serialize without error, so the result is always `Ok`.
#[verifier::external_body]
fn strings_json(v: &Vec<String>) -> (r: Result<String, String>)
    ensures
        r is Ok,
        r matches Ok(s) ==> s@ == json_strings(strs(v@)),
{
    serde_json::to_string(v).map_err(|error| error.to_string())
}

/// An action recorded under a task turn.
#[derive(Debug, Clone, PartialEq, Eq, Default)]
pub struct TurnAction {
    pub id: String,
    pub action_kind: String,
    pub semantic_delta_kind: String,
    pub semantic_after_hint: String,
    pub evidence_event_ids: Vec<String>,
    pub created_at_ms: i64,
}

/// What finalization reads of a task turn.
#[derive(Debug, Clone, PartialEq, Eq)]
pub struct TurnSupport {
    pub latest_user_goal_summary: Option<String>,
    pub task_object: Option<String>,
    pub task_kind: String,
    pub execution_state: TaskExecutionState,
    pub current_actor: TaskTurnActor,
    pub waiting_on: TaskTurnWaitingOn,
    pub relation_to_prior: TaskTurnRelation,
    pub supporting_action_ids: Vec<String>,
    pub supporting_event_ids: Vec<String>,
    pub reason_codes: Vec<String>,
    pub revision: i64,
}

/// What finalization writes back.
#[derive(Debug, Clone, PartialEq, Eq)]
pub struct TurnFinalization {
    pub execution_state: TaskExecutionState,
    pub current_actor: TaskTurnActor,
    pub waiting_on: TaskTurnWaitingOn,
    pub reason: String,
    pub supporting_action_ids: Vec<String>,
    pub supporting_event_ids: Vec<String>,
    pub supporting_action_ids_json: String,
    pub supporting_event_ids_json: String,
    pub reason_codes: Vec<String>,
    pub material_fingerprint: String,
    pub revision: i64,
    pub history_observed_at_ms: i64,
}

/// The latest action's wording, in lower case.
pub open spec fn action_wording(a: TurnAction) -> Seq<char> {
    ascii_lower(a.action_kind@ + " "@ + a.semantic_delta_kind@ + " "@ + a.semantic_after_hint@)
}

/// Wording of a blocked action.
pub open spec fn blocked_wording(l: Seq<char>) -> bool {
    contains(l, "blocked"@) || contains(l, "error"@) || contains(l, "failure"@) || contains(
        l,
        "failed"@,
    )
}

/// Wording of an action at work.
pub open spec fn active_wording(l: Seq<char>) -> bool {
    ||| contains(l, "editing"@)
    ||| contains(l, "implement"@)
    ||| contains(l, "trace"@)
    ||| contains(l, "investigat"@)
    ||| contains(l, "navigat"@)
    ||| contains(l, "search"@)
    ||| contains(l, "test"@)
}

/// The axes of a turn after its latest action, with the reason: completion
/// wording completes it, failure wording blocks it on something external,
/// work wording makes the agent active; other wording changes nothing.
pub open spec fn axes_after(
    wording: Seq<char>,
    before: TurnSupport,
) -> (TaskExecutionState, TaskTurnActor, TaskTurnWaitingOn, Seq<char>) {
    if completion_text(wording) {
        (
            TaskExecutionState::Completed,
            TaskTurnActor::AssistantOrAgent,
            TaskTurnWaitingOn::Nobody,
            "turn_scoped_action_completion"@,
        )
    } else if blocked_wording(wording) {
        (
            TaskExecutionState::Blocked,
            TaskTurnActor::AssistantOrAgent,
            TaskTurnWaitingOn::External,
            "turn_scoped_action_blocked"@,
        )
    } else if active_wording(wording) {
        (
            TaskExecutionState::Active,
            TaskTurnActor::AssistantOrAgent,
            TaskTurnWaitingOn::Agent,
            "turn_scoped_action_active"@,
        )
    } else {
        (
            before.execution_state,
            before.current_actor,
            before.waiting_on,
            "turn_scoped_action_no_axis_change"@,
        )
    }
}

/// The ids of the actions, in order.
pub open spec fn action_ids(actions: Seq<TurnAction>) -> Seq<Seq<char>> {
    actions.map_values(|a: TurnAction| a.id@)
}

/// Every event named by the actions.
pub open spec fn action_events(actions: Seq<TurnAction>) -> Set<Seq<char>>
    decreases actions.len(),
{
    if actions.len() == 0 {
        Set::empty()
    } else {
        action_events(actions.drop_last()).union(strs(actions.last().evidence_event_ids@).to_set())
    }
}

/// The parts of a finalized turn's material fingerprint.
pub open spec fn fingerprint_parts(
    before: TurnSupport,
    execution: TaskExecutionState,
    actor: TaskTurnActor,
    waiting: TaskTurnWaitingOn,
    action_json: Seq<char>,
    event_json: Seq<char>,
) -> Seq<Seq<char>> {
    seq![
        crate::turn::or_default(crate::text::opt_str(before.latest_user_goal_summary), ""@),
        crate::turn::or_default(crate::text::opt_str(before.task_object), ""@),
        before.task_kind@,
        execution_label(execution),
        actor_label(actor),
        waiting_label(waiting),
        relation_label(before.relation_to_prior),
        action_json,
        event_json,
    ]
}

/// The latest action's wording, in lower case.
fn wording_of(a: &TurnAction) -> (r: String)
    ensures
        r@ == action_wording(*a),
{
    let text = concat(
        concat(concat(concat(a.action_kind.as_str(), " ").as_str(), a.semantic_delta_kind.as_str()).as_str(), " ").as_str(),
        a.semantic_after_hint.as_str(),
    );
    ascii_lowercase(text.as_str())
}

/// The axes of a turn after its latest action, with the reason.
pub fn turn_axes_after(wording: &str, before: &TurnSupport) -> (r: (
    TaskExecutionState,
    TaskTurnActor,
    TaskTurnWaitingOn,
    &'static str,
))
    ensures
        (r.0, r.1, r.2, r.3@) == axes_after(wording@, *before),
{
    if is_completion_text(wording) {
        (
            TaskExecutionState::Completed,
            TaskTurnActor::AssistantOrAgent,
            TaskTurnWaitingOn::Nobody,
            "turn_scoped_action_completion",
        )
    } else if str_contains(wording, "blocked") || str_contains(wording, "error") || str_contains(
        wording,
        "failure",
    ) || str_contains(wording, "failed") {
        (
            TaskExecutionState::Blocked,
            TaskTurnActor::AssistantOrAgent,
            TaskTurnWaitingOn::External,
            "turn_scoped_action_blocked",
        )
    } else if str_contains(wording, "editing") || str_contains(wording, "implement") || str_contains(
        wording,
        "trace",
    ) || str_contains(wording, "investigat") || str_contains(wording, "navigat") || str_contains(
        wording,
        "search",
    ) || str_contains(wording, "test") {
        (
            TaskExecutionState::Active,
            TaskTurnActor::AssistantOrAgent,
            TaskTurnWaitingOn::Agent,
            "turn_scoped_action_active",
        )
    } else {
        (
            before.execution_state,
            before.current_actor,
            before.waiting_on,
            "turn_scoped_action_no_axis_change",
        )
    }
}

/// Two lists of strings are equal.
fn strings_equal(a: &Vec<String>, b: &Vec<String>) -> (r: bool)
    ensures
        r == (strs(a@) == strs(b@)),
{
    if a.len() != b.len() {
        return false;
    }
    let mut i: usize = 0;
    while i < a.len()
        invariant
            i <= a@.len(),
            a@.len() == b@.len(),
            forall|k: int| 0 <= k < i ==> (#[trigger] strs(a@)[k]) == strs(b@)[k],
        decreases a.len() - i,
    {
        if !crate::text::str_eq(a[i].as_str(), b[i].as_str()) {
            assert(strs(a@)[i as int] != strs(b@)[i as int]);
            return false;
        }
        i = i + 1;
    }
    assert(strs(a@) =~= strs(b@));
    true
}

/// The ids of the actions, and every event they name with the linked ones.
fn collect_support(actions: &Vec<TurnAction>, linked_event_ids: Vec<String>) -> (r: (
    Vec<String>,
    Vec<String>,
))
    ensures
        strs(r.0@) == action_ids(actions@),
        strs(r.1@) == strs(linked_event_ids@) + strs(r.1@).skip(linked_event_ids@.len() as int),
        strs(r.1@).to_set() == strs(linked_event_ids@).to_set().union(action_events(actions@)),
{
    let mut ids: Vec<String> = Vec::new();
    let mut events: Vec<String> = linked_event_ids;
    let ghost linked = strs(events@);
    let mut i: usize = 0;
    assert(actions@.take(0) =~= Seq::<TurnAction>::empty());
    assert(strs(events@).skip(linked.len() as int) =~= Seq::<Seq<char>>::empty());
    while i < actions.len()
        invariant
            i <= actions@.len(),
            strs(ids@) == action_ids(actions@.take(i as int)),
            strs(events@) == linked + strs(events@).skip(linked.len() as int),
            strs(events@).to_set() == linked.to_set().union(action_events(actions@.take(i as int))),
        decreases actions.len() - i,
    {
        let a = &actions[i];
        proof {
            assert(actions@.take(i as int + 1).drop_last() =~= actions@.take(i as int));
            assert(actions@.take(i as int + 1).last() == *a);
        }
        crate::text::push_string(&mut ids, a.id.clone());
        assert(action_ids(actions@.take(i as int + 1)) =~= action_ids(actions@.take(i as int)).push(a.id@));
        let ghost before_events = strs(events@);
        let mut j: usize = 0;
        while j < a.evidence_event_ids.len()
            invariant
                j <= a.evidence_event_ids@.len(),
                strs(events@) == before_events + strs(a.evidence_event_ids@).take(j as int),
            decreases a.evidence_event_ids.len() - j,
        {
            crate::text::push_string(&mut events, a.evidence_event_ids[j].clone());
            assert(strs(a.evidence_event_ids@).take(j as int + 1) =~= strs(a.evidence_event_ids@).take(j as int).push(a.evidence_event_ids@[j as int]@));
            j = j + 1;
        }
        proof {
            let added = strs(a.evidence_event_ids@);
            assert(added.take(j as int) =~= added);
            vstd::seq_lib::seq_to_set_distributes_over_add(before_events, added);
            assert(strs(events@) =~= before_events + added);
            assert(strs(events@).skip(linked.len() as int) =~= before_events.skip(linked.len() as int) + added);
            assert(strs(events@).to_set() =~= linked.to_set().union(action_events(actions@.take(i as int + 1))));
        }
        i = i + 1;
    }
    assert(actions@.take(i as int) =~= actions@);
    (ids, events)
}

/// A turn's axes and support are already what its actions say.
pub open spec fn unchanged(
    before: TurnSupport,
    axes: (TaskExecutionState, TaskTurnActor, TaskTurnWaitingOn, Seq<char>),
    ids: Seq<Seq<char>>,
    events: Set<Seq<char>>,
) -> bool {
    &&& axes.0 == before.execution_state
    &&& axes.1 == before.current_actor
    &&& axes.2 == before.waiting_on
    &&& ids == strs(before.supporting_action_ids@)
    &&& sorted_unique(strs(before.supporting_event_ids@))
    &&& strs(before.supporting_event_ids@).to_set() == events
}

/// `f` is what finalizing `before` from `actions` and the linked events
/// writes: the turn was not already what its actions say, the latest action
/// sets the axes, the support is the actions and the sorted distinct events,
/// the reason joins the turn's reasons, the fingerprint covers the axes and
/// support, and the revision goes up by one.
pub open spec fn finalization_of(
    before: TurnSupport,
    actions: Seq<TurnAction>,
    linked: Seq<Seq<char>>,
    f: TurnFinalization,
) -> bool {
    let axes = axes_after(action_wording(actions.last()), before);
    let ids = action_ids(actions);
    let events = linked.to_set().union(action_events(actions));
    &&& !unchanged(before, axes, ids, events)
    &&& (f.execution_state, f.current_actor, f.waiting_on, f.reason@) == axes
    &&& strs(f.supporting_action_ids@) == ids
    &&& sorted_unique(strs(f.supporting_event_ids@))
    &&& strs(f.supporting_event_ids@).to_set() == events
    &&& f.supporting_action_ids_json@ == json_strings(ids)
    &&& f.supporting_event_ids_json@ == json_strings(strs(f.supporting_event_ids@))
    &&& sorted_unique(strs(f.reason_codes@))
    &&& strs(f.reason_codes@).to_set() == strs(before.reason_codes@).to_set().insert(axes.3)
    &&& f.material_fingerprint@ == hex16(
        fnv1a(
            encode_utf8(
                joined(
                    fingerprint_parts(
                        before,
                        axes.0,
                        axes.1,
                        axes.2,
                        f.supporting_action_ids_json@,
                        f.supporting_event_ids_json@,
                    ),
                ),
            ),
        ),
    )
    &&& f.revision == before.revision + 1
    &&& f.history_observed_at_ms == actions.last().created_at_ms
}

/// The turn as it stands once a finalization is written.
pub open spec fn applied(before: TurnSupport, f: TurnFinalization) -> TurnSupport {
    TurnSupport {
        execution_state: f.execution_state,
        current_actor: f.current_actor,
        waiting_on: f.waiting_on,
        supporting_action_ids: f.supporting_action_ids,
        supporting_event_ids: f.supporting_event_ids,
        reason_codes: f.reason_codes,
        revision: f.revision,
        ..before
    }
}

/// Finalizing is idempotent: once a finalization is written, finalizing the
/// turn again from the same actions and linked events finds it already what
/// its actions say, and writes nothing.
pub proof fn law_finalization_is_idempotent(
    before: TurnSupport,
    actions: Seq<TurnAction>,
    linked: Seq<Seq<char>>,
    f: TurnFinalization,
)
    requires
        actions.len() > 0,
        finalization_of(before, actions, linked, f),
    ensures
        unchanged(
            applied(before, f),
            axes_after(action_wording(actions.last()), applied(before, f)),
            action_ids(actions),
            linked.to_set().union(action_events(actions)),
        ),
{
}

/// Finalizes a turn from its actions, in order, and the events linked to
/// them elsewhere. Nothing is written when there are no actions or when the
/// turn is already what its actions say; otherwise the latest action sets
/// the axes, the supporting events are the sorted distinct events named,
/// the reason joins the turn's reasons, and the revision goes up by one.
pub fn finalize_turn(
    before: &TurnSupport,
    actions: &Vec<TurnAction>,
    linked_event_ids: Vec<String>,
) -> (r: Result<Option<TurnFinalization>, String>)
    requires
        before.revision < i64::MAX,
    ensures
        r is Ok,
        actions@.len() == 0 ==> r matches Ok(None),
        actions@.len() > 0 ==> ({
            let axes = axes_after(action_wording(actions@.last()), *before);
            let ids = action_ids(actions@);
            let events = strs(linked_event_ids@).to_set().union(action_events(actions@));
            match r {
                Ok(None) => unchanged(*before, axes, ids, events),
                Ok(Some(f)) => finalization_of(*before, actions@, strs(linked_event_ids@), f),
                Err(_) => true,
            }
        }),
{
    if actions.len() == 0 {
        return Ok(None);
    }
    let (ids, gathered) = collect_support(actions, linked_event_ids);
    let events = sort_dedup(gathered);
    let latest = &actions[actions.len() - 1];
    let wording = wording_of(latest);
    let (execution, actor, waiting, reason) = turn_axes_after(wording.as_str(), before);
    let same_ids = strings_equal(&ids, &before.supporting_action_ids);
    let same_events = strings_equal(&events, &before.supporting_event_ids);
    proof {
        if sorted_unique(strs(before.supporting_event_ids@)) && strs(before.supporting_event_ids@).to_set()
            == strs(events@).to_set() {
            crate::text::lemma_sorted_unique_same_set(strs(before.supporting_event_ids@), strs(events@));
        }
    }
    let same_execution = crate::text::str_eq(execution.label(), before.execution_state.label());
    let same_actor = crate::text::str_eq(actor.label(), before.current_actor.label());
    let same_waiting = crate::text::str_eq(waiting.label(), before.waiting_on.label());
    proof {
        if same_execution {
            crate::turn::law_task_execution_state_labels_are_distinct(execution, before.execution_state);
        }
        if same_actor {
            crate::turn::law_task_turn_actor_labels_are_distinct(actor, before.current_actor);
        }
        if same_waiting {
            crate::turn::law_task_turn_waiting_on_labels_are_distinct(waiting, before.waiting_on);
        }
    }
    if same_execution && same_actor && same_waiting && same_ids && same_events {
        return Ok(None);
    }
    let ids_json = strings_json(&ids)?;
    let events_json = strings_json(&events)?;
    let goal: &str = match &before.latest_user_goal_summary {
        Some(g) => g.as_str(),
        None => "",
    };
    let object: &str = match &before.task_object {
        Some(o) => o.as_str(),
        None => "",
    };
    let parts: [&str; 9] = [
        goal,
        object,
        before.task_kind.as_str(),
        execution.label(),
        actor.label(),
        waiting.label(),
        before.relation_to_prior.label(),
        ids_json.as_str(),
        events_json.as_str(),
    ];
    let fingerprint = material_fingerprint(&parts);
    proof {
        reveal_strlit("");
        assert(parts@.map_values(|p: &str| p@) =~= fingerprint_parts(
            *before,
            execution,
            actor,
            waiting,
            ids_json@,
            events_json@,
        ));
    }
    let mut reasons: Vec<String> = Vec::new();
    crate::text::push_string(&mut reasons, crate::text::copy_str(reason));
    let reason_codes = union_strings(Some(&before.reason_codes), reasons.as_slice());
    proof {
        let sr = strs(reasons@);
        assert(sr =~= seq![reason@]);
        assert forall|x: Seq<char>| sr.to_set().contains(x) <==> x == reason@ by {
            if x == reason@ {
                assert(sr[0] == x);
            }
        }
        assert(sr.to_set() =~= Set::empty().insert(reason@));
        assert(strs(reason_codes@).to_set() =~= strs(before.reason_codes@).to_set().insert(reason@));
    }
    Ok(
        Some(
            TurnFinalization {
                execution_state: execution,
                current_actor: actor,
                waiting_on: waiting,
                reason: crate::text::copy_str(reason),
                supporting_action_ids: ids,
                supporting_event_ids: events,
                supporting_action_ids_json: ids_json,
                supporting_event_ids_json: events_json,
                reason_codes,
                material_fingerprint: fingerprint,
                revision: before.revision + 1,
                history_observed_at_ms: latest.created_at_ms,
            },
        ),
    )
}


/// The decimal digits of a natural number.
pub open spec fn decimal_digits(n: nat) -> Seq<char>
    decreases n,
{
    if n < 10 {
        seq![(('0' as u32) + n) as char]
    } else {
        decimal_digits(n / 10).push((('0' as u32) + n % 10) as char)
    }
}

/// An integer as `format!("{}")` writes it.
pub open spec fn decimal(n: int) -> Seq<char> {
    if n < 0 {
        seq!['-'] + decimal_digits((-n) as nat)
    } else {
        decimal_digits(n as nat)
    }
}

/// The character of a decimal digit.
fn digit_char(d: u64) -> (c: char)
    requires
        d < 10,
    ensures
        c == ((('0' as u32) + d) as char),
{
    match d {
        0 => '0',
        1 => '1',
        2 => '2',
        3 => '3',
        4 => '4',
        5 => '5',
        6 => '6',
        7 => '7',
        8 => '8',
        _ => '9',
    }
}

/// Appends the decimal digits of `n`.
fn push_decimal_digits(v: &mut Vec<char>, n: u64)
    ensures
        final(v)@ == old(v)@ + decimal_digits(n as nat),
    decreases n,
{
    if n >= 10 {
        push_decimal_digits(v, n / 10);
    }
    v.push(digit_char(n % 10));
    assert(v@ =~= old(v)@ + decimal_digits(n as nat));
}

/// An integer as `format!("{}")` writes it.
pub fn i64_to_decimal(n: i64) -> (r: String)
    ensures
        r@ == decimal(n as int),
{
    let mut v: Vec<char> = Vec::new();
    if n < 0 {
        v.push('-');
        let magnitude: u64 = (0i128 - n as i128) as u64;
        push_decimal_digits(&mut v, magnitude);
    } else {
        push_decimal_digits(&mut v, n as u64);
    }
    assert(v@ =~= decimal(n as int));
    crate::text::string_of(&v)
}

/// The material that identifies a lifecycle history record.
pub open spec fn history_material(
    task_turn_id: Seq<char>,
    revision: i64,
    execution: Seq<char>,
    actor: Seq<char>,
    waiting: Seq<char>,
    reason: Seq<char>,
    source: Seq<char>,
) -> Seq<char> {
    task_turn_id + "|"@ + decimal(revision as int) + "|"@ + execution + "|"@ + actor + "|"@ + waiting
        + "|"@ + reason + "|"@ + source
}

/// The id of a lifecycle history record: the same transition of the same
/// revision always gets the same id.
pub fn task_turn_history_id(
    task_turn_id: &str,
    revision: i64,
    execution: &str,
    actor: &str,
    waiting: &str,
    reason: &str,
    source: &str,
) -> (r: String)
    ensures
        r@ == "task-turn-history-"@ + hex16(
            fnv1a(
                encode_utf8(history_material(task_turn_id@, revision, execution@, actor@, waiting@, reason@, source@)),
            ),
        ),
{
    let revision_text = i64_to_decimal(revision);
    let mut material = concat(task_turn_id, "|");
    material = concat(material.as_str(), revision_text.as_str());
    material = concat(material.as_str(), "|");
    material = concat(material.as_str(), execution);
    material = concat(material.as_str(), "|");
    material = concat(material.as_str(), actor);
    material = concat(material.as_str(), "|");
    material = concat(material.as_str(), waiting);
    material = concat(material.as_str(), "|");
    material = concat(material.as_str(), reason);
    material = concat(material.as_str(), "|");
    material = concat(material.as_str(), source);
    let hash = crate::turn::stable_hash(material.as_str().as_bytes());
    concat("task-turn-history-", hash.as_str())
}

/// What superseding a turn writes: its next revision, its reasons with the
/// superseding turn named, and its new fingerprint.
#[derive(Debug, Clone, PartialEq, Eq)]
pub struct TurnSupersession {
    pub revision: i64,
    pub reason_codes: Vec<String>,
    pub material_fingerprint: String,
}

/// What superseding a prior turn by `new_id` writes; nothing when the prior
/// turn is already completed or superseded.
pub fn supersede_turn(prior: &TurnSupport, new_id: &str) -> (r: Option<TurnSupersession>)
    requires
        prior.revision < i64::MAX,
    ensures
        (prior.execution_state == TaskExecutionState::Completed || prior.execution_state
            == TaskExecutionState::Superseded) <==> r is None,
        r matches Some(s) ==> {
            &&& s.revision == prior.revision + 1
            &&& sorted_unique(strs(s.reason_codes@))
            &&& strs(s.reason_codes@).to_set() == strs(prior.reason_codes@).to_set().insert(
                "superseded_by:"@ + new_id@,
            )
            &&& s.material_fingerprint@ == hex16(fnv1a(encode_utf8(joined(seq![
                crate::turn::or_default(crate::text::opt_str(prior.latest_user_goal_summary), ""@),
                "superseded"@,
                new_id@,
            ]))))
        },
{
    match prior.execution_state {
        TaskExecutionState::Completed | TaskExecutionState::Superseded => {
            return None;
        },
        _ => {},
    }
    let reason = concat("superseded_by:", new_id);
    let mut reasons: Vec<String> = Vec::new();
    crate::text::push_string(&mut reasons, reason);
    let reason_codes = union_strings(Some(&prior.reason_codes), reasons.as_slice());
    proof {
        let sr = strs(reasons@);
        let expected = "superseded_by:"@ + new_id@;
        assert(sr =~= seq![expected]);
        assert forall|x: Seq<char>| sr.to_set().contains(x) <==> x == expected by {
            if x == expected {
                assert(sr[0] == x);
            }
        }
        assert(sr.to_set() =~= Set::empty().insert(expected));
        assert(strs(reason_codes@).to_set() =~= strs(prior.reason_codes@).to_set().insert(expected));
    }
    let goal: &str = match &prior.latest_user_goal_summary {
        Some(g) => g.as_str(),
        None => "",
    };
    let parts: [&str; 3] = [goal, "superseded", new_id];
    let fingerprint = material_fingerprint(&parts);
    proof {
        reveal_strlit("");
        assert(parts@.map_values(|p: &str| p@) =~= seq![
            crate::turn::or_default(crate::text::opt_str(prior.latest_user_goal_summary), ""@),
            "superseded"@,
            new_id@,
        ]);
    }
    Some(
        TurnSupersession {
            revision: prior.revision + 1,
            reason_codes,
            material_fingerprint: fingerprint,
        },
    )
}


/// The workstream of the first candidate for `turn`, if any.
pub open spec fn first_workstream(candidates: Seq<(String, String)>, turn: Seq<char>) -> Option<Seq<char>>
    decreases candidates.len(),
{
    if candidates.len() == 0 {
        None
    } else if candidates[0].0@ == turn {
        Some(candidates[0].1@)
    } else {
        first_workstream(candidates.drop_first(), turn)
    }
}

/// The turns named by the candidates.
pub open spec fn candidate_turns(candidates: Seq<(String, String)>) -> Seq<Seq<char>> {
    candidates.map_values(|c: (String, String)| c.0@)
}

/// The workstream of the first candidate for a turn.
fn first_workstream_of(candidates: &Vec<(String, String)>, turn: &str) -> (r: Option<String>)
    ensures
        opt_str(r) == first_workstream(candidates@, turn@),
{
    let mut i: usize = 0;
    assert(candidates@.skip(0) =~= candidates@);
    while i < candidates.len()
        invariant
            i <= candidates@.len(),
            first_workstream(candidates@, turn@) == first_workstream(candidates@.skip(i as int), turn@),
        decreases candidates.len() - i,
    {
        proof {
            assert(candidates@.skip(i as int).drop_first() =~= candidates@.skip(i as int + 1));
        }
        if crate::text::str_eq(candidates[i].0.as_str(), turn) {
            return Some(candidates[i].1.clone());
        }
        i = i + 1;
    }
    None
}

/// A turn's candidate workstreams, best first, pick its workstream: for
/// each turn named, in order of turn id, the first candidate's workstream.
pub fn chosen_workstreams(candidates: &Vec<(String, String)>) -> (r: (Vec<String>, Vec<String>))
    ensures
        sorted_unique(strs(r.0@)),
        strs(r.0@).to_set() == candidate_turns(candidates@).to_set(),
        r.1@.len() == r.0@.len(),
        forall|k: int| 0 <= k < r.0@.len() ==> first_workstream(candidates@, (#[trigger] r.0@[k])@)
            == Some(r.1@[k]@),
{
    let mut turns: Vec<String> = Vec::new();
    let mut i: usize = 0;
    while i < candidates.len()
        invariant
            i <= candidates@.len(),
            strs(turns@) == candidate_turns(candidates@).take(i as int),
        decreases candidates.len() - i,
    {
        crate::text::push_string(&mut turns, candidates[i].0.clone());
        assert(candidate_turns(candidates@).take(i as int + 1) =~= candidate_turns(candidates@).take(i as int).push(candidates@[i as int].0@));
        i = i + 1;
    }
    assert(candidate_turns(candidates@).take(i as int) =~= candidate_turns(candidates@));
    let turns = sort_dedup(turns);
    let mut workstreams: Vec<String> = Vec::new();
    let mut k: usize = 0;
    while k < turns.len()
        invariant
            k <= turns@.len(),
            strs(turns@).to_set() == candidate_turns(candidates@).to_set(),
            workstreams@.len() == k,
            forall|j: int| 0 <= j < k ==> first_workstream(candidates@, (#[trigger] turns@[j])@)
                == Some(workstreams@[j]@),
        decreases turns.len() - k,
    {
        let found = first_workstream_of(candidates, turns[k].as_str());
        proof {
            let t = turns@[k as int]@;
            assert(strs(turns@)[k as int] == t);
            assert(strs(turns@).to_set().contains(t));
            assert(candidate_turns(candidates@).contains(t));
            let c = choose|c: int| 0 <= c < candidates@.len() && candidate_turns(candidates@)[c] == t;
            lemma_first_workstream_exists(candidates@, t, c);
        }
        if let Some(w) = found {
            workstreams.push(w);
        }
        k = k + 1;
    }
    (turns, workstreams)
}

/// A turn named by some candidate has a first candidate.
proof fn lemma_first_workstream_exists(candidates: Seq<(String, String)>, turn: Seq<char>, c: int)
    requires
        0 <= c < candidates.len(),
        candidates[c].0@ == turn,
    ensures
        first_workstream(candidates, turn) is Some,
    decreases candidates.len(),
{
    if candidates[0].0@ != turn {
        assert(candidates.drop_first()[c - 1] == candidates[c]);
        lemma_first_workstream_exists(candidates.drop_first(), turn, c - 1);
    }
}

/// What linking a turn to a workstream reads of the turn.
#[derive(Debug, Clone, PartialEq, Eq)]
pub struct WorkstreamLinkBefore {
    pub workstream_id: Option<String>,
    pub latest_user_goal_hash: Option<String>,
    pub execution_state: TaskExecutionState,
    pub current_actor: TaskTurnActor,
    pub waiting_on: TaskTurnWaitingOn,
    pub relation_to_prior: TaskTurnRelation,
    pub revision: i64,
}

/// What linking a turn to a workstream writes.
#[derive(Debug, Clone, PartialEq, Eq)]
pub struct WorkstreamLink {
    /// The turn moves to another workstream, with a new fingerprint.
    pub moved: Option<String>,
    pub revision: i64,
    pub membership_reason_codes: Vec<String>,
}

/// Links a turn to its chosen workstream: a turn that moves gets the next
/// revision and a fingerprint of its axes and workstream; its membership is
/// justified by the actions and the current turn either way.
pub fn workstream_link(before: &WorkstreamLinkBefore, workstream_id: &str) -> (r: WorkstreamLink)
    requires
        before.revision < i64::MAX,
    ensures
        (opt_str(before.workstream_id) == Some(workstream_id@)) <==> r.moved is None,
        r.revision == (if r.moved is None {
            before.revision as int
        } else {
            before.revision + 1
        }),
        r.moved matches Some(f) ==> f@ == hex16(fnv1a(encode_utf8(joined(seq![
            crate::turn::or_default(opt_str(before.latest_user_goal_hash), ""@),
            execution_label(before.execution_state),
            actor_label(before.current_actor),
            waiting_label(before.waiting_on),
            relation_label(before.relation_to_prior),
            workstream_id@,
        ])))),
        strs(r.membership_reason_codes@) == seq![
            "action_episode_workstream_membership"@,
            "current_task_turn_justifies_selection"@,
        ],
{
    let unchanged = match &before.workstream_id {
        Some(w) => crate::text::str_eq(w.as_str(), workstream_id),
        None => false,
    };
    let mut reasons: Vec<String> = Vec::new();
    crate::text::push_string(&mut reasons, crate::text::copy_str("action_episode_workstream_membership"));
    crate::text::push_string(&mut reasons, crate::text::copy_str("current_task_turn_justifies_selection"));
    assert(strs(reasons@) =~= seq![
        "action_episode_workstream_membership"@,
        "current_task_turn_justifies_selection"@,
    ]);
    if unchanged {
        return WorkstreamLink { moved: None, revision: before.revision, membership_reason_codes: reasons };
    }
    let goal_hash: &str = match &before.latest_user_goal_hash {
        Some(h) => h.as_str(),
        None => "",
    };
    let parts: [&str; 6] = [
        goal_hash,
        before.execution_state.label(),
        before.current_actor.label(),
        before.waiting_on.label(),
        before.relation_to_prior.label(),
        workstream_id,
    ];
    let fingerprint = material_fingerprint(&parts);
    proof {
        reveal_strlit("");
        assert(parts@.map_values(|p: &str| p@) =~= seq![
            crate::turn::or_default(opt_str(before.latest_user_goal_hash), ""@),
            execution_label(before.execution_state),
            actor_label(before.current_actor),
            waiting_label(before.waiting_on),
            relation_label(before.relation_to_prior),
            workstream_id@,
        ]);
    }
    WorkstreamLink { moved: Some(fingerprint), revision: before.revision + 1, membership_reason_codes: reasons }
}

} // verus!
