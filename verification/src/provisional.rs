//! The pure parts of a provisional task turn: its id, how it relates to the
//! prior turn, its lifecycle axes from the agent's state, and the object it
//! is about.
//!
//! Public text enters already summarized and sanitized; where a summary of
//! new text is needed (the words naming a task object, the agent state
//! kept as completion evidence) this module says so and the caller
//! sanitizes it.
use vstd::prelude::*;
use vstd::utf8::encode_utf8;
use crate::contract::concat;
use crate::field_rules::{utf8_len, utf8_len_at_most};
use crate::relation::{alphanumeric, relation_of, relation_to_prior, PriorTurnSummary};
use crate::text::{
    sorted_unique, ascii_lower, ascii_lowercase, chars_of, contains, copy_str, opt_str, str_contains, str_eq,
    string_of, strs, trim,
};
use crate::turn::{
    completion_text, fnv1a, hex16, is_completion_text, or_default, relation_label, stable_hash,
    TaskExecutionState, TaskTurnActor, TaskTurnRelation, TaskTurnWaitingOn,
};

verus! {

/// The schema of a current task turn.
pub const CURRENT_TASK_TURN_SCHEMA: &'static str = "smalltalk.current_task_turn.v2";

/// The lifecycle axes a provisional turn starts with.
#[derive(Debug, Clone, PartialEq, Eq)]
pub struct ProvisionalAxes {
    pub current_actor: TaskTurnActor,
    pub execution_state: TaskExecutionState,
    pub waiting_on: TaskTurnWaitingOn,
    /// The agent's state is kept, sanitized, as evidence of completion.
    pub agent_state_is_completion_evidence: bool,
    pub reason_codes: Vec<String>,
}

/// Wording of an agent waiting for the user.
pub open spec fn waits_for_user(l: Seq<char>) -> bool {
    contains(l, "waiting for you"@) || contains(l, "need you to"@) || contains(l, "please provide"@)
}

/// Wording of an agent waiting on something external.
pub open spec fn waits_externally(l: Seq<char>) -> bool {
    contains(l, "waiting for external"@) || contains(l, "pending external"@) || contains(
        l,
        "blocked by"@,
    )
}

/// Wording of an agent that cannot go on.
pub open spec fn cannot_proceed(l: Seq<char>) -> bool {
    contains(l, "blocked"@) || contains(l, "cannot proceed"@) || contains(l, "can't proceed"@)
}

/// The axes of a provisional turn, from the agent's state when there is
/// one: completion wording completes it, otherwise the agent works, blocked
/// or not, waiting on the user, on something external, or on itself.
/// Without agent state, a user goal leaves the agent to act; without either,
/// nothing is known.
pub open spec fn axes_of(agent_state: Option<Seq<char>>, has_user_goal: bool) -> (
    TaskTurnActor,
    TaskExecutionState,
    TaskTurnWaitingOn,
    bool,
    Seq<Seq<char>>,
) {
    let l = ascii_lower(or_default(agent_state, Seq::empty()));
    if l.len() > 0 && completion_text(l) {
        (
            TaskTurnActor::AssistantOrAgent,
            TaskExecutionState::Completed,
            TaskTurnWaitingOn::Nobody,
            true,
            seq!["attributed_agent_completion_after_user_boundary"@],
        )
    } else if l.len() > 0 {
        (
            TaskTurnActor::AssistantOrAgent,
            if cannot_proceed(l) {
                TaskExecutionState::Blocked
            } else {
                TaskExecutionState::Active
            },
            if waits_for_user(l) {
                TaskTurnWaitingOn::User
            } else if waits_externally(l) {
                TaskTurnWaitingOn::External
            } else {
                TaskTurnWaitingOn::Agent
            },
            false,
            seq!["current_agent_state_after_user_boundary"@],
        )
    } else if has_user_goal {
        (
            TaskTurnActor::User,
            TaskExecutionState::Active,
            TaskTurnWaitingOn::Agent,
            false,
            seq!["latest_user_goal_without_agent_state"@],
        )
    } else {
        (
            TaskTurnActor::Unknown,
            TaskExecutionState::Unclear,
            TaskTurnWaitingOn::Unknown,
            false,
            seq!["missing_typed_user_and_agent_state"@],
        )
    }
}

/// One reason.
fn one_reason(reason: &str) -> (r: Vec<String>)
    ensures
        strs(r@) == seq![reason@],
{
    let mut v: Vec<String> = Vec::new();
    crate::text::push_string(&mut v, copy_str(reason));
    assert(strs(v@) =~= seq![reason@]);
    v
}

/// The axes of a provisional turn.
pub fn provisional_axes(agent_state: Option<&str>, has_user_goal: bool) -> (r: ProvisionalAxes)
    ensures
        (r.current_actor, r.execution_state, r.waiting_on, r.agent_state_is_completion_evidence, strs(
            r.reason_codes@,
        )) == axes_of(
            match agent_state {
                Some(s) => Some(s@),
                None => None,
            },
            has_user_goal,
        ),
{
    let state: &str = match agent_state {
        Some(s) => s,
        None => "",
    };
    proof {
        reveal_strlit("");
    }
    let lower = ascii_lowercase(state);
    let l = lower.as_str();
    let present = !l.is_empty();
    if present && is_completion_text(l) {
        return ProvisionalAxes {
            current_actor: TaskTurnActor::AssistantOrAgent,
            execution_state: TaskExecutionState::Completed,
            waiting_on: TaskTurnWaitingOn::Nobody,
            agent_state_is_completion_evidence: true,
            reason_codes: one_reason("attributed_agent_completion_after_user_boundary"),
        };
    }
    if present {
        let waiting = if str_contains(l, "waiting for you") || str_contains(l, "need you to")
            || str_contains(l, "please provide") {
            TaskTurnWaitingOn::User
        } else if str_contains(l, "waiting for external") || str_contains(l, "pending external")
            || str_contains(l, "blocked by") {
            TaskTurnWaitingOn::External
        } else {
            TaskTurnWaitingOn::Agent
        };
        let execution = if str_contains(l, "blocked") || str_contains(l, "cannot proceed")
            || str_contains(l, "can't proceed") {
            TaskExecutionState::Blocked
        } else {
            TaskExecutionState::Active
        };
        return ProvisionalAxes {
            current_actor: TaskTurnActor::AssistantOrAgent,
            execution_state: execution,
            waiting_on: waiting,
            agent_state_is_completion_evidence: false,
            reason_codes: one_reason("current_agent_state_after_user_boundary"),
        };
    }
    if has_user_goal {
        ProvisionalAxes {
            current_actor: TaskTurnActor::User,
            execution_state: TaskExecutionState::Active,
            waiting_on: TaskTurnWaitingOn::Agent,
            agent_state_is_completion_evidence: false,
            reason_codes: one_reason("latest_user_goal_without_agent_state"),
        }
    } else {
        ProvisionalAxes {
            current_actor: TaskTurnActor::Unknown,
            execution_state: TaskExecutionState::Unclear,
            waiting_on: TaskTurnWaitingOn::Unknown,
            agent_state_is_completion_evidence: false,
            reason_codes: one_reason("missing_typed_user_and_agent_state"),
        }
    }
}

/// The id of a provisional turn: a stable hash of the schema, the session
/// (or "none") and the identity of the user boundary.
pub open spec fn turn_id(session_id: Option<Seq<char>>, boundary_identity: Seq<char>) -> Seq<char> {
    "task-turn-"@ + hex16(
        fnv1a(
            encode_utf8(
                CURRENT_TASK_TURN_SCHEMA@ + "|"@ + or_default(session_id, "none"@) + "|"@
                    + boundary_identity,
            ),
        ),
    )
}

/// The identity of a turn's user boundary: the goal's hash, or else the
/// goal's text hash, or else the record the first user span came from, or
/// else the frame.
pub open spec fn boundary_identity(
    user_hash: Option<Seq<char>>,
    first_record: Option<Seq<char>>,
    summary_hash: Option<Seq<char>>,
    frame_id: Seq<char>,
) -> Seq<char> {
    match user_hash {
        Some(h) => h,
        None => match summary_hash {
            Some(h) => h,
            None => match first_record {
                Some(r) => r,
                None => "frame:"@ + frame_id,
            },
        },
    }
}

/// The hash under which public text is kept without the text.
pub open spec fn public_text_hash(s: Seq<char>) -> Seq<char> {
    hex16(fnv1a(encode_utf8("task-turn-public-text|"@ + crate::turn::normalized(s))))
}

/// The id of a provisional turn.
pub fn provisional_turn_id(
    session_id: Option<&str>,
    user_hash: Option<&str>,
    first_user_record_id: Option<&str>,
    goal_summary: Option<&str>,
    frame_id: &str,
) -> (r: String)
    ensures
        r@ == turn_id(
            match session_id {
                Some(s) => Some(s@),
                None => None,
            },
            boundary_identity(
                match user_hash {
                    Some(h) => Some(h@),
                    None => None,
                },
                match first_user_record_id {
                    Some(x) => Some(x@),
                    None => None,
                },
                match goal_summary {
                    Some(g) => Some(public_text_hash(g@)),
                    None => None,
                },
                frame_id@,
            ),
        ),
{
    let identity = match user_hash {
        Some(h) => copy_str(h),
        None => match goal_summary {
            Some(g) => crate::turn::text_hash(g),
            None => match first_user_record_id {
                Some(r) => copy_str(r),
                None => concat("frame:", frame_id),
            },
        },
    };
    let session: &str = match session_id {
        Some(s) => s,
        None => "none",
    };
    let head = concat(concat(CURRENT_TASK_TURN_SCHEMA, "|").as_str(), session);
    let material = concat(concat(head.as_str(), "|").as_str(), identity.as_str());
    let hash = stable_hash(material.as_str().as_bytes());
    concat("task-turn-", hash.as_str())
}

/// What a new provisional turn reads of the turn before it.
#[derive(Debug, Clone, PartialEq, Eq)]
pub struct PriorTurnLineage {
    pub task_turn_id: String,
    pub latest_user_goal_hash: Option<String>,
    pub latest_user_goal_summary: Option<String>,
    pub execution_state: TaskExecutionState,
    pub relation_to_prior: TaskTurnRelation,
    pub prior_task_turn_id: Option<String>,
    pub supersedes_task_turn_id: Option<String>,
    pub parent_task_turn_id: Option<String>,
}

/// Where a provisional turn stands among the turns before it.
#[derive(Debug, Clone, PartialEq, Eq)]
pub struct ProvisionalLineage {
    pub relation: String,
    pub prior_id: Option<String>,
    pub supersedes_id: Option<String>,
    pub parent_id: Option<String>,
    pub reason_codes: Vec<String>,
}

/// The relation of a provisional turn: a turn seen again keeps its
/// relation; otherwise it is related to the prior turn by its goal, and is
/// the same turn when the goal's hash is the prior's.
pub open spec fn lineage_relation(
    id: Seq<char>,
    goal: Option<Seq<char>>,
    goal_hash: Option<Seq<char>>,
    prior: Option<PriorTurnLineage>,
) -> Seq<char> {
    match prior {
        Some(p) => if p.task_turn_id@ == id {
            relation_label(p.relation_to_prior)
        } else {
            relation_of(
                goal,
                Some((opt_str(p.latest_user_goal_summary), p.execution_state)),
                opt_str(p.latest_user_goal_hash) is Some && opt_str(p.latest_user_goal_hash) == goal_hash,
            )
        },
        None => relation_of(goal, None, false),
    }
}

/// How a provisional turn stands among the turns before it: a turn seen
/// again keeps its links; a new one links to the prior turn, supersedes it
/// or hangs under it as its relation says; its reasons name the typed
/// boundary, the axes' reasons and the relation.
pub fn provisional_lineage(
    id: &str,
    goal_summary: Option<&str>,
    goal_hash: Option<&str>,
    prior: Option<&PriorTurnLineage>,
    axis_reasons: &Vec<String>,
) -> (r: ProvisionalLineage)
    ensures
        ({
            let goal = match goal_summary {
                Some(g) => Some(g@),
                None => None,
            };
            let hash = match goal_hash {
                Some(h) => Some(h@),
                None => None,
            };
            let p = match prior {
                Some(p) => Some(*p),
                None => None,
            };
            let relation = lineage_relation(id@, goal, hash, p);
            &&& r.relation@ == relation
            &&& strs(r.reason_codes@) == seq!["provisional_boundary_from_p6_02_typed_evidence"@]
                + strs(axis_reasons@) + seq!["relation_"@ + relation]
            &&& match p {
                Some(p) => if p.task_turn_id@ == id@ {
                    &&& r.prior_id == p.prior_task_turn_id
                    &&& r.supersedes_id == p.supersedes_task_turn_id
                    &&& r.parent_id == p.parent_task_turn_id
                } else {
                    &&& opt_str(r.prior_id) == Some(p.task_turn_id@)
                    &&& opt_str(r.supersedes_id) == (if relation == "supersedes"@ {
                        Some(p.task_turn_id@)
                    } else {
                        None
                    })
                    &&& opt_str(r.parent_id) == (if relation == "child_support_step"@ {
                        Some(p.task_turn_id@)
                    } else {
                        None
                    })
                },
                None => r.prior_id is None && r.supersedes_id is None && r.parent_id is None,
            }
        }),
{
    let same_persisted = match prior {
        Some(p) => str_eq(p.task_turn_id.as_str(), id),
        None => false,
    };
    let relation: String = match prior {
        Some(p) => if same_persisted {
            copy_str(p.relation_to_prior.label())
        } else {
            let same_as_prior = match (&p.latest_user_goal_hash, goal_hash) {
                (Some(l), Some(r)) => str_eq(l.as_str(), r),
                _ => false,
            };
            let summary = PriorTurnSummary {
                latest_user_goal_summary: crate::capture::copy_opt_str(&p.latest_user_goal_summary),
                execution_state: p.execution_state,
            };
            copy_str(relation_to_prior(goal_summary, Some(&summary), same_as_prior))
        },
        None => copy_str(relation_to_prior(goal_summary, None, false)),
    };
    let (prior_id, supersedes_id, parent_id) = match prior {
        Some(p) => if same_persisted {
            (
                p.prior_task_turn_id.clone(),
                p.supersedes_task_turn_id.clone(),
                p.parent_task_turn_id.clone(),
            )
        } else {
            let supersedes = if str_eq(relation.as_str(), "supersedes") {
                Some(p.task_turn_id.clone())
            } else {
                None
            };
            let parent = if str_eq(relation.as_str(), "child_support_step") {
                Some(p.task_turn_id.clone())
            } else {
                None
            };
            (Some(p.task_turn_id.clone()), supersedes, parent)
        },
        None => (None, None, None),
    };
    let mut reasons: Vec<String> = Vec::new();
    crate::text::push_string(&mut reasons, copy_str("provisional_boundary_from_p6_02_typed_evidence"));
    let mut i: usize = 0;
    while i < axis_reasons.len()
        invariant
            i <= axis_reasons@.len(),
            strs(reasons@) == seq!["provisional_boundary_from_p6_02_typed_evidence"@] + strs(axis_reasons@).take(i as int),
        decreases axis_reasons.len() - i,
    {
        crate::text::push_string(&mut reasons, axis_reasons[i].clone());
        assert(strs(axis_reasons@).take(i as int + 1) =~= strs(axis_reasons@).take(i as int).push(axis_reasons@[i as int]@));
        i = i + 1;
    }
    assert(strs(axis_reasons@).take(i as int) =~= strs(axis_reasons@));
    crate::text::push_string(&mut reasons, concat("relation_", relation.as_str()));
    assert(strs(reasons@) =~= seq!["provisional_boundary_from_p6_02_typed_evidence"@] + strs(axis_reasons@) + seq![
        "relation_"@ + relation@,
    ]);
    ProvisionalLineage { relation, prior_id, supersedes_id, parent_id, reason_codes: reasons }
}


/// A character that belongs to a word of a task object: alphanumeric, a
/// hyphen or an underscore.
pub open spec fn object_word_char(c: char) -> bool {
    alphanumeric(c) || c == '-' || c == '_'
}

/// The pieces of a text split at every character that is not a word
/// character, empty pieces included.
pub open spec fn object_pieces(s: Seq<char>) -> Seq<Seq<char>>
    decreases s.len(),
{
    if s.len() == 0 {
        seq![Seq::<char>::empty()]
    } else {
        let prev = object_pieces(s.drop_last());
        if object_word_char(s.last()) {
            prev.drop_last().push(prev.last().push(s.last()))
        } else {
            prev.push(Seq::<char>::empty())
        }
    }
}

/// Words that never name a task object.
pub open spec fn stop_word(w: Seq<char>) -> bool {
    w == "implement"@ || w == "update"@ || w == "fix"@ || w == "investigate"@ || w == "trace"@ || w == "review"@ || w == "check"@ || w == "please"@ || w == "can"@ || w == "could"@ || w == "would"@ || w == "why"@ || w == "how"@ || w == "what"@ || w == "the"@ || w == "a"@ || w == "an"@ || w == "this"@ || w == "that"@ || w == "is"@ || w == "does"@ || w == "do"@ || w == "to"@ || w == "for"@ || w == "in"@ || w == "on"@ || w == "and"@ || w == "it"@ || w == "well"@
}

/// The pieces that may name a task object: longer than two bytes and not a
/// stop word in any case.
pub open spec fn object_words(ps: Seq<Seq<char>>) -> Seq<Seq<char>>
    decreases ps.len(),
{
    if ps.len() == 0 {
        Seq::empty()
    } else {
        let prev = object_words(ps.drop_last());
        let t = ps.last();
        if utf8_len(t) > 2 && !stop_word(ascii_lower(t)) {
            prev.push(t)
        } else {
            prev
        }
    }
}

/// A lowercase text with hyphens and underscores read as spaces.
pub open spec fn spaced(s: Seq<char>) -> Seq<char> {
    s.map_values(|c: char| if c == '-' || c == '_' { ' ' } else { c })
}

/// The known task objects, by the phrase that names them.
pub open spec fn known_object(l: Seq<char>) -> Option<Seq<char>> {
    if contains(l, "capture button"@) {
        Some("island_capture_button"@)
    } else if contains(l, "continue card copy"@) {
        Some("continue_card_copy"@)
    } else if contains(l, "continue card"@) {
        Some("continue_card"@)
    } else if contains(l, "activity recap"@) {
        Some("activity_recap"@)
    } else if contains(l, "task turn"@) {
        Some("current_task_turn"@)
    } else {
        None
    }
}

/// What names the object of a goal.
#[derive(Debug, Clone, PartialEq, Eq)]
pub enum TaskObjectCandidate {
    /// A known object, by its label.
    Known(String),
    /// The goal's first words that may name an object, joined by spaces;
    /// the caller keeps their sanitized summary.
    Words(String),
    /// Nothing names an object.
    Nothing,
}

/// A word that never names a task object.
fn is_stop_word(w: &str) -> (b: bool)
    ensures
        b == stop_word(w@),
{
    str_eq(w, "implement") || str_eq(w, "update") || str_eq(w, "fix") || str_eq(w, "investigate") || str_eq(w, "trace") || str_eq(w, "review") || str_eq(w, "check") || str_eq(w, "please") || str_eq(w, "can") || str_eq(w, "could") || str_eq(w, "would") || str_eq(w, "why") || str_eq(w, "how") || str_eq(w, "what") || str_eq(w, "the") || str_eq(w, "a") || str_eq(w, "an") || str_eq(w, "this") || str_eq(w, "that") || str_eq(w, "is") || str_eq(w, "does") || str_eq(w, "do") || str_eq(w, "to") || str_eq(w, "for") || str_eq(w, "in") || str_eq(w, "on") || str_eq(w, "and") || str_eq(w, "it") || str_eq(w, "well")
}

/// Whether a character belongs to a word of a task object.
fn is_object_word_char(c: char) -> (b: bool)
    ensures
        b == object_word_char(c),
{
    c == '-' || c == '_' || crate::relation::char_is_alphanumeric(c)
}

/// Adds a finished piece to the object words when it may name an object.
fn add_object_piece(words: &mut Vec<String>, piece: &Vec<char>)
    ensures
        strs(final(words)@) == (if utf8_len(piece@) > 2 && !stop_word(ascii_lower(piece@)) {
            strs(old(words)@).push(piece@)
        } else {
            strs(old(words)@)
        }),
{
    if !utf8_len_at_most(piece, 2) {
        let s = string_of(piece);
        let lower = ascii_lowercase(s.as_str());
        if !is_stop_word(lower.as_str()) {
            crate::text::push_string(words, s);
        }
    }
}

/// The words of a text that may name a task object, in order.
fn object_words_of(text: &str) -> (r: Vec<String>)
    ensures
        strs(r@) == object_words(object_pieces(text@)),
{
    let v = chars_of(text);
    let mut words: Vec<String> = Vec::new();
    let mut current: Vec<char> = Vec::new();
    let mut i: usize = 0;
    assert(v@.take(0) =~= Seq::<char>::empty());
    while i < v.len()
        invariant
            i <= v@.len(),
            v@ == text@,
            object_pieces(v@.take(i as int)).len() > 0,
            object_pieces(v@.take(i as int)).last() == current@,
            strs(words@) == object_words(object_pieces(v@.take(i as int)).drop_last()),
        decreases v.len() - i,
    {
        let c = v[i];
        let ghost prev = object_pieces(v@.take(i as int));
        assert(v@.take(i as int + 1).drop_last() =~= v@.take(i as int));
        assert(v@.take(i as int + 1).last() == c);
        if is_object_word_char(c) {
            current.push(c);
            assert(object_pieces(v@.take(i as int + 1)).drop_last() =~= prev.drop_last());
        } else {
            add_object_piece(&mut words, &current);
            current = Vec::new();
            assert(object_pieces(v@.take(i as int + 1)).drop_last() =~= prev);
            assert(prev.drop_last().push(prev.last()) =~= prev);
        }
        i = i + 1;
    }
    assert(v@.take(i as int) =~= v@);
    proof {
        let ps = object_pieces(v@);
        assert(ps.drop_last().push(ps.last()) =~= ps);
    }
    add_object_piece(&mut words, &current);
    words
}

/// What names the object of a goal: a known phrase, else the goal's first
/// six words that may name an object.
pub open spec fn object_of(goal: Option<Seq<char>>) -> Option<Result<Seq<char>, Seq<Seq<char>>>> {
    match goal {
        None => None,
        Some(g) => {
            let original = trim(g);
            match known_object(spaced(ascii_lower(original))) {
                Some(label) => Some(Ok(label)),
                None => {
                    let words = object_words(object_pieces(original));
                    let first = if words.len() <= 6 {
                        words
                    } else {
                        words.take(6)
                    };
                    if first.len() == 0 {
                        None
                    } else {
                        Some(Err(first))
                    }
                },
            }
        },
    }
}

/// What names the object of a goal.
pub fn task_object_candidate(goal: Option<&str>) -> (r: TaskObjectCandidate)
    ensures
        match object_of(
            match goal {
                Some(g) => Some(g@),
                None => None,
            },
        ) {
            None => r is Nothing,
            Some(Ok(label)) => r matches TaskObjectCandidate::Known(l) && l@ == label,
            Some(Err(words)) => r matches TaskObjectCandidate::Words(w) && w@
                == crate::evidence::joined_by(words, " "@),
        },
{
    let g = match goal {
        Some(g) => g,
        None => {
            return TaskObjectCandidate::Nothing;
        },
    };
    let original = crate::text::str_trim(g);
    let lower = ascii_lowercase(original.as_str());
    let lv = chars_of(lower.as_str());
    let mut spaced_chars: Vec<char> = Vec::new();
    let mut i: usize = 0;
    while i < lv.len()
        invariant
            i <= lv@.len(),
            spaced_chars@ == spaced(lv@.take(i as int)),
        decreases lv.len() - i,
    {
        let c = lv[i];
        spaced_chars.push(if c == '-' || c == '_' { ' ' } else { c });
        assert(spaced(lv@.take(i as int + 1)) =~= spaced(lv@.take(i as int)).push(if c == '-' || c == '_' { ' ' } else { c }));
        i = i + 1;
    }
    assert(lv@.take(i as int) =~= lv@);
    let sp = string_of(&spaced_chars);
    let l = sp.as_str();
    if str_contains(l, "capture button") {
        return TaskObjectCandidate::Known(copy_str("island_capture_button"));
    } else if str_contains(l, "continue card copy") {
        return TaskObjectCandidate::Known(copy_str("continue_card_copy"));
    } else if str_contains(l, "continue card") {
        return TaskObjectCandidate::Known(copy_str("continue_card"));
    } else if str_contains(l, "activity recap") {
        return TaskObjectCandidate::Known(copy_str("activity_recap"));
    } else if str_contains(l, "task turn") {
        return TaskObjectCandidate::Known(copy_str("current_task_turn"));
    }
    let words = object_words_of(original.as_str());
    if words.len() == 0 {
        return TaskObjectCandidate::Nothing;
    }
    let mut first: Vec<String> = Vec::new();
    let mut k: usize = 0;
    while k < words.len() && k < 6
        invariant
            k <= words@.len(),
            k <= 6,
            strs(first@) == strs(words@).take(k as int),
        decreases words.len() - k,
    {
        crate::text::push_string(&mut first, words[k].clone());
        assert(strs(words@).take(k as int + 1) =~= strs(words@).take(k as int).push(words@[k as int]@));
        k = k + 1;
    }
    proof {
        if words@.len() <= 6 {
            assert(strs(words@).take(k as int) =~= strs(words@));
        }
    }
    TaskObjectCandidate::Words(crate::evidence::join_with(&first, " "))
}


/// What persisting a provisional turn reads of the stored turn it updates.
#[derive(Debug, Clone, PartialEq, Eq, Default)]
pub struct StoredTurnSpans {
    pub started_at_ms: i64,
    pub last_observed_at_ms: i64,
    pub latest_user_span_ids: Vec<String>,
    pub current_state_span_ids: Vec<String>,
    pub prior_boundary_span_ids: Vec<String>,
    pub revision: i64,
    pub updated_at_ms: i64,
    pub material_fingerprint: Option<String>,
}

/// What a provisional turn was seen with.
#[derive(Debug, Clone, PartialEq, Eq, Default)]
pub struct ProvisionalSighting {
    pub observed_at_ms: i64,
    pub user_span_ids: Vec<String>,
    pub agent_span_ids: Vec<String>,
    pub prior_span_ids: Vec<String>,
    pub missing_evidence: Vec<String>,
    pub quality_flags: Vec<String>,
}

/// The spans, times and quality a provisional turn is stored with.
#[derive(Debug, Clone, PartialEq, Eq)]
pub struct ProvisionalRecord {
    pub started_at_ms: i64,
    pub last_observed_at_ms: i64,
    pub latest_user_span_ids: Vec<String>,
    pub current_state_span_ids: Vec<String>,
    pub prior_boundary_span_ids: Vec<String>,
    pub evidence_quality: String,
    pub missing_evidence: Vec<String>,
    pub quality_flags: Vec<String>,
}

/// A list with a value added once.
pub open spec fn with_unique(v: Seq<Seq<char>>, x: Seq<char>) -> Seq<Seq<char>> {
    if v.contains(x) {
        v
    } else {
        v.push(x)
    }
}

/// `r` is what a provisional turn is stored with, from what was stored
/// before, if anything, and a sighting (see `provisional_record`).
pub open spec fn record_of(
    existing: Option<StoredTurnSpans>,
    sighting: ProvisionalSighting,
    has_goal_summary: bool,
    relation: Seq<char>,
    strong_attribution: bool,
    r: ProvisionalRecord,
) -> bool {
    &&& r.started_at_ms == (match existing {
        Some(e) => if e.started_at_ms <= sighting.observed_at_ms {
            e.started_at_ms
        } else {
            sighting.observed_at_ms
        },
        None => sighting.observed_at_ms,
    })
    &&& r.last_observed_at_ms == (match existing {
        Some(e) => if e.last_observed_at_ms >= sighting.observed_at_ms {
            e.last_observed_at_ms
        } else {
            sighting.observed_at_ms
        },
        None => sighting.observed_at_ms,
    })
    &&& sorted_unique(strs(r.latest_user_span_ids@))
    &&& sorted_unique(strs(r.current_state_span_ids@))
    &&& sorted_unique(strs(r.prior_boundary_span_ids@))
    &&& strs(r.latest_user_span_ids@).to_set() == (match existing {
        Some(e) => strs(e.latest_user_span_ids@).to_set(),
        None => Set::empty(),
    }).union(strs(sighting.user_span_ids@).to_set())
    &&& strs(r.current_state_span_ids@).to_set() == (match existing {
        Some(e) => strs(e.current_state_span_ids@).to_set(),
        None => Set::empty(),
    }).union(strs(sighting.agent_span_ids@).to_set())
    &&& strs(r.prior_boundary_span_ids@).to_set() == (match existing {
        Some(e) => strs(e.prior_boundary_span_ids@).to_set(),
        None => Set::empty(),
    }).union(strs(sighting.prior_span_ids@).to_set())
    &&& r.evidence_quality@ == (if sighting.user_span_ids@.len() == 0 {
        "thin"@
    } else if strong_attribution && sighting.quality_flags@.len() == 0 {
        "strong"@
    } else {
        "partial"@
    })
    &&& strs(r.missing_evidence@) == (if has_goal_summary {
        strs(sighting.missing_evidence@)
    } else {
        with_unique(strs(sighting.missing_evidence@), "public_safe_latest_user_goal"@)
    })
    &&& strs(r.quality_flags@) == (if relation == "unknown"@ && existing is Some {
        with_unique(strs(sighting.quality_flags@), "ambiguous_task_relation"@)
    } else {
        strs(sighting.quality_flags@)
    })
}

/// What was stored, taken by value.
pub open spec fn stored_of(existing: Option<&StoredTurnSpans>) -> Option<StoredTurnSpans> {
    match existing {
        Some(e) => Some(*e),
        None => None,
    }
}

/// The spans, times and quality a provisional turn is stored with: its time
/// span widened by the sighting, the union of the spans seen, the quality
/// of its evidence (thin without a user goal, strong when attributed with
/// confidence and without quality flags, else partial), the missing public
/// goal when there is no goal summary, and an ambiguous relation when an
/// update leaves the relation unknown.
pub fn provisional_record(
    existing: Option<&StoredTurnSpans>,
    sighting: &ProvisionalSighting,
    has_goal_summary: bool,
    relation: &str,
    strong_attribution: bool,
) -> (r: ProvisionalRecord)
    ensures
        record_of(stored_of(existing), *sighting, has_goal_summary, relation@, strong_attribution, r),
{
    let (started, last) = match existing {
        Some(e) => (
            if e.started_at_ms <= sighting.observed_at_ms {
                e.started_at_ms
            } else {
                sighting.observed_at_ms
            },
            if e.last_observed_at_ms >= sighting.observed_at_ms {
                e.last_observed_at_ms
            } else {
                sighting.observed_at_ms
            },
        ),
        None => (sighting.observed_at_ms, sighting.observed_at_ms),
    };
    let goal_spans = crate::turn::union_strings(
        match existing {
            Some(e) => Some(&e.latest_user_span_ids),
            None => None,
        },
        sighting.user_span_ids.as_slice(),
    );
    let state_spans = crate::turn::union_strings(
        match existing {
            Some(e) => Some(&e.current_state_span_ids),
            None => None,
        },
        sighting.agent_span_ids.as_slice(),
    );
    let prior_spans = crate::turn::union_strings(
        match existing {
            Some(e) => Some(&e.prior_boundary_span_ids),
            None => None,
        },
        sighting.prior_span_ids.as_slice(),
    );
    let quality = if sighting.user_span_ids.len() == 0 {
        "thin"
    } else if strong_attribution && sighting.quality_flags.len() == 0 {
        "strong"
    } else {
        "partial"
    };
    let mut missing = crate::contract::copy_strings(&sighting.missing_evidence);
    if !has_goal_summary {
        crate::turn::push_unique(&mut missing, copy_str("public_safe_latest_user_goal"));
    }
    let mut flags = crate::contract::copy_strings(&sighting.quality_flags);
    if str_eq(relation, "unknown") && existing.is_some() {
        crate::turn::push_unique(&mut flags, copy_str("ambiguous_task_relation"));
    }
    ProvisionalRecord {
        started_at_ms: started,
        last_observed_at_ms: last,
        latest_user_span_ids: goal_spans,
        current_state_span_ids: state_spans,
        prior_boundary_span_ids: prior_spans,
        evidence_quality: copy_str(quality),
        missing_evidence: missing,
        quality_flags: flags,
    }
}

/// The revision, update time, and whether it changed, that a turn gets
/// when persisted with `fingerprint` at `now_ms`: a new turn starts at
/// revision one; an update moves the revision and time only when its
/// material fingerprint changed.
pub open spec fn revision_after(existing: Option<StoredTurnSpans>, fingerprint: Seq<char>, now_ms: i64) -> (i64, i64, bool) {
    match existing {
        Some(e) => if opt_str(e.material_fingerprint) != Some(fingerprint) {
            ((e.revision + 1) as i64, now_ms, true)
        } else {
            (e.revision, e.updated_at_ms, false)
        },
        None => (1, now_ms, true),
    }
}

/// A turn as it was stored from a record, with its revision, update time
/// and fingerprint.
pub open spec fn stored_as(t: StoredTurnSpans, r: ProvisionalRecord, revision: (i64, i64, bool), fingerprint: Seq<char>) -> bool {
    &&& t.started_at_ms == r.started_at_ms
    &&& t.last_observed_at_ms == r.last_observed_at_ms
    &&& strs(t.latest_user_span_ids@) == strs(r.latest_user_span_ids@)
    &&& strs(t.current_state_span_ids@) == strs(r.current_state_span_ids@)
    &&& strs(t.prior_boundary_span_ids@) == strs(r.prior_boundary_span_ids@)
    &&& t.revision == revision.0
    &&& t.updated_at_ms == revision.1
    &&& opt_str(t.material_fingerprint) == Some(fingerprint)
}

/// Resolving the same sighting again changes nothing: once a turn is stored
/// from a record, recording the same sighting over it gives the same times,
/// spans and evidence quality, and persisting it with the same material
/// fingerprint keeps its revision and update time, whenever it happens.
pub proof fn law_resolving_again_is_idempotent(
    existing: Option<StoredTurnSpans>,
    sighting: ProvisionalSighting,
    has_goal_summary: bool,
    relation: Seq<char>,
    strong_attribution: bool,
    first: ProvisionalRecord,
    fingerprint: Seq<char>,
    first_now_ms: i64,
    stored: StoredTurnSpans,
    second: ProvisionalRecord,
    second_now_ms: i64,
)
    requires
        record_of(existing, sighting, has_goal_summary, relation, strong_attribution, first),
        stored_as(stored, first, revision_after(existing, fingerprint, first_now_ms), fingerprint),
        record_of(Some(stored), sighting, has_goal_summary, relation, strong_attribution, second),
    ensures
        second.started_at_ms == first.started_at_ms,
        second.last_observed_at_ms == first.last_observed_at_ms,
        strs(second.latest_user_span_ids@) == strs(first.latest_user_span_ids@),
        strs(second.current_state_span_ids@) == strs(first.current_state_span_ids@),
        strs(second.prior_boundary_span_ids@) == strs(first.prior_boundary_span_ids@),
        second.evidence_quality@ == first.evidence_quality@,
        strs(second.missing_evidence@) == strs(first.missing_evidence@),
        revision_after(Some(stored), fingerprint, second_now_ms) == (stored.revision, stored.updated_at_ms, false),
{
    assert(strs(second.latest_user_span_ids@).to_set() =~= strs(first.latest_user_span_ids@).to_set());
    assert(strs(second.current_state_span_ids@).to_set() =~= strs(first.current_state_span_ids@).to_set());
    assert(strs(second.prior_boundary_span_ids@).to_set() =~= strs(first.prior_boundary_span_ids@).to_set());
    crate::text::lemma_sorted_unique_same_set(strs(second.latest_user_span_ids@), strs(first.latest_user_span_ids@));
    crate::text::lemma_sorted_unique_same_set(strs(second.current_state_span_ids@), strs(first.current_state_span_ids@));
    crate::text::lemma_sorted_unique_same_set(strs(second.prior_boundary_span_ids@), strs(first.prior_boundary_span_ids@));
}

/// The revision and update time a persisted turn gets: a new turn starts at
/// revision one; an update moves the revision and time only when its
/// material fingerprint changed.
pub fn provisional_revision(existing: Option<&StoredTurnSpans>, fingerprint: &str, now_ms: i64) -> (r: (i64, i64, bool))
    requires
        existing matches Some(e) ==> e.revision < i64::MAX,
    ensures
        r == revision_after(stored_of(existing), fingerprint@, now_ms),
{
    match existing {
        Some(e) => {
            let changed = match &e.material_fingerprint {
                Some(f) => !str_eq(f.as_str(), fingerprint),
                None => true,
            };
            if changed {
                (e.revision + 1, now_ms, true)
            } else {
                (e.revision, e.updated_at_ms, false)
            }
        },
        None => (1, now_ms, true),
    }
}

/// A provisional turn seen more than once in a batch: while the same turn is
/// seen again later, the stored turn keeps its relation and links; a turn
/// already taken up earlier in the batch continues itself, supersedes
/// nothing, and says it was seen again after a detour.
pub fn reobserved_lineage(
    lineage: ProvisionalLineage,
    later_reobservation: bool,
    stored: Option<&PriorTurnLineage>,
    seen_in_batch: bool,
) -> (r: ProvisionalLineage)
    ensures
        r.relation@ == (if seen_in_batch {
            "continuation"@
        } else {
            match stored {
                Some(st) => if later_reobservation {
                    relation_label(st.relation_to_prior)
                } else {
                    lineage.relation@
                },
                None => lineage.relation@,
            }
        }),
        r.prior_id == (match stored {
            Some(st) => if later_reobservation {
                st.prior_task_turn_id
            } else {
                lineage.prior_id
            },
            None => lineage.prior_id,
        }),
        r.supersedes_id == (if seen_in_batch {
            None
        } else {
            match stored {
                Some(st) => if later_reobservation {
                    st.supersedes_task_turn_id
                } else {
                    lineage.supersedes_id
                },
                None => lineage.supersedes_id,
            }
        }),
        r.parent_id == (match stored {
            Some(st) => if later_reobservation {
                st.parent_task_turn_id
            } else {
                lineage.parent_id
            },
            None => lineage.parent_id,
        }),
        strs(r.reason_codes@) == (if seen_in_batch {
            strs(lineage.reason_codes@).push("same_task_reobserved_after_support_detour"@)
        } else {
            strs(lineage.reason_codes@)
        }),
{
    let mut out = lineage;
    if later_reobservation {
        if let Some(st) = stored {
            out.relation = copy_str(st.relation_to_prior.label());
            out.prior_id = st.prior_task_turn_id.clone();
            out.supersedes_id = st.supersedes_task_turn_id.clone();
            out.parent_id = st.parent_task_turn_id.clone();
        }
    }
    if seen_in_batch {
        out.relation = copy_str("continuation");
        out.supersedes_id = None;
        crate::text::push_string(&mut out.reason_codes, copy_str("same_task_reobserved_after_support_detour"));
    }
    out
}

} // verus!
