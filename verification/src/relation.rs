//! How a new task turn relates to the turn before it: a continuation, a
//! correction, a clarification, a support step, a new task that supersedes
//! unfinished work, or simply a new task.
//!
//! Clarification is also recognised by wording: the distinct words of more
//! than three bytes that the new goal shares with the prior goal, out of the
//! smaller of the two word sets, reach 0.55. The ratio is compared exactly,
//! in integers.
use vstd::prelude::*;
use crate::field_rules::{utf8_len, utf8_len_at_most};
use crate::text::{ascii_lower, ascii_lowercase, chars_of, contains, str_contains, strs, string_of};
use crate::turn::TaskExecutionState;

verus! {

/// Unicode alphanumeric characters (`char::is_alphanumeric`).
pub uninterp spec fn alphanumeric(c: char) -> bool;

/// `char::is_alphanumeric`: its result is named by `alphanumeric`; the
/// Unicode tables behind it are not restated here.
#[verifier::external_body]
pub(crate) fn char_is_alphanumeric(c: char) -> (b: bool)
    ensures
        b == alphanumeric(c),
{
    c.is_alphanumeric()
}

/// The pieces of a text split at every character that is not alphanumeric
/// (`str::split`), empty pieces included.
pub open spec fn pieces(s: Seq<char>) -> Seq<Seq<char>>
    decreases s.len(),
{
    if s.len() == 0 {
        seq![Seq::<char>::empty()]
    } else {
        let prev = pieces(s.drop_last());
        if alphanumeric(s.last()) {
            prev.drop_last().push(prev.last().push(s.last()))
        } else {
            prev.push(Seq::<char>::empty())
        }
    }
}

/// The distinct pieces longer than three bytes, in order of first
/// occurrence.
pub open spec fn distinct_words(ps: Seq<Seq<char>>) -> Seq<Seq<char>>
    decreases ps.len(),
{
    if ps.len() == 0 {
        Seq::empty()
    } else {
        let prev = distinct_words(ps.drop_last());
        let t = ps.last();
        if utf8_len(t) > 3 && !prev.contains(t) {
            prev.push(t)
        } else {
            prev
        }
    }
}

/// The distinct words of a text, in lower case.
pub open spec fn word_set(s: Seq<char>) -> Seq<Seq<char>> {
    distinct_words(pieces(ascii_lower(s)))
}

/// How many of `a` occur in `b`.
pub open spec fn shared_count(a: Seq<Seq<char>>, b: Seq<Seq<char>>) -> nat
    decreases a.len(),
{
    if a.len() == 0 {
        0
    } else {
        shared_count(a.drop_last(), b) + if b.contains(a.last()) {
            1nat
        } else {
            0nat
        }
    }
}

/// The wording of two texts overlaps: both have words, and the shared words
/// make up at least 0.55 of the smaller word set.
pub open spec fn words_overlap(left: Seq<char>, right: Seq<char>) -> bool {
    let a = word_set(left);
    let b = word_set(right);
    let smaller = if a.len() <= b.len() {
        a.len()
    } else {
        b.len()
    };
    a.len() > 0 && b.len() > 0 && 20 * shared_count(a, b) >= 11 * smaller
}

/// The prior turn, as far as a new turn is related to it: its goal and its
/// execution state.
#[derive(Debug, Clone, PartialEq, Eq)]
pub struct PriorTurnSummary {
    pub latest_user_goal_summary: Option<String>,
    pub execution_state: TaskExecutionState,
}

/// Words that correct the prior turn.
pub open spec fn correction_cue(l: Seq<char>) -> bool {
    ||| contains(l, "actually"@)
    ||| contains(l, "instead"@)
    ||| contains(l, "no,"@)
    ||| contains(l, "correction"@)
    ||| contains(l, "rather than"@)
}

/// Words that ask about the prior turn.
pub open spec fn clarification_cue(l: Seq<char>) -> bool {
    ||| contains(l, "what do you mean"@)
    ||| contains(l, "can you explain"@)
    ||| contains(l, "could you explain"@)
    ||| contains(l, "why did"@)
    ||| contains(l, "how does that"@)
    ||| contains(l, "which one"@)
    ||| contains(l, "clarify"@)
}

/// Words of a support step for the prior turn.
pub open spec fn support_cue(l: Seq<char>) -> bool {
    ||| contains(l, "search docs"@)
    ||| contains(l, "check docs"@)
    ||| contains(l, "look up"@)
    ||| contains(l, "run the tests"@)
    ||| contains(l, "terminal"@)
}

/// A text, or nothing.
pub open spec fn or_empty(o: Option<Seq<char>>) -> Seq<char> {
    match o {
        Some(s) => s,
        None => Seq::empty(),
    }
}

/// The relation of a new goal to the prior turn.
pub open spec fn relation_of(
    goal: Option<Seq<char>>,
    prior: Option<(Option<Seq<char>>, TaskExecutionState)>,
    same_as_prior: bool,
) -> Seq<char> {
    match prior {
        None => "new_task"@,
        Some((prior_goal, prior_state)) => {
            let g = or_empty(goal);
            let l = ascii_lower(g);
            if same_as_prior {
                "continuation"@
            } else if correction_cue(l) {
                "correction"@
            } else if clarification_cue(l) || words_overlap(g, or_empty(prior_goal)) {
                "clarification"@
            } else if support_cue(l) {
                "child_support_step"@
            } else if prior_state != TaskExecutionState::Completed && prior_state
                != TaskExecutionState::Superseded {
                "supersedes"@
            } else {
                "new_task"@
            }
        },
    }
}

/// Adds a finished piece to the distinct words.
fn add_piece(words: &mut Vec<String>, piece: &Vec<char>)
    ensures
        strs(final(words)@) == (if utf8_len(piece@) > 3 && !strs(old(words)@).contains(piece@) {
            strs(old(words)@).push(piece@)
        } else {
            strs(old(words)@)
        }),
{
    if !utf8_len_at_most(piece, 3) {
        let s = string_of(piece);
        if !crate::copy::vec_contains_str(words, s.as_str()) {
            crate::text::push_string(words, s);
        }
    }
}

/// The distinct words of a text, in lower case.
pub fn word_set_of(value: &str) -> (r: Vec<String>)
    ensures
        strs(r@) == word_set(value@),
{
    let lower = ascii_lowercase(value);
    let v = chars_of(lower.as_str());
    let mut words: Vec<String> = Vec::new();
    let mut current: Vec<char> = Vec::new();
    let mut i: usize = 0;
    assert(v@.take(0) =~= Seq::<char>::empty());
    while i < v.len()
        invariant
            i <= v@.len(),
            v@ == ascii_lower(value@),
            pieces(v@.take(i as int)).len() > 0,
            pieces(v@.take(i as int)).last() == current@,
            strs(words@) == distinct_words(pieces(v@.take(i as int)).drop_last()),
        decreases v.len() - i,
    {
        let c = v[i];
        let ghost prev = pieces(v@.take(i as int));
        assert(v@.take(i as int + 1).drop_last() =~= v@.take(i as int));
        assert(v@.take(i as int + 1).last() == c);
        if char_is_alphanumeric(c) {
            current.push(c);
            assert(pieces(v@.take(i as int + 1)).drop_last() =~= prev.drop_last());
        } else {
            add_piece(&mut words, &current);
            current = Vec::new();
            assert(pieces(v@.take(i as int + 1)).drop_last() =~= prev);
            assert(prev.drop_last().push(prev.last()) =~= prev);
        }
        i = i + 1;
    }
    assert(v@.take(i as int) =~= v@);
    proof {
        let ps = pieces(v@);
        assert(ps.drop_last().push(ps.last()) =~= ps);
    }
    add_piece(&mut words, &current);
    words
}

/// How many of `a` occur in `b`.
fn count_shared(a: &Vec<String>, b: &Vec<String>) -> (n: usize)
    ensures
        n == shared_count(strs(a@), strs(b@)),
{
    let mut n: usize = 0;
    let mut i: usize = 0;
    assert(strs(a@).take(0) =~= Seq::<Seq<char>>::empty());
    while i < a.len()
        invariant
            i <= a@.len(),
            n <= i,
            n == shared_count(strs(a@).take(i as int), strs(b@)),
        decreases a.len() - i,
    {
        assert(strs(a@).take(i as int + 1).drop_last() =~= strs(a@).take(i as int));
        if crate::copy::vec_contains_str(b, a[i].as_str()) {
            n = n + 1;
        }
        i = i + 1;
    }
    assert(strs(a@).take(i as int) =~= strs(a@));
    n
}

/// Whether the wording of two texts overlaps.
pub fn wording_overlaps(left: &str, right: &str) -> (b: bool)
    ensures
        b == words_overlap(left@, right@),
{
    let a = word_set_of(left);
    let b = word_set_of(right);
    if a.len() == 0 || b.len() == 0 {
        return false;
    }
    let shared = count_shared(&a, &b) as u128;
    let smaller = if a.len() <= b.len() {
        a.len() as u128
    } else {
        b.len() as u128
    };
    20 * shared >= 11 * smaller
}

/// The relation of a new goal to the prior turn, by its label.
pub fn relation_to_prior(
    goal: Option<&str>,
    prior: Option<&PriorTurnSummary>,
    same_as_prior: bool,
) -> (r: &'static str)
    ensures
        r@ == relation_of(
            match goal {
                Some(g) => Some(g@),
                None => None,
            },
            match prior {
                Some(p) => Some((crate::text::opt_str(p.latest_user_goal_summary), p.execution_state)),
                None => None,
            },
            same_as_prior,
        ),
{
    let prior = match prior {
        Some(p) => p,
        None => {
            return "new_task";
        },
    };
    if same_as_prior {
        return "continuation";
    }
    let g: &str = match goal {
        Some(g) => g,
        None => "",
    };
    proof {
        reveal_strlit("");
        assert(g@ =~= or_empty(
            match goal {
                Some(x) => Some(x@),
                None => None,
            },
        ));
    }
    let lower = ascii_lowercase(g);
    let l = lower.as_str();
    if str_contains(l, "actually") || str_contains(l, "instead") || str_contains(l, "no,")
        || str_contains(l, "correction") || str_contains(l, "rather than") {
        return "correction";
    }
    let clarification = str_contains(l, "what do you mean") || str_contains(l, "can you explain")
        || str_contains(l, "could you explain") || str_contains(l, "why did") || str_contains(
        l,
        "how does that",
    ) || str_contains(l, "which one") || str_contains(l, "clarify");
    let prior_goal: &str = match &prior.latest_user_goal_summary {
        Some(s) => s.as_str(),
        None => "",
    };
    assert(prior_goal@ =~= or_empty(crate::text::opt_str(prior.latest_user_goal_summary)));
    if clarification || wording_overlaps(g, prior_goal) {
        return "clarification";
    }
    if str_contains(l, "search docs") || str_contains(l, "check docs") || str_contains(l, "look up")
        || str_contains(l, "run the tests") || str_contains(l, "terminal") {
        return "child_support_step";
    }
    match prior.execution_state {
        TaskExecutionState::Completed | TaskExecutionState::Superseded => "new_task",
        _ => "supersedes",
    }
}

/// How a new goal relates to the prior turn, by the words of the goal in
/// lower case: with no prior turn it is a new task; the same turn continues;
/// "actually", "instead", "no,", "correction" or "rather than" correct it;
/// otherwise "what do you mean", "can you explain", "could you explain",
/// "why did", "how does that", "which one", "clarify", or shared wording,
/// clarify it; otherwise "search docs", "check docs", "look up", "run the
/// tests" or "terminal" make a support step of it; otherwise the goal
/// supersedes an unfinished prior turn and is a new task after a finished
/// one.
pub proof fn law_relation_follows_the_goals_words(
    goal: Option<Seq<char>>,
    prior_goal: Option<Seq<char>>,
    prior_state: TaskExecutionState,
    same_as_prior: bool,
)
    ensures
        relation_of(goal, None, same_as_prior) == "new_task"@,
        ({
            let g = or_empty(goal);
            let l = ascii_lower(g);
            let r = relation_of(goal, Some((prior_goal, prior_state)), same_as_prior);
            &&& same_as_prior ==> r == "continuation"@
            &&& !same_as_prior && (contains(l, "actually"@) || contains(l, "instead"@) || contains(l, "no,"@)
                || contains(l, "correction"@) || contains(l, "rather than"@)) ==> r == "correction"@
            &&& !same_as_prior && !correction_cue(l) && (contains(l, "what do you mean"@) || contains(
                l,
                "can you explain"@,
            ) || contains(l, "could you explain"@) || contains(l, "why did"@) || contains(
                l,
                "how does that"@,
            ) || contains(l, "which one"@) || contains(l, "clarify"@) || words_overlap(
                g,
                or_empty(prior_goal),
            )) ==> r == "clarification"@
            &&& !same_as_prior && !correction_cue(l) && !clarification_cue(l) && !words_overlap(
                g,
                or_empty(prior_goal),
            ) && (contains(l, "search docs"@) || contains(l, "check docs"@) || contains(l, "look up"@)
                || contains(l, "run the tests"@) || contains(l, "terminal"@)) ==> r == "child_support_step"@
            &&& !same_as_prior && !correction_cue(l) && !clarification_cue(l) && !words_overlap(
                g,
                or_empty(prior_goal),
            ) && !support_cue(l) ==> r == (if prior_state == TaskExecutionState::Completed
                || prior_state == TaskExecutionState::Superseded {
                "new_task"@
            } else {
                "supersedes"@
            })
        }),
{
}

} // verus!
