//! How the salient turn evidence of a batch of frames is taken up: which
//! frames carry a user goal and in what order, which frame is the latest
//! sample, whether the batch holds prior-boundary text alone, and which
//! turn ends up selected.
//!
//! Frames are ordered by observation time and then by their numeric id;
//! frames with the same key keep the order they came in.
use vstd::prelude::*;
use vstd::utf8::encode_utf8;
use crate::text::{contains, opt_str, sort_dedup, sorted_unique, str_eq, strs};
use crate::turn::{
    fnv1a, hex16, numeric_id, parsed_i64, salient_identity_key, salient_key, TaskTurnRelation,
};

verus! {

/// What the resolver reads of a frame's salient turn evidence.
#[derive(Debug, Clone, PartialEq, Eq, Default)]
pub struct SalientRowSummary {
    pub frame_id: String,
    pub session_id: Option<String>,
    pub surface_key: Option<String>,
    pub user_hash: Option<String>,
    pub observed_at_ms: i64,
    pub user_span_ids: Vec<String>,
    pub agent_span_ids: Vec<String>,
    pub prior_span_ids: Vec<String>,
}

/// How a batch of frames is taken up.
#[derive(Debug, Clone, PartialEq, Eq)]
pub struct SalientPlan {
    /// Some frame holds prior-boundary text and nothing current.
    pub prior_only_evidence_observed: bool,
    /// The latest frame of the batch.
    pub latest_sample: Option<usize>,
    /// The frames with a user goal, in order.
    pub ordered: Vec<usize>,
    /// For each of them, whether a later one is the same salient turn.
    pub later_reobservation: Vec<bool>,
}

/// The numeric id of a frame, or the largest id when it is not a number.
pub open spec fn frame_number(r: SalientRowSummary) -> i64 {
    match parsed_i64(r.frame_id@) {
        Some(v) => v,
        None => i64::MAX,
    }
}

/// Frame `a` comes before frame `b`: earlier, or as early with a smaller id.
pub open spec fn key_lt(a: SalientRowSummary, b: SalientRowSummary) -> bool {
    a.observed_at_ms < b.observed_at_ms || (a.observed_at_ms == b.observed_at_ms && frame_number(a)
        < frame_number(b))
}

/// Frames `a` and `b` have the same place in the order.
pub open spec fn key_eq(a: SalientRowSummary, b: SalientRowSummary) -> bool {
    a.observed_at_ms == b.observed_at_ms && frame_number(a) == frame_number(b)
}

/// The identity of a frame's salient user turn.
pub open spec fn row_identity(r: SalientRowSummary) -> Seq<char> {
    salient_key(opt_str(r.session_id), opt_str(r.user_hash), r.frame_id@)
}

/// The frame holds prior-boundary text and nothing current.
pub open spec fn prior_only(r: SalientRowSummary) -> bool {
    r.user_span_ids@.len() == 0 && r.agent_span_ids@.len() == 0 && r.prior_span_ids@.len() > 0
}

/// The index `m` is the last of the latest frames.
pub open spec fn last_latest(rows: Seq<SalientRowSummary>, m: int) -> bool {
    &&& 0 <= m < rows.len()
    &&& forall|j: int| 0 <= j < rows.len() ==> !key_lt(rows[m], #[trigger] rows[j])
    &&& forall|j: int| m < j < rows.len() ==> key_lt(#[trigger] rows[j], rows[m])
}

/// The order the frames with a user goal are taken up in: by key, and by
/// arrival among equal keys.
pub open spec fn taken_in_order(rows: Seq<SalientRowSummary>, ordered: Seq<usize>) -> bool {
    &&& forall|k: int| 0 <= k < ordered.len() ==> (#[trigger] ordered[k]) < rows.len()
        && rows[ordered[k] as int].user_span_ids@.len() > 0
    &&& forall|i: int|
        0 <= i < rows.len() && (#[trigger] rows[i]).user_span_ids@.len() > 0 ==> ordered.contains(
            i as usize,
        )
    &&& forall|a: int, b: int|
        0 <= a < b < ordered.len() ==> key_lt(rows[#[trigger] ordered[a] as int], rows[#[trigger] ordered[b] as int])
            || (key_eq(rows[ordered[a] as int], rows[ordered[b] as int]) && ordered[a] < ordered[b])
}

/// A later frame in the order is the same salient turn as the one at `k`.
pub open spec fn reobserved_later(rows: Seq<SalientRowSummary>, ordered: Seq<usize>, k: int) -> bool {
    exists|j: int|
        k < j < ordered.len() && row_identity(rows[#[trigger] ordered[j] as int]) == row_identity(
            rows[ordered[k] as int],
        )
}

/// The numeric id of a frame.
fn frame_number_of(r: &SalientRowSummary) -> (n: i64)
    ensures
        n == frame_number(*r),
{
    numeric_id(r.frame_id.as_str())
}

/// Whether frame `a` comes before frame `b`.
fn comes_before(a: &SalientRowSummary, b: &SalientRowSummary) -> (r: bool)
    ensures
        r == key_lt(*a, *b),
{
    let na = frame_number_of(a);
    let nb = frame_number_of(b);
    a.observed_at_ms < b.observed_at_ms || (a.observed_at_ms == b.observed_at_ms && na < nb)
}

/// The identity of a frame's salient user turn.
fn identity_of_row(r: &SalientRowSummary) -> (s: String)
    ensures
        s@ == row_identity(*r),
{
    let session = match &r.session_id {
        Some(s) => Some(s.as_str()),
        None => None,
    };
    let hash = match &r.user_hash {
        Some(h) => Some(h.as_str()),
        None => None,
    };
    salient_identity_key(session, hash, r.frame_id.as_str())
}

/// The index of the last of the latest frames.
fn latest_row(rows: &Vec<SalientRowSummary>) -> (m: Option<usize>)
    ensures
        match m {
            Some(i) => last_latest(rows@, i as int),
            None => rows@.len() == 0,
        },
{
    if rows.len() == 0 {
        return None;
    }
    let mut m: usize = 0;
    let mut j: usize = 1;
    while j < rows.len()
        invariant
            1 <= j <= rows@.len(),
            m < j,
            forall|i: int| 0 <= i < j ==> !key_lt(rows@[m as int], #[trigger] rows@[i]),
            forall|i: int| m < i < j ==> key_lt(#[trigger] rows@[i], rows@[m as int]),
        decreases rows.len() - j,
    {
        if !comes_before(&rows[j], &rows[m]) {
            m = j;
        }
        j = j + 1;
    }
    Some(m)
}

/// Inserts frame `i` after every frame that does not come after it.
fn insert_in_order(rows: &Vec<SalientRowSummary>, ordered: &mut Vec<usize>, i: usize)
    requires
        i < rows@.len(),
        forall|k: int| 0 <= k < old(ordered)@.len() ==> (#[trigger] old(ordered)@[k]) < i,
        forall|a: int, b: int|
            0 <= a < b < old(ordered)@.len() ==> key_lt(rows@[#[trigger] old(ordered)@[a] as int], rows@[#[trigger] old(ordered)@[b] as int])
                || (key_eq(rows@[old(ordered)@[a] as int], rows@[old(ordered)@[b] as int]) && old(ordered)@[a] < old(ordered)@[b]),
    ensures
        final(ordered)@.len() == old(ordered)@.len() + 1,
        final(ordered)@.to_set() == old(ordered)@.to_set().insert(i),
        forall|k: int| 0 <= k < final(ordered)@.len() ==> (#[trigger] final(ordered)@[k]) <= i,
        forall|a: int, b: int|
            0 <= a < b < final(ordered)@.len() ==> key_lt(rows@[#[trigger] final(ordered)@[a] as int], rows@[#[trigger] final(ordered)@[b] as int])
                || (key_eq(rows@[final(ordered)@[a] as int], rows@[final(ordered)@[b] as int]) && final(ordered)@[a] < final(ordered)@[b]),
{
    let mut p: usize = 0;
    while p < ordered.len() && !comes_before(&rows[i], &rows[ordered[p]])
        invariant
            p <= ordered@.len(),
            ordered@ == old(ordered)@,
            i < rows@.len(),
            forall|k: int| 0 <= k < ordered@.len() ==> (#[trigger] ordered@[k]) < rows@.len(),
            forall|k: int| 0 <= k < p ==> !key_lt(rows@[i as int], rows@[#[trigger] ordered@[k] as int]),
        decreases ordered.len() - p,
    {
        p = p + 1;
    }
    let ghost before = ordered@;
    proof {
        assert forall|k: int| p <= k < before.len() implies key_lt(rows@[i as int], rows@[#[trigger] before[k] as int]) by {
            if k > p as int {
                let a = p as int;
                // the element at p comes after i, and later ones do not come before it
                assert(key_lt(rows@[before[a] as int], rows@[before[k] as int]) || key_eq(rows@[before[a] as int], rows@[before[k] as int]));
            }
        }
    }
    ordered.insert(p, i);
    proof {
        let after = ordered@;
        assert(after =~= before.insert(p as int, i));
        assert forall|x: usize| after.to_set().contains(x) <==> before.to_set().insert(i).contains(x) by {
            if after.contains(x) {
                let k = choose|k: int| 0 <= k < after.len() && after[k] == x;
                if k < p {
                    assert(before[k] == x);
                } else if k > p {
                    assert(before[k - 1] == x);
                }
            }
            if before.contains(x) {
                let k = choose|k: int| 0 <= k < before.len() && before[k] == x;
                if k < p {
                    assert(after[k] == x);
                } else {
                    assert(after[k + 1] == x);
                }
            }
            if x == i {
                assert(after[p as int] == x);
            }
        }
        assert(after.to_set() =~= before.to_set().insert(i));
        assert forall|a: int, b: int| 0 <= a < b < after.len() implies key_lt(rows@[#[trigger] after[a] as int], rows@[#[trigger] after[b] as int])
            || (key_eq(rows@[after[a] as int], rows@[after[b] as int]) && after[a] < after[b]) by {
            if b < p {
                assert(after[a] == before[a] && after[b] == before[b]);
            } else if a > p {
                assert(after[a] == before[a - 1] && after[b] == before[b - 1]);
            } else if a < p && b > p {
                assert(after[a] == before[a] && after[b] == before[b - 1]);
            } else if a == p {
                assert(after[b] == before[b - 1]);
            } else {
                assert(b == p);
                assert(after[a] == before[a]);
            }
        }
    }
}

/// How a batch of frames is taken up: whether it holds prior-boundary text
/// alone, its latest frame, the frames with a user goal in order, and for
/// each of them whether the same turn is seen again later in the batch.
pub fn plan_salient_rows(rows: &Vec<SalientRowSummary>) -> (plan: SalientPlan)
    ensures
        plan.prior_only_evidence_observed == exists|i: int| 0 <= i < rows@.len() && prior_only(#[trigger] rows@[i]),
        match plan.latest_sample {
            Some(m) => last_latest(rows@, m as int),
            None => rows@.len() == 0,
        },
        plan.ordered@.no_duplicates(),
        taken_in_order(rows@, plan.ordered@),
        plan.later_reobservation@.len() == plan.ordered@.len(),
        forall|k: int| 0 <= k < plan.ordered@.len() ==> #[trigger] plan.later_reobservation@[k]
            == reobserved_later(rows@, plan.ordered@, k),
{
    let mut prior_only_seen = false;
    let mut ordered: Vec<usize> = Vec::new();
    let mut i: usize = 0;
    assert(ordered@.to_set() =~= Set::<usize>::empty());
    while i < rows.len()
        invariant
            i <= rows@.len(),
            prior_only_seen == exists|k: int| 0 <= k < i && prior_only(#[trigger] rows@[k]),
            forall|k: int| 0 <= k < ordered@.len() ==> (#[trigger] ordered@[k]) < i
                && rows@[ordered@[k] as int].user_span_ids@.len() > 0,
            forall|k: int| 0 <= k < i && (#[trigger] rows@[k]).user_span_ids@.len() > 0 ==> ordered@.to_set().contains(k as usize),
            ordered@.to_set().len() == ordered@.len(),
            forall|a: int, b: int|
                0 <= a < b < ordered@.len() ==> key_lt(rows@[#[trigger] ordered@[a] as int], rows@[#[trigger] ordered@[b] as int])
                    || (key_eq(rows@[ordered@[a] as int], rows@[ordered@[b] as int]) && ordered@[a] < ordered@[b]),
        decreases rows.len() - i,
    {
        let r = &rows[i];
        if r.user_span_ids.len() == 0 && r.agent_span_ids.len() == 0 && r.prior_span_ids.len() > 0 {
            prior_only_seen = true;
        }
        if r.user_span_ids.len() > 0 {
            let ghost before = ordered@;
            insert_in_order(rows, &mut ordered, i);
            proof {
                assert(!before.to_set().contains(i)) by {
                    if before.contains(i) {
                        let k = choose|k: int| 0 <= k < before.len() && before[k] == i;
                    }
                }
                vstd::seq_lib::seq_to_set_is_finite(before);
                vstd::set::axiom_set_insert_len(before.to_set(), i);
                assert forall|k: int| 0 <= k < ordered@.len() implies (#[trigger] ordered@[k]) < i + 1
                    && rows@[ordered@[k] as int].user_span_ids@.len() > 0 by {
                    let x = ordered@[k];
                    assert(ordered@.to_set().contains(x));
                    if x != i {
                        assert(before.to_set().contains(x));
                        let m = choose|m: int| 0 <= m < before.len() && before[m] == x;
                    }
                }
                assert forall|k: int| 0 <= k < i + 1 && (#[trigger] rows@[k]).user_span_ids@.len() > 0 implies ordered@.to_set().contains(k as usize) by {
                    if k < i {
                        assert(before.to_set().contains(k as usize));
                    }
                }
            }
        }
        i = i + 1;
    }
    proof {
        ordered@.lemma_no_dup_set_cardinality();
    }
    let mut later: Vec<bool> = Vec::new();
    let mut k: usize = 0;
    while k < ordered.len()
        invariant
            k <= ordered@.len(),
            forall|x: int| 0 <= x < ordered@.len() ==> (#[trigger] ordered@[x]) < rows@.len(),
            later@.len() == k,
            forall|x: int| 0 <= x < k ==> #[trigger] later@[x] == reobserved_later(rows@, ordered@, x),
        decreases ordered.len() - k,
    {
        let id = identity_of_row(&rows[ordered[k]]);
        let mut found = false;
        let mut j: usize = k + 1;
        while j < ordered.len()
            invariant
                k < j <= ordered@.len(),
                forall|x: int| 0 <= x < ordered@.len() ==> (#[trigger] ordered@[x]) < rows@.len(),
                id@ == row_identity(rows@[ordered@[k as int] as int]),
                found == exists|y: int| k < y < j && row_identity(rows@[#[trigger] ordered@[y] as int]) == id@,
            decreases ordered.len() - j,
        {
            let other = identity_of_row(&rows[ordered[j]]);
            if str_eq(other.as_str(), id.as_str()) {
                found = true;
            }
            j = j + 1;
        }
        later.push(found);
        k = k + 1;
    }
    SalientPlan {
        prior_only_evidence_observed: prior_only_seen,
        latest_sample: latest_row(rows),
        ordered,
        later_reobservation: later,
    }
}

/// The turn selected after resolution: a support step selects its parent
/// when it has one.
pub fn selected_turn_id(relation: TaskTurnRelation, parent_task_turn_id: Option<String>, task_turn_id: String) -> (r: String)
    ensures
        r == (if relation == TaskTurnRelation::ChildSupportStep {
            match parent_task_turn_id {
                Some(p) => p,
                None => task_turn_id,
            }
        } else {
            task_turn_id
        }),
{
    match relation {
        TaskTurnRelation::ChildSupportStep => match parent_task_turn_id {
            Some(p) => p,
            None => task_turn_id,
        },
        _ => task_turn_id,
    }
}

/// What keeping the selected turn across an empty sample reads of it.
#[derive(Debug, Clone, PartialEq, Eq, Default)]
pub struct SelectedTurnLineage {
    pub session_id: Option<String>,
    pub surface_key_hash: Option<String>,
    pub last_observed_at_ms: i64,
    pub latest_user_span_ids: Vec<String>,
}

/// The hash under which a turn keeps the surface it was seen on.
pub open spec fn surface_hash(key: Seq<char>) -> Seq<char> {
    hex16(fnv1a(encode_utf8("task-turn-surface|"@ + key)))
}

/// A frame with no user goal keeps the selected turn: the same session and
/// the same known surface, at most fifteen seconds after the turn was last
/// seen, a turn that was attributed with confidence, and one that has a
/// user goal.
pub open spec fn keeps_selection(row: SalientRowSummary, selected: SelectedTurnLineage, confident: bool) -> bool {
    let row_hash = match opt_str(row.surface_key) {
        Some(k) => Some(surface_hash(k)),
        None => None,
    };
    let exact_lineage = opt_str(row.session_id) == opt_str(selected.session_id) && row_hash is Some
        && row_hash == opt_str(selected.surface_key_hash);
    let bounded = row.observed_at_ms >= selected.last_observed_at_ms && row.observed_at_ms
        - selected.last_observed_at_ms <= 15_000;
    exact_lineage && bounded && confident && selected.latest_user_span_ids@.len() > 0
}

/// Whether a frame with no user goal keeps the selected turn; `confident`
/// says whether the turn's attribution reached the selection threshold.
pub fn keeps_selected_turn(row: &SalientRowSummary, selected: &SelectedTurnLineage, confident: bool) -> (b: bool)
    ensures
        b == keeps_selection(*row, *selected, confident),
{
    let row_hash = match &row.surface_key {
        Some(k) => {
            let material = crate::contract::concat("task-turn-surface|", k.as_str());
            Some(crate::turn::stable_hash(material.as_str().as_bytes()))
        },
        None => None,
    };
    let same_session = crate::capture::opt_str_eq(&row.session_id, &selected.session_id);
    let same_surface = match &row_hash {
        Some(_) => crate::capture::opt_str_eq(&row_hash, &selected.surface_key_hash),
        None => false,
    };
    let bounded = row.observed_at_ms >= selected.last_observed_at_ms && (row.observed_at_ms as i128)
        - (selected.last_observed_at_ms as i128) <= 15_000;
    same_session && same_surface && bounded && confident && selected.latest_user_span_ids.len() > 0
}

/// What a batch without any user goal leaves selected.
#[derive(Debug, Clone, PartialEq, Eq)]
pub struct EmptyBatchOutcome {
    /// The selection is cleared.
    pub clear_selection: bool,
    pub selected_task_turn_id: Option<String>,
    pub selection_reason_codes: Vec<String>,
    pub missing_evidence: Vec<String>,
}

/// What a batch without any user goal leaves selected: the turn kept across
/// the empty sample, if any; the selection is cleared when nothing is kept
/// and the batch held prior-boundary text alone or its latest frame was a
/// manual Continue boundary.
pub fn empty_batch_outcome(
    prior_only_evidence_observed: bool,
    preserved_task_turn_id: Option<String>,
    manual_continue_boundary: bool,
) -> (r: EmptyBatchOutcome)
    ensures
        r.clear_selection == (preserved_task_turn_id is None && (prior_only_evidence_observed
            || manual_continue_boundary)),
        r.selected_task_turn_id == preserved_task_turn_id,
        strs(r.selection_reason_codes@) == (if preserved_task_turn_id is Some {
            seq!["same_surface_empty_sample_preserved"@]
        } else {
            Seq::<Seq<char>>::empty()
        }),
        strs(r.missing_evidence@) == seq!["current_user_goal_evidence"@],
{
    let kept = preserved_task_turn_id.is_some();
    let mut reasons: Vec<String> = Vec::new();
    if kept {
        crate::text::push_string(&mut reasons, crate::text::copy_str("same_surface_empty_sample_preserved"));
    }
    let mut missing: Vec<String> = Vec::new();
    crate::text::push_string(&mut missing, crate::text::copy_str("current_user_goal_evidence"));
    proof {
        assert(strs(missing@) =~= seq!["current_user_goal_evidence"@]);
        if kept {
            assert(strs(reasons@) =~= seq!["same_surface_empty_sample_preserved"@]);
        } else {
            assert(strs(reasons@) =~= Seq::<Seq<char>>::empty());
        }
    }
    EmptyBatchOutcome {
        clear_selection: !kept && (prior_only_evidence_observed || manual_continue_boundary),
        selected_task_turn_id: preserved_task_turn_id,
        selection_reason_codes: reasons,
        missing_evidence: missing,
    }
}

/// A quality flag that marks a conflict: an ambiguity or a flattened read.
pub open spec fn conflict_flag(f: Seq<char>) -> bool {
    contains(f, "ambiguous"@) || contains(f, "flattened"@)
}

/// The turns other than the selected one, sorted and distinct.
pub fn alternative_turn_ids(resolved_ids: &Vec<String>, selected: &Option<String>) -> (r: Vec<String>)
    ensures
        sorted_unique(strs(r@)),
        strs(r@).to_set() == strs(resolved_ids@).to_set().filter(|id: Seq<char>| opt_str(*selected) != Some(id)),
{
    let mut kept: Vec<String> = Vec::new();
    let mut i: usize = 0;
    assert(strs(kept@).to_set() =~= strs(resolved_ids@).take(0).to_set().filter(|id: Seq<char>| opt_str(*selected) != Some(id)));
    while i < resolved_ids.len()
        invariant
            i <= resolved_ids@.len(),
            strs(kept@).to_set() == strs(resolved_ids@).take(i as int).to_set().filter(|id: Seq<char>| opt_str(*selected) != Some(id)),
        decreases resolved_ids.len() - i,
    {
        let id = &resolved_ids[i];
        let is_selected = match selected {
            Some(s) => str_eq(s.as_str(), id.as_str()),
            None => false,
        };
        let ghost before = strs(kept@);
        if !is_selected {
            crate::text::push_string(&mut kept, id.clone());
        }
        proof {
            let all = strs(resolved_ids@);
            assert(all.take(i as int + 1) =~= all.take(i as int).push(all[i as int]));
            all.take(i as int).lemma_push_to_set_commute(all[i as int]);
            if !is_selected {
                assert(strs(kept@) =~= before.push(id@));
                before.lemma_push_to_set_commute(id@);
            }
            assert(strs(kept@).to_set() =~= all.take(i as int + 1).to_set().filter(|x: Seq<char>| opt_str(*selected) != Some(x)));
        }
        i = i + 1;
    }
    assert(strs(resolved_ids@).take(i as int) =~= strs(resolved_ids@));
    sort_dedup(kept)
}

/// The conflict flags among the quality flags, sorted and distinct.
pub fn conflict_flags(quality_flags: &Vec<String>) -> (r: Vec<String>)
    ensures
        sorted_unique(strs(r@)),
        strs(r@).to_set() == strs(quality_flags@).to_set().filter(|f: Seq<char>| conflict_flag(f)),
{
    let mut kept: Vec<String> = Vec::new();
    let mut i: usize = 0;
    assert(strs(kept@).to_set() =~= strs(quality_flags@).take(0).to_set().filter(|f: Seq<char>| conflict_flag(f)));
    while i < quality_flags.len()
        invariant
            i <= quality_flags@.len(),
            strs(kept@).to_set() == strs(quality_flags@).take(i as int).to_set().filter(|f: Seq<char>| conflict_flag(f)),
        decreases quality_flags.len() - i,
    {
        let flag = &quality_flags[i];
        let ghost before = strs(kept@);
        let conflict = crate::text::str_contains(flag.as_str(), "ambiguous") || crate::text::str_contains(flag.as_str(), "flattened");
        if conflict {
            crate::text::push_string(&mut kept, flag.clone());
        }
        proof {
            let all = strs(quality_flags@);
            assert(all.take(i as int + 1) =~= all.take(i as int).push(all[i as int]));
            all.take(i as int).lemma_push_to_set_commute(all[i as int]);
            if conflict {
                assert(strs(kept@) =~= before.push(flag@));
                before.lemma_push_to_set_commute(flag@);
            }
            assert(strs(kept@).to_set() =~= all.take(i as int + 1).to_set().filter(|f: Seq<char>| conflict_flag(f)));
        }
        i = i + 1;
    }
    assert(strs(quality_flags@).take(i as int) =~= strs(quality_flags@));
    sort_dedup(kept)
}

/// What a frame's scope takes from the turn that resolved it.
#[derive(Debug, Clone, PartialEq, Eq)]
pub struct TurnScopeCore {
    pub current_span_ids: Vec<String>,
    pub current_semantic_text: String,
    pub has_current_agent_state: bool,
    pub typed_boundary_confident: bool,
}

/// A text made of the parts present, joined by a space.
pub open spec fn present_joined(a: Option<Seq<char>>, b: Option<Seq<char>>) -> Seq<char> {
    match (a, b) {
        (Some(x), Some(y)) => x + " "@ + y,
        (Some(x), None) => x,
        (None, Some(y)) => y,
        (None, None) => Seq::empty(),
    }
}

/// What a frame's scope takes from the turn that resolved it: the turn's
/// user and state spans, sorted and once each; its goal and agent state as
/// one text; whether the agent's state is known; and whether its user
/// boundary is typed with confidence (a user span, an attribution that
/// reached the threshold, and no flattened read).
pub fn turn_scope_core(
    latest_user_span_ids: &Vec<String>,
    current_state_span_ids: &Vec<String>,
    latest_user_goal_summary: Option<&str>,
    actor_activity_state: Option<&str>,
    confident_attribution: bool,
    quality_flags: &Vec<String>,
) -> (r: TurnScopeCore)
    ensures
        sorted_unique(strs(r.current_span_ids@)),
        strs(r.current_span_ids@).to_set() == strs(latest_user_span_ids@).to_set().union(
            strs(current_state_span_ids@).to_set(),
        ),
        r.current_semantic_text@ == present_joined(
            match latest_user_goal_summary {
                Some(g) => Some(g@),
                None => None,
            },
            match actor_activity_state {
                Some(a) => Some(a@),
                None => None,
            },
        ),
        r.has_current_agent_state == (current_state_span_ids@.len() > 0),
        r.typed_boundary_confident == (latest_user_span_ids@.len() > 0 && confident_attribution
            && !(exists|i: int| 0 <= i < quality_flags@.len() && contains(#[trigger] quality_flags@[i]@, "flattened"@))),
{
    let spans = crate::turn::union_strings(Some(latest_user_span_ids), current_state_span_ids.as_slice());
    let text = match (latest_user_goal_summary, actor_activity_state) {
        (Some(g), Some(a)) => crate::contract::concat(crate::contract::concat(g, " ").as_str(), a),
        (Some(g), None) => crate::text::copy_str(g),
        (None, Some(a)) => crate::text::copy_str(a),
        (None, None) => String::new(),
    };
    let mut flattened = false;
    let mut i: usize = 0;
    while i < quality_flags.len()
        invariant
            i <= quality_flags@.len(),
            flattened == exists|k: int| 0 <= k < i && contains(#[trigger] quality_flags@[k]@, "flattened"@),
        decreases quality_flags.len() - i,
    {
        if crate::text::str_contains(quality_flags[i].as_str(), "flattened") {
            flattened = true;
        }
        i = i + 1;
    }
    TurnScopeCore {
        current_span_ids: spans,
        current_semantic_text: text,
        has_current_agent_state: current_state_span_ids.len() > 0,
        typed_boundary_confident: latest_user_span_ids.len() > 0 && confident_attribution && !flattened,
    }
}

} // verus!
