//! Selecting a frame's latest turn from its ordered evidence spans: the
//! latest typed user message, the agent's answer or status after it, the
//! earlier conversation before it, and the composer; what is missing; and
//! why each other span was left out.
//!
//! Only spans of the frame's own session and surface, observed by the
//! frame, count. Whether a span's roles were typed with enough confidence
//! is decided where the confidences are kept and handed in per span.
use vstd::prelude::*;
use crate::evidence::{
    is_privacy_blocked, privacy_blocked, goal_ineligibility, on_context_surface, rejection_of, rejection_reason, ConversationalRole,
    RegionRole,
};
use crate::provisional::with_unique;
use crate::text::{contains, opt_str, sort_dedup, sorted_unique, str_eq, strs};

verus! {

/// What selection reads of an ordered evidence span.
#[derive(Debug, Clone, PartialEq, Eq)]
pub struct TurnSpanView {
    pub span_id: String,
    pub session_id: Option<String>,
    pub observed_at_ms: i64,
    pub owner_app_id: Option<String>,
    pub owner_window_id: Option<i64>,
    pub source_scope: String,
    pub ownership_kind: String,
    pub region_role: RegionRole,
    pub conversational_role: ConversationalRole,
    pub reading_order: i64,
    /// The region role was typed with the confidence a typed role needs.
    pub region_confident: bool,
    /// The speaker was typed with the confidence a typed role needs.
    pub speaker_confident: bool,
    pub quality_flags: Vec<String>,
}

/// What selection reads of the frame.
#[derive(Debug, Clone, PartialEq, Eq, Default)]
pub struct TurnFrameView {
    pub observed_at_ms: i64,
    pub session_id: Option<String>,
    pub bundle_id: Option<String>,
    pub app_name: Option<String>,
    pub window_id: Option<i64>,
}

/// A span left out of the latest turn, with the reason.
#[derive(Debug, Clone, PartialEq, Eq)]
pub struct RejectedTurnSpan {
    pub span_id: String,
    pub reason_code: String,
}

/// The latest turn chosen among a frame's spans.
#[derive(Debug, Clone, PartialEq, Eq)]
pub struct LatestTurnChoice {
    /// The spans that count, in order.
    pub eligible: Vec<usize>,
    pub latest_user: Option<usize>,
    pub current_agent: Option<usize>,
    pub prior_boundary: Option<usize>,
    pub salient_span_ids: Vec<String>,
    pub missing_roles: Vec<String>,
    pub rejected_spans: Vec<RejectedTurnSpan>,
    pub fallback_flags: Vec<String>,
}

/// A span counts for the frame: observed by it, of its session and surface,
/// shown in its window and owned by it.
pub open spec fn eligible_span(s: TurnSpanView, f: TurnFrameView) -> bool {
    &&& s.observed_at_ms <= f.observed_at_ms
    &&& opt_str(s.session_id) == opt_str(f.session_id)
    &&& on_context_surface(opt_str(s.owner_app_id), s.owner_window_id, opt_str(f.bundle_id), opt_str(f.app_name), f.window_id)
    &&& s.source_scope@ != "background_display"@
    &&& s.ownership_kind@ != "OtherWindowOwned"@
    &&& s.ownership_kind@ != "DisplayOnlyUnattributed"@
}

/// The indices of the first `n` spans that count, in order.
pub open spec fn eligible_prefix(spans: Seq<TurnSpanView>, f: TurnFrameView, n: int) -> Seq<usize>
    decreases n,
{
    if n <= 0 {
        Seq::empty()
    } else {
        let p = eligible_prefix(spans, f, n - 1);
        if eligible_span(spans[n - 1], f) {
            p.push((n - 1) as usize)
        } else {
            p
        }
    }
}

/// The last of `idx` whose span meets `p`.
pub open spec fn last_where(spans: Seq<TurnSpanView>, idx: Seq<usize>, p: spec_fn(TurnSpanView) -> bool) -> Option<usize>
    decreases idx.len(),
{
    if idx.len() == 0 {
        None
    } else if p(spans[idx.last() as int]) {
        Some(idx.last())
    } else {
        last_where(spans, idx.drop_last(), p)
    }
}

/// A typed user message that may be the user's goal.
pub open spec fn user_pick() -> spec_fn(TurnSpanView) -> bool {
    |s: TurnSpanView|
        s.region_role == RegionRole::UserMessage && s.conversational_role == ConversationalRole::User
            && goal_ineligibility(s.region_role, s.conversational_role, s.source_scope@, s.ownership_kind@) is None
            && s.region_confident && s.speaker_confident
}

/// An agent's message or status after the user's message.
pub open spec fn agent_pick(u: TurnSpanView) -> spec_fn(TurnSpanView) -> bool {
    |s: TurnSpanView|
        (s.region_role == RegionRole::AgentMessage || s.region_role == RegionRole::AgentStatus)
            && s.conversational_role == ConversationalRole::AssistantOrAgent && (s.observed_at_ms
            > u.observed_at_ms || (s.observed_at_ms == u.observed_at_ms && s.reading_order
            > u.reading_order)) && s.region_confident
}

/// Earlier conversation, before the user's message when there is one.
pub open spec fn prior_pick(u: Option<TurnSpanView>) -> spec_fn(TurnSpanView) -> bool {
    |s: TurnSpanView|
        s.region_role == RegionRole::ConversationHistory && match u {
            Some(u) => s.observed_at_ms < u.observed_at_ms || (s.observed_at_ms == u.observed_at_ms
                && s.reading_order < u.reading_order),
            None => true,
        }
}

/// The composer.
pub open spec fn composer_pick() -> spec_fn(TurnSpanView) -> bool {
    |s: TurnSpanView| s.region_role == RegionRole::Composer
}

/// A list with an optional value added once.
pub open spec fn with_optional(v: Seq<Seq<char>>, o: Option<Seq<char>>) -> Seq<Seq<char>> {
    match o {
        Some(x) => with_unique(v, x),
        None => v,
    }
}

/// The id of an optional span.
pub open spec fn id_of(spans: Seq<TurnSpanView>, i: Option<usize>) -> Option<Seq<char>> {
    match i {
        Some(i) => Some(spans[i as int].span_id@),
        None => None,
    }
}

/// The spans that count and are not salient, in order.
pub open spec fn left_out(spans: Seq<TurnSpanView>, idx: Seq<usize>, salient: Seq<Seq<char>>) -> Seq<usize>
    decreases idx.len(),
{
    if idx.len() == 0 {
        Seq::empty()
    } else {
        let p = left_out(spans, idx.drop_last(), salient);
        if salient.contains(spans[idx.last() as int].span_id@) {
            p
        } else {
            p.push(idx.last())
        }
    }
}

/// Some span that counts carries the flattened-text fallback flag.
pub open spec fn flagged_flattened(spans: Seq<TurnSpanView>, idx: Seq<usize>) -> bool {
    exists|k: int, j: int|
        0 <= k < idx.len() && 0 <= j < spans[idx[k] as int].quality_flags@.len() && (#[trigger] spans[idx[k] as int].quality_flags@[j])@
            == "flattened_text_fallback"@
}

/// Whether a span counts for the frame.
fn is_eligible(s: &TurnSpanView, f: &TurnFrameView) -> (b: bool)
    ensures
        b == eligible_span(*s, *f),
{
    let owner_app = match &s.owner_app_id {
        Some(a) => Some(a.as_str()),
        None => None,
    };
    let bundle = match &f.bundle_id {
        Some(b) => Some(b.as_str()),
        None => None,
    };
    let app = match &f.app_name {
        Some(a) => Some(a.as_str()),
        None => None,
    };
    s.observed_at_ms <= f.observed_at_ms && crate::capture::opt_str_eq(&s.session_id, &f.session_id)
        && crate::evidence::span_matches_context_surface(owner_app, s.owner_window_id, bundle, app, f.window_id)
        && !str_eq(s.source_scope.as_str(), "background_display") && !str_eq(
        s.ownership_kind.as_str(),
        "OtherWindowOwned",
    ) && !str_eq(s.ownership_kind.as_str(), "DisplayOnlyUnattributed")
}

/// Taking one more element off the end keeps the last match when the
/// element does not match, and is the match when it does.
proof fn lemma_last_where_step(spans: Seq<TurnSpanView>, idx: Seq<usize>, p: spec_fn(TurnSpanView) -> bool, k: int)
    requires
        0 < k <= idx.len(),
    ensures
        p(spans[idx[k - 1] as int]) ==> last_where(spans, idx.take(k), p) == Some(idx[k - 1]),
        !p(spans[idx[k - 1] as int]) ==> last_where(spans, idx.take(k), p) == last_where(spans, idx.take(k - 1), p),
{
    assert(idx.take(k).drop_last() =~= idx.take(k - 1));
    assert(idx.take(k).last() == idx[k - 1]);
}

/// The last eligible typed user message.
fn last_user(spans: &Vec<TurnSpanView>, idx: &Vec<usize>) -> (r: Option<usize>)
    requires
        forall|k: int| 0 <= k < idx@.len() ==> (#[trigger] idx@[k]) < spans@.len(),
    ensures
        r == last_where(spans@, idx@, user_pick()),
{
    let mut k: usize = idx.len();
    assert(idx@.take(k as int) =~= idx@);
    while k > 0
        invariant
            k <= idx@.len(),
            forall|j: int| 0 <= j < idx@.len() ==> (#[trigger] idx@[j]) < spans@.len(),
            last_where(spans@, idx@, user_pick()) == last_where(spans@, idx@.take(k as int), user_pick()),
        decreases k,
    {
        let s = &spans[idx[k - 1]];
        proof {
            lemma_last_where_step(spans@, idx@, user_pick(), k as int);
        }
        if matches!(s.region_role, RegionRole::UserMessage) && matches!(s.conversational_role, ConversationalRole::User)
            && crate::evidence::user_goal_ineligibility(s.region_role, s.conversational_role, s.source_scope.as_str(), s.ownership_kind.as_str()).is_none()
            && s.region_confident && s.speaker_confident {
            return Some(idx[k - 1]);
        }
        k = k - 1;
    }
    None
}

/// The last eligible agent message or status after the user's message.
fn last_agent(spans: &Vec<TurnSpanView>, idx: &Vec<usize>, u: &TurnSpanView) -> (r: Option<usize>)
    requires
        forall|k: int| 0 <= k < idx@.len() ==> (#[trigger] idx@[k]) < spans@.len(),
    ensures
        r == last_where(spans@, idx@, agent_pick(*u)),
{
    let mut k: usize = idx.len();
    assert(idx@.take(k as int) =~= idx@);
    while k > 0
        invariant
            k <= idx@.len(),
            forall|j: int| 0 <= j < idx@.len() ==> (#[trigger] idx@[j]) < spans@.len(),
            last_where(spans@, idx@, agent_pick(*u)) == last_where(spans@, idx@.take(k as int), agent_pick(*u)),
        decreases k,
    {
        let s = &spans[idx[k - 1]];
        proof {
            lemma_last_where_step(spans@, idx@, agent_pick(*u), k as int);
        }
        if matches!(s.region_role, RegionRole::AgentMessage | RegionRole::AgentStatus)
            && matches!(s.conversational_role, ConversationalRole::AssistantOrAgent)
            && (s.observed_at_ms > u.observed_at_ms || (s.observed_at_ms == u.observed_at_ms && s.reading_order > u.reading_order))
            && s.region_confident {
            return Some(idx[k - 1]);
        }
        k = k - 1;
    }
    None
}

/// The last eligible earlier conversation, before the user's message when
/// there is one.
fn last_prior(spans: &Vec<TurnSpanView>, idx: &Vec<usize>, u: Option<&TurnSpanView>) -> (r: Option<usize>)
    requires
        forall|k: int| 0 <= k < idx@.len() ==> (#[trigger] idx@[k]) < spans@.len(),
    ensures
        r == last_where(spans@, idx@, prior_pick(
            match u {
                Some(x) => Some(*x),
                None => None,
            },
        )),
{
    let ghost uu = match u {
        Some(x) => Some(*x),
        None => None::<TurnSpanView>,
    };
    let mut k: usize = idx.len();
    assert(idx@.take(k as int) =~= idx@);
    while k > 0
        invariant
            k <= idx@.len(),
            forall|j: int| 0 <= j < idx@.len() ==> (#[trigger] idx@[j]) < spans@.len(),
            uu == match u {
                Some(x) => Some(*x),
                None => None::<TurnSpanView>,
            },
            last_where(spans@, idx@, prior_pick(uu)) == last_where(spans@, idx@.take(k as int), prior_pick(uu)),
        decreases k,
    {
        let s = &spans[idx[k - 1]];
        proof {
            lemma_last_where_step(spans@, idx@, prior_pick(uu), k as int);
        }
        let before_user = match u {
            Some(x) => s.observed_at_ms < x.observed_at_ms || (s.observed_at_ms == x.observed_at_ms && s.reading_order < x.reading_order),
            None => true,
        };
        if matches!(s.region_role, RegionRole::ConversationHistory) && before_user {
            return Some(idx[k - 1]);
        }
        k = k - 1;
    }
    None
}

/// The last eligible composer.
fn last_composer(spans: &Vec<TurnSpanView>, idx: &Vec<usize>) -> (r: Option<usize>)
    requires
        forall|k: int| 0 <= k < idx@.len() ==> (#[trigger] idx@[k]) < spans@.len(),
    ensures
        r == last_where(spans@, idx@, composer_pick()),
{
    let mut k: usize = idx.len();
    assert(idx@.take(k as int) =~= idx@);
    while k > 0
        invariant
            k <= idx@.len(),
            forall|j: int| 0 <= j < idx@.len() ==> (#[trigger] idx@[j]) < spans@.len(),
            last_where(spans@, idx@, composer_pick()) == last_where(spans@, idx@.take(k as int), composer_pick()),
        decreases k,
    {
        proof {
            lemma_last_where_step(spans@, idx@, composer_pick(), k as int);
        }
        if matches!(spans[idx[k - 1]].region_role, RegionRole::Composer) {
            return Some(idx[k - 1]);
        }
        k = k - 1;
    }
    None
}

/// The roles missing from a latest turn.
pub open spec fn missing_of(user: bool, agent: bool, salient_empty: bool) -> Seq<Seq<char>> {
    let base = if !user {
        seq!["latest_user_message"@]
    } else if !agent {
        seq!["current_agent_response_or_status"@]
    } else {
        Seq::empty()
    };
    if salient_empty {
        base.push("typed_salient_semantic_unit"@)
    } else {
        base
    }
}

/// The reason a span is left out, with the latest user message's time.
pub open spec fn reason_for(s: TurnSpanView, latest_user_at: Option<i64>) -> Seq<char> {
    rejection_of(
        s.region_role,
        s.conversational_role,
        s.source_scope@,
        s.ownership_kind@,
        s.observed_at_ms,
        latest_user_at,
        !s.region_confident,
    )
}

/// The spans left out, by id and reason, in order.
pub open spec fn rejections(
    spans: Seq<TurnSpanView>,
    idx: Seq<usize>,
    salient: Seq<Seq<char>>,
    latest_user_at: Option<i64>,
) -> Seq<(Seq<char>, Seq<char>)> {
    left_out(spans, idx, salient).map_values(
        |i: usize| (spans[i as int].span_id@, reason_for(spans[i as int], latest_user_at)),
    )
}

/// The view of a list of rejected spans.
pub open spec fn rejected_view(v: Seq<RejectedTurnSpan>) -> Seq<(Seq<char>, Seq<char>)> {
    v.map_values(|r: RejectedTurnSpan| (r.span_id@, r.reason_code@))
}

/// Extending the list of spans only adds to the end of what is left out.
proof fn lemma_left_out_prefix(spans: Seq<TurnSpanView>, idx: Seq<usize>, salient: Seq<Seq<char>>, k: int)
    requires
        0 <= k <= idx.len(),
    ensures
        left_out(spans, idx.take(k), salient).len() <= left_out(spans, idx, salient).len(),
        left_out(spans, idx.take(k), salient) =~= left_out(spans, idx, salient).take(
            left_out(spans, idx.take(k), salient).len() as int,
        ),
    decreases idx.len() - k,
{
    if k < idx.len() {
        lemma_left_out_prefix(spans, idx, salient, k + 1);
        assert(idx.take(k + 1).drop_last() =~= idx.take(k));
    } else {
        assert(idx.take(k) =~= idx);
    }
}

/// Selects the latest turn among a frame's spans; `causal_association_source`
/// names how the frame's typing burst was tied to it, when it was.
pub fn select_latest_turn(
    frame: &TurnFrameView,
    spans: &Vec<TurnSpanView>,
    causal_association_source: Option<&str>,
) -> (r: LatestTurnChoice)
    ensures
        r.eligible@ == eligible_prefix(spans@, *frame, spans@.len() as int),
        r.latest_user == last_where(spans@, r.eligible@, user_pick()),
        r.current_agent == (match r.latest_user {
            Some(u) => last_where(spans@, r.eligible@, agent_pick(spans@[u as int])),
            None => None,
        }),
        r.prior_boundary == last_where(spans@, r.eligible@, prior_pick(
            match r.latest_user {
                Some(u) => Some(spans@[u as int]),
                None => None,
            },
        )),
        strs(r.salient_span_ids@) == with_optional(
            with_optional(
                with_optional(
                    with_optional(Seq::empty(), id_of(spans@, r.latest_user)),
                    id_of(spans@, r.current_agent),
                ),
                id_of(spans@, r.prior_boundary),
            ),
            id_of(spans@, last_where(spans@, r.eligible@, composer_pick())),
        ),
        strs(r.missing_roles@) == missing_of(
            r.latest_user is Some,
            r.current_agent is Some,
            r.salient_span_ids@.len() == 0,
        ),
        ({
            let all = rejections(
                spans@,
                r.eligible@,
                strs(r.salient_span_ids@),
                match r.latest_user {
                    Some(u) => Some(spans@[u as int].observed_at_ms),
                    None => None,
                },
            );
            rejected_view(r.rejected_spans@) == if all.len() <= 24 {
                all
            } else {
                all.take(24)
            }
        }),
        sorted_unique(strs(r.fallback_flags@)),
        strs(r.fallback_flags@).to_set() == (if flagged_flattened(spans@, r.eligible@)
            || r.salient_span_ids@.len() == 0 {
            set!["flattened_text_fallback"@]
        } else {
            Set::<Seq<char>>::empty()
        }).union(
            match causal_association_source {
                Some(src) => set!["causal_typing:"@ + src@],
                None => Set::<Seq<char>>::empty(),
            },
        ),
{
    let mut eligible: Vec<usize> = Vec::new();
    let mut i: usize = 0;
    while i < spans.len()
        invariant
            i <= spans@.len(),
            eligible@ == eligible_prefix(spans@, *frame, i as int),
            forall|k: int| 0 <= k < eligible@.len() ==> (#[trigger] eligible@[k]) < i,
        decreases spans.len() - i,
    {
        if is_eligible(&spans[i], frame) {
            eligible.push(i);
        }
        i = i + 1;
    }
    let user = last_user(spans, &eligible);
    proof {
        if user is Some {
            lemma_last_where_in(spans@, eligible@, user_pick());
        }
    }
    let agent = match user {
        Some(u) => last_agent(spans, &eligible, &spans[u]),
        None => None,
    };
    let prior = match user {
        Some(u) => last_prior(spans, &eligible, Some(&spans[u])),
        None => last_prior(spans, &eligible, None),
    };
    let composer = last_composer(spans, &eligible);
    proof {
        if agent is Some {
            lemma_last_where_in(spans@, eligible@, agent_pick(spans@[user.unwrap() as int]));
        }
        if prior is Some {
            lemma_last_where_in(spans@, eligible@, prior_pick(
                match user {
                    Some(u) => Some(spans@[u as int]),
                    None => None,
                },
            ));
        }
        if composer is Some {
            lemma_last_where_in(spans@, eligible@, composer_pick());
        }
    }
    let mut salient: Vec<String> = Vec::new();
    if let Some(u) = user {
        crate::turn::push_unique(&mut salient, spans[u].span_id.clone());
    }
    assert(strs(salient@) == with_optional(Seq::empty(), id_of(spans@, user)));
    if let Some(a) = agent {
        crate::turn::push_unique(&mut salient, spans[a].span_id.clone());
    }
    if let Some(p) = prior {
        crate::turn::push_unique(&mut salient, spans[p].span_id.clone());
    }
    if let Some(c) = composer {
        crate::turn::push_unique(&mut salient, spans[c].span_id.clone());
    }
    let mut missing: Vec<String> = Vec::new();
    if user.is_none() {
        crate::text::push_string(&mut missing, crate::text::copy_str("latest_user_message"));
    } else if agent.is_none() {
        crate::text::push_string(&mut missing, crate::text::copy_str("current_agent_response_or_status"));
    }
    if salient.len() == 0 {
        crate::text::push_string(&mut missing, crate::text::copy_str("typed_salient_semantic_unit"));
    }
    proof {
        assert(strs(missing@) =~= missing_of(user is Some, agent is Some, salient@.len() == 0));
    }
    let latest_user_at: Option<i64> = match user {
        Some(u) => Some(spans[u].observed_at_ms),
        None => None,
    };
    let ghost all = rejections(spans@, eligible@, strs(salient@), latest_user_at);
    let mut rejected: Vec<RejectedTurnSpan> = Vec::new();
    let mut k: usize = 0;
    assert(eligible@.take(0) =~= Seq::<usize>::empty());
    assert(rejected_view(rejected@) =~= rejections(spans@, eligible@.take(0), strs(salient@), latest_user_at));
    while k < eligible.len() && rejected.len() < 24
        invariant
            k <= eligible@.len(),
            forall|j: int| 0 <= j < eligible@.len() ==> (#[trigger] eligible@[j]) < spans@.len(),
            rejected@.len() <= 24,
            rejected_view(rejected@) == rejections(spans@, eligible@.take(k as int), strs(salient@), latest_user_at),
        decreases eligible.len() - k,
    {
        let s = &spans[eligible[k]];
        proof {
            assert(eligible@.take(k as int + 1).drop_last() =~= eligible@.take(k as int));
            assert(eligible@.take(k as int + 1).last() == eligible@[k as int]);
        }
        if !crate::copy::vec_contains_str(&salient, s.span_id.as_str()) {
            let reason = rejection_reason(
                s.region_role,
                s.conversational_role,
                s.source_scope.as_str(),
                s.ownership_kind.as_str(),
                s.observed_at_ms,
                latest_user_at,
                !s.region_confident,
            );
            let ghost before = rejected_view(rejected@);
            let ghost lo = left_out(spans@, eligible@.take(k as int), strs(salient@));
            rejected.push(RejectedTurnSpan { span_id: s.span_id.clone(), reason_code: reason });
            proof {
                assert(left_out(spans@, eligible@.take(k as int + 1), strs(salient@)) =~= lo.push(eligible@[k as int]));
                assert(rejected_view(rejected@) =~= before.push((s.span_id@, reason@)));
                assert(reason@ == reason_for(*s, latest_user_at));
                assert(rejections(spans@, eligible@.take(k as int + 1), strs(salient@), latest_user_at) =~= rejections(
                    spans@,
                    eligible@.take(k as int),
                    strs(salient@),
                    latest_user_at,
                ).push((s.span_id@, reason@)));
            }
        } else {
            assert(rejected_view(rejected@) =~= rejections(spans@, eligible@.take(k as int + 1), strs(salient@), latest_user_at));
        }
        k = k + 1;
    }
    proof {
        lemma_left_out_prefix(spans@, eligible@, strs(salient@), k as int);
        let part = left_out(spans@, eligible@.take(k as int), strs(salient@));
        let whole = left_out(spans@, eligible@, strs(salient@));
        if k == eligible@.len() {
            assert(eligible@.take(k as int) =~= eligible@);
        } else {
            assert(part.len() == 24);
            assert(all =~= whole.map_values(|i: usize| (spans@[i as int].span_id@, reason_for(spans@[i as int], latest_user_at))));
            assert(all.take(24) =~= part.map_values(|i: usize| (spans@[i as int].span_id@, reason_for(spans@[i as int], latest_user_at))));
        }
    }
    let mut any_flattened = false;
    let mut e: usize = 0;
    while e < eligible.len()
        invariant
            e <= eligible@.len(),
            forall|j: int| 0 <= j < eligible@.len() ==> (#[trigger] eligible@[j]) < spans@.len(),
            any_flattened == exists|a: int, b: int|
                0 <= a < e && 0 <= b < spans@[eligible@[a] as int].quality_flags@.len() && (#[trigger] spans@[eligible@[a] as int].quality_flags@[b])@
                    == "flattened_text_fallback"@,
        decreases eligible.len() - e,
    {
        let flags = &spans[eligible[e]].quality_flags;
        let mut f: usize = 0;
        let ghost before = any_flattened;
        let mut here = false;
        while f < flags.len()
            invariant
                f <= flags@.len(),
                here == exists|b: int| 0 <= b < f && (#[trigger] flags@[b])@ == "flattened_text_fallback"@,
            decreases flags.len() - f,
        {
            if str_eq(flags[f].as_str(), "flattened_text_fallback") {
                here = true;
            }
            f = f + 1;
        }
        any_flattened = any_flattened || here;
        e = e + 1;
    }
    let mut flags: Vec<String> = Vec::new();
    if any_flattened || salient.len() == 0 {
        crate::text::push_string(&mut flags, crate::text::copy_str("flattened_text_fallback"));
    }
    if let Some(src) = causal_association_source {
        crate::text::push_string(&mut flags, crate::contract::concat("causal_typing:", src));
    }
    proof {
        let expected = (if any_flattened || salient@.len() == 0 {
            set!["flattened_text_fallback"@]
        } else {
            Set::<Seq<char>>::empty()
        }).union(
            match causal_association_source {
                Some(src) => set!["causal_typing:"@ + src@],
                None => Set::<Seq<char>>::empty(),
            },
        );
        assert forall|x: Seq<char>| strs(flags@).to_set().contains(x) <==> expected.contains(x) by {
            if strs(flags@).contains(x) {
                let m = choose|m: int| 0 <= m < strs(flags@).len() && strs(flags@)[m] == x;
            }
            if expected.contains(x) {
                if (any_flattened || salient@.len() == 0) && x == "flattened_text_fallback"@ {
                    assert(strs(flags@)[0] == x);
                } else {
                    assert(strs(flags@)[strs(flags@).len() - 1] == x);
                }
            }
        }
        assert(strs(flags@).to_set() =~= expected);
    }
    let fallback = sort_dedup(flags);
    LatestTurnChoice {
        eligible,
        latest_user: user,
        current_agent: agent,
        prior_boundary: prior,
        salient_span_ids: salient,
        missing_roles: missing,
        rejected_spans: rejected,
        fallback_flags: fallback,
    }
}

/// The last match is one of the indices.
proof fn lemma_last_where_in(spans: Seq<TurnSpanView>, idx: Seq<usize>, p: spec_fn(TurnSpanView) -> bool)
    requires
        last_where(spans, idx, p) is Some,
    ensures
        idx.contains(last_where(spans, idx, p).unwrap()),
    decreases idx.len(),
{
    if !p(spans[idx.last() as int]) {
        lemma_last_where_in(spans, idx.drop_last(), p);
        let w = last_where(spans, idx.drop_last(), p).unwrap();
        let m = choose|m: int| 0 <= m < idx.drop_last().len() && idx.drop_last()[m] == w;
        assert(idx[m] == w);
    } else {
        assert(idx[idx.len() - 1] == idx.last());
    }
}

/// Every index taken as eligible is a span that counts.
proof fn lemma_eligible_prefix_counts(spans: Seq<TurnSpanView>, f: TurnFrameView, n: int, k: int)
    requires
        0 <= n <= spans.len(),
        spans.len() <= usize::MAX,
        0 <= k < eligible_prefix(spans, f, n).len(),
    ensures
        eligible_prefix(spans, f, n)[k] < n,
        eligible_span(spans[eligible_prefix(spans, f, n)[k] as int], f),
    decreases n,
{
    let p = eligible_prefix(spans, f, n - 1);
    if k < p.len() {
        lemma_eligible_prefix_counts(spans, f, n - 1, k);
    } else {
        assert(eligible_prefix(spans, f, n)[k] == (n - 1) as usize);
        assert((n - 1) as usize as int == n - 1);
    }
}

/// The match found by `last_where` meets the predicate.
proof fn lemma_last_where_meets(spans: Seq<TurnSpanView>, idx: Seq<usize>, p: spec_fn(TurnSpanView) -> bool)
    requires
        last_where(spans, idx, p) is Some,
    ensures
        p(spans[last_where(spans, idx, p).unwrap() as int]),
    decreases idx.len(),
{
    if !p(spans[idx.last() as int]) {
        lemma_last_where_meets(spans, idx.drop_last(), p);
    }
}

/// The latest turn belongs to the frame: its user message is a typed,
/// confident user message of the frame's own session and surface, observed
/// by the frame and able to be a goal; the agent's part comes after it and
/// the earlier conversation before it.
pub proof fn law_latest_turn_belongs_to_the_frame(spans: Seq<TurnSpanView>, f: TurnFrameView)
    requires
        spans.len() <= usize::MAX,
    ensures
        ({
            let idx = eligible_prefix(spans, f, spans.len() as int);
            match last_where(spans, idx, user_pick()) {
                Some(u) => {
                    &&& eligible_span(spans[u as int], f)
                    &&& spans[u as int].region_role == RegionRole::UserMessage
                    &&& spans[u as int].conversational_role == ConversationalRole::User
                    &&& goal_ineligibility(
                        spans[u as int].region_role,
                        spans[u as int].conversational_role,
                        spans[u as int].source_scope@,
                        spans[u as int].ownership_kind@,
                    ) is None
                    &&& (match last_where(spans, idx, agent_pick(spans[u as int])) {
                        Some(a) => eligible_span(spans[a as int], f) && (spans[a as int].observed_at_ms
                            > spans[u as int].observed_at_ms || (spans[a as int].observed_at_ms
                            == spans[u as int].observed_at_ms && spans[a as int].reading_order
                            > spans[u as int].reading_order)),
                        None => true,
                    })
                },
                None => true,
            }
        }),
{
    let idx = eligible_prefix(spans, f, spans.len() as int);
    if let Some(u) = last_where(spans, idx, user_pick()) {
        lemma_last_where_in(spans, idx, user_pick());
        lemma_last_where_meets(spans, idx, user_pick());
        let k = choose|k: int| 0 <= k < idx.len() && idx[k] == u;
        lemma_eligible_prefix_counts(spans, f, spans.len() as int, k);
        if let Some(a) = last_where(spans, idx, agent_pick(spans[u as int])) {
            lemma_last_where_in(spans, idx, agent_pick(spans[u as int]));
            lemma_last_where_meets(spans, idx, agent_pick(spans[u as int]));
            let m = choose|m: int| 0 <= m < idx.len() && idx[m] == a;
            lemma_eligible_prefix_counts(spans, f, spans.len() as int, m);
        }
    }
}

/// The most characters the three samples of a turn hold together.
pub const MAX_TOTAL_SAMPLE_CHARS: usize = 800;

/// The text samples a latest turn is kept with.
#[derive(Debug, Clone, PartialEq, Eq)]
pub struct TurnSamples {
    pub salient_user_goal_sample: Option<String>,
    pub salient_agent_state_sample: Option<String>,
    pub prior_boundary_sample: Option<String>,
}

/// The number of characters of an optional sample.
pub open spec fn sample_len(o: Option<String>) -> int {
    match o {
        Some(s) => s@.len() as int,
        None => 0,
    }
}

/// A sample, kept only when its role has a chosen span.
pub open spec fn gated(present: bool, o: Option<String>) -> Option<String> {
    if present {
        o
    } else {
        None
    }
}

/// The samples of a turn: none on a privacy-blocked surface; otherwise the
/// samples of the roles that have a chosen span, as they are when together
/// they fit the total; without the prior sample when that makes them fit;
/// and else the user and agent samples cut to their share of the total.
pub open spec fn samples_of(
    choice: LatestTurnChoice,
    privacy_status: Seq<char>,
    user: Option<String>,
    agent: Option<String>,
    prior: Option<String>,
    user_within_budget: Option<String>,
    agent_within_budget: Option<String>,
) -> (Option<String>, Option<String>, Option<String>) {
    if privacy_blocked(privacy_status) {
        (None, None, None)
    } else {
        let u = gated(choice.latest_user is Some, user);
        let a = gated(choice.current_agent is Some, agent);
        let p = gated(choice.prior_boundary is Some, prior);
        if sample_len(u) + sample_len(a) + sample_len(p) <= MAX_TOTAL_SAMPLE_CHARS {
            (u, a, p)
        } else if sample_len(u) + sample_len(a) <= MAX_TOTAL_SAMPLE_CHARS {
            (u, a, None)
        } else {
            (gated(u is Some, user_within_budget), gated(a is Some, agent_within_budget), None)
        }
    }
}

fn sample_chars(o: &Option<String>) -> (n: u128)
    ensures
        n == sample_len(*o),
        n <= usize::MAX,
{
    match o {
        Some(s) => s.as_str().unicode_len() as u128,
        None => 0,
    }
}

/// The text samples a chosen turn is kept with. `user`, `agent` and `prior`
/// are the public-safe samples of the chosen spans, and the two
/// `within_budget` samples the user and agent samples cut to half the total
/// each; how text is made public-safe is decided where the text is kept.
/// On a privacy-blocked surface no sample is kept, a role without a chosen
/// span has no sample, and the samples hold at most 800 characters together
/// whenever the cut samples hold at most 400 each.
pub fn turn_samples(
    choice: &LatestTurnChoice,
    privacy_status: &str,
    user: Option<String>,
    agent: Option<String>,
    prior: Option<String>,
    user_within_budget: Option<String>,
    agent_within_budget: Option<String>,
) -> (r: TurnSamples)
    ensures
        (r.salient_user_goal_sample, r.salient_agent_state_sample, r.prior_boundary_sample) == samples_of(
            *choice,
            privacy_status@,
            user,
            agent,
            prior,
            user_within_budget,
            agent_within_budget,
        ),
        privacy_blocked(privacy_status@) ==> r.salient_user_goal_sample is None
            && r.salient_agent_state_sample is None && r.prior_boundary_sample is None,
        choice.latest_user is None ==> r.salient_user_goal_sample is None,
        choice.current_agent is None ==> r.salient_agent_state_sample is None,
        choice.prior_boundary is None ==> r.prior_boundary_sample is None,
        sample_len(user_within_budget) <= MAX_TOTAL_SAMPLE_CHARS / 2 && sample_len(agent_within_budget)
            <= MAX_TOTAL_SAMPLE_CHARS / 2 ==> sample_len(r.salient_user_goal_sample) + sample_len(
            r.salient_agent_state_sample,
        ) + sample_len(r.prior_boundary_sample) <= MAX_TOTAL_SAMPLE_CHARS,
{
    if is_privacy_blocked(privacy_status) {
        return TurnSamples {
            salient_user_goal_sample: None,
            salient_agent_state_sample: None,
            prior_boundary_sample: None,
        };
    }
    let u = if choice.latest_user.is_some() {
        user
    } else {
        None
    };
    let a = if choice.current_agent.is_some() {
        agent
    } else {
        None
    };
    let p = if choice.prior_boundary.is_some() {
        prior
    } else {
        None
    };
    let lu = sample_chars(&u);
    let la = sample_chars(&a);
    let lp = sample_chars(&p);
    if lu + la + lp <= MAX_TOTAL_SAMPLE_CHARS as u128 {
        return TurnSamples { salient_user_goal_sample: u, salient_agent_state_sample: a, prior_boundary_sample: p };
    }
    if lu + la <= MAX_TOTAL_SAMPLE_CHARS as u128 {
        return TurnSamples {
            salient_user_goal_sample: u,
            salient_agent_state_sample: a,
            prior_boundary_sample: None,
        };
    }
    let cut_user = if u.is_some() {
        user_within_budget
    } else {
        None
    };
    let cut_agent = if a.is_some() {
        agent_within_budget
    } else {
        None
    };
    TurnSamples { salient_user_goal_sample: cut_user, salient_agent_state_sample: cut_agent, prior_boundary_sample: None }
}

} // verus!
