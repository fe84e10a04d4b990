//! Reading the roles of an agent or browser chat surface from where its
//! spans sit on screen. Of three or more panes the outer ones are
//! navigation and terminal; status markers in the conversation pane are the
//! agent at work; short spans by the composer are its controls; the latest
//! right-aligned span is the user's turn, unless a confirmed typing burst
//! names exactly one new one; the latest left-aligned span after it is the
//! agent's answer when the agent is known to be at work; and longer spans
//! before it are the earlier conversation. Only spans whose role is still
//! unknown are typed, but the user's turn is always marked.
//!
//! Positions are measured in screen points where the spans are kept: the
//! caller orders the panes from left to right, and tells per span whether
//! it is placed, on which side of the conversation pane's alignment line
//! its centre lies, and whether it lies by the composer.
use vstd::prelude::*;
use crate::evidence::{
    geometry_goal_candidate, user_goal_geometry_candidate_is_eligible, ConversationalRole,
    RegionRole, SurfaceFamily,
};
use crate::copy::vec_contains_str;
use crate::text::{copy_str, count_words, push_string, str_eq, strs, word_count};
use crate::turn::{contains_any, contains_some, normalize_text, normalized};

verus! {

/// What the surface adapter reads of an ordered evidence span.
#[derive(Debug, Clone, PartialEq, Eq)]
pub struct SurfaceSpanView {
    pub pane_id: String,
    pub region_role: RegionRole,
    pub conversational_role: ConversationalRole,
    pub reading_order: i64,
    pub text: String,
    pub text_hash: String,
    pub source_scope: String,
    pub ownership_kind: String,
    pub reason_codes: Vec<String>,
    pub quality_flags: Vec<String>,
    /// The span has a place on screen.
    pub placed: bool,
    /// Placed, with its top from 8 points above the composer's top to 120
    /// below its bottom; the composer is the first span typed as one, when
    /// it is placed.
    pub near_composer: bool,
    /// Placed, with its centre at or right of the conversation pane's
    /// alignment line, 58% of the way across the pane.
    pub right_aligned: bool,
    /// Placed, with its centre left of that line.
    pub left_aligned: bool,
}

/// What the surface adapter reads of a typing burst attributed to the frame.
#[derive(Debug, Clone, PartialEq, Eq)]
pub struct CausalTypingView {
    /// The burst's association confidence is not below the least a causal
    /// attribution needs.
    pub confident: bool,
    pub surface_match_result: String,
}

/// What the surface adapter reads of the frame.
#[derive(Debug, Clone, PartialEq, Eq)]
pub struct SurfaceFrameView {
    pub family: SurfaceFamily,
    /// The panes that hold a placed span, from left to right by their left
    /// edge.
    pub panes: Vec<String>,
    pub causal_typing: Option<CausalTypingView>,
    pub has_agent_status_event: bool,
    pub pre_frame_text_hashes: Vec<String>,
}

/// The confidence given with a role.
#[derive(Debug, Clone, Copy, PartialEq, Eq)]
pub enum AdaptedConfidence {
    /// Region and speaker confidence, in hundredths.
    Hundredths(u8, u8),
    /// Both are the typing burst's association confidence, at most 82
    /// hundredths.
    CausalTyping,
}

/// A span's roles once the adapter has read the surface, and the reasons it
/// added; no confidence when its roles were left as they were.
#[derive(Debug, Clone, PartialEq, Eq)]
pub struct AdaptedSpan {
    pub region_role: RegionRole,
    pub conversational_role: ConversationalRole,
    pub confidence: Option<AdaptedConfidence>,
    pub added_reason_codes: Vec<String>,
}

/// Roles, confidence and added reasons of a span.
pub type RoleState = (RegionRole, ConversationalRole, Option<AdaptedConfidence>, Seq<Seq<char>>);

pub open spec fn state_of(a: AdaptedSpan) -> RoleState {
    (a.region_role, a.conversational_role, a.confidence, strs(a.added_reason_codes@))
}

pub open spec fn as_int(o: Option<usize>) -> Option<int> {
    match o {
        Some(k) => Some(k as int),
        None => None,
    }
}

/// The number of placed spans in a pane.
pub open spec fn placed_in(spans: Seq<SurfaceSpanView>, pane: Seq<char>) -> nat
    decreases spans.len(),
{
    if spans.len() == 0 {
        0
    } else {
        placed_in(spans.drop_last(), pane) + if spans.last().placed && spans.last().pane_id@
            == pane {
            1nat
        } else {
            0nat
        }
    }
}

/// The conversation pane, by its place among the panes: the only one; of
/// two, the one with more placed spans, the right one on a tie; of more,
/// the middle one.
pub open spec fn conversation_of(panes: Seq<Seq<char>>, spans: Seq<SurfaceSpanView>) -> Option<
    int,
> {
    if panes.len() == 0 {
        None
    } else if panes.len() == 1 {
        Some(0)
    } else if panes.len() == 2 {
        if placed_in(spans, panes[1]) >= placed_in(spans, panes[0]) {
            Some(1)
        } else {
            Some(0)
        }
    } else {
        Some(panes.len() as int / 2)
    }
}

/// Words that mark the agent at work.
pub open spec fn status_words() -> Seq<Seq<char>> {
    seq!["working"@, "thinking"@, "streaming"@, "analyzing"@, "generating"@]
}

/// A span of the conversation pane whose text marks the agent at work.
pub open spec fn status_marker(s: SurfaceSpanView, c: Seq<char>) -> bool {
    s.pane_id@ == c && contains_some(normalized(s.text@), status_words())
}

/// Some status marker has reading order `o`.
pub open spec fn status_at(spans: Seq<SurfaceSpanView>, c: Seq<char>, o: i64) -> bool {
    exists|k: int|
        0 <= k < spans.len() && #[trigger] status_marker(spans[k], c) && spans[k].reading_order
            == o
}

/// Some status marker comes after reading order `o`.
pub open spec fn status_after(spans: Seq<SurfaceSpanView>, c: Seq<char>, o: i64) -> bool {
    exists|k: int|
        0 <= k < spans.len() && #[trigger] status_marker(spans[k], c) && spans[k].reading_order
            > o
}

/// An unknown span in the leftmost or rightmost of three or more panes.
pub open spec fn side_pane(f: SurfaceFrameView, s: SurfaceSpanView) -> bool {
    let p = strs(f.panes@);
    &&& p.len() >= 3
    &&& s.region_role == RegionRole::Unknown
    &&& (s.pane_id@ == p[0] || s.pane_id@ == p.last())
}

/// An unknown span of the conversation pane that shares its reading order
/// with a status marker.
pub open spec fn status_span(
    f: SurfaceFrameView,
    spans: Seq<SurfaceSpanView>,
    c: Seq<char>,
    s: SurfaceSpanView,
) -> bool {
    &&& s.region_role == RegionRole::Unknown
    &&& !side_pane(f, s)
    &&& s.pane_id@ == c
    &&& status_at(spans, c, s.reading_order)
}

/// A short unknown span by the composer.
pub open spec fn control_span(
    f: SurfaceFrameView,
    spans: Seq<SurfaceSpanView>,
    c: Seq<char>,
    s: SurfaceSpanView,
) -> bool {
    &&& s.region_role == RegionRole::Unknown
    &&& !side_pane(f, s)
    &&& !status_span(f, spans, c, s)
    &&& word_count(s.text@) <= 5
    &&& s.near_composer
}

/// A span still unknown once panes, status markers and controls are read.
pub open spec fn open_span(
    f: SurfaceFrameView,
    spans: Seq<SurfaceSpanView>,
    c: Seq<char>,
    s: SurfaceSpanView,
) -> bool {
    &&& s.region_role == RegionRole::Unknown
    &&& !side_pane(f, s)
    &&& !status_span(f, spans, c, s)
    &&& !control_span(f, spans, c, s)
}

/// An open, right-aligned span of the conversation pane, of three words or
/// more, that may stand for the user's goal.
pub open spec fn user_candidate(
    f: SurfaceFrameView,
    spans: Seq<SurfaceSpanView>,
    c: Seq<char>,
    s: SurfaceSpanView,
) -> bool {
    &&& open_span(f, spans, c, s)
    &&& s.pane_id@ == c
    &&& geometry_goal_candidate(
        s.source_scope@,
        s.ownership_kind@,
        strs(s.reason_codes@),
        strs(s.quality_flags@),
        s.region_role,
    )
    &&& s.right_aligned
    &&& word_count(s.text@) >= 3
}

pub open spec fn candidate_p(f: SurfaceFrameView, spans: Seq<SurfaceSpanView>, c: Seq<char>) -> spec_fn(
    SurfaceSpanView,
) -> bool {
    |s: SurfaceSpanView| user_candidate(f, spans, c, s)
}

/// A candidate whose text was not on screen before the frame.
pub open spec fn novel_p(f: SurfaceFrameView, spans: Seq<SurfaceSpanView>, c: Seq<char>) -> spec_fn(
    SurfaceSpanView,
) -> bool {
    |s: SurfaceSpanView|
        user_candidate(f, spans, c, s) && !strs(f.pre_frame_text_hashes@).contains(s.text_hash@)
}

/// The number of the first `n` spans that meet `p`.
pub open spec fn count_where(
    spans: Seq<SurfaceSpanView>,
    p: spec_fn(SurfaceSpanView) -> bool,
    n: int,
) -> nat
    decreases n,
{
    if n <= 0 {
        0
    } else {
        count_where(spans, p, n - 1) + if p(spans[n - 1]) {
            1nat
        } else {
            0nat
        }
    }
}

/// The last of the first `n` spans that meets `p`.
pub open spec fn last_meeting(spans: Seq<SurfaceSpanView>, p: spec_fn(SurfaceSpanView) -> bool, n: int) -> Option<
    int,
>
    decreases n,
{
    if n <= 0 {
        None
    } else if p(spans[n - 1]) {
        Some(n - 1)
    } else {
        last_meeting(spans, p, n - 1)
    }
}

/// Of the first `n` spans that meet `p`, the one latest in reading order,
/// the last of them on a tie.
pub open spec fn latest_meeting(spans: Seq<SurfaceSpanView>, p: spec_fn(SurfaceSpanView) -> bool, n: int) -> Option<
    int,
>
    decreases n,
{
    if n <= 0 {
        None
    } else {
        let prev = latest_meeting(spans, p, n - 1);
        if p(spans[n - 1]) && match prev {
            Some(k) => spans[n - 1].reading_order >= spans[k].reading_order,
            None => true,
        } {
            Some(n - 1)
        } else {
            prev
        }
    }
}

/// The first of the first `n` spans with reading order `o`.
pub open spec fn first_at_order(spans: Seq<SurfaceSpanView>, o: i64, n: int) -> Option<int>
    decreases n,
{
    if n <= 0 {
        None
    } else {
        let prev = first_at_order(spans, o, n - 1);
        if prev is Some {
            prev
        } else if spans[n - 1].reading_order == o {
            Some(n - 1)
        } else {
            None
        }
    }
}

/// The typing burst is confident and matched the frame's app and window.
pub open spec fn causal_confirmed(f: SurfaceFrameView) -> bool {
    match f.causal_typing {
        Some(t) => t.confident && t.surface_match_result@ == "exact_app_and_window"@,
        None => false,
    }
}

/// The reading order a confirmed typing burst gives the user's turn: that
/// of the one new candidate, when exactly one is new.
pub open spec fn causal_order(f: SurfaceFrameView, spans: Seq<SurfaceSpanView>, c: Seq<char>) -> Option<i64> {
    let p = novel_p(f, spans, c);
    if causal_confirmed(f) && count_where(spans, p, spans.len() as int) == 1 {
        match last_meeting(spans, p, spans.len() as int) {
            Some(k) => Some(spans[k].reading_order),
            None => None,
        }
    } else {
        None
    }
}

/// The reading order of the user's turn: by the typing burst, else the
/// latest candidate's.
pub open spec fn user_order(f: SurfaceFrameView, spans: Seq<SurfaceSpanView>, c: Seq<char>) -> Option<i64> {
    match causal_order(f, spans, c) {
        Some(o) => Some(o),
        None => match latest_meeting(spans, candidate_p(f, spans, c), spans.len() as int) {
            Some(k) => Some(spans[k].reading_order),
            None => None,
        },
    }
}

/// An open, left-aligned span of the conversation pane after the user's turn.
pub open spec fn agent_p(f: SurfaceFrameView, spans: Seq<SurfaceSpanView>, c: Seq<char>, uo: i64) -> spec_fn(
    SurfaceSpanView,
) -> bool {
    |s: SurfaceSpanView|
        open_span(f, spans, c, s) && s.pane_id@ == c && s.reading_order > uo && s.left_aligned
}

/// The agent's answer to the user's turn, when the agent is known to be at
/// work after it: the latest left-aligned open span after it.
pub open spec fn agent_of(f: SurfaceFrameView, spans: Seq<SurfaceSpanView>, c: Seq<char>, uo: i64) -> Option<int> {
    if f.has_agent_status_event || status_after(spans, c, uo) {
        latest_meeting(spans, agent_p(f, spans, c, uo), spans.len() as int)
    } else {
        None
    }
}

/// An open span of the conversation pane before the user's turn, of four
/// words or more.
pub open spec fn prior_span(
    f: SurfaceFrameView,
    spans: Seq<SurfaceSpanView>,
    c: Seq<char>,
    uo: i64,
    s: SurfaceSpanView,
) -> bool {
    &&& open_span(f, spans, c, s)
    &&& s.pane_id@ == c
    &&& s.reading_order < uo
    &&& word_count(s.text@) >= 4
}

pub open spec fn kept(s: SurfaceSpanView) -> RoleState {
    (s.region_role, s.conversational_role, None, Seq::empty())
}

/// The roles read from panes, status markers and the composer.
pub open spec fn earlier_roles(
    f: SurfaceFrameView,
    spans: Seq<SurfaceSpanView>,
    c: Seq<char>,
    s: SurfaceSpanView,
) -> RoleState {
    if side_pane(f, s) {
        if s.pane_id@ == strs(f.panes@)[0] {
            (
                RegionRole::Navigation,
                ConversationalRole::NonConversation,
                Some(AdaptedConfidence::Hundredths(72, 92)),
                seq!["agent_surface_left_navigation_pane"@],
            )
        } else {
            (
                RegionRole::TerminalOutput,
                ConversationalRole::NonConversation,
                Some(AdaptedConfidence::Hundredths(70, 92)),
                seq!["agent_surface_right_terminal_pane"@],
            )
        }
    } else if status_span(f, spans, c, s) {
        (
            RegionRole::AgentStatus,
            ConversationalRole::AssistantOrAgent,
            Some(AdaptedConfidence::Hundredths(82, 78)),
            seq!["agent_surface_status_marker"@],
        )
    } else if control_span(f, spans, c, s) {
        (
            RegionRole::Control,
            ConversationalRole::NonConversation,
            Some(AdaptedConfidence::Hundredths(78, 92)),
            seq!["composer_adjacent_action_control"@],
        )
    } else {
        kept(s)
    }
}

/// The surface is a chat, of an agent or in a browser.
pub open spec fn chat_surface(f: SurfaceFamily) -> bool {
    f == SurfaceFamily::AgentChat || f == SurfaceFamily::BrowserChat
}

/// The roles of span `i` once the surface is read.
pub open spec fn adapted_roles(f: SurfaceFrameView, spans: Seq<SurfaceSpanView>, i: int) -> RoleState {
    let s = spans[i];
    match conversation_of(strs(f.panes@), spans) {
        None => kept(s),
        Some(ci) => {
            if !chat_surface(f.family) {
                kept(s)
            } else {
                let c = strs(f.panes@)[ci];
                let base = earlier_roles(f, spans, c, s);
                match user_order(f, spans, c) {
                    None => base,
                    Some(uo) => turn_roles(f, spans, c, uo, i, base),
                }
            }
        },
    }
}

/// The roles of span `i` once the user's turn, at reading order `uo`, is
/// read, over the roles `base` read before.
pub open spec fn turn_roles(
    f: SurfaceFrameView,
    spans: Seq<SurfaceSpanView>,
    c: Seq<char>,
    uo: i64,
    i: int,
    base: RoleState,
) -> RoleState {
    let causal = causal_order(f, spans, c) is Some;
    if first_at_order(spans, uo, spans.len() as int) == Some(i) {
        (
            RegionRole::UserMessage,
            ConversationalRole::User,
            Some(
                if causal {
                    AdaptedConfidence::CausalTyping
                } else {
                    AdaptedConfidence::Hundredths(58, 58)
                },
            ),
            base.3.push(
                if causal {
                    "causal_typing_novel_post_frame_span"@
                } else {
                    "agent_surface_right_aligned_turn_unconfirmed"@
                },
            ),
        )
    } else if agent_of(f, spans, c, uo) == Some(i) {
        (
            RegionRole::AgentStatus,
            ConversationalRole::AssistantOrAgent,
            Some(AdaptedConfidence::Hundredths(76, 72)),
            seq!["agent_surface_following_status_turn"@],
        )
    } else if prior_span(f, spans, c, uo, spans[i]) {
        (
            RegionRole::ConversationHistory,
            ConversationalRole::AssistantOrAgent,
            Some(AdaptedConfidence::Hundredths(68, 64)),
            seq!["agent_surface_prior_left_turn"@],
        )
    } else {
        base
    }
}

proof fn lemma_first_at_order(spans: Seq<SurfaceSpanView>, o: i64, n: int)
    ensures
        first_at_order(spans, o, n) matches Some(k) ==> 0 <= k < n && spans[k].reading_order == o,
    decreases n,
{
    if n > 0 {
        lemma_first_at_order(spans, o, n - 1);
    }
}

proof fn lemma_latest_meeting(spans: Seq<SurfaceSpanView>, p: spec_fn(SurfaceSpanView) -> bool, n: int)
    ensures
        latest_meeting(spans, p, n) matches Some(k) ==> 0 <= k < n && p(spans[k]),
    decreases n,
{
    if n > 0 {
        lemma_latest_meeting(spans, p, n - 1);
    }
}

/// The adapter leaves a span's roles as they were unless it gives them a
/// confidence, and it retypes a span whose role is known only to mark the
/// user's turn.
pub proof fn law_only_unknown_spans_are_retyped(f: SurfaceFrameView, spans: Seq<SurfaceSpanView>, i: int)
    requires
        0 <= i < spans.len(),
    ensures
        adapted_roles(f, spans, i).2 is None ==> adapted_roles(f, spans, i).0 == spans[i].region_role
            && adapted_roles(f, spans, i).1 == spans[i].conversational_role
            && adapted_roles(f, spans, i).3.len() == 0,
        adapted_roles(f, spans, i).2 is Some && spans[i].region_role != RegionRole::Unknown
            ==> adapted_roles(f, spans, i).0 == RegionRole::UserMessage,
{
    let ps = strs(f.panes@);
    if let Some(ci) = conversation_of(ps, spans) {
        let c = ps[ci];
        if let Some(uo) = user_order(f, spans, c) {
            if f.has_agent_status_event || status_after(spans, c, uo) {
                lemma_latest_meeting(spans, agent_p(f, spans, c, uo), spans.len() as int);
            }
        }
    }
}

/// The adapter reads one user turn at most; what it reads as earlier
/// conversation comes before that turn, and the agent's answer after it.
pub proof fn law_one_user_turn_orders_the_conversation(
    f: SurfaceFrameView,
    spans: Seq<SurfaceSpanView>,
    u: int,
    i: int,
)
    requires
        0 <= u < spans.len(),
        0 <= i < spans.len(),
        adapted_roles(f, spans, u).0 == RegionRole::UserMessage,
        adapted_roles(f, spans, u).2 is Some,
    ensures
        adapted_roles(f, spans, i).0 == RegionRole::UserMessage && adapted_roles(f, spans, i).2 is Some
            ==> i == u,
        adapted_roles(f, spans, i).0 == RegionRole::ConversationHistory && adapted_roles(f, spans, i).2 is Some
            ==> spans[i].reading_order < spans[u].reading_order,
        adapted_roles(f, spans, i).3 == seq!["agent_surface_following_status_turn"@]
            ==> spans[i].reading_order > spans[u].reading_order,
{
    reveal_strlit("agent_surface_following_status_turn");
    reveal_strlit("agent_surface_left_navigation_pane");
    reveal_strlit("agent_surface_right_terminal_pane");
    reveal_strlit("agent_surface_status_marker");
    reveal_strlit("composer_adjacent_action_control");
    reveal_strlit("agent_surface_prior_left_turn");
    let ps = strs(f.panes@);
    let ci = conversation_of(ps, spans)->0;
    let c = ps[ci];
    let uo = user_order(f, spans, c)->0;
    lemma_first_at_order(spans, uo, spans.len() as int);
    if f.has_agent_status_event || status_after(spans, c, uo) {
        lemma_latest_meeting(spans, agent_p(f, spans, c, uo), spans.len() as int);
    }
    let agent_reason = "agent_surface_following_status_turn"@;
    assert(agent_reason.len() == 35);
    assert("agent_surface_left_navigation_pane"@.len() == 34);
    assert("agent_surface_right_terminal_pane"@.len() == 33);
    assert("agent_surface_status_marker"@.len() == 27);
    assert("composer_adjacent_action_control"@.len() == 32);
    assert("agent_surface_prior_left_turn"@.len() == 29);
    reveal_strlit("causal_typing_novel_post_frame_span");
    reveal_strlit("agent_surface_right_aligned_turn_unconfirmed");
    assert("causal_typing_novel_post_frame_span"@[0] != agent_reason[0]);
    assert("agent_surface_right_aligned_turn_unconfirmed"@.len() == 44);
    let e = earlier_roles(f, spans, c, spans[i]);
    let r = adapted_roles(f, spans, i);
    if r.3 == seq![agent_reason] {
        assert(r.3[0] == agent_reason);
        assert(e.3.len() == 0 || e.3[0] != agent_reason);
        if first_at_order(spans, uo, spans.len() as int) == Some(i) {
            assert(false);
        } else if agent_of(f, spans, c, uo) == Some(i) {
        } else if prior_span(f, spans, c, uo, spans[i]) {
            assert(false);
        } else {
            assert(r.3 == e.3);
            assert(false);
        }
    }
}

/// The number of placed spans in a pane.
fn count_placed(spans: &Vec<SurfaceSpanView>, pane: &str) -> (n: usize)
    ensures
        n == placed_in(spans@, pane@),
{
    let mut n: usize = 0;
    let mut i: usize = 0;
    while i < spans.len()
        invariant
            i <= spans@.len(),
            n <= i,
            n == placed_in(spans@.take(i as int), pane@),
        decreases spans.len() - i,
    {
        assert(spans@.take(i as int + 1).drop_last() =~= spans@.take(i as int));
        if spans[i].placed && str_eq(spans[i].pane_id.as_str(), pane) {
            n = n + 1;
        }
        i = i + 1;
    }
    assert(spans@.take(i as int) =~= spans@);
    n
}

/// The place of the conversation pane among the panes: the only one; of
/// two, the one with more placed spans, the right one on a tie; of more,
/// the middle one.
pub fn conversation_pane(panes: &Vec<String>, spans: &Vec<SurfaceSpanView>) -> (r: Option<usize>)
    ensures
        as_int(r) == conversation_of(strs(panes@), spans@),
        r matches Some(k) ==> k < panes@.len(),
{
    if panes.len() == 0 {
        None
    } else if panes.len() == 1 {
        Some(0)
    } else if panes.len() == 2 {
        let left = count_placed(spans, panes[0].as_str());
        let right = count_placed(spans, panes[1].as_str());
        if right >= left {
            Some(1)
        } else {
            Some(0)
        }
    } else {
        Some(panes.len() / 2)
    }
}

/// Whether each span is a status marker of pane `c`.
fn status_markers(spans: &Vec<SurfaceSpanView>, c: &str) -> (m: Vec<bool>)
    ensures
        m@.len() == spans@.len(),
        forall|k: int| 0 <= k < spans@.len() ==> m@[k] == status_marker(spans@[k], c@),
{
    let mut m: Vec<bool> = Vec::new();
    let mut i: usize = 0;
    while i < spans.len()
        invariant
            i <= spans@.len(),
            m@.len() == i,
            forall|k: int| 0 <= k < i ==> m@[k] == status_marker(spans@[k], c@),
        decreases spans.len() - i,
    {
        let in_pane = str_eq(spans[i].pane_id.as_str(), c);
        let text = normalize_text(spans[i].text.as_str());
        let words: [&str; 5] = ["working", "thinking", "streaming", "analyzing", "generating"];
        let hit = contains_any(text.as_str(), &words);
        assert(words@.map_values(|n: &str| n@) =~= status_words());
        m.push(in_pane && hit);
        i = i + 1;
    }
    m
}

/// Whether some status marker has reading order `o`, or, with `after`,
/// comes after it.
fn marker_order(spans: &Vec<SurfaceSpanView>, c: &str, markers: &Vec<bool>, o: i64, after: bool) -> (b: bool)
    requires
        markers@.len() == spans@.len(),
        forall|k: int| 0 <= k < spans@.len() ==> markers@[k] == status_marker(spans@[k], c@),
    ensures
        b == (if after {
            status_after(spans@, c@, o)
        } else {
            status_at(spans@, c@, o)
        }),
{
    let mut i: usize = 0;
    while i < spans.len()
        invariant
            i <= spans@.len(),
            markers@.len() == spans@.len(),
            forall|k: int| 0 <= k < spans@.len() ==> markers@[k] == status_marker(spans@[k], c@),
            forall|k: int|
                0 <= k < i && #[trigger] status_marker(spans@[k], c@) ==> (if after {
                    spans@[k].reading_order <= o
                } else {
                    spans@[k].reading_order != o
                }),
        decreases spans.len() - i,
    {
        let order = spans[i].reading_order;
        if markers[i] && ((after && order > o) || (!after && order == o)) {
            assert(status_marker(spans@[i as int], c@));
            return true;
        }
        i = i + 1;
    }
    false
}

/// Whether span `i` lies in a side pane, shares its reading order with a
/// status marker, or is a control by the composer.
fn earlier_of(
    f: &SurfaceFrameView,
    spans: &Vec<SurfaceSpanView>,
    c: &str,
    markers: &Vec<bool>,
    i: usize,
) -> (r: (bool, bool, bool))
    requires
        i < spans@.len(),
        markers@.len() == spans@.len(),
        forall|k: int| 0 <= k < spans@.len() ==> markers@[k] == status_marker(spans@[k], c@),
    ensures
        r.0 == side_pane(*f, spans@[i as int]),
        r.1 == status_span(*f, spans@, c@, spans@[i as int]),
        r.2 == control_span(*f, spans@, c@, spans@[i as int]),
{
    let s = &spans[i];
    let unknown = match s.region_role {
        RegionRole::Unknown => true,
        _ => false,
    };
    let n = f.panes.len();
    let side = n >= 3 && unknown && (str_eq(s.pane_id.as_str(), f.panes[0].as_str()) || str_eq(
        s.pane_id.as_str(),
        f.panes[n - 1].as_str(),
    ));
    let status = unknown && !side && str_eq(s.pane_id.as_str(), c) && marker_order(
        spans,
        c,
        markers,
        s.reading_order,
        false,
    );
    let control = unknown && !side && !status && count_words(s.text.as_str()) <= 5
        && s.near_composer;
    (side, status, control)
}

/// Whether span `i` is a candidate for the user's turn, and whether it is
/// also new to the frame.
fn candidate_of(
    f: &SurfaceFrameView,
    spans: &Vec<SurfaceSpanView>,
    c: &str,
    markers: &Vec<bool>,
    i: usize,
) -> (r: (bool, bool))
    requires
        i < spans@.len(),
        markers@.len() == spans@.len(),
        forall|k: int| 0 <= k < spans@.len() ==> markers@[k] == status_marker(spans@[k], c@),
    ensures
        r.0 == user_candidate(*f, spans@, c@, spans@[i as int]),
        r.1 == (novel_p(*f, spans@, c@))(spans@[i as int]),
{
    let s = &spans[i];
    let (side, status, control) = earlier_of(f, spans, c, markers, i);
    let unknown = match s.region_role {
        RegionRole::Unknown => true,
        _ => false,
    };
    let open = unknown && !side && !status && !control;
    let candidate = open && str_eq(s.pane_id.as_str(), c) && user_goal_geometry_candidate_is_eligible(
        s.source_scope.as_str(),
        s.ownership_kind.as_str(),
        &s.reason_codes,
        &s.quality_flags,
        s.region_role,
    ) && s.right_aligned && count_words(s.text.as_str()) >= 3;
    let novel = candidate && !vec_contains_str(&f.pre_frame_text_hashes, s.text_hash.as_str());
    (candidate, novel)
}

/// The roles of every span once the surface is read. Nothing changes off a
/// chat surface or where no pane holds a placed span.
pub fn adapt_surface_roles(f: &SurfaceFrameView, spans: &Vec<SurfaceSpanView>) -> (r: Vec<AdaptedSpan>)
    ensures
        r@.len() == spans@.len(),
        forall|i: int| 0 <= i < spans@.len() ==> #[trigger] state_of(r@[i]) == adapted_roles(*f, spans@, i),
{
    let ghost ps = strs(f.panes@);
    let conv = conversation_pane(&f.panes, spans);
    let chat = match f.family {
        SurfaceFamily::AgentChat => true,
        SurfaceFamily::BrowserChat => true,
        _ => false,
    };
    let mut out: Vec<AdaptedSpan> = Vec::new();
    if !chat || conv.is_none() {
        let mut i: usize = 0;
        while i < spans.len()
            invariant
                i <= spans@.len(),
                out@.len() == i,
                !chat_surface(f.family) || conversation_of(strs(f.panes@), spans@) is None,
                forall|k: int| 0 <= k < i ==> #[trigger] state_of(out@[k]) == adapted_roles(*f, spans@, k),
            decreases spans.len() - i,
        {
            out.push(
                AdaptedSpan {
                    region_role: spans[i].region_role,
                    conversational_role: spans[i].conversational_role,
                    confidence: None,
                    added_reason_codes: Vec::new(),
                },
            );
            proof {
                assert(strs(out@[i as int].added_reason_codes@) =~= Seq::<Seq<char>>::empty());
            }
            i = i + 1;
        }
        return out;
    }
    let ci = conv.unwrap();
    let c: &str = f.panes[ci].as_str();
    assert(c@ == ps[ci as int]);
    let markers = status_markers(spans, c);
    // Candidates for the user's turn: how many are new, the last new one,
    // and the latest.
    let mut novel_count: usize = 0;
    let mut last_novel: Option<usize> = None;
    let mut latest: Option<usize> = None;
    let mut i: usize = 0;
    while i < spans.len()
        invariant
            i <= spans@.len(),
            markers@.len() == spans@.len(),
            forall|k: int| 0 <= k < spans@.len() ==> markers@[k] == status_marker(spans@[k], c@),
            novel_count <= i,
            novel_count == count_where(spans@, novel_p(*f, spans@, c@), i as int),
            as_int(last_novel) == last_meeting(spans@, novel_p(*f, spans@, c@), i as int),
            as_int(latest) == latest_meeting(spans@, candidate_p(*f, spans@, c@), i as int),
            last_novel matches Some(k) ==> k < i,
            latest matches Some(k) ==> k < i,
        decreases spans.len() - i,
    {
        let (candidate, novel) = candidate_of(f, spans, c, &markers, i);
        assert(candidate == (candidate_p(*f, spans@, c@))(spans@[i as int]));
        if novel {
            novel_count = novel_count + 1;
            last_novel = Some(i);
        }
        if candidate {
            let later = match latest {
                Some(k) => spans[i].reading_order >= spans[k].reading_order,
                None => true,
            };
            if later {
                latest = Some(i);
            }
        }
        i = i + 1;
    }
    let confirmed = match &f.causal_typing {
        Some(t) => t.confident && str_eq(t.surface_match_result.as_str(), "exact_app_and_window"),
        None => false,
    };
    let causal: Option<i64> = if confirmed && novel_count == 1 {
        match last_novel {
            Some(k) => Some(spans[k].reading_order),
            None => None,
        }
    } else {
        None
    };
    assert(causal == causal_order(*f, spans@, c@));
    let user: Option<i64> = match causal {
        Some(o) => Some(o),
        None => match latest {
            Some(k) => Some(spans[k].reading_order),
            None => None,
        },
    };
    assert(user == user_order(*f, spans@, c@));
    // The span that takes the user's turn, and the agent's answer to it.
    let mut user_at: Option<usize> = None;
    let mut agent_at: Option<usize> = None;
    if let Some(uo) = user {
        let mut j: usize = 0;
        while j < spans.len()
            invariant
                j <= spans@.len(),
                as_int(user_at) == first_at_order(spans@, uo, j as int),
                user_at matches Some(k) ==> k < j,
            decreases spans.len() - j,
        {
            if user_at.is_none() && spans[j].reading_order == uo {
                user_at = Some(j);
            }
            j = j + 1;
        }
        let following = f.has_agent_status_event || marker_order(spans, c, &markers, uo, true);
        if following {
            let mut j: usize = 0;
            while j < spans.len()
                invariant
                    j <= spans@.len(),
                    markers@.len() == spans@.len(),
                    forall|k: int|
                        0 <= k < spans@.len() ==> markers@[k] == status_marker(spans@[k], c@),
                    as_int(agent_at) == latest_meeting(spans@, agent_p(*f, spans@, c@, uo), j as int),
                    agent_at matches Some(k) ==> k < j,
                decreases spans.len() - j,
            {
                let (side, status, control) = earlier_of(f, spans, c, &markers, j);
                let unknown = match spans[j].region_role {
                    RegionRole::Unknown => true,
                    _ => false,
                };
                let fits = unknown && !side && !status && !control && str_eq(
                    spans[j].pane_id.as_str(),
                    c,
                ) && spans[j].reading_order > uo && spans[j].left_aligned;
                assert(fits == (agent_p(*f, spans@, c@, uo))(spans@[j as int]));
                if fits {
                    let later = match agent_at {
                        Some(k) => spans[j].reading_order >= spans[k].reading_order,
                        None => true,
                    };
                    if later {
                        agent_at = Some(j);
                    }
                }
                j = j + 1;
            }
        }
        assert(as_int(agent_at) == agent_of(*f, spans@, c@, uo));
    }
    // Every span's roles.
    let mut i: usize = 0;
    while i < spans.len()
        invariant
            i <= spans@.len(),
            out@.len() == i,
            chat_surface(f.family),
            ci < f.panes@.len(),
            conversation_of(strs(f.panes@), spans@) == Some(ci as int),
            c@ == strs(f.panes@)[ci as int],
            markers@.len() == spans@.len(),
            forall|k: int| 0 <= k < spans@.len() ==> markers@[k] == status_marker(spans@[k], c@),
            user == user_order(*f, spans@, c@),
            causal == causal_order(*f, spans@, c@),
            user matches Some(uo) ==> as_int(user_at) == first_at_order(spans@, uo, spans@.len() as int),
            user matches Some(uo) ==> as_int(agent_at) == agent_of(*f, spans@, c@, uo),
            forall|k: int| 0 <= k < i ==> #[trigger] state_of(out@[k]) == adapted_roles(*f, spans@, k),
        decreases spans.len() - i,
    {
        let s = &spans[i];
        let (side, status, control) = earlier_of(f, spans, c, &markers, i);
        let mut reasons: Vec<String> = Vec::new();
        let mut region = s.region_role;
        let mut speaker = s.conversational_role;
        let mut confidence: Option<AdaptedConfidence> = None;
        if side {
            if str_eq(s.pane_id.as_str(), f.panes[0].as_str()) {
                region = RegionRole::Navigation;
                speaker = ConversationalRole::NonConversation;
                confidence = Some(AdaptedConfidence::Hundredths(72, 92));
                push_string(&mut reasons, copy_str("agent_surface_left_navigation_pane"));
            } else {
                region = RegionRole::TerminalOutput;
                speaker = ConversationalRole::NonConversation;
                confidence = Some(AdaptedConfidence::Hundredths(70, 92));
                push_string(&mut reasons, copy_str("agent_surface_right_terminal_pane"));
            }
        } else if status {
            region = RegionRole::AgentStatus;
            speaker = ConversationalRole::AssistantOrAgent;
            confidence = Some(AdaptedConfidence::Hundredths(82, 78));
            push_string(&mut reasons, copy_str("agent_surface_status_marker"));
        } else if control {
            region = RegionRole::Control;
            speaker = ConversationalRole::NonConversation;
            confidence = Some(AdaptedConfidence::Hundredths(78, 92));
            push_string(&mut reasons, copy_str("composer_adjacent_action_control"));
        }
        proof {
            let e = earlier_roles(*f, spans@, c@, spans@[i as int]);
            assert(strs(reasons@) =~= e.3);
            assert((region, speaker, confidence) == (e.0, e.1, e.2));
        }
        if let Some(uo) = user {
            let unknown = match s.region_role {
                RegionRole::Unknown => true,
                _ => false,
            };
            if user_at == Some(i) {
                region = RegionRole::UserMessage;
                speaker = ConversationalRole::User;
                if causal.is_some() {
                    confidence = Some(AdaptedConfidence::CausalTyping);
                    push_string(&mut reasons, copy_str("causal_typing_novel_post_frame_span"));
                } else {
                    confidence = Some(AdaptedConfidence::Hundredths(58, 58));
                    push_string(&mut reasons, copy_str("agent_surface_right_aligned_turn_unconfirmed"));
                }
            } else if agent_at == Some(i) {
                region = RegionRole::AgentStatus;
                speaker = ConversationalRole::AssistantOrAgent;
                confidence = Some(AdaptedConfidence::Hundredths(76, 72));
                reasons = Vec::new();
                push_string(&mut reasons, copy_str("agent_surface_following_status_turn"));
            } else if unknown && !side && !status && !control && str_eq(s.pane_id.as_str(), c)
                && s.reading_order < uo && count_words(s.text.as_str()) >= 4 {
                region = RegionRole::ConversationHistory;
                speaker = ConversationalRole::AssistantOrAgent;
                confidence = Some(AdaptedConfidence::Hundredths(68, 64));
                reasons = Vec::new();
                push_string(&mut reasons, copy_str("agent_surface_prior_left_turn"));
            }
        }
        out.push(
            AdaptedSpan {
                region_role: region,
                conversational_role: speaker,
                confidence,
                added_reason_codes: reasons,
            },
        );
        i = i + 1;
    }
    out
}

} // verus!
