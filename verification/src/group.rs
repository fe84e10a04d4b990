//! An ordered evidence span built from a group of raw spans that read the
//! same text: its distinct sources in order, its identity from them, its
//! roles from the structural hints of all its members, its quality flags,
//! and what orders it on screen.
//!
//! Which raw spans form a group depends on how their boxes overlap; that is
//! measured where the geometry is kept, and the group handed in.
use vstd::prelude::*;
use vstd::utf8::encode_utf8;
use crate::contract::concat;
use crate::finalize::{decimal, i64_to_decimal};
use crate::evidence::{
    classify_role, join_with, joined_by, role_of, source_kind_label, EvidenceSourceKind,
    EvidenceSourceRef, RoleClassification, SurfaceFamily,
};
use crate::provisional::with_unique;
use crate::text::{
    ascii_lower, ascii_lowercase, copy_str, lemma_str_lt_total, lemma_str_lt_trans, opt_str,
    push_string, str_eq, str_less, str_lt, strs,
};
use crate::turn::{fnv1a, hex16, push_unique, stable_hash};

verus! {

/// The order of source kinds, as declared.
pub open spec fn kind_rank(k: EvidenceSourceKind) -> int {
    match k {
        EvidenceSourceKind::AccessibilityNode => 0,
        EvidenceSourceKind::OcrSpan => 1,
        EvidenceSourceKind::ContentUnit => 2,
        EvidenceSourceKind::FlattenedTextFallback => 3,
    }
}

/// A source reference as the values it is compared by.
pub type SourceKey = (EvidenceSourceKind, Seq<char>, Seq<char>, Seq<char>);

pub open spec fn source_key(r: EvidenceSourceRef) -> SourceKey {
    (r.source_kind, r.source_record_id@, r.source_text_reference@, r.text_hash@)
}

pub open spec fn source_keys(v: Seq<EvidenceSourceRef>) -> Seq<SourceKey> {
    v.map_values(|r: EvidenceSourceRef| source_key(r))
}

/// Source references in their derived order: by kind, then record id, text
/// reference and text hash.
pub open spec fn key_lt(a: SourceKey, b: SourceKey) -> bool {
    ||| kind_rank(a.0) < kind_rank(b.0)
    ||| kind_rank(a.0) == kind_rank(b.0) && str_lt(a.1, b.1)
    ||| kind_rank(a.0) == kind_rank(b.0) && a.1 == b.1 && str_lt(a.2, b.2)
    ||| kind_rank(a.0) == kind_rank(b.0) && a.1 == b.1 && a.2 == b.2 && str_lt(a.3, b.3)
}

/// Strictly increasing, hence free of duplicates.
pub open spec fn keys_sorted(s: Seq<SourceKey>) -> bool {
    forall|i: int, j: int| 0 <= i < j < s.len() ==> key_lt(#[trigger] s[i], #[trigger] s[j])
}

proof fn lemma_key_lt_total(a: SourceKey, b: SourceKey)
    ensures
        a == b || key_lt(a, b) || key_lt(b, a),
        !(key_lt(a, b) && key_lt(b, a)),
        !key_lt(a, a),
{
    lemma_str_lt_total(a.1, b.1);
    lemma_str_lt_total(a.2, b.2);
    lemma_str_lt_total(a.3, b.3);
}

proof fn lemma_key_lt_trans(a: SourceKey, b: SourceKey, c: SourceKey)
    requires
        key_lt(a, b),
        key_lt(b, c),
    ensures
        key_lt(a, c),
{
    if kind_rank(a.0) == kind_rank(b.0) && kind_rank(b.0) == kind_rank(c.0) {
        if a.1 == b.1 && b.1 == c.1 {
            if a.2 == b.2 && b.2 == c.2 {
                lemma_str_lt_trans(a.3, b.3, c.3);
            } else if a.2 == b.2 {
                lemma_str_lt_total(b.2, c.2);
            } else if b.2 == c.2 {
                lemma_str_lt_total(a.2, b.2);
            } else {
                lemma_str_lt_trans(a.2, b.2, c.2);
            }
        } else if a.1 == b.1 {
            lemma_str_lt_total(b.1, c.1);
        } else if b.1 == c.1 {
            lemma_str_lt_total(a.1, b.1);
        } else {
            lemma_str_lt_trans(a.1, b.1, c.1);
        }
    }
}

fn kind_rank_of(k: EvidenceSourceKind) -> (r: u8)
    ensures
        r == kind_rank(k),
{
    match k {
        EvidenceSourceKind::AccessibilityNode => 0,
        EvidenceSourceKind::OcrSpan => 1,
        EvidenceSourceKind::ContentUnit => 2,
        EvidenceSourceKind::FlattenedTextFallback => 3,
    }
}

/// Whether `a` comes before `b` in the order of source references.
fn source_less(a: &EvidenceSourceRef, b: &EvidenceSourceRef) -> (r: bool)
    ensures
        r == key_lt(source_key(*a), source_key(*b)),
{
    let ra = kind_rank_of(a.source_kind);
    let rb = kind_rank_of(b.source_kind);
    if ra != rb {
        return ra < rb;
    }
    if !str_eq(a.source_record_id.as_str(), b.source_record_id.as_str()) {
        return str_less(a.source_record_id.as_str(), b.source_record_id.as_str());
    }
    if !str_eq(a.source_text_reference.as_str(), b.source_text_reference.as_str()) {
        return str_less(a.source_text_reference.as_str(), b.source_text_reference.as_str());
    }
    str_less(a.text_hash.as_str(), b.text_hash.as_str())
}

/// Whether two source references are the same.
fn same_source(a: &EvidenceSourceRef, b: &EvidenceSourceRef) -> (r: bool)
    ensures
        r == (source_key(*a) == source_key(*b)),
{
    kind_rank_of(a.source_kind) == kind_rank_of(b.source_kind) && str_eq(
        a.source_record_id.as_str(),
        b.source_record_id.as_str(),
    ) && str_eq(a.source_text_reference.as_str(), b.source_text_reference.as_str()) && str_eq(
        a.text_hash.as_str(),
        b.text_hash.as_str(),
    )
}

/// A copy of a source reference.
fn copy_source(r: &EvidenceSourceRef) -> (c: EvidenceSourceRef)
    ensures
        source_key(c) == source_key(*r),
{
    EvidenceSourceRef {
        source_kind: r.source_kind,
        source_record_id: copy_str(r.source_record_id.as_str()),
        source_text_reference: copy_str(r.source_text_reference.as_str()),
        text_hash: copy_str(r.text_hash.as_str()),
    }
}

/// Inserts a source reference into a strictly sorted list unless it is
/// already there.
fn insert_source(v: &mut Vec<EvidenceSourceRef>, s: EvidenceSourceRef)
    requires
        keys_sorted(source_keys(old(v)@)),
    ensures
        keys_sorted(source_keys(final(v)@)),
        source_keys(final(v)@).to_set() == source_keys(old(v)@).to_set().insert(source_key(s)),
{
    let ghost old_v = source_keys(v@);
    let ghost k = source_key(s);
    let mut p: usize = 0;
    while p < v.len() && source_less(&v[p], &s)
        invariant
            source_keys(v@) == old_v,
            keys_sorted(old_v),
            k == source_key(s),
            p <= v@.len(),
            forall|i: int| 0 <= i < p ==> key_lt(#[trigger] old_v[i], k),
        decreases v.len() - p,
    {
        p = p + 1;
    }
    if p < v.len() && same_source(&v[p], &s) {
        assert(source_keys(v@).to_set() =~= old_v.to_set().insert(k)) by {
            assert(old_v[p as int] == k);
            assert(old_v.contains(k));
        }
        return;
    }
    proof {
        if p < v.len() {
            lemma_key_lt_total(old_v[p as int], k);
            assert forall|j: int| p <= j < old_v.len() implies key_lt(k, #[trigger] old_v[j]) by {
                if j > p {
                    lemma_key_lt_trans(k, old_v[p as int], old_v[j]);
                }
            }
        }
    }
    v.insert(p, s);
    proof {
        let nv = source_keys(v@);
        assert(nv =~= old_v.insert(p as int, k));
        assert forall|i: int, j: int| 0 <= i < j < nv.len() implies key_lt(
            #[trigger] nv[i],
            #[trigger] nv[j],
        ) by {
            if i < p && j > p {
                lemma_key_lt_trans(nv[i], k, nv[j]);
            }
        }
        assert(nv.to_set() =~= old_v.to_set().insert(k)) by {
            assert forall|x: SourceKey| nv.to_set().contains(x) implies old_v.to_set().insert(
                k,
            ).contains(x) by {
                let m = choose|m: int| 0 <= m < nv.len() && nv[m] == x;
                if m < p {
                    assert(old_v[m] == x);
                } else if m > p {
                    assert(old_v[m - 1] == x);
                }
            }
            assert forall|x: SourceKey| old_v.to_set().insert(k).contains(x) implies nv.to_set().contains(
                x,
            ) by {
                if x == k {
                    assert(nv[p as int] == x);
                } else {
                    let m = choose|m: int| 0 <= m < old_v.len() && old_v[m] == x;
                    if m < p {
                        assert(nv[m] == x);
                    } else {
                        assert(nv[m + 1] == x);
                    }
                }
            }
        }
    }
}

/// What a group's span reads of a raw span that adds to it.
#[derive(Debug, Clone, PartialEq, Eq)]
pub struct GroupMember {
    pub source: EvidenceSourceRef,
    pub structural_hint: String,
    pub quality_flags: Vec<String>,
}

/// What a group's span reads of its primary raw span.
#[derive(Debug, Clone, PartialEq, Eq)]
pub struct GroupPrimary {
    pub source: EvidenceSourceRef,
    pub structural_hint: String,
    pub quality_flags: Vec<String>,
    pub semantic_role: Option<String>,
    pub focused: bool,
    /// The raw span sits under a parent element.
    pub has_parent: bool,
    /// The raw span has a place on screen.
    pub placed: bool,
    pub owner_window_id: Option<i64>,
    pub owner_app_id: Option<String>,
}

/// What a group's span reads of the frame.
#[derive(Debug, Clone, PartialEq, Eq)]
pub struct GroupFrame {
    pub frame_id: String,
    pub family: SurfaceFamily,
    pub has_agent_status_event: bool,
    pub window_id: Option<i64>,
    pub bundle_id: Option<String>,
    pub app_name: Option<String>,
}

/// An ordered evidence span built from a group.
#[derive(Debug, Clone, PartialEq, Eq)]
pub struct GroupedSpan {
    pub span_id: String,
    /// The group's distinct sources, in order.
    pub contributing_sources: Vec<EvidenceSourceRef>,
    pub roles: RoleClassification,
    pub quality_flags: Vec<String>,
    /// How sure the span's place in reading order is, in hundredths.
    pub order_confidence_hundredths: u8,
    pub owner_window_id: Option<i64>,
    pub owner_app_id: Option<String>,
}

/// The sources of a group: the primary's first.
pub open spec fn member_keys(primary: GroupPrimary, contributors: Seq<GroupMember>) -> Seq<SourceKey> {
    seq![source_key(primary.source)] + contributors.map_values(|m: GroupMember| source_key(m.source))
}

/// The structural hints of a group, joined by spaces and lowercased.
pub open spec fn group_hint(primary: GroupPrimary, contributors: Seq<GroupMember>) -> Seq<char> {
    ascii_lower(
        joined_by(
            seq![primary.structural_hint@] + contributors.map_values(
                |m: GroupMember| m.structural_hint@,
            ),
            " "@,
        ),
    )
}

/// The text a span's identity is hashed from: the schema, the frame, each
/// source as its kind and record id, and the primary's text hash.
pub open spec fn span_material(frame_id: Seq<char>, keys: Seq<SourceKey>, text_hash: Seq<char>) -> Seq<char> {
    "smalltalk.task_turn_evidence.v2|"@ + frame_id + "|"@ + joined_by(
        keys.map_values(|k: SourceKey| source_kind_label(k.0) + ":"@ + k.1),
        "|"@,
    ) + "|"@ + text_hash
}

/// Flags added once each, in order.
pub open spec fn flags_into(acc: Seq<Seq<char>>, flags: Seq<Seq<char>>) -> Seq<Seq<char>>
    decreases flags.len(),
{
    if flags.len() == 0 {
        acc
    } else {
        with_unique(flags_into(acc, flags.drop_last()), flags.last())
    }
}

/// The contributors' flags added once each, in order.
pub open spec fn member_flags(acc: Seq<Seq<char>>, members: Seq<GroupMember>) -> Seq<Seq<char>>
    decreases members.len(),
{
    if members.len() == 0 {
        acc
    } else {
        flags_into(member_flags(acc, members.drop_last()), strs(members.last().quality_flags@))
    }
}

/// A group's quality flags: the primary's, each contributor's flag once,
/// a mark of merged provenance when it has more than one source, and a mark
/// of the flattened-text fallback when that is what the primary read.
pub open spec fn group_flags(primary: GroupPrimary, contributors: Seq<GroupMember>, source_count: nat) -> Seq<Seq<char>> {
    let f1 = member_flags(strs(primary.quality_flags@), contributors);
    let f2 = if source_count > 1 {
        with_unique(f1, "merged_duplicate_provenance"@)
    } else {
        f1
    };
    if primary.source.source_kind == EvidenceSourceKind::FlattenedTextFallback {
        with_unique(f2, "flattened_text_fallback"@)
    } else {
        f2
    }
}

/// How sure a span's place in reading order is, in hundredths: most under a
/// parent element, then placed on screen, then read from accessibility.
pub open spec fn order_confidence(primary: GroupPrimary) -> u8 {
    if primary.has_parent {
        90
    } else if primary.placed {
        74
    } else if primary.source.source_kind == EvidenceSourceKind::AccessibilityNode {
        62
    } else {
        30
    }
}

/// The app that owns a span: its own, else the frame's bundle, else the
/// frame's app name.
pub open spec fn owner_app(primary: GroupPrimary, frame: GroupFrame) -> Option<Seq<char>> {
    match primary.owner_app_id {
        Some(a) => Some(a@),
        None => match frame.bundle_id {
            Some(b) => Some(b@),
            None => opt_str(frame.app_name),
        },
    }
}

/// The distinct sources of a group, in order.
fn group_sources(primary: &GroupPrimary, contributors: &Vec<GroupMember>) -> (r: Vec<EvidenceSourceRef>)
    ensures
        keys_sorted(source_keys(r@)),
        source_keys(r@).to_set() == member_keys(*primary, contributors@).to_set(),
{
    let ghost all = member_keys(*primary, contributors@);
    let mut r: Vec<EvidenceSourceRef> = Vec::new();
    insert_source(&mut r, copy_source(&primary.source));
    assert(all.take(1) =~= seq![source_key(primary.source)]);
    assert(source_keys(r@).to_set() =~= all.take(1).to_set()) by {
        assert(seq![source_key(primary.source)].to_set() =~= Set::<SourceKey>::empty().insert(
            source_key(primary.source),
        )) by {
            Seq::<SourceKey>::empty().lemma_push_to_set_commute(source_key(primary.source));
            assert(Seq::<SourceKey>::empty().push(source_key(primary.source)) =~= seq![source_key(primary.source)]);
        }
        assert(source_keys(Seq::<EvidenceSourceRef>::empty()).to_set() =~= Set::<SourceKey>::empty());
    }
    let mut i: usize = 0;
    while i < contributors.len()
        invariant
            i <= contributors@.len(),
            all == member_keys(*primary, contributors@),
            all.len() == contributors@.len() + 1,
            keys_sorted(source_keys(r@)),
            source_keys(r@).to_set() == all.take(i as int + 1).to_set(),
        decreases contributors.len() - i,
    {
        insert_source(&mut r, copy_source(&contributors[i].source));
        proof {
            assert(all[i as int + 1] == source_key(contributors@[i as int].source));
            assert(all.take(i as int + 2) =~= all.take(i as int + 1).push(all[i as int + 1]));
            all.take(i as int + 1).lemma_push_to_set_commute(all[i as int + 1]);
        }
        i = i + 1;
    }
    assert(all.take(contributors@.len() as int + 1) =~= all);
    r
}

/// Copies of strings.
fn copy_strings(v: &Vec<String>) -> (r: Vec<String>)
    ensures
        strs(r@) == strs(v@),
{
    let mut r: Vec<String> = Vec::new();
    let mut i: usize = 0;
    while i < v.len()
        invariant
            i <= v@.len(),
            strs(r@) == strs(v@).take(i as int),
        decreases v.len() - i,
    {
        push_string(&mut r, copy_str(v[i].as_str()));
        assert(strs(v@).take(i as int + 1) =~= strs(v@).take(i as int).push(v@[i as int]@));
        i = i + 1;
    }
    assert(strs(v@).take(i as int) =~= strs(v@));
    r
}

/// Adds each flag once, in order.
fn add_flags(acc: &mut Vec<String>, flags: &Vec<String>)
    ensures
        strs(final(acc)@) == flags_into(strs(old(acc)@), strs(flags@)),
{
    let ghost start = strs(acc@);
    let mut i: usize = 0;
    while i < flags.len()
        invariant
            i <= flags@.len(),
            strs(acc@) == flags_into(start, strs(flags@).take(i as int)),
        decreases flags.len() - i,
    {
        push_unique(acc, copy_str(flags[i].as_str()));
        assert(strs(flags@).take(i as int + 1).drop_last() =~= strs(flags@).take(i as int));
        i = i + 1;
    }
    assert(strs(flags@).take(i as int) =~= strs(flags@));
}

/// The text a span's identity is hashed from.
fn material_of(frame_id: &str, sources: &Vec<EvidenceSourceRef>, text_hash: &str) -> (r: String)
    ensures
        r@ == span_material(frame_id@, source_keys(sources@), text_hash@),
{
    let ghost keys = source_keys(sources@);
    let ghost labels = keys.map_values(|k: SourceKey| source_kind_label(k.0) + ":"@ + k.1);
    let mut parts: Vec<String> = Vec::new();
    let mut i: usize = 0;
    while i < sources.len()
        invariant
            i <= sources@.len(),
            keys == source_keys(sources@),
            labels == keys.map_values(|k: SourceKey| source_kind_label(k.0) + ":"@ + k.1),
            strs(parts@) == labels.take(i as int),
        decreases sources.len() - i,
    {
        let s = &sources[i];
        let head = concat(s.source_kind.label(), ":");
        push_string(&mut parts, concat(head.as_str(), s.source_record_id.as_str()));
        assert(labels.take(i as int + 1) =~= labels.take(i as int).push(labels[i as int]));
        i = i + 1;
    }
    assert(labels.take(i as int) =~= labels);
    let joined = join_with(&parts, "|");
    let a = concat("smalltalk.task_turn_evidence.v2|", frame_id);
    let b = concat(a.as_str(), "|");
    let c = concat(b.as_str(), joined.as_str());
    let d = concat(c.as_str(), "|");
    concat(d.as_str(), text_hash)
}

/// The span a group of raw spans reading the same text stands for: its
/// distinct sources in order, its identity hashed from them, its roles
/// from all its members' structural hints, its quality flags, how sure its
/// place in reading order is, and who owns it.
pub fn group_span(frame: &GroupFrame, primary: &GroupPrimary, contributors: &Vec<GroupMember>) -> (r: GroupedSpan)
    ensures
        keys_sorted(source_keys(r.contributing_sources@)),
        source_keys(r.contributing_sources@).to_set() == member_keys(*primary, contributors@).to_set(),
        r.span_id@ == "turn-span-"@ + hex16(
            fnv1a(
                encode_utf8(
                    span_material(
                        frame.frame_id@,
                        source_keys(r.contributing_sources@),
                        primary.source.text_hash@,
                    ),
                ),
            ),
        ),
        (r.roles.region_role, r.roles.conversational_role, r.roles.region_confidence_hundredths, r.roles.speaker_confidence_hundredths, r.roles.reason@)
            == role_of(
            group_hint(*primary, contributors@),
            ascii_lower(
                match primary.semantic_role {
                    Some(s) => s@,
                    None => Seq::empty(),
                },
            ),
            primary.focused,
            frame.family,
            frame.has_agent_status_event,
        ),
        strs(r.quality_flags@) == group_flags(*primary, contributors@, r.contributing_sources@.len()),
        r.order_confidence_hundredths == order_confidence(*primary),
        r.owner_window_id == match primary.owner_window_id {
            Some(w) => Some(w),
            None => frame.window_id,
        },
        opt_str(r.owner_app_id) == owner_app(*primary, *frame),
{
    let sources = group_sources(primary, contributors);
    let material = material_of(frame.frame_id.as_str(), &sources, primary.source.text_hash.as_str());
    let digest = stable_hash(material.as_str().as_bytes());
    let span_id = concat("turn-span-", digest.as_str());
    // The structural hints of every member, the primary's first.
    let ghost hint_parts = seq![primary.structural_hint@] + contributors@.map_values(
        |m: GroupMember| m.structural_hint@,
    );
    let mut hints: Vec<String> = Vec::new();
    push_string(&mut hints, copy_str(primary.structural_hint.as_str()));
    let mut i: usize = 0;
    while i < contributors.len()
        invariant
            i <= contributors@.len(),
            hint_parts == seq![primary.structural_hint@] + contributors@.map_values(
                |m: GroupMember| m.structural_hint@,
            ),
            strs(hints@) == hint_parts.take(i as int + 1),
        decreases contributors.len() - i,
    {
        push_string(&mut hints, copy_str(contributors[i].structural_hint.as_str()));
        assert(hint_parts.take(i as int + 2) =~= hint_parts.take(i as int + 1).push(
            hint_parts[i as int + 1],
        ));
        i = i + 1;
    }
    assert(hint_parts.take(contributors@.len() as int + 1) =~= hint_parts);
    let joined = join_with(&hints, " ");
    let hint = ascii_lowercase(joined.as_str());
    let semantic = match &primary.semantic_role {
        Some(s) => ascii_lowercase(s.as_str()),
        None => ascii_lowercase(""),
    };
    proof {
        reveal_strlit("");
        assert(hint@ == group_hint(*primary, contributors@));
        assert(semantic@ == ascii_lower(
            match primary.semantic_role {
                Some(s) => s@,
                None => Seq::empty(),
            },
        ));
    }
    let roles = classify_role(
        frame.family,
        frame.has_agent_status_event,
        hint.as_str(),
        semantic.as_str(),
        primary.focused,
    );
    // Quality flags.
    let mut flags = copy_strings(&primary.quality_flags);
    let mut j: usize = 0;
    while j < contributors.len()
        invariant
            j <= contributors@.len(),
            strs(flags@) == member_flags(strs(primary.quality_flags@), contributors@.take(j as int)),
        decreases contributors.len() - j,
    {
        add_flags(&mut flags, &contributors[j].quality_flags);
        assert(contributors@.take(j as int + 1).drop_last() =~= contributors@.take(j as int));
        j = j + 1;
    }
    assert(contributors@.take(j as int) =~= contributors@);
    if sources.len() > 1 {
        push_unique(&mut flags, copy_str("merged_duplicate_provenance"));
    }
    let fallback = match primary.source.source_kind {
        EvidenceSourceKind::FlattenedTextFallback => true,
        _ => false,
    };
    if fallback {
        push_unique(&mut flags, copy_str("flattened_text_fallback"));
    }
    let order = if primary.has_parent {
        90
    } else if primary.placed {
        74
    } else {
        match primary.source.source_kind {
            EvidenceSourceKind::AccessibilityNode => 62,
            _ => 30,
        }
    };
    let owner_window_id = match primary.owner_window_id {
        Some(w) => Some(w),
        None => frame.window_id,
    };
    let owner_app_id = match &primary.owner_app_id {
        Some(a) => Some(copy_str(a.as_str())),
        None => match &frame.bundle_id {
            Some(b) => Some(copy_str(b.as_str())),
            None => match &frame.app_name {
                Some(n) => Some(copy_str(n.as_str())),
                None => None,
            },
        },
    };
    GroupedSpan {
        span_id,
        contributing_sources: sources,
        roles,
        quality_flags: flags,
        order_confidence_hundredths: order,
        owner_window_id,
        owner_app_id,
    }
}

/// The number of the first `n` spans that lie in pane `pane`.
pub open spec fn in_pane_before(panes: Seq<Seq<char>>, pane: Seq<char>, n: int) -> nat
    decreases n,
{
    if n <= 0 {
        0
    } else {
        in_pane_before(panes, pane, n - 1) + if panes[n - 1] == pane {
            1nat
        } else {
            0nat
        }
    }
}

/// The reading orders of spans already in reading sequence, given by their
/// panes: each span's place overall, and its place within its pane.
pub fn reading_orders(pane_ids: &Vec<String>) -> (r: Vec<(i64, i64)>)
    requires
        pane_ids@.len() <= i64::MAX,
    ensures
        r@.len() == pane_ids@.len(),
        forall|i: int|
            0 <= i < pane_ids@.len() ==> #[trigger] r@[i] == (i as i64, in_pane_before(
                strs(pane_ids@),
                pane_ids@[i]@,
                i,
            ) as i64),
{
    let ghost panes = strs(pane_ids@);
    let mut r: Vec<(i64, i64)> = Vec::new();
    let mut i: usize = 0;
    while i < pane_ids.len()
        invariant
            i <= pane_ids@.len(),
            pane_ids@.len() <= i64::MAX,
            panes == strs(pane_ids@),
            r@.len() == i,
            forall|k: int|
                0 <= k < i ==> #[trigger] r@[k] == (k as i64, in_pane_before(panes, pane_ids@[k]@, k) as i64),
        decreases pane_ids.len() - i,
    {
        let mut local: i64 = 0;
        let mut j: usize = 0;
        while j < i
            invariant
                j <= i,
                i < pane_ids@.len(),
                pane_ids@.len() <= i64::MAX,
                panes == strs(pane_ids@),
                local == in_pane_before(panes, pane_ids@[i as int]@, j as int),
                local <= j,
            decreases i - j,
        {
            if str_eq(pane_ids[j].as_str(), pane_ids[i].as_str()) {
                local = local + 1;
            }
            j = j + 1;
        }
        r.push((i as i64, local));
        i = i + 1;
    }
    r
}

/// The id of a pane: `pane-` and the number of pane boundaries left of the
/// span's centre, in at least two digits; `pane-unknown` for a span with no
/// place on screen.
pub open spec fn pane_id_of(boundaries_left: Option<usize>) -> Seq<char> {
    match boundaries_left {
        Some(n) => "pane-"@ + if n < 10 {
            seq!['0'] + decimal(n as int)
        } else {
            decimal(n as int)
        },
        None => "pane-unknown"@,
    }
}

/// The id of the pane a span lies in, by the number of pane boundaries
/// left of its centre.
pub fn pane_id(boundaries_left: Option<usize>) -> (r: String)
    requires
        boundaries_left matches Some(n) ==> n <= i64::MAX,
    ensures
        r@ == pane_id_of(boundaries_left),
{
    match boundaries_left {
        Some(n) => {
            let digits = i64_to_decimal(n as i64);
            if n < 10 {
                let padded = concat("0", digits.as_str());
                proof {
                    reveal_strlit("0");
                    assert(padded@ =~= seq!['0'] + decimal(n as int));
                }
                concat("pane-", padded.as_str())
            } else {
                concat("pane-", digits.as_str())
            }
        },
        None => copy_str("pane-unknown"),
    }
}

proof fn lemma_sorted_keys_head(a: Seq<SourceKey>, i: int)
    requires
        keys_sorted(a),
        0 < i < a.len(),
    ensures
        a[i] != a[0],
{
    lemma_key_lt_total(a[0], a[i]);
    assert(key_lt(a[0], a[i]));
}

/// Two strictly sorted lists of sources with the same elements are the same
/// list.
proof fn lemma_sorted_keys_same_set(a: Seq<SourceKey>, b: Seq<SourceKey>)
    requires
        keys_sorted(a),
        keys_sorted(b),
        a.to_set() == b.to_set(),
    ensures
        a == b,
    decreases a.len(),
{
    if a.len() == 0 {
        if b.len() > 0 {
            assert(b.to_set().contains(b[0]));
            assert(a.to_set().contains(b[0]));
        }
        assert(a =~= b);
    } else if b.len() == 0 {
        assert(a.to_set().contains(a[0]));
        assert(b.to_set().contains(a[0]));
    } else {
        assert(a.to_set().contains(a[0]));
        assert(b.contains(a[0]));
        let j = choose|j: int| 0 <= j < b.len() && b[j] == a[0];
        assert(b.to_set().contains(b[0]));
        assert(a.contains(b[0]));
        let k = choose|k: int| 0 <= k < a.len() && a[k] == b[0];
        lemma_key_lt_total(a[0], b[0]);
        if j > 0 {
            assert(key_lt(b[0], b[j]));
            if k > 0 {
                assert(key_lt(a[0], a[k]));
            }
        } else if k > 0 {
            assert(key_lt(a[0], a[k]));
        }
        assert(a[0] == b[0]);
        let ta = a.drop_first();
        let tb = b.drop_first();
        assert forall|x: SourceKey| ta.to_set().contains(x) <==> tb.to_set().contains(x) by {
            if ta.contains(x) {
                let i = choose|i: int| 0 <= i < ta.len() && ta[i] == x;
                lemma_sorted_keys_head(a, i + 1);
                assert(a[i + 1] == x);
                assert(a.to_set().contains(x));
                assert(b.contains(x));
                let m = choose|m: int| 0 <= m < b.len() && b[m] == x;
                assert(m != 0);
                assert(tb[m - 1] == x);
            }
            if tb.contains(x) {
                let i = choose|i: int| 0 <= i < tb.len() && tb[i] == x;
                lemma_sorted_keys_head(b, i + 1);
                assert(b[i + 1] == x);
                assert(b.to_set().contains(x));
                assert(a.contains(x));
                let m = choose|m: int| 0 <= m < a.len() && a[m] == x;
                assert(m != 0);
                assert(ta[m - 1] == x);
            }
        }
        assert(ta.to_set() =~= tb.to_set());
        assert forall|i: int, j2: int| 0 <= i < j2 < ta.len() implies key_lt(#[trigger] ta[i], #[trigger] ta[j2]) by {
            assert(ta[i] == a[i + 1] && ta[j2] == a[j2 + 1]);
        }
        assert forall|i: int, j2: int| 0 <= i < j2 < tb.len() implies key_lt(#[trigger] tb[i], #[trigger] tb[j2]) by {
            assert(tb[i] == b[i + 1] && tb[j2] == b[j2 + 1]);
        }
        lemma_sorted_keys_same_set(ta, tb);
        assert forall|i: int| 0 <= i < a.len() implies a[i] == b[i] by {
            if i > 0 {
                assert(a[i] == ta[i - 1]);
                assert(b[i] == tb[i - 1]);
            }
        }
        assert(a =~= b);
    }
}

/// A span's sources and identity depend on its group's sources only as a
/// set: two groups of a frame with the same sources, in any order and any
/// number of times, and primaries of the same text hash, list the same
/// sources in the same order and hash the same material.
pub proof fn law_identity_ignores_source_order(
    frame_id: Seq<char>,
    p1: GroupPrimary,
    c1: Seq<GroupMember>,
    s1: Seq<SourceKey>,
    p2: GroupPrimary,
    c2: Seq<GroupMember>,
    s2: Seq<SourceKey>,
)
    requires
        member_keys(p1, c1).to_set() == member_keys(p2, c2).to_set(),
        p1.source.text_hash@ == p2.source.text_hash@,
        keys_sorted(s1),
        s1.to_set() == member_keys(p1, c1).to_set(),
        keys_sorted(s2),
        s2.to_set() == member_keys(p2, c2).to_set(),
    ensures
        s1 == s2,
        span_material(frame_id, s1, p1.source.text_hash@) == span_material(frame_id, s2, p2.source.text_hash@),
{
    lemma_sorted_keys_same_set(s1, s2);
}

} // verus!
