//! Checking the evidence a task hypothesis cites against the observation
//! packet it was built from: each reference is matched to the record it
//! names, and its frame and content hash are taken from that record; a
//! reference may be private, a control, history without continuity, or
//! support that the user wrote the task.
//!
//! The packet is held as the plain values these checks read; whether an
//! element's region is a control is decided where regions are typed, and
//! handed in per element.
use vstd::prelude::*;
use crate::capture::copy_opt_str;
use crate::copy::vec_contains_str;
use crate::text::{copy_str, is_blank, opt_str, str_eq, str_is_blank, strs};

verus! {

/// A reference to a piece of evidence.
#[derive(Debug, Clone, PartialEq, Eq)]
pub struct EvidenceHandle {
    pub source_kind: String,
    pub record_id: String,
    pub frame_id: Option<String>,
    pub content_hash: Option<String>,
}

/// What the checks read of a canonical element of the packet.
#[derive(Debug, Clone, PartialEq, Eq)]
pub struct PacketElement {
    pub element_id: String,
    pub frame_id: String,
    pub text_reference: Option<String>,
    /// The element's region is a control.
    pub control_role: bool,
    pub task_eligible: bool,
    /// The element's authorship is the user's.
    pub user_authored: bool,
    /// The element cites causal evidence.
    pub has_causal_refs: bool,
}

/// What the checks read of a causal event of the packet.
#[derive(Debug, Clone, PartialEq, Eq)]
pub struct PacketEvent {
    pub event_id: String,
    pub frame_id: String,
    pub committed: Option<bool>,
    pub source: String,
    pub causal_parent_ids: Vec<String>,
}

/// What the checks read of a semantic keyframe of the packet.
#[derive(Debug, Clone, PartialEq, Eq)]
pub struct PacketKeyframe {
    pub frame_id: String,
    pub local_image_handle_hash: Option<String>,
    pub model_eligible: bool,
}

/// What the checks read of a frame change of the packet.
#[derive(Debug, Clone, PartialEq, Eq)]
pub struct PacketDelta {
    pub delta_id: String,
    pub frame_id: String,
}

/// What the checks read of a return-anchor fact of the packet.
#[derive(Debug, Clone, PartialEq, Eq)]
pub struct PacketAnchorFact {
    pub record_id: String,
    pub frame_id: Option<String>,
    pub content_hash: Option<String>,
}

/// What the checks read of an observation packet.
#[derive(Debug, Clone, PartialEq, Eq)]
pub struct EvidencePacket {
    pub current_frame_id: String,
    pub canonical_elements: Vec<PacketElement>,
    pub causal_events: Vec<PacketEvent>,
    pub semantic_keyframes: Vec<PacketKeyframe>,
    pub frame_changes: Vec<PacketDelta>,
    pub transition_ids: Vec<String>,
    pub capture_trigger_ids: Vec<String>,
    pub return_anchor_facts: Vec<PacketAnchorFact>,
    pub previous_valid_snapshot_id: Option<String>,
    /// The frames of the packet's prior partition.
    pub prior_frame_ids: Vec<String>,
}

/// The first element with the id, if any.
pub open spec fn element_at(s: Seq<PacketElement>, id: Seq<char>) -> Option<int>
    decreases s.len(),
{
    if s.len() == 0 {
        None
    } else {
        match element_at(s.drop_last(), id) {
            Some(k) => Some(k),
            None => if s.last().element_id@ == id {
                Some(s.len() - 1)
            } else {
                None
            },
        }
    }
}

/// The first event with the id, if any.
pub open spec fn event_at(s: Seq<PacketEvent>, id: Seq<char>) -> Option<int>
    decreases s.len(),
{
    if s.len() == 0 {
        None
    } else {
        match event_at(s.drop_last(), id) {
            Some(k) => Some(k),
            None => if s.last().event_id@ == id {
                Some(s.len() - 1)
            } else {
                None
            },
        }
    }
}

/// The first keyframe of the frame, if any.
pub open spec fn keyframe_at(s: Seq<PacketKeyframe>, id: Seq<char>) -> Option<int>
    decreases s.len(),
{
    if s.len() == 0 {
        None
    } else {
        match keyframe_at(s.drop_last(), id) {
            Some(k) => Some(k),
            None => if s.last().frame_id@ == id {
                Some(s.len() - 1)
            } else {
                None
            },
        }
    }
}

/// The first frame change with the id, if any.
pub open spec fn delta_at(s: Seq<PacketDelta>, id: Seq<char>) -> Option<int>
    decreases s.len(),
{
    if s.len() == 0 {
        None
    } else {
        match delta_at(s.drop_last(), id) {
            Some(k) => Some(k),
            None => if s.last().delta_id@ == id {
                Some(s.len() - 1)
            } else {
                None
            },
        }
    }
}

/// The first return-anchor fact with the id, if any.
pub open spec fn fact_at(s: Seq<PacketAnchorFact>, id: Seq<char>) -> Option<int>
    decreases s.len(),
{
    if s.len() == 0 {
        None
    } else {
        match fact_at(s.drop_last(), id) {
            Some(k) => Some(k),
            None => if s.last().record_id@ == id {
                Some(s.len() - 1)
            } else {
                None
            },
        }
    }
}

/// A handle as the values it holds.
pub type HandleView = (Seq<char>, Seq<char>, Option<Seq<char>>, Option<Seq<char>>);

pub open spec fn handle_view(h: EvidenceHandle) -> HandleView {
    (h.source_kind@, h.record_id@, opt_str(h.frame_id), opt_str(h.content_hash))
}

/// The reference names no frame, or the record's frame.
pub open spec fn frame_matches(r: EvidenceHandle, actual: Option<Seq<char>>) -> bool {
    match opt_str(r.frame_id) {
        Some(expected) => actual == Some(expected),
        None => true,
    }
}

/// The reference with the record's frame and content hash, and whether its
/// own non-blank hash differed from the record's.
pub open spec fn normalized(r: EvidenceHandle, frame: Option<Seq<char>>, hash: Option<Seq<char>>) -> (HandleView, bool) {
    let supplied = match opt_str(r.content_hash) {
        Some(h) => if is_blank(h) {
            None
        } else {
            Some(h)
        },
        None => None,
    };
    ((r.source_kind@, r.record_id@, frame, hash), supplied != hash)
}

/// The reference matched to the record it names in the packet (or the prior
/// snapshot), by its source kind; none when no record of that kind has its
/// id, or the record's frame is not the one it names.
pub open spec fn normalized_reference(
    p: EvidencePacket,
    prior_snapshot_id: Option<Seq<char>>,
    r: EvidenceHandle,
) -> Option<(HandleView, bool)> {
    let kind = r.source_kind@;
    let id = r.record_id@;
    if kind == "canonical_element"@ {
        match element_at(p.canonical_elements@, id) {
            Some(k) => {
                let e = p.canonical_elements@[k];
                if frame_matches(r, Some(e.frame_id@)) {
                    Some(normalized(r, Some(e.frame_id@), opt_str(e.text_reference)))
                } else {
                    None
                }
            },
            None => None,
        }
    } else if kind == "causal_event"@ {
        match event_at(p.causal_events@, id) {
            Some(k) => {
                let e = p.causal_events@[k];
                if frame_matches(r, Some(e.frame_id@)) {
                    Some(normalized(r, Some(e.frame_id@), None))
                } else {
                    None
                }
            },
            None => None,
        }
    } else if kind == "keyframe"@ {
        match keyframe_at(p.semantic_keyframes@, id) {
            Some(k) => {
                let e = p.semantic_keyframes@[k];
                if frame_matches(r, Some(e.frame_id@)) {
                    Some(normalized(r, Some(e.frame_id@), opt_str(e.local_image_handle_hash)))
                } else {
                    None
                }
            },
            None => None,
        }
    } else if kind == "semantic_delta"@ {
        match delta_at(p.frame_changes@, id) {
            Some(k) => {
                let e = p.frame_changes@[k];
                if frame_matches(r, Some(e.frame_id@)) {
                    Some(normalized(r, Some(e.frame_id@), None))
                } else {
                    None
                }
            },
            None => None,
        }
    } else if kind == "transition"@ {
        if strs(p.transition_ids@).contains(id) {
            Some(normalized(r, opt_str(r.frame_id), None))
        } else {
            None
        }
    } else if kind == "capture_trigger"@ {
        if strs(p.capture_trigger_ids@).contains(id) {
            Some(normalized(r, opt_str(r.frame_id), None))
        } else {
            None
        }
    } else if kind == "return_anchor_fact"@ {
        match fact_at(p.return_anchor_facts@, id) {
            Some(k) => {
                let e = p.return_anchor_facts@[k];
                if frame_matches(r, opt_str(e.frame_id)) {
                    Some(normalized(r, opt_str(e.frame_id), opt_str(e.content_hash)))
                } else {
                    None
                }
            },
            None => None,
        }
    } else if kind == "prior_snapshot"@ {
        if prior_snapshot_id == Some(id) && opt_str(p.previous_valid_snapshot_id) == Some(id)
            && frame_matches(r, None) {
            Some(normalized(r, None, None))
        } else {
            None
        }
    } else if kind == "prior_thread_revision"@ && r.frame_id is None {
        Some((handle_view(r), false))
    } else {
        None
    }
}

fn find_element(s: &Vec<PacketElement>, id: &str) -> (r: Option<usize>)
    ensures
        match r {
            Some(k) => element_at(s@, id@) == Some(k as int) && k < s@.len(),
            None => element_at(s@, id@) is None,
        },
{
    let mut i: usize = 0;
    while i < s.len()
        invariant
            i <= s@.len(),
            element_at(s@.take(i as int), id@) is None,
        decreases s.len() - i,
    {
        assert(s@.take(i as int + 1).drop_last() =~= s@.take(i as int));
        if str_eq(s[i].element_id.as_str(), id) {
            proof {
                lemma_element_prefix(s@, id@, i as int + 1);
            }
            return Some(i);
        }
        i = i + 1;
    }
    assert(s@.take(i as int) =~= s@);
    None
}

proof fn lemma_element_prefix(s: Seq<PacketElement>, id: Seq<char>, n: int)
    requires
        0 <= n <= s.len(),
        element_at(s.take(n), id) is Some,
    ensures
        element_at(s, id) == element_at(s.take(n), id),
    decreases s.len() - n,
{
    if n < s.len() {
        assert(s.take(n + 1).drop_last() =~= s.take(n));
        lemma_element_prefix(s, id, n + 1);
    } else {
        assert(s.take(n) =~= s);
    }
}

fn find_event(s: &Vec<PacketEvent>, id: &str) -> (r: Option<usize>)
    ensures
        match r {
            Some(k) => event_at(s@, id@) == Some(k as int) && k < s@.len(),
            None => event_at(s@, id@) is None,
        },
{
    let mut i: usize = 0;
    while i < s.len()
        invariant
            i <= s@.len(),
            event_at(s@.take(i as int), id@) is None,
        decreases s.len() - i,
    {
        assert(s@.take(i as int + 1).drop_last() =~= s@.take(i as int));
        if str_eq(s[i].event_id.as_str(), id) {
            proof {
                lemma_event_prefix(s@, id@, i as int + 1);
            }
            return Some(i);
        }
        i = i + 1;
    }
    assert(s@.take(i as int) =~= s@);
    None
}

proof fn lemma_event_prefix(s: Seq<PacketEvent>, id: Seq<char>, n: int)
    requires
        0 <= n <= s.len(),
        event_at(s.take(n), id) is Some,
    ensures
        event_at(s, id) == event_at(s.take(n), id),
    decreases s.len() - n,
{
    if n < s.len() {
        assert(s.take(n + 1).drop_last() =~= s.take(n));
        lemma_event_prefix(s, id, n + 1);
    } else {
        assert(s.take(n) =~= s);
    }
}

fn find_keyframe(s: &Vec<PacketKeyframe>, id: &str) -> (r: Option<usize>)
    ensures
        match r {
            Some(k) => keyframe_at(s@, id@) == Some(k as int) && k < s@.len(),
            None => keyframe_at(s@, id@) is None,
        },
{
    let mut i: usize = 0;
    while i < s.len()
        invariant
            i <= s@.len(),
            keyframe_at(s@.take(i as int), id@) is None,
        decreases s.len() - i,
    {
        assert(s@.take(i as int + 1).drop_last() =~= s@.take(i as int));
        if str_eq(s[i].frame_id.as_str(), id) {
            proof {
                lemma_keyframe_prefix(s@, id@, i as int + 1);
            }
            return Some(i);
        }
        i = i + 1;
    }
    assert(s@.take(i as int) =~= s@);
    None
}

proof fn lemma_keyframe_prefix(s: Seq<PacketKeyframe>, id: Seq<char>, n: int)
    requires
        0 <= n <= s.len(),
        keyframe_at(s.take(n), id) is Some,
    ensures
        keyframe_at(s, id) == keyframe_at(s.take(n), id),
    decreases s.len() - n,
{
    if n < s.len() {
        assert(s.take(n + 1).drop_last() =~= s.take(n));
        lemma_keyframe_prefix(s, id, n + 1);
    } else {
        assert(s.take(n) =~= s);
    }
}

fn find_delta(s: &Vec<PacketDelta>, id: &str) -> (r: Option<usize>)
    ensures
        match r {
            Some(k) => delta_at(s@, id@) == Some(k as int) && k < s@.len(),
            None => delta_at(s@, id@) is None,
        },
{
    let mut i: usize = 0;
    while i < s.len()
        invariant
            i <= s@.len(),
            delta_at(s@.take(i as int), id@) is None,
        decreases s.len() - i,
    {
        assert(s@.take(i as int + 1).drop_last() =~= s@.take(i as int));
        if str_eq(s[i].delta_id.as_str(), id) {
            proof {
                lemma_delta_prefix(s@, id@, i as int + 1);
            }
            return Some(i);
        }
        i = i + 1;
    }
    assert(s@.take(i as int) =~= s@);
    None
}

proof fn lemma_delta_prefix(s: Seq<PacketDelta>, id: Seq<char>, n: int)
    requires
        0 <= n <= s.len(),
        delta_at(s.take(n), id) is Some,
    ensures
        delta_at(s, id) == delta_at(s.take(n), id),
    decreases s.len() - n,
{
    if n < s.len() {
        assert(s.take(n + 1).drop_last() =~= s.take(n));
        lemma_delta_prefix(s, id, n + 1);
    } else {
        assert(s.take(n) =~= s);
    }
}

fn find_fact(s: &Vec<PacketAnchorFact>, id: &str) -> (r: Option<usize>)
    ensures
        match r {
            Some(k) => fact_at(s@, id@) == Some(k as int) && k < s@.len(),
            None => fact_at(s@, id@) is None,
        },
{
    let mut i: usize = 0;
    while i < s.len()
        invariant
            i <= s@.len(),
            fact_at(s@.take(i as int), id@) is None,
        decreases s.len() - i,
    {
        assert(s@.take(i as int + 1).drop_last() =~= s@.take(i as int));
        if str_eq(s[i].record_id.as_str(), id) {
            proof {
                lemma_fact_prefix(s@, id@, i as int + 1);
            }
            return Some(i);
        }
        i = i + 1;
    }
    assert(s@.take(i as int) =~= s@);
    None
}

proof fn lemma_fact_prefix(s: Seq<PacketAnchorFact>, id: Seq<char>, n: int)
    requires
        0 <= n <= s.len(),
        fact_at(s.take(n), id) is Some,
    ensures
        fact_at(s, id) == fact_at(s.take(n), id),
    decreases s.len() - n,
{
    if n < s.len() {
        assert(s.take(n + 1).drop_last() =~= s.take(n));
        lemma_fact_prefix(s, id, n + 1);
    } else {
        assert(s.take(n) =~= s);
    }
}

/// The reference with the given frame and content hash, and whether its own
/// non-blank hash differed from it.
fn normalize_with(r: &EvidenceHandle, frame: Option<String>, hash: Option<String>) -> (out: (EvidenceHandle, bool))
    ensures
        (handle_view(out.0), out.1) == normalized(*r, opt_str(frame), opt_str(hash)),
{
    let supplied: Option<&str> = match &r.content_hash {
        Some(h) => if str_is_blank(h.as_str()) {
            None
        } else {
            Some(h.as_str())
        },
        None => None,
    };
    let changed = match (supplied, &hash) {
        (Some(a), Some(b)) => !str_eq(a, b.as_str()),
        (None, None) => false,
        _ => true,
    };
    (
        EvidenceHandle {
            source_kind: copy_str(r.source_kind.as_str()),
            record_id: copy_str(r.record_id.as_str()),
            frame_id: frame,
            content_hash: hash,
        },
        changed,
    )
}

fn frame_fits(r: &EvidenceHandle, actual: Option<&str>) -> (b: bool)
    ensures
        b == frame_matches(
            *r,
            match actual {
                Some(a) => Some(a@),
                None => None,
            },
        ),
{
    match &r.frame_id {
        Some(expected) => match actual {
            Some(a) => str_eq(a, expected.as_str()),
            None => false,
        },
        None => true,
    }
}

/// Matches a reference to the record it names in the packet, or to the
/// prior snapshot, by its source kind, and gives it that record's frame and
/// content hash, with whether its own non-blank hash differed; none when no
/// record of that kind has its id or the record's frame is not the one it
/// names.
pub fn normalize_reference(
    packet: &EvidencePacket,
    prior_snapshot_id: Option<&str>,
    reference: &EvidenceHandle,
) -> (out: Option<(EvidenceHandle, bool)>)
    ensures
        match out {
            Some((h, c)) => normalized_reference(
                *packet,
                match prior_snapshot_id {
                    Some(x) => Some(x@),
                    None => None,
                },
                *reference,
            ) == Some((handle_view(h), c)),
            None => normalized_reference(
                *packet,
                match prior_snapshot_id {
                    Some(x) => Some(x@),
                    None => None,
                },
                *reference,
            ) is None,
        },
{
    let kind = reference.source_kind.as_str();
    let id = reference.record_id.as_str();
    if str_eq(kind, "canonical_element") {
        match find_element(&packet.canonical_elements, id) {
            Some(k) => {
                let e = &packet.canonical_elements[k];
                if frame_fits(reference, Some(e.frame_id.as_str())) {
                    Some(normalize_with(reference, Some(copy_str(e.frame_id.as_str())), copy_opt_str(&e.text_reference)))
                } else {
                    None
                }
            },
            None => None,
        }
    } else if str_eq(kind, "causal_event") {
        match find_event(&packet.causal_events, id) {
            Some(k) => {
                let e = &packet.causal_events[k];
                if frame_fits(reference, Some(e.frame_id.as_str())) {
                    Some(normalize_with(reference, Some(copy_str(e.frame_id.as_str())), None))
                } else {
                    None
                }
            },
            None => None,
        }
    } else if str_eq(kind, "keyframe") {
        match find_keyframe(&packet.semantic_keyframes, id) {
            Some(k) => {
                let e = &packet.semantic_keyframes[k];
                if frame_fits(reference, Some(e.frame_id.as_str())) {
                    Some(normalize_with(reference, Some(copy_str(e.frame_id.as_str())), copy_opt_str(&e.local_image_handle_hash)))
                } else {
                    None
                }
            },
            None => None,
        }
    } else if str_eq(kind, "semantic_delta") {
        match find_delta(&packet.frame_changes, id) {
            Some(k) => {
                let e = &packet.frame_changes[k];
                if frame_fits(reference, Some(e.frame_id.as_str())) {
                    Some(normalize_with(reference, Some(copy_str(e.frame_id.as_str())), None))
                } else {
                    None
                }
            },
            None => None,
        }
    } else if str_eq(kind, "transition") {
        if vec_contains_str(&packet.transition_ids, id) {
            Some(normalize_with(reference, copy_opt_str(&reference.frame_id), None))
        } else {
            None
        }
    } else if str_eq(kind, "capture_trigger") {
        if vec_contains_str(&packet.capture_trigger_ids, id) {
            Some(normalize_with(reference, copy_opt_str(&reference.frame_id), None))
        } else {
            None
        }
    } else if str_eq(kind, "return_anchor_fact") {
        match find_fact(&packet.return_anchor_facts, id) {
            Some(k) => {
                let e = &packet.return_anchor_facts[k];
                let actual: Option<&str> = match &e.frame_id {
                    Some(f) => Some(f.as_str()),
                    None => None,
                };
                if frame_fits(reference, actual) {
                    Some(normalize_with(reference, copy_opt_str(&e.frame_id), copy_opt_str(&e.content_hash)))
                } else {
                    None
                }
            },
            None => None,
        }
    } else if str_eq(kind, "prior_snapshot") {
        let prior_matches = match prior_snapshot_id {
            Some(x) => str_eq(x, id),
            None => false,
        };
        let previous_matches = match &packet.previous_valid_snapshot_id {
            Some(x) => str_eq(x.as_str(), id),
            None => false,
        };
        if prior_matches && previous_matches && frame_fits(reference, None) {
            Some(normalize_with(reference, None, None))
        } else {
            None
        }
    } else if str_eq(kind, "prior_thread_revision") && reference.frame_id.is_none() {
        Some(
            (
                EvidenceHandle {
                    source_kind: copy_str(reference.source_kind.as_str()),
                    record_id: copy_str(reference.record_id.as_str()),
                    frame_id: copy_opt_str(&reference.frame_id),
                    content_hash: copy_opt_str(&reference.content_hash),
                },
                false,
            ),
        )
    } else {
        None
    }
}

/// A reference is private: the frame it names, or else its element's frame,
/// has a keyframe that the model may not see.
pub open spec fn private_reference(p: EvidencePacket, r: EvidenceHandle) -> bool {
    let frame = match opt_str(r.frame_id) {
        Some(f) => Some(f),
        None => match element_at(p.canonical_elements@, r.record_id@) {
            Some(k) => Some(p.canonical_elements@[k].frame_id@),
            None => None,
        },
    };
    match frame {
        Some(f) => match keyframe_at(p.semantic_keyframes@, f) {
            Some(k) => !p.semantic_keyframes@[k].model_eligible,
            None => false,
        },
        None => false,
    }
}

/// Whether a reference is private.
pub fn reference_is_private(packet: &EvidencePacket, reference: &EvidenceHandle) -> (b: bool)
    ensures
        b == private_reference(*packet, *reference),
{
    let frame: Option<&str> = match &reference.frame_id {
        Some(f) => Some(f.as_str()),
        None => match find_element(&packet.canonical_elements, reference.record_id.as_str()) {
            Some(k) => Some(packet.canonical_elements[k].frame_id.as_str()),
            None => None,
        },
    };
    match frame {
        Some(f) => match find_keyframe(&packet.semantic_keyframes, f) {
            Some(k) => !packet.semantic_keyframes[k].model_eligible,
            None => false,
        },
        None => false,
    }
}

/// A reference names an element that is a control or not eligible as a task.
pub open spec fn control_reference(p: EvidencePacket, r: EvidenceHandle) -> bool {
    match element_at(p.canonical_elements@, r.record_id@) {
        Some(k) => p.canonical_elements@[k].control_role || !p.canonical_elements@[k].task_eligible,
        None => false,
    }
}

/// Whether a reference names a control.
pub fn reference_is_control(packet: &EvidencePacket, reference: &EvidenceHandle) -> (b: bool)
    ensures
        b == control_reference(*packet, *reference),
{
    match find_element(&packet.canonical_elements, reference.record_id.as_str()) {
        Some(k) => packet.canonical_elements[k].control_role || !packet.canonical_elements[k].task_eligible,
        None => false,
    }
}

/// An event of the current frame has the record among its causal parents.
pub open spec fn continued_by_current(p: EvidencePacket, id: Seq<char>) -> bool {
    exists|k: int|
        0 <= k < p.causal_events@.len() && p.causal_events@[k].frame_id@ == p.current_frame_id@
            && strs(#[trigger] p.causal_events@[k].causal_parent_ids@).contains(id)
}

/// A reference names an element of an earlier frame of the prior partition
/// that no event of the current frame continues.
pub open spec fn historical_reference(p: EvidencePacket, r: EvidenceHandle) -> bool {
    match element_at(p.canonical_elements@, r.record_id@) {
        Some(k) => {
            let f = p.canonical_elements@[k].frame_id@;
            &&& f != p.current_frame_id@
            &&& strs(p.prior_frame_ids@).contains(f)
            &&& !continued_by_current(p, r.record_id@)
        },
        None => false,
    }
}

/// Whether a reference is history without continuity.
pub fn reference_is_historical_without_continuity(packet: &EvidencePacket, reference: &EvidenceHandle) -> (b: bool)
    ensures
        b == historical_reference(*packet, *reference),
{
    let k = match find_element(&packet.canonical_elements, reference.record_id.as_str()) {
        Some(k) => k,
        None => return false,
    };
    let f = packet.canonical_elements[k].frame_id.as_str();
    if str_eq(f, packet.current_frame_id.as_str()) {
        return false;
    }
    if !vec_contains_str(&packet.prior_frame_ids, f) {
        return false;
    }
    let mut i: usize = 0;
    while i < packet.causal_events.len()
        invariant
            i <= packet.causal_events@.len(),
            forall|j: int|
                0 <= j < i ==> !(packet.causal_events@[j].frame_id@ == packet.current_frame_id@
                    && strs(#[trigger] packet.causal_events@[j].causal_parent_ids@).contains(
                    reference.record_id@,
                )),
        decreases packet.causal_events.len() - i,
    {
        let e = &packet.causal_events[i];
        if str_eq(e.frame_id.as_str(), packet.current_frame_id.as_str()) && vec_contains_str(
            &e.causal_parent_ids,
            reference.record_id.as_str(),
        ) {
            assert(strs(packet.causal_events@[i as int].causal_parent_ids@).contains(reference.record_id@));
            return false;
        }
        i = i + 1;
    }
    true
}

/// A reference supports that the user wrote the task: a committed event or
/// a UI event, or an element the user authored or that cites causal
/// evidence.
pub open spec fn authorship_reference(p: EvidencePacket, r: EvidenceHandle) -> bool {
    let by_event = match event_at(p.causal_events@, r.record_id@) {
        Some(k) => p.causal_events@[k].committed == Some(true) || p.causal_events@[k].source@
            == "ui_event"@,
        None => false,
    };
    by_event || match element_at(p.canonical_elements@, r.record_id@) {
        Some(k) => p.canonical_elements@[k].user_authored || p.canonical_elements@[k].has_causal_refs,
        None => false,
    }
}

/// Whether a reference supports that the user wrote the task.
pub fn reference_supports_user_authorship(packet: &EvidencePacket, reference: &EvidenceHandle) -> (b: bool)
    ensures
        b == authorship_reference(*packet, *reference),
{
    let id = reference.record_id.as_str();
    let by_event = match find_event(&packet.causal_events, id) {
        Some(k) => packet.causal_events[k].committed == Some(true) || str_eq(
            packet.causal_events[k].source.as_str(),
            "ui_event",
        ),
        None => false,
    };
    if by_event {
        return true;
    }
    match find_element(&packet.canonical_elements, id) {
        Some(k) => packet.canonical_elements[k].user_authored || packet.canonical_elements[k].has_causal_refs,
        None => false,
    }
}

} // verus!
