//! The island's Continue gateway: when it answers from the decision it
//! remembers, when it asks for a new decision, and whether a new decision
//! may replace the remembered one.
//!
//! The gateway runs in two steps around the decision pipeline:
//! `gateway_step` answers at once or hands back the decision request, and
//! `gateway_adopt` weighs the decision against what the island remembers.
//! Whoever drives the island fetches the status and the decision, writes
//! the audit, keeps the memory and sends the state.
use vstd::prelude::*;
use crate::capture::{
    copy_opt_str, count_of, current_session_id, newest_evidence, opt_str_eq, status_session_id,
    CaptureStatus,
};
use crate::contract::{
    actions_view, anchor_count, authoritative_answer, authoritative_task_truth_answer, concat,
    island_state_from_continue_decision, island_state_of, lemma_offers_open_view, opens_target,
    no_evidence_state, refresh_needed_state, no_evidence_actions, refresh_actions,
    ActionView, IslandActionKind, IslandAvailableAction, IslandContinueState,
    IslandDisplayState, IslandFreshness, IslandStateContext, StateView,
};
use crate::decision::{ContinueDecisionResult, FieldSupportView};
use crate::island::{
    first_note, decision_evidence_updated_at_ms, freshness_label, headline_of, island_continue_decision_request,
    ledger_ms, now_millis, or_zero, RememberedContinueIslandState, continue_freshness_from_island_state, headline_from_island_state,
};
use crate::island::{
    apply_continue_decision_to_snapshot, apply_island_continue_state_to_snapshot, applied_fields,
    continue_fields, decision_freshness, initial_fields, reads_status, remembers,
    same_capture_part, shown_fields, snapshot_context, snapshot_from_status,
    SessionIslandSnapshot, SessionIslandState,
};
use crate::request::{ContinueAuditMode, ContinueDecisionRequest};
use crate::text::{
    contains, copy_str, insert_sorted_unique, is_blank, opt_str, sort_dedup, sorted_unique,
    str_contains, str_eq, str_is_blank, strs,
};

verus! {

/// Why the island asks for Continue state.
#[derive(Debug, Clone, Copy, PartialEq, Eq)]
pub enum IslandContinueReason {
    InitialRender,
    UserOpenedIsland,
    UserPressedContinue,
    EvidenceChanged,
    TimerRefresh,
    MainCardDecisionUpdated,
}

/// The wire name of a reason.
pub open spec fn reason_name(r: IslandContinueReason) -> Seq<char> {
    match r {
        IslandContinueReason::InitialRender => "initial_render"@,
        IslandContinueReason::UserOpenedIsland => "user_opened_island"@,
        IslandContinueReason::UserPressedContinue => "user_pressed_continue"@,
        IslandContinueReason::EvidenceChanged => "evidence_changed"@,
        IslandContinueReason::TimerRefresh => "timer_refresh"@,
        IslandContinueReason::MainCardDecisionUpdated => "main_card_decision_updated"@,
    }
}

impl IslandContinueReason {
    /// The wire name of this reason.
    pub fn as_str(&self) -> (s: &'static str)
        ensures
            s@ == reason_name(*self),
    {
        match self {
            IslandContinueReason::InitialRender => "initial_render",
            IslandContinueReason::UserOpenedIsland => "user_opened_island",
            IslandContinueReason::UserPressedContinue => "user_pressed_continue",
            IslandContinueReason::EvidenceChanged => "evidence_changed",
            IslandContinueReason::TimerRefresh => "timer_refresh",
            IslandContinueReason::MainCardDecisionUpdated => "main_card_decision_updated",
        }
    }
}

/// A request for the island's Continue state.
#[derive(Debug, Clone, PartialEq, Eq)]
pub struct IslandContinueStateInput {
    pub reason: IslandContinueReason,
    pub existing_decision_id: Option<String>,
    pub allow_refresh: bool,
    pub force_refresh: bool,
    pub source: Option<String>,
}

impl IslandContinueStateInput {
    /// The request of a user who pressed Continue in the island.
    pub fn for_user_continue(existing_decision_id: Option<String>) -> (r: Self)
        ensures
            r.reason == IslandContinueReason::UserPressedContinue,
            r.existing_decision_id == existing_decision_id,
            r.allow_refresh,
            r.force_refresh,
            opt_str(r.source) == Some("native_island"@),
    {
        IslandContinueStateInput {
            reason: IslandContinueReason::UserPressedContinue,
            existing_decision_id,
            allow_refresh: true,
            force_refresh: true,
            source: Some(copy_str("native_island")),
        }
    }
}

/// The gateway's answer: the state to show, and the decision when one was
/// made and adopted.
pub struct IslandContinueGatewayResult {
    pub state: IslandContinueState,
    pub decision: Option<ContinueDecisionResult>,
}

/// The decision request for a gateway input: the island's base request,
/// with a manual review audit and trigger when the user pressed Continue.
pub open spec fn request_for(r: ContinueDecisionRequest, input: IslandContinueStateInput) -> bool {
    let manual = input.reason == IslandContinueReason::UserPressedContinue;
    &&& opt_str(r.mode) == Some("normal"@)
    &&& r.session_id is None
    &&& r.rebuild_layers == Some(false)
    &&& r.micro_inference_enabled == Some(true)
    &&& r.activity_recap_model_enabled == Some(true)
    &&& r.max_candidates_for_model == Some(5usize)
    &&& r.audit_output_enabled == Some(false)
    &&& r.audit_mode == Some(
        if manual {
            ContinueAuditMode::MftiReview
        } else {
            ContinueAuditMode::Off
        },
    )
    &&& opt_str(r.request_trigger) == Some(
        if manual {
            "manual"@
        } else {
            "island"@
        },
    )
    &&& opt_str(r.island_trigger_reason) == Some(reason_name(input.reason))
    &&& opt_str(r.island_source) == opt_str(input.source)
}

/// The decision request for a gateway input.
pub fn continue_decision_request_for_input(input: &IslandContinueStateInput) -> (r:
    ContinueDecisionRequest)
    ensures
        request_for(r, *input),
{
    let mut request = island_continue_decision_request();
    let manual = match input.reason {
        IslandContinueReason::UserPressedContinue => true,
        _ => false,
    };
    request.audit_output_enabled = Some(false);
    request.audit_mode = Some(
        if manual {
            ContinueAuditMode::MftiReview
        } else {
            ContinueAuditMode::Off
        },
    );
    request.request_trigger = Some(
        if manual {
            copy_str("manual")
        } else {
            copy_str("island")
        },
    );
    request.island_trigger_reason = Some(copy_str(input.reason.as_str()));
    request.island_source = copy_opt_str(&input.source);
    request
}

/// Local memory as a capture status shows it.
pub open spec fn status_context(status: CaptureStatus) -> IslandStateContext {
    IslandStateContext {
        local_memory_running: status.running,
        has_local_memory: status.frame_count > 0 || status.event_count > 0 || status.signal_count
            > 0,
    }
}

/// Local memory as a capture status shows it.
pub fn context_from_status(status: &CaptureStatus) -> (c: IslandStateContext)
    ensures
        c == status_context(*status),
{
    IslandStateContext {
        local_memory_running: status.running,
        has_local_memory: status.frame_count > 0 || status.event_count > 0 || status.signal_count
            > 0,
    }
}

/// When the latest frame was captured.
pub fn newest_status_evidence_ms(status: &CaptureStatus) -> (t: Option<i64>)
    ensures
        t == newest_evidence(*status),
{
    status.newest_evidence_ms()
}

/// The freshness of a decision taken on `status` at `now_ms`.
pub open spec fn status_freshness(
    d: ContinueDecisionResult,
    status: CaptureStatus,
    decision_stale: bool,
    now_ms: i64,
) -> IslandFreshness {
    IslandFreshness {
        evidence_watermark_ms: match ledger_ms(d) {
            Some(t) => Some(t),
            None => newest_evidence(status),
        },
        newest_evidence_ms: newest_evidence(status),
        decision_updated_at_ms: Some(now_ms),
        decision_stale,
    }
}

/// The island state of a decision taken on `status` at `now_ms`.
pub fn island_state_from_decision_status_at(
    decision: &ContinueDecisionResult,
    status: &CaptureStatus,
    decision_stale: bool,
    now_ms: i64,
) -> (r: IslandContinueState)
    requires
        anchor_count(*decision) < usize::MAX,
    ensures
        island_state_of(
            *decision,
            status_freshness(*decision, *status, decision_stale, now_ms),
            status_context(*status),
            r,
        ),
{
    let newest = newest_status_evidence_ms(status);
    let freshness = IslandFreshness {
        evidence_watermark_ms: match decision_evidence_updated_at_ms(decision) {
            Some(t) => Some(t),
            None => newest,
        },
        newest_evidence_ms: newest,
        decision_updated_at_ms: Some(now_ms),
        decision_stale,
    };
    island_state_from_continue_decision(decision, freshness, context_from_status(status))
}

/// The island state of a decision taken on `status`, stamped with the
/// current time.
pub fn island_state_from_decision_status(
    decision: &ContinueDecisionResult,
    status: &CaptureStatus,
    decision_stale: bool,
) -> (r: IslandContinueState)
    requires
        anchor_count(*decision) < usize::MAX,
    ensures
        exists|now_ms: i64|
            island_state_of(
                *decision,
                status_freshness(*decision, *status, decision_stale, now_ms),
                status_context(*status),
                r,
            ),
{
    let now_ms = now_millis();
    island_state_from_decision_status_at(decision, status, decision_stale, now_ms)
}

/// The provenance label of a gateway answer.
pub open spec fn provenance(source: Option<Seq<char>>, reason: IslandContinueReason) -> Seq<char> {
    "island:"@ + match source {
        Some(s) => s,
        None => "unknown"@,
    } + ":"@ + reason_name(reason)
}

/// An action whose open-target form carries the state's decision id.
pub open spec fn stamped(a: ActionView, id: Option<Seq<char>>) -> ActionView {
    if a.kind == IslandActionKind::OpenContinueTarget {
        ActionView { decision_id: id, ..a }
    } else {
        a
    }
}

/// The actions, each open-target action carrying the decision id.
pub open spec fn stamped_actions(v: Seq<ActionView>, id: Option<Seq<char>>) -> Seq<ActionView> {
    v.map_values(|a: ActionView| stamped(a, id))
}

/// The gateway's annotation of a state, its warnings aside: the provenance
/// label, and the decision id on every open-target action.
pub open spec fn annotation(
    v: StateView,
    reason: IslandContinueReason,
    source: Option<Seq<char>>,
) -> StateView {
    StateView {
        provenance_label: Some(provenance(source, reason)),
        available_actions: stamped_actions(v.available_actions, v.decision_id),
        ..v
    }
}

/// A forced refresh is noted in the warnings of a state that does not
/// itself ask for a refresh.
pub open spec fn notes_forced_refresh(v: StateView, force_refresh: bool) -> bool {
    force_refresh && v.display_state != IslandDisplayState::NeedsRefresh
}

/// The warning that notes a forced refresh.
pub open spec fn forced_refresh_warning() -> Seq<char> {
    "island_gateway_force_refresh"@
}

/// `after` holds the warnings of `before` and `extra`, sorted and once each.
pub open spec fn warned(before: Seq<Seq<char>>, after: Seq<Seq<char>>, extra: Set<Seq<char>>) -> bool {
    &&& sorted_unique(after)
    &&& after.to_set() == before.to_set().union(extra)
}

/// `new` is `old` annotated for `input`.
pub open spec fn annotates(old: StateView, new: StateView, input: IslandContinueStateInput) -> bool {
    &&& new == StateView {
        warnings: new.warnings,
        ..annotation(old, input.reason, opt_str(input.source))
    }
    &&& if notes_forced_refresh(old, input.force_refresh) {
        warned(old.warnings, new.warnings, set![forced_refresh_warning()])
    } else {
        new.warnings == old.warnings
    }
}

/// Pushes an action.
fn push_action(actions: &mut Vec<IslandAvailableAction>, a: IslandAvailableAction)
    ensures
        actions_view(final(actions)@) == actions_view(old(actions)@).push(a@),
{
    actions.push(a);
    assert(actions_view(actions@) =~= actions_view(old(actions)@).push(a@));
}

/// The actions, each open-target action carrying `id`.
fn stamp_actions(v: &Vec<IslandAvailableAction>, id: &Option<String>) -> (r: Vec<IslandAvailableAction>)
    ensures
        actions_view(r@) == stamped_actions(actions_view(v@), opt_str(*id)),
{
    let mut r: Vec<IslandAvailableAction> = Vec::new();
    let mut i: usize = 0;
    while i < v.len()
        invariant
            i <= v@.len(),
            actions_view(r@) == stamped_actions(actions_view(v@), opt_str(*id)).take(i as int),
        decreases v@.len() - i,
    {
        let mut a = v[i].copy();
        match a.kind {
            IslandActionKind::OpenContinueTarget => {
                a.decision_id = copy_opt_str(id);
            },
            _ => {},
        }
        push_action(&mut r, a);
        i = i + 1;
        assert(actions_view(r@) =~= stamped_actions(actions_view(v@), opt_str(*id)).take(i as int));
    }
    assert(stamped_actions(actions_view(v@), opt_str(*id)).take(v@.len() as int) =~= stamped_actions(
        actions_view(v@),
        opt_str(*id),
    ));
    r
}

/// Marks a state with the gateway's provenance, notes a forced refresh, and
/// ties every open-target action to the state's decision.
pub fn annotate_gateway_state(state: &mut IslandContinueState, input: &IslandContinueStateInput)
    ensures
        annotates(old(state)@, final(state)@, *input),
{
    let source: &str = match &input.source {
        Some(s) => s.as_str(),
        None => "unknown",
    };
    let label = concat(concat(concat("island:", source).as_str(), ":").as_str(), input.reason.as_str());
    state.provenance_label = Some(label);
    let forced = input.force_refresh && match state.display_state {
        IslandDisplayState::NeedsRefresh => false,
        _ => true,
    };
    if forced {
        let mut warnings = sort_dedup(state.warnings.clone());
        proof {
            assert(strs(state.warnings@) == old(state)@.warnings);
        }
        insert_sorted_unique(&mut warnings, copy_str("island_gateway_force_refresh"));
        state.warnings = warnings;
        assert(strs(state.warnings@).to_set() =~= old(state)@.warnings.to_set().union(
            set![forced_refresh_warning()],
        ));
    }
    let stamped = stamp_actions(&state.available_actions, &state.decision_id);
    state.available_actions = stamped;
}

/// Whether the latest feedback or open watermark is newer than the one the
/// island remembered.
pub open spec fn watermark_grew(latest: Option<i64>, remembered: Option<i64>) -> bool {
    match (latest, remembered) {
        (Some(l), Some(r)) => l > r,
        (Some(_), None) => true,
        _ => false,
    }
}

/// The remembered decision is stale: it belongs to another session, local
/// memory has more frames, signals or events, a newer capture, or newer
/// feedback or opens.
pub open spec fn remembered_stale(
    rem: RememberedContinueIslandState,
    status: CaptureStatus,
    feedback_or_open_watermark_ms: Option<i64>,
) -> bool {
    ||| opt_str(rem.session_id) != status_session_id(status)
    ||| count_of(status.frame_count) > rem.frame_count
    ||| count_of(status.signal_count) > rem.signal_count
    ||| count_of(status.event_count) > rem.event_count
    ||| or_zero(newest_evidence(status)) > or_zero(rem.evidence_updated_at_ms)
    ||| watermark_grew(feedback_or_open_watermark_ms, rem.feedback_or_open_watermark_ms)
}

/// Whether the remembered decision is stale.
pub fn remembered_state_is_stale(
    remembered: &RememberedContinueIslandState,
    status: &CaptureStatus,
    feedback_or_open_watermark_ms: Option<i64>,
) -> (b: bool)
    ensures
        b == remembered_stale(*remembered, *status, feedback_or_open_watermark_ms),
{
    let status_session = status.evidence_session_id();
    if !opt_str_eq(&remembered.session_id, &status_session) {
        return true;
    }
    let latest_capture_at = match newest_status_evidence_ms(status) {
        Some(t) => t,
        None => 0,
    };
    let remembered_at = match remembered.evidence_updated_at_ms {
        Some(t) => t,
        None => 0,
    };
    crate::capture::nonnegative(status.frame_count) > remembered.frame_count
        || crate::capture::nonnegative(status.signal_count) > remembered.signal_count
        || crate::capture::nonnegative(status.event_count) > remembered.event_count
        || latest_capture_at > remembered_at || match (
        feedback_or_open_watermark_ms,
        remembered.feedback_or_open_watermark_ms,
    ) {
        (Some(latest), Some(before)) => latest > before,
        (Some(_), None) => true,
        _ => false,
    }
}

/// The remembered state the gateway may answer with: none when nothing is
/// remembered, when the input names another decision, or when it is stale.
pub open spec fn reusable(
    status: CaptureStatus,
    input: IslandContinueStateInput,
    feedback_or_open_watermark_ms: Option<i64>,
    rem: Option<RememberedContinueIslandState>,
) -> bool {
    match rem {
        None => false,
        Some(r) => {
            &&& match input.existing_decision_id {
                Some(id) => id@ == r.decision_id@,
                None => true,
            }
            &&& !remembered_stale(r, status, feedback_or_open_watermark_ms)
        },
    }
}

/// The remembered state, if any, as a value.
pub open spec fn rem_of(o: Option<&RememberedContinueIslandState>) -> Option<RememberedContinueIslandState> {
    match o {
        Some(r) => Some(*r),
        None => None,
    }
}

/// A state marked as served from the remembered decision.
pub open spec fn from_cache(v: StateView) -> StateView {
    StateView { decision_cache_hit: true, ..v }
}

/// The remembered state, marked as a cache hit and annotated, when it may
/// be reused.
pub fn remembered_fresh_state(
    status: &CaptureStatus,
    input: &IslandContinueStateInput,
    feedback_or_open_watermark_ms: Option<i64>,
    remembered: Option<&RememberedContinueIslandState>,
) -> (r: Option<IslandContinueState>)
    ensures
        match r {
            Some(s) => {
                &&& reusable(*status, *input, feedback_or_open_watermark_ms, rem_of(remembered))
                &&& annotates(from_cache(remembered.unwrap().island_continue_state@), s@, *input)
            },
            None => !reusable(*status, *input, feedback_or_open_watermark_ms, rem_of(remembered)),
        },
{
    let remembered = match remembered {
        Some(r) => r,
        None => {
            return None;
        },
    };
    match &input.existing_decision_id {
        Some(id) => {
            if !str_eq(id.as_str(), remembered.decision_id.as_str()) {
                return None;
            }
        },
        None => {},
    }
    if remembered_state_is_stale(remembered, status, feedback_or_open_watermark_ms) {
        return None;
    }
    let mut state = remembered.island_continue_state.copy();
    state.decision_cache_hit = true;
    assert(state@ == from_cache(remembered.island_continue_state@));
    annotate_gateway_state(&mut state, input);
    Some(state)
}

/// The task a decision is about: the authoritative answer's task thread
/// (unless blank) and revision, else the decision's current task turn.
pub open spec fn task_identity(d: ContinueDecisionResult) -> (Option<Seq<char>>, Option<i64>) {
    match authoritative_answer(d) {
        Some(a) => (
            match a.atomic_identity.task_thread_id {
                Some(t) => if is_blank(t) {
                    None
                } else {
                    Some(t)
                },
                None => None,
            },
            a.atomic_identity.task_thread_revision,
        ),
        None => match d.current_task_turn {
            Some(t) => (Some(t.task_turn_id@), Some(t.revision)),
            None => (None, None),
        },
    }
}

/// The task a decision is about.
pub fn adoption_task_identity(decision: &ContinueDecisionResult) -> (r: (Option<String>, Option<i64>))
    ensures
        (opt_str(r.0), r.1) == task_identity(*decision),
{
    match authoritative_task_truth_answer(decision) {
        Some(answer) => {
            let id = match &answer.atomic_identity.task_thread_id {
                Some(t) => if str_is_blank(t.as_str()) {
                    None
                } else {
                    Some(t.clone())
                },
                None => None,
            };
            (id, answer.atomic_identity.task_thread_revision)
        },
        None => match &decision.current_task_turn {
            Some(t) => (Some(t.task_turn_id.clone()), Some(t.revision)),
            None => (None, None),
        },
    }
}

/// The decision supports its task: the authoritative answer is not
/// unresolved, or else the decision reports a supported current task.
pub open spec fn task_supported(d: ContinueDecisionResult) -> bool {
    match authoritative_answer(d) {
        Some(a) => a.task_resolution_status != "unresolved"@,
        None => d.task_resolution_status@ == "current_task_supported"@,
    }
}

/// Whether the decision supports its task.
pub fn adoption_task_is_supported(decision: &ContinueDecisionResult) -> (b: bool)
    ensures
        b == task_supported(*decision),
{
    match authoritative_task_truth_answer(decision) {
        Some(answer) => !str_eq(answer.task_resolution_status.as_str(), "unresolved"),
        None => str_eq(decision.task_resolution_status.as_str(), "current_task_supported"),
    }
}

/// The confidence of the first support entry for `field`, if it has one.
pub open spec fn support_confidence(fs: Seq<FieldSupportView>, field: Seq<char>) -> Option<u32>
    decreases fs.len(),
{
    if fs.len() == 0 {
        None
    } else if fs[0].field == field {
        fs[0].confidence_permille
    } else {
        support_confidence(fs.drop_first(), field)
    }
}

/// The lower of two optional confidences, or the one that is present.
pub open spec fn lower(a: Option<u32>, b: Option<u32>) -> Option<u32> {
    match (a, b) {
        (Some(x), Some(y)) => Some(if x <= y { x } else { y }),
        (Some(x), None) => Some(x),
        (None, y) => y,
    }
}

/// How confident a decision is of its task identity, in thousandths: the
/// lower support of the answer's task summary and task object, else 850 for
/// a resolved answer and 600 for another; without an authoritative answer,
/// the decision's own task confidence.
pub open spec fn task_confidence(d: ContinueDecisionResult) -> u32 {
    match authoritative_answer(d) {
        Some(a) => match lower(
            support_confidence(a.field_support, "task_summary"@),
            support_confidence(a.field_support, "task_object"@),
        ) {
            Some(c) => c,
            None => if a.task_resolution_status == "resolved"@ {
                850
            } else {
                600
            },
        },
        None => d.task_confidence_permille,
    }
}

/// The confidence of the support entry for `field`.
fn field_confidence(fs: &Vec<crate::decision::TaskTruthFieldSupportV1>, field: &str) -> (r: Option<u32>)
    ensures
        r == support_confidence(fs@.map_values(|f: crate::decision::TaskTruthFieldSupportV1| f@), field@),
{
    let ghost all = fs@.map_values(|f: crate::decision::TaskTruthFieldSupportV1| f@);
    let mut i: usize = 0;
    assert(all.skip(0) =~= all);
    while i < fs.len()
        invariant
            i <= fs@.len(),
            all == fs@.map_values(|f: crate::decision::TaskTruthFieldSupportV1| f@),
            support_confidence(all, field@) == support_confidence(all.skip(i as int), field@),
        decreases fs@.len() - i,
    {
        assert(all.skip(i as int).drop_first() =~= all.skip(i as int + 1));
        assert(all.skip(i as int)[0] == fs@[i as int]@);
        if str_eq(fs[i].field.as_str(), field) {
            return fs[i].confidence_permille;
        }
        i = i + 1;
    }
    assert(all.skip(i as int).len() == 0);
    None
}

/// How confident a decision is of its task identity, in thousandths.
pub fn adoption_task_confidence(decision: &ContinueDecisionResult) -> (c: u32)
    ensures
        c == task_confidence(*decision),
{
    match authoritative_task_truth_answer(decision) {
        None => decision.task_confidence_permille,
        Some(answer) => {
            let a = field_confidence(&answer.field_support, "task_summary");
            let b = field_confidence(&answer.field_support, "task_object");
            match (a, b) {
                (Some(x), Some(y)) => if x <= y {
                    x
                } else {
                    y
                },
                (Some(x), None) => x,
                (None, Some(y)) => y,
                (None, None) => if str_eq(answer.task_resolution_status.as_str(), "resolved") {
                    850
                } else {
                    600
                },
            }
        },
    }
}

/// Where a decision's wording came from.
pub open spec fn wording_source_of(d: ContinueDecisionResult) -> Seq<char> {
    match authoritative_answer(d) {
        Some(a) => a.wording_source,
        None => d.wording_source@,
    }
}

/// Where a decision's wording came from.
pub fn adoption_wording_source(decision: &ContinueDecisionResult) -> (r: String)
    ensures
        r@ == wording_source_of(*decision),
{
    match authoritative_task_truth_answer(decision) {
        Some(answer) => answer.wording_source,
        None => decision.wording_source.clone(),
    }
}

/// How a decision's target was selected.
pub open spec fn target_source_of(d: ContinueDecisionResult) -> Seq<char> {
    match authoritative_answer(d) {
        Some(a) => a.target_selection_source,
        None => d.target_selection_source@,
    }
}

/// How a decision's target was selected.
pub fn adoption_target_selection_source(decision: &ContinueDecisionResult) -> (r: String)
    ensures
        r@ == target_source_of(*decision),
{
    match authoritative_task_truth_answer(decision) {
        Some(answer) => answer.target_selection_source,
        None => decision.target_selection_source.clone(),
    }
}

/// The quality of a wording source: model wording ranks highest, fallback
/// or abstained wording lowest.
pub open spec fn source_rank(source: Seq<char>) -> u8 {
    if contains(source, "model"@) {
        2
    } else if contains(source, "fallback"@) || contains(source, "abstained"@) {
        0
    } else {
        1
    }
}

/// The quality of a wording source.
pub fn source_quality_rank(source: &str) -> (r: u8)
    ensures
        r == source_rank(source@),
{
    if str_contains(source, "model") {
        2
    } else if str_contains(source, "fallback") || str_contains(source, "abstained") {
        0
    } else {
        1
    }
}

/// The quality of a target selection source: a validated target ranks
/// highest, an abstained one lowest.
pub open spec fn target_rank(source: Seq<char>) -> u8 {
    if contains(source, "validated"@) {
        2
    } else if contains(source, "abstained"@) {
        0
    } else {
        1
    }
}

/// The quality of a target selection source.
pub fn target_source_quality_rank(source: &str) -> (r: u8)
    ensures
        r == target_rank(source@),
{
    if str_contains(source, "validated") {
        2
    } else if str_contains(source, "abstained") {
        0
    } else {
        1
    }
}

/// One reason, when `b` holds.
pub open spec fn when(b: bool, reason: Seq<char>) -> Seq<Seq<char>> {
    if b {
        seq![reason]
    } else {
        Seq::empty()
    }
}

/// `a < b` for optional revisions, where a missing revision comes first.
pub open spec fn revision_lt(a: Option<i64>, b: Option<i64>) -> bool {
    match (a, b) {
        (None, Some(_)) => true,
        (Some(x), Some(y)) => x < y,
        _ => false,
    }
}

/// The evidence time of a challenging decision: its ledger's, else the
/// newest capture's, else 0.
pub open spec fn challenger_evidence(d: ContinueDecisionResult, status: CaptureStatus) -> i64 {
    match ledger_ms(d) {
        Some(t) => t,
        None => or_zero(newest_evidence(status)),
    }
}

/// The challenger's evidence is newer than the remembered decision's.
pub open spec fn causally_newer(
    d: ContinueDecisionResult,
    status: CaptureStatus,
    rem: RememberedContinueIslandState,
) -> bool {
    challenger_evidence(d, status) > or_zero(rem.evidence_updated_at_ms)
}

/// Objections about the task the challenger is about.
pub open spec fn identity_objections(
    d: ContinueDecisionResult,
    status: CaptureStatus,
    rem: RememberedContinueIslandState,
) -> Seq<Seq<char>> {
    let (cid, crev) = task_identity(d);
    let rid = opt_str(rem.task_turn_id);
    let same = rid is Some && rid == cid;
    if rid is Some && cid is None {
        seq!["rejected_lost_task_identity"@]
    } else if rid is Some && !same {
        when(!task_supported(d), "rejected_new_task_not_supported"@) + when(
            !causally_newer(d, status, rem),
            "rejected_new_task_not_causally_newer"@,
        )
    } else if same && revision_lt(crev, rem.task_turn_revision) {
        seq!["rejected_older_task_revision"@]
    } else {
        Seq::empty()
    }
}

/// Objections about what the challenger's state loses.
pub open spec fn loss_objections(cs: StateView, rs: StateView) -> Seq<Seq<char>> {
    when(rs.activity_summary is Some && cs.activity_summary is None, "rejected_lost_supported_task"@)
        + when(rs.activity_state is Some && cs.activity_state is None, "rejected_lost_supported_state"@)
        + when(rs.next_action is Some && cs.next_action is None, "rejected_lost_supported_next"@)
        + when(rs.activity_where is Some && cs.activity_where is None, "rejected_lost_supported_where"@)
}

/// Objections about the challenger's task, evidence, confidence and target
/// policy.
pub open spec fn leading_objections(
    d: ContinueDecisionResult,
    cs: StateView,
    status: CaptureStatus,
    rem: RememberedContinueIslandState,
) -> Seq<Seq<char>> {
    identity_objections(d, status, rem) + when(
        !causally_newer(d, status, rem),
        "rejected_evidence_not_causally_newer"@,
    ) + when(
        task_confidence(d) < rem.task_confidence_permille,
        "rejected_lower_task_identity_confidence"@,
    ) + when(
        rem.continue_openable && !opens_target(cs.available_actions),
        "rejected_target_policy_downgrade"@,
    )
}

/// Objections about what the challenger loses and where its wording and
/// target come from.
pub open spec fn trailing_objections(
    d: ContinueDecisionResult,
    cs: StateView,
    rem: RememberedContinueIslandState,
) -> Seq<Seq<char>> {
    loss_objections(cs, rem.island_continue_state@) + when(
        source_rank(wording_source_of(d)) < source_rank(rem.wording_source@),
        "rejected_wording_source_downgrade"@,
    ) + when(
        target_rank(target_source_of(d)) < target_rank(rem.target_selection_source@),
        "rejected_target_selection_source_downgrade"@,
    )
}

/// Every objection to replacing the remembered decision with the
/// challenger `d`, whose island state is `cs`, in the order raised; a
/// remembered manual result is then also retained as the stronger one.
pub open spec fn adoption_objections(
    d: ContinueDecisionResult,
    cs: StateView,
    status: CaptureStatus,
    rem: RememberedContinueIslandState,
) -> Seq<Seq<char>> {
    let o = leading_objections(d, cs, status, rem) + trailing_objections(d, cs, rem);
    o + when(rem.request_trigger@ == "manual"@ && o.len() > 0, "retained_stronger_manual_result"@)
}

/// A request that weighs a new decision against the remembered one: not a
/// user's own Continue, nor an update from the main card.
pub open spec fn contested(input: IslandContinueStateInput) -> bool {
    input.reason != IslandContinueReason::UserPressedContinue && input.reason
        != IslandContinueReason::MainCardDecisionUpdated
}

/// Pushes a reason.
fn push_reason(v: &mut Vec<String>, reason: &str)
    ensures
        strs(final(v)@) == strs(old(v)@).push(reason@),
{
    v.push(copy_str(reason));
    assert(strs(v@) =~= strs(old(v)@).push(reason@));
}

/// Pushes an owned string.
fn push_owned(v: &mut Vec<String>, s: String)
    ensures
        strs(final(v)@) == strs(old(v)@).push(s@),
{
    v.push(s);
    assert(strs(v@) =~= strs(old(v)@).push(s@));
}

/// Pushes a reason when `b` holds.
fn push_when(v: &mut Vec<String>, b: bool, reason: &str)
    ensures
        strs(final(v)@) == strs(old(v)@) + when(b, reason@),
{
    if b {
        push_reason(v, reason);
    }
    assert(strs(v@) =~= strs(old(v)@) + when(b, reason@));
}

/// Pushes the objections about the challenger's task.
fn push_identity_objections(
    reasons: &mut Vec<String>,
    challenger: &ContinueDecisionResult,
    status: &CaptureStatus,
    rem: &RememberedContinueIslandState,
    newer: bool,
)
    requires
        newer == causally_newer(*challenger, *status, *rem),
    ensures
        strs(final(reasons)@) == strs(old(reasons)@) + identity_objections(*challenger, *status, *rem),
{
    let (challenger_id, challenger_revision) = adoption_task_identity(challenger);
    let same_task = rem.task_turn_id.is_some() && opt_str_eq(&rem.task_turn_id, &challenger_id);
    if rem.task_turn_id.is_some() && challenger_id.is_none() {
        push_reason(reasons, "rejected_lost_task_identity");
    } else if rem.task_turn_id.is_some() && !same_task {
        push_when(reasons, !adoption_task_is_supported(challenger), "rejected_new_task_not_supported");
        push_when(reasons, !newer, "rejected_new_task_not_causally_newer");
    } else if same_task && match (challenger_revision, rem.task_turn_revision) {
        (None, Some(_)) => true,
        (Some(x), Some(y)) => x < y,
        _ => false,
    } {
        push_reason(reasons, "rejected_older_task_revision");
    }
    assert(strs(reasons@) =~= strs(old(reasons)@) + identity_objections(*challenger, *status, *rem));
}

/// Pushes the objections about what the challenger's state loses.
fn push_loss_objections(
    reasons: &mut Vec<String>,
    challenger_state: &IslandContinueState,
    kept_state: &IslandContinueState,
)
    ensures
        strs(final(reasons)@) == strs(old(reasons)@) + loss_objections(challenger_state@, kept_state@),
{
    push_when(
        reasons,
        kept_state.activity_summary.is_some() && challenger_state.activity_summary.is_none(),
        "rejected_lost_supported_task",
    );
    push_when(
        reasons,
        kept_state.activity_state.is_some() && challenger_state.activity_state.is_none(),
        "rejected_lost_supported_state",
    );
    push_when(
        reasons,
        kept_state.next_action.is_some() && challenger_state.next_action.is_none(),
        "rejected_lost_supported_next",
    );
    push_when(
        reasons,
        kept_state.activity_where.is_some() && challenger_state.activity_where.is_none(),
        "rejected_lost_supported_where",
    );
    assert(strs(reasons@) =~= strs(old(reasons)@) + loss_objections(challenger_state@, kept_state@));
}

/// Pushes the objections about the challenger's task, evidence,
/// confidence and target policy.
fn push_leading_objections(
    reasons: &mut Vec<String>,
    challenger: &ContinueDecisionResult,
    challenger_state: &IslandContinueState,
    status: &CaptureStatus,
    rem: &RememberedContinueIslandState,
)
    ensures
        strs(final(reasons)@) == strs(old(reasons)@) + leading_objections(
            *challenger,
            challenger_state@,
            *status,
            *rem,
        ),
{
    let challenger_evidence_ms = match decision_evidence_updated_at_ms(challenger) {
        Some(t) => t,
        None => match newest_status_evidence_ms(status) {
            Some(t) => t,
            None => 0,
        },
    };
    let remembered_at = match rem.evidence_updated_at_ms {
        Some(t) => t,
        None => 0,
    };
    let newer = challenger_evidence_ms > remembered_at;
    let ghost start = strs(reasons@);
    push_identity_objections(reasons, challenger, status, rem, newer);
    push_when(reasons, !newer, "rejected_evidence_not_causally_newer");
    push_when(
        reasons,
        adoption_task_confidence(challenger) < rem.task_confidence_permille,
        "rejected_lower_task_identity_confidence",
    );
    let challenger_opens = challenger_state.allows_open_continue_target();
    proof {
        lemma_offers_open_view(challenger_state.available_actions@);
    }
    push_when(reasons, rem.continue_openable && !challenger_opens, "rejected_target_policy_downgrade");
    assert(strs(reasons@) =~= start + leading_objections(*challenger, challenger_state@, *status, *rem));
}

/// Pushes the objections about what the challenger loses and where its
/// wording and target come from.
fn push_trailing_objections(
    reasons: &mut Vec<String>,
    challenger: &ContinueDecisionResult,
    challenger_state: &IslandContinueState,
    rem: &RememberedContinueIslandState,
)
    ensures
        strs(final(reasons)@) == strs(old(reasons)@) + trailing_objections(
            *challenger,
            challenger_state@,
            *rem,
        ),
{
    let ghost start = strs(reasons@);
    push_loss_objections(reasons, challenger_state, &rem.island_continue_state);
    let wording = adoption_wording_source(challenger);
    push_when(
        reasons,
        source_quality_rank(wording.as_str()) < source_quality_rank(rem.wording_source.as_str()),
        "rejected_wording_source_downgrade",
    );
    let target_source = adoption_target_selection_source(challenger);
    push_when(
        reasons,
        target_source_quality_rank(target_source.as_str()) < target_source_quality_rank(
            rem.target_selection_source.as_str(),
        ),
        "rejected_target_selection_source_downgrade",
    );
    assert(strs(reasons@) =~= start + trailing_objections(*challenger, challenger_state@, *rem));
}

/// Every objection to replacing the remembered decision, in the order raised.
fn adoption_objection_list(
    challenger: &ContinueDecisionResult,
    challenger_state: &IslandContinueState,
    status: &CaptureStatus,
    rem: &RememberedContinueIslandState,
) -> (reasons: Vec<String>)
    ensures
        strs(reasons@) == adoption_objections(*challenger, challenger_state@, *status, *rem),
{
    let mut reasons: Vec<String> = Vec::new();
    assert(strs(reasons@) =~= Seq::<Seq<char>>::empty());
    push_leading_objections(&mut reasons, challenger, challenger_state, status, rem);
    push_trailing_objections(&mut reasons, challenger, challenger_state, rem);
    let any = reasons.len() > 0;
    push_when(
        &mut reasons,
        str_eq(rem.request_trigger.as_str(), "manual") && any,
        "retained_stronger_manual_result",
    );
    reasons
}

/// The objections to replacing the remembered decision, sorted and once
/// each, with the remembered state to keep, when the request weighs the
/// challenger at all and there are any.
pub fn rejected_gateway_adoption(
    challenger: &ContinueDecisionResult,
    challenger_state: &IslandContinueState,
    status: &CaptureStatus,
    input: &IslandContinueStateInput,
    remembered: Option<&RememberedContinueIslandState>,
) -> (r: Option<(IslandContinueState, Vec<String>)>)
    ensures
        match r {
            None => !contested(*input) || remembered is None || adoption_objections(
                *challenger,
                challenger_state@,
                *status,
                *remembered.unwrap(),
            ).len() == 0,
            Some((kept, reasons)) => {
                &&& contested(*input)
                &&& remembered is Some
                &&& adoption_objections(
                    *challenger,
                    challenger_state@,
                    *status,
                    *remembered.unwrap(),
                ).len() > 0
                &&& kept@ == remembered.unwrap().island_continue_state@
                &&& sorted_unique(strs(reasons@))
                &&& strs(reasons@).to_set() == adoption_objections(
                    *challenger,
                    challenger_state@,
                    *status,
                    *remembered.unwrap(),
                ).to_set()
            },
        },
{
    match input.reason {
        IslandContinueReason::UserPressedContinue | IslandContinueReason::MainCardDecisionUpdated => {
            return None;
        },
        _ => {},
    }
    let rem = match remembered {
        Some(r) => r,
        None => {
            return None;
        },
    };
    let reasons = adoption_objection_list(challenger, challenger_state, status, rem);
    if reasons.len() == 0 {
        return None;
    }
    let sorted = sort_dedup(reasons);
    Some((rem.island_continue_state.copy(), sorted))
}

/// What the island remembers of a decision the gateway adopted.
pub open spec fn gateway_remembers(
    m: RememberedContinueIslandState,
    d: ContinueDecisionResult,
    s: StateView,
    status: CaptureStatus,
    feedback_or_open_watermark_ms: Option<i64>,
) -> bool {
    &&& opt_str(m.session_id) == current_session_id(status)
    &&& m.decision_id@ == d.decision_id@
    &&& m.request_trigger@ == d.request_trigger@
    &&& (opt_str(m.task_turn_id), m.task_turn_revision) == task_identity(d)
    &&& m.task_confidence_permille == task_confidence(d)
    &&& m.wording_source@ == wording_source_of(d)
    &&& m.target_selection_source@ == target_source_of(d)
    &&& opt_str(m.resume_headline) == Some(headline_of(s.display_state))
    &&& opt_str(m.resume_detail) == s.next_action
    &&& opt_str(m.resume_point) == match s.resume_work_target {
        Some(t) => Some(t.title),
        None => match s.return_target {
            Some(t) => Some(t.title),
            None => None,
        },
    }
    &&& opt_str(m.resume_warning) == first_note(s)
    &&& m.continue_freshness@ == freshness_label(s.display_state)
    &&& m.evidence_updated_at_ms == match s.evidence_watermark_ms {
        Some(t) => Some(t),
        None => newest_evidence(status),
    }
    &&& m.decision_updated_at_ms == Some(s.generated_at_ms)
    &&& m.continue_openable == opens_target(s.available_actions)
    &&& m.feedback_or_open_watermark_ms == feedback_or_open_watermark_ms
    &&& m.frame_count == count_of(status.frame_count)
    &&& m.signal_count == count_of(status.signal_count)
    &&& m.event_count == count_of(status.event_count)
    &&& m.island_continue_state@ == s
}

/// What the island remembers of a decision the gateway adopted, shown as
/// `state`.
pub fn remember_gateway_decision(
    decision: &ContinueDecisionResult,
    state: &IslandContinueState,
    status: &CaptureStatus,
    feedback_or_open_watermark_ms: Option<i64>,
) -> (m: RememberedContinueIslandState)
    ensures
        gateway_remembers(m, *decision, state@, *status, feedback_or_open_watermark_ms),
{
    let (task_turn_id, task_turn_revision) = adoption_task_identity(decision);
    let openable = state.allows_open_continue_target();
    proof {
        lemma_offers_open_view(state.available_actions@);
        assert(state@.missing_evidence.len() == state.missing_evidence@.len());
        assert(state@.warnings.len() == state.warnings@.len());
    }
    let resume_point = match &state.resume_work_target {
        Some(t) => Some(t.title.clone()),
        None => match &state.return_target {
            Some(t) => Some(t.title.clone()),
            None => None,
        },
    };
    let resume_warning = if state.missing_evidence.len() > 0 {
        assert(state@.missing_evidence[0] == state.missing_evidence@[0]@);
        Some(state.missing_evidence[0].clone())
    } else if state.warnings.len() > 0 {
        assert(state@.warnings[0] == state.warnings@[0]@);
        Some(state.warnings[0].clone())
    } else {
        None
    };
    RememberedContinueIslandState {
        session_id: status.session_id(),
        decision_id: decision.decision_id.clone(),
        request_trigger: decision.request_trigger.clone(),
        task_turn_id,
        task_turn_revision,
        task_confidence_permille: adoption_task_confidence(decision),
        wording_source: adoption_wording_source(decision),
        target_selection_source: adoption_target_selection_source(decision),
        resume_headline: Some(copy_str(headline_from_island_state(state))),
        resume_detail: copy_opt_str(&state.next_action),
        resume_point,
        resume_warning,
        continue_freshness: continue_freshness_from_island_state(state),
        evidence_updated_at_ms: match state.evidence_watermark_ms {
            Some(t) => Some(t),
            None => newest_status_evidence_ms(status),
        },
        decision_updated_at_ms: Some(state.generated_at_ms),
        continue_openable: openable,
        feedback_or_open_watermark_ms,
        frame_count: crate::capture::nonnegative(status.frame_count),
        signal_count: crate::capture::nonnegative(status.signal_count),
        event_count: crate::capture::nonnegative(status.event_count),
        island_continue_state: state.copy(),
    }
}

/// The gateway's first step: an answer, or the decision to ask for.
pub enum GatewayStep {
    /// Answer with this state; no decision is needed.
    Answer(IslandContinueState),
    /// Ask the decision pipeline with this request.
    Decide(ContinueDecisionRequest),
}

/// The freshness the gateway reports before any decision, at `now_ms`.
pub open spec fn gateway_freshness(status: CaptureStatus, now_ms: i64) -> IslandFreshness {
    IslandFreshness {
        evidence_watermark_ms: newest_evidence(status),
        newest_evidence_ms: newest_evidence(status),
        decision_updated_at_ms: Some(now_ms),
        decision_stale: false,
    }
}

/// The gateway's first step, given the capture status, the time, the
/// remembered decision and the latest feedback or open watermark: with no
/// local memory it answers that there is no evidence; unless a refresh is
/// forced it answers with a reusable remembered state, or, when it may not
/// refresh, with a state that asks for one; otherwise it asks for a
/// decision in the current session.
pub fn gateway_step(
    status: &CaptureStatus,
    input: &IslandContinueStateInput,
    now_ms: i64,
    remembered: Option<&RememberedContinueIslandState>,
    feedback_or_open_watermark_ms: Option<i64>,
) -> (r: GatewayStep)
    ensures
        !status_context(*status).has_local_memory ==> match r {
            GatewayStep::Answer(s) => exists|n: IslandContinueState|
                no_evidence_state(gateway_freshness(*status, now_ms), status_context(*status), n)
                    && annotates(n@, s@, *input),
            GatewayStep::Decide(_) => false,
        },
        status_context(*status).has_local_memory && !input.force_refresh && reusable(
            *status,
            *input,
            feedback_or_open_watermark_ms,
            rem_of(remembered),
        ) ==> match r {
            GatewayStep::Answer(s) => annotates(
                from_cache(remembered.unwrap().island_continue_state@),
                s@,
                *input,
            ),
            GatewayStep::Decide(_) => false,
        },
        status_context(*status).has_local_memory && !input.force_refresh && !reusable(
            *status,
            *input,
            feedback_or_open_watermark_ms,
            rem_of(remembered),
        ) && !input.allow_refresh ==> match r {
            GatewayStep::Answer(s) => exists|n: IslandContinueState|
                refresh_needed_state(
                    IslandFreshness { decision_stale: true, ..gateway_freshness(*status, now_ms) },
                    status_context(*status),
                    opt_str(input.existing_decision_id),
                    n,
                ) && annotates(n@, s@, *input),
            GatewayStep::Decide(_) => false,
        },
        status_context(*status).has_local_memory && (input.force_refresh || (!reusable(
            *status,
            *input,
            feedback_or_open_watermark_ms,
            rem_of(remembered),
        ) && input.allow_refresh)) ==> match r {
            GatewayStep::Decide(q) => {
                &&& request_for(ContinueDecisionRequest { session_id: None, ..q }, *input)
                &&& opt_str(q.session_id) == current_session_id(*status)
            },
            GatewayStep::Answer(_) => false,
        },
{
    let context = context_from_status(status);
    let newest = newest_status_evidence_ms(status);
    let freshness = IslandFreshness {
        evidence_watermark_ms: newest,
        newest_evidence_ms: newest,
        decision_updated_at_ms: Some(now_ms),
        decision_stale: false,
    };
    if !context.has_local_memory {
        let mut state = IslandContinueState::no_evidence(freshness, context);
        let ghost n = state;
        annotate_gateway_state(&mut state, input);
        return GatewayStep::Answer(state);
    }
    if !input.force_refresh {
        match remembered_fresh_state(status, input, feedback_or_open_watermark_ms, remembered) {
            Some(state) => {
                return GatewayStep::Answer(state);
            },
            None => {},
        }
        if !input.allow_refresh {
            let stale = IslandFreshness {
                evidence_watermark_ms: newest,
                newest_evidence_ms: newest,
                decision_updated_at_ms: Some(now_ms),
                decision_stale: true,
            };
            let mut state = IslandContinueState::refresh_needed(
                stale,
                context,
                copy_opt_str(&input.existing_decision_id),
            );
            let ghost n = state;
            annotate_gateway_state(&mut state, input);
            return GatewayStep::Answer(state);
        }
    }
    let mut request = continue_decision_request_for_input(input);
    let ghost q0 = request;
    request.session_id = status.session_id();
    assert(ContinueDecisionRequest { session_id: None, ..request } == q0);
    GatewayStep::Decide(request)
}

/// Stamping decision ids keeps which actions open the target.
pub proof fn lemma_stamping_keeps_open(v: Seq<ActionView>, id: Option<Seq<char>>)
    ensures
        opens_target(stamped_actions(v, id)) == opens_target(v),
{
    let w = stamped_actions(v, id);
    if opens_target(v) {
        let i = choose|i: int|
            0 <= i < v.len() && (#[trigger] v[i]).enabled && v[i].kind == IslandActionKind::OpenContinueTarget;
        assert(w[i] == stamped(v[i], id));
    }
    if opens_target(w) {
        let i = choose|i: int|
            0 <= i < w.len() && (#[trigger] w[i]).enabled && w[i].kind == IslandActionKind::OpenContinueTarget;
        assert(w[i] == stamped(v[i], id));
    }
}

/// The annotated state raises the same objections as the state it annotates.
pub proof fn lemma_annotation_keeps_objections(
    d: ContinueDecisionResult,
    old: StateView,
    new: StateView,
    status: CaptureStatus,
    rem: RememberedContinueIslandState,
)
    requires
        new.available_actions == stamped_actions(old.available_actions, old.decision_id),
        new.activity_summary == old.activity_summary,
        new.activity_state == old.activity_state,
        new.next_action == old.next_action,
        new.activity_where == old.activity_where,
    ensures
        adoption_objections(d, new, status, rem) == adoption_objections(d, old, status, rem),
{
    lemma_stamping_keeps_open(old.available_actions, old.decision_id);
    assert(opens_target(new.available_actions) == opens_target(old.available_actions));
    assert(leading_objections(d, new, status, rem) == leading_objections(d, old, status, rem));
    assert(loss_objections(new, rem.island_continue_state@) == loss_objections(
        old,
        rem.island_continue_state@,
    ));
    assert(trailing_objections(d, new, rem) == trailing_objections(d, old, rem));
}

/// The warnings that record why a new decision was not adopted.
pub open spec fn adoption_warnings(reasons: Seq<Seq<char>>) -> Seq<Seq<char>> {
    reasons.map_values(|r: Seq<char>| "result_adoption:"@ + r)
}

/// The outcome of weighing a new decision against the remembered one.
pub struct GatewayAdoption {
    /// The state to show.
    pub state: IslandContinueState,
    /// The new decision replaced the remembered one.
    pub adopted: bool,
    /// Why it did not, sorted and once each.
    pub rejection_reasons: Vec<String>,
}

/// The gateway's second step: the state `decided` of a new decision is
/// annotated and given the decision's audit path, then weighed against the
/// remembered decision. If any objection holds, the remembered state is
/// kept, its warnings extended by the objections, and annotated.
pub fn gateway_adopt(
    decided: IslandContinueState,
    decision: &ContinueDecisionResult,
    status: &CaptureStatus,
    input: &IslandContinueStateInput,
    remembered: Option<&RememberedContinueIslandState>,
) -> (r: GatewayAdoption)
    ensures
        ({
            let rejected = contested(*input) && remembered is Some && adoption_objections(
                *decision,
                decided@,
                *status,
                *remembered.unwrap(),
            ).len() > 0;
            &&& r.adopted == !rejected
            &&& !rejected ==> {
                &&& r.rejection_reasons@.len() == 0
                &&& r.state@.audit_path == opt_str(decision.continue_output_path)
                &&& annotates(
                    decided@,
                    StateView { audit_path: decided@.audit_path, ..r.state@ },
                    *input,
                )
            }
            &&& rejected ==> {
                let kept = remembered.unwrap().island_continue_state@;
                let reasons = strs(r.rejection_reasons@);
                &&& sorted_unique(reasons)
                &&& reasons.to_set() == adoption_objections(
                    *decision,
                    decided@,
                    *status,
                    *remembered.unwrap(),
                ).to_set()
                &&& r.state@ == StateView {
                    warnings: r.state@.warnings,
                    ..annotation(kept, input.reason, opt_str(input.source))
                }
                &&& warned(
                    kept.warnings,
                    r.state@.warnings,
                    adoption_warnings(reasons).to_set().union(
                        if notes_forced_refresh(kept, input.force_refresh) {
                            set![forced_refresh_warning()]
                        } else {
                            Set::empty()
                        },
                    ),
                )
            }
        }),
{
    let mut state = decided;
    let ghost decided_view = state@;
    annotate_gateway_state(&mut state, input);
    let ghost annotated_view = state@;
    state.audit_path = copy_opt_str(&decision.continue_output_path);
    assert(StateView { audit_path: decided_view.audit_path, ..state@ } == annotated_view);
    proof {
        if remembered is Some {
            lemma_annotation_keeps_objections(
                *decision,
                decided_view,
                state@,
                *status,
                *remembered.unwrap(),
            );
        }
    }
    match rejected_gateway_adoption(decision, &state, status, input, remembered) {
        None => GatewayAdoption { state, adopted: true, rejection_reasons: Vec::new() },
        Some((kept, reasons)) => {
            let mut retained = kept;
            let ghost kept_view = retained@;
            let mut warnings = retained.warnings.clone();
            let mut i: usize = 0;
            while i < reasons.len()
                invariant
                    i <= reasons@.len(),
                    strs(warnings@) == kept_view.warnings + adoption_warnings(strs(reasons@)).take(i as int),
                decreases reasons@.len() - i,
            {
                let w = concat("result_adoption:", reasons[i].as_str());
                assert(adoption_warnings(strs(reasons@))[i as int] == w@);
                assert(adoption_warnings(strs(reasons@)).take(i as int + 1) =~= adoption_warnings(
                    strs(reasons@),
                ).take(i as int).push(w@));
                push_owned(&mut warnings, w);
                i = i + 1;
                assert(strs(warnings@) =~= kept_view.warnings + adoption_warnings(strs(reasons@)).take(i as int));
            }
            assert(adoption_warnings(strs(reasons@)).take(reasons@.len() as int) =~= adoption_warnings(strs(reasons@)));
            let sorted = sort_dedup(warnings);
            assert(strs(sorted@).to_set() =~= kept_view.warnings.to_set().union(
                adoption_warnings(strs(reasons@)).to_set(),
            )) by {
                vstd::seq_lib::seq_to_set_distributes_over_add(kept_view.warnings, adoption_warnings(strs(reasons@)));
            }
            retained.warnings = sorted;
            let ghost before_annotation = retained@;
            annotate_gateway_state(&mut retained, input);
            assert(retained@.warnings.to_set() =~= kept_view.warnings.to_set().union(
                adoption_warnings(strs(reasons@)).to_set().union(
                    if notes_forced_refresh(kept_view, input.force_refresh) {
                        set![forced_refresh_warning()]
                    } else {
                        Set::empty()
                    },
                ),
            ));
            GatewayAdoption { state: retained, adopted: false, rejection_reasons: reasons }
        },
    }
}

/// Neither the state of no evidence nor the state that asks for a refresh
/// offers to open a target, before or after the gateway annotates it.
pub proof fn law_unanswered_states_never_open(
    f: IslandFreshness,
    c: IslandStateContext,
    id: Option<Seq<char>>,
    n: IslandContinueState,
    s: StateView,
    input: IslandContinueStateInput,
)
    requires
        no_evidence_state(f, c, n) || refresh_needed_state(f, c, id, n),
        annotates(n@, s, input),
    ensures
        !opens_target(n@.available_actions),
        !opens_target(s.available_actions),
{
    lemma_stamping_keeps_open(n@.available_actions, n@.decision_id);
    let v = n@.available_actions;
    if opens_target(v) {
        let i = choose|i: int|
            0 <= i < v.len() && (#[trigger] v[i]).enabled && v[i].kind == IslandActionKind::OpenContinueTarget;
        if no_evidence_state(f, c, n) {
            assert(v == no_evidence_actions(c));
        } else {
            assert(v == refresh_actions());
        }
    }
}

/// After the gateway annotates a state, every open-target action names the
/// state's own decision.
pub proof fn law_open_actions_name_the_decision(old: StateView, new: StateView, input: IslandContinueStateInput, i: int)
    requires
        annotates(old, new, input),
        0 <= i < new.available_actions.len(),
        new.available_actions[i].kind == IslandActionKind::OpenContinueTarget,
    ensures
        new.available_actions[i].decision_id == new.decision_id,
{
    assert(new.available_actions[i] == stamped(old.available_actions[i], old.decision_id));
}

/// The panel read from capture in `state` at `now_ms`, with what the island
/// remembers.
pub open spec fn status_panel(
    b: SessionIslandSnapshot,
    status: CaptureStatus,
    state: SessionIslandState,
    now_ms: i64,
    remembered: Option<RememberedContinueIslandState>,
) -> bool {
    &&& reads_status(b, status, state, now_ms)
    &&& continue_fields(b) == applied_fields(
        state,
        newest_evidence(status),
        count_of(status.frame_count),
        count_of(status.signal_count),
        count_of(status.event_count),
        initial_fields(status),
        status,
        remembered,
    )
}

/// `s` shows, over the panel `b`, the gateway's answer at `now_ms`: the
/// fresh decision it carries, remembered as `m`, or else its state.
pub open spec fn shows_answer(
    b: SessionIslandSnapshot,
    s: SessionIslandSnapshot,
    m: Option<RememberedContinueIslandState>,
    result: IslandContinueGatewayResult,
    now_ms: i64,
) -> bool {
    &&& same_capture_part(b, s)
    &&& match result.decision {
        Some(d) => {
            &&& s.island_continue_state matches Some(v) && {
                &&& island_state_of(d, decision_freshness(b.last_capture_at_ms, d, now_ms), snapshot_context(b), v)
                &&& continue_fields(s) == shown_fields(v@, Some(d.decision_id@), now_ms, b.last_capture_at_ms)
                &&& m matches Some(mm) && remembers(
                    mm,
                    d,
                    s,
                    freshness_label(v.display_state),
                    opens_target(v@.available_actions),
                    v@,
                )
            }
        },
        None => {
            &&& continue_fields(s) == shown_fields(
                result.state@,
                result.state@.decision_id,
                result.state.generated_at_ms,
                b.last_capture_at_ms,
            )
            &&& m is None
        },
    }
}

/// The panel state that shows a gateway's answer: ready to resume when the
/// answer names a decision, else the plain ready state, since "resume
/// ready" is only shown when backed by a decision id.
pub open spec fn answer_state(result: IslandContinueGatewayResult) -> SessionIslandState {
    if result.decision is Some || result.state.decision_id is Some {
        SessionIslandState::ResumeReady
    } else {
        SessionIslandState::Ready
    }
}

/// What the island shows of the gateway's answer to the user's Continue:
/// the panel read from capture, ready to resume when the answer names a
/// decision and plainly ready otherwise, with the fresh decision the gateway
/// carries (to be remembered) or else the gateway's state. A decision with
/// more evidence anchors than can be counted is refused.
pub fn continue_answer_snapshot(
    status: &CaptureStatus,
    now_ms: i64,
    remembered: Option<&RememberedContinueIslandState>,
    result: &IslandContinueGatewayResult,
) -> (r: Result<(SessionIslandSnapshot, Option<RememberedContinueIslandState>), String>)
    ensures
        (r is Err) == (result.decision matches Some(d) && anchor_count(d) >= usize::MAX),
        r matches Ok((s, m)) ==> exists|b: SessionIslandSnapshot|
            #![trigger status_panel(b, *status, answer_state(*result), now_ms, rem_of(remembered))]
            status_panel(b, *status, answer_state(*result), now_ms, rem_of(remembered))
                && shows_answer(b, s, m, *result, now_ms),
        r matches Ok((s, m)) ==> s.state == answer_state(*result),
        r matches Ok((s, m)) ==> (s.state == SessionIslandState::ResumeReady <==> s.continue_decision_id is Some),
{
    let state = if result.decision.is_some() || result.state.decision_id.is_some() {
        SessionIslandState::ResumeReady
    } else {
        SessionIslandState::Ready
    };
    let mut snapshot = snapshot_from_status(status, state, now_ms, remembered);
    let ghost b = snapshot;
    assert(status_panel(b, *status, answer_state(*result), now_ms, rem_of(remembered)));
    match &result.decision {
        Some(decision) => {
            let a = &decision.evidence_anchors;
            let count: u128 = a.frame_ids.len() as u128 + a.action_ids.len() as u128
                + a.episode_ids.len() as u128 + a.artifact_ids.len() as u128;
            if count >= usize::MAX as u128 {
                return Err(copy_str("continue decision carries too many evidence anchors"));
            }
            let memory = apply_continue_decision_to_snapshot(&mut snapshot, decision, now_ms);
            assert(shows_answer(b, snapshot, Some(memory), *result, now_ms));
            assert(continue_fields(snapshot).continue_decision_id is Some);
            Ok((snapshot, Some(memory)))
        },
        None => {
            apply_island_continue_state_to_snapshot(&mut snapshot, &result.state);
            assert(shows_answer(b, snapshot, None, *result, now_ms));
            assert(continue_fields(snapshot).continue_decision_id == opt_str(result.state.decision_id));
            Ok((snapshot, None))
        },
    }
}

/// The remembered decision goes stale with anything new: another session,
/// more frames, signals or events than it was taken with, newer captured
/// evidence, or newer feedback or opens; each alone is enough, and when
/// nothing is new it stays current.
pub proof fn law_memory_goes_stale_with_new_evidence(
    rem: RememberedContinueIslandState,
    status: CaptureStatus,
    watermark: Option<i64>,
)
    ensures
        opt_str(rem.session_id) != status_session_id(status) ==> remembered_stale(rem, status, watermark),
        status.frame_count >= 0 && status.frame_count > rem.frame_count ==> remembered_stale(
            rem,
            status,
            watermark,
        ),
        status.signal_count >= 0 && status.signal_count > rem.signal_count ==> remembered_stale(
            rem,
            status,
            watermark,
        ),
        status.event_count >= 0 && status.event_count > rem.event_count ==> remembered_stale(
            rem,
            status,
            watermark,
        ),
        or_zero(newest_evidence(status)) > or_zero(rem.evidence_updated_at_ms) ==> remembered_stale(
            rem,
            status,
            watermark,
        ),
        watermark matches Some(l) && (rem.feedback_or_open_watermark_ms matches Some(r) ==> l > r)
            ==> remembered_stale(rem, status, watermark),
        ({
            &&& opt_str(rem.session_id) == status_session_id(status)
            &&& status.frame_count <= rem.frame_count
            &&& status.signal_count <= rem.signal_count
            &&& status.event_count <= rem.event_count
            &&& or_zero(newest_evidence(status)) <= or_zero(rem.evidence_updated_at_ms)
            &&& (watermark matches Some(l) ==> rem.feedback_or_open_watermark_ms matches Some(r) && l <= r)
        }) ==> !remembered_stale(rem, status, watermark),
{
}

} // verus!
