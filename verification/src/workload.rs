//! Process-wide policy for expensive background work.
//!
//! Expensive operations take a typed permit so that their overlap and their
//! priority are explicit and observable. Each work class belongs to at most
//! one group; a group runs one class at a time, and the classes that may
//! overlap are fixed by `allowed`. Among waiting requests, the one of
//! highest priority (the earliest on a tie) that may start, starts first.
//!
//! `WorkloadGovernor` is the coordinator's state and its decisions; whoever
//! shares it between threads holds it under a lock and waits for changes.
use vstd::prelude::*;
use crate::text::{copy_str, strs};
use crate::contract::concat;

verus! {

/// A kind of expensive work.
#[derive(Debug, Clone, Copy, PartialEq, Eq, PartialOrd, Ord, Hash)]
pub enum WorkClass {
    CheapStatusRead,
    EventIngest,
    AccessibilitySnapshot,
    ScreenshotCapture,
    Ocr,
    DerivedEvidenceUpdate,
    BackgroundContinue,
    ManualContinue,
    IslandRefresh,
    AuditExport,
    MaintenanceCleanup,
}

/// How urgent a work class is; later variants are more urgent.
#[derive(Debug, Clone, Copy, PartialEq, Eq, PartialOrd, Ord, Hash)]
pub enum Priority {
    Low,
    Normal,
    High,
    User,
}

/// A group of work classes of which at most one runs at a time.
#[derive(Debug, Clone, Copy, PartialEq, Eq)]
pub enum Group {
    Continue,
    Capture,
    Audit,
    Maintenance,
    Derived,
}

/// Numeric weight of a priority (`Low = 1` … `User = 4`).
pub open spec fn rank(p: Priority) -> int {
    match p {
        Priority::Low => 1,
        Priority::Normal => 2,
        Priority::High => 3,
        Priority::User => 4,
    }
}

/// The priority of a work class.
pub open spec fn class_priority(c: WorkClass) -> Priority {
    match c {
        WorkClass::ManualContinue | WorkClass::ScreenshotCapture => Priority::User,
        WorkClass::IslandRefresh | WorkClass::AccessibilitySnapshot | WorkClass::Ocr => Priority::High,
        WorkClass::DerivedEvidenceUpdate => Priority::Normal,
        WorkClass::BackgroundContinue | WorkClass::AuditExport | WorkClass::MaintenanceCleanup => {
            Priority::Low
        },
        WorkClass::CheapStatusRead | WorkClass::EventIngest => Priority::High,
    }
}

/// The group of a work class; cheap work has none and is never coordinated.
pub open spec fn class_group(c: WorkClass) -> Option<Group> {
    match c {
        WorkClass::ManualContinue | WorkClass::BackgroundContinue | WorkClass::IslandRefresh => Some(
            Group::Continue,
        ),
        WorkClass::ScreenshotCapture | WorkClass::AccessibilitySnapshot | WorkClass::Ocr => Some(
            Group::Capture,
        ),
        WorkClass::AuditExport => Some(Group::Audit),
        WorkClass::MaintenanceCleanup => Some(Group::Maintenance),
        WorkClass::DerivedEvidenceUpdate => Some(Group::Derived),
        WorkClass::CheapStatusRead | WorkClass::EventIngest => None,
    }
}

/// Position of a group in the table of active work.
pub open spec fn group_index(g: Group) -> int {
    match g {
        Group::Continue => 0,
        Group::Capture => 1,
        Group::Audit => 2,
        Group::Maintenance => 3,
        Group::Derived => 4,
    }
}

/// Position of a work class in the per-class tables.
pub open spec fn class_index(c: WorkClass) -> int {
    match c {
        WorkClass::CheapStatusRead => 0,
        WorkClass::EventIngest => 1,
        WorkClass::AccessibilitySnapshot => 2,
        WorkClass::ScreenshotCapture => 3,
        WorkClass::Ocr => 4,
        WorkClass::DerivedEvidenceUpdate => 5,
        WorkClass::BackgroundContinue => 6,
        WorkClass::ManualContinue => 7,
        WorkClass::IslandRefresh => 8,
        WorkClass::AuditExport => 9,
        WorkClass::MaintenanceCleanup => 10,
    }
}

/// The group stored at a position of the active table.
pub open spec fn group_at(i: int) -> Group {
    if i == 0 {
        Group::Continue
    } else if i == 1 {
        Group::Capture
    } else if i == 2 {
        Group::Audit
    } else if i == 3 {
        Group::Maintenance
    } else {
        Group::Derived
    }
}

/// The lowercase name of a work class, as diagnostics report it.
pub open spec fn class_label(c: WorkClass) -> Seq<char> {
    match c {
        WorkClass::CheapStatusRead => "cheapstatusread"@,
        WorkClass::EventIngest => "eventingest"@,
        WorkClass::AccessibilitySnapshot => "accessibilitysnapshot"@,
        WorkClass::ScreenshotCapture => "screenshotcapture"@,
        WorkClass::Ocr => "ocr"@,
        WorkClass::DerivedEvidenceUpdate => "derivedevidenceupdate"@,
        WorkClass::BackgroundContinue => "backgroundcontinue"@,
        WorkClass::ManualContinue => "manualcontinue"@,
        WorkClass::IslandRefresh => "islandrefresh"@,
        WorkClass::AuditExport => "auditexport"@,
        WorkClass::MaintenanceCleanup => "maintenancecleanup"@,
    }
}

/// A group is running some work.
pub open spec fn occupied(active: Seq<Option<WorkClass>>, g: Group) -> bool {
    active[group_index(g)] is Some
}

/// `allowed_with_active`: the class may start next to the active work.
///
/// Manual Continue reads committed evidence and may run while capture
/// finishes; capture never starts under Continue; background Continue
/// yields to capture, audit and maintenance; audit and maintenance yield to
/// Continue and capture; derived updates yield to maintenance.
pub open spec fn allowed(active: Seq<Option<WorkClass>>, c: WorkClass) -> bool {
    match class_group(c) {
        None => true,
        Some(g) => !occupied(active, g) && match c {
            WorkClass::ManualContinue => true,
            WorkClass::IslandRefresh => !occupied(active, Group::Capture),
            WorkClass::BackgroundContinue => !occupied(active, Group::Capture) && !occupied(
                active,
                Group::Audit,
            ) && !occupied(active, Group::Maintenance),
            WorkClass::ScreenshotCapture | WorkClass::AccessibilitySnapshot | WorkClass::Ocr => {
                !occupied(active, Group::Continue)
            },
            WorkClass::AuditExport | WorkClass::MaintenanceCleanup => !occupied(
                active,
                Group::Continue,
            ) && !occupied(active, Group::Capture),
            WorkClass::DerivedEvidenceUpdate => !occupied(active, Group::Maintenance),
            WorkClass::CheapStatusRead | WorkClass::EventIngest => true,
        },
    }
}

/// A request waiting for a permit.
#[derive(Debug, Clone, Copy, PartialEq, Eq)]
pub struct Waiter {
    pub id: u64,
    pub class: WorkClass,
    pub priority: Priority,
}

/// `a` goes before `b`: higher priority, or the same priority and an
/// earlier request.
pub open spec fn outranks(a: Waiter, b: Waiter) -> bool {
    rank(a.priority) > rank(b.priority) || (rank(a.priority) == rank(b.priority) && a.id < b.id)
}

/// The waiter at `i` may start and goes before every other waiter that may.
pub open spec fn best_at(active: Seq<Option<WorkClass>>, queue: Seq<Waiter>, i: int) -> bool {
    &&& 0 <= i < queue.len()
    &&& allowed(active, queue[i].class)
    &&& forall|j: int|
        0 <= j < queue.len() && j != i && allowed(active, #[trigger] queue[j].class) ==> outranks(
            queue[i],
            queue[j],
        )
}

/// The request `id` is the one that starts next.
pub open spec fn is_next(active: Seq<Option<WorkClass>>, queue: Seq<Waiter>, id: u64) -> bool {
    exists|i: int| #![trigger queue[i]] best_at(active, queue, i) && queue[i].id == id
}

/// The queue without the request `id`, in the same order.
pub open spec fn without(queue: Seq<Waiter>, id: u64) -> Seq<Waiter>
    decreases queue.len(),
{
    if queue.len() == 0 {
        queue
    } else {
        let rest = without(queue.drop_last(), id);
        if queue.last().id == id {
            rest
        } else {
            rest.push(queue.last())
        }
    }
}

/// `s` is in ascending order.
pub open spec fn ascending(s: Seq<u64>) -> bool {
    forall|i: int, j: int| 0 <= i <= j < s.len() ==> s[i] <= s[j]
}

/// The sample at rank `k` (from 0) of `samples` in ascending order.
pub open spec fn order_statistic(samples: Seq<u64>, k: int, v: u64) -> bool {
    exists|t: Seq<u64>|
        #![trigger t.to_multiset()]
        ascending(t) && t.to_multiset() == samples.to_multiset() && 0 <= k < t.len() && t[k] == v
}

/// The coordinator's state.
#[verifier::ext_equal]
pub struct GovernorModel {
    pub next_id: u64,
    pub active: Seq<Option<WorkClass>>,
    pub queue: Seq<Waiter>,
    pub started: Seq<u64>,
    pub completed: Seq<u64>,
    pub failed: Seq<u64>,
    pub coalesced: u64,
    pub cancelled_or_superseded: u64,
    pub background_decisions_avoided: u64,
    pub durations_ms: Seq<Seq<u64>>,
    pub shutting_down: bool,
}

/// The longest duration history kept per work class.
pub const MAX_DURATION_SAMPLES: usize = 256;

/// The coordinator of expensive work.
pub struct WorkloadGovernor {
    next_id: u64,
    active: Vec<Option<WorkClass>>,
    queue: Vec<Waiter>,
    started: Vec<u64>,
    completed: Vec<u64>,
    failed: Vec<u64>,
    coalesced: u64,
    cancelled_or_superseded: u64,
    background_decisions_avoided: u64,
    durations_ms: Vec<Vec<u64>>,
    shutting_down: bool,
}

impl View for WorkloadGovernor {
    type V = GovernorModel;

    closed spec fn view(&self) -> GovernorModel {
        GovernorModel {
            next_id: self.next_id,
            active: self.active@,
            queue: self.queue@,
            started: self.started@,
            completed: self.completed@,
            failed: self.failed@,
            coalesced: self.coalesced,
            cancelled_or_superseded: self.cancelled_or_superseded,
            background_decisions_avoided: self.background_decisions_avoided,
            durations_ms: self.durations_ms@.map_values(|v: Vec<u64>| v@),
            shutting_down: self.shutting_down,
        }
    }
}

/// The invariant of the coordinator's state.
pub open spec fn model_wf(m: GovernorModel) -> bool {
    &&& m.active.len() == 5
    &&& forall|i: int|
        0 <= i < 5 ==> match #[trigger] m.active[i] {
            Some(c) => class_group(c) == Some(group_at(i)),
            None => true,
        }
    &&& m.started.len() == 11
    &&& m.completed.len() == 11
    &&& m.failed.len() == 11
    &&& m.durations_ms.len() == 11
    &&& forall|i: int| 0 <= i < 11 ==> (#[trigger] m.durations_ms[i]).len() <= MAX_DURATION_SAMPLES
    &&& forall|i: int, j: int|
        0 <= i < j < m.queue.len() ==> (#[trigger] m.queue[i]).id != (#[trigger] m.queue[j]).id
    &&& forall|i: int|
        0 <= i < m.queue.len() ==> {
            let w = #[trigger] m.queue[i];
            &&& w.id <= m.next_id
            &&& w.priority == class_priority(w.class)
            &&& class_group(w.class) is Some
        }
}

/// The state of a fresh coordinator.
pub open spec fn initial_model() -> GovernorModel {
    GovernorModel {
        next_id: 0,
        active: Seq::new(5, |i: int| None),
        queue: Seq::empty(),
        started: Seq::new(11, |i: int| 0u64),
        completed: Seq::new(11, |i: int| 0u64),
        failed: Seq::new(11, |i: int| 0u64),
        coalesced: 0,
        cancelled_or_superseded: 0,
        background_decisions_avoided: 0,
        durations_ms: Seq::new(11, |i: int| Seq::<u64>::empty()),
        shutting_down: false,
    }
}

/// The request that `class` makes under the number `id`.
pub open spec fn waiter_for(id: u64, class: WorkClass) -> Waiter {
    Waiter { id, class, priority: class_priority(class) }
}

/// The queue holds the request `id` of `class`.
pub open spec fn queued(queue: Seq<Waiter>, id: u64, class: WorkClass) -> bool {
    exists|i: int| 0 <= i < queue.len() && #[trigger] queue[i] == waiter_for(id, class)
}

/// Position in the active table of the group of a coordinated class.
pub open spec fn slot_of(c: WorkClass) -> int {
    match class_group(c) {
        Some(g) => group_index(g),
        None => 0,
    }
}

/// The counter at `i`, one higher.
pub open spec fn bumped(v: Seq<u64>, i: int) -> Seq<u64> {
    v.update(i, (v[i] + 1) as u64)
}

/// A request of `class` joins the queue under the next number.
pub open spec fn requested(m: GovernorModel, class: WorkClass) -> GovernorModel {
    let id = (m.next_id + 1) as u64;
    GovernorModel { next_id: id, queue: m.queue.push(waiter_for(id, class)), ..m }
}

/// The request `id` of `class` leaves the queue and its work starts.
pub open spec fn granted(m: GovernorModel, id: u64, class: WorkClass) -> GovernorModel {
    GovernorModel {
        queue: without(m.queue, id),
        active: m.active.update(slot_of(class), Some(class)),
        started: bumped(m.started, class_index(class)),
        ..m
    }
}

/// The request `id` leaves the queue and counts as cancelled.
pub open spec fn withdrawn(m: GovernorModel, id: u64) -> GovernorModel {
    GovernorModel {
        queue: without(m.queue, id),
        cancelled_or_superseded: (m.cancelled_or_superseded + 1) as u64,
        ..m
    }
}

/// The most recent samples, at most `MAX_DURATION_SAMPLES` of them.
pub open spec fn keep_recent(s: Seq<u64>) -> Seq<u64> {
    if s.len() > MAX_DURATION_SAMPLES {
        s.subrange(s.len() - MAX_DURATION_SAMPLES, s.len() as int)
    } else {
        s
    }
}

/// Work of `class` ends after `elapsed_ms`: its group is free again, it
/// counts as completed (and as failed if it failed), and its duration is
/// recorded.
pub open spec fn released(m: GovernorModel, class: WorkClass, failed: bool, elapsed_ms: u64) -> GovernorModel {
    let i = class_index(class);
    GovernorModel {
        active: if class_group(class) is Some {
            m.active.update(slot_of(class), None)
        } else {
            m.active
        },
        completed: bumped(m.completed, i),
        failed: if failed {
            bumped(m.failed, i)
        } else {
            m.failed
        },
        durations_ms: m.durations_ms.update(i, keep_recent(m.durations_ms[i].push(elapsed_ms))),
        ..m
    }
}

/// A request was served by work already under way.
pub open spec fn coalesced_noted(m: GovernorModel, background_avoided: bool) -> GovernorModel {
    GovernorModel {
        coalesced: (m.coalesced + 1) as u64,
        background_decisions_avoided: if background_avoided {
            (m.background_decisions_avoided + 1) as u64
        } else {
            m.background_decisions_avoided
        },
        ..m
    }
}

/// The coordinator stops admitting work; every queued request counts as
/// cancelled.
pub open spec fn shut_down(m: GovernorModel) -> GovernorModel {
    GovernorModel {
        shutting_down: true,
        cancelled_or_superseded: (m.cancelled_or_superseded + m.queue.len()) as u64,
        ..m
    }
}

/// The message of a request refused during shutdown.
pub open spec fn shutdown_message() -> Seq<char> {
    "workload governor is shutting down"@
}

/// The message of a request of `class` that gave up waiting.
pub open spec fn timeout_message(class: WorkClass) -> Seq<char> {
    "workload governor timed out waiting for "@ + class_label(class)
}

/// Facts about `without`.
pub proof fn lemma_without(queue: Seq<Waiter>, id: u64)
    ensures
        without(queue, id).len() <= queue.len(),
        forall|k: int|
            0 <= k < without(queue, id).len() ==> queue.contains(#[trigger] without(queue, id)[k]),
        forall|k: int| 0 <= k < without(queue, id).len() ==> (#[trigger] without(queue, id)[k]).id != id,
        (forall|i: int, j: int|
            0 <= i < j < queue.len() ==> (#[trigger] queue[i]).id != (#[trigger] queue[j]).id) ==> (
        forall|i: int, j: int|
            0 <= i < j < without(queue, id).len() ==> (#[trigger] without(queue, id)[i]).id != (
            #[trigger] without(queue, id)[j]).id),
        (forall|k: int| 0 <= k < queue.len() ==> (#[trigger] queue[k]).id != id) ==> without(queue, id)
            == queue,
    decreases queue.len(),
{
    if queue.len() > 0 {
        let init = queue.drop_last();
        lemma_without(init, id);
        let rest = without(init, id);
        assert forall|k: int| 0 <= k < without(queue, id).len() implies queue.contains(
            #[trigger] without(queue, id)[k],
        ) by {
            if k < rest.len() {
                let j = choose|j: int| 0 <= j < init.len() && init[j] == rest[k];
                assert(queue[j] == init[j]);
            } else {
                assert(queue[queue.len() - 1] == queue.last());
            }
        }
        if forall|i: int, j: int|
            0 <= i < j < queue.len() ==> (#[trigger] queue[i]).id != (#[trigger] queue[j]).id {
            assert forall|i: int, j: int|
                0 <= i < j < init.len() implies (#[trigger] init[i]).id != (#[trigger] init[j]).id by {
                assert(init[i] == queue[i] && init[j] == queue[j]);
            }
            if queue.last().id != id {
                assert forall|i: int, j: int|
                    0 <= i < j < without(queue, id).len() implies (#[trigger] without(queue, id)[i]).id
                    != (#[trigger] without(queue, id)[j]).id by {
                    if j == rest.len() {
                        let a = choose|a: int| 0 <= a < init.len() && init[a] == rest[i];
                        assert(queue[a] == init[a]);
                        assert(queue[queue.len() - 1] == queue.last());
                    }
                }
            }
        }
        if forall|k: int| 0 <= k < queue.len() ==> (#[trigger] queue[k]).id != id {
            assert forall|k: int| 0 <= k < init.len() implies (#[trigger] init[k]).id != id by {
                assert(init[k] == queue[k]);
            }
            assert(queue[queue.len() - 1] == queue.last());
            assert(rest.push(queue.last()) =~= queue);
        }
    }
}

/// The right to run one piece of expensive work.
#[derive(Debug)]
pub struct Permit {
    class: WorkClass,
    group: Option<Group>,
    failed: bool,
}

impl Permit {
    /// The work class the permit was granted for.
    pub closed spec fn class_of(&self) -> WorkClass {
        self.class
    }

    /// The work was marked as failed.
    pub closed spec fn is_failed(&self) -> bool {
        self.failed
    }

    /// The permit holds its class's group.
    pub closed spec fn holds_group(&self) -> bool {
        self.group == class_group(self.class)
    }

    /// Marks the work as failed; its release counts it as a failure.
    pub fn mark_failed(&mut self)
        requires
            old(self).holds_group(),
        ensures
            final(self).is_failed(),
            final(self).class_of() == old(self).class_of(),
            final(self).holds_group(),
    {
        self.failed = true;
    }

    /// The work class the permit was granted for.
    pub fn class(&self) -> (c: WorkClass)
        ensures
            c == self.class_of(),
    {
        self.class
    }
}

/// The outcome of one admission check.
pub enum Admission {
    /// The permit was granted.
    Granted(Permit),
    /// The request must wait for a change.
    Wait,
    /// The coordinator is shutting down; the request was withdrawn.
    Rejected(String),
}

/// Diagnostics percentiles of one work class's durations.
#[derive(Debug, Clone, Copy, PartialEq, Eq, Default)]
pub struct DurationPercentiles {
    pub p50: u64,
    pub p95: u64,
}

/// A snapshot of the coordinator for diagnostics.
#[derive(Debug, Clone, PartialEq, Eq, Default)]
pub struct WorkloadDiagnostics {
    pub active_operations: Vec<String>,
    pub queued_operation_count: u64,
    pub coalesced_requests: u64,
    pub cancelled_or_superseded_requests: u64,
    pub background_decisions_avoided: u64,
    pub duration_percentiles_ms: Vec<(String, DurationPercentiles)>,
}

impl WorkClass {
    /// The priority of this class.
    pub fn priority(self) -> (p: Priority)
        ensures
            p == class_priority(self),
    {
        match self {
            WorkClass::ManualContinue | WorkClass::ScreenshotCapture => Priority::User,
            WorkClass::IslandRefresh | WorkClass::AccessibilitySnapshot | WorkClass::Ocr => {
                Priority::High
            },
            WorkClass::DerivedEvidenceUpdate => Priority::Normal,
            WorkClass::BackgroundContinue | WorkClass::AuditExport
            | WorkClass::MaintenanceCleanup => Priority::Low,
            WorkClass::CheapStatusRead | WorkClass::EventIngest => Priority::High,
        }
    }

    /// The group of this class, if it is coordinated.
    pub fn group(self) -> (g: Option<Group>)
        ensures
            g == class_group(self),
    {
        match self {
            WorkClass::ManualContinue | WorkClass::BackgroundContinue | WorkClass::IslandRefresh => {
                Some(Group::Continue)
            },
            WorkClass::ScreenshotCapture | WorkClass::AccessibilitySnapshot | WorkClass::Ocr => {
                Some(Group::Capture)
            },
            WorkClass::AuditExport => Some(Group::Audit),
            WorkClass::MaintenanceCleanup => Some(Group::Maintenance),
            WorkClass::DerivedEvidenceUpdate => Some(Group::Derived),
            WorkClass::CheapStatusRead | WorkClass::EventIngest => None,
        }
    }

    /// Position of this class in the per-class tables.
    pub fn index(self) -> (i: usize)
        ensures
            i == class_index(self),
            i < 11,
    {
        match self {
            WorkClass::CheapStatusRead => 0,
            WorkClass::EventIngest => 1,
            WorkClass::AccessibilitySnapshot => 2,
            WorkClass::ScreenshotCapture => 3,
            WorkClass::Ocr => 4,
            WorkClass::DerivedEvidenceUpdate => 5,
            WorkClass::BackgroundContinue => 6,
            WorkClass::ManualContinue => 7,
            WorkClass::IslandRefresh => 8,
            WorkClass::AuditExport => 9,
            WorkClass::MaintenanceCleanup => 10,
        }
    }

    /// The lowercase name of this class.
    pub fn label(self) -> (s: &'static str)
        ensures
            s@ == class_label(self),
    {
        match self {
            WorkClass::CheapStatusRead => "cheapstatusread",
            WorkClass::EventIngest => "eventingest",
            WorkClass::AccessibilitySnapshot => "accessibilitysnapshot",
            WorkClass::ScreenshotCapture => "screenshotcapture",
            WorkClass::Ocr => "ocr",
            WorkClass::DerivedEvidenceUpdate => "derivedevidenceupdate",
            WorkClass::BackgroundContinue => "backgroundcontinue",
            WorkClass::ManualContinue => "manualcontinue",
            WorkClass::IslandRefresh => "islandrefresh",
            WorkClass::AuditExport => "auditexport",
            WorkClass::MaintenanceCleanup => "maintenancecleanup",
        }
    }
}

impl Group {
    /// Position of this group in the table of active work.
    pub fn index(self) -> (i: usize)
        ensures
            i == group_index(self),
            i < 5,
    {
        match self {
            Group::Continue => 0,
            Group::Capture => 1,
            Group::Audit => 2,
            Group::Maintenance => 3,
            Group::Derived => 4,
        }
    }
}

/// `allowed_with_active`.
pub fn allowed_with_active(active: &Vec<Option<WorkClass>>, class: WorkClass) -> (b: bool)
    requires
        active@.len() == 5,
    ensures
        b == allowed(active@, class),
{
    let group = match class.group() {
        None => return true,
        Some(g) => g,
    };
    if active[group.index()].is_some() {
        return false;
    }
    let continue_busy = active[0].is_some();
    let capture_busy = active[1].is_some();
    let audit_busy = active[2].is_some();
    let maintenance_busy = active[3].is_some();
    match class {
        WorkClass::ManualContinue => true,
        WorkClass::IslandRefresh => !capture_busy,
        WorkClass::BackgroundContinue => !capture_busy && !audit_busy && !maintenance_busy,
        WorkClass::ScreenshotCapture | WorkClass::AccessibilitySnapshot | WorkClass::Ocr => {
            !continue_busy
        },
        WorkClass::AuditExport | WorkClass::MaintenanceCleanup => !continue_busy && !capture_busy,
        WorkClass::DerivedEvidenceUpdate => !maintenance_busy,
        WorkClass::CheapStatusRead | WorkClass::EventIngest => true,
    }
}

/// A vector of `n` copies of `x`.
fn filled<T: Copy>(n: usize, x: T) -> (v: Vec<T>)
    ensures
        v@ == Seq::new(n as nat, |i: int| x),
{
    let mut v: Vec<T> = Vec::new();
    let mut i: usize = 0;
    while i < n
        invariant
            i <= n,
            v@ == Seq::new(i as nat, |k: int| x),
        decreases n - i,
    {
        v.push(x);
        i = i + 1;
        assert(v@ =~= Seq::new(i as nat, |k: int| x));
    }
    v
}

/// Every transition keeps the coordinator's invariant: a request joins
/// under a fresh number, a grant puts the class in its own group's slot, and
/// withdrawals, releases, shutdown and coalescing keep the tables' shapes.
pub proof fn law_transitions_keep_invariant(m: GovernorModel, id: u64, class: WorkClass, failed: bool, elapsed_ms: u64, background_avoided: bool)
    requires
        model_wf(m),
    ensures
        class_group(class) is Some && m.next_id < u64::MAX ==> model_wf(requested(m, class)),
        class_group(class) is Some ==> model_wf(granted(m, id, class)),
        model_wf(withdrawn(m, id)),
        model_wf(released(m, class, failed, elapsed_ms)),
        model_wf(coalesced_noted(m, background_avoided)),
        model_wf(shut_down(m)),
{
    lemma_without(m.queue, id);
    let w = without(m.queue, id);
    assert forall|k: int| 0 <= k < w.len() implies {
        let x = #[trigger] w[k];
        &&& x.id <= m.next_id
        &&& x.priority == class_priority(x.class)
        &&& class_group(x.class) is Some
    } by {
        let j = choose|j: int| 0 <= j < m.queue.len() && m.queue[j] == w[k];
        assert(m.queue[j] == w[k]);
    }
    if class_group(class) is Some && m.next_id < u64::MAX {
        let r = requested(m, class);
        assert forall|i: int, j: int|
            0 <= i < j < r.queue.len() implies (#[trigger] r.queue[i]).id != (#[trigger] r.queue[j]).id by {
            if j == m.queue.len() {
                assert(m.queue[i] == r.queue[i]);
            } else {
                assert(m.queue[i] == r.queue[i] && m.queue[j] == r.queue[j]);
            }
        }
        assert forall|k: int| 0 <= k < r.queue.len() implies {
            let x = #[trigger] r.queue[k];
            &&& x.id <= r.next_id
            &&& x.priority == class_priority(x.class)
            &&& class_group(x.class) is Some
        } by {
            if k < m.queue.len() {
                assert(m.queue[k] == r.queue[k]);
            }
        }
    }
    if class_group(class) is Some {
        let g = granted(m, id, class);
        assert forall|i: int| 0 <= i < 5 implies match #[trigger] g.active[i] {
            Some(c) => class_group(c) == Some(group_at(i)),
            None => true,
        } by {
            if i != slot_of(class) {
                assert(g.active[i] == m.active[i]);
            }
        }
    }
    let rl = released(m, class, failed, elapsed_ms);
    assert forall|i: int| 0 <= i < 5 implies match #[trigger] rl.active[i] {
        Some(c) => class_group(c) == Some(group_at(i)),
        None => true,
    } by {
        if class_group(class) is Some && i != slot_of(class) {
            assert(rl.active[i] == m.active[i]);
        }
    }
    assert forall|i: int| 0 <= i < 11 implies (#[trigger] rl.durations_ms[i]).len() <= MAX_DURATION_SAMPLES by {
        if i != class_index(class) {
            assert(rl.durations_ms[i] == m.durations_ms[i]);
        }
    }
}

/// An empty duration history for each of `n` classes.
fn empty_histories(n: usize) -> (v: Vec<Vec<u64>>)
    ensures
        v@.map_values(|h: Vec<u64>| h@) == Seq::new(n as nat, |i: int| Seq::<u64>::empty()),
{
    let mut v: Vec<Vec<u64>> = Vec::new();
    let mut i: usize = 0;
    while i < n
        invariant
            i <= n,
            v@.len() == i,
            forall|k: int| 0 <= k < i ==> (#[trigger] v@[k])@ == Seq::<u64>::empty(),
        decreases n - i,
    {
        let e: Vec<u64> = Vec::new();
        v.push(e);
        i = i + 1;
    }
    assert(v@.map_values(|h: Vec<u64>| h@) =~= Seq::new(n as nat, |k: int| Seq::<u64>::empty()));
    v
}

/// `queue` without the request `id`.
fn remove_request(queue: &Vec<Waiter>, id: u64) -> (r: Vec<Waiter>)
    ensures
        r@ == without(queue@, id),
{
    let mut r: Vec<Waiter> = Vec::new();
    let mut i: usize = 0;
    while i < queue.len()
        invariant
            i <= queue@.len(),
            r@ == without(queue@.take(i as int), id),
        decreases queue@.len() - i,
    {
        let w = queue[i];
        assert(queue@.take(i as int + 1).drop_last() =~= queue@.take(i as int));
        if w.id != id {
            r.push(w);
        }
        i = i + 1;
    }
    assert(queue@.take(queue@.len() as int) =~= queue@);
    r
}

/// The message of a request refused during shutdown.
fn shutdown_error() -> (s: String)
    ensures
        s@ == shutdown_message(),
{
    copy_str("workload governor is shutting down")
}

/// The message of a request of `class` that gave up waiting.
fn timeout_error(class: WorkClass) -> (s: String)
    ensures
        s@ == timeout_message(class),
{
    concat("workload governor timed out waiting for ", class.label())
}

impl Priority {
    /// The numeric weight of this priority.
    pub fn weight(self) -> (w: u8)
        ensures
            w == rank(self),
    {
        match self {
            Priority::Low => 1,
            Priority::Normal => 2,
            Priority::High => 3,
            Priority::User => 4,
        }
    }
}

/// `a` goes before `b`.
fn goes_before(a: Waiter, b: Waiter) -> (r: bool)
    ensures
        r == outranks(a, b),
{
    let wa = a.priority.weight();
    let wb = b.priority.weight();
    wa > wb || (wa == wb && a.id < b.id)
}

/// At most one waiter is the best one.
pub proof fn lemma_best_unique(active: Seq<Option<WorkClass>>, queue: Seq<Waiter>, i: int, j: int)
    requires
        best_at(active, queue, i),
        best_at(active, queue, j),
    ensures
        i == j,
{
    if i != j {
        assert(outranks(queue[i], queue[j]));
        assert(outranks(queue[j], queue[i]));
    }
}

impl WorkloadGovernor {
    /// A coordinator with no work under way or waiting.
    pub fn new() -> (g: Self)
        ensures
            g@ == initial_model(),
            model_wf(g@),
    {
        let g = WorkloadGovernor {
            next_id: 0,
            active: filled(5, None),
            queue: Vec::new(),
            started: filled(11, 0u64),
            completed: filled(11, 0u64),
            failed: filled(11, 0u64),
            coalesced: 0,
            cancelled_or_superseded: 0,
            background_decisions_avoided: 0,
            durations_ms: empty_histories(11),
            shutting_down: false,
        };
        assert(g@ =~= initial_model());
        g
    }

    /// The waiter that starts next, if any may start.
    fn next_waiter(&self) -> (r: Option<usize>)
        requires
            model_wf(self@),
        ensures
            match r {
                Some(b) => best_at(self@.active, self@.queue, b as int),
                None => forall|i: int|
                    0 <= i < self@.queue.len() ==> !allowed(self@.active, #[trigger] self@.queue[i].class),
            },
    {
        let mut best: Option<usize> = None;
        let mut k: usize = 0;
        while k < self.queue.len()
            invariant
                model_wf(self@),
                k <= self.queue@.len(),
                match best {
                    Some(b) => {
                        &&& b < k
                        &&& allowed(self@.active, self@.queue[b as int].class)
                        &&& forall|j: int|
                            0 <= j < k && j != b && allowed(self@.active, #[trigger] self@.queue[j].class)
                                ==> outranks(self@.queue[b as int], self@.queue[j])
                    },
                    None => forall|j: int|
                        0 <= j < k ==> !allowed(self@.active, #[trigger] self@.queue[j].class),
                },
            decreases self.queue@.len() - k,
        {
            let w = self.queue[k];
            if allowed_with_active(&self.active, w.class) {
                match best {
                    None => {
                        best = Some(k);
                    },
                    Some(b) => {
                        if goes_before(w, self.queue[b]) {
                            assert forall|j: int|
                                0 <= j < k + 1 && j != k && allowed(self@.active, #[trigger] self@.queue[j].class)
                                    implies outranks(self@.queue[k as int], self@.queue[j]) by {
                                if j != b {
                                    assert(outranks(self@.queue[b as int], self@.queue[j]));
                                }
                            }
                            best = Some(k);
                        } else {
                            assert(self@.queue[k as int].id != self@.queue[b as int].id);
                        }
                    },
                }
            }
            k = k + 1;
        }
        best
    }

    /// `is_next`, computed.
    fn is_next_request(&self, id: u64) -> (b: bool)
        requires
            model_wf(self@),
        ensures
            b == is_next(self@.active, self@.queue, id),
    {
        match self.next_waiter() {
            Some(i) => {
                let r = self.queue[i].id == id;
                proof {
                    if is_next(self@.active, self@.queue, id) {
                        let j = choose|j: int| #![trigger self@.queue[j]] best_at(self@.active, self@.queue, j) && self@.queue[j].id == id;
                        lemma_best_unique(self@.active, self@.queue, i as int, j);
                    }
                }
                r
            },
            None => false,
        }
    }

    /// Puts a request of `class` in the queue and returns its number, unless
    /// the coordinator is shutting down.
    pub fn request(&mut self, class: WorkClass) -> (r: Result<u64, String>)
        requires
            model_wf(old(self)@),
            old(self)@.next_id < u64::MAX,
            class_group(class) is Some,
        ensures
            model_wf(final(self)@),
            final(self)@ == step(old(self)@, GovernorStep::Request(class)),
            old(self)@.shutting_down ==> r is Err && r->Err_0@ == shutdown_message() && final(self)@ == old(self)@,
            !old(self)@.shutting_down ==> r == Ok::<u64, String>(requested(old(self)@, class).next_id)
                && final(self)@ == requested(old(self)@, class),
    {
        if self.shutting_down {
            return Err(shutdown_error());
        }
        proof {
            law_transitions_keep_invariant(self@, 0, class, false, 0, false);
        }
        self.next_id = self.next_id + 1;
        let id = self.next_id;
        self.queue.push(Waiter { id, class, priority: class.priority() });
        assert(self@ =~= requested(old(self)@, class));
        Ok(id)
    }

    /// Decides one waiting request: during shutdown it is withdrawn and
    /// refused; if it may start and goes before every other request that
    /// may, it starts; otherwise it keeps waiting.
    pub fn try_admit(&mut self, id: u64, class: WorkClass) -> (a: Admission)
        requires
            model_wf(old(self)@),
            queued(old(self)@.queue, id, class),
            old(self)@.cancelled_or_superseded < u64::MAX,
            old(self)@.started[class_index(class)] < u64::MAX,
        ensures
            model_wf(final(self)@),
            final(self)@ == step(old(self)@, GovernorStep::Admit(id, class)),
            match a {
                Admission::Granted(p) => {
                    &&& !old(self)@.shutting_down
                    &&& is_next(old(self)@.active, old(self)@.queue, id)
                    &&& p.class_of() == class
                    &&& p.holds_group()
                    &&& !p.is_failed()
                    &&& final(self)@ == granted(old(self)@, id, class)
                },
                Admission::Wait => {
                    &&& !old(self)@.shutting_down
                    &&& !is_next(old(self)@.active, old(self)@.queue, id)
                    &&& final(self)@ == old(self)@
                },
                Admission::Rejected(msg) => {
                    &&& old(self)@.shutting_down
                    &&& msg@ == shutdown_message()
                    &&& final(self)@ == withdrawn(old(self)@, id)
                },
            },
    {
        proof {
            law_transitions_keep_invariant(self@, id, class, false, 0, false);
        }
        let ghost i = choose|i: int| 0 <= i < self@.queue.len() && #[trigger] self@.queue[i] == waiter_for(id, class);
        if self.shutting_down {
            self.queue = remove_request(&self.queue, id);
            self.cancelled_or_superseded = self.cancelled_or_superseded + 1;
            assert(self@ =~= withdrawn(old(self)@, id));
            return Admission::Rejected(shutdown_error());
        }
        if !self.is_next_request(id) {
            return Admission::Wait;
        }
        assert(class_group(self@.queue[i].class) is Some);
        let group = match class.group() {
            Some(g) => g,
            None => return Admission::Wait,
        };
        self.queue = remove_request(&self.queue, id);
        self.active.set(group.index(), Some(class));
        let ci = class.index();
        let n = self.started[ci];
        self.started.set(ci, n + 1);
        assert(self@ =~= granted(old(self)@, id, class));
        Admission::Granted(Permit { class, group: Some(group), failed: false })
    }

    /// Withdraws a waiting request that gave up, and returns the message
    /// that says so.
    pub fn cancel(&mut self, id: u64, class: WorkClass) -> (msg: String)
        requires
            model_wf(old(self)@),
            old(self)@.cancelled_or_superseded < u64::MAX,
        ensures
            model_wf(final(self)@),
            final(self)@ == step(old(self)@, GovernorStep::Cancel(id)),
            final(self)@ == withdrawn(old(self)@, id),
            msg@ == timeout_message(class),
    {
        proof {
            law_transitions_keep_invariant(self@, id, class, false, 0, false);
        }
        self.queue = remove_request(&self.queue, id);
        self.cancelled_or_superseded = self.cancelled_or_superseded + 1;
        assert(self@ =~= withdrawn(old(self)@, id));
        timeout_error(class)
    }

    /// Ends the work of a permit after `elapsed_ms` milliseconds.
    pub fn release(&mut self, permit: Permit, elapsed_ms: u64)
        requires
            model_wf(old(self)@),
            permit.holds_group(),
            old(self)@.completed[class_index(permit.class_of())] < u64::MAX,
            old(self)@.failed[class_index(permit.class_of())] < u64::MAX,
        ensures
            model_wf(final(self)@),
            old(self)@.active[slot_of(permit.class_of())] == Some(permit.class_of()) || class_group(
                permit.class_of(),
            ) is None ==> final(self)@ == step(
                old(self)@,
                GovernorStep::Release(permit.class_of(), permit.is_failed(), elapsed_ms),
            ),
            final(self)@ == released(old(self)@, permit.class_of(), permit.is_failed(), elapsed_ms),
    {
        proof {
            law_transitions_keep_invariant(self@, 0, permit.class_of(), permit.is_failed(), elapsed_ms, false);
        }
        let class = permit.class;
        match permit.group {
            Some(g) => {
                self.active.set(g.index(), None);
            },
            None => {},
        }
        let ci = class.index();
        let n = self.completed[ci];
        self.completed.set(ci, n + 1);
        if permit.failed {
            let f = self.failed[ci];
            self.failed.set(ci, f + 1);
        }
        let recent = recent_samples(&self.durations_ms[ci], elapsed_ms);
        self.durations_ms.set(ci, recent);
        assert(self@.durations_ms =~= old(self)@.durations_ms.update(
            ci as int,
            keep_recent(old(self)@.durations_ms[ci as int].push(elapsed_ms)),
        ));
        assert(self@ =~= released(old(self)@, class, permit.failed, elapsed_ms));
    }

    /// Counts a request that work already under way served.
    pub fn note_coalesced(&mut self, background_avoided: bool)
        requires
            model_wf(old(self)@),
            old(self)@.coalesced < u64::MAX,
            old(self)@.background_decisions_avoided < u64::MAX,
        ensures
            model_wf(final(self)@),
            final(self)@ == step(old(self)@, GovernorStep::Coalesce(background_avoided)),
            final(self)@ == coalesced_noted(old(self)@, background_avoided),
    {
        self.coalesced = self.coalesced + 1;
        if background_avoided {
            self.background_decisions_avoided = self.background_decisions_avoided + 1;
        }
        assert(self@ =~= coalesced_noted(old(self)@, background_avoided));
    }

    /// Stops admitting work.
    pub fn shutdown(&mut self)
        requires
            model_wf(old(self)@),
            old(self)@.cancelled_or_superseded + old(self)@.queue.len() <= u64::MAX,
        ensures
            model_wf(final(self)@),
            final(self)@ == step(old(self)@, GovernorStep::Shutdown),
            final(self)@ == shut_down(old(self)@),
    {
        self.shutting_down = true;
        let n = self.queue.len() as u64;
        self.cancelled_or_superseded = self.cancelled_or_superseded + n;
        assert(self@ =~= shut_down(old(self)@));
    }
}

/// The history `samples` with `x` recorded last, trimmed to its most recent
/// `MAX_DURATION_SAMPLES` entries.
fn recent_samples(samples: &Vec<u64>, x: u64) -> (r: Vec<u64>)
    ensures
        r@ == keep_recent(samples@.push(x)),
{
    let mut all: Vec<u64> = Vec::new();
    let mut i: usize = 0;
    while i < samples.len()
        invariant
            i <= samples@.len(),
            all@ == samples@.take(i as int),
        decreases samples@.len() - i,
    {
        all.push(samples[i]);
        i = i + 1;
        assert(all@ =~= samples@.take(i as int));
    }
    assert(samples@.take(samples@.len() as int) =~= samples@);
    all.push(x);
    if all.len() <= MAX_DURATION_SAMPLES {
        return all;
    }
    let start = all.len() - MAX_DURATION_SAMPLES;
    let mut r: Vec<u64> = Vec::new();
    let mut j: usize = start;
    while j < all.len()
        invariant
            start <= j <= all@.len(),
            start == all@.len() - MAX_DURATION_SAMPLES,
            r@ == all@.subrange(start as int, j as int),
        decreases all@.len() - j,
    {
        r.push(all[j]);
        j = j + 1;
        assert(r@ =~= all@.subrange(start as int, j as int));
    }
    r
}

/// The labels of the active work, in group order.
pub open spec fn active_labels(active: Seq<Option<WorkClass>>) -> Seq<Seq<char>>
    decreases active.len(),
{
    if active.len() == 0 {
        Seq::empty()
    } else {
        let prev = active_labels(active.drop_last());
        match active.last() {
            Some(c) => prev.push(class_label(c)),
            None => prev,
        }
    }
}

/// The work classes in the order of their labels.
pub open spec fn label_order(i: int) -> WorkClass {
    if i == 0 {
        WorkClass::AccessibilitySnapshot
    } else if i == 1 {
        WorkClass::AuditExport
    } else if i == 2 {
        WorkClass::BackgroundContinue
    } else if i == 3 {
        WorkClass::CheapStatusRead
    } else if i == 4 {
        WorkClass::DerivedEvidenceUpdate
    } else if i == 5 {
        WorkClass::EventIngest
    } else if i == 6 {
        WorkClass::IslandRefresh
    } else if i == 7 {
        WorkClass::MaintenanceCleanup
    } else if i == 8 {
        WorkClass::ManualContinue
    } else if i == 9 {
        WorkClass::Ocr
    } else {
        WorkClass::ScreenshotCapture
    }
}

/// Among the first `k` classes in label order, those with recorded
/// durations.
pub open spec fn reported_classes(durations: Seq<Seq<u64>>, k: int) -> Seq<WorkClass>
    decreases k,
{
    if k <= 0 {
        Seq::empty()
    } else {
        let prev = reported_classes(durations, k - 1);
        let c = label_order(k - 1);
        if durations[class_index(c)].len() > 0 {
            prev.push(c)
        } else {
            prev
        }
    }
}

/// The percentiles reported for the samples `s`: the samples at ranks
/// `(n - 1) * 50 / 100` and `(n - 1) * 95 / 100` in ascending order.
pub open spec fn reports_percentiles(s: Seq<u64>, p: DurationPercentiles) -> bool {
    &&& order_statistic(s, (s.len() - 1) * 50 / 100, p.p50)
    &&& order_statistic(s, (s.len() - 1) * 95 / 100, p.p95)
}

/// The class at position `i` in label order.
fn class_in_label_order(i: usize) -> (c: WorkClass)
    ensures
        c == label_order(i as int),
{
    if i == 0 {
        WorkClass::AccessibilitySnapshot
    } else if i == 1 {
        WorkClass::AuditExport
    } else if i == 2 {
        WorkClass::BackgroundContinue
    } else if i == 3 {
        WorkClass::CheapStatusRead
    } else if i == 4 {
        WorkClass::DerivedEvidenceUpdate
    } else if i == 5 {
        WorkClass::EventIngest
    } else if i == 6 {
        WorkClass::IslandRefresh
    } else if i == 7 {
        WorkClass::MaintenanceCleanup
    } else if i == 8 {
        WorkClass::ManualContinue
    } else if i == 9 {
        WorkClass::Ocr
    } else {
        WorkClass::ScreenshotCapture
    }
}

/// The samples in ascending order.
fn sorted_samples(v: &Vec<u64>) -> (s: Vec<u64>)
    ensures
        ascending(s@),
        s@.to_multiset() == v@.to_multiset(),
        s@.len() == v@.len(),
{
    let mut s: Vec<u64> = Vec::new();
    let mut i: usize = 0;
    assert(v@.take(0) =~= s@);
    while i < v.len()
        invariant
            i <= v@.len(),
            ascending(s@),
            s@.len() == i,
            s@.to_multiset() == v@.take(i as int).to_multiset(),
        decreases v@.len() - i,
    {
        let x = v[i];
        let mut pos: usize = 0;
        while pos < s.len() && s[pos] <= x
            invariant
                pos <= s@.len(),
                forall|k: int| 0 <= k < pos ==> s@[k] <= x,
            decreases s@.len() - pos,
        {
            pos = pos + 1;
        }
        let ghost before = s@;
        s.insert(pos, x);
        assert(s@ == before.insert(pos as int, x));
        assert forall|a: int, b: int| 0 <= a <= b < s@.len() implies s@[a] <= s@[b] by {
            if a < pos as int && b > pos as int {
                assert(s@[a] == before[a] && s@[b] == before[b - 1]);
            } else if b < pos as int {
                assert(s@[a] == before[a] && s@[b] == before[b]);
            } else if a > pos as int {
                assert(s@[a] == before[a - 1] && s@[b] == before[b - 1]);
            } else if a == pos as int && b > pos as int {
                assert(s@[b] == before[b - 1]);
                assert(pos < before.len());
                assert(!(before[pos as int] <= x));
            } else if b == pos as int && a < pos as int {
                assert(s@[a] == before[a]);
            }
        }
        proof {
            vstd::seq_lib::to_multiset_insert(before, pos as int, x);
            assert(v@.take(i as int + 1) =~= v@.take(i as int).push(x));
            vstd::seq_lib::to_multiset_build(v@.take(i as int), x);
        }
        i = i + 1;
    }
    assert(v@.take(v@.len() as int) =~= v@);
    s
}

/// The percentiles of a non-empty duration history.
fn percentiles(samples: &Vec<u64>) -> (p: DurationPercentiles)
    requires
        0 < samples@.len() <= MAX_DURATION_SAMPLES,
    ensures
        reports_percentiles(samples@, p),
{
    let sorted = sorted_samples(samples);
    let n = sorted.len();
    let p50 = sorted[(n - 1) * 50 / 100];
    let p95 = sorted[(n - 1) * 95 / 100];
    proof {
        let t = sorted@;
        assert(t.to_multiset() == samples@.to_multiset());
    }
    DurationPercentiles { p50, p95 }
}

impl WorkloadGovernor {
    /// Requests a permit for `class` and gives up at once if it cannot start:
    /// with one owner nothing else can free a group while it waits, so the
    /// outcome does not depend on how long it would wait. Cheap classes get a
    /// permit without coordination.
    pub fn acquire_with_timeout(&mut self, class: WorkClass, timeout_ms: u64) -> (r: Result<Permit, String>)
        requires
            model_wf(old(self)@),
            old(self)@.next_id < u64::MAX,
            old(self)@.cancelled_or_superseded < u64::MAX,
            old(self)@.started[class_index(class)] < u64::MAX,
        ensures
            model_wf(final(self)@),
            final(self)@ == run(old(self)@, acquire_steps(old(self)@, class)),
            final(self)@.queue == old(self)@.queue,
            class_group(class) is None ==> {
                &&& r is Ok
                &&& r->Ok_0.class_of() == class
                &&& r->Ok_0.holds_group()
                &&& !r->Ok_0.is_failed()
                &&& final(self)@ == old(self)@
            },
            class_group(class) is Some && old(self)@.shutting_down ==> {
                &&& r is Err
                &&& r->Err_0@ == shutdown_message()
                &&& final(self)@ == old(self)@
            },
            class_group(class) is Some && !old(self)@.shutting_down ==> {
                let m = requested(old(self)@, class);
                if is_next(m.active, m.queue, m.next_id) {
                    &&& r is Ok
                    &&& r->Ok_0.class_of() == class
                    &&& r->Ok_0.holds_group()
                    &&& !r->Ok_0.is_failed()
                    &&& final(self)@ == granted(m, m.next_id, class)
                } else {
                    &&& r is Err
                    &&& r->Err_0@ == timeout_message(class)
                    &&& final(self)@ == withdrawn(m, m.next_id)
                }
            },
    {
        if class.group().is_none() {
            return Ok(Permit { class, group: None, failed: false });
        }
        let id = match self.request(class) {
            Ok(id) => id,
            Err(e) => {
                proof {
                    reveal_with_fuel(run, 2);
                    assert(seq![GovernorStep::Request(class)].drop_last() =~= Seq::<GovernorStep>::empty());
                }
                return Err(e);
            },
        };
        let ghost m = self@;
        proof {
            let q = old(self)@.queue;
            assert(m.queue[q.len() as int] == waiter_for(id, class));
            assert(m.queue.drop_last() =~= q);
            lemma_without(q, id);
            assert forall|k: int| 0 <= k < q.len() implies (#[trigger] q[k]).id != id by {}
            assert(without(m.queue, id) == q);
        }
        let ghost m0 = old(self)@;
        proof {
            reveal_with_fuel(run, 4);
            assert(seq![GovernorStep::Request(class), GovernorStep::Admit(id, class)].drop_last()
                =~= seq![GovernorStep::Request(class)]);
            assert(seq![GovernorStep::Request(class)].drop_last() =~= Seq::<GovernorStep>::empty());
            assert(seq![GovernorStep::Request(class), GovernorStep::Admit(id, class), GovernorStep::Cancel(id)].drop_last()
                =~= seq![GovernorStep::Request(class), GovernorStep::Admit(id, class)]);
        }
        match self.try_admit(id, class) {
            Admission::Granted(p) => Ok(p),
            Admission::Wait => Err(self.cancel(id, class)),
            Admission::Rejected(e) => Err(e),
        }
    }

    /// Requests a permit for `class`; the request must be able to start now
    /// (or be refused by shutdown), since with one owner a wait would never
    /// end.
    pub fn acquire(&mut self, class: WorkClass) -> (r: Result<Permit, String>)
        requires
            model_wf(old(self)@),
            old(self)@.next_id < u64::MAX,
            old(self)@.cancelled_or_superseded < u64::MAX,
            old(self)@.started[class_index(class)] < u64::MAX,
            class_group(class) is Some && !old(self)@.shutting_down ==> is_next(
                requested(old(self)@, class).active,
                requested(old(self)@, class).queue,
                requested(old(self)@, class).next_id,
            ),
        ensures
            model_wf(final(self)@),
            final(self)@ == run(old(self)@, acquire_steps(old(self)@, class)),
            final(self)@.queue == old(self)@.queue,
            class_group(class) is None ==> {
                &&& r is Ok
                &&& r->Ok_0.class_of() == class
                &&& r->Ok_0.holds_group()
                &&& !r->Ok_0.is_failed()
                &&& final(self)@ == old(self)@
            },
            class_group(class) is Some && old(self)@.shutting_down ==> {
                &&& r is Err
                &&& r->Err_0@ == shutdown_message()
                &&& final(self)@ == old(self)@
            },
            class_group(class) is Some && !old(self)@.shutting_down ==> {
                let m = requested(old(self)@, class);
                &&& r is Ok
                &&& r->Ok_0.class_of() == class
                &&& r->Ok_0.holds_group()
                &&& !r->Ok_0.is_failed()
                &&& final(self)@ == granted(m, m.next_id, class)
            },
    {
        self.acquire_with_timeout(class, 0)
    }

    /// Whether the coordinator's own counters have room for one more
    /// request, withdrawal, coalesced request or shutdown.
    pub fn counters_have_room(&self) -> (b: bool)
        ensures
            b == (self@.next_id < u64::MAX && self@.cancelled_or_superseded + self@.queue.len()
                < u64::MAX && self@.coalesced < u64::MAX && self@.background_decisions_avoided
                < u64::MAX),
    {
        self.next_id < u64::MAX && (self.queue.len() as u128) + (self.cancelled_or_superseded as u128)
            < u64::MAX as u128 && self.coalesced < u64::MAX && self.background_decisions_avoided
            < u64::MAX
    }

    /// Whether the counters of `class` have room for one more start and one
    /// more completion or failure.
    pub fn class_counters_have_room(&self, class: WorkClass) -> (b: bool)
        requires
            model_wf(self@),
        ensures
            b == (self@.started[class_index(class)] < u64::MAX && self@.completed[class_index(class)]
                < u64::MAX && self@.failed[class_index(class)] < u64::MAX),
    {
        let ci = class.index();
        self.started[ci] < u64::MAX && self.completed[ci] < u64::MAX && self.failed[ci] < u64::MAX
    }

    /// A snapshot of the coordinator: the active work by group, the number
    /// of waiting requests, the counters, and the duration percentiles of
    /// each class with recorded durations, in label order.
    pub fn diagnostics(&self) -> (d: WorkloadDiagnostics)
        requires
            model_wf(self@),
        ensures
            reports(self@, d),
    {
        let mut active_operations: Vec<String> = Vec::new();
        let mut g: usize = 0;
        while g < 5
            invariant
                model_wf(self@),
                g <= 5,
                strs(active_operations@) == active_labels(self@.active.take(g as int)),
            decreases 5 - g,
        {
            assert(self@.active.take(g as int + 1).drop_last() =~= self@.active.take(g as int));
            match self.active[g] {
                Some(c) => {
                    active_operations.push(copy_str(c.label()));
                },
                None => {},
            }
            g = g + 1;
            assert(strs(active_operations@) =~= active_labels(self@.active.take(g as int)));
        }
        assert(self@.active.take(5) =~= self@.active);
        let mut duration_percentiles_ms: Vec<(String, DurationPercentiles)> = Vec::new();
        let mut k: usize = 0;
        while k < 11
            invariant
                model_wf(self@),
                k <= 11,
                duration_percentiles_ms@.len() == reported_classes(self@.durations_ms, k as int).len(),
                forall|i: int|
                    0 <= i < duration_percentiles_ms@.len() ==> {
                        let c = reported_classes(self@.durations_ms, k as int)[i];
                        &&& (#[trigger] duration_percentiles_ms@[i]).0@ == class_label(c)
                        &&& reports_percentiles(
                            self@.durations_ms[class_index(c)],
                            duration_percentiles_ms@[i].1,
                        )
                    },
            decreases 11 - k,
        {
            let c = class_in_label_order(k);
            let ci = c.index();
            let samples = &self.durations_ms[ci];
            assert(samples@ == self@.durations_ms[ci as int]);
            if samples.len() > 0 {
                let p = percentiles(samples);
                duration_percentiles_ms.push((copy_str(c.label()), p));
            }
            k = k + 1;
        }
        WorkloadDiagnostics {
            active_operations,
            queued_operation_count: self.queue.len() as u64,
            coalesced_requests: self.coalesced,
            cancelled_or_superseded_requests: self.cancelled_or_superseded,
            background_decisions_avoided: self.background_decisions_avoided,
            duration_percentiles_ms,
        }
    }
}

impl Default for WorkloadGovernor {
    fn default() -> (g: Self)
        ensures
            g@ == initial_model(),
    {
        WorkloadGovernor::new()
    }
}

/// Work that runs side by side respects the overlap policy: background
/// Continue runs with no capture, audit or maintenance, and an island
/// refresh runs with no capture.
pub open spec fn compatible(active: Seq<Option<WorkClass>>) -> bool {
    &&& active[0] == Some(WorkClass::BackgroundContinue) ==> active[1] is None && active[2] is None
        && active[3] is None
    &&& active[0] == Some(WorkClass::IslandRefresh) ==> active[1] is None
}

/// The overlap policy: a class never starts while its own group is busy;
/// cheap classes are never held back; manual Continue may start whenever the
/// Continue group is free, even while capture finishes; capture never starts
/// while Continue work runs.
pub proof fn law_overlap_policy(active: Seq<Option<WorkClass>>, c: WorkClass)
    requires
        active.len() == 5,
    ensures
        class_group(c) is None ==> allowed(active, c),
        class_group(c) matches Some(g) && occupied(active, g) ==> !allowed(active, c),
        c == WorkClass::ManualContinue ==> (allowed(active, c) <==> !occupied(active, Group::Continue)),
        class_group(c) == Some(Group::Capture) && occupied(active, Group::Continue) ==> !allowed(active, c),
{
}

/// Granting only what the policy allows, and releasing, keep the running
/// work compatible; a fresh coordinator runs nothing.
pub proof fn law_running_work_stays_compatible(m: GovernorModel, id: u64, class: WorkClass, failed: bool, elapsed_ms: u64)
    requires
        model_wf(m),
        compatible(m.active),
    ensures
        compatible(initial_model().active),
        allowed(m.active, class) && class_group(class) is Some ==> compatible(granted(m, id, class).active),
        compatible(released(m, class, failed, elapsed_ms).active),
{
}

/// Among requests that may start, one of higher priority always starts
/// before one of lower priority, and of equal priority the earlier first.
pub proof fn law_priority_order(active: Seq<Option<WorkClass>>, queue: Seq<Waiter>, i: int, j: int)
    requires
        forall|a: int, b: int|
            0 <= a < b < queue.len() ==> (#[trigger] queue[a]).id != (#[trigger] queue[b]).id,
        0 <= i < queue.len(),
        0 <= j < queue.len(),
        i != j,
        allowed(active, queue[i].class),
        allowed(active, queue[j].class),
        outranks(queue[i], queue[j]),
    ensures
        !is_next(active, queue, queue[j].id),
{
    if is_next(active, queue, queue[j].id) {
        let k = choose|k: int| #![trigger queue[k]] best_at(active, queue, k) && queue[k].id == queue[j].id;
        if k != j {
            if k < j {
                assert(queue[k].id != queue[j].id);
            } else {
                assert(queue[j].id != queue[k].id);
            }
        }
        assert(outranks(queue[j], queue[i]));
    }
}

/// Once shutdown begins it never ends, and every request checked after it
/// is refused.
pub proof fn law_shutdown_is_final(m: GovernorModel, id: u64, class: WorkClass, failed: bool, elapsed_ms: u64, background_avoided: bool)
    requires
        m.shutting_down,
    ensures
        shut_down(m).shutting_down,
        requested(m, class).shutting_down,
        granted(m, id, class).shutting_down,
        withdrawn(m, id).shutting_down,
        released(m, class, failed, elapsed_ms).shutting_down,
        coalesced_noted(m, background_avoided).shutting_down,
{
}

/// A release frees its group whether or not the work failed, and leaves the
/// queue alone; a failure only adds to the failure count.
pub proof fn law_failure_does_not_poison(m: GovernorModel, class: WorkClass, elapsed_ms: u64)
    requires
        model_wf(m),
        class_group(class) is Some,
    ensures
        released(m, class, true, elapsed_ms).active == released(m, class, false, elapsed_ms).active,
        !occupied(released(m, class, true, elapsed_ms).active, class_group(class)->0),
        released(m, class, true, elapsed_ms).queue == m.queue,
        released(m, class, true, elapsed_ms).completed == released(m, class, false, elapsed_ms).completed,
{
}

/// `d` reports the coordinator's state `m`: the active work by group, the
/// number of waiting requests, the counters, and the duration percentiles
/// of each class with recorded durations, in label order.
pub open spec fn reports(m: GovernorModel, d: WorkloadDiagnostics) -> bool {
    &&& strs(d.active_operations@) == active_labels(m.active)
    &&& d.queued_operation_count == m.queue.len()
    &&& d.coalesced_requests == m.coalesced
    &&& d.cancelled_or_superseded_requests == m.cancelled_or_superseded
    &&& d.background_decisions_avoided == m.background_decisions_avoided
    &&& d.duration_percentiles_ms@.len() == reported_classes(m.durations_ms, 11).len()
    &&& forall|i: int|
        0 <= i < d.duration_percentiles_ms@.len() ==> {
            let c = reported_classes(m.durations_ms, 11)[i];
            &&& (#[trigger] d.duration_percentiles_ms@[i]).0@ == class_label(c)
            &&& reports_percentiles(m.durations_ms[class_index(c)], d.duration_percentiles_ms@[i].1)
        }
}

/// Two diagnostics report the same thing: the same active work, counts,
/// counters, and labels and percentiles.
pub open spec fn same_report(a: WorkloadDiagnostics, b: WorkloadDiagnostics) -> bool {
    &&& strs(a.active_operations@) == strs(b.active_operations@)
    &&& a.queued_operation_count == b.queued_operation_count
    &&& a.coalesced_requests == b.coalesced_requests
    &&& a.cancelled_or_superseded_requests == b.cancelled_or_superseded_requests
    &&& a.background_decisions_avoided == b.background_decisions_avoided
    &&& a.duration_percentiles_ms@.len() == b.duration_percentiles_ms@.len()
    &&& forall|i: int|
        0 <= i < a.duration_percentiles_ms@.len() ==> (#[trigger] a.duration_percentiles_ms@[i]).0@
            == b.duration_percentiles_ms@[i].0@ && a.duration_percentiles_ms@[i].1
            == b.duration_percentiles_ms@[i].1
}

proof fn lemma_order_statistic_unique(s: Seq<u64>, k: int, v1: u64, v2: u64)
    requires
        order_statistic(s, k, v1),
        order_statistic(s, k, v2),
    ensures
        v1 == v2,
{
    let t1 = choose|t: Seq<u64>|
        #![trigger t.to_multiset()]
        ascending(t) && t.to_multiset() == s.to_multiset() && 0 <= k < t.len() && t[k] == v1;
    let t2 = choose|t: Seq<u64>|
        #![trigger t.to_multiset()]
        ascending(t) && t.to_multiset() == s.to_multiset() && 0 <= k < t.len() && t[k] == v2;
    let leq = |a: u64, b: u64| a <= b;
    assert(vstd::relations::sorted_by(t1, leq)) by {
        assert forall|i: int, j: int| 0 <= i < j < t1.len() implies #[trigger] leq(t1[i], t1[j]) by {}
    }
    assert(vstd::relations::sorted_by(t2, leq)) by {
        assert forall|i: int, j: int| 0 <= i < j < t2.len() implies #[trigger] leq(t2[i], t2[j]) by {}
    }
    assert(vstd::relations::total_ordering(leq));
    vstd::seq_lib::lemma_sorted_unique(t1, t2, leq);
}

/// Diagnostics are a function of the coordinator's state: taking them
/// changes nothing (they read the coordinator), and two taken with nothing
/// in between report the same thing.
pub proof fn law_diagnostics_are_determined(m: GovernorModel, a: WorkloadDiagnostics, b: WorkloadDiagnostics)
    requires
        reports(m, a),
        reports(m, b),
    ensures
        same_report(a, b),
{
    assert forall|i: int| 0 <= i < a.duration_percentiles_ms@.len() implies (#[trigger] a.duration_percentiles_ms@[i]).0@
        == b.duration_percentiles_ms@[i].0@ && a.duration_percentiles_ms@[i].1
        == b.duration_percentiles_ms@[i].1 by {
        let c = reported_classes(m.durations_ms, 11)[i];
        let s = m.durations_ms[class_index(c)];
        let pa = a.duration_percentiles_ms@[i].1;
        let pb = b.duration_percentiles_ms@[i].1;
        assert(reports_percentiles(s, pb));
        lemma_order_statistic_unique(s, (s.len() - 1) * 50 / 100, pa.p50, pb.p50);
        lemma_order_statistic_unique(s, (s.len() - 1) * 95 / 100, pa.p95, pb.p95);
    }
}

/// Counting a coalesced request adds one to the coalesced requests, and one
/// to the background decisions avoided when it avoided one; every other
/// thing the diagnostics report stays as it was.
pub proof fn law_coalescing_only_counts(
    m: GovernorModel,
    background_avoided: bool,
    before: WorkloadDiagnostics,
    after: WorkloadDiagnostics,
)
    requires
        m.coalesced < u64::MAX,
        m.background_decisions_avoided < u64::MAX,
        reports(m, before),
        reports(coalesced_noted(m, background_avoided), after),
    ensures
        after.coalesced_requests == before.coalesced_requests + 1,
        after.background_decisions_avoided == before.background_decisions_avoided + if background_avoided {
            1int
        } else {
            0int
        },
        same_report(
            after,
            WorkloadDiagnostics {
                coalesced_requests: after.coalesced_requests,
                background_decisions_avoided: after.background_decisions_avoided,
                ..before
            },
        ),
{
    let mid = WorkloadDiagnostics {
        coalesced_requests: after.coalesced_requests,
        background_decisions_avoided: after.background_decisions_avoided,
        ..before
    };
    assert(reports(coalesced_noted(m, background_avoided), mid));
    law_diagnostics_are_determined(coalesced_noted(m, background_avoided), after, mid);
}

/// One step on a coordinator, as its callers take them in any order.
pub enum GovernorStep {
    /// A request of a class joins the queue.
    Request(WorkClass),
    /// A waiting request is decided.
    Admit(u64, WorkClass),
    /// A waiting request gives up.
    Cancel(u64),
    /// Running work of a class ends, failed or not, after some milliseconds.
    Release(WorkClass, bool, u64),
    /// A request was served by work under way.
    Coalesce(bool),
    /// The coordinator stops admitting work.
    Shutdown,
}

/// The step grants the waiting request: it may start and goes before every
/// other request that may.
pub open spec fn admits(m: GovernorModel, id: u64, class: WorkClass) -> bool {
    queued(m.queue, id, class) && !m.shutting_down && is_next(m.active, m.queue, id)
}

/// The coordinator after one step: a request joins while there is a number
/// left for it and the coordinator admits work; an admission starts the
/// request it grants, withdraws it during shutdown, and otherwise leaves it
/// waiting; only running work is released.
pub open spec fn step(m: GovernorModel, s: GovernorStep) -> GovernorModel {
    match s {
        GovernorStep::Request(c) => if !m.shutting_down && class_group(c) is Some && m.next_id < u64::MAX {
            requested(m, c)
        } else {
            m
        },
        GovernorStep::Admit(id, c) => if admits(m, id, c) {
            granted(m, id, c)
        } else if queued(m.queue, id, c) && m.shutting_down {
            withdrawn(m, id)
        } else {
            m
        },
        GovernorStep::Cancel(id) => withdrawn(m, id),
        GovernorStep::Release(c, failed, elapsed_ms) => match class_group(c) {
            Some(g) => if m.active[group_index(g)] == Some(c) {
                released(m, c, failed, elapsed_ms)
            } else {
                m
            },
            None => released(m, c, failed, elapsed_ms),
        },
        GovernorStep::Coalesce(b) => coalesced_noted(m, b),
        GovernorStep::Shutdown => shut_down(m),
    }
}

/// The coordinator after the steps, in order.
pub open spec fn run(m: GovernorModel, steps: Seq<GovernorStep>) -> GovernorModel
    decreases steps.len(),
{
    if steps.len() == 0 {
        m
    } else {
        step(run(m, steps.drop_last()), steps.last())
    }
}

/// However requests, admissions, cancellations, releases and shutdown
/// interleave on a fresh coordinator, each group runs work of its own
/// classes only, one class at a time, the running work stays compatible,
/// and a request starts only when the policy allows it next to the work
/// running then.
pub proof fn law_any_interleaving_keeps_the_policy(steps: Seq<GovernorStep>)
    ensures
        model_wf(run(initial_model(), steps)),
        compatible(run(initial_model(), steps).active),
        forall|k: int, id: u64, c: WorkClass|
            0 <= k < steps.len() && steps[k] == GovernorStep::Admit(id, c) && #[trigger] admits(
                run(initial_model(), steps.take(k)),
                id,
                c,
            ) ==> allowed(run(initial_model(), steps.take(k)).active, c),
    decreases steps.len(),
{
    if steps.len() == 0 {
        assert(model_wf(initial_model()));
        assert(compatible(initial_model().active));
    } else {
        let prev = steps.drop_last();
        law_any_interleaving_keeps_the_policy(prev);
        let m = run(initial_model(), prev);
        match steps.last() {
            GovernorStep::Request(c) => {
                law_transitions_keep_invariant(m, 0, c, false, 0, false);
            },
            GovernorStep::Admit(id, c) => {
                law_transitions_keep_invariant(m, id, c, false, 0, false);
                if admits(m, id, c) {
                    let i = choose|i: int| #![trigger m.queue[i]] best_at(m.active, m.queue, i) && m.queue[i].id == id;
                    let j = choose|j: int| 0 <= j < m.queue.len() && #[trigger] m.queue[j] == waiter_for(id, c);
                    if i != j {
                        if i < j {
                            assert(m.queue[i].id != m.queue[j].id);
                        } else {
                            assert(m.queue[j].id != m.queue[i].id);
                        }
                    }
                    law_running_work_stays_compatible(m, id, c, false, 0);
                }
            },
            GovernorStep::Cancel(id) => {
                law_transitions_keep_invariant(m, id, WorkClass::CheapStatusRead, false, 0, false);
            },
            GovernorStep::Release(c, failed, elapsed_ms) => {
                law_transitions_keep_invariant(m, 0, c, failed, elapsed_ms, false);
                law_running_work_stays_compatible(m, 0, c, failed, elapsed_ms);
            },
            GovernorStep::Coalesce(b) => {
                law_transitions_keep_invariant(m, 0, WorkClass::CheapStatusRead, false, 0, b);
            },
            GovernorStep::Shutdown => {
                law_transitions_keep_invariant(m, 0, WorkClass::CheapStatusRead, false, 0, false);
            },
        }
        assert forall|k: int, id: u64, c: WorkClass|
            0 <= k < steps.len() && steps[k] == GovernorStep::Admit(id, c) && #[trigger] admits(
                run(initial_model(), steps.take(k)),
                id,
                c,
            ) implies allowed(run(initial_model(), steps.take(k)).active, c) by {
            let mk = run(initial_model(), steps.take(k));
            let i = choose|i: int| #![trigger mk.queue[i]] best_at(mk.active, mk.queue, i) && mk.queue[i].id == id;
            let j = choose|j: int| 0 <= j < mk.queue.len() && #[trigger] mk.queue[j] == waiter_for(id, c);
            if k < prev.len() {
                assert(steps.take(k) == prev.take(k));
                assert(prev[k] == steps[k]);
            } else {
                assert(steps.take(k) == prev);
                assert(model_wf(mk));
                if i != j {
                    if i < j {
                        assert(mk.queue[i].id != mk.queue[j].id);
                    } else {
                        assert(mk.queue[j].id != mk.queue[i].id);
                    }
                }
            }
        }
    }
}

/// Of two waiting requests that the policy would both let start, the one
/// that goes first (higher priority, or the same and earlier) is the one
/// admitted: deciding the other leaves it waiting.
pub proof fn law_admission_follows_priority(m: GovernorModel, id1: u64, c1: WorkClass, id2: u64, c2: WorkClass)
    requires
        model_wf(m),
        queued(m.queue, id1, c1),
        queued(m.queue, id2, c2),
        id1 != id2,
        allowed(m.active, c1),
        allowed(m.active, c2),
        outranks(waiter_for(id1, c1), waiter_for(id2, c2)),
    ensures
        !admits(m, id2, c2),
        !m.shutting_down ==> step(m, GovernorStep::Admit(id2, c2)) == m,
{
    let i = choose|i: int| 0 <= i < m.queue.len() && #[trigger] m.queue[i] == waiter_for(id1, c1);
    let j = choose|j: int| 0 <= j < m.queue.len() && #[trigger] m.queue[j] == waiter_for(id2, c2);
    law_priority_order(m.active, m.queue, i, j);
}

/// The steps an acquisition takes: none for a class outside coordination;
/// otherwise a request, and unless the coordinator is shutting down, its
/// admission, withdrawn when it cannot start at once.
pub open spec fn acquire_steps(m: GovernorModel, class: WorkClass) -> Seq<GovernorStep> {
    if class_group(class) is None {
        Seq::empty()
    } else if m.shutting_down {
        seq![GovernorStep::Request(class)]
    } else {
        let r = requested(m, class);
        if is_next(r.active, r.queue, r.next_id) {
            seq![GovernorStep::Request(class), GovernorStep::Admit(r.next_id, class)]
        } else {
            seq![
                GovernorStep::Request(class),
                GovernorStep::Admit(r.next_id, class),
                GovernorStep::Cancel(r.next_id),
            ]
        }
    }
}

/// Runs compose: running some steps and then others is running them all,
/// so every sequence of calls on a coordinator, each of which states the
/// steps it takes, is one run from the coordinator's first state.
pub proof fn law_runs_compose(m: GovernorModel, first: Seq<GovernorStep>, then: Seq<GovernorStep>)
    ensures
        run(m, first + then) == run(run(m, first), then),
    decreases then.len(),
{
    if then.len() == 0 {
        assert(first + then =~= first);
    } else {
        law_runs_compose(m, first, then.drop_last());
        assert((first + then).drop_last() =~= first + then.drop_last());
        assert((first + then).last() == then.last());
    }
}

/// The overlap policy, class by class: exactly which running groups hold
/// back each class. Cheap work is never held back; each coordinated class
/// waits while its own group runs; manual Continue waits for nothing else;
/// an island refresh waits for capture; background Continue waits for
/// capture, audit and maintenance; capture waits for Continue; audit and
/// maintenance wait for Continue and capture; a derived-evidence update
/// waits for maintenance.
pub proof fn law_overlap_rules(active: Seq<Option<WorkClass>>)
    requires
        active.len() == 5,
    ensures
        allowed(active, WorkClass::CheapStatusRead),
        allowed(active, WorkClass::EventIngest),
        allowed(active, WorkClass::ManualContinue) <==> !occupied(active, Group::Continue),
        allowed(active, WorkClass::IslandRefresh) <==> !occupied(active, Group::Continue) && !occupied(
            active,
            Group::Capture,
        ),
        allowed(active, WorkClass::BackgroundContinue) <==> !occupied(active, Group::Continue)
            && !occupied(active, Group::Capture) && !occupied(active, Group::Audit) && !occupied(
            active,
            Group::Maintenance,
        ),
        allowed(active, WorkClass::ScreenshotCapture) <==> !occupied(active, Group::Capture) && !occupied(
            active,
            Group::Continue,
        ),
        allowed(active, WorkClass::AccessibilitySnapshot) <==> !occupied(active, Group::Capture)
            && !occupied(active, Group::Continue),
        allowed(active, WorkClass::Ocr) <==> !occupied(active, Group::Capture) && !occupied(
            active,
            Group::Continue,
        ),
        allowed(active, WorkClass::AuditExport) <==> !occupied(active, Group::Audit) && !occupied(
            active,
            Group::Continue,
        ) && !occupied(active, Group::Capture),
        allowed(active, WorkClass::MaintenanceCleanup) <==> !occupied(active, Group::Maintenance)
            && !occupied(active, Group::Continue) && !occupied(active, Group::Capture),
        allowed(active, WorkClass::DerivedEvidenceUpdate) <==> !occupied(active, Group::Derived)
            && !occupied(active, Group::Maintenance),
        occupied(active, Group::Maintenance) ==> !allowed(active, WorkClass::DerivedEvidenceUpdate),
{
}

} // verus!
