use smalltalk_island::workload::{Admission, Priority, WorkClass, WorkloadGovernor};

fn durations(g: &WorkloadGovernor, label: &str) -> Option<(u64, u64)> {
    g.diagnostics()
        .duration_percentiles_ms
        .iter()
        .find(|(name, _)| name == label)
        .map(|(_, p)| (p.p50, p.p95))
}

#[test]
fn policy_classifies_every_required_work_class() {
    let classes = [
        WorkClass::CheapStatusRead,
        WorkClass::EventIngest,
        WorkClass::AccessibilitySnapshot,
        WorkClass::ScreenshotCapture,
        WorkClass::Ocr,
        WorkClass::DerivedEvidenceUpdate,
        WorkClass::BackgroundContinue,
        WorkClass::ManualContinue,
        WorkClass::IslandRefresh,
        WorkClass::AuditExport,
        WorkClass::MaintenanceCleanup,
    ];
    assert!(classes.iter().all(|c| c.priority() >= Priority::Low));
}

#[test]
fn failure_does_not_poison_coordinator() {
    let mut g = WorkloadGovernor::default();
    {
        let mut p = g.acquire(WorkClass::AuditExport).unwrap();
        p.mark_failed();
        g.release(p, 0);
    }
    assert!(g.acquire(WorkClass::AuditExport).is_ok());
}

#[test]
fn shutdown_rejects_new_and_queued_work() {
    let mut g = WorkloadGovernor::default();
    g.shutdown();
    assert!(g.acquire(WorkClass::BackgroundContinue).is_err());
}

#[test]
fn timed_acquire_removes_a_waiter_instead_of_waiting_forever() {
    let mut g = WorkloadGovernor::default();
    let _held = g.acquire(WorkClass::BackgroundContinue).unwrap();

    let error = g
        .acquire_with_timeout(WorkClass::ManualContinue, 10)
        .err()
        .expect("manual Continue should time out");

    assert_eq!(
        error,
        "workload governor timed out waiting for manualcontinue"
    );
    assert_eq!(g.diagnostics().queued_operation_count, 0);
    assert_eq!(g.diagnostics().cancelled_or_superseded_requests, 1);
}

#[test]
fn manual_continue_can_use_committed_evidence_while_background_capture_finishes() {
    let mut g = WorkloadGovernor::default();
    let _capture = g.acquire(WorkClass::ScreenshotCapture).unwrap();

    let manual = g
        .acquire_with_timeout(WorkClass::ManualContinue, 10)
        .expect("manual Continue should not wait behind an active capture");

    assert_eq!(
        g.diagnostics().active_operations,
        vec!["manualcontinue", "screenshotcapture"]
    );
    g.release(manual, 0);
}

#[test]
fn higher_priority_waiter_starts_before_queued_maintenance() {
    let mut g = WorkloadGovernor::default();
    let capture = g.acquire(WorkClass::ScreenshotCapture).unwrap();
    let low = g.request(WorkClass::MaintenanceCleanup).unwrap();
    let high = g.request(WorkClass::IslandRefresh).unwrap();
    assert!(matches!(g.try_admit(low, WorkClass::MaintenanceCleanup), Admission::Wait));
    assert!(matches!(g.try_admit(high, WorkClass::IslandRefresh), Admission::Wait));
    assert_eq!(g.diagnostics().queued_operation_count, 2);

    g.release(capture, 5);
    assert!(matches!(g.try_admit(low, WorkClass::MaintenanceCleanup), Admission::Wait));
    let refresh = match g.try_admit(high, WorkClass::IslandRefresh) {
        Admission::Granted(p) => p,
        _ => panic!("the island refresh should start first"),
    };
    assert_eq!(refresh.class(), WorkClass::IslandRefresh);
    assert!(matches!(g.try_admit(low, WorkClass::MaintenanceCleanup), Admission::Wait));

    g.release(refresh, 5);
    assert!(matches!(
        g.try_admit(low, WorkClass::MaintenanceCleanup),
        Admission::Granted(_)
    ));
    assert_eq!(g.diagnostics().queued_operation_count, 0);
    assert_eq!(g.diagnostics().active_operations, vec!["maintenancecleanup"]);
}

#[test]
fn equal_priority_waiters_start_in_request_order() {
    let mut g = WorkloadGovernor::default();
    let continue_work = g.acquire(WorkClass::ManualContinue).unwrap();
    let first = g.request(WorkClass::AuditExport).unwrap();
    let second = g.request(WorkClass::BackgroundContinue).unwrap();
    g.release(continue_work, 1);
    assert!(matches!(g.try_admit(second, WorkClass::BackgroundContinue), Admission::Wait));
    assert!(matches!(
        g.try_admit(first, WorkClass::AuditExport),
        Admission::Granted(_)
    ));
    // Background Continue yields to a running audit export.
    assert!(matches!(g.try_admit(second, WorkClass::BackgroundContinue), Admission::Wait));
}

#[test]
fn shutdown_counts_queued_work_and_refuses_it() {
    let mut g = WorkloadGovernor::default();
    let _held = g.acquire(WorkClass::ManualContinue).unwrap();
    let a = g.request(WorkClass::IslandRefresh).unwrap();
    let _b = g.request(WorkClass::BackgroundContinue).unwrap();
    g.shutdown();
    assert_eq!(g.diagnostics().cancelled_or_superseded_requests, 2);
    match g.try_admit(a, WorkClass::IslandRefresh) {
        Admission::Rejected(message) => {
            assert_eq!(message, "workload governor is shutting down")
        }
        _ => panic!("queued work must be refused during shutdown"),
    }
    assert_eq!(g.diagnostics().cancelled_or_superseded_requests, 3);
    assert_eq!(g.diagnostics().queued_operation_count, 1);
    assert_eq!(
        g.request(WorkClass::Ocr).err().unwrap(),
        "workload governor is shutting down"
    );
    assert_eq!(
        g.acquire_with_timeout(WorkClass::AuditExport, 5).err().unwrap(),
        "workload governor is shutting down"
    );
}

#[test]
fn capture_never_starts_under_continue_work() {
    let mut g = WorkloadGovernor::default();
    let _manual = g.acquire(WorkClass::ManualContinue).unwrap();
    assert_eq!(
        g.acquire_with_timeout(WorkClass::Ocr, 5).err().unwrap(),
        "workload governor timed out waiting for ocr"
    );
    assert_eq!(
        g.acquire_with_timeout(WorkClass::IslandRefresh, 5).err().unwrap(),
        "workload governor timed out waiting for islandrefresh"
    );
    assert!(g.acquire_with_timeout(WorkClass::DerivedEvidenceUpdate, 5).is_ok());
    assert_eq!(g.diagnostics().cancelled_or_superseded_requests, 2);
    assert_eq!(g.diagnostics().queued_operation_count, 0);
}

#[test]
fn cheap_work_is_never_coordinated() {
    let mut g = WorkloadGovernor::default();
    let _manual = g.acquire(WorkClass::ManualContinue).unwrap();
    let cheap = g.acquire(WorkClass::CheapStatusRead).unwrap();
    let ingest = g.acquire_with_timeout(WorkClass::EventIngest, 0).unwrap();
    assert_eq!(g.diagnostics().active_operations, vec!["manualcontinue"]);
    g.release(cheap, 3);
    g.release(ingest, 4);
    assert_eq!(durations(&g, "cheapstatusread"), Some((3, 3)));
    assert_eq!(durations(&g, "eventingest"), Some((4, 4)));
}

#[test]
fn diagnostics_report_percentiles_in_label_order() {
    let mut g = WorkloadGovernor::default();
    for elapsed in [50u64, 10, 40, 20, 30] {
        let p = g.acquire(WorkClass::ManualContinue).unwrap();
        g.release(p, elapsed);
    }
    let p = g.acquire(WorkClass::AuditExport).unwrap();
    g.release(p, 7);
    let d = g.diagnostics();
    let labels: Vec<&str> = d.duration_percentiles_ms.iter().map(|(l, _)| l.as_str()).collect();
    assert_eq!(labels, vec!["auditexport", "manualcontinue"]);
    assert_eq!(durations(&g, "manualcontinue"), Some((30, 40)));
    assert_eq!(durations(&g, "auditexport"), Some((7, 7)));
    assert!(d.active_operations.is_empty());
}

#[test]
fn duration_history_keeps_the_most_recent_samples() {
    let mut g = WorkloadGovernor::default();
    for elapsed in 0u64..300 {
        let p = g.acquire(WorkClass::Ocr).unwrap();
        g.release(p, elapsed);
    }
    // The 256 most recent samples are 44..=299.
    assert_eq!(durations(&g, "ocr"), Some((44 + 127, 44 + 242)));
}

#[test]
fn coalesced_requests_are_counted() {
    let mut g = WorkloadGovernor::default();
    g.note_coalesced(true);
    g.note_coalesced(false);
    let d = g.diagnostics();
    assert_eq!(d.coalesced_requests, 2);
    assert_eq!(d.background_decisions_avoided, 1);
}

#[test]
fn failed_work_frees_its_group() {
    let mut g = WorkloadGovernor::new();
    let mut p = g.acquire(WorkClass::BackgroundContinue).unwrap();
    p.mark_failed();
    g.release(p, 9);
    assert!(g.diagnostics().active_operations.is_empty());
    assert!(g.acquire(WorkClass::IslandRefresh).is_ok());
}

#[test]
fn coalescing_only_counts_and_diagnostics_repeat() {
    let mut g = WorkloadGovernor::default();
    let capture = g.acquire(WorkClass::ScreenshotCapture).unwrap();
    g.release(capture, 40);
    let before = g.diagnostics();
    assert_eq!(g.diagnostics(), before);
    g.note_coalesced(true);
    let after = g.diagnostics();
    assert_eq!(after.coalesced_requests, before.coalesced_requests + 1);
    assert_eq!(after.background_decisions_avoided, before.background_decisions_avoided + 1);
    assert_eq!(after.active_operations, before.active_operations);
    assert_eq!(after.queued_operation_count, before.queued_operation_count);
    assert_eq!(after.cancelled_or_superseded_requests, before.cancelled_or_superseded_requests);
    assert_eq!(after.duration_percentiles_ms, before.duration_percentiles_ms);
    g.note_coalesced(false);
    assert_eq!(g.diagnostics().background_decisions_avoided, after.background_decisions_avoided);
}

#[test]
fn a_fresh_coordinator_has_room_in_every_counter() {
    let g = WorkloadGovernor::new();
    assert!(g.counters_have_room());
    assert!(g.class_counters_have_room(WorkClass::ManualContinue));
    assert!(g.class_counters_have_room(WorkClass::CheapStatusRead));
}
