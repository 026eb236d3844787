use fragment_upload::admission::decide_admission;
use fragment_upload::admission::disk_has_capacity;
use fragment_upload::admission::get_allocated_disk_space;
use fragment_upload::admission::get_allocated_memory_space;
use fragment_upload::admission::get_server_condition;
use fragment_upload::admission::memory_contended;
use fragment_upload::admission::network_healthy;
use fragment_upload::admission::AdmissionController;
use fragment_upload::admission::AdmissionDecision;
use fragment_upload::admission::DenialReason;
use fragment_upload::file::UploadState;
use fragment_upload::handlers::schedule_upload_process;
use fragment_upload::handlers::task_progress;
use fragment_upload::handlers::ScheduleResponse;
use fragment_upload::registry::JobRegistry;

#[test]
fn denial_creates_no_record() {
    let mut reg = JobRegistry::new();
    let decision = decide_admission(false, true, true);
    assert_eq!(decision, AdmissionDecision::Denied(DenialReason::InsufficientDisk));
    let resp = schedule_upload_process(
        &mut reg,
        decision,
        Some("abc123".to_string()),
        Some("1000".to_string()),
        "./data",
    )
    .unwrap();
    assert!(matches!(
        resp,
        ScheduleResponse::Denied { reason: DenialReason::InsufficientDisk }
    ));
    // nothing was admitted: any identifier still reads as UnInit
    let probe = uuid::Uuid::from_u128(99).as_hyphenated().to_string();
    assert_eq!(task_progress(&reg, Some(probe)).unwrap(), UploadState::UnInit);
}

#[test]
fn denial_reasons_follow_check_order() {
    assert_eq!(
        decide_admission(false, false, false),
        AdmissionDecision::Denied(DenialReason::InsufficientDisk)
    );
    assert_eq!(
        decide_admission(true, false, false),
        AdmissionDecision::Denied(DenialReason::ResourceContention)
    );
    assert_eq!(
        decide_admission(true, true, false),
        AdmissionDecision::Denied(DenialReason::ServerUnhealthy)
    );
    assert_eq!(decide_admission(true, true, true), AdmissionDecision::Approved);
}

#[test]
fn disk_capacity_checks_first_matching_volume() {
    let disks: Vec<(Vec<u8>, u64)> = vec![
        (b"root".to_vec(), 5_000),
        (b"M".to_vec(), 150_000),
        (b"M".to_vec(), 10),
    ];
    let name = b"M".to_vec();
    assert!(disk_has_capacity(&disks, &name, 100_000));
    assert!(!disk_has_capacity(&disks, &name, 150_000));
    assert!(!disk_has_capacity(&disks, &b"missing".to_vec(), 0));
    assert!(!disk_has_capacity(&Vec::new(), &name, 0));
}

#[test]
fn memory_contention_threshold() {
    // 90 of 100 used at a 90 percent threshold: contended
    assert!(memory_contended(100, 10, 90));
    // 80 of 100 used: below the threshold
    assert!(!memory_contended(100, 20, 90));
    // an unreadable total is not treated as contention
    assert!(!memory_contended(0, 0, 90));
    // free beyond total counts as nothing used
    assert!(!memory_contended(100, 200, 90));
}

#[test]
fn network_health_tolerates_bounded_errors() {
    assert!(network_healthy(&vec![0, 0, 0], 0));
    assert!(!network_healthy(&vec![0, 1], 0));
    assert!(network_healthy(&vec![2, 3], 5));
    assert!(!network_healthy(&vec![u64::MAX, u64::MAX], u64::MAX));
    assert!(network_healthy(&Vec::new(), 0));
}

#[test]
fn live_admission_probes_run() {
    // the readings depend on the machine, so only the shape is checked
    let controller = AdmissionController::new(b"M".to_vec(), 100_000, 95, 0);
    let verdict = controller.evaluate(1_000);
    assert!(matches!(
        verdict,
        AdmissionDecision::Approved | AdmissionDecision::Denied(_)
    ));
    let _ = get_allocated_disk_space(&b"M".to_vec(), 100_000);
    let _ = get_allocated_memory_space(95);
    let _ = get_server_condition(0);
    // a request so large that no threshold can be formed is denied for disk
    assert_eq!(
        controller.evaluate(u64::MAX),
        AdmissionDecision::Denied(DenialReason::InsufficientDisk)
    );
}
