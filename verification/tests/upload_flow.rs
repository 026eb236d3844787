use fragment_upload::errors::ErrorStates;
use fragment_upload::errors::HeaderErrors;
use fragment_upload::file::FileObject;
use fragment_upload::file::UploadState;
use fragment_upload::handlers::init_upload_process;
use fragment_upload::handlers::resume_upload;
use fragment_upload::handlers::schedule_upload_process;
use fragment_upload::handlers::task_progress;
use fragment_upload::handlers::ScheduleResponse;
use fragment_upload::admission::AdmissionDecision;
use fragment_upload::ingest::streamer_writer;
use fragment_upload::ingest::IngestSession;
use fragment_upload::ingest::discard_partial;
use fragment_upload::registry::JobRegistry;

fn uuid_text_of(id: u128) -> String {
    uuid::Uuid::from_u128(id).as_hyphenated().to_string()
}

fn registry_with(id: u128, declared: usize) -> JobRegistry {
    let mut reg = JobRegistry::new();
    let rec = FileObject::new("./data", declared, "payload.bin", Some("abc123"), id);
    assert!(reg.insert_if_absent(id, rec));
    reg
}

fn is_field_mismatch(e: &fragment_upload::errors::FragmentError, field: &str) -> bool {
    matches!(&e.error_state,
        ErrorStates::RequestError(HeaderErrors::FieldMismatch(f)) if f == field)
}

fn is_invalid_field(e: &fragment_upload::errors::FragmentError, field: &str) -> bool {
    matches!(&e.error_state,
        ErrorStates::RequestError(HeaderErrors::InvalidField(f)) if f == field)
}

#[test]
fn exact_match_completes() {
    let mut reg = registry_with(42, 1000);
    let mut file: Vec<u8> = Vec::new();
    let chunks: Vec<Vec<u8>> = vec![vec![7u8; 400], vec![8u8; 600]];
    let r = streamer_writer(&mut reg, 42, &mut file, &chunks, 0, false);
    assert!(r.is_ok());
    assert_eq!(file.len(), 1000);
    assert_eq!(reg.get(42), Some(UploadState::Complete));
}

#[test]
fn under_delivery_breaks_at_received_count() {
    let mut reg = registry_with(42, 1000);
    let mut file: Vec<u8> = Vec::new();
    let chunks: Vec<Vec<u8>> = vec![vec![1u8; 900]];
    let r = streamer_writer(&mut reg, 42, &mut file, &chunks, 0, false);
    let e = r.unwrap_err();
    assert!(is_field_mismatch(&e, "Content-Length"));
    assert_eq!(reg.get(42), Some(UploadState::Broken(900)));
    assert_eq!(file.len(), 900);
}

#[test]
fn resume_completes_the_job() {
    let mut reg = registry_with(42, 1000);
    let mut file: Vec<u8> = Vec::new();
    let first: Vec<Vec<u8>> = vec![vec![1u8; 900]];
    let _ = streamer_writer(&mut reg, 42, &mut file, &first, 0, false);
    assert_eq!(reg.get(42), Some(UploadState::Broken(900)));

    let payload: Vec<Vec<u8>> = vec![vec![9u8; 100]];
    let r = resume_upload(
        &mut reg,
        &mut file,
        &payload,
        Some(uuid_text_of(42)),
        Some("100".to_string()),
        Some("900".to_string()),
    );
    assert_eq!(r.unwrap(), UploadState::Complete);
    assert_eq!(reg.get(42), Some(UploadState::Complete));
    assert_eq!(file.len(), 1000);
    for i in 0..900 {
        assert_eq!(file[i], 1u8);
    }
    for i in 900..1000 {
        assert_eq!(file[i], 9u8);
    }
}

#[test]
fn over_delivery_rejected() {
    let mut reg = registry_with(42, 1000);
    let mut file: Vec<u8> = Vec::new();
    let chunks: Vec<Vec<u8>> = vec![vec![1u8; 1001]];
    let r = streamer_writer(&mut reg, 42, &mut file, &chunks, 0, false);
    let e = r.unwrap_err();
    assert!(is_field_mismatch(&e, "Content-Length"));
    assert!(matches!(reg.get(42), Some(UploadState::Broken(_))));
    assert_ne!(reg.get(42), Some(UploadState::Complete));
}

#[test]
fn over_delivery_on_boundary_chunk_keeps_prefix() {
    let mut reg = registry_with(42, 10);
    let mut file: Vec<u8> = Vec::new();
    let chunks: Vec<Vec<u8>> = vec![vec![1u8; 8], vec![2u8; 5]];
    let r = streamer_writer(&mut reg, 42, &mut file, &chunks, 0, false);
    assert!(r.is_err());
    // the offending chunk is not written: the file keeps only the accepted bytes
    assert_eq!(file, vec![1u8; 8]);
    assert_eq!(reg.get(42), Some(UploadState::Broken(10)));
}

#[test]
fn resume_bounds_rejected_before_io() {
    let mut reg = registry_with(42, 1000);
    let mut file: Vec<u8> = vec![1u8; 900];
    let payload: Vec<Vec<u8>> = vec![vec![9u8; 100]];

    let r0 = resume_upload(
        &mut reg,
        &mut file,
        &payload,
        Some(uuid_text_of(42)),
        Some("1000".to_string()),
        Some("0".to_string()),
    );
    let e0 = r0.unwrap_err();
    assert!(is_invalid_field(&e0, "Content-Pointer"));
    assert_eq!(file, vec![1u8; 900]);

    let r1 = resume_upload(
        &mut reg,
        &mut file,
        &payload,
        Some(uuid_text_of(42)),
        Some("100".to_string()),
        Some("1000".to_string()),
    );
    let e1 = r1.unwrap_err();
    assert!(is_invalid_field(&e1, "content_pointer"));
    assert_eq!(file, vec![1u8; 900]);
    assert_eq!(reg.get(42), Some(UploadState::UnInit));
}

#[test]
fn resume_length_must_match_remainder() {
    let mut reg = registry_with(42, 1000);
    let mut file: Vec<u8> = vec![1u8; 900];
    let payload: Vec<Vec<u8>> = vec![vec![9u8; 100]];
    let r = resume_upload(
        &mut reg,
        &mut file,
        &payload,
        Some(uuid_text_of(42)),
        Some("99".to_string()),
        Some("900".to_string()),
    );
    let e = r.unwrap_err();
    assert!(is_field_mismatch(&e, "Content-Length"));
    assert_eq!(file, vec![1u8; 900]);
}

#[test]
fn resume_unknown_id_is_job_not_found() {
    let mut reg = JobRegistry::new();
    let mut file: Vec<u8> = Vec::new();
    let payload: Vec<Vec<u8>> = vec![vec![9u8; 100]];
    let r = resume_upload(
        &mut reg,
        &mut file,
        &payload,
        Some(uuid_text_of(7)),
        Some("100".to_string()),
        Some("900".to_string()),
    );
    let e = r.unwrap_err();
    assert!(matches!(e.error_state, ErrorStates::JobNotFound));
}

#[test]
fn resume_terminal_record_rejected() {
    let mut reg = registry_with(42, 100);
    let mut file: Vec<u8> = Vec::new();
    let all: Vec<Vec<u8>> = vec![vec![5u8; 100]];
    let r = streamer_writer(&mut reg, 42, &mut file, &all, 0, false);
    assert!(r.is_ok());
    let more: Vec<Vec<u8>> = vec![vec![5u8; 50]];
    let r2 = resume_upload(
        &mut reg,
        &mut file,
        &more,
        Some(uuid_text_of(42)),
        Some("50".to_string()),
        Some("50".to_string()),
    );
    let e = r2.unwrap_err();
    assert!(is_invalid_field(&e, "uuid"));
    assert_eq!(reg.get(42), Some(UploadState::Complete));
}

#[test]
fn status_for_unknown_id_is_uninit() {
    let reg = JobRegistry::new();
    let r = task_progress(&reg, Some(uuid_text_of(123456)));
    assert_eq!(r.unwrap(), UploadState::UnInit);
}

#[test]
fn status_polling_is_monotonic_and_idempotent() {
    let mut reg = registry_with(42, 100);
    let mut session = IngestSession::begin_ingest(&mut reg, 42, 0, false).unwrap();
    let mut last: usize = 0;
    for _ in 0..4 {
        let before = reg.get(42);
        let again = reg.get(42);
        assert_eq!(before, again);
        session.on_chunk(&mut reg, 42, 20).unwrap();
        match reg.get(42) {
            Some(UploadState::Progress(n)) => {
                assert!(n >= last);
                last = n;
            }
            other => panic!("unexpected state {:?}", other),
        }
    }
    session.on_end(&mut reg, 42).unwrap_err();
    assert_eq!(reg.get(42), Some(UploadState::Broken(80)));
}

#[test]
fn stream_error_breaks_and_io_error_fails() {
    let mut reg = registry_with(1, 100);
    let session = IngestSession::begin_ingest(&mut reg, 1, 0, false).unwrap();
    session.on_stream_error(&mut reg, 1);
    assert_eq!(reg.get(1), Some(UploadState::Broken(0)));
    assert!(!discard_partial(&UploadState::Broken(0)));

    let mut reg2 = registry_with(2, 100);
    let session2 = IngestSession::begin_ingest(&mut reg2, 2, 0, false).unwrap();
    session2.on_io_error(&mut reg2, 2);
    assert_eq!(reg2.get(2), Some(UploadState::Failed));
    assert!(discard_partial(&UploadState::Failed));
}

#[test]
fn empty_declared_size_completes_on_empty_stream() {
    let mut reg = registry_with(3, 0);
    let mut file: Vec<u8> = Vec::new();
    let chunks: Vec<Vec<u8>> = Vec::new();
    let r = streamer_writer(&mut reg, 3, &mut file, &chunks, 0, false);
    assert!(r.is_ok());
    assert_eq!(reg.get(3), Some(UploadState::Complete));
    assert_eq!(file.len(), 0);
}

#[test]
fn full_round_trip_through_schedule_and_init() {
    let mut reg = JobRegistry::new();
    let resp = schedule_upload_process(
        &mut reg,
        AdmissionDecision::Approved,
        Some("abc123".to_string()),
        Some("6".to_string()),
        "./data",
    )
    .unwrap();
    let (id, uuid) = match resp {
        ScheduleResponse::Approved { id, uuid } => (id, uuid),
        other => panic!("unexpected response {:?}", other),
    };
    assert_eq!(task_progress(&reg, Some(uuid.clone())).unwrap(), UploadState::UnInit);

    let mut file: Vec<u8> = Vec::new();
    let chunks: Vec<Vec<u8>> = vec![b"abcdef".to_vec()];
    let st = init_upload_process(
        &mut reg,
        &mut file,
        &chunks,
        Some("payload.bin".to_string()),
        Some("6".to_string()),
        Some(uuid.clone()),
    )
    .unwrap();
    assert_eq!(st, UploadState::Complete);
    assert_eq!(file, b"abcdef".to_vec());
    assert_eq!(reg.get(id), Some(UploadState::Complete));
    assert_eq!(task_progress(&reg, Some(uuid)).unwrap(), UploadState::Complete);
}

#[test]
fn init_rejects_bad_headers() {
    let mut reg = registry_with(42, 10);
    let mut file: Vec<u8> = Vec::new();
    let chunks: Vec<Vec<u8>> = vec![vec![0u8; 10]];

    let miss = init_upload_process(&mut reg, &mut file, &chunks, None, None, None);
    let e = miss.unwrap_err();
    assert!(matches!(&e.error_state,
        ErrorStates::RequestError(HeaderErrors::HeaderFieldMissing(f)) if f == "FileName"));

    let nonnum = init_upload_process(
        &mut reg,
        &mut file,
        &chunks,
        Some("n".to_string()),
        Some("12x".to_string()),
        Some(uuid_text_of(42)),
    );
    let e2 = nonnum.unwrap_err();
    assert!(is_invalid_field(&e2, "Content-Length"));

    let badid = init_upload_process(
        &mut reg,
        &mut file,
        &chunks,
        Some("n".to_string()),
        Some("10".to_string()),
        Some("zzz".to_string()),
    );
    let e3 = badid.unwrap_err();
    assert!(is_invalid_field(&e3, "uuid"));
    assert_eq!(reg.get(42), Some(UploadState::UnInit));
    assert!(file.is_empty());
}

#[test]
fn output_file_path_uses_hyphenated_id() {
    let rec = FileObject::new("./data", 10, "client-name.bin", None, 42);
    let expected = format!("./data/{}", uuid::Uuid::from_u128(42).as_hyphenated());
    assert_eq!(rec.output_file_path(), expected);
    assert_eq!(rec.get_uuid(), 42);
}
