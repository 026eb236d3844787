use fragment_upload::config::LoadConfig;
use fragment_upload::errors::ErrorStates;
use fragment_upload::errors::HeaderErrors;
use fragment_upload::file::FileObject;
use fragment_upload::file::UploadState;
use fragment_upload::handlers::parse_u64;
use fragment_upload::handlers::process_body;
use fragment_upload::handlers::validate_headers;
use fragment_upload::ingest::validate_header_entries;
use fragment_upload::registry::JobRegistry;

#[test]
fn parse_u64_exact_values() {
    assert_eq!(parse_u64("0"), Some(0));
    assert_eq!(parse_u64("1000"), Some(1000));
    assert_eq!(parse_u64("18446744073709551615"), Some(u64::MAX));
    assert_eq!(parse_u64("18446744073709551616"), None);
    assert_eq!(parse_u64(""), None);
    assert_eq!(parse_u64("12x"), None);
    assert_eq!(parse_u64("-3"), None);
}

#[test]
fn validate_headers_rejects_empty() {
    assert!(validate_headers("value").is_ok());
    let e = validate_headers("").unwrap_err();
    assert!(matches!(
        &e.error_state,
        ErrorStates::RequestError(HeaderErrors::HeaderFieldMissing(f)) if f == "FileName"
    ));
}

#[test]
fn process_body_accepts_well_formed_fields() {
    let r = process_body(Some("abc123".to_string()), Some("1445343".to_string())).unwrap();
    assert_eq!(r.0, "abc123");
    assert_eq!(r.1, 1445343);
}

#[test]
fn process_body_rejects_missing_fields() {
    let e = process_body(None, Some("10".to_string())).unwrap_err();
    assert!(matches!(
        &e.error_state,
        ErrorStates::RequestError(HeaderErrors::HeaderFieldMissing(f)) if f == "FilHash or Length"
    ));
    let e2 = process_body(Some("abc".to_string()), None).unwrap_err();
    assert!(matches!(
        &e2.error_state,
        ErrorStates::RequestError(HeaderErrors::HeaderFieldMissing(f)) if f == "FilHash or Length"
    ));
}

#[test]
fn process_body_rejects_bad_characters() {
    let e = process_body(Some("ab c!".to_string()), Some("10".to_string())).unwrap_err();
    assert!(matches!(
        &e.error_state,
        ErrorStates::RequestError(HeaderErrors::InvalidField(f)) if f == "FilHash or Length"
    ));
    let e2 = process_body(Some("abc".to_string()), Some("1x".to_string())).unwrap_err();
    assert!(matches!(
        &e2.error_state,
        ErrorStates::RequestError(HeaderErrors::InvalidField(f)) if f == "FilHash or Length"
    ));
}

#[test]
fn process_body_rejects_oversized_length() {
    let e = process_body(
        Some("abc".to_string()),
        Some("99999999999999999999999".to_string()),
    )
    .unwrap_err();
    assert!(matches!(
        &e.error_state,
        ErrorStates::RequestError(HeaderErrors::InvalidField(f)) if f == "Length"
    ));
    let e2 = process_body(Some("abc".to_string()), Some("".to_string())).unwrap_err();
    assert!(matches!(
        &e2.error_state,
        ErrorStates::RequestError(HeaderErrors::InvalidField(f)) if f == "Length"
    ));
}

#[test]
fn resume_validation_first_failing_check_names_the_field() {
    let mut rec = FileObject::new("./data", 1000, "n", None, 5);
    rec.set_state(UploadState::Broken(900));

    assert!(validate_header_entries(&rec, 100, 900).is_ok());

    let e = validate_header_entries(&rec, 0, 900).unwrap_err();
    assert!(matches!(
        &e.error_state,
        ErrorStates::RequestError(HeaderErrors::InvalidField(f)) if f == "Content-Length"
    ));

    let e2 = validate_header_entries(&rec, 50, 900).unwrap_err();
    assert!(matches!(
        &e2.error_state,
        ErrorStates::RequestError(HeaderErrors::FieldMismatch(f)) if f == "Content-Length"
    ));

    let mut done = FileObject::new("./data", 1000, "n", None, 6);
    done.set_state(UploadState::Complete);
    let e3 = validate_header_entries(&done, 100, 900).unwrap_err();
    assert!(matches!(
        &e3.error_state,
        ErrorStates::RequestError(HeaderErrors::InvalidField(f)) if f == "uuid"
    ));
}

#[test]
fn record_creation_and_state_accessors() {
    let mut rec = FileObject::new("./data", 10, "name.bin", Some("deadbeef"), 9);
    assert_eq!(rec.path, "./data");
    assert_eq!(rec.file_size, 10);
    assert_eq!(rec.name, "name.bin");
    assert_eq!(rec.hash, b"deadbeef".to_vec());
    assert_eq!(rec.get_state(), UploadState::UnInit);
    rec.set_state(UploadState::Progress(4));
    assert_eq!(rec.get_state(), UploadState::Progress(4));

    let bare = FileObject::new("./data", 10, "name.bin", None, 9);
    assert!(bare.hash.is_empty());
}

#[test]
fn registry_insert_is_create_or_keep() {
    let mut reg = JobRegistry::new();
    let first = FileObject::new("./data", 10, "a", None, 1);
    let second = FileObject::new("./data", 99, "b", None, 1);
    assert!(reg.insert_if_absent(1, first));
    assert!(!reg.insert_if_absent(1, second));
    let kept = reg.get_record(1).unwrap();
    assert_eq!(kept.file_size, 10);
    assert_eq!(kept.name, "a");
    assert!(reg.get_record(2).is_none());
    assert!(!reg.set_state_of(2, UploadState::Failed));
    assert!(reg.set_state_of(1, UploadState::Failed));
    assert_eq!(reg.get(1), Some(UploadState::Failed));
}

#[test]
fn config_paths_are_kept() {
    let cfg = LoadConfig::new("./custom.toml");
    assert_eq!(cfg.path, "./custom.toml");
    let def = LoadConfig::default();
    assert_eq!(def.path, "./settings.toml");
}
