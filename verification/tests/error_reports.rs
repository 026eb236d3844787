use fragment_upload::admission::DenialReason;
use fragment_upload::errors::ErrorStates;
use fragment_upload::errors::FragmentError;
use fragment_upload::errors::HeaderErrors;
use fragment_upload::errors::ErrorReport;
use fragment_upload::errors::OptionExt;

#[test]
fn status_codes_follow_the_mapping_table() {
    assert_eq!(ErrorStates::TaskError("lost".to_string()).http_code(), 500);
    assert_eq!(ErrorStates::BufferError("disk".to_string()).http_code(), 500);
    assert_eq!(ErrorStates::InternalError("axum".to_string()).http_code(), 500);
    assert_eq!(
        ErrorStates::RequestError(HeaderErrors::HeaderFieldMissing("uuid".to_string())).http_code(),
        404
    );
    assert_eq!(
        ErrorStates::RequestError(HeaderErrors::HeaderUnwrapError("not text".to_string()))
            .http_code(),
        404
    );
    assert_eq!(ErrorStates::JobNotFound.http_code(), 404);
    assert_eq!(ErrorStates::ResourceExhausted(DenialReason::InsufficientDisk).http_code(), 409);
}

#[test]
fn messages_follow_the_mapping_table() {
    assert_eq!(
        ErrorStates::BufferError("disk".to_string()).http_message(),
        "server went into undesired mode"
    );
    assert_eq!(
        ErrorStates::RequestError(HeaderErrors::FieldMismatch("Content-Length".to_string()))
            .http_message(),
        "Missing Header Field"
    );
    assert_eq!(ErrorStates::JobNotFound.http_message(), "job not found");
    assert_eq!(
        ErrorStates::ResourceExhausted(DenialReason::ServerUnhealthy).http_message(),
        "resource exhausted"
    );
}

#[test]
fn report_defaults_to_bad_request() {
    let report = ErrorReport::new(ErrorStates::JobNotFound, Vec::new());
    assert_eq!(report.resp_code, 400);
    assert!(report.headers.is_empty());
    let parts = report.convert_to_response();
    assert_eq!(parts.status, 400);
    assert_eq!(parts.body, "job not found");
}

#[test]
fn into_report_carries_code_and_json_header() {
    let err = FragmentError::from(ErrorStates::BufferError("write failed".to_string()));
    let report = err.into_report();
    assert_eq!(report.resp_code, 500);
    assert_eq!(report.headers.len(), 1);
    assert_eq!(report.headers[0].0, "content-type");
    assert_eq!(report.headers[0].1, "application/json");
    let parts = report.convert_to_response();
    assert_eq!(parts.status, 500);
    assert_eq!(parts.body, "server went into undesired mode");
}

#[test]
fn fragment_error_wraps_header_errors() {
    let err = FragmentError::from(HeaderErrors::InvalidField("uuid".to_string()));
    assert!(matches!(
        &err.error_state,
        ErrorStates::RequestError(HeaderErrors::InvalidField(f)) if f == "uuid"
    ));
    assert_eq!(err.into_report().resp_code, 404);
}

#[test]
fn to_result_converts_option() {
    let held: Result<u32, HeaderErrors> =
        Some(5u32).to_result(|| HeaderErrors::HeaderFieldMissing("uuid".to_string()));
    assert!(matches!(held, Ok(5)));
    let absent: Result<u32, HeaderErrors> =
        None.to_result(|| HeaderErrors::InvalidField("Length".to_string()));
    assert!(matches!(
        absent,
        Err(HeaderErrors::InvalidField(f)) if f == "Length"
    ));
}
