use xberg::{ApiStatusCategory, ErrorSource, McpErrorCategory, XbergError};

#[test]
fn timeout_message_names_elapsed_time_and_limit() {
    let err = XbergError::Timeout { elapsed_ms: 30512, limit_ms: 30000 };
    assert_eq!(err.to_string(), "Extraction timed out after 30512ms (limit: 30000ms)");
    let zero = XbergError::Timeout { elapsed_ms: 0, limit_ms: 18446744073709551615 };
    assert_eq!(
        zero.to_string(),
        "Extraction timed out after 0ms (limit: 18446744073709551615ms)"
    );
}

#[test]
fn cancelled_and_remaining_messages() {
    assert_eq!(XbergError::Cancelled.to_string(), "Extraction cancelled");
    assert_eq!(XbergError::embedding("model down").to_string(), "Embedding error: model down");
    assert_eq!(XbergError::reranking("no scores").to_string(), "Reranking error: no scores");
    assert_eq!(
        XbergError::transcription("no audio").to_string(),
        "Transcription error: no audio"
    );
    assert_eq!(XbergError::security("zip bomb").to_string(), "Security violation: zip bomb");
    assert_eq!(XbergError::parsing("").to_string(), "Parsing error: ");
}

#[test]
fn io_message_is_prefix_then_io_text() {
    let err: XbergError = std::io::Error::other("disk full").into();
    assert_eq!(err.to_string(), "IO error: disk full");
    assert_eq!(err.display_with_io_text("anything"), "IO error: anything");
    assert_eq!(
        XbergError::validation("bad").display_with_io_text("ignored"),
        "Validation error: bad"
    );
}

#[test]
fn constructors_record_source_only_when_given() {
    assert!(!XbergError::parsing("p").has_source());
    assert!(XbergError::parsing_with_source("p", ErrorSource::described("cause")).has_source());
    assert!(!XbergError::embedding("e").has_source());
    assert!(XbergError::embedding_with_source("e", ErrorSource::described("cause")).has_source());
    assert!(!XbergError::Cancelled.has_source());
    assert!(!XbergError::Other("o".to_string()).has_source());
    assert!(XbergError::Io(std::io::Error::other("x")).has_source());
    match XbergError::security_with_source("s", ErrorSource::described("cause")) {
        XbergError::Security { message, source: Some(ErrorSource::Described(d)) } => {
            assert_eq!(message, "s");
            assert_eq!(d, "cause");
        }
        other => panic!("unexpected {other:?}"),
    }
}

#[test]
fn io_error_is_carried_unchanged() {
    let io_err = std::io::Error::new(std::io::ErrorKind::PermissionDenied, "locked");
    match XbergError::from(io_err) {
        XbergError::Io(inner) => {
            assert_eq!(inner.kind(), std::io::ErrorKind::PermissionDenied);
            assert_eq!(inner.to_string(), "locked");
        }
        other => panic!("unexpected {other:?}"),
    }
}

#[test]
fn converted_errors_keep_their_source_and_message() {
    let json_err = serde_json::from_str::<serde_json::Value>("{").unwrap_err();
    let text = json_err.to_string();
    match XbergError::from(json_err) {
        XbergError::Serialization { message, source: Some(ErrorSource::Json(_)) } => {
            assert_eq!(message, text);
        }
        other => panic!("unexpected {other:?}"),
    }
    let cal_err = calamine::Error::Msg("broken sheet");
    match XbergError::from(cal_err) {
        XbergError::Parsing { message, source: Some(ErrorSource::Spreadsheet(_)) } => {
            assert_eq!(message, "broken sheet");
        }
        other => panic!("unexpected {other:?}"),
    }
}

fn one_of_each() -> Vec<XbergError> {
    vec![
        XbergError::Io(std::io::Error::other("t")),
        XbergError::parsing("t"),
        XbergError::ocr("t"),
        XbergError::validation("t"),
        XbergError::cache("t"),
        XbergError::image_processing("t"),
        XbergError::serialization("t"),
        XbergError::MissingDependency("t".to_string()),
        XbergError::Plugin { message: "m".to_string(), plugin_name: "p".to_string() },
        XbergError::LockPoisoned("t".to_string()),
        XbergError::UnsupportedFormat("t".to_string()),
        XbergError::embedding("t"),
        XbergError::reranking("t"),
        XbergError::transcription("t"),
        XbergError::Timeout { elapsed_ms: 1, limit_ms: 2 },
        XbergError::Cancelled,
        XbergError::security("t"),
        XbergError::Other("t".to_string()),
    ]
}

#[test]
fn api_labels_are_distinct_per_variant() {
    let errors = one_of_each();
    for (i, a) in errors.iter().enumerate() {
        for (j, b) in errors.iter().enumerate() {
            assert_eq!(i == j, a.api_error_type() == b.api_error_type());
        }
    }
}

#[test]
fn extraction_label_and_code_agree() {
    let errors = one_of_each();
    for a in &errors {
        assert_eq!(a.extraction_error_type() == "other", a.extraction_error_code() == 1099);
        for b in &errors {
            assert_eq!(
                a.extraction_error_type() == b.extraction_error_type(),
                a.extraction_error_code() == b.extraction_error_code()
            );
        }
    }
}

#[test]
fn rest_and_mcp_categories_agree() {
    for e in &one_of_each() {
        if e.api_status_category() == ApiStatusCategory::Validation {
            assert_eq!(e.mcp_error_category(), McpErrorCategory::InvalidParams);
        }
        if e.mcp_error_category() == McpErrorCategory::ParseError {
            assert_eq!(e.api_status_category(), ApiStatusCategory::Unprocessable);
        }
        assert_eq!(
            e.mcp_error_category() == McpErrorCategory::Cancelled,
            e.extraction_error_code() == 1005
        );
        assert_eq!(
            e.mcp_error_category() == McpErrorCategory::Cancelled,
            e.extraction_error_type() == "cancelled"
        );
    }
}

#[test]
fn missing_dependency_and_security_are_invalid_params_but_internal_in_rest() {
    let dep = XbergError::MissingDependency("t".to_string());
    assert_eq!(dep.mcp_error_category(), McpErrorCategory::InvalidParams);
    assert_eq!(dep.api_status_category(), ApiStatusCategory::Internal);
    let sec = XbergError::security("t");
    assert_eq!(sec.api_status_category(), ApiStatusCategory::Internal);
    assert_eq!(XbergError::ocr("t").mcp_error_category(), McpErrorCategory::Internal);
}
