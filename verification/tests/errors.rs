use ccdown::errors::DownloadError;

#[test]
fn display_custom() {
    let err = DownloadError::Custom("something went wrong".to_string());
    assert_eq!(err.message(), "something went wrong");
}

#[test]
fn display_unrecoverable() {
    let err = DownloadError::Unrecoverable(404, "https://example.com/file".to_string());
    assert_eq!(
        err.message(),
        "Unrecoverable error (HTTP 404): https://example.com/file"
    );
}

#[test]
fn display_url_error() {
    let err: DownloadError = url::ParseError::EmptyHost.into();
    assert!(err.message().contains("empty host"));
}

#[test]
fn display_tokio_error() {
    let io_err = std::io::Error::new(std::io::ErrorKind::NotFound, "file not found");
    let err: DownloadError = io_err.into();
    assert_eq!(err.message(), "file not found");
}

#[test]
fn from_string() {
    let err: DownloadError = "test error".to_string().into();
    assert!(matches!(err, DownloadError::Custom(s) if s == "test error"));
}

#[test]
fn from_url_parse_error() {
    let err: DownloadError = url::ParseError::EmptyHost.into();
    assert!(matches!(err, DownloadError::Url(_)));
}

#[test]
fn from_io_error() {
    let io_err = std::io::Error::new(std::io::ErrorKind::Other, "io fail");
    let err: DownloadError = io_err.into();
    assert!(matches!(err, DownloadError::Tokio(_)));
}

#[test]
fn is_unrecoverable_401() {
    let err = DownloadError::Unrecoverable(401, "url".to_string());
    assert!(err.is_unrecoverable());
}

#[test]
fn is_unrecoverable_403() {
    let err = DownloadError::Unrecoverable(403, "url".to_string());
    assert!(err.is_unrecoverable());
}

#[test]
fn is_unrecoverable_404() {
    let err = DownloadError::Unrecoverable(404, "url".to_string());
    assert!(err.is_unrecoverable());
}

#[test]
fn is_unrecoverable_false_for_500() {
    let err = DownloadError::Unrecoverable(500, "url".to_string());
    assert!(!err.is_unrecoverable());
}

#[test]
fn is_unrecoverable_false_for_custom() {
    let err = DownloadError::Custom("not unrecoverable".to_string());
    assert!(!err.is_unrecoverable());
}

#[test]
fn is_unrecoverable_only_for_three_statuses() {
    for status in 0..=u16::MAX {
        let err = DownloadError::Unrecoverable(status, String::new());
        assert_eq!(err.is_unrecoverable(), status == 401 || status == 403 || status == 404);
    }
}

#[test]
fn unrecoverable_message_edge_statuses() {
    assert_eq!(
        DownloadError::Unrecoverable(0, "a".to_string()).message(),
        "Unrecoverable error (HTTP 0): a"
    );
    assert_eq!(
        DownloadError::Unrecoverable(9, String::new()).message(),
        "Unrecoverable error (HTTP 9): "
    );
    assert_eq!(
        DownloadError::Unrecoverable(10, "x".to_string()).message(),
        "Unrecoverable error (HTTP 10): x"
    );
    assert_eq!(
        DownloadError::Unrecoverable(65535, "x".to_string()).message(),
        "Unrecoverable error (HTTP 65535): x"
    );
}

#[test]
fn unrecoverable_message_matches_integer_display() {
    for status in [1u16, 99, 100, 401, 1000, 9999, 10000, 40404] {
        let err = DownloadError::Unrecoverable(status, "u".to_string());
        assert_eq!(err.message(), format!("Unrecoverable error (HTTP {}): u", status));
    }
}

#[test]
fn custom_message_round_trip() {
    for text in ["", "x", "something went wrong", "ünïcödé"] {
        let err: DownloadError = text.to_string().into();
        assert_eq!(err.message(), text);
    }
}

#[test]
fn converted_errors_are_recoverable() {
    let e1: DownloadError = url::ParseError::InvalidPort.into();
    let e2: DownloadError = std::io::Error::new(std::io::ErrorKind::Other, "x").into();
    let e3: DownloadError = "404".to_string().into();
    assert!(!e1.is_unrecoverable());
    assert!(!e2.is_unrecoverable());
    assert!(!e3.is_unrecoverable());
}

#[test]
fn url_error_messages() {
    let cases = [
        (url::ParseError::EmptyHost, "empty host"),
        (url::ParseError::InvalidPort, "invalid port number"),
        (url::ParseError::RelativeUrlWithoutBase, "relative URL without a base"),
        (url::ParseError::Overflow, "URLs more than 4 GB are not supported"),
    ];
    for (e, text) in cases {
        let err: DownloadError = e.into();
        assert_eq!(err.message(), text);
    }
}
