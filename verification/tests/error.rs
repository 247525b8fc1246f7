use docfetch::error::FetchError;

#[test]
fn missing_length_message_names_the_url() {
    let error = FetchError::MissingLength { url: "http://example.test/x.pdf".to_string() };
    assert_eq!(
        error.message(),
        "failed to get content length from `http://example.test/x.pdf`"
    );
}

#[test]
fn network_error_message_names_url_and_cause() {
    let error = FetchError::NetworkError {
        url: "http://example.test/".to_string(),
        cause: "connection refused".to_string(),
    };
    assert_eq!(error.message(), "request to `http://example.test/` failed: connection refused");
}

#[test]
fn transfer_interrupted_message_keeps_the_cause() {
    let error = FetchError::TransferInterrupted { cause: "unexpected EOF".to_string() };
    assert_eq!(error.message(), "transfer interrupted: unexpected EOF");
}

#[test]
fn cache_error_message_keeps_the_cause() {
    let error = FetchError::CacheIOError { cause: "permission denied".to_string() };
    assert_eq!(error.message(), "cache slot unusable: permission denied");
}

#[test]
fn resolver_failures_have_fixed_messages() {
    assert_eq!(FetchError::LinkNotFound.message(), "no download link found in the page");
    assert_eq!(FetchError::InvalidPattern.message(), "the link pattern is not well-formed");
}
