use senhasegura::{ApiError, Error, ErrorCode, Response, StatusCode};

fn api_error() -> Error {
    Error::Api(ApiError {
        response: Response {
            status: StatusCode::from_u16(400).unwrap(),
            message: "1023: Information not found".to_string(),
            error: true,
            error_code: 0,
        },
        exception: None,
    })
}

#[test]
fn only_transport_is_retry_eligible() {
    assert!(Error::Transport("refused".to_string()).is_retry_eligible());
    assert!(!Error::Other("bad body".to_string()).is_retry_eligible());
    assert!(!api_error().is_retry_eligible());
}

#[test]
fn connect_and_timeout_failures_are_transport() {
    assert!(matches!(
        Error::classify_failure(true, false, "refused".to_string()),
        Error::Transport(m) if m == "refused"
    ));
    assert!(matches!(
        Error::classify_failure(false, true, "timed out".to_string()),
        Error::Transport(m) if m == "timed out"
    ));
    assert!(matches!(
        Error::classify_failure(false, false, "decode".to_string()),
        Error::Other(m) if m == "decode"
    ));
}

#[test]
fn request_build_failure_is_other() {
    let e = reqwest::Client::new().get("not a url").build().unwrap_err();
    assert!(matches!(Error::from_request_failure(&e), Error::Other(_)));
}

#[test]
fn refused_connection_is_transport() {
    let runtime = tokio::runtime::Builder::new_current_thread()
        .enable_all()
        .build()
        .unwrap();
    let e = runtime
        .block_on(reqwest::Client::new().get("http://127.0.0.1:1/").send())
        .unwrap_err();
    assert!(matches!(Error::from_request_failure(&e), Error::Transport(_)));
}

#[test]
fn url_failure_is_other() {
    let e = url::Url::parse("no scheme").unwrap_err();
    assert!(matches!(Error::from_url_error(&e), Error::Other(_)));
}

#[test]
fn error_messages() {
    assert_eq!(api_error().message(), "1023: Information not found");
    assert_eq!(Error::other("local".to_string()).message(), "local");
    assert_eq!(Error::Transport("net".to_string()).message(), "net");
}

#[test]
fn error_codes_follow_kinds() {
    assert_eq!(ErrorCode::from_error(&api_error()), ErrorCode::Api);
    assert_eq!(
        ErrorCode::from_error(&Error::Transport(String::new())),
        ErrorCode::Transport
    );
    assert_eq!(ErrorCode::from_error(&Error::Other(String::new())), ErrorCode::Other);
    let ok: Result<u8, Error> = Ok(1);
    assert_eq!(ErrorCode::from_result(&ok), ErrorCode::Success);
    let err: Result<u8, Error> = Err(Error::Other(String::new()));
    assert_eq!(ErrorCode::from_result(&err), ErrorCode::Other);
}

#[test]
fn error_code_descriptions() {
    assert_eq!(ErrorCode::Success.description(), "OK");
    assert_eq!(ErrorCode::Api.description(), "API error");
    assert_eq!(ErrorCode::Transport.description(), "Transport error");
    assert_eq!(ErrorCode::Other.description(), "Other error (Rust)");
    assert_eq!(ErrorCode::ClientNotInitialized.description(), "Client not initialized");
    assert_eq!(ErrorCode::InvalidNullPointer.description(), "Invalid null pointer");
    assert_eq!(ErrorCode::InvalidString.description(), "Invalid UTF-8 string");
    assert_eq!(ErrorCode::InvalidUrl.description(), "Invalid URL");
}
