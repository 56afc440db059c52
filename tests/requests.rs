use senhasegura::decimal::format_i32;
use senhasegura::dispatch::token_path;
use senhasegura::{
    access_request, create_request, disable_request, settle_failure, settle_success,
    AccessProtectedInformationApiResponse, AccessProtectedInformationResult, ApiError,
    CreateProtectedInformationApiResponse, CreateProtectedInformationResult,
    DisableProtectedInformationApiResponse, Error, Exception, ExceptionCode, Method,
    PAMCoreExceptionCode, ProtectedInformationExceptionCode, ProtectedInformationIdentifier,
    Response, StatusCode,
};

fn envelope(status: u16, message: &str, error: bool) -> Response {
    Response {
        status: StatusCode::from_u16(status).unwrap(),
        message: message.to_string(),
        error,
        error_code: 0,
    }
}

#[test]
fn decimal_text_of_ids() {
    assert_eq!(format_i32(0), "0");
    assert_eq!(format_i32(28), "28");
    assert_eq!(format_i32(-7), "-7");
    assert_eq!(format_i32(i32::MAX), "2147483647");
    assert_eq!(format_i32(i32::MIN), "-2147483648");
}

#[test]
fn identifiers_name_path_segments() {
    let id = ProtectedInformationIdentifier::from(28);
    assert!(id.is_id(28));
    assert!(!id.is_id(29));
    assert!(!id.is_tag("28"));
    assert_eq!(id.to_segment(), "28");
    let tag = ProtectedInformationIdentifier::from("INFOSAASVAULT1".to_string());
    assert!(tag.is_tag("INFOSAASVAULT1"));
    assert!(!tag.is_tag("INFOSAASVAULT"));
    assert!(!tag.is_id(1));
    assert_eq!(tag.to_segment(), "INFOSAASVAULT1");
}

#[test]
fn operation_requests() {
    let fetch = access_request(&ProtectedInformationIdentifier::Id(28));
    assert_eq!(fetch.method, Method::Get);
    assert_eq!(fetch.path, "iso/pam/info/28");
    let create = create_request();
    assert_eq!(create.method, Method::Post);
    assert_eq!(create.path, "iso/pam/info");
    let disable = disable_request(&ProtectedInformationIdentifier::Tag("1".to_string()));
    assert_eq!(disable.method, Method::Delete);
    assert_eq!(disable.path, "iso/pam/info/1");
    assert_eq!(token_path(), "iso/oauth2/token");
}

#[test]
fn test_access_protected_information() {
    let request = access_request(&ProtectedInformationIdentifier::from(28));
    assert_eq!(request.path, "iso/pam/info/28");
    let decoded = Ok(AccessProtectedInformationApiResponse {
        response: envelope(200, "Information 28", false),
        info: AccessProtectedInformationResult {
            id: 28,
            tag: None,
            info_type: Some("Access credential".to_string()),
            content: "hdjskasdhdj2789208/3\\G+H-J_K'#JK\"NAOAPARECE\"JSJSJSJS".to_string(),
        },
    });
    let response = settle_success(decoded).unwrap();
    assert_eq!(response.info.id, 28);
    assert_eq!(
        response.info.content,
        "hdjskasdhdj2789208/3\\G+H-J_K'#JK\"NAOAPARECE\"JSJSJSJS"
    );
}

#[test]
fn test_access_protected_information_not_found() {
    let decoded = Ok(ApiError {
        response: envelope(400, "1023: Information not found", true),
        exception: Some(Exception {
            code: ExceptionCode::from_u16(1023),
            message: "1023: Information not found".to_string(),
            detail: None,
        }),
    });
    match settle_failure(decoded) {
        Error::Api(api_error) => {
            assert_eq!(api_error.response.status.as_u16(), 400);
            assert_eq!(api_error.response.message, "1023: Information not found");
            assert!(api_error.response.error);
            let exception = api_error.exception.unwrap();
            assert!(matches!(
                exception.code,
                ExceptionCode::PAMCore(PAMCoreExceptionCode::ProtectedInformation(
                    ProtectedInformationExceptionCode::InformationNotFound
                ))
            ));
            assert_eq!(exception.message, "1023: Information not found");
            assert!(exception.detail.is_none());
        }
        other => panic!("Unexpected error: {:?}", other),
    }
}

#[test]
fn test_access_protected_information_unknown_exception() {
    let decoded = Ok(ApiError {
        response: envelope(400, "9999: Unknown exception", true),
        exception: Some(Exception {
            code: ExceptionCode::from_u16(9999),
            message: "9999: Unknown exception".to_string(),
            detail: None,
        }),
    });
    match settle_failure(decoded) {
        Error::Api(api_error) => {
            assert!(matches!(
                api_error.exception.unwrap().code,
                ExceptionCode::Unknown(9999)
            ));
        }
        other => panic!("Unexpected error: {:?}", other),
    }
}

#[test]
fn test_create_protected_information() {
    assert_eq!(create_request().path, "iso/pam/info");
    let decoded = Ok(CreateProtectedInformationApiResponse {
        response: envelope(201, "Information successfully registered!", false),
        info: CreateProtectedInformationResult {
            name: Some("saas_vault1".to_string()),
            info_type: Some("access credential".to_string()),
            service: Some("saas_client".to_string()),
            url: Some("10.10.10.2".to_string()),
            content: "login: mt4adm, password: mt4admp4ss".to_string(),
            users_allowed: Some("admin, account_manager, mscharra".to_string()),
            identifier: Some("INFOSAASVAULT1".to_string()),
        },
    });
    let response = settle_success(decoded).unwrap();
    assert_eq!(response.info.identifier.unwrap(), "INFOSAASVAULT1");
    assert_eq!(response.info.content, "login: mt4adm, password: mt4admp4ss");
}

#[test]
fn test_disable_protected_information() {
    let request = disable_request(&ProtectedInformationIdentifier::from("1".to_string()));
    assert_eq!(request.method, Method::Delete);
    assert_eq!(request.path, "iso/pam/info/1");
    let decoded = Ok(DisableProtectedInformationApiResponse {
        response: envelope(200, "Information successfully disabled", false),
    });
    let response = settle_success(decoded).unwrap();
    assert_eq!(response.response.message, "Information successfully disabled");
}

#[test]
fn error_envelope_is_never_a_success() {
    let decoded = Ok(DisableProtectedInformationApiResponse {
        response: envelope(200, "refused", true),
    });
    match settle_success(decoded) {
        Err(Error::Api(api_error)) => {
            assert_eq!(api_error.response.message, "refused");
            assert!(api_error.exception.is_none());
        }
        other => panic!("unexpected {:?}", other),
    }
}

#[test]
fn undecodable_bodies_are_other() {
    let success: Result<DisableProtectedInformationApiResponse, String> =
        Err("missing field `response`".to_string());
    assert!(matches!(
        settle_success(success),
        Err(Error::Other(m)) if m == "missing field `response`"
    ));
    assert!(matches!(
        settle_failure(Err("expected value".to_string())),
        Error::Other(m) if m == "expected value"
    ));
}
