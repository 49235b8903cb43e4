use rtsp::method::Method;
use rtsp::status::{StatusClass, StatusCode};

const STANDARD: [u16; 44] = [
    100, 200, 201, 250, 300, 301, 302, 303, 304, 305, 400, 401, 402, 403, 404, 405, 406, 407,
    408, 410, 411, 412, 413, 414, 415, 451, 452, 453, 454, 455, 456, 457, 458, 459, 460, 461,
    462, 500, 501, 502, 503, 504, 505, 551,
];

#[test]
fn status_round_trip() {
    for n in STANDARD.iter() {
        let c = StatusCode::from_u16(*n);
        assert_eq!(c.to_u16(), *n);
        assert!(!matches!(c, StatusCode::Extension(_)));
        assert!(c.canonical_reason().is_some());
    }
}

#[test]
fn status_extension_fallback() {
    let c = StatusCode::from_u16(999);
    assert_eq!(c.to_u16(), 999);
    assert!(matches!(c, StatusCode::Extension(999)));
    assert_eq!(c.canonical_reason(), None);
    assert!(matches!(StatusCode::from_u16(0), StatusCode::Extension(0)));
    assert!(matches!(StatusCode::from_u16(409), StatusCode::Extension(409)));
    assert!(matches!(StatusCode::from_u16(65535), StatusCode::Extension(65535)));
}

#[test]
fn status_named_variants() {
    assert!(matches!(StatusCode::from_u16(200), StatusCode::OK));
    assert!(matches!(StatusCode::from_u16(404), StatusCode::NotFound));
    assert!(matches!(StatusCode::from_u16(551), StatusCode::OptionNotSupported));
    assert_eq!(StatusCode::RTSPVersionNotSupported.to_u16(), 505);
    assert_eq!(StatusCode::Gone.to_u16(), 410);
}

#[test]
fn status_class_boundaries() {
    assert_eq!(StatusCode::from_u16(199).class(), StatusClass::Informational);
    assert_eq!(StatusCode::from_u16(200).class(), StatusClass::Success);
    assert_eq!(StatusCode::from_u16(600).class(), StatusClass::NoClass);
    assert_eq!(StatusCode::from_u16(0).class(), StatusClass::NoClass);
    assert_eq!(StatusCode::from_u16(99).class(), StatusClass::NoClass);
    assert_eq!(StatusCode::from_u16(100).class(), StatusClass::Informational);
    assert_eq!(StatusCode::from_u16(299).class(), StatusClass::Success);
    assert_eq!(StatusCode::from_u16(300).class(), StatusClass::Redirection);
    assert_eq!(StatusCode::from_u16(399).class(), StatusClass::Redirection);
    assert_eq!(StatusCode::from_u16(400).class(), StatusClass::ClientError);
    assert_eq!(StatusCode::from_u16(499).class(), StatusClass::ClientError);
    assert_eq!(StatusCode::from_u16(500).class(), StatusClass::ServerError);
    assert_eq!(StatusCode::from_u16(599).class(), StatusClass::ServerError);
}

#[test]
fn status_class_predicates() {
    assert!(StatusCode::Continue.is_informational());
    assert!(StatusCode::OK.is_success());
    assert!(!StatusCode::OK.is_informational());
    assert!(StatusCode::UseProxy.is_redirection());
    assert!(StatusCode::NotFound.is_client_error());
    assert!(StatusCode::OptionNotSupported.is_server_error());
    assert!(StatusCode::from_u16(700).is_strange_status());
    assert!(!StatusCode::from_u16(250).is_strange_status());
}

#[test]
fn status_safety_for_method() {
    assert!(StatusCode::Created.is_safe_for_method(Method::Record));
    assert!(!StatusCode::Created.is_safe_for_method(Method::Play));
    assert!(StatusCode::OK.is_safe_for_method(Method::Options));
    assert!(StatusCode::LowOnStorageSpace.is_safe_for_method(Method::Record));
    assert!(!StatusCode::LowOnStorageSpace.is_safe_for_method(Method::Setup));
    assert!(StatusCode::PreconditionFailed.is_safe_for_method(Method::Describe));
    assert!(StatusCode::PreconditionFailed.is_safe_for_method(Method::Setup));
    assert!(!StatusCode::PreconditionFailed.is_safe_for_method(Method::Play));
    assert!(StatusCode::ParameterNotUnderstood.is_safe_for_method(Method::Setup));
    assert!(!StatusCode::ConferenceNotFound.is_safe_for_method(Method::Teardown));
    assert!(!StatusCode::NotEnoughBandwidth.is_safe_for_method(Method::Extension("X".to_string())));
    assert!(StatusCode::InvalidRange.is_safe_for_method(Method::Play));
    assert!(!StatusCode::InvalidRange.is_safe_for_method(Method::Pause));
    assert!(StatusCode::ParameterIsReadOnly.is_safe_for_method(Method::SetParameter));
    assert!(!StatusCode::ParameterIsReadOnly.is_safe_for_method(Method::GetParameter));
    assert!(StatusCode::InternalServerError.is_safe_for_method(Method::Redirect));
    assert!(StatusCode::from_u16(999).is_safe_for_method(Method::Announce));
}

#[test]
fn status_reason_phrases() {
    assert_eq!(StatusCode::OK.canonical_reason(), Some("OK"));
    assert_eq!(StatusCode::NotFound.canonical_reason(), Some("Not Found"));
    assert_eq!(
        StatusCode::from_u16(455).canonical_reason(),
        Some("Method Not Valid in This State")
    );
    assert_eq!(StatusCode::RequestTimeout.canonical_reason(), Some("Request Time-out"));
}

#[test]
fn status_display_form() {
    assert_eq!(StatusCode::NotFound.to_string(), "404 Not Found");
    assert_eq!(StatusCode::OK.to_string(), "200 OK");
    assert_eq!(StatusCode::from_u16(999).to_string(), "999 <unknown status code>");
    assert_eq!(StatusCode::from_u16(7).to_string(), "7 <unknown status code>");
    assert_eq!(StatusCode::from_u16(65535).to_string(), "65535 <unknown status code>");
    assert_eq!(StatusCode::from_u16(0).to_string(), "0 <unknown status code>");
}

#[test]
fn status_equality_and_order_by_number() {
    assert!(StatusCode::Extension(200) == StatusCode::OK);
    assert!(StatusCode::OK != StatusCode::Created);
    assert!(StatusCode::OK < StatusCode::Created);
    assert!(StatusCode::Extension(999) > StatusCode::OptionNotSupported);
    assert!(StatusCode::Extension(50) < StatusCode::Continue);
    assert!(StatusCode::Extension(404) <= StatusCode::NotFound);
}

#[test]
fn status_default_is_ok() {
    assert_eq!(StatusCode::default().to_u16(), 200);
}
