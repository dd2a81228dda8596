//! Tests of the authorization-server wire format: request assembly and
//! response classification.
use tokkit::token_manager::token_provider::{assemble_token_endpoint, build_token_request_body,
    evaluate_response, join_scopes, millis_of_secs, parse_error, parse_response,
    AccessTokenProviderError, AuthorizationServerErrorCode};
use tokkit::Scope;

#[test]
fn token_request_body_is_form_encoded_in_order() {
    let scopes = vec![Scope::new("read"), Scope::new("write all")];
    let body = build_token_request_body("alice", "p&ss wd", &scopes);
    assert_eq!(
        "grant_type=password&username=alice&password=p%26ss+wd&scope=read+write+all",
        body
    );
}

#[test]
fn scopes_join_space_separated_in_order() {
    assert_eq!("", join_scopes(&[]));
    assert_eq!("a", join_scopes(&[Scope::new("a")]));
    assert_eq!("a b c", join_scopes(&[Scope::new("a"), Scope::new("b"), Scope::new("c")]));
}

#[test]
fn token_endpoint_carries_the_realm() {
    assert_eq!(
        "https://auth.example.org/oauth2/token",
        assemble_token_endpoint("https://auth.example.org/oauth2/token", None)
    );
    assert_eq!(
        "https://auth.example.org/oauth2/token?realm=/services",
        assemble_token_endpoint("https://auth.example.org/oauth2/token", Some("/services"))
    );
}

#[test]
fn successful_responses_parse_into_tokens() {
    let body = br#"{"access_token":"abc","expires_in":3600,"refresh_token":"r1"}"#;
    let rsp = parse_response(body).unwrap();
    assert_eq!("abc", rsp.access_token.0);
    assert_eq!(3_600_000, rsp.expires_in_ms);
    assert_eq!(Some("r1".to_string()), rsp.refresh_token);

    let without_refresh = br#"{"access_token":"abc","expires_in":1}"#;
    let rsp = parse_response(without_refresh).unwrap();
    assert_eq!(1000, rsp.expires_in_ms);
    assert_eq!(None, rsp.refresh_token);
}

#[test]
fn malformed_token_responses_are_parse_errors() {
    let cases: [&[u8]; 4] = [
        br#"{"expires_in":3600}"#,
        br#"{"access_token":"abc"}"#,
        br#"{"access_token":"abc","expires_in":-1}"#,
        br#"[]"#,
    ];
    for body in cases {
        match parse_response(body) {
            Err(AccessTokenProviderError::Parse(_)) => {},
            Err(other) => panic!("expected a parse error, got {:?}", other),
            Ok(_) => panic!("expected a parse error, got a token"),
        }
    }
}

#[test]
fn bad_request_bodies_carry_structured_errors() {
    let body = br#"{"error":"invalid_grant","error_description":"expired"}"#;
    let err = parse_error(body).unwrap();
    assert_eq!(AuthorizationServerErrorCode::InvalidGrant, err.error);
    assert_eq!(Some("expired".to_string()), err.error_description);
    assert_eq!(None, err.error_uri);

    match parse_error(br#"{"error":"something_else"}"#) {
        Err(AccessTokenProviderError::Other(_)) => {},
        other => panic!("expected an unknown-code error, got {:?}", other),
    }
    match parse_error(br#"{"error_description":"no code"}"#) {
        Err(AccessTokenProviderError::Parse(_)) => {},
        other => panic!("expected a parse error, got {:?}", other),
    }
}

#[test]
fn every_error_code_has_its_wire_name() {
    let cases = [
        ("invalid_request", AuthorizationServerErrorCode::InvalidRequest),
        ("invalid_client", AuthorizationServerErrorCode::InvalidClient),
        ("invalid_grant", AuthorizationServerErrorCode::InvalidGrant),
        ("unauthorized_client", AuthorizationServerErrorCode::UnauthorizedClient),
        ("unsupported_grant_type", AuthorizationServerErrorCode::UnsupportedGrantType),
        ("invalid_scope", AuthorizationServerErrorCode::InvalidScope),
    ];
    for (wire, code) in cases {
        assert_eq!(code, AuthorizationServerErrorCode::from_wire(wire).unwrap());
    }
    assert!(AuthorizationServerErrorCode::from_wire("made_up").is_err());
}

#[test]
fn responses_classify_by_status() {
    let ok_body = br#"{"access_token":"abc","expires_in":1}"#;
    assert!(evaluate_response(200, ok_body).is_ok());

    match evaluate_response(400, br#"{"error":"invalid_client"}"#) {
        Err(AccessTokenProviderError::BadAuthorizationRequest(err)) => {
            assert_eq!(AuthorizationServerErrorCode::InvalidClient, err.error);
        },
        Err(other) => panic!("expected a structured rejection, got {:?}", other),
        Ok(_) => panic!("expected a structured rejection, got a token"),
    }
    assert!(matches!(
        evaluate_response(404, b""),
        Err(AccessTokenProviderError::Client(_))
    ));
    assert!(matches!(
        evaluate_response(503, b""),
        Err(AccessTokenProviderError::Server(_))
    ));
    assert!(matches!(
        evaluate_response(302, b""),
        Err(AccessTokenProviderError::Client(_))
    ));
}

#[test]
fn transience_of_provider_errors() {
    assert!(AccessTokenProviderError::Server("s".to_string()).is_transient());
    assert!(AccessTokenProviderError::Connection("c".to_string()).is_transient());
    assert!(AccessTokenProviderError::Other("o".to_string()).is_transient());
    assert!(!AccessTokenProviderError::Client("c".to_string()).is_transient());
    assert!(!AccessTokenProviderError::Parse("p".to_string()).is_transient());
}

#[test]
fn lifetimes_convert_to_milliseconds_saturating() {
    assert_eq!(0, millis_of_secs(0));
    assert_eq!(5000, millis_of_secs(5));
    assert_eq!(u64::MAX, millis_of_secs(u64::MAX));
}
