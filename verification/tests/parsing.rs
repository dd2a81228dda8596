//! Tests of the token-info parsers.
use tokkit::parsers::{parse, parse_token_info_fields, split_scopes, token_info_to_fields,
    AmazonTokenInfoParser, CustomTokenInfoParser, GoogleV3TokenInfoParser, PlanBTokenInfoParser,
    TokenInfoParser};
use tokkit::{Scope, TokenInfo, UserId};

#[test]
fn parsers_amazon_token_info() {}

#[test]
fn parsers_google_v3_token_info_multiple_scopes() {
    let sample = br#"
    {
        "aud":"8819981768.apps.googleusercontent.com",
        "user_id":"123456789",
        "scope":"a b https://www.googleapis.com/auth/drive.metadata.readonly d",
        "expires_in":436
    }
    "#;

    let expected = TokenInfo {
        active: true,
        user_id: Some(UserId::new("123456789")),
        scope: vec![
            Scope::new("a"),
            Scope::new("b"),
            Scope::new("https://www.googleapis.com/auth/drive.metadata.readonly"),
            Scope::new("d"),
        ],
        expires_in_seconds: Some(436),
    };

    let token_info = GoogleV3TokenInfoParser.parse(sample).unwrap();

    assert_eq!(expected, token_info);
}

#[test]
fn parsers_google_v3_token_info_multiple_scopes_whitespaces() {
    let sample = br#"
    {
        "aud":"8819981768.apps.googleusercontent.com",
        "user_id":"123456789",
        "scope":" a     b  https://www.googleapis.com/auth/drive.metadata.readonly d   ",
        "expires_in":436
    }
    "#;

    let expected = TokenInfo {
        active: true,
        user_id: Some(UserId::new("123456789")),
        scope: vec![
            Scope::new("a"),
            Scope::new("b"),
            Scope::new("https://www.googleapis.com/auth/drive.metadata.readonly"),
            Scope::new("d"),
        ],
        expires_in_seconds: Some(436),
    };

    let token_info = GoogleV3TokenInfoParser.parse(sample).unwrap();

    assert_eq!(expected, token_info);
}

#[test]
fn parse_plan_b_token_info_full() {
    let sample = br#"
    {
        "access_token": "token",
        "cn": true,
        "expires_in": 28292,
        "grant_type": "password",
        "open_id": "token",
        "realm": "/services",
        "scope": ["cn"],
        "token_type": "Bearer",
        "uid": "test2"
    }
    "#;

    let expected = TokenInfo {
        active: true,
        user_id: Some(UserId::new("test2")),
        scope: vec![Scope::new("cn")],
        expires_in_seconds: Some(28292),
    };

    let token_info = PlanBTokenInfoParser.parse(sample).unwrap();

    assert_eq!(expected, token_info);
}

#[test]
fn amazon_token_info_exp_field() {
    let sample = br#"
    {
        "iss":"https://www.amazon.com",
        "user_id": "amznl.account.K2LI23KL2LK2",
        "aud": "amznl.oa2-client.ASFWDFBRN",
        "app_id": "amznl.application.436457DFHDH",
        "exp": 3597,
        "iat": 1311280970
    }
    "#;

    let expected = TokenInfo {
        active: true,
        user_id: Some(UserId::new("amznl.account.K2LI23KL2LK2")),
        scope: Vec::new(),
        expires_in_seconds: Some(3597),
    };

    let token_info = AmazonTokenInfoParser.parse(sample).unwrap();

    assert_eq!(expected, token_info);
}

#[test]
fn scope_string_and_array_denote_the_same_scopes() {
    let as_string = br#"{"user_id":"u","scope":"a b c","expires_in":60}"#;
    let as_array = br#"{"user_id":"u","scope":["a","b","c"],"expires_in":60}"#;

    let from_string = GoogleV3TokenInfoParser.parse(as_string).unwrap();
    let from_array = GoogleV3TokenInfoParser.parse(as_array).unwrap();

    assert_eq!(from_string, from_array);
}

#[test]
fn custom_parser_reads_the_active_field() {
    let parser = CustomTokenInfoParser::new(
        Some("active".to_string()),
        Some("uid".to_string()),
        Some("scope".to_string()),
        Some("expires_in".to_string()),
    );

    let active = br#"{"active":true,"uid":"u","scope":"s","expires_in":1}"#;
    let inactive = br#"{"active":false,"uid":"u","scope":"s","expires_in":1}"#;
    let as_text = br#"{"active":"true","uid":"u","scope":"s","expires_in":1}"#;
    let invalid = br#"{"active":7,"uid":"u","scope":"s","expires_in":1}"#;

    assert!(parser.parse(active).unwrap().active);
    assert!(!parser.parse(inactive).unwrap().active);
    assert!(parser.parse(as_text).unwrap().active);
    assert!(parser.parse(invalid).is_err());
}

#[test]
fn parse_rejects_what_is_not_a_token_info_object() {
    assert!(parse(b"[1, 2]", None, Some("uid"), None, None).is_err());
    assert!(parse(b"not json at all", None, Some("uid"), None, None).is_err());
    assert!(parse(br#"{"uid": 42}"#, None, Some("uid"), None, None).is_err());
    assert!(parse(br#"{"uid": "u"}"#, None, Some("uid"), None, Some("expires_in")).is_err());
    assert!(parse(br#"{"uid":"u","expires_in":-3}"#, None, Some("uid"), None, Some("expires_in"))
        .is_err());
    assert!(parse(br#"{"uid":"u","scope":{"a":1}}"#, None, Some("uid"), Some("scope"), None)
        .is_err());
}

#[test]
fn parse_defaults_without_configured_fields() {
    let info = parse(br#"{"anything":"else"}"#, None, None, None, None).unwrap();
    assert_eq!(
        TokenInfo { active: true, user_id: None, scope: Vec::new(), expires_in_seconds: None },
        info
    );
}

#[test]
fn parse_treats_a_missing_scope_field_as_empty() {
    let info = parse(br#"{"uid":"u"}"#, None, Some("uid"), Some("scope"), None).unwrap();
    assert_eq!(Vec::<Scope>::new(), info.scope);
}

#[test]
fn rendering_and_parsing_a_token_info_round_trips() {
    let info = TokenInfo {
        active: false,
        user_id: Some(UserId::new("alice")),
        scope: vec![Scope::new("read"), Scope::new("write")],
        expires_in_seconds: Some(3600),
    };
    let doc = token_info_to_fields(&info, "active", "uid", "scope", "expires_in");
    let reparsed = parse_token_info_fields(
        &doc,
        Some("active"),
        Some("uid"),
        Some("scope"),
        Some("expires_in"),
    )
    .unwrap();
    assert_eq!(info, reparsed);
}

#[test]
fn split_scopes_discards_empty_tokens() {
    assert_eq!(Vec::<Scope>::new(), split_scopes(""));
    assert_eq!(Vec::<Scope>::new(), split_scopes("    "));
    assert_eq!(vec![Scope::new("a")], split_scopes("a"));
    assert_eq!(vec![Scope::new("a"), Scope::new("b")], split_scopes(" a     b "));
}

#[test]
fn token_info_scope_queries() {
    let info = TokenInfo {
        active: true,
        user_id: None,
        scope: vec![Scope::new("read"), Scope::new("write")],
        expires_in_seconds: None,
    };
    assert!(info.has_scope(&Scope::new("read")));
    assert!(!info.has_scope(&Scope::new("admin")));
    assert!(info.has_scopes(&[Scope::new("read"), Scope::new("write")]));
    assert!(!info.has_scopes(&[Scope::new("read"), Scope::new("admin")]));
    assert!(info.must_have_scope(&Scope::new("write")).is_ok());
    assert!(info.must_have_scope(&Scope::new("admin")).is_err());
}
