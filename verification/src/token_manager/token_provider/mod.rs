//! Interaction with the authorization server: the provider contract, the
//! wire-format assembly of a Resource Owner Password Credentials request,
//! and the classification of the server's response.
use vstd::prelude::*;

pub mod credentials;
mod errors;

pub use errors::{AccessTokenProviderError, AuthorizationRequestError, AuthorizationServerErrorCode,
    spec_error_code_of};

use crate::json_model::{decode_json_object, field_lookup, json_object_model, JsonObj, JsonVal,
    JsonValM};
use crate::{AccessToken, Scope};

verus! {

/// A `Result` whose failure is always an `AccessTokenProviderError`.
pub type AccessTokenProviderResult = Result<
    AuthorizationServerResponse,
    AccessTokenProviderError,
>;

/// The response an `AccessTokenProvider` received from an authorization
/// server.
pub struct AuthorizationServerResponse {
    /// The freshly issued access token.
    pub access_token: AccessToken,
    /// How long the token stays valid, in milliseconds.
    pub expires_in_ms: u64,
    /// A refresh token, when the server issued one.
    pub refresh_token: Option<String>,
}

/// Calls an authorization server for an `AccessToken` and the time left
/// until that token expires.
///
/// Implementors may use different flows to interact with the authorization
/// server.
pub trait AccessTokenProvider {
    /// Issues a request to the authorization server for an `AccessToken`
    /// with the given `Scope`s.
    fn request_access_token(&self, scopes: &[Scope]) -> AccessTokenProviderResult;
}

/// The standard `application/x-www-form-urlencoded` encoding of the given
/// key/value pairs, in order.
pub uninterp spec fn form_urlencoded_of(pairs: Seq<(Seq<char>, Seq<char>)>) -> Seq<char>;

/// Relies on `url::form_urlencoded::Serializer`: percent-encodes each pair
/// and joins them with `&`.
#[verifier::external_body]
fn form_urlencode(pairs: &Vec<(String, String)>) -> (r: String)
    ensures
        r@ == form_urlencoded_of(pairs@.map_values(|p: (String, String)| (p.0@, p.1@))),
{
    let mut serializer = url::form_urlencoded::Serializer::new(String::new());
    for (key, value) in pairs.iter() {
        serializer.append_pair(key, value);
    }
    serializer.finish()
}

/// The scopes joined into the wire form: space-separated, in order.
pub open spec fn spec_join_scopes(scopes: Seq<Seq<char>>) -> Seq<char>
    decreases scopes.len(),
{
    if scopes.len() == 0 {
        Seq::empty()
    } else if scopes.len() == 1 {
        scopes[0]
    } else {
        spec_join_scopes(scopes.drop_last()) + seq![' '] + scopes.last()
    }
}

/// Joins scopes with single spaces, preserving their order.
pub fn join_scopes(scopes: &[Scope]) -> (r: String)
    ensures
        r@ == spec_join_scopes(crate::scopes_view(scopes@)),
{
    let n = scopes.len();
    let mut out = String::new();
    let mut i: usize = 0;
    proof {
        assert(crate::scopes_view(scopes@).take(0) =~= Seq::<Seq<char>>::empty());
    }
    while i < n
        invariant
            0 <= i <= n,
            n == scopes@.len(),
            out@ == spec_join_scopes(crate::scopes_view(scopes@).take(i as int)),
        decreases n - i,
    {
        if i > 0 {
            out.append(" ");
        }
        out.append(scopes[i].0.as_str());
        proof {
            reveal_strlit(" ");
            assert(" "@ =~= seq![' ']);
            let full = crate::scopes_view(scopes@);
            assert(full.take(i + 1).drop_last() =~= full.take(i as int));
            assert(full.take(i + 1).last() == full[i as int]);
            if i == 0 {
                assert(out@ =~= full.take(1)[0]);
            }
        }
        i = i + 1;
    }
    proof {
        assert(crate::scopes_view(scopes@).take(n as int) =~= crate::scopes_view(scopes@));
    }
    out
}

/// The body of a Resource Owner Password Credentials token request
/// (RFC 6749 section 4.3.2): the grant type, the owner's credentials and the
/// space-joined scopes, form-encoded in that order.
pub open spec fn spec_token_request_body(
    username: Seq<char>,
    password: Seq<char>,
    scopes: Seq<Seq<char>>,
) -> Seq<char> {
    form_urlencoded_of(
        seq![
            ("grant_type"@, "password"@),
            ("username"@, username),
            ("password"@, password),
            ("scope"@, spec_join_scopes(scopes)),
        ],
    )
}

/// Builds the form-encoded body of a token request.
pub fn build_token_request_body(username: &str, password: &str, scopes: &[Scope]) -> (r: String)
    ensures
        r@ == spec_token_request_body(username@, password@, crate::scopes_view(scopes@)),
{
    let joined = join_scopes(scopes);
    let mut pairs: Vec<(String, String)> = Vec::new();
    pairs.push(("grant_type".to_owned(), "password".to_owned()));
    pairs.push(("username".to_owned(), username.to_owned()));
    pairs.push(("password".to_owned(), password.to_owned()));
    pairs.push(("scope".to_owned(), joined));
    let encoded = form_urlencode(&pairs);
    proof {
        assert(pairs@.map_values(|p: (String, String)| (p.0@, p.1@)) =~= seq![
            ("grant_type"@, "password"@),
            ("username"@, username@),
            ("password"@, password@),
            ("scope"@, spec_join_scopes(crate::scopes_view(scopes@))),
        ]);
    }
    encoded
}

/// The full token endpoint URL: the endpoint, with the realm appended as a
/// `realm` query parameter when one is configured.
pub open spec fn spec_token_endpoint(endpoint: Seq<char>, realm: Option<Seq<char>>) -> Seq<char> {
    match realm {
        Some(r) => endpoint + "?realm="@ + r,
        None => endpoint,
    }
}

/// Builds the full token endpoint URL.
pub fn assemble_token_endpoint(endpoint: &str, realm: Option<&str>) -> (r: String)
    ensures
        r@ == spec_token_endpoint(endpoint@, crate::parsers::opt_str_view(realm)),
{
    let mut url = endpoint.to_owned();
    match realm {
        Some(realm_name) => {
            url.append("?realm=");
            url.append(realm_name);
        },
        None => {},
    }
    url
}

/// The milliseconds denoted by a number of seconds, saturating at the
/// largest representable duration.
pub open spec fn spec_millis_of_secs(secs: u64) -> u64 {
    if secs * 1000 <= u64::MAX {
        (secs * 1000) as u64
    } else {
        u64::MAX
    }
}

/// Converts seconds to milliseconds, saturating.
pub fn millis_of_secs(secs: u64) -> (r: u64)
    ensures
        r == spec_millis_of_secs(secs),
{
    if secs <= u64::MAX / 1000 {
        secs * 1000
    } else {
        u64::MAX
    }
}

/// The token response read from the fields: the required `access_token`
/// string, the required non-negative `expires_in` seconds, and the optional
/// `refresh_token` string; `None` — a parse failure — when a required field
/// is missing or any field has the wrong shape.
pub open spec fn spec_parse_response(fields: Seq<(Seq<char>, JsonValM)>) -> Option<
    (Seq<char>, u64, Option<Seq<char>>),
> {
    match (
        field_lookup(fields, "access_token"@),
        field_lookup(fields, "expires_in"@),
        field_lookup(fields, "refresh_token"@),
    ) {
        (Some(JsonValM::Str(token)), Some(JsonValM::UInt(secs)), None) => Some(
            (token, secs, None),
        ),
        (Some(JsonValM::Str(token)), Some(JsonValM::UInt(secs)), Some(JsonValM::Str(refresh)))
            => Some((token, secs, Some(refresh))),
        _ => None,
    }
}

/// What parsing token response bytes gives: the access token, the seconds
/// until expiry and the optional refresh token; or `None` when the bytes are
/// not a JSON object of that shape.
pub open spec fn spec_parse_response_bytes(bytes: Seq<u8>) -> Option<
    (Seq<char>, u64, Option<Seq<char>>),
> {
    match json_object_model(bytes) {
        Some(fields) => spec_parse_response(fields),
        None => None,
    }
}

/// Reads a successful token response out of a decoded JSON object.
fn response_from_fields(doc: &JsonObj) -> (r: AccessTokenProviderResult)
    ensures
        r is Ok <==> spec_parse_response(doc@) is Some,
        r matches Ok(rsp) ==> {
            let parts = spec_parse_response(doc@).unwrap();
            &&& rsp.access_token.0@ == parts.0
            &&& rsp.expires_in_ms == spec_millis_of_secs(parts.1)
            &&& crate::parsers::opt_string_view(rsp.refresh_token) == match parts.2 {
                Some(s) => Some(s),
                None => None::<Seq<char>>,
            }
        },
        r matches Err(e) ==> e matches AccessTokenProviderError::Parse(_),
{
    let access_token: String = match doc.get("access_token") {
        Some(JsonVal::Str(s)) => s.clone(),
        _ => {
            return Err(
                AccessTokenProviderError::Parse(
                    "expected a string as the access token".to_owned(),
                ),
            );
        },
    };
    let expires_in_secs: u64 = match doc.get("expires_in") {
        Some(JsonVal::UInt(u)) => *u,
        _ => {
            return Err(
                AccessTokenProviderError::Parse(
                    "expected a non-negative number of seconds as the expiry".to_owned(),
                ),
            );
        },
    };
    let refresh_token: Option<String> = match doc.get("refresh_token") {
        Some(JsonVal::Str(s)) => Some(s.clone()),
        None => None,
        _ => {
            return Err(
                AccessTokenProviderError::Parse(
                    "expected a string as the refresh token".to_owned(),
                ),
            );
        },
    };
    Ok(
        AuthorizationServerResponse {
            access_token: AccessToken(access_token),
            expires_in_ms: millis_of_secs(expires_in_secs),
            refresh_token,
        },
    )
}

/// Parses a successful (HTTP 200) token response body.
pub fn parse_response(bytes: &[u8]) -> (r: AccessTokenProviderResult)
    ensures
        r is Ok <==> spec_parse_response_bytes(bytes@) is Some,
        r matches Ok(rsp) ==> {
            let parts = spec_parse_response_bytes(bytes@).unwrap();
            &&& rsp.access_token.0@ == parts.0
            &&& rsp.expires_in_ms == spec_millis_of_secs(parts.1)
            &&& crate::parsers::opt_string_view(rsp.refresh_token) == match parts.2 {
                Some(s) => Some(s),
                None => None::<Seq<char>>,
            }
        },
        r matches Err(e) ==> e matches AccessTokenProviderError::Parse(_),
{
    match decode_json_object(bytes) {
        Some(doc) => response_from_fields(&doc),
        None => Err(
            AccessTokenProviderError::Parse("token response is not a JSON object".to_owned()),
        ),
    }
}

/// The structured error read from the fields of a bad-request body: the
/// required `error` code and the optional `error_description` and
/// `error_uri` strings. The outer `Option` is `None` — a parse failure —
/// when the object has not that shape; the inner one is `None` when the
/// `error` string is no known code.
pub open spec fn spec_parse_error_fields(fields: Seq<(Seq<char>, JsonValM)>) -> Option<
    Option<(AuthorizationServerErrorCode, Option<Seq<char>>, Option<Seq<char>>)>,
> {
    match (
        field_lookup(fields, "error"@),
        field_lookup(fields, "error_description"@),
        field_lookup(fields, "error_uri"@),
    ) {
        (Some(JsonValM::Str(code)), description, uri) => {
            let description_part = match description {
                None => Some(None::<Seq<char>>),
                Some(JsonValM::Str(d)) => Some(Some(d)),
                Some(_) => None,
            };
            let uri_part = match uri {
                None => Some(None::<Seq<char>>),
                Some(JsonValM::Str(u)) => Some(Some(u)),
                Some(_) => None,
            };
            match (description_part, uri_part) {
                (Some(d), Some(u)) => Some(
                    match spec_error_code_of(code) {
                        Some(c) => Some((c, d, u)),
                        None => None,
                    },
                ),
                _ => None,
            }
        },
        _ => None,
    }
}

/// What parsing bad-request body bytes gives, as in
/// [`spec_parse_error_fields`], with `None` for bytes that are not a JSON
/// object.
pub open spec fn spec_parse_error_bytes(bytes: Seq<u8>) -> Option<
    Option<(AuthorizationServerErrorCode, Option<Seq<char>>, Option<Seq<char>>)>,
> {
    match json_object_model(bytes) {
        Some(fields) => spec_parse_error_fields(fields),
        None => None,
    }
}

/// Reads a structured authorization error out of a decoded JSON object.
fn error_from_fields(doc: &JsonObj) -> (r: Result<
    AuthorizationRequestError,
    AccessTokenProviderError,
>)
    ensures
        r is Ok <==> spec_parse_error_fields(doc@) matches Some(Some(_)),
        r matches Ok(are) ==> {
            let parts = spec_parse_error_fields(doc@).unwrap().unwrap();
            &&& are.error == parts.0
            &&& crate::parsers::opt_string_view(are.error_description) == parts.1
            &&& crate::parsers::opt_string_view(are.error_uri) == parts.2
        },
        spec_parse_error_fields(doc@) is None ==> (r matches Err(e) && e
            matches AccessTokenProviderError::Parse(_)),
        spec_parse_error_fields(doc@) matches Some(None) ==> (r matches Err(e) && e
            matches AccessTokenProviderError::Other(_)),
{
    let code_text: String = match doc.get("error") {
        Some(JsonVal::Str(s)) => s.clone(),
        _ => {
            return Err(
                AccessTokenProviderError::Parse("expected a string as the error".to_owned()),
            );
        },
    };
    let error_description: Option<String> = match doc.get("error_description") {
        Some(JsonVal::Str(s)) => Some(s.clone()),
        None => None,
        _ => {
            return Err(
                AccessTokenProviderError::Parse(
                    "expected a string as the error description".to_owned(),
                ),
            );
        },
    };
    let error_uri: Option<String> = match doc.get("error_uri") {
        Some(JsonVal::Str(s)) => Some(s.clone()),
        None => None,
        _ => {
            return Err(
                AccessTokenProviderError::Parse("expected a string as the error uri".to_owned()),
            );
        },
    };
    let error = match AuthorizationServerErrorCode::from_wire(code_text.as_str()) {
        Ok(code) => code,
        Err(e) => {
            return Err(e);
        },
    };
    Ok(AuthorizationRequestError { error, error_description, error_uri })
}

/// Parses the structured error body of a bad request (HTTP 400).
pub fn parse_error(bytes: &[u8]) -> (r: Result<
    AuthorizationRequestError,
    AccessTokenProviderError,
>)
    ensures
        r is Ok <==> spec_parse_error_bytes(bytes@) matches Some(Some(_)),
        r matches Ok(are) ==> {
            let parts = spec_parse_error_bytes(bytes@).unwrap().unwrap();
            &&& are.error == parts.0
            &&& crate::parsers::opt_string_view(are.error_description) == parts.1
            &&& crate::parsers::opt_string_view(are.error_uri) == parts.2
        },
        spec_parse_error_bytes(bytes@) is None ==> (r matches Err(e) && e
            matches AccessTokenProviderError::Parse(_)),
        spec_parse_error_bytes(bytes@) matches Some(None) ==> (r matches Err(e) && e
            matches AccessTokenProviderError::Other(_)),
{
    match decode_json_object(bytes) {
        Some(doc) => error_from_fields(&doc),
        None => Err(
            AccessTokenProviderError::Parse("the error body is not a JSON object".to_owned()),
        ),
    }
}

/// Classifies a raw authorization-server reply by status code, per
/// RFC 6749: 200 carries a token response, 400 a structured error, any other
/// client-side status is terminal, and server-side failures are retriable.
pub fn evaluate_response(status: u16, body: &[u8]) -> (r: AccessTokenProviderResult)
    ensures
        status == 200 ==> (r is Ok <==> spec_parse_response_bytes(body@) is Some),
        status == 200 ==> (r matches Ok(rsp) ==> {
            let parts = spec_parse_response_bytes(body@).unwrap();
            &&& rsp.access_token.0@ == parts.0
            &&& rsp.expires_in_ms == spec_millis_of_secs(parts.1)
        }),
        status == 200 ==> (r matches Err(e) ==> e matches AccessTokenProviderError::Parse(_)),
        status == 400 ==> r is Err,
        status == 400 ==> (spec_parse_error_bytes(body@) matches Some(Some(parts)) ==> (r
            matches Err(AccessTokenProviderError::BadAuthorizationRequest(are)) && are.error
            == parts.0)),
        status == 400 && spec_parse_error_bytes(body@) is None ==> (r matches Err(e) && e
            matches AccessTokenProviderError::Parse(_)),
        status == 400 ==> (spec_parse_error_bytes(body@) matches Some(None) ==> (r matches Err(e)
            && e matches AccessTokenProviderError::Other(_))),
        status != 200 && status != 400 && 400 <= status < 500 ==> r matches Err(
            AccessTokenProviderError::Client(_),
        ),
        500 <= status < 600 ==> r matches Err(AccessTokenProviderError::Server(_)),
        !(status == 200 || 400 <= status < 600) ==> r matches Err(
            AccessTokenProviderError::Client(_),
        ),
{
    if status == 200 {
        parse_response(body)
    } else if status == 400 {
        match parse_error(body) {
            Ok(are) => Err(AccessTokenProviderError::BadAuthorizationRequest(are)),
            Err(e) => Err(e),
        }
    } else if 400 <= status && status < 500 {
        Err(
            AccessTokenProviderError::Client(
                "the request sent to the authorization server was faulty".to_owned(),
            ),
        )
    } else if 500 <= status && status < 600 {
        Err(
            AccessTokenProviderError::Server(
                "the authorization server returned an error".to_owned(),
            ),
        )
    } else {
        Err(
            AccessTokenProviderError::Client(
                "unexpected status code from the authorization server".to_owned(),
            ),
        )
    }
}

} // verus!
