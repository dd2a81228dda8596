//! Parsers for credentials, which arrive as small JSON objects.
use vstd::prelude::*;

use crate::json_model::{decode_json_object, field_lookup, json_object_model, JsonObj, JsonVal,
    JsonValM};
use super::{ClientCredentials, CredentialsError, CredentialsResult, ResourceOwnerCredentials};

verus! {

/// The id/secret pair read from the fields: the two strings under the given
/// names, or `None` — a parse failure — when either is missing or not a
/// string.
pub open spec fn spec_parse_credentials(
    fields: Seq<(Seq<char>, JsonValM)>,
    id_field: Seq<char>,
    secret_field: Seq<char>,
) -> Option<(Seq<char>, Seq<char>)> {
    match (field_lookup(fields, id_field), field_lookup(fields, secret_field)) {
        (Some(JsonValM::Str(id)), Some(JsonValM::Str(secret))) => Some((id, secret)),
        _ => None,
    }
}

/// What parsing credential bytes gives: the id/secret pair, or `None` when
/// the bytes are not a JSON object carrying the two string fields.
pub open spec fn spec_parse_credentials_bytes(
    bytes: Seq<u8>,
    id_field: Seq<char>,
    secret_field: Seq<char>,
) -> Option<(Seq<char>, Seq<char>)> {
    match json_object_model(bytes) {
        Some(fields) => spec_parse_credentials(fields, id_field, secret_field),
        None => None,
    }
}

/// Reads the two configured string fields out of a decoded credentials
/// object.
fn credentials_from_fields(
    doc: &JsonObj,
    id_field_name: &str,
    secret_field_name: &str,
) -> (r: CredentialsResult<(String, String)>)
    ensures
        r is Ok <==> spec_parse_credentials(doc@, id_field_name@, secret_field_name@) is Some,
        r matches Ok(c) ==> Some((c.0@, c.1@)) == spec_parse_credentials(
            doc@,
            id_field_name@,
            secret_field_name@,
        ),
        r matches Err(e) ==> e matches CredentialsError::Parse(_),
{
    let id: String = match doc.get(id_field_name) {
        Some(JsonVal::Str(s)) => s.clone(),
        _ => {
            return Err(
                CredentialsError::Parse("expected a string in the id field".to_owned()),
            );
        },
    };
    let secret: String = match doc.get(secret_field_name) {
        Some(JsonVal::Str(s)) => s.clone(),
        _ => {
            return Err(
                CredentialsError::Parse("expected a string in the secret field".to_owned()),
            );
        },
    };
    Ok((id, secret))
}

/// Parses an id/secret pair from the bytes of a credentials JSON document.
pub fn parse_credentials(
    bytes: &[u8],
    id_field_name: &str,
    secret_field_name: &str,
) -> (r: CredentialsResult<(String, String)>)
    ensures
        r is Ok <==> spec_parse_credentials_bytes(bytes@, id_field_name@, secret_field_name@)
            is Some,
        r matches Ok(c) ==> Some((c.0@, c.1@)) == spec_parse_credentials_bytes(
            bytes@,
            id_field_name@,
            secret_field_name@,
        ),
        r matches Err(e) ==> e matches CredentialsError::Parse(_),
{
    match decode_json_object(bytes) {
        Some(doc) => credentials_from_fields(&doc, id_field_name, secret_field_name),
        None => Err(CredentialsError::Parse("not a JSON object".to_owned())),
    }
}

/// Parses `ClientCredentials` from configurable field names.
pub fn parse_client_credentials(
    bytes: &[u8],
    client_id_field_name: &str,
    client_secret_field_name: &str,
) -> (r: CredentialsResult<ClientCredentials>)
    ensures
        r is Ok <==> spec_parse_credentials_bytes(
            bytes@,
            client_id_field_name@,
            client_secret_field_name@,
        ) is Some,
        r matches Ok(c) ==> Some((c.client_id@, c.client_secret@))
            == spec_parse_credentials_bytes(
            bytes@,
            client_id_field_name@,
            client_secret_field_name@,
        ),
        r matches Err(e) ==> e matches CredentialsError::Parse(_),
{
    match parse_credentials(bytes, client_id_field_name, client_secret_field_name) {
        Ok(pair) => Ok(ClientCredentials { client_id: pair.0, client_secret: pair.1 }),
        Err(e) => Err(e),
    }
}

/// Parses `ResourceOwnerCredentials` from configurable field names.
pub fn parse_resource_owner_credentials(
    bytes: &[u8],
    user_id_field_name: &str,
    user_password_field_name: &str,
) -> (r: CredentialsResult<ResourceOwnerCredentials>)
    ensures
        r is Ok <==> spec_parse_credentials_bytes(
            bytes@,
            user_id_field_name@,
            user_password_field_name@,
        ) is Some,
        r matches Ok(c) ==> Some((c.username@, c.password@)) == spec_parse_credentials_bytes(
            bytes@,
            user_id_field_name@,
            user_password_field_name@,
        ),
        r matches Err(e) ==> e matches CredentialsError::Parse(_),
{
    match parse_credentials(bytes, user_id_field_name, user_password_field_name) {
        Ok(pair) => Ok(ResourceOwnerCredentials { username: pair.0, password: pair.1 }),
        Err(e) => Err(e),
    }
}

/// A parser for `ClientCredentials`.
pub trait ClientCredentialsParser {
    /// The id/secret pair this parser reads out of the given bytes, or
    /// `None` when it rejects them.
    spec fn spec_parse(&self, bytes: Seq<u8>) -> Option<(Seq<char>, Seq<char>)>;

    /// Parses the bytes of a client credentials document.
    fn parse(&self, bytes: &[u8]) -> (r: CredentialsResult<ClientCredentials>)
        ensures
            r is Ok <==> self.spec_parse(bytes@) is Some,
            r matches Ok(c) ==> Some((c.client_id@, c.client_secret@)) == self.spec_parse(bytes@),
    ;
}

/// The default parser for `ClientCredentials`: the fields `client_id` and
/// `client_secret`.
pub struct DefaultClientCredentialsParser;

impl ClientCredentialsParser for DefaultClientCredentialsParser {
    open spec fn spec_parse(&self, bytes: Seq<u8>) -> Option<(Seq<char>, Seq<char>)> {
        spec_parse_credentials_bytes(bytes, "client_id"@, "client_secret"@)
    }

    fn parse(&self, bytes: &[u8]) -> (r: CredentialsResult<ClientCredentials>) {
        parse_client_credentials(bytes, "client_id", "client_secret")
    }
}

/// A parser for `ResourceOwnerCredentials`.
pub trait ResourceOwnerCredentialsParser {
    /// The username/password pair this parser reads out of the given bytes,
    /// or `None` when it rejects them.
    spec fn spec_parse(&self, bytes: Seq<u8>) -> Option<(Seq<char>, Seq<char>)>;

    /// Parses the bytes of a resource owner credentials document.
    fn parse(&self, bytes: &[u8]) -> (r: CredentialsResult<ResourceOwnerCredentials>)
        ensures
            r is Ok <==> self.spec_parse(bytes@) is Some,
            r matches Ok(c) ==> Some((c.username@, c.password@)) == self.spec_parse(bytes@),
    ;
}

/// The default parser for `ResourceOwnerCredentials`: the fields `username`
/// and `password`.
pub struct DefaultResourceOwnerCredentialsParser;

impl ResourceOwnerCredentialsParser for DefaultResourceOwnerCredentialsParser {
    open spec fn spec_parse(&self, bytes: Seq<u8>) -> Option<(Seq<char>, Seq<char>)> {
        spec_parse_credentials_bytes(bytes, "username"@, "password"@)
    }

    fn parse(&self, bytes: &[u8]) -> (r: CredentialsResult<ResourceOwnerCredentials>) {
        parse_resource_owner_credentials(bytes, "username", "password")
    }
}

/// A parser for `ResourceOwnerCredentials` where the resource owner is an
/// application: the fields `application_username` and `application_password`.
pub struct ApplicationResourceOwnerCredentialsParser;

impl ResourceOwnerCredentialsParser for ApplicationResourceOwnerCredentialsParser {
    open spec fn spec_parse(&self, bytes: Seq<u8>) -> Option<(Seq<char>, Seq<char>)> {
        spec_parse_credentials_bytes(bytes, "application_username"@, "application_password"@)
    }

    fn parse(&self, bytes: &[u8]) -> (r: CredentialsResult<ResourceOwnerCredentials>) {
        parse_resource_owner_credentials(bytes, "application_username", "application_password")
    }
}

} // verus!
