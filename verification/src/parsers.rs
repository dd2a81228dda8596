//! Parsers for the responses of a token introspection endpoint.
//!
//! Every dialect reads the same four pieces out of a JSON object — the
//! `active` flag, the resource owner, the scopes and the seconds until
//! expiry — but under different field names. [`parse`] is the common engine;
//! the dialect parsers fix the field names.
use vstd::prelude::*;

use crate::json_model::{decode_json_object, field_lookup, json_object_model, JsonObj, JsonVal,
    JsonValM};
use crate::{scopes_view, str_eq, Scope, TokenInfo, TokenInfoM, UserId};

verus! {

/// The length of the leading run of non-space characters.
pub open spec fn token_len(s: Seq<char>) -> nat
    decreases s.len(),
{
    if s.len() == 0 {
        0
    } else if s[0] == ' ' {
        0
    } else {
        (token_len(s.drop_first()) + 1) as nat
    }
}

pub proof fn lemma_token_len_le(s: Seq<char>)
    ensures
        token_len(s) <= s.len(),
    decreases s.len(),
{
    if s.len() > 0 && s[0] != ' ' {
        lemma_token_len_le(s.drop_first());
    }
}

/// The leading token ends exactly at the first space.
pub proof fn lemma_token_len_at(s: Seq<char>, i: int)
    requires
        0 <= i <= s.len(),
        forall|k: int| 0 <= k < i ==> s[k] != ' ',
        i == s.len() || s[i] == ' ',
    ensures
        token_len(s) == i,
    decreases i,
{
    if i > 0 {
        assert(s[0] != ' ');
        lemma_token_len_at(s.drop_first(), i - 1);
    }
}

/// The scopes denoted by a space-separated scope string: the maximal
/// non-empty runs of non-space characters, in order.
pub open spec fn spec_split_scopes(s: Seq<char>) -> Seq<Seq<char>>
    decreases s.len(),
    via spec_split_scopes_decreases
{
    if s.len() == 0 {
        Seq::empty()
    } else if s[0] == ' ' {
        spec_split_scopes(s.drop_first())
    } else {
        seq![s.take(token_len(s) as int)] + spec_split_scopes(s.skip(token_len(s) as int))
    }
}

#[via_fn]
proof fn spec_split_scopes_decreases(s: Seq<char>) {
    if s.len() > 0 && s[0] != ' ' {
        lemma_token_len_le(s);
    }
}

/// Splits a space-separated scope string, discarding empty tokens.
pub fn split_scopes(input: &str) -> (r: Vec<Scope>)
    ensures
        scopes_view(r@) == spec_split_scopes(input@),
{
    let len = input.unicode_len();
    let mut out: Vec<Scope> = Vec::new();
    let mut pos: usize = 0;
    proof {
        assert(input@.skip(0) =~= input@);
        assert(scopes_view(out@) =~= Seq::<Seq<char>>::empty());
    }
    while pos < len
        invariant
            0 <= pos <= len,
            len == input@.len(),
            scopes_view(out@) + spec_split_scopes(input@.skip(pos as int)) == spec_split_scopes(
                input@,
            ),
        decreases len - pos,
    {
        if input.get_char(pos) == ' ' {
            proof {
                assert(input@.skip(pos as int).drop_first() =~= input@.skip(pos as int + 1));
            }
            pos = pos + 1;
        } else {
            let ghost tail = input@.skip(pos as int);
            let mut end: usize = pos + 1;
            while end < len && input.get_char(end) != ' '
                invariant
                    pos < end <= len,
                    len == input@.len(),
                    forall|k: int| pos <= k < end ==> input@[k] != ' ',
                decreases len - end,
            {
                end = end + 1;
            }
            proof {
                assert(forall|k: int| 0 <= k < end - pos ==> tail[k] == input@[pos + k]);
                if end < len {
                    assert(tail[end - pos as int] == input@[end as int]);
                }
                lemma_token_len_at(tail, end - pos as int);
                assert(tail.take(token_len(tail) as int) =~= input@.subrange(
                    pos as int,
                    end as int,
                ));
                assert(tail.skip(token_len(tail) as int) =~= input@.skip(end as int));
            }
            let token = input.substring_char(pos, end);
            let ghost scopes_before = scopes_view(out@);
            out.push(Scope(token.to_owned()));
            proof {
                assert(scopes_view(out@) =~= scopes_before.push(input@.subrange(
                    pos as int,
                    end as int,
                )));
                assert(scopes_before + spec_split_scopes(tail) == spec_split_scopes(input@));
                assert(scopes_before.push(input@.subrange(pos as int, end as int))
                    + spec_split_scopes(input@.skip(end as int)) =~= scopes_before + (seq![
                    input@.subrange(pos as int, end as int)] + spec_split_scopes(input@.skip(
                    end as int,
                ))));
            }
            pos = end;
        }
    }
    proof {
        assert(input@.skip(len as int).len() == 0);
        assert(scopes_view(out@) + spec_split_scopes(input@.skip(len as int)) =~= scopes_view(
            out@,
        ));
    }
    out
}

/// The view of an optional field-name argument.
pub open spec fn opt_str_view(o: Option<&str>) -> Option<Seq<char>> {
    match o {
        Some(s) => Some(s@),
        None => None,
    }
}

/// The `active` flag read from the fields: `true` when no field is
/// configured, the boolean (or the strings `"true"`/`"false"`) when present,
/// and `None` — a parse failure — otherwise.
pub open spec fn spec_parse_active(
    fields: Seq<(Seq<char>, JsonValM)>,
    active_field: Option<Seq<char>>,
) -> Option<bool> {
    match active_field {
        None => Some(true),
        Some(name) => match field_lookup(fields, name) {
            Some(JsonValM::Bool(b)) => Some(b),
            Some(JsonValM::Str(s)) => if s == "true"@ {
                Some(true)
            } else if s == "false"@ {
                Some(false)
            } else {
                None
            },
            _ => None,
        },
    }
}

/// The resource owner read from the fields: absent when no field is
/// configured, the string when present, and a parse failure otherwise.
pub open spec fn spec_parse_user_id(
    fields: Seq<(Seq<char>, JsonValM)>,
    user_id_field: Option<Seq<char>>,
) -> Option<Option<Seq<char>>> {
    match user_id_field {
        None => Some(None),
        Some(name) => match field_lookup(fields, name) {
            Some(JsonValM::Str(s)) => Some(Some(s)),
            _ => None,
        },
    }
}

/// The scopes read from the fields: empty when no field is configured or the
/// field is missing, the elements of a string array, a space-separated string
/// split into tokens, and a parse failure otherwise.
pub open spec fn spec_parse_scopes(
    fields: Seq<(Seq<char>, JsonValM)>,
    scope_field: Option<Seq<char>>,
) -> Option<Seq<Seq<char>>> {
    match scope_field {
        None => Some(Seq::empty()),
        Some(name) => match field_lookup(fields, name) {
            Some(JsonValM::StrList(items)) => Some(items),
            Some(JsonValM::Str(s)) => Some(spec_split_scopes(s)),
            None => Some(Seq::empty()),
            _ => None,
        },
    }
}

/// The seconds until expiry read from the fields: absent when no field is
/// configured, the non-negative integer when present, and a parse failure
/// otherwise — a configured but missing expiry field is a failure.
pub open spec fn spec_parse_expires_in(
    fields: Seq<(Seq<char>, JsonValM)>,
    expires_field: Option<Seq<char>>,
) -> Option<Option<u64>> {
    match expires_field {
        None => Some(None),
        Some(name) => match field_lookup(fields, name) {
            Some(JsonValM::UInt(u)) => Some(Some(u)),
            _ => None,
        },
    }
}

/// What parsing the fields of a token-info object gives: the `TokenInfo`
/// shape, or `None` when any configured field is unreadable.
pub open spec fn spec_parse_token_info(
    fields: Seq<(Seq<char>, JsonValM)>,
    active_field: Option<Seq<char>>,
    user_id_field: Option<Seq<char>>,
    scope_field: Option<Seq<char>>,
    expires_field: Option<Seq<char>>,
) -> Option<TokenInfoM> {
    match (
        spec_parse_active(fields, active_field),
        spec_parse_user_id(fields, user_id_field),
        spec_parse_scopes(fields, scope_field),
        spec_parse_expires_in(fields, expires_field),
    ) {
        (Some(active), Some(user_id), Some(scope), Some(expires_in_seconds)) => Some(
            TokenInfoM { active, user_id, scope, expires_in_seconds },
        ),
        _ => None,
    }
}

/// Turns decoded string-array elements into scopes.
fn scopes_from_strings(items: &Vec<String>) -> (r: Vec<Scope>)
    ensures
        scopes_view(r@) == items@.map_values(|s: String| s@),
{
    let n = items.len();
    let mut out: Vec<Scope> = Vec::new();
    let mut i: usize = 0;
    while i < n
        invariant
            0 <= i <= n,
            n == items@.len(),
            out@.len() == i,
            forall|j: int| 0 <= j < i ==> out@[j].0@ == items@[j]@,
        decreases n - i,
    {
        out.push(Scope(items[i].clone()));
        i = i + 1;
    }
    proof {
        assert(scopes_view(out@) =~= items@.map_values(|s: String| s@));
    }
    out
}

/// Parses a `TokenInfo` from the fields of an already decoded JSON object.
///
/// This is the whole interpretation of a token-info document; [`parse`] only
/// adds the JSON decoding in front of it.
pub fn parse_token_info_fields(
    doc: &JsonObj,
    active_field: Option<&str>,
    user_id_field: Option<&str>,
    scope_field: Option<&str>,
    expires_field: Option<&str>,
) -> (r: Result<TokenInfo, String>)
    ensures
        r is Ok <==> spec_parse_token_info(
            doc@,
            opt_str_view(active_field),
            opt_str_view(user_id_field),
            opt_str_view(scope_field),
            opt_str_view(expires_field),
        ) is Some,
        r matches Ok(t) ==> Some(t@) == spec_parse_token_info(
            doc@,
            opt_str_view(active_field),
            opt_str_view(user_id_field),
            opt_str_view(scope_field),
            opt_str_view(expires_field),
        ),
{
    let active: bool = match active_field {
        None => true,
        Some(name) => match doc.get(name) {
            Some(JsonVal::Bool(b)) => *b,
            Some(JsonVal::Str(s)) => if str_eq(s.as_str(), "true") {
                true
            } else if str_eq(s.as_str(), "false") {
                false
            } else {
                return Err("expected a boolean in the field configured as 'active'".to_owned());
            },
            _ => {
                return Err("expected a boolean in the field configured as 'active'".to_owned());
            },
        },
    };
    let user_id: Option<UserId> = match user_id_field {
        None => None,
        Some(name) => match doc.get(name) {
            Some(JsonVal::Str(s)) => Some(UserId(s.clone())),
            _ => {
                return Err("expected a string in the field configured as the user id".to_owned());
            },
        },
    };
    let scope: Vec<Scope> = match scope_field {
        None => Vec::new(),
        Some(name) => match doc.get(name) {
            Some(JsonVal::StrList(items)) => scopes_from_strings(items),
            Some(JsonVal::Str(s)) => split_scopes(s.as_str()),
            None => Vec::new(),
            _ => {
                return Err(
                    "expected an array or string in the field configured as the scopes".to_owned(),
                );
            },
        },
    };
    let expires_in_seconds: Option<u64> = match expires_field {
        None => None,
        Some(name) => match doc.get(name) {
            Some(JsonVal::UInt(u)) => Some(*u),
            _ => {
                return Err(
                    "expected a non-negative integer in the field configured as the expiry".to_owned(),
                );
            },
        },
    };
    proof {
        assert(scopes_view(Seq::<Scope>::empty()) =~= Seq::<Seq<char>>::empty());
    }
    Ok(TokenInfo { active, user_id, scope, expires_in_seconds })
}

/// Parses a `TokenInfo` from the bytes of a token-info JSON document.
///
/// The field names are configurable per introspection dialect; a `None`
/// field name means that the corresponding piece is not looked up: the
/// `active` flag then defaults to `true`, on the grounds that an endpoint
/// without an `active` field signals an inactive token by an error instead.
pub fn parse(
    json: &[u8],
    active_field: Option<&str>,
    user_id_field: Option<&str>,
    scope_field: Option<&str>,
    expires_field: Option<&str>,
) -> (r: Result<TokenInfo, String>)
    ensures
        r is Ok <==> (json_object_model(json@) matches Some(fields) && spec_parse_token_info(
            fields,
            opt_str_view(active_field),
            opt_str_view(user_id_field),
            opt_str_view(scope_field),
            opt_str_view(expires_field),
        ) is Some),
        r matches Ok(t) ==> Some(t@) == spec_parse_token_info(
            json_object_model(json@).unwrap(),
            opt_str_view(active_field),
            opt_str_view(user_id_field),
            opt_str_view(scope_field),
            opt_str_view(expires_field),
        ),
{
    match decode_json_object(json) {
        Some(doc) => parse_token_info_fields(
            &doc,
            active_field,
            user_id_field,
            scope_field,
            expires_field,
        ),
        None => Err("expected a JSON object".to_owned()),
    }
}

/// A parser that can parse a slice of bytes to a `TokenInfo`.
pub trait TokenInfoParser {
    /// What this parser reads out of the given document bytes, or `None`
    /// when it rejects them.
    spec fn spec_parse(&self, bytes: Seq<u8>) -> Option<TokenInfoM>;

    /// Parses a slice of bytes to a `TokenInfo`.
    fn parse(&self, bytes: &[u8]) -> (r: Result<TokenInfo, String>)
        ensures
            r is Ok <==> self.spec_parse(bytes@) is Some,
            r matches Ok(t) ==> Some(t@) == self.spec_parse(bytes@),
    ;
}

/// A configurable `TokenInfoParser`: each field name can be set or switched
/// off independently.
pub struct CustomTokenInfoParser {
    /// The name of the `active` field; when `None`, tokens are reported
    /// active.
    pub active_field: Option<String>,
    /// The name of the user-id field; when `None`, no user id is read.
    pub user_id_field: Option<String>,
    /// The name of the scope field; when `None`, no scopes are read.
    pub scope_field: Option<String>,
    /// The name of the expiry field; when `None`, no expiry is read.
    pub expires_in_field: Option<String>,
}

/// The view of an optional owned field name.
pub open spec fn opt_string_view(o: Option<String>) -> Option<Seq<char>> {
    match o {
        Some(s) => Some(s@),
        None => None,
    }
}

impl CustomTokenInfoParser {
    /// Creates a parser from the four optional field names.
    pub fn new(
        active_field: Option<String>,
        user_id_field: Option<String>,
        scope_field: Option<String>,
        expires_in_field: Option<String>,
    ) -> (p: Self)
        ensures
            p.active_field == active_field,
            p.user_id_field == user_id_field,
            p.scope_field == scope_field,
            p.expires_in_field == expires_in_field,
    {
        CustomTokenInfoParser { active_field, user_id_field, scope_field, expires_in_field }
    }
}

/// Borrows an optional field name.
fn opt_as_deref(o: &Option<String>) -> (r: Option<&str>)
    ensures
        opt_str_view(r) == opt_string_view(*o),
{
    match o {
        Some(s) => Some(s.as_str()),
        None => None,
    }
}

impl TokenInfoParser for CustomTokenInfoParser {
    open spec fn spec_parse(&self, bytes: Seq<u8>) -> Option<TokenInfoM> {
        match json_object_model(bytes) {
            Some(fields) => spec_parse_token_info(
                fields,
                opt_string_view(self.active_field),
                opt_string_view(self.user_id_field),
                opt_string_view(self.scope_field),
                opt_string_view(self.expires_in_field),
            ),
            None => None,
        }
    }

    fn parse(&self, bytes: &[u8]) -> (r: Result<TokenInfo, String>) {
        parse(
            bytes,
            opt_as_deref(&self.active_field),
            opt_as_deref(&self.user_id_field),
            opt_as_deref(&self.scope_field),
            opt_as_deref(&self.expires_in_field),
        )
    }
}

/// Parses the token-info dialect of the Plan B authorization server:
/// `uid`, `scope` and `expires_in`, with no `active` field.
pub struct PlanBTokenInfoParser;

impl TokenInfoParser for PlanBTokenInfoParser {
    open spec fn spec_parse(&self, bytes: Seq<u8>) -> Option<TokenInfoM> {
        match json_object_model(bytes) {
            Some(fields) => spec_parse_token_info(
                fields,
                None,
                Some("uid"@),
                Some("scope"@),
                Some("expires_in"@),
            ),
            None => None,
        }
    }

    fn parse(&self, bytes: &[u8]) -> (r: Result<TokenInfo, String>) {
        parse(bytes, None, Some("uid"), Some("scope"), Some("expires_in"))
    }
}

/// Parses the token-info dialect of Google's `tokeninfo` endpoint (v3):
/// `user_id`, `scope` and `expires_in`, with no `active` field.
pub struct GoogleV3TokenInfoParser;

impl TokenInfoParser for GoogleV3TokenInfoParser {
    open spec fn spec_parse(&self, bytes: Seq<u8>) -> Option<TokenInfoM> {
        match json_object_model(bytes) {
            Some(fields) => spec_parse_token_info(
                fields,
                None,
                Some("user_id"@),
                Some("scope"@),
                Some("expires_in"@),
            ),
            None => None,
        }
    }

    fn parse(&self, bytes: &[u8]) -> (r: Result<TokenInfo, String>) {
        parse(bytes, None, Some("user_id"), Some("scope"), Some("expires_in"))
    }
}

/// Parses the token-info dialect of Amazon's `tokeninfo` endpoint:
/// `user_id`, `scope` and `exp`, with no `active` field.
pub struct AmazonTokenInfoParser;

impl TokenInfoParser for AmazonTokenInfoParser {
    open spec fn spec_parse(&self, bytes: Seq<u8>) -> Option<TokenInfoM> {
        match json_object_model(bytes) {
            Some(fields) => spec_parse_token_info(
                fields,
                None,
                Some("user_id"@),
                Some("scope"@),
                Some("exp"@),
            ),
            None => None,
        }
    }

    fn parse(&self, bytes: &[u8]) -> (r: Result<TokenInfo, String>) {
        parse(bytes, None, Some("user_id"), Some("scope"), Some("exp"))
    }
}

/// Borrows the contents of a scope list.
fn strings_from_scopes(scopes: &Vec<Scope>) -> (r: Vec<String>)
    ensures
        r@.map_values(|s: String| s@) == scopes_view(scopes@),
{
    let n = scopes.len();
    let mut out: Vec<String> = Vec::new();
    let mut i: usize = 0;
    while i < n
        invariant
            0 <= i <= n,
            n == scopes@.len(),
            out@.len() == i,
            forall|j: int| 0 <= j < i ==> #[trigger] out@[j]@ == scopes@[j].0@,
        decreases n - i,
    {
        out.push(scopes[i].0.clone());
        i = i + 1;
    }
    proof {
        assert(out@.map_values(|s: String| s@) =~= scopes_view(scopes@));
    }
    out
}

/// Renders a `TokenInfo` into the fields of a token-info object, under the
/// given field names.
///
/// Round trip: parsing the rendered fields under the same names gives the
/// `TokenInfo` back — the `active` flag, the user id, the scopes and the
/// expiry are all preserved — as the postcondition states.
pub fn token_info_to_fields(
    info: &TokenInfo,
    active_field: &str,
    user_id_field: &str,
    scope_field: &str,
    expires_field: &str,
) -> (doc: JsonObj)
    requires
        active_field@ != user_id_field@,
        active_field@ != scope_field@,
        active_field@ != expires_field@,
        user_id_field@ != scope_field@,
        user_id_field@ != expires_field@,
        scope_field@ != expires_field@,
        info.user_id is Some,
        info.expires_in_seconds is Some,
    ensures
        spec_parse_token_info(
            doc@,
            Some(active_field@),
            Some(user_id_field@),
            Some(scope_field@),
            Some(expires_field@),
        ) == Some(info@),
{
    let user_id: String = match &info.user_id {
        Some(u) => u.0.clone(),
        None => String::new(),
    };
    let expires_in_seconds: u64 = match info.expires_in_seconds {
        Some(e) => e,
        None => 0,
    };
    let mut fields: Vec<(String, JsonVal)> = Vec::new();
    fields.push((active_field.to_owned(), JsonVal::Bool(info.active)));
    fields.push((user_id_field.to_owned(), JsonVal::Str(user_id)));
    fields.push((scope_field.to_owned(), JsonVal::StrList(strings_from_scopes(&info.scope))));
    fields.push((expires_field.to_owned(), JsonVal::UInt(expires_in_seconds)));
    let doc = JsonObj { fields };
    proof {
        let m = doc@;
        assert(m.len() == 4);
        let d1 = m.drop_first();
        let d2 = d1.drop_first();
        let d3 = d2.drop_first();
        assert(d1[0] == m[1] && d1[1] == m[2] && d1[2] == m[3] && d1.len() == 3);
        assert(d2[0] == m[2] && d2[1] == m[3] && d2.len() == 2);
        assert(d3[0] == m[3] && d3.len() == 1);
        assert(field_lookup(m, active_field@) == Some(m[0].1));
        assert(field_lookup(m, user_id_field@) == field_lookup(d1, user_id_field@));
        assert(field_lookup(d1, user_id_field@) == Some(m[1].1));
        assert(field_lookup(m, scope_field@) == field_lookup(d1, scope_field@));
        assert(field_lookup(d1, scope_field@) == field_lookup(d2, scope_field@));
        assert(field_lookup(d2, scope_field@) == Some(m[2].1));
        assert(field_lookup(m, expires_field@) == field_lookup(d1, expires_field@));
        assert(field_lookup(d1, expires_field@) == field_lookup(d2, expires_field@));
        assert(field_lookup(d2, expires_field@) == field_lookup(d3, expires_field@));
        assert(field_lookup(d3, expires_field@) == Some(m[3].1));
        let parsed = spec_parse_token_info(
            m,
            Some(active_field@),
            Some(user_id_field@),
            Some(scope_field@),
            Some(expires_field@),
        );
        assert(parsed is Some);
        assert(parsed.unwrap().scope =~= info@.scope);
    }
    doc
}

/// A scope field given as a space-separated string and one given as an array
/// are equivalent after parsing whenever the split string yields exactly the
/// array's elements: every other piece of the result is untouched by the
/// representation, and the scopes themselves come out equal.
pub proof fn lemma_scope_string_array_equivalent(
    fields_str: Seq<(Seq<char>, JsonValM)>,
    fields_arr: Seq<(Seq<char>, JsonValM)>,
    active_field: Option<Seq<char>>,
    user_id_field: Option<Seq<char>>,
    scope_name: Seq<char>,
    expires_field: Option<Seq<char>>,
    s: Seq<char>,
    items: Seq<Seq<char>>,
)
    requires
        field_lookup(fields_str, scope_name) == Some(JsonValM::Str(s)),
        field_lookup(fields_arr, scope_name) == Some(JsonValM::StrList(items)),
        spec_split_scopes(s) == items,
        spec_parse_active(fields_str, active_field) == spec_parse_active(fields_arr, active_field),
        spec_parse_user_id(fields_str, user_id_field) == spec_parse_user_id(
            fields_arr,
            user_id_field,
        ),
        spec_parse_expires_in(fields_str, expires_field) == spec_parse_expires_in(
            fields_arr,
            expires_field,
        ),
    ensures
        spec_parse_token_info(
            fields_str,
            active_field,
            user_id_field,
            Some(scope_name),
            expires_field,
        ) == spec_parse_token_info(
            fields_arr,
            active_field,
            user_id_field,
            Some(scope_name),
            expires_field,
        ),
{
}

} // verus!
