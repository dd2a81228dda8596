//! A plain model of decoded JSON objects.
//!
//! The wire formats this crate reads are flat JSON objects whose fields are
//! booleans, non-negative integers, strings, or arrays of strings. Decoding
//! bytes into that shape is delegated to the `json` crate; everything that
//! interprets the decoded fields is ordinary verified code over [`JsonObj`].
use vstd::prelude::*;

verus! {

/// The mathematical shape of one decoded JSON field value.
pub enum JsonValM {
    /// A JSON `null`.
    Null,
    /// A JSON boolean.
    Bool(bool),
    /// A JSON number that is a non-negative integer fitting into `u64`.
    UInt(u64),
    /// A JSON string.
    Str(Seq<char>),
    /// A JSON array whose elements are all strings.
    StrList(Seq<Seq<char>>),
    /// Any other JSON value: fractional or negative numbers, nested objects,
    /// and arrays holding anything but strings.
    Other,
}

/// One decoded JSON field value.
pub enum JsonVal {
    /// A JSON `null`.
    Null,
    /// A JSON boolean.
    Bool(bool),
    /// A JSON number that is a non-negative integer fitting into `u64`.
    UInt(u64),
    /// A JSON string.
    Str(String),
    /// A JSON array whose elements are all strings.
    StrList(Vec<String>),
    /// Any other JSON value.
    Other,
}

impl View for JsonVal {
    type V = JsonValM;

    open spec fn view(&self) -> JsonValM {
        match self {
            JsonVal::Null => JsonValM::Null,
            JsonVal::Bool(b) => JsonValM::Bool(*b),
            JsonVal::UInt(u) => JsonValM::UInt(*u),
            JsonVal::Str(s) => JsonValM::Str(s@),
            JsonVal::StrList(items) => JsonValM::StrList(items@.map_values(|s: String| s@)),
            JsonVal::Other => JsonValM::Other,
        }
    }
}

/// A decoded top-level JSON object: its fields in document order.
pub struct JsonObj {
    pub fields: Vec<(String, JsonVal)>,
}

impl View for JsonObj {
    type V = Seq<(Seq<char>, JsonValM)>;

    open spec fn view(&self) -> Seq<(Seq<char>, JsonValM)> {
        self.fields@.map_values(|f: (String, JsonVal)| (f.0@, f.1@))
    }
}

/// What the `json` crate decodes the given bytes to: the fields of the
/// top-level object, in document order, with every field value classified as
/// a [`JsonValM`]; or `None` when the bytes are not UTF-8, not JSON, or not a
/// JSON object.
pub uninterp spec fn json_object_model(bytes: Seq<u8>) -> Option<Seq<(Seq<char>, JsonValM)>>;

#[verifier::external_type_specification]
#[verifier::external_body]
pub struct ExJsonValue(json::JsonValue);

/// Relies on `json::JsonValue::as_str`: the content of a string value, for
/// both short and heap-allocated strings.
#[verifier::external_body]
fn classify_json_array(items: &Vec<json::JsonValue>) -> JsonVal {
    let mut out: Vec<String> = Vec::new();
    for item in items {
        match item.as_str() {
            Some(s) => out.push(s.to_string()),
            None => {
                return JsonVal::Other;
            },
        }
    }
    JsonVal::StrList(out)
}

/// Relies on `json::JsonValue`'s variants and on `as_u64`, which gives the
/// number exactly when it was written as a plain non-negative integer that
/// fits into a `u64`.
#[verifier::external_body]
fn classify_json_value(value: &json::JsonValue) -> JsonVal {
    match value {
        json::JsonValue::Null => JsonVal::Null,
        json::JsonValue::Boolean(b) => JsonVal::Bool(*b),
        json::JsonValue::Short(s) => JsonVal::Str(s.to_string()),
        json::JsonValue::String(s) => JsonVal::Str(s.clone()),
        json::JsonValue::Number(_) => match value.as_u64() {
            Some(u) => JsonVal::UInt(u),
            None => JsonVal::Other,
        },
        json::JsonValue::Object(_) => JsonVal::Other,
        json::JsonValue::Array(items) => classify_json_array(items),
    }
}

/// Relies on `json::parse`: it accepts exactly the well-formed JSON texts,
/// and on `json::object::Object::iter`, which yields the fields of an object
/// in document order with distinct names.
#[verifier::external_body]
pub fn decode_json_object(bytes: &[u8]) -> (r: Option<JsonObj>)
    ensures
        r is Some <==> json_object_model(bytes@) is Some,
        r matches Some(doc) ==> Some(doc@) == json_object_model(bytes@),
{
    let text = core::str::from_utf8(bytes).ok()?;
    let value = json::parse(text).ok()?;
    match value {
        json::JsonValue::Object(entries) => {
            let mut fields: Vec<(String, JsonVal)> = Vec::new();
            for (name, field_value) in entries.iter() {
                fields.push((name.to_string(), classify_json_value(field_value)));
            }
            Some(JsonObj { fields })
        },
        _ => None,
    }
}

/// The value of the first field with the given name, if any. Decoded objects
/// have distinct field names, so this is the field's value.
pub open spec fn field_lookup(fields: Seq<(Seq<char>, JsonValM)>, name: Seq<char>) -> Option<
    JsonValM,
>
    decreases fields.len(),
{
    if fields.len() == 0 {
        None
    } else if fields[0].0 == name {
        Some(fields[0].1)
    } else {
        field_lookup(fields.drop_first(), name)
    }
}

impl JsonObj {
    /// Looks the field with the given name up.
    pub fn get(&self, name: &str) -> (r: Option<&JsonVal>)
        ensures
            r is Some <==> field_lookup(self@, name@) is Some,
            r matches Some(v) ==> field_lookup(self@, name@) == Some(v@),
    {
        let n = self.fields.len();
        let mut i: usize = 0;
        proof {
            assert(self@.skip(0) =~= self@);
        }
        while i < n
            invariant
                0 <= i <= n,
                n == self.fields@.len(),
                field_lookup(self@, name@) == field_lookup(self@.skip(i as int), name@),
            decreases n - i,
        {
            if crate::str_eq(self.fields[i].0.as_str(), name) {
                proof {
                    assert(self@.skip(i as int)[0] == self@[i as int]);
                    assert(self@[i as int].1 == self.fields@[i as int].1@);
                }
                return Some(&self.fields[i].1);
            }
            proof {
                assert(self@.skip(i as int)[0] == self@[i as int]);
                assert(self@.skip(i as int).drop_first() =~= self@.skip(i + 1));
            }
            i = i + 1;
        }
        proof {
            assert(self@.skip(n as int).len() == 0);
        }
        None
    }
}

} // verus!
