use vstd::prelude::*;
use vstd::string::StringExecFns;

verus! {

#[verifier::external_type_specification]
#[verifier::external_body]
pub struct ExValue(serde_json::Value);

#[verifier::external_type_specification]
#[verifier::external_body]
pub struct ExJsonError(serde_json::Error);

/// The mathematical image of a JSON value. A number carries only what an
/// unsigned 64-bit reading of it yields, which is all the payload parsers
/// ask of numbers.
pub enum JsonView {
    Null,
    Bool(bool),
    Number { as_u64: Option<u64> },
    String(Seq<char>),
    Array(Seq<JsonView>),
    Object(Map<Seq<char>, JsonView>),
}

/// What a parsed JSON document holds: a function of the document value
/// alone.
pub uninterp spec fn json_view_of(v: serde_json::Value) -> JsonView;

/// What JSON parsing yields for a byte string: a function of the bytes
/// alone, `None` exactly where they are not a JSON document.
pub uninterp spec fn json_parse_of(bytes: Seq<u8>) -> Option<JsonView>;

/// Relies on serde_json::from_slice::<serde_json::Value>: parsing is a
/// function of the bytes alone, succeeds exactly on JSON documents, and the
/// parsed value's contents are the document's.
#[verifier::external_body]
pub(crate) fn json_from_slice(bytes: &[u8]) -> (r: Result<serde_json::Value, serde_json::Error>)
    ensures
        r matches Ok(v) ==> json_parse_of(bytes@) == Some(json_view_of(v)),
        r matches Err(_) ==> json_parse_of(bytes@) is None,
{
    serde_json::from_slice(bytes)
}

/// Relies on serde_json::Value::get with a string index: the member of a
/// JSON object under the key, `None` exactly for a non-object or an absent
/// key.
#[verifier::external_body]
pub(crate) fn json_get<'a>(v: &'a serde_json::Value, key: &str) -> (r: Option<
    &'a serde_json::Value,
>)
    ensures
        match r {
            Some(m) => (json_view_of(*v) matches JsonView::Object(o) && o.contains_key(key@)
                && json_view_of(*m) == o[key@]),
            None => !(json_view_of(*v) matches JsonView::Object(o) && o.contains_key(key@)),
        },
{
    v.get(key)
}

/// Relies on serde_json::Value::as_str: the characters a JSON string holds,
/// `None` exactly for any other kind of value.
#[verifier::external_body]
pub(crate) fn json_as_str<'a>(v: &'a serde_json::Value) -> (r: Option<&'a str>)
    ensures
        match r {
            Some(s) => json_view_of(*v) == JsonView::String(s@),
            None => !(json_view_of(*v) matches JsonView::String(_)),
        },
{
    v.as_str()
}

/// Relies on serde_json::Value::as_u64: the value of a JSON number that is
/// an unsigned 64-bit integer, `None` exactly otherwise.
#[verifier::external_body]
pub(crate) fn json_as_u64(v: &serde_json::Value) -> (r: Option<u64>)
    ensures
        match r {
            Some(n) => json_view_of(*v) == (JsonView::Number { as_u64: Some(n) }),
            None => !(json_view_of(*v) matches JsonView::Number { as_u64: Some(_) }),
        },
{
    v.as_u64()
}

/// Relies on serde_json::Value::is_null: whether the value is JSON `null`.
#[verifier::external_body]
pub(crate) fn json_is_null(v: &serde_json::Value) -> (r: bool)
    ensures
        r == (json_view_of(*v) == JsonView::Null),
{
    v.is_null()
}

/// Relies on the Display rendering of serde_json::Error, via ToString.
#[verifier::external_body]
pub(crate) fn json_error_message(e: &serde_json::Error) -> String {
    e.to_string()
}

/// The string member of an object under `key`: `None` for a non-object, an
/// absent key, or a member that is not a string.
pub open spec fn spec_str_field(v: JsonView, key: Seq<char>) -> Option<Seq<char>> {
    match v {
        JsonView::Object(o) => {
            if o.contains_key(key) {
                match o[key] {
                    JsonView::String(s) => Some(s),
                    _ => None,
                }
            } else {
                None
            }
        },
        _ => None,
    }
}

/// An optional string member: an absent key, a `null` member, or a member
/// lookup on a non-object reads as "not supplied"; a member of any other
/// non-string kind is ill-typed (`None`).
pub open spec fn spec_opt_str_field(v: JsonView, key: Seq<char>) -> Option<Option<Seq<char>>> {
    match v {
        JsonView::Object(o) => {
            if o.contains_key(key) {
                match o[key] {
                    JsonView::Null => Some(None),
                    JsonView::String(s) => Some(Some(s)),
                    _ => None,
                }
            } else {
                Some(None)
            }
        },
        _ => Some(None),
    }
}

/// An optional unsigned 32-bit member: absent or `null` reads as "not
/// supplied"; a number out of the 32-bit range or a member of any other
/// kind is ill-typed (`None`).
pub open spec fn spec_opt_u32_field(v: JsonView, key: Seq<char>) -> Option<Option<u32>> {
    match v {
        JsonView::Object(o) => {
            if o.contains_key(key) {
                match o[key] {
                    JsonView::Null => Some(None),
                    JsonView::Number { as_u64: Some(n) } => {
                        if n <= u32::MAX as u64 {
                            Some(Some(n as u32))
                        } else {
                            None
                        }
                    },
                    _ => None,
                }
            } else {
                Some(None)
            }
        },
        _ => Some(None),
    }
}

/// The string member of a JSON object under `key`, owned; `None` where the
/// member is missing or not a string.
pub(crate) fn string_field(v: &serde_json::Value, key: &str) -> (r: Option<String>)
    ensures
        match r {
            Some(s) => spec_str_field(json_view_of(*v), key@) == Some(s@),
            None => spec_str_field(json_view_of(*v), key@) is None,
        },
{
    match json_get(v, key) {
        Some(x) => match json_as_str(x) {
            Some(s) => Some(String::from_str(s)),
            None => None,
        },
        None => None,
    }
}

/// The optional string member under `key`: absent or `null` is `Some(None)`,
/// any other non-string member is ill-typed (`None`).
pub(crate) fn optional_string_field(v: &serde_json::Value, key: &str) -> (r: Option<
    Option<String>,
>)
    ensures
        match r {
            Some(opt) => spec_opt_str_field(json_view_of(*v), key@) == Some(
                match opt {
                    Some(s) => Some(s@),
                    None => None,
                },
            ),
            None => spec_opt_str_field(json_view_of(*v), key@) is None,
        },
{
    match json_get(v, key) {
        Some(x) => {
            if json_is_null(x) {
                Some(None)
            } else {
                match json_as_str(x) {
                    Some(s) => Some(Some(String::from_str(s))),
                    None => None,
                }
            }
        },
        None => Some(None),
    }
}

/// The optional unsigned 32-bit member under `key`: absent or `null` is
/// `Some(None)`, an out-of-range number or any other member is ill-typed
/// (`None`).
pub(crate) fn optional_u32_field(v: &serde_json::Value, key: &str) -> (r: Option<Option<u32>>)
    ensures
        match r {
            Some(opt) => spec_opt_u32_field(json_view_of(*v), key@) == Some(opt),
            None => spec_opt_u32_field(json_view_of(*v), key@) is None,
        },
{
    match json_get(v, key) {
        Some(x) => {
            if json_is_null(x) {
                Some(None)
            } else {
                match json_as_u64(x) {
                    Some(n) => {
                        if n <= 0xffff_ffff {
                            Some(Some(n as u32))
                        } else {
                            None
                        }
                    },
                    None => None,
                }
            }
        },
        None => Some(None),
    }
}

} // verus!
