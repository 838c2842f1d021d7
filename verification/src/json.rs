use vstd::prelude::*;

verus! {

#[verifier::external_type_specification]
#[verifier::external_body]
pub struct ExJsonValue(serde_json::Value);

/// The JSON value a text denotes, when it denotes one; `None` when the text
/// is not one JSON document.
pub uninterp spec fn json_of(s: Seq<char>) -> Option<serde_json::Value>;

/// The value under a key of a JSON object, when the value is an object that
/// has the key.
pub uninterp spec fn json_field_of(v: serde_json::Value, key: Seq<char>) -> Option<
    serde_json::Value,
>;

/// The text of a JSON string value, when the value is a string.
pub uninterp spec fn json_str_of(v: serde_json::Value) -> Option<Seq<char>>;

/// The number of a JSON integer value, when it fits in a u64.
pub uninterp spec fn json_u64_of(v: serde_json::Value) -> Option<u64>;

/// The number of a JSON integer value, when it fits in an i64.
pub uninterp spec fn json_i64_of(v: serde_json::Value) -> Option<i64>;

/// The elements of a JSON array value, when the value is an array.
pub uninterp spec fn json_array_of(v: serde_json::Value) -> Option<Seq<serde_json::Value>>;

/// Whether a JSON value is the null value.
pub uninterp spec fn json_is_null_of(v: serde_json::Value) -> bool;

/// Relies on serde_json::from_str::<Value>: parses one JSON document from the
/// text, or reports a syntax error, rendered here as its display text. The
/// result depends on the text alone.
#[verifier::external_body]
pub(crate) fn json_parse(s: &str) -> (r: Result<serde_json::Value, String>)
    ensures
        match r {
            Ok(v) => json_of(s@) == Some(v),
            Err(_) => json_of(s@) is None,
        },
{
    match serde_json::from_str(s) {
        Ok(value) => Ok(value),
        Err(error) => Err(error.to_string()),
    }
}

/// Relies on serde_json::Value::get: the value under the key when `v` is an
/// object that has it, `None` otherwise.
#[verifier::external_body]
pub(crate) fn json_get<'a>(v: &'a serde_json::Value, key: &str) -> (r: Option<
    &'a serde_json::Value,
>)
    ensures
        match r {
            Some(f) => json_field_of(*v, key@) == Some(*f),
            None => json_field_of(*v, key@) is None,
        },
{
    v.get(key)
}

/// Relies on serde_json::Value::as_str: the string when `v` is a JSON string,
/// `None` otherwise.
#[verifier::external_body]
pub(crate) fn json_as_str(v: &serde_json::Value) -> (r: Option<&str>)
    ensures
        match r {
            Some(s) => json_str_of(*v) == Some(s@),
            None => json_str_of(*v) is None,
        },
{
    v.as_str()
}

/// Relies on serde_json::Value::as_u64: the number when `v` is an integer
/// that fits in a u64, `None` otherwise.
#[verifier::external_body]
pub(crate) fn json_as_u64(v: &serde_json::Value) -> (r: Option<u64>)
    ensures
        r == json_u64_of(*v),
{
    v.as_u64()
}

/// Relies on serde_json::Value::as_i64: the number when `v` is an integer
/// that fits in an i64, `None` otherwise.
#[verifier::external_body]
pub(crate) fn json_as_i64(v: &serde_json::Value) -> (r: Option<i64>)
    ensures
        r == json_i64_of(*v),
{
    v.as_i64()
}

/// Relies on serde_json::Value::as_array: the elements when `v` is a JSON
/// array, `None` otherwise.
#[verifier::external_body]
pub(crate) fn json_as_array(v: &serde_json::Value) -> (r: Option<&Vec<serde_json::Value>>)
    ensures
        match r {
            Some(a) => json_array_of(*v) == Some(a@),
            None => json_array_of(*v) is None,
        },
{
    v.as_array()
}

/// Relies on serde_json::Value::is_null: whether `v` is the JSON null.
#[verifier::external_body]
pub(crate) fn json_is_null(v: &serde_json::Value) -> (r: bool)
    ensures
        r == json_is_null_of(*v),
{
    v.is_null()
}

/// The text under a key: the field is there and is a string.
pub open spec fn str_field_of(v: serde_json::Value, key: Seq<char>) -> Option<Seq<char>> {
    match json_field_of(v, key) {
        Some(f) => json_str_of(f),
        None => None,
    }
}

/// The unsigned number under a key: the field is there and fits in a u64.
pub open spec fn u64_field_of(v: serde_json::Value, key: Seq<char>) -> Option<u64> {
    match json_field_of(v, key) {
        Some(f) => json_u64_of(f),
        None => None,
    }
}

/// The signed number under a key: the field is there and fits in an i64.
pub open spec fn i64_field_of(v: serde_json::Value, key: Seq<char>) -> Option<i64> {
    match json_field_of(v, key) {
        Some(f) => json_i64_of(f),
        None => None,
    }
}

/// The optional text under a key: an absent or null field is no text, a
/// string field is its text, and any other shape is the error.
pub open spec fn opt_str_field_of(v: serde_json::Value, key: Seq<char>) -> Result<
    Option<Seq<char>>,
    (),
> {
    match json_field_of(v, key) {
        None => Ok(None),
        Some(f) => if json_is_null_of(f) {
            Ok(None)
        } else {
            match json_str_of(f) {
                Some(s) => Ok(Some(s)),
                None => Err(()),
            }
        },
    }
}

} // verus!
