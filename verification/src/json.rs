use vstd::prelude::*;

verus! {

#[verifier::external_type_specification]
#[verifier::external_body]
pub struct ExJsonValue(serde_json::Value);

/// The mathematical shape of a parsed document value. Numbers carry no
/// payload: nothing here reads one, so all numbers share one abstract shape.
pub enum JsonRep {
    Null,
    Bool(bool),
    Num,
    Str(Seq<char>),
    Arr(Seq<JsonRep>),
    Obj(Map<Seq<char>, JsonRep>),
}

/// The shape that parsing a text yields: `None` exactly where the text is not
/// a valid document. Parsing depends on the text alone.
pub uninterp spec fn json_rep_of(s: Seq<char>) -> Option<JsonRep>;

/// The shape that a parsed value holds.
pub uninterp spec fn json_rep(v: serde_json::Value) -> JsonRep;

/// Relies on serde_json::from_str::<serde_json::Value>: it succeeds exactly on
/// valid documents and returns the document's value. The error is converted to
/// its display text.
#[verifier::external_body]
pub(crate) fn json_from_str(s: &str) -> (r: Result<serde_json::Value, String>)
    ensures
        r is Ok <==> json_rep_of(s@) is Some,
        r is Ok ==> json_rep(r->Ok_0) == json_rep_of(s@)->Some_0,
{
    match serde_json::from_str::<serde_json::Value>(s) {
        Ok(v) => Ok(v),
        Err(e) => Err(format!("{}", e)),
    }
}

/// Relies on serde_json::Value::get with a string index: on an object it
/// returns the member under that key, if any; on every other value it returns
/// `None`.
#[verifier::external_body]
pub(crate) fn json_get<'a>(v: &'a serde_json::Value, key: &str) -> (r: Option<
    &'a serde_json::Value,
>)
    ensures
        match json_rep(*v) {
            JsonRep::Obj(m) => (r is Some <==> m.contains_key(key@)) && (r is Some ==> json_rep(
                *r->Some_0,
            ) == m[key@]),
            _ => r is None,
        },
{
    v.get(key)
}

/// Relies on serde_json::Value::as_array: it returns the elements exactly of
/// an array value.
#[verifier::external_body]
pub(crate) fn json_as_array<'a>(v: &'a serde_json::Value) -> (r: Option<
    &'a Vec<serde_json::Value>,
>)
    ensures
        match json_rep(*v) {
            JsonRep::Arr(items) => r is Some && r->Some_0@.map_values(
                |x: serde_json::Value| json_rep(x),
            ) == items,
            _ => r is None,
        },
{
    v.as_array()
}

/// Relies on serde_json::Value::as_str: it returns the content exactly of a
/// string value.
#[verifier::external_body]
pub(crate) fn json_as_str<'a>(v: &'a serde_json::Value) -> (r: Option<&'a str>)
    ensures
        match json_rep(*v) {
            JsonRep::Str(s) => r is Some && r->Some_0@ == s,
            _ => r is None,
        },
{
    v.as_str()
}

} // verus!
