use vstd::prelude::*;

use crate::errors::TranslateError;

verus! {

#[verifier::external_type_specification]
#[verifier::external_body]
pub struct ExTomlValue(toml::Value);

#[verifier::external_type_specification]
#[verifier::external_body]
#[verifier::reject_recursive_types(K)]
#[verifier::reject_recursive_types(V)]
pub struct ExTomlMap<K, V>(toml::map::Map<K, V>);

/// The string-valued top-level fields of a configuration document: `None`
/// where the text is not a valid document at all, otherwise the map from each
/// top-level key whose value is a string to that string. A key that is absent
/// and a key whose value has another type are alike not in the map.
pub uninterp spec fn toml_doc_strs(s: Seq<char>) -> Option<Map<Seq<char>, Seq<char>>>;

/// The same string-valued fields, read off a parsed table.
pub uninterp spec fn table_strs(t: toml::map::Map<String, toml::Value>) -> Map<
    Seq<char>,
    Seq<char>,
>;

/// Relies on toml::from_str::<toml::Table>: it succeeds exactly on valid
/// documents, the parse depends on the text alone, and the table holds the
/// document's top-level fields. The error is converted to its display text.
#[verifier::external_body]
fn parse_toml_table(s: &str) -> (r: Result<toml::map::Map<String, toml::Value>, String>)
    ensures
        r is Ok <==> toml_doc_strs(s@) is Some,
        r is Ok ==> table_strs(r->Ok_0) == toml_doc_strs(s@)->Some_0,
{
    match toml::from_str::<toml::map::Map<String, toml::Value>>(s) {
        Ok(t) => Ok(t),
        Err(e) => Err(format!("{}", e)),
    }
}

/// Relies on toml::map::Map::get and toml::Value::as_str: `get` returns the
/// value under the key if there is one, and `as_str` returns the string
/// content exactly of a string value.
#[verifier::external_body]
fn table_get_str(t: &toml::map::Map<String, toml::Value>, key: &str) -> (r: Option<String>)
    ensures
        r is Some <==> table_strs(*t).contains_key(key@),
        r is Some ==> r->Some_0@ == table_strs(*t)[key@],
{
    match t.get(key) {
        Some(v) => match v.as_str() {
            Some(s) => Some(s.to_owned()),
            None => None,
        },
        None => None,
    }
}

/// Whether the configuration text yields a credential: it must be a valid
/// document with a string field `auth_key` at the top level.
pub open spec fn spec_config_key(s: Seq<char>) -> Option<Seq<char>> {
    match toml_doc_strs(s) {
        Some(fields) => if fields.contains_key("auth_key"@) {
            Some(fields["auth_key"@])
        } else {
            None
        },
        None => None,
    }
}

/// Extracts the API credential from the configuration file's text: the
/// `auth_key` string field of the document. A text that is not a valid
/// document, or one without such a string field, is a parse error.
pub fn parse_auth_key(contents: &str) -> (r: Result<String, TranslateError>)
    ensures
        r is Ok <==> spec_config_key(contents@) is Some,
        r is Ok ==> r->Ok_0@ == spec_config_key(contents@)->Some_0,
        r is Err ==> r->Err_0 is ConfigParseError,
{
    match parse_toml_table(contents) {
        Ok(table) => match table_get_str(&table, "auth_key") {
            Some(key) => Ok(key),
            None => Err(
                TranslateError::ConfigParseError(
                    "missing or non-string field auth_key".to_owned(),
                ),
            ),
        },
        Err(detail) => Err(TranslateError::ConfigParseError(detail)),
    }
}

} // verus!
