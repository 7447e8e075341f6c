//! The TOML document model that the configuration is read from.
//!
//! Parsing and the lookups inside a parsed table are done by the `toml`
//! crate; the items here state what the library relies on of each call.

use vstd::prelude::*;

verus! {

#[verifier::external_type_specification]
#[verifier::external_body]
pub struct ExTomlValue(toml::Value);

#[verifier::external_type_specification]
#[verifier::external_body]
#[verifier::reject_recursive_types(K)]
#[verifier::reject_recursive_types(V)]
pub struct ExTomlMap<K, V>(toml::map::Map<K, V>);

#[verifier::external_type_specification]
#[verifier::external_body]
pub struct ExTomlError(toml::de::Error);

/// The top-level table of the TOML document `s`, keyed by name, or `None`
/// when `s` is not a valid TOML document.
pub uninterp spec fn parsed_document(s: Seq<char>) -> Option<Map<Seq<char>, toml::Value>>;

/// The entries of a TOML table, keyed by name.
pub uninterp spec fn table_entries(t: toml::Table) -> Map<Seq<char>, toml::Value>;

/// The text of a TOML value that is a string; `None` for any other value.
pub uninterp spec fn string_value(v: toml::Value) -> Option<Seq<char>>;

/// The entries of a TOML value that is a table; `None` for any other value.
pub uninterp spec fn table_value(v: toml::Value) -> Option<Map<Seq<char>, toml::Value>>;

/// The value stored under `key` in the table `t`, if there is one.
pub open spec fn entry(t: Map<Seq<char>, toml::Value>, key: Seq<char>) -> Option<toml::Value> {
    if t.contains_key(key) {
        Some(t[key])
    } else {
        None
    }
}

/// Relies on `toml::from_str` with `toml::Table` as the target: it parses
/// `s` as a TOML document and returns its top-level table, or an error when
/// `s` is not a valid document.
#[verifier::external_body]
pub(crate) fn parse_document(s: &str) -> (r: Result<toml::Table, toml::de::Error>)
    ensures
        r is Ok <==> parsed_document(s@) is Some,
        r is Ok ==> table_entries(r->Ok_0) == parsed_document(s@)->0,
{
    toml::from_str::<toml::Table>(s)
}

/// Relies on `toml::map::Map::get`: the value stored under `key`, if any.
#[verifier::external_body]
pub(crate) fn table_get<'a>(t: &'a toml::Table, key: &str) -> (r: Option<&'a toml::Value>)
    ensures
        r is Some <==> table_entries(*t).contains_key(key@),
        r is Some ==> *r->0 == table_entries(*t)[key@],
{
    t.get(key)
}

/// Relies on `toml::Value::as_str`: the text of a string value, `None` for
/// any other kind of value.
#[verifier::external_body]
pub(crate) fn value_as_str(v: &toml::Value) -> (r: Option<&str>)
    ensures
        r is Some <==> string_value(*v) is Some,
        r is Some ==> r->0@ == string_value(*v)->0,
{
    v.as_str()
}

/// Relies on `toml::Value::as_table`: the table of a table value, `None`
/// for any other kind of value.
#[verifier::external_body]
pub(crate) fn value_as_table(v: &toml::Value) -> (r: Option<&toml::Table>)
    ensures
        r is Some <==> table_value(*v) is Some,
        r is Some ==> table_entries(*r->0) == table_value(*v)->0,
{
    v.as_table()
}

} // verus!
