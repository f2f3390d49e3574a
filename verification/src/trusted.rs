//! Thin shims around outside code: the configuration-document parser,
//! the file-system probe used by command resolution, and one `String`
//! primitive that vstd leaves unspecified. Each body only makes the one
//! call and converts values; the contracts are what the rest of the
//! crate relies on.
//!
//! The parser and the node accessors compute from their input alone, so
//! their results carry names (`toml_parses`, `toml_root_entries`,
//! `toml_str_of`, ...) that the library's contracts are stated over: the
//! names say nothing about what the results are on given texts, only that
//! equal inputs give equal results.

use vstd::prelude::*;

use crate::value::opt_str_view;

verus! {

/// Relies on `String::push`: appends one character to the string.
#[verifier::external_body]
pub(crate) fn push_char(s: &mut String, c: char)
    ensures
        final (s)@ == old(s)@.push(c),
{
    s.push(c)
}

/// Relies on `std::path::Path::exists`: whether something exists on the
/// file system at the path. The answer depends on the machine's disk, so
/// nothing is promised of it; callers state what holds either way.
#[verifier::external_body]
pub(crate) fn path_exists(p: &str) -> bool {
    std::path::Path::new(p).exists()
}

#[verifier::external_type_specification]
#[verifier::external_body]
pub struct ExTomlValue(toml::Value);

/// Whether the document format's grammar admits the text: what
/// `str::parse` with `toml::Value`'s `FromStr` answers, a function of the
/// text alone.
pub uninterp spec fn toml_parses(s: Seq<char>) -> bool;

/// The top-level entries of the parsed text: what `toml::Value::as_table`
/// holds on the parsed root, in the backing map's order. The parser and
/// the map are deterministic, so this too is a function of the text alone.
pub uninterp spec fn toml_root_entries(s: Seq<char>) -> Seq<(String, toml::Value)>;

/// The string content of a parsed node, absent for every other kind of
/// node: what `toml::Value::as_str` answers, a function of the node alone.
pub uninterp spec fn toml_str_of(v: toml::Value) -> Option<Seq<char>>;

/// The boolean content of a parsed node, absent for every other kind of
/// node: what `toml::Value::as_bool` answers, a function of the node alone.
pub uninterp spec fn toml_bool_of(v: toml::Value) -> Option<bool>;

/// The elements of an array node, absent for every other kind of node:
/// what `toml::Value::as_array` holds, a function of the node alone.
pub uninterp spec fn toml_array_of(v: toml::Value) -> Option<Seq<toml::Value>>;

/// The entries of a table node in the backing map's order, absent for
/// every other kind of node: what `toml::Value::as_table` holds, a
/// function of the node alone.
pub uninterp spec fn toml_entries_of(v: toml::Value) -> Option<Seq<(String, toml::Value)>>;

/// Relies on `str::parse` with `toml::Value`'s `FromStr`, and
/// `toml::Value::as_table` on the parsed root: parses a document and hands
/// out the top-level entries. Parsing succeeds on exactly the texts the
/// format's grammar admits, and a parsed document's root is always a
/// table, so the entries come back if and only if the text parses.
#[verifier::external_body]
pub(crate) fn parse_document(s: &str) -> (r: Option<Vec<(String, toml::Value)>>)
    ensures
        r is Some <==> toml_parses(s@),
        r matches Some(es) ==> es@ == toml_root_entries(s@),
{
    s.parse::<toml::Value>().ok().and_then(|root| {
        root.as_table().map(|t| t.iter().map(|(k, x)| (k.clone(), x.clone())).collect())
    })
}

/// Relies on `toml::Value::as_str`: the string content of a string node,
/// absent for every other kind of node.
#[verifier::external_body]
pub(crate) fn document_str(v: &toml::Value) -> (r: Option<String>)
    ensures
        opt_str_view(r) == toml_str_of(*v),
{
    v.as_str().map(|s| s.to_owned())
}

/// Relies on `toml::Value::as_bool`: the boolean content of a boolean
/// node, absent for every other kind of node.
#[verifier::external_body]
pub(crate) fn document_bool(v: &toml::Value) -> (r: Option<bool>)
    ensures
        r == toml_bool_of(*v),
{
    v.as_bool()
}

/// Relies on `toml::Value::as_array`: the elements of an array node,
/// absent for every other kind of node.
#[verifier::external_body]
pub(crate) fn document_array(v: &toml::Value) -> (r: Option<Vec<toml::Value>>)
    ensures
        match r {
            Some(a) => toml_array_of(*v) == Some(a@),
            None => toml_array_of(*v) is None,
        },
{
    v.as_array().cloned()
}

/// Relies on `toml::Value::as_table` and `toml::map::Map::iter`: the
/// entries of a table node in the map's order, absent for every other
/// kind of node.
#[verifier::external_body]
pub(crate) fn document_entries(v: &toml::Value) -> (r: Option<Vec<(String, toml::Value)>>)
    ensures
        match r {
            Some(es) => toml_entries_of(*v) == Some(es@),
            None => toml_entries_of(*v) is None,
        },
{
    v.as_table().map(|t| t.iter().map(|(k, x)| (k.clone(), x.clone())).collect())
}

} // verus!
