//! The in-memory configuration document: a tree of named values addressed
//! by dot-separated key paths.

use vstd::prelude::*;

use crate::text::{host_of, replace_seq, split_key, views_of};

verus! {

/// One node of the configuration document: a string, a boolean, a list of
/// strings, or a table of named child nodes. Nodes of any other kind in
/// the source document are not modelled; a lookup that lands on one
/// answers absent.
pub enum Node {
    Str(String),
    Bool(bool),
    List(Vec<String>),
    Table(Vec<(String, Node)>),
}

/// The value under `key` among the entries `es` at or after position `i`,
/// earliest entry first.
pub open spec fn entry_lookup_from(es: Seq<(String, Node)>, key: Seq<char>, i: int) -> Option<
    Node,
>
    decreases es.len() - i,
{
    if i < 0 || i >= es.len() {
        None
    } else if es[i].0@ == key {
        Some(es[i].1)
    } else {
        entry_lookup_from(es, key, i + 1)
    }
}

/// The value under `key` among the entries `es`.
pub open spec fn entry_lookup(es: Seq<(String, Node)>, key: Seq<char>) -> Option<Node> {
    entry_lookup_from(es, key, 0)
}

/// Tree traversal along the segments of `segs` at or after position `i`.
pub open spec fn lookup_from(v: Node, segs: Seq<Seq<char>>, i: int) -> Option<Node>
    decreases segs.len() - i,
{
    if i < 0 {
        None
    } else if i >= segs.len() {
        Some(v)
    } else {
        match v {
            Node::Table(es) => match entry_lookup(es@, segs[i]) {
                Some(child) => lookup_from(child, segs, i + 1),
                None => None,
            },
            _ => None,
        }
    }
}

/// Tree traversal along all segments of `segs`.
pub open spec fn lookup_segs(v: Node, segs: Seq<Seq<char>>) -> Option<Node> {
    lookup_from(v, segs, 0)
}

/// Tree traversal along the segments of a dot-separated key.
pub open spec fn lookup_key(v: Node, key: Seq<char>) -> Option<Node> {
    lookup_segs(v, split_key(key))
}

/// The view of an optional string.
pub open spec fn opt_str_view(r: Option<String>) -> Option<Seq<char>> {
    match r {
        Some(s) => Some(s@),
        None => None,
    }
}

/// The views of an optional list of strings.
pub open spec fn opt_strs_view(r: Option<Vec<String>>) -> Option<Seq<Seq<char>>> {
    match r {
        Some(v) => Some(views_of(v@)),
        None => None,
    }
}

/// The string at `segs`, absent on a missing path or one that holds a
/// value of another kind. No substitution is applied.
pub open spec fn raw_str_at(root: Node, segs: Seq<Seq<char>>) -> Option<Seq<char>> {
    match lookup_segs(root, segs) {
        Some(Node::Str(s)) => Some(s@),
        _ => None,
    }
}

/// The boolean at `segs`, absent on a missing path or one that holds a
/// value of another kind.
pub open spec fn bool_at(root: Node, segs: Seq<Seq<char>>) -> Option<bool> {
    match lookup_segs(root, segs) {
        Some(Node::Bool(b)) => Some(b),
        _ => None,
    }
}

/// The string list at `segs`, absent on a missing path or one that holds
/// a value of another kind. No substitution is applied.
pub open spec fn raw_list_at(root: Node, segs: Seq<Seq<char>>) -> Option<Seq<Seq<char>>> {
    match lookup_segs(root, segs) {
        Some(Node::List(v)) => Some(views_of(v@)),
        _ => None,
    }
}

/// The reserved placeholder token that string lookups substitute.
pub open spec fn placeholder() -> Seq<char> {
    seq!['C', 'O', 'N', 'F', 'I', 'G', '_', 'D', 'I', 'R']
}

/// The configured substitution source: the raw string under
/// `general.config-dir`.
pub open spec fn config_dir_of(root: Node) -> Option<Seq<char>> {
    raw_str_at(root, split_key("general.config-dir"@))
}

/// `s` with the placeholder substituted by `dir`, or untouched when no
/// substitution source is configured.
pub open spec fn subst(s: Seq<char>, dir: Option<Seq<char>>) -> Seq<char> {
    match dir {
        Some(d) => replace_seq(s, placeholder(), d),
        None => s,
    }
}

/// The string at `segs` with the placeholder substituted.
pub open spec fn str_at(root: Node, segs: Seq<Seq<char>>) -> Option<Seq<char>> {
    match raw_str_at(root, segs) {
        Some(s) => Some(subst(s, config_dir_of(root))),
        None => None,
    }
}

/// The string list at `segs`, the placeholder substituted in each element.
pub open spec fn list_at(root: Node, segs: Seq<Seq<char>>) -> Option<Seq<Seq<char>>> {
    match raw_list_at(root, segs) {
        Some(vs) => Some(vs.map_values(|x: Seq<char>| subst(x, config_dir_of(root)))),
        None => None,
    }
}

/// The segments of a per-site key: the reserved `sites` subtree, the host
/// of the URI, then the segments of the key itself.
pub open spec fn site_segs(uri: Seq<char>, key: Seq<char>) -> Seq<Seq<char>> {
    seq!["sites"@, host_of(uri)] + split_key(key)
}

/// The value under `key`, by reference, among the entries of `es`.
pub fn entry_get<'a>(es: &'a Vec<(String, Node)>, key: &String) -> (r: Option<&'a Node>)
    ensures
        match r {
            Some(v) => entry_lookup(es@, key@) == Some(*v),
            None => entry_lookup(es@, key@) is None,
        },
{
    let mut i: usize = 0;
    while i < es.len()
        invariant
            i <= es@.len(),
            entry_lookup(es@, key@) == entry_lookup_from(es@, key@, i as int),
        decreases es@.len() - i,
    {
        let e = &es[i];
        if e.0 == *key {
            return Some(&e.1);
        }
        i += 1;
    }
    None
}

/// The value under the given path segments, by reference.
pub fn lookup_value<'a>(root: &'a Node, segs: &Vec<String>) -> (r: Option<&'a Node>)
    ensures
        match r {
            Some(v) => lookup_segs(*root, views_of(segs@)) == Some(*v),
            None => lookup_segs(*root, views_of(segs@)) is None,
        },
{
    let ghost sv: Seq<Seq<char>> = views_of(segs@);
    let mut cur: &Node = root;
    let mut i: usize = 0;
    while i < segs.len()
        invariant
            i <= segs@.len(),
            sv == views_of(segs@),
            lookup_segs(*root, sv) == lookup_from(*cur, sv, i as int),
        decreases segs@.len() - i,
    {
        match cur {
            Node::Table(es) => {
                match entry_get(es, &segs[i]) {
                    Some(child) => {
                        cur = child;
                    },
                    None => {
                        return None;
                    },
                }
            },
            _ => {
                return None;
            },
        }
        i += 1;
    }
    Some(cur)
}

} // verus!
