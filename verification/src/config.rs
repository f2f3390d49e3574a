//! The layered configuration resolver: parses the settings document into
//! an owned tree, and answers typed, substituted, and per-site lookups
//! over it.

use vstd::prelude::*;

use crate::text::{contains_str, host_of_uri, replace_chars, split_segments, views_of};
use crate::trusted::{
    document_array, document_bool, document_entries, document_str, parse_document, push_char,
    toml_array_of, toml_bool_of, toml_entries_of, toml_parses, toml_root_entries, toml_str_of,
};
use crate::ui::{BrowserConfiguration, URIEvent};
use crate::value::{config_dir_of, lookup_segs, lookup_value, placeholder, site_segs, subst, Node};

verus! {

/// How deep a parsed document is followed; deeper values are dropped, and
/// lookups on them answer absent.
pub const DOCUMENT_DEPTH_LIMIT: u64 = 32;

/// An owned, swappable snapshot of the configuration document. A reload
/// parses a whole new snapshot before publishing it, so a reader never
/// sees a partially updated document.
pub struct Config {
    root: Node,
}

/// The characters of the reserved placeholder token.
fn placeholder_chars() -> (r: Vec<char>)
    ensures
        r@ == placeholder(),
{
    let mut r: Vec<char> = Vec::new();
    r.push('C');
    r.push('O');
    r.push('N');
    r.push('F');
    r.push('I');
    r.push('G');
    r.push('_');
    r.push('D');
    r.push('I');
    r.push('R');
    proof {
        assert(r@ =~= placeholder());
    }
    r
}

/// The segments of a per-site key for a URI.
fn site_segments(uri: &str, key: &str) -> (r: Vec<String>)
    ensures
        views_of(r@) == site_segs(uri@, key@),
{
    let mut segs: Vec<String> = Vec::new();
    segs.push("sites".to_owned());
    segs.push(host_of_uri(uri));
    let mut tail = split_segments(key);
    segs.append(&mut tail);
    proof {
        assert(views_of(segs@) =~= site_segs(uri@, key@));
    }
    segs
}

/// Whether `items` are exactly the string contents of the array elements
/// `elems`: every element a string node, in order.
pub open spec fn list_models(items: Seq<String>, elems: Seq<toml::Value>) -> bool {
    items.len() == elems.len() && (forall|i: int|
        0 <= i < elems.len() ==> toml_str_of(#[trigger] elems[i]) == Some(items[i]@))
}

/// Whether the parsed node `v` derives a tree within the depth budget: a
/// string or boolean node always, an array only when every element is a
/// string, a table always, any other node and everything past the budget
/// never. The cases are tried in the conversion's order.
pub open spec fn derives(v: toml::Value, depth: nat) -> bool {
    if depth == 0 {
        false
    } else {
        match toml_str_of(v) {
            Some(_) => true,
            None => match toml_bool_of(v) {
                Some(_) => true,
                None => match toml_array_of(v) {
                    Some(elems) => forall|k: int|
                        0 <= k < elems.len() ==> toml_str_of(#[trigger] elems[k]) is Some,
                    None => toml_entries_of(v) is Some,
                },
            },
        }
    }
}

/// Whether `n` is the tree derived from the parsed node `v` within the
/// depth budget. The cases mirror the conversion order: a string node
/// becomes a string, a boolean a boolean, an all-string array a list, a
/// table a table whose underivable entries are dropped; any other node,
/// an array with a non-string element, and everything past the budget
/// derive nothing.
pub open spec fn node_models(n: Node, v: toml::Value, depth: nat) -> bool
    decreases depth, 0int, 0int,
{
    if depth == 0 {
        false
    } else {
        match toml_str_of(v) {
            Some(s) => n matches Node::Str(t) && t@ == s,
            None => match toml_bool_of(v) {
                Some(b) => n == Node::Bool(b),
                None => match toml_array_of(v) {
                    Some(elems) => n matches Node::List(items) && list_models(items@, elems),
                    None => match toml_entries_of(v) {
                        Some(es) => n matches Node::Table(out) && entries_model(
                            out@,
                            es,
                            0,
                            (depth - 1) as nat,
                        ),
                        None => false,
                    },
                },
            },
        }
    }
}

/// Whether `out` is the table derived from the entries `es` at or after
/// position `i`: each entry whose value derives a tree contributes it
/// under its key, in order; the others are dropped.
pub open spec fn entries_model(
    out: Seq<(String, Node)>,
    es: Seq<(String, toml::Value)>,
    i: int,
    depth: nat,
) -> bool
    decreases depth, 1int, es.len() - i,
{
    if i < 0 || i >= es.len() {
        out.len() == 0
    } else if derives(es[i].1, depth) {
        &&& out.len() >= 1
        &&& out[0].0 == es[i].0
        &&& node_models(out[0].1, es[i].1, depth)
        &&& entries_model(out.skip(1), es, i + 1, depth)
    } else {
        entries_model(out, es, i + 1, depth)
    }
}

/// Whether `doc` is the document tree derived from the text `s`: the
/// table of the text's top-level entries, within the depth budget.
pub open spec fn document_model(doc: Node, s: Seq<char>) -> bool {
    doc matches Node::Table(out) && entries_model(
        out@,
        toml_root_entries(s),
        0,
        (DOCUMENT_DEPTH_LIMIT - 1) as nat,
    )
}

/// The tree a parsed node derives, or nothing when it derives none.
fn node_from_document(v: &toml::Value, depth: u64) -> (r: Option<Node>)
    ensures
        match r {
            Some(n) => node_models(n, *v, depth as nat) && derives(*v, depth as nat),
            None => !derives(*v, depth as nat),
        },
    decreases depth, 0int, 0int,
{
    if depth == 0 {
        return None;
    }
    match document_str(v) {
        Some(s) => {
            return Some(Node::Str(s));
        },
        None => {},
    }
    match document_bool(v) {
        Some(b) => {
            return Some(Node::Bool(b));
        },
        None => {},
    }
    match document_array(v) {
        Some(arr) => {
            let mut items: Vec<String> = Vec::new();
            let mut i: usize = 0;
            while i < arr.len()
                invariant
                    i <= arr.len(),
                    items@.len() == i,
                    toml_str_of(*v) is None,
                    toml_bool_of(*v) is None,
                    toml_array_of(*v) == Some(arr@),
                    depth >= 1,
                    forall|j: int| 0 <= j < i ==> toml_str_of(#[trigger] arr@[j]) == Some(
                        items@[j]@,
                    ),
                decreases arr.len() - i,
            {
                match document_str(&arr[i]) {
                    Some(s) => {
                        items.push(s);
                    },
                    None => {
                        proof {
                            assert(!derives(*v, depth as nat)) by {
                                if derives(*v, depth as nat) {
                                    assert(toml_str_of(arr@[i as int]) is Some);
                                }
                            }
                        }
                        return None;
                    },
                }
                i += 1;
            }
            proof {
                assert(list_models(items@, arr@));
            }
            return Some(Node::List(items));
        },
        None => {},
    }
    match document_entries(v) {
        Some(entries) => {
            let out = entries_from_document(&entries, 0, depth - 1);
            return Some(Node::Table(out));
        },
        None => {},
    }
    None
}

/// The table entries derived from `entries` at or after position `i`.
fn entries_from_document(
    entries: &Vec<(String, toml::Value)>,
    i: usize,
    depth: u64,
) -> (out: Vec<(String, Node)>)
    requires
        i <= entries@.len(),
    ensures
        entries_model(out@, entries@, i as int, depth as nat),
    decreases depth, 1int, entries@.len() - i,
{
    if i == entries.len() {
        let out: Vec<(String, Node)> = Vec::new();
        proof {
            assert(out@.len() == 0);
        }
        return out;
    }
    match node_from_document(&entries[i].1, depth) {
        Some(child) => {
            let mut out = entries_from_document(entries, i + 1, depth);
            let ghost rest = out@;
            out.insert(0, (entries[i].0.clone(), child));
            proof {
                assert(node_models(child, entries@[i as int].1, depth as nat));
                assert(out@.skip(1) =~= rest);
                assert(out@[0].1 == child);
                assert(entries_model(out@, entries@, i as int, depth as nat));
            }
            out
        },
        None => {
            let out = entries_from_document(entries, i + 1, depth);
            proof {
                assert(!derives(entries@[i as int].1, depth as nat));
                assert(entries_model(out@, entries@, i as int, depth as nat));
            }
            out
        },
    }
}

impl Config {
    /// The node under a dot-separated key, by reference, without any type
    /// conversion or substitution.
    pub fn lookup(&self, key: &str) -> (r: Option<&Node>)
        ensures
            match r {
                Some(v) => lookup_segs(self.doc(), crate::text::split_key(key@)) == Some(*v),
                None => lookup_segs(self.doc(), crate::text::split_key(key@)) is None,
            },
    {
        let segs = split_segments(key);
        lookup_value(&self.root, &segs)
    }

    /// Re-parses a document and, only on success, replaces the held
    /// snapshot with the new text's tree; on failure the previous document
    /// stays in effect.
    pub fn load(&mut self, raw: &str) -> (ok: bool)
        ensures
            ok <==> toml_parses(raw@),
            ok ==> document_model(final (self).doc(), raw@),
            !ok ==> final (self).doc() == old(self).doc(),
    {
        match Self::parse(raw) {
            Some(fresh) => {
                *self = fresh;
                true
            },
            None => false,
        }
    }

    /// `s` with the placeholder substituted from `general.config-dir`.
    fn substituted(&self, s: &str) -> (r: String)
        ensures
            r@ == subst(s@, config_dir_of(self.doc())),
    {
        match self.lookup_raw_str("general.config-dir") {
            Some(d) => {
                let pat = placeholder_chars();
                replace_chars(s, &pat, d.as_str())
            },
            None => s.to_owned(),
        }
    }

    /// The node under the given segments, by reference.
    fn node_at(&self, segs: &Vec<String>) -> (r: Option<&Node>)
        ensures
            match r {
                Some(v) => lookup_segs(self.doc(), views_of(segs@)) == Some(*v),
                None => lookup_segs(self.doc(), views_of(segs@)) is None,
            },
    {
        lookup_value(&self.root, segs)
    }
}

impl BrowserConfiguration for Config {
    closed spec fn doc(&self) -> Node {
        self.root
    }

    fn parse(raw_input: &str) -> (r: Option<Config>) {
        match parse_document(raw_input) {
            Some(entries) => {
                let out = entries_from_document(&entries, 0, DOCUMENT_DEPTH_LIMIT - 1);
                Some(Config { root: Node::Table(out) })
            },
            None => None,
        }
    }

    fn start_page(&self) -> Option<String> {
        self.lookup_str("window.start-page")
    }

    fn config_dir(&self) -> Option<String> {
        self.lookup_raw_str("general.config-dir")
    }

    fn resolved_command_name(&self, name: &str) -> Option<String> {
        let mut key = "commands.aliases.".to_owned();
        key.append(name);
        let command = match self.lookup_str(key.as_str()) {
            Some(s) => s,
            None => name.to_owned(),
        };
        if self.command_disabled(command.as_str()) {
            None
        } else {
            Some(command)
        }
    }

    fn command_matching_prefix(&self, text: &str) -> (r: Option<String>) {
        let n = text.unicode_len();
        if n == 0 {
            return None;
        }
        let c = text.get_char(0);
        let mut key = "commands.on-text-change.".to_owned();
        push_char(&mut key, '"');
        push_char(&mut key, c);
        push_char(&mut key, '"');
        proof {
            assert(key@ =~= crate::ui::prefix_key(text@[0]));
        }
        match self.lookup_str(key.as_str()) {
            Some(script) => {
                let rest = text.substring_char(1, n);
                let mut out = script;
                push_char(&mut out, ' ');
                out.append(rest);
                proof {
                    assert(out@ =~= crate::ui::spec_command_matching_prefix(
                        self.doc(),
                        text@,
                    ).unwrap());
                }
                Some(out)
            },
            None => None,
        }
    }

    fn command_disabled(&self, name: &str) -> bool {
        match self.lookup_str_vec("commands.disabled") {
            Some(disabled) => contains_str(&disabled, name),
            None => false,
        }
    }

    fn content_filter_path(&self) -> Option<String> {
        self.lookup_str("general.content-filter")
    }

    fn skip_content_filter(&self, uri: &str) -> bool {
        match self.content_filter_path() {
            Some(_) => match self.lookup_site_bool(uri, "skip-content-filter") {
                Some(b) => b,
                None => false,
            },
            None => true,
        }
    }

    fn use_private_browsing(&self, uri: &str) -> bool {
        match self.lookup_site_bool(uri, "private-browsing") {
            Some(value) => value,
            None => match self.lookup_bool("general.private-browsing") {
                Some(mode) => mode,
                None => false,
            },
        }
    }

    fn use_plugins(&self, uri: &str) -> bool {
        match self.lookup_site_bool(uri, "allow-plugins") {
            Some(value) => value,
            None => match self.lookup_bool("general.allow-plugins") {
                Some(mode) => mode,
                None => false,
            },
        }
    }

    fn command_search_paths(&self) -> (r: Vec<String>) {
        match self.lookup_str_vec("commands.search-paths") {
            Some(paths) => paths,
            None => {
                let r: Vec<String> = Vec::new();
                proof {
                    assert(views_of(r@) =~= crate::ui::search_paths_of(self.doc()));
                }
                r
            },
        }
    }

    fn default_command(&self) -> Option<String> {
        self.lookup_str("commands.default")
    }

    fn on_uri_event_commands(&self, event: URIEvent) -> (r: Vec<String>) {
        let key = match event {
            URIEvent::Load => "commands.on-load-uri",
            URIEvent::Request => "commands.on-request-uri",
            URIEvent::Fail => "commands.on-fail-uri",
        };
        match self.lookup_str_vec(key) {
            Some(commands) => commands,
            None => {
                let r: Vec<String> = Vec::new();
                proof {
                    assert(views_of(r@) =~= crate::ui::on_uri_event_commands_of(
                        self.doc(),
                        event,
                    ));
                }
                r
            },
        }
    }

    fn lookup_bool(&self, key: &str) -> Option<bool> {
        let segs = split_segments(key);
        match self.node_at(&segs) {
            Some(Node::Bool(b)) => Some(*b),
            _ => None,
        }
    }

    fn lookup_str(&self, key: &str) -> Option<String> {
        match self.lookup_raw_str(key) {
            Some(s) => Some(self.substituted(s.as_str())),
            None => None,
        }
    }

    fn lookup_raw_str(&self, key: &str) -> Option<String> {
        let segs = split_segments(key);
        match self.node_at(&segs) {
            Some(Node::Str(s)) => Some(s.clone()),
            _ => None,
        }
    }

    fn lookup_str_vec(&self, key: &str) -> (r: Option<Vec<String>>) {
        let segs = split_segments(key);
        let items = match self.node_at(&segs) {
            Some(Node::List(v)) => v,
            _ => {
                return None;
            },
        };
        let mut out: Vec<String> = Vec::new();
        let mut i: usize = 0;
        while i < items.len()
            invariant
                i <= items@.len(),
                out@.len() == i,
                forall|j: int|
                    0 <= j < i ==> out@[j]@ == subst(items@[j]@, config_dir_of(self.doc())),
            decreases items@.len() - i,
        {
            out.push(self.substituted(items[i].as_str()));
            i += 1;
        }
        proof {
            assert(views_of(out@) =~= views_of(items@).map_values(
                |x: Seq<char>| subst(x, config_dir_of(self.doc())),
            ));
        }
        Some(out)
    }

    fn lookup_site_bool(&self, uri: &str, key: &str) -> Option<bool> {
        let segs = site_segments(uri, key);
        match self.node_at(&segs) {
            Some(Node::Bool(b)) => Some(*b),
            _ => None,
        }
    }

    fn lookup_site_str(&self, uri: &str, key: &str) -> Option<String> {
        let segs = site_segments(uri, key);
        match self.node_at(&segs) {
            Some(Node::Str(s)) => Some(self.substituted(s.as_str())),
            _ => None,
        }
    }

    fn lookup_site_str_vec(&self, uri: &str, key: &str) -> (r: Option<Vec<String>>) {
        let segs = site_segments(uri, key);
        let items = match self.node_at(&segs) {
            Some(Node::List(v)) => v,
            _ => {
                return None;
            },
        };
        let mut out: Vec<String> = Vec::new();
        let mut i: usize = 0;
        while i < items.len()
            invariant
                i <= items@.len(),
                out@.len() == i,
                forall|j: int|
                    0 <= j < i ==> out@[j]@ == subst(items@[j]@, config_dir_of(self.doc())),
            decreases items@.len() - i,
        {
            out.push(self.substituted(items[i].as_str()));
            i += 1;
        }
        proof {
            assert(views_of(out@) =~= views_of(items@).map_values(
                |x: Seq<char>| subst(x, config_dir_of(self.doc())),
            ));
        }
        Some(out)
    }
}

} // verus!
