//! The resolver's standing guarantees, stated once over the spec
//! functions the public contracts use, and proved for all inputs.

use vstd::prelude::*;

use crate::command::{
    alias_lookup, candidate_path, lemma_first_present_from, name_disabled, spec_resolve,
};
use crate::text::{head_token, replace_seq, seq_starts_with, tail_after_token};
use crate::ui::{default_command_of, site_or_general_bool};
use crate::value::{bool_at, config_dir_of, placeholder, raw_str_at, site_segs, str_at, Node};
use crate::{fallback_text, lemma_fallback_guard, retry_rank};

verus! {

/// A text whose first token aliases to a disabled command resolves to
/// absent, whatever the search paths hold and whatever is on disk.
pub proof fn lemma_disabled_never_resolves(
    text: Seq<char>,
    search_paths: Seq<String>,
    disabled: Seq<String>,
    aliases: Seq<(String, String)>,
    suffix: Seq<char>,
    present: Seq<bool>,
)
    requires
        name_disabled(disabled, alias_lookup(aliases, head_token(text), 0)),
    ensures
        spec_resolve(text, search_paths, disabled, aliases, suffix, present) is None,
{
}

/// A configured site override takes precedence over the corresponding
/// general key: whenever the override is present, it alone decides.
pub proof fn lemma_site_override_precedence(
    doc: Node,
    uri: Seq<char>,
    site_key: Seq<char>,
    general_key: Seq<char>,
    v: bool,
)
    requires
        bool_at(doc, site_segs(uri, site_key)) == Some(v),
    ensures
        site_or_general_bool(doc, uri, site_key, general_key) == v,
{
}

/// Search-path order determines resolution: when the directories at two
/// positions both hold the candidate script and no other does, the
/// earlier position wins.
pub proof fn lemma_search_path_order(
    text: Seq<char>,
    search_paths: Seq<String>,
    disabled: Seq<String>,
    aliases: Seq<(String, String)>,
    suffix: Seq<char>,
    present: Seq<bool>,
    i1: int,
    i2: int,
)
    requires
        present.len() == search_paths.len(),
        head_token(text).len() > 0,
        !name_disabled(disabled, alias_lookup(aliases, head_token(text), 0)),
        0 <= i1 < i2 < present.len(),
        present[i1],
        present[i2],
        forall|k: int| 0 <= k < present.len() && k != i1 && k != i2 ==> !present[k],
    ensures
        spec_resolve(text, search_paths, disabled, aliases, suffix, present) == Some(
            (
                candidate_path(
                    search_paths[i1]@,
                    alias_lookup(aliases, head_token(text), 0),
                    suffix,
                ),
                tail_after_token(text),
            ),
        ),
{
    lemma_first_present_from(present, 0, i1);
}

/// Default-command fallback never loops: the one retried text begins with
/// the default command, and a text that begins with it has no retry left.
pub proof fn lemma_fallback_terminates(doc: Node, d: Seq<char>, text: Seq<char>)
    requires
        default_command_of(doc) == Some(d),
    ensures
        seq_starts_with(fallback_text(d, text), d),
        retry_rank(doc, fallback_text(d, text)) == 0,
{
    lemma_fallback_guard(d, text);
}

/// One stored string serves both lookups: substituted, it yields the
/// placeholder replaced by the configured directory; raw, it yields the
/// stored text untouched.
pub proof fn lemma_substitution_round_trip(
    doc: Node,
    segs: Seq<Seq<char>>,
    s: Seq<char>,
    d: Seq<char>,
)
    requires
        raw_str_at(doc, segs) == Some(s),
        config_dir_of(doc) == Some(d),
    ensures
        str_at(doc, segs) == Some(replace_seq(s, placeholder(), d)),
        raw_str_at(doc, segs) == Some(s),
{
}

} // verus!
