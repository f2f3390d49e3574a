//! The command resolver: maps raw input text to a concrete script file
//! plus argument text, honoring aliases, a disabled-command list, and an
//! ordered list of search directories.

use vstd::prelude::*;

use crate::text::{
    contains_str, head_token, split_first_space, tail_after_token, views_of,
};
use crate::trusted::{path_exists, push_char};

verus! {

/// A resolved command: the script file it names and the remainder of the
/// input text after the command name, unparsed.
pub struct Command {
    pub path: String,
    pub arguments: String,
}

/// The candidate script file for a command name in one directory.
pub open spec fn candidate_path(dir: Seq<char>, name: Seq<char>, suffix: Seq<char>) -> Seq<char> {
    dir + seq!['/'] + name + seq!['.'] + suffix
}

/// `name` mapped through the alias pairs at or after position `i`,
/// identity without a match, earliest pair first.
pub open spec fn alias_lookup(aliases: Seq<(String, String)>, name: Seq<char>, i: int) -> Seq<char>
    decreases aliases.len() - i,
{
    if i < 0 || i >= aliases.len() {
        name
    } else if aliases[i].0@ == name {
        aliases[i].1@
    } else {
        alias_lookup(aliases, name, i + 1)
    }
}

/// Whether `name` is among the disabled names.
pub open spec fn name_disabled(disabled: Seq<String>, name: Seq<char>) -> bool {
    views_of(disabled).contains(name)
}

/// The first position at or after `i` marked present, if any.
pub open spec fn first_present(present: Seq<bool>, i: int) -> Option<int>
    decreases present.len() - i,
{
    if i < 0 || i >= present.len() {
        None
    } else if present[i] {
        Some(i)
    } else {
        first_present(present, i + 1)
    }
}

/// What resolution answers once the file system has answered: `present[j]`
/// says whether the candidate file under the directory at position `j`
/// exists. The result is the candidate in the first present directory,
/// paired with the argument text; absent on an empty name, a disabled
/// resolved name, or no present directory.
pub open spec fn spec_resolve(
    text: Seq<char>,
    search_paths: Seq<String>,
    disabled: Seq<String>,
    aliases: Seq<(String, String)>,
    suffix: Seq<char>,
    present: Seq<bool>,
) -> Option<(Seq<char>, Seq<char>)> {
    let name = alias_lookup(aliases, head_token(text), 0);
    if head_token(text).len() == 0 || name_disabled(disabled, name) {
        None
    } else {
        match first_present(present, 0) {
            Some(j) => Some(
                (candidate_path(search_paths[j]@, name, suffix), tail_after_token(text)),
            ),
            None => None,
        }
    }
}

/// The first present position is in range, present, and has none present
/// before it; when there is none, nothing at or after `i` is present.
pub proof fn lemma_first_present(present: Seq<bool>, i: int)
    requires
        0 <= i,
    ensures
        match first_present(present, i) {
            Some(j) => i <= j < present.len() && present[j] && (forall|k: int|
                i <= k < j ==> !present[k]),
            None => forall|k: int| i <= k < present.len() ==> !present[k],
        },
    decreases present.len() - i,
{
    if i < present.len() && !present[i] {
        lemma_first_present(present, i + 1);
    }
}

/// When everything before `j` is absent and `j` is present, `j` is the
/// first present position.
pub proof fn lemma_first_present_from(present: Seq<bool>, i: int, j: int)
    requires
        0 <= i <= j < present.len(),
        present[j],
        forall|k: int| i <= k < j ==> !present[k],
    ensures
        first_present(present, i) == Some(j),
    decreases j - i,
{
    if i < j {
        lemma_first_present_from(present, i + 1, j);
    }
}

/// `name` mapped through the alias pairs, identity without a match.
fn alias_get(aliases: &Vec<(String, String)>, name: &String) -> (r: String)
    ensures
        r@ == alias_lookup(aliases@, name@, 0),
{
    let mut i: usize = 0;
    while i < aliases.len()
        invariant
            i <= aliases@.len(),
            alias_lookup(aliases@, name@, 0) == alias_lookup(aliases@, name@, i as int),
        decreases aliases@.len() - i,
    {
        let pair = &aliases[i];
        if pair.0 == *name {
            return pair.1.clone();
        }
        i += 1;
    }
    name.clone()
}

/// The candidate script file for a command name in one directory:
/// `<dir>/<name>.<suffix>`.
pub fn candidate(dir: &String, name: &str, suffix: &str) -> (r: String)
    ensures
        r@ == candidate_path(dir@, name@, suffix@),
{
    let mut p = dir.clone();
    push_char(&mut p, '/');
    p.append(name);
    push_char(&mut p, '.');
    p.append(suffix);
    proof {
        assert(p@ =~= candidate_path(dir@, name@, suffix@));
    }
    p
}

impl Command {
    /// Resolution against an explicit answer for each directory:
    /// `present[j]` says whether the candidate file under `search_paths[j]`
    /// exists. The input splits at its first space into a name and the
    /// argument text; the name goes through the alias pairs; a disabled
    /// resolved name never matches; the first directory whose candidate is
    /// present wins, and no later directory is considered.
    pub fn resolve_in(
        text: &str,
        search_paths: &Vec<String>,
        disabled: &Vec<String>,
        aliases: &Vec<(String, String)>,
        suffix: &str,
        present: &Vec<bool>,
    ) -> (r: Option<Command>)
        requires
            present@.len() == search_paths@.len(),
        ensures
            ({
                let rr = spec_resolve(text@, search_paths@, disabled@, aliases@, suffix@, present@);
                match r {
                    Some(c) => rr == Some((c.path@, c.arguments@)),
                    None => rr is None,
                }
            }),
    {
        let (head, rest) = split_first_space(text);
        if head.as_str().unicode_len() == 0 {
            return None;
        }
        let name = alias_get(aliases, &head);
        if contains_str(disabled, name.as_str()) {
            return None;
        }
        let mut j: usize = 0;
        while j < search_paths.len()
            invariant
                present@.len() == search_paths@.len(),
                j <= search_paths@.len(),
                first_present(present@, 0) == first_present(present@, j as int),
                head@ == head_token(text@),
                rest@ == tail_after_token(text@),
                name@ == alias_lookup(aliases@, head_token(text@), 0),
                head@.len() > 0,
                !name_disabled(disabled@, name@),
            decreases search_paths@.len() - j,
        {
            if present[j] {
                let path = candidate(&search_paths[j], name.as_str(), suffix);
                return Some(Command { path, arguments: rest.clone() });
            }
            j += 1;
        }
        None
    }

    /// Resolution against the file system: walks the configured
    /// directories in order and keeps the first whose candidate file
    /// exists. Whether a file exists is the machine's to answer, so the
    /// contract states what holds of every answer; `resolve_in` pins the
    /// rest down.
    pub fn parse(
        text: &str,
        search_paths: &Vec<String>,
        disabled: &Vec<String>,
        aliases: &Vec<(String, String)>,
        suffix: &str,
    ) -> (r: Option<Command>)
        ensures
            ({
                let name = alias_lookup(aliases@, head_token(text@), 0);
                &&& (head_token(text@).len() == 0 ==> r is None)
                &&& (name_disabled(disabled@, name) ==> r is None)
                &&& match r {
                    Some(c) => {
                        &&& head_token(text@).len() > 0
                        &&& !name_disabled(disabled@, name)
                        &&& c.arguments@ == tail_after_token(text@)
                        &&& exists|j: int|
                            0 <= j < search_paths@.len() && c.path@ == candidate_path(
                                search_paths@[j]@,
                                name,
                                suffix@,
                            )
                    },
                    None => true,
                }
            }),
    {
        let (head, _rest) = split_first_space(text);
        let name = alias_get(aliases, &head);
        let mut present: Vec<bool> = Vec::new();
        let mut j: usize = 0;
        while j < search_paths.len()
            invariant
                j <= search_paths@.len(),
                present@.len() == j,
            decreases search_paths@.len() - j,
        {
            let cand = candidate(&search_paths[j], name.as_str(), suffix);
            present.push(path_exists(cand.as_str()));
            j += 1;
        }
        let r = Self::resolve_in(text, search_paths, disabled, aliases, suffix, &present);
        proof {
            lemma_first_present(present@, 0);
        }
        r
    }

    /// Whether the resolved script file can now be opened. Resolution saw
    /// the file, but it may have become unreadable since; that is
    /// non-fatal and is not a resolution failure.
    pub fn file_available(&self) -> bool {
        path_exists(self.path.as_str())
    }
}

} // verus!
