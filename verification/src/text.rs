//! Character-level text utilities the resolver is specified over: token
//! splitting, quote-aware key segmentation, placeholder replacement, and
//! host extraction from a URI.

use vstd::prelude::*;

use crate::trusted::push_char;

verus! {

/// The views of a sequence of strings.
pub open spec fn views_of(ss: Seq<String>) -> Seq<Seq<char>> {
    ss.map_values(|s: String| s@)
}

/// `p` occurs in `s` at position `i`.
pub open spec fn matches_at_spec(s: Seq<char>, p: Seq<char>, i: int) -> bool {
    0 <= i && i + p.len() <= s.len() && (forall|k: int| 0 <= k < p.len() ==> s[i + k] == p[k])
}

/// `s` begins with `p`.
pub open spec fn seq_starts_with(s: Seq<char>, p: Seq<char>) -> bool {
    matches_at_spec(s, p, 0)
}

/// Whether the characters of `p` occur in `s` at position `i`.
pub fn matches_at(s: &str, p: &Vec<char>, i: usize) -> (r: bool)
    ensures
        r == matches_at_spec(s@, p@, i as int),
{
    let n = s.unicode_len();
    if p.len() > n || i > n - p.len() {
        return false;
    }
    let mut k: usize = 0;
    while k < p.len()
        invariant
            i + p.len() <= n,
            n == s@.len(),
            k <= p.len(),
            forall|j: int| 0 <= j < k ==> s@[i + j] == p@[j],
        decreases p.len() - k,
    {
        if s.get_char(i + k) != p[k] {
            return false;
        }
        k += 1;
    }
    true
}

/// Whether `s` begins with `p`.
pub fn str_starts_with(s: &str, p: &str) -> (r: bool)
    ensures
        r == seq_starts_with(s@, p@),
{
    let n = s.unicode_len();
    let m = p.unicode_len();
    if m > n {
        return false;
    }
    let mut k: usize = 0;
    while k < m
        invariant
            m <= n,
            n == s@.len(),
            m == p@.len(),
            k <= m,
            forall|j: int| 0 <= j < k ==> s@[j] == p@[j],
        decreases m - k,
    {
        if s.get_char(k) != p.get_char(k) {
            return false;
        }
        k += 1;
    }
    true
}

/// `s` with every occurrence of `pat` replaced by `rep`, scanning left to
/// right and never rescanning replaced text. An empty `pat` replaces
/// nothing.
pub open spec fn replace_seq(s: Seq<char>, pat: Seq<char>, rep: Seq<char>) -> Seq<char>
    decreases s.len(),
{
    if pat.len() == 0 || s.len() == 0 {
        s
    } else if seq_starts_with(s, pat) {
        rep + replace_seq(s.skip(pat.len() as int), pat, rep)
    } else {
        seq![s[0]] + replace_seq(s.skip(1), pat, rep)
    }
}

/// `s` with every occurrence of `pat` replaced by `rep`.
pub fn replace_chars(s: &str, pat: &Vec<char>, rep: &str) -> (r: String)
    ensures
        r@ == replace_seq(s@, pat@, rep@),
    decreases s@.len(),
{
    let n = s.unicode_len();
    if pat.len() == 0 || n == 0 {
        return s.to_owned();
    }
    if matches_at(s, pat, 0) {
        let rest = s.substring_char(pat.len(), n);
        let tail = replace_chars(rest, pat, rep);
        let mut out = rep.to_owned();
        out.append(tail.as_str());
        out
    } else {
        let rest = s.substring_char(1, n);
        let tail = replace_chars(rest, pat, rep);
        let mut out = s.substring_char(0, 1).to_owned();
        out.append(tail.as_str());
        proof {
            assert(s@.subrange(0, 1) =~= seq![s@[0]]);
        }
        out
    }
}

/// Whether some element of `v` has exactly the characters of `name`.
pub fn contains_str(v: &Vec<String>, name: &str) -> (r: bool)
    ensures
        r == views_of(v@).contains(name@),
{
    let owned = name.to_owned();
    let mut i: usize = 0;
    while i < v.len()
        invariant
            i <= v@.len(),
            owned@ == name@,
            forall|j: int| 0 <= j < i ==> v@[j]@ != name@,
        decreases v@.len() - i,
    {
        if v[i] == owned {
            proof {
                assert(views_of(v@)[i as int] == name@);
            }
            return true;
        }
        i += 1;
    }
    proof {
        assert(!views_of(v@).contains(name@)) by {
            if views_of(v@).contains(name@) {
                let k = choose|k: int|
                    0 <= k < views_of(v@).len() && views_of(v@)[k] == name@;
                assert(v@[k]@ == name@);
            }
        }
    }
    false
}

/// The position of the first space at or after `i`, if any.
pub open spec fn first_space(s: Seq<char>, i: int) -> Option<int>
    decreases s.len() - i,
{
    if i < 0 || i >= s.len() {
        None
    } else if s[i] == ' ' {
        Some(i)
    } else {
        first_space(s, i + 1)
    }
}

/// The text before the first space, or all of it.
pub open spec fn head_token(s: Seq<char>) -> Seq<char> {
    match first_space(s, 0) {
        Some(j) => s.take(j),
        None => s,
    }
}

/// The text after the first space, or empty.
pub open spec fn tail_after_token(s: Seq<char>) -> Seq<char> {
    match first_space(s, 0) {
        Some(j) => s.skip(j + 1),
        None => Seq::empty(),
    }
}

/// Splits `s` at its first space into a head token and the remainder;
/// without a space the head is all of `s` and the remainder is empty.
pub fn split_first_space(s: &str) -> (r: (String, String))
    ensures
        r.0@ == head_token(s@),
        r.1@ == tail_after_token(s@),
{
    let n = s.unicode_len();
    let mut i: usize = 0;
    while i < n
        invariant
            n == s@.len(),
            i <= n,
            first_space(s@, 0) == first_space(s@, i as int),
        decreases n - i,
    {
        if s.get_char(i) == ' ' {
            let head = s.substring_char(0, i);
            let rest = s.substring_char(i + 1, n);
            return (head.to_owned(), rest.to_owned());
        }
        i += 1;
    }
    (s.to_owned(), String::new())
}

/// The dot-separated segments of a key, where a double quote toggles a
/// mode in which dots do not split; quote characters themselves are not
/// part of any segment. There is always at least one segment.
pub open spec fn split_rec(s: Seq<char>, inq: bool) -> Seq<Seq<char>>
    decreases s.len(),
{
    if s.len() == 0 {
        seq![Seq::<char>::empty()]
    } else if s[0] == '"' {
        split_rec(s.skip(1), !inq)
    } else if s[0] == '.' && !inq {
        seq![Seq::<char>::empty()] + split_rec(s.skip(1), inq)
    } else {
        let r = split_rec(s.skip(1), inq);
        seq![seq![s[0]] + r[0]] + r.skip(1)
    }
}

/// The segments of a dot-separated key, honoring quoted segments.
pub open spec fn split_key(s: Seq<char>) -> Seq<Seq<char>> {
    split_rec(s, false)
}

fn split_segments_rec(s: &str, inq: bool) -> (r: Vec<String>)
    ensures
        views_of(r@) == split_rec(s@, inq),
        r@.len() >= 1,
    decreases s@.len(),
{
    let n = s.unicode_len();
    if n == 0 {
        let mut r: Vec<String> = Vec::new();
        r.push(String::new());
        proof {
            assert(views_of(r@) =~= split_rec(s@, inq));
        }
        return r;
    }
    let c = s.get_char(0);
    let rest = s.substring_char(1, n);
    if c == '"' {
        let r = split_segments_rec(rest, !inq);
        proof {
            assert(rest@ =~= s@.skip(1));
        }
        r
    } else if c == '.' && !inq {
        let mut r = split_segments_rec(rest, inq);
        r.insert(0, String::new());
        proof {
            assert(rest@ =~= s@.skip(1));
            assert(views_of(r@) =~= split_rec(s@, inq));
        }
        r
    } else {
        let mut r = split_segments_rec(rest, inq);
        let mut first = String::new();
        push_char(&mut first, c);
        first.append(r[0].as_str());
        proof {
            assert(Seq::<char>::empty().push(c) + views_of(r@)[0] =~= seq![s@[0]] + split_rec(
                rest@,
                inq,
            )[0]);
        }
        r.set(0, first);
        proof {
            assert(rest@ =~= s@.skip(1));
            assert(views_of(r@) =~= split_rec(s@, inq));
        }
        r
    }
}

/// The segments of a dot-separated key, honoring quoted segments.
pub fn split_segments(s: &str) -> (r: Vec<String>)
    ensures
        views_of(r@) == split_key(s@),
        r@.len() >= 1,
{
    split_segments_rec(s, false)
}

/// The position right after the first `://`, if any occurs at or after `i`.
pub open spec fn find_scheme_end(s: Seq<char>, i: int) -> Option<int>
    decreases s.len() - i,
{
    if i < 0 || i + 3 > s.len() {
        None
    } else if s[i] == ':' && s[i + 1] == '/' && s[i + 2] == '/' {
        Some(i + 3)
    } else {
        find_scheme_end(s, i + 1)
    }
}

/// A character that ends the host component of a URI.
pub open spec fn is_host_delim(c: char) -> bool {
    c == '/' || c == ':' || c == '?' || c == '#'
}

/// The position of the first host delimiter at or after `i`, if any.
pub open spec fn find_host_delim(s: Seq<char>, i: int) -> Option<int>
    decreases s.len() - i,
{
    if i < 0 || i >= s.len() {
        None
    } else if is_host_delim(s[i]) {
        Some(i)
    } else {
        find_host_delim(s, i + 1)
    }
}

/// The text after the first `://`, or all of it when there is none.
pub open spec fn host_source(u: Seq<char>) -> Seq<char> {
    match find_scheme_end(u, 0) {
        Some(j) => u.skip(j),
        None => u,
    }
}

/// The host component of a URI: what follows the first `://` (or the whole
/// text when there is none) up to the first `/`, `:`, `?` or `#`.
pub open spec fn host_of(u: Seq<char>) -> Seq<char> {
    let s = host_source(u);
    match find_host_delim(s, 0) {
        Some(k) => s.take(k),
        None => s,
    }
}

/// The host component of a URI.
pub fn host_of_uri(u: &str) -> (r: String)
    ensures
        r@ == host_of(u@),
{
    let n = u.unicode_len();
    let mut i: usize = 0;
    let mut start: usize = 0;
    let mut found = false;
    while !found && n - i >= 3
        invariant
            n == u@.len(),
            i <= n,
            !found ==> find_scheme_end(u@, 0) == find_scheme_end(u@, i as int) && start == 0,
            found ==> find_scheme_end(u@, 0) == Some(start as int) && start <= n,
        decreases n - i + (if found { 0int } else { 1int }),
    {
        if u.get_char(i) == ':' && u.get_char(i + 1) == '/' && u.get_char(i + 2) == '/' {
            start = i + 3;
            found = true;
        } else {
            i += 1;
        }
    }
    let ghost sub: Seq<char> = u@.skip(start as int);
    proof {
        if !found {
            assert(find_scheme_end(u@, i as int) is None);
            assert(sub =~= u@);
        }
    }
    let mut k: usize = start;
    while k < n
        invariant
            n == u@.len(),
            start <= k <= n,
            sub == u@.skip(start as int),
            sub == host_source(u@),
            find_host_delim(sub, 0) == find_host_delim(sub, k - start),
        decreases n - k,
    {
        let c = u.get_char(k);
        if c == '/' || c == ':' || c == '?' || c == '#' {
            let r = u.substring_char(start, k).to_owned();
            proof {
                assert(sub[k - start] == u@[k as int]);
                assert(find_host_delim(sub, k - start) == Some((k - start) as int));
                assert(r@ =~= sub.take(k - start));
            }
            return r;
        }
        k += 1;
    }
    let r = u.substring_char(start, n).to_owned();
    proof {
        assert(find_host_delim(sub, 0) is None);
        assert(r@ =~= sub);
    }
    r
}

} // verus!
