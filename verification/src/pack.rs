//! Packing a build context on the client: which paths the `--exclude` glob
//! patterns leave out, and the name each path gets in the archive. The walk over
//! the file system is done by the caller, one path at a time.

use vstd::prelude::*;
use vstd::string::*;

verus! {

/// Whether `glob` accepts `pattern` as a Unix shell style pattern.
pub uninterp spec fn glob_valid(pattern: Seq<char>) -> bool;

/// Whether the valid glob `pattern` matches the text `path` (default options).
pub uninterp spec fn glob_matches(pattern: Seq<char>, path: Seq<char>) -> bool;

/// Trusted: `glob::Pattern::new` on `pattern`, then `Pattern::matches` on `path`
/// where the pattern compiled. `None` exactly where `glob` refuses the pattern;
/// otherwise whether it matches, as named by `glob_matches`.
#[verifier::external_body]
fn glob_match(pattern: &str, path: &str) -> (r: Option<bool>)
    ensures
        r is Some <==> glob_valid(pattern@),
        r matches Some(b) ==> b == glob_matches(pattern@, path@),
{
    match glob::Pattern::new(pattern) {
        Ok(p) => Some(p.matches(path)),
        Err(_) => None,
    }
}

/// Some valid pattern of `patterns` matches `path`; patterns that do not compile
/// are ignored.
pub open spec fn excluded(patterns: Seq<String>, path: Seq<char>) -> bool {
    exists|i: int| 0 <= i < patterns.len() && glob_valid(patterns[i]@) && glob_matches(#[trigger] patterns[i]@, path)
}

/// What to do with one path of the context.
pub enum PackStep {
    /// Leave the path out, with everything below it.
    Skip,
    /// Put the path into the archive under `inner`; where `descend` is set, the
    /// path is a directory whose entries come next.
    Add { inner: String, descend: bool },
}

/// Decides about the path `path` of the context, to be stored under `inner`:
/// left out (with everything below it) where an exclude pattern matches it,
/// otherwise added, and descended into where it is a directory.
pub fn pack_step(patterns: &Vec<String>, path: &str, inner: &str, is_dir: bool) -> (s: PackStep)
    ensures
        (s is Skip) == excluded(patterns@, path@),
        s matches PackStep::Add { inner: n, descend } ==> n@ == inner@ && descend == is_dir,
{
    let mut i: usize = 0;
    while i < patterns.len()
        invariant
            i <= patterns@.len(),
            forall|j: int|
                0 <= j < i ==> !(glob_valid(patterns@[j]@) && glob_matches(#[trigger] patterns@[j]@, path@)),
        decreases patterns@.len() - i,
    {
        match glob_match(patterns[i].as_str(), path) {
            Some(true) => {
                assert(glob_matches(patterns@[i as int]@, path@));
                return PackStep::Skip;
            },
            _ => {},
        }
        i = i + 1;
    }
    PackStep::Add { inner: inner.to_owned(), descend: is_dir }
}

/// A path matched by any one valid pattern of the list is left out, wherever that
/// pattern stands in the list and whatever the other patterns are.
pub proof fn lemma_any_matching_pattern_excludes(patterns: Seq<String>, path: Seq<char>, i: int)
    requires
        0 <= i < patterns.len(),
        glob_valid(patterns[i]@),
        glob_matches(patterns[i]@, path),
    ensures
        excluded(patterns, path),
{
}

/// A path is left out only where some valid pattern of the list matches it:
/// patterns that do not compile, or that do not match, never exclude it.
pub proof fn lemma_excluded_only_by_a_match(patterns: Seq<String>, path: Seq<char>)
    requires
        excluded(patterns, path),
    ensures
        exists|i: int| 0 <= i < patterns.len() && glob_valid(patterns[i]@) && #[trigger] glob_matches(patterns[i]@, path),
{
}

/// Adding exclude patterns never brings back a path that was left out, and a
/// path is left out by a list exactly when it is left out by one of its parts.
pub proof fn lemma_exclusion_splits(a: Seq<String>, b: Seq<String>, path: Seq<char>)
    ensures
        excluded(a + b, path) == (excluded(a, path) || excluded(b, path)),
{
    let c = a + b;
    if excluded(a, path) {
        let i = choose|i: int| 0 <= i < a.len() && glob_valid(a[i]@) && glob_matches(#[trigger] a[i]@, path);
        assert(c[i] == a[i]);
        lemma_any_matching_pattern_excludes(c, path, i);
    }
    if excluded(b, path) {
        let i = choose|i: int| 0 <= i < b.len() && glob_valid(b[i]@) && glob_matches(#[trigger] b[i]@, path);
        assert(c[i + a.len()] == b[i]);
        lemma_any_matching_pattern_excludes(c, path, i + a.len());
    }
    if excluded(c, path) {
        let i = choose|i: int| 0 <= i < c.len() && glob_valid(c[i]@) && glob_matches(#[trigger] c[i]@, path);
        if i < a.len() {
            assert(c[i] == a[i]);
            lemma_any_matching_pattern_excludes(a, path, i);
        } else {
            assert(c[i] == b[i - a.len()]);
            lemma_any_matching_pattern_excludes(b, path, i - a.len());
        }
    }
}

/// The name the root of the context gets in the archive.
pub fn archive_root_name() -> (s: String)
    ensures
        s@ == "."@,
{
    ".".to_owned()
}

/// The archive name of the entry `name` of the directory stored as `inner`: the
/// two joined by `/` (no separator is added after an empty name or one that
/// already ends with `/`).
pub open spec fn child_name(inner: Seq<char>, name: Seq<char>) -> Seq<char> {
    if inner.len() == 0 || inner.last() == '/' {
        inner + name
    } else {
        inner + seq!['/'] + name
    }
}

/// The archive name of the entry `name` of the directory stored as `inner`.
pub fn child_entry_name(inner: &str, name: &str) -> (s: String)
    ensures
        s@ == child_name(inner@, name@),
{
    let mut s = inner.to_owned();
    let n = inner.unicode_len();
    if n == 0 || inner.get_char(n - 1) == '/' {
        s.append(name);
    } else {
        s.append("/");
        proof {
            reveal_strlit("/");
        }
        assert("/"@ =~= seq!['/']);
        s.append(name);
    }
    s
}

} // verus!
