//! Operations on text that the rest of the library is stated over.

use vstd::prelude::*;
use vstd::string::*;

verus! {

/// Whether `s` begins with `prefix`, compared character by character.
pub fn starts_with(s: &str, prefix: &str) -> (r: bool)
    ensures
        r == prefix@.is_prefix_of(s@),
{
    let n = prefix.unicode_len();
    let m = s.unicode_len();
    if n > m {
        return false;
    }
    let mut i: usize = 0;
    while i < n
        invariant
            i <= n,
            n == prefix@.len(),
            m == s@.len(),
            n <= m,
            forall|j: int| 0 <= j < i ==> s@[j] == prefix@[j],
        decreases n - i,
    {
        if s.get_char(i) != prefix.get_char(i) {
            assert(s@.subrange(0, n as int)[i as int] == s@[i as int]);
            return false;
        }
        i += 1;
    }
    assert(prefix@ =~= s@.subrange(0, n as int));
    true
}

/// The text `a` followed by the text `b`.
pub fn concatenate(a: &str, b: &str) -> (r: String)
    ensures
        r@ == a@ + b@,
{
    let mut r = String::from_str(a);
    r.append(b);
    r
}

/// What `{:?}` prints for a string: the string between double quotes, with
/// the characters that cannot stand there escaped.
pub uninterp spec fn debug_quoted(s: Seq<char>) -> Seq<char>;

/// Formats `s` with `{:?}`, that is through `<str as core::fmt::Debug>::fmt`.
/// The contract only gives the result its name, [`debug_quoted`]: the same
/// string is always printed the same way.
#[verifier::external_body]
pub(crate) fn debug_quote(s: &str) -> (r: String)
    ensures
        r@ == debug_quoted(s@),
{
    format!("{:?}", s)
}

/// What `{:?}` prints for a path that is text: the path between double
/// quotes, with the characters that cannot stand there escaped as
/// `std::path::Path` escapes them on the platform that the library is built
/// for.
pub uninterp spec fn debug_quoted_path(path: Seq<char>) -> Seq<char>;

/// Formats a path with `{:?}`, that is through
/// `<std::path::Path as core::fmt::Debug>::fmt`. The contract only gives the
/// result its name, [`debug_quoted_path`]: within one build the same path is
/// always printed the same way.
#[verifier::external_body]
pub(crate) fn debug_quote_path(path: &str) -> (r: String)
    ensures
        r@ == debug_quoted_path(path@),
{
    let path: &std::path::Path = path.as_ref();
    format!("{:?}", path)
}

/// `base` with `relative` adjoined to it, as `std::path::Path::join` does it
/// on the platform that the library is built for.
pub uninterp spec fn joined_path(base: Seq<char>, relative: Seq<char>) -> Seq<char>;

/// Adjoins `relative` to `base` with `std::path::Path::join`. The contract
/// only gives the result its name, [`joined_path`]: within one build the
/// result depends on the two texts alone. Both are text, so their join is,
/// and turning it back into a `String` loses nothing.
#[verifier::external_body]
pub(crate) fn join_path(base: &str, relative: &str) -> (r: String)
    ensures
        r@ == joined_path(base@, relative@),
{
    let base: &std::path::Path = base.as_ref();
    base.join(relative).to_string_lossy().into_owned()
}

/// A list of texts as a sequence of sequences of characters.
pub open spec fn texts(list: Vec<String>) -> Seq<Seq<char>> {
    list@.map_values(|text: String| text@)
}

} // verus!
