//! Turning a free-form project name into a folder name that is safe on disk.
use vstd::prelude::*;

verus! {

/// The folder name used when nothing of the project name survives.
pub const FALLBACK_FOLDER_NAME: &'static str = "cmake_project";

/// A regular expression that matches one character outside `[A-Za-z0-9_-]`.
pub const DISALLOWED_CHAR_PATTERN: &'static str = r"[^a-zA-Z0-9_-]";

/// An ASCII letter, an ASCII digit, `_` or `-`.
pub open spec fn is_folder_char(c: char) -> bool {
    ('a' <= c && c <= 'z') || ('A' <= c && c <= 'Z') || ('0' <= c && c <= '9') || c == '_'
        || c == '-'
}

/// The characters of `s` that may stand in a folder name, in their order.
pub open spec fn folder_chars(s: Seq<char>) -> Seq<char> {
    s.filter(|c: char| is_folder_char(c))
}

/// The folder name derived from a project name.
pub open spec fn sanitized(s: Seq<char>) -> Seq<char> {
    if folder_chars(s).len() == 0 {
        FALLBACK_FOLDER_NAME@
    } else {
        folder_chars(s)
    }
}

/// Relies on `regex::Regex::new` and `regex::Regex::replace_all`: the pattern
/// compiles, and replacing every match of it by the empty string deletes each
/// character outside `[A-Za-z0-9_-]` and keeps the others in order.
#[verifier::external_body]
fn delete_matches(pattern: &str, s: &str) -> (r: String)
    requires
        pattern@ == DISALLOWED_CHAR_PATTERN@,
    ensures
        r@ == folder_chars(s@),
{
    regex::Regex::new(pattern).unwrap().replace_all(s, "").into_owned()
}

/// A sequence whose characters all pass the filter is left as it is.
proof fn lemma_filter_keeps_folder_chars(s: Seq<char>)
    requires
        forall|i: int| 0 <= i < s.len() ==> is_folder_char(#[trigger] s[i]),
    ensures
        folder_chars(s) == s,
    decreases s.len(),
{
    reveal(Seq::filter);
    if s.len() > 0 {
        let prefix = s.drop_last();
        assert forall|i: int| 0 <= i < prefix.len() implies is_folder_char(#[trigger] prefix[i]) by {
            assert(prefix[i] == s[i]);
        }
        lemma_filter_keeps_folder_chars(prefix);
        assert(is_folder_char(s.last()));
        assert(prefix.push(s.last()) =~= s);
    }
}

/// The fallback name is made of folder characters only.
proof fn lemma_fallback_is_folder_name()
    ensures
        FALLBACK_FOLDER_NAME@.len() > 0,
        forall|i: int|
            0 <= i < FALLBACK_FOLDER_NAME@.len() ==> is_folder_char(
                #[trigger] FALLBACK_FOLDER_NAME@[i],
            ),
{
    reveal_strlit("cmake_project");
}

/// Every character of a sanitized name is an ASCII letter, an ASCII digit, `_`
/// or `-`, and a sanitized name is never empty.
pub proof fn sanitized_is_folder_name(s: Seq<char>)
    ensures
        sanitized(s).len() > 0,
        forall|i: int| 0 <= i < sanitized(s).len() ==> is_folder_char(#[trigger] sanitized(s)[i]),
{
    lemma_fallback_is_folder_name();
    let kept = folder_chars(s);
    assert forall|i: int| 0 <= i < kept.len() implies is_folder_char(#[trigger] kept[i]) by {
        s.lemma_filter_pred(|c: char| is_folder_char(c), i);
    }
}

/// Sanitizing a name that was already sanitized changes nothing.
pub proof fn sanitize_is_idempotent(s: Seq<char>)
    ensures
        sanitized(sanitized(s)) == sanitized(s),
{
    sanitized_is_folder_name(s);
    lemma_filter_keeps_folder_chars(sanitized(s));
}

/// Keeps the characters of `name` that are ASCII letters, ASCII digits, `_` or
/// `-`, in their order; where none is left, the name is `cmake_project`.
pub fn sanitize_folder_name(name: &str) -> (r: String)
    ensures
        r@ == sanitized(name@),
        r@.len() > 0,
        forall|i: int| 0 <= i < r@.len() ==> is_folder_char(#[trigger] r@[i]),
{
    proof {
        sanitized_is_folder_name(name@);
    }
    let kept = delete_matches(DISALLOWED_CHAR_PATTERN, name);
    if kept.as_str().is_empty() {
        String::from_str(FALLBACK_FOLDER_NAME)
    } else {
        kept
    }
}

} // verus!
