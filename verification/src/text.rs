//! Text and path primitives the rest of the library is built on.

use vstd::prelude::*;

verus! {

/// The text that `String::from_utf8_lossy` decodes from a byte sequence.
pub uninterp spec fn utf8_lossy(bytes: Seq<u8>) -> Seq<char>;

/// The text that `str::to_lowercase` makes of a text.
pub uninterp spec fn lowercased(text: Seq<char>) -> Seq<char>;

/// The path that `Path::join` makes of a base path and a path pushed onto it,
/// by the rules of the platform the library is built for.
pub uninterp spec fn joined_path(base: Seq<char>, tail: Seq<char>) -> Seq<char>;

/// The final component that `Path::file_name` finds in a path, if it has one,
/// by the rules of the platform the library is built for.
pub uninterp spec fn path_file_name(path: Seq<char>) -> Option<Seq<char>>;

/// The path without its final component, as `Path::parent` gives it, if there
/// is one, by the rules of the platform the library is built for.
pub uninterp spec fn path_parent(path: Seq<char>) -> Option<Seq<char>>;

/// The number a sequence of decimal digits denotes.
pub open spec fn decimal_value(digits: Seq<char>) -> nat
    decreases digits.len(),
{
    if digits.len() == 0 {
        0
    } else {
        decimal_value(digits.drop_last()) * 10 + ((digits.last() as nat) - ('0' as nat)) as nat
    }
}

/// Whether every character is one of `0` to `9`.
pub open spec fn all_digits(text: Seq<char>) -> bool {
    forall|i: int| 0 <= i < text.len() ==> '0' <= #[trigger] text[i] <= '9'
}

/// What a text denotes as a `u64`: an optional `+`, then at least one decimal
/// digit and nothing else, the number being no larger than `u64::MAX`.
pub open spec fn parsed_u64(text: Seq<char>) -> Option<u64> {
    let digits = if text.len() > 0 && text[0] == '+' {
        text.skip(1)
    } else {
        text
    };
    if digits.len() > 0 && all_digits(digits) && decimal_value(digits) <= u64::MAX {
        Some(decimal_value(digits) as u64)
    } else {
        None
    }
}

/// Where `delimiter` first occurs in `text`, or the length of `text` if it does not.
pub open spec fn first_index_of(text: Seq<char>, delimiter: char) -> int
    decreases text.len(),
{
    if text.len() == 0 || text[0] == delimiter {
        0
    } else {
        1 + first_index_of(text.skip(1), delimiter)
    }
}

/// `text` without a leading `prefix`, or `None` where it does not start with it.
pub open spec fn without_prefix(text: Seq<char>, prefix: Seq<char>) -> Option<Seq<char>> {
    if prefix.is_prefix_of(text) {
        Some(text.skip(prefix.len() as int))
    } else {
        None
    }
}

/// The parts of `text` before and after the first `delimiter`, or `None`
/// where `text` holds no `delimiter`.
pub open spec fn split_at_first(text: Seq<char>, delimiter: char) -> Option<(Seq<char>, Seq<char>)> {
    let at = first_index_of(text, delimiter);
    if at < text.len() {
        Some((text.take(at), text.skip(at + 1)))
    } else {
        None
    }
}

/// `str`'s own `==`: true exactly when both slices hold the same characters.
#[verifier::external_body]
pub(crate) fn same_text(a: &str, b: &str) -> (same: bool)
    ensures
        same == (a@ == b@),
{
    a == b
}

/// `String::from_utf8_lossy`: decodes bytes as UTF-8, putting U+FFFD in place
/// of each invalid sequence. The contract only names the result.
#[verifier::external_body]
pub(crate) fn decode_lossy(bytes: &[u8]) -> (text: String)
    ensures
        text@ == utf8_lossy(bytes@),
{
    String::from_utf8_lossy(bytes).into_owned()
}

/// `str::to_lowercase`: the lowercase equivalent of a text by Unicode's rules.
/// The contract only names the result.
#[verifier::external_body]
pub(crate) fn to_lowercase(text: &str) -> (lower: String)
    ensures
        lower@ == lowercased(text@),
{
    text.to_lowercase()
}

/// `str::parse::<u64>`: succeeds on an optional `+` followed by decimal digits
/// only, whose number fits in a `u64`, and fails on every other text.
#[verifier::external_body]
pub(crate) fn parse_u64(text: &str) -> (number: Option<u64>)
    ensures
        number == parsed_u64(text@),
{
    text.parse::<u64>().ok()
}

/// `str::strip_prefix`: the rest of `text` after `prefix`, where `text` starts
/// with `prefix`, and `None` where it does not.
#[verifier::external_body]
pub(crate) fn strip_prefix<'a>(text: &'a str, prefix: &str) -> (rest: Option<&'a str>)
    ensures
        rest matches Some(r) ==> without_prefix(text@, prefix@) == Some(r@),
        rest is None ==> without_prefix(text@, prefix@) is None,
{
    text.strip_prefix(prefix)
}

/// `str::split_once`: the parts of `text` before and after the first
/// occurrence of `delimiter`, and `None` where there is no occurrence.
#[verifier::external_body]
pub(crate) fn split_once<'a>(text: &'a str, delimiter: char) -> (parts: Option<(&'a str, &'a str)>)
    ensures
        parts matches Some(p) ==> split_at_first(text@, delimiter) == Some((p.0@, p.1@)),
        parts is None ==> split_at_first(text@, delimiter) is None,
{
    text.split_once(delimiter)
}

/// `Path::join`: `tail` adjoined to `base` by the platform's rules for paths;
/// an absolute `tail` replaces `base`. The contract only names the result.
#[verifier::external_body]
pub(crate) fn join_path(base: &str, tail: &str) -> (path: String)
    ensures
        path@ == joined_path(base@, tail@),
{
    std::path::Path::new(base).join(tail).to_string_lossy().into_owned()
}

/// `Path::file_name`: the final component of `path`, if it is a normal one.
/// The contract only names the result.
#[verifier::external_body]
pub(crate) fn file_name(path: &str) -> (name: Option<String>)
    ensures
        name is Some == path_file_name(path@) is Some,
        name matches Some(n) ==> path_file_name(path@) == Some(n@),
{
    match std::path::Path::new(path).file_name() {
        Some(name) => Some(name.to_string_lossy().into_owned()),
        None => None,
    }
}

/// `Path::parent`: `path` without its final component, if it has one.
/// The contract only names the result.
#[verifier::external_body]
pub(crate) fn parent(path: &str) -> (dir: Option<String>)
    ensures
        dir is Some == path_parent(path@) is Some,
        dir matches Some(d) ==> path_parent(path@) == Some(d@),
{
    match std::path::Path::new(path).parent() {
        Some(dir) => Some(dir.to_string_lossy().into_owned()),
        None => None,
    }
}

/// `prefix` followed by `rest`.
pub(crate) fn concat(prefix: &str, rest: &str) -> (joined: String)
    ensures
        joined@ == prefix@ + rest@,
{
    let mut joined = prefix.to_owned();
    joined.append(rest);
    joined
}

} // verus!
