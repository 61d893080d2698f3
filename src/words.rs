//! Shell-style word splitting and joining, provided by `shell_words`.
use vstd::prelude::*;

verus! {

#[verifier::external_type_specification]
#[verifier::external_body]
pub struct ExParseError(shell_words::ParseError);

/// The words that `shell_words::split` finds in a string, or `None` where the
/// string has an unterminated quote or a trailing escape.
pub uninterp spec fn split_of(s: Seq<char>) -> Option<Seq<Seq<char>>>;

/// The single string that `shell_words::join` builds from words, each quoted
/// so that splitting it gives the words back.
pub uninterp spec fn joined_of(words: Seq<Seq<char>>) -> Seq<char>;

/// The views of a sequence of strings.
pub open spec fn views(v: Seq<String>) -> Seq<Seq<char>> {
    v.map_values(|w: String| w@)
}

/// Relies on shell_words::split: the words of `s` under POSIX shell quoting
/// and escaping rules, or an error on malformed quoting; a function of `s` alone.
#[verifier::external_body]
pub(crate) fn split_words(s: &str) -> (r: Result<Vec<String>, shell_words::ParseError>)
    ensures
        match r {
            Ok(v) => split_of(s@) == Some(views(v@)),
            Err(_) => split_of(s@).is_none(),
        },
{
    shell_words::split(s)
}

/// Relies on shell_words::join: the words quoted where needed and separated
/// by single spaces; no words give the empty string.
#[verifier::external_body]
pub(crate) fn join_words(words: &Vec<String>) -> (r: String)
    ensures
        r@ == joined_of(views(words@)),
        words@.len() == 0 ==> r@.len() == 0,
{
    shell_words::join(words)
}

} // verus!
