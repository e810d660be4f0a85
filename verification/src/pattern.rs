//! Regular expressions, compiled once and searched many times.

use vstd::prelude::*;
use regex::Regex;

verus! {

/// A compiled regular expression.
#[verifier::external_type_specification]
#[verifier::external_body]
pub struct ExRegex(regex::Regex);

/// What `regex::Regex::captures` finds in `haystack` for the expression
/// that `regex::Regex::new` compiles from `pattern`, as `Captures::get`
/// hands out its group number `group`: `None` when the pattern has no match
/// there (or is no valid pattern), `Some(None)` when it matches and has no
/// such group or the group took no part, `Some(Some(text))` when the group
/// matched `text`.
pub uninterp spec fn regex_capture(pattern: Seq<char>, group: nat, haystack: Seq<char>) -> Option<Option<Seq<char>>>;

/// Whether `regex::Regex::is_match` finds a match in `haystack` for the
/// expression that `regex::Regex::new` compiles from `pattern` (`false` when
/// it is no valid pattern).
pub uninterp spec fn regex_found(pattern: Seq<char>, haystack: Seq<char>) -> bool;

/// The text of a capture, as contracts see it.
pub open spec fn capture_text(found: Option<Option<String>>) -> Option<Option<Seq<char>>> {
    match found {
        None => None,
        Some(None) => Some(None),
        Some(Some(text)) => Some(Some(text@)),
    }
}

/// A regular expression: its text, and what was compiled from it (nothing
/// where the text is no valid pattern).
///
/// The two are put together by `Pattern::new` and nowhere else, and neither
/// changes afterwards: the compiled form is always that of the text. The
/// contracts of the two searches rest on that.
#[derive(Debug, Clone)]
pub struct Pattern {
    text: String,
    compiled: Option<Regex>,
}

/// `regex::Regex::new`: the compiled form of `text`, or nothing where it is
/// no valid pattern or too large. Nothing is claimed of the result.
#[verifier::external_body]
fn compile(text: &str) -> (compiled: Option<Regex>) {
    regex::Regex::new(text).ok()
}

/// `regex::Regex::captures`, on the compiled form of `pattern`, then
/// `Captures::get` and `Match::as_str`: the text of group number `group`.
/// The contract only names the result; nothing is claimed about when a
/// pattern matches.
#[verifier::external_body]
pub(crate) fn capture_group(pattern: &Pattern, group: usize, haystack: &str) -> (found: Option<Option<String>>)
    ensures
        capture_text(found) == regex_capture(pattern@, group as nat, haystack@),
{
    let compiled = match &pattern.compiled {
        Some(compiled) => compiled,
        None => return None,
    };
    match compiled.captures(haystack) {
        Some(groups) => match groups.get(group) {
            Some(group) => Some(Some(group.as_str().to_string())),
            None => Some(None),
        },
        None => None,
    }
}

/// `regex::Regex::is_match`, on the compiled form of `pattern`. The contract
/// only names the result.
#[verifier::external_body]
pub(crate) fn pattern_found(pattern: &Pattern, haystack: &str) -> (found: bool)
    ensures
        found == regex_found(pattern@, haystack@),
{
    match &pattern.compiled {
        Some(compiled) => compiled.is_match(haystack),
        None => false,
    }
}

impl Pattern {
    /// The text of the expression.
    pub closed spec fn view(&self) -> Seq<char> {
        self.text@
    }

    /// The expression with the text `text`, compiled.
    pub fn new(text: &str) -> (pattern: Pattern)
        ensures
            pattern@ == text@,
    {
        Pattern { text: text.to_owned(), compiled: compile(text) }
    }

    /// The text of the expression.
    pub fn text(&self) -> (text: String)
        ensures
            text@ == self@,
    {
        self.text.clone()
    }
}

} // verus!
