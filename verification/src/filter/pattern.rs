//! Compiled patterns, and the boundary to the `regex` crate behind them.

use regex::Regex;
use vstd::prelude::*;

verus! {

/// A compiled regular expression of the `regex` crate, opaque to the verifier.
#[verifier::external_type_specification]
#[verifier::external_body]
pub struct ExRegex(Regex);

/// The error that `regex` reports for a pattern it cannot compile, opaque to
/// the verifier.
#[verifier::external_type_specification]
#[verifier::external_body]
pub struct ExRegexError(regex::Error);

/// Whether `Regex::new` returns `Ok` for `pattern`: the pattern is valid
/// syntax, and the program compiled from it stays within the size limit that
/// `regex` sets by default. The answer rests on the pattern alone, for one
/// build of `regex`.
pub uninterp spec fn regex_accepts(pattern: Seq<char>) -> bool;

/// The pattern text that a compiled regex was built from: what
/// `Regex::as_str` returns for it.
pub uninterp spec fn regex_source(re: Regex) -> Seq<char>;

/// What `Regex::replace_all` returns when a regex compiled from `pattern` by
/// `Regex::new` rewrites `haystack` with the replacement text `replacement`:
/// every leftmost, non-overlapping match is replaced, and `$name` references
/// in the replacement expand to capture groups.
pub uninterp spec fn regex_replace_all(
    pattern: Seq<char>,
    haystack: Seq<char>,
    replacement: Seq<char>,
) -> Seq<char>;

/// Calls `Regex::new`. Not proved: that it answers for a pattern as
/// [`regex_accepts`] names it, and that a regex which compiles remembers the
/// pattern it was given.
#[verifier::external_body]
fn regex_new(pattern: &str) -> (outcome: Result<Regex, regex::Error>)
    ensures
        outcome is Ok <==> regex_accepts(pattern@),
        outcome matches Ok(re) ==> regex_source(re) == pattern@,
{
    Regex::new(pattern)
}

/// Calls `Regex::replace_all` with a string replacement and takes ownership
/// of the text that comes back. Not proved: that the text is what replacing
/// all matches of the regex's source pattern gives.
///
/// This holds of a regex made by `Regex::new`, which matches as its source
/// says with no option set. The function is private, and the only regexes it
/// is handed are those that [`regex_new`] or [`regex_clone`] made.
#[verifier::external_body]
fn regex_replace(re: &Regex, haystack: &str, replacement: &str) -> (rewritten: String)
    ensures
        rewritten@ == regex_replace_all(regex_source(*re), haystack@, replacement@),
{
    re.replace_all(haystack, replacement).into_owned()
}

/// Calls `Regex::clone`. Not proved: that the copy has the source of the
/// regex it was made from. The copy shares the compiled program, so it
/// matches as that regex does.
#[verifier::external_body]
fn regex_clone(re: &Regex) -> (copy: Regex)
    ensures
        regex_source(copy) == regex_source(*re),
{
    re.clone()
}

/// A pattern that `regex` has accepted, ready to match.
///
/// Values exist only through [`CompiledPattern::compile`] and as copies of
/// such values, so a matcher always belongs to the pattern text it is viewed
/// as.
#[derive(Debug)]
pub struct CompiledPattern {
    matcher: Regex,
}

impl View for CompiledPattern {
    type V = Seq<char>;

    /// The pattern text this matcher was compiled from.
    closed spec fn view(&self) -> Seq<char> {
        regex_source(self.matcher)
    }
}

impl Clone for CompiledPattern {
    fn clone(&self) -> (copy: Self)
        ensures
            copy@ == self@,
    {
        CompiledPattern { matcher: regex_clone(&self.matcher) }
    }
}

impl CompiledPattern {
    /// Compiles `pattern`: the matcher of exactly this pattern where `regex`
    /// accepts it, `None` where `regex` turns it down.
    pub fn compile(pattern: &str) -> (compiled: Option<CompiledPattern>)
        ensures
            compiled is Some <==> regex_accepts(pattern@),
            compiled matches Some(ready) ==> ready@ == pattern@,
    {
        CompiledPattern::from_outcome(regex_new(pattern))
    }

    /// What becomes of the answer that `regex` gave for a pattern: the
    /// matcher it built, or nothing where it built none.
    fn from_outcome(outcome: Result<Regex, regex::Error>) -> (compiled: Option<CompiledPattern>)
        ensures
            match outcome {
                Ok(re) => compiled matches Some(ready) && ready@ == regex_source(re),
                Err(_) => compiled is None,
            },
    {
        match outcome {
            Ok(matcher) => Some(CompiledPattern { matcher }),
            Err(_) => None,
        }
    }

    /// Replaces every match of the pattern in `text` by `replacement`, in
    /// which `$name` stands for a capture group.
    pub fn replace_all(&self, text: &str, replacement: &str) -> (rewritten: String)
        ensures
            rewritten@ == regex_replace_all(self@, text@, replacement@),
    {
        regex_replace(&self.matcher, text, replacement)
    }
}

} // verus!
