//! From a keyword to a compiled pattern, on top of the crate `regex`.

use regex::{Regex, RegexBuilder};
use vstd::prelude::*;
use vstd::string::*;

verus! {

#[verifier::external_type_specification]
#[verifier::external_body]
pub struct ExRegex(Regex);

/// Whether `c` has a meaning of its own in a pattern.
pub open spec fn is_meta(c: char) -> bool {
    c == '\\' || c == '.' || c == '+' || c == '*' || c == '?' || c == '(' || c == ')' || c == '|'
        || c == '[' || c == ']' || c == '{' || c == '}' || c == '^' || c == '$' || c == '#' || c
        == '&' || c == '-' || c == '~'
}

/// `text` with a backslash in front of each character that has a meaning
/// of its own in a pattern, so that the result matches `text` literally.
pub open spec fn escaped(text: Seq<char>) -> Seq<char>
    decreases text.len(),
{
    if text.len() == 0 {
        Seq::empty()
    } else if is_meta(text.last()) {
        escaped(text.drop_last()).push('\\').push(text.last())
    } else {
        escaped(text.drop_last()).push(text.last())
    }
}

/// Calls `regex::escape`, which copies the text character by character and
/// puts a backslash in front of each of the eighteen meta characters.
#[verifier::external_body]
fn escape(text: &str) -> (quoted: String)
    ensures
        quoted@ == escaped(text@),
{
    regex::escape(text)
}

/// The pattern that a search for `keyword` compiles: the keyword itself
/// where it is meant as a pattern, else the keyword escaped, and between
/// two word boundaries where whole words are asked for.
pub open spec fn pattern_for(keyword: Seq<char>, is_regex: bool, whole_word: bool) -> Seq<char> {
    let core = if is_regex {
        keyword
    } else {
        escaped(keyword)
    };
    if whole_word {
        "\\b"@ + core + "\\b"@
    } else {
        core
    }
}

/// Builds the pattern for a keyword.
pub fn search_pattern(keyword: &str, is_regex: bool, whole_word: bool) -> (pattern: String)
    ensures
        pattern@ == pattern_for(keyword@, is_regex, whole_word),
{
    let core = if is_regex {
        String::from_str(keyword)
    } else {
        escape(keyword)
    };
    if whole_word {
        String::from_str("\\b").concat(core.as_str()).concat("\\b")
    } else {
        core
    }
}

/// What building `pattern` gives: `None` where it compiles, else the text
/// of the error that `RegexBuilder::build` returns for it.
pub uninterp spec fn regex_build_error(pattern: Seq<char>, case_insensitive: bool) -> Option<
    Seq<char>,
>;

/// Whether the compiled `pattern` has a match anywhere in `haystack`, as
/// `Regex::is_match` tells.
pub uninterp spec fn regex_is_match(
    pattern: Seq<char>,
    case_insensitive: bool,
    haystack: Seq<char>,
) -> bool;

/// A compiled pattern, together with what it was compiled from. A value is
/// only ever made by compiling, so the engine is the one that belongs to
/// the pattern and the flag beside it.
pub struct LineMatcher {
    pattern: String,
    case_insensitive: bool,
    engine: Regex,
}

impl LineMatcher {
    /// The pattern that was compiled.
    pub closed spec fn pattern(&self) -> Seq<char> {
        self.pattern@
    }

    /// Whether letters match regardless of case.
    pub closed spec fn case_insensitive(&self) -> bool {
        self.case_insensitive
    }

    /// Compiles `pattern` with `RegexBuilder::new`, `case_insensitive` and
    /// `build`, all other settings left at their defaults. The contract
    /// names the outcome: the matcher remembers what it was compiled from,
    /// and a failure comes back as the text of the builder's error.
    #[verifier::external_body]
    pub(crate) fn compile(pattern: String, case_insensitive: bool) -> (built: Result<
        LineMatcher,
        String,
    >)
        ensures
            match built {
                Ok(matcher) => regex_build_error(pattern@, case_insensitive) is None
                    && matcher.pattern() == pattern@ && matcher.case_insensitive()
                    == case_insensitive,
                Err(text) => regex_build_error(pattern@, case_insensitive) == Some(text@),
            },
    {
        match RegexBuilder::new(&pattern).case_insensitive(case_insensitive).build() {
            Ok(engine) => Ok(LineMatcher { pattern, case_insensitive, engine }),
            Err(error) => Err(error.to_string()),
        }
    }

    /// Calls `Regex::is_match` on the compiled pattern. The contract names
    /// the answer by what the pattern was compiled from.
    #[verifier::external_body]
    pub(crate) fn is_match(&self, line: &str) -> (hit: bool)
        ensures
            hit == regex_is_match(self.pattern(), self.case_insensitive(), line@),
    {
        self.engine.is_match(line)
    }
}

} // verus!
