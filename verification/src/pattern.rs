//! Regular expressions, compiled and run by the `regex` crate.

use vstd::prelude::*;
use crate::config::opt_text;

verus! {

#[verifier::external_type_specification]
#[verifier::external_body]
pub struct ExRegex(regex::Regex);

#[verifier::external_type_specification]
#[verifier::external_body]
pub struct ExRegexError(regex::Error);

/// A regular expression compiled from `source`.
///
/// Values of this type are made by `compile` alone, so `regex` is always the
/// compiled form of `source`.
pub struct Pattern {
    source: String,
    regex: regex::Regex,
}

/// Why a pattern could not be compiled.
#[derive(Clone, Copy, Debug, PartialEq, Eq, Structural)]
pub enum PatternError {
    /// The `regex` crate refused the pattern.
    Invalid,
}

/// The pattern that picks the channel suffix (`ch` and a digit) off the end
/// of a PM2.5 key.
pub open spec fn channel_pattern_text() -> Seq<char> {
    "(ch\\d)$"@
}

/// The last three characters of `s` are `c`, `h` and an ASCII digit.
pub open spec fn ends_with_ascii_channel(s: Seq<char>) -> bool {
    &&& s.len() >= 3
    &&& s[s.len() - 3] == 'c'
    &&& s[s.len() - 2] == 'h'
    &&& '0' <= s[s.len() - 1] <= '9'
}

/// The last three characters of `s` are `c`, `h` and a character that is an
/// ASCII digit or lies outside ASCII (where Unicode keeps its other decimal
/// digits).
pub open spec fn may_end_with_channel(s: Seq<char>) -> bool {
    &&& s.len() >= 3
    &&& s[s.len() - 3] == 'c'
    &&& s[s.len() - 2] == 'h'
    &&& ('0' <= s[s.len() - 1] <= '9' || (s[s.len() - 1] as u32) >= 0x80)
}

/// What `regex::Regex::captures` finds for capture group 1 of `pattern` in
/// `haystack`, taking the leftmost-first match.
pub uninterp spec fn regex_first_group(pattern: Seq<char>, haystack: Seq<char>) -> Option<
    Seq<char>,
>;

/// What `regex::Regex::replace` makes of `haystack` when the leftmost-first
/// match of `pattern` is replaced by `replacement`.
pub uninterp spec fn regex_replace_first(
    pattern: Seq<char>,
    haystack: Seq<char>,
    replacement: Seq<char>,
) -> Seq<char>;

/// Compiles `pattern` with `regex::Regex::new`.
///
/// Claims that a compiled pattern keeps `pattern` as its source, and that the
/// channel pattern `(ch\d)$` compiles: it is made of a capture group, the
/// literals `c` and `h`, the class `\d` and the anchor `$`, all syntax that the
/// crate documents, and its compiled form lies far below the default size
/// limit of 10 MiB. Which other patterns the crate refuses (bad syntax, size
/// limits) is left unsaid.
#[verifier::external_body]
fn compile(pattern: &str) -> (r: Result<Pattern, regex::Error>)
    ensures
        r matches Ok(p) ==> p.source@ == pattern@,
        pattern@ == channel_pattern_text() ==> r is Ok,
{
    match regex::Regex::new(pattern) {
        Ok(regex) => Ok(Pattern { source: pattern.to_string(), regex }),
        Err(e) => Err(e),
    }
}

/// Capture group 1 of the first match of `p` in `haystack`, through
/// `regex::Regex::captures` and `regex::Captures::get`.
///
/// Claims that the result is `regex_first_group` of the source and haystack,
/// and, for the channel pattern `(ch\d)$` (where `$` is the end of the text and
/// `\d` a Unicode decimal digit): a haystack ending in `ch` and an ASCII digit
/// yields those three characters; any other result is those three characters
/// too; and a haystack that cannot end in `ch` and a digit yields nothing.
/// Which characters beyond ASCII count as digits is left unsaid.
#[verifier::external_body]
fn first_group(p: &Pattern, haystack: &str) -> (r: Option<String>)
    ensures
        opt_text(r) == regex_first_group(p.source@, haystack@),
        p.source@ == channel_pattern_text() && ends_with_ascii_channel(haystack@) ==> opt_text(r)
            == Some(haystack@.skip(haystack@.len() - 3)),
        p.source@ == channel_pattern_text() && r is Some ==> may_end_with_channel(haystack@)
            && r.unwrap()@ == haystack@.skip(haystack@.len() - 3),
        p.source@ == channel_pattern_text() && !may_end_with_channel(haystack@) ==> r is None,
{
    match p.regex.captures(haystack) {
        Some(caps) => match caps.get(1) {
            Some(m) => Some(m.as_str().to_string()),
            None => None,
        },
        None => None,
    }
}

/// `haystack` with the first match of `p` replaced by `replacement`, through
/// `regex::Regex::replace`.
///
/// Claims that the result is `regex_replace_first` of the source, haystack and
/// replacement, and, for the channel pattern with an empty replacement: the
/// match (when there is one) is the last three characters, which are dropped,
/// and a haystack without a match comes back unchanged. Which characters
/// beyond ASCII count as digits is left unsaid.
#[verifier::external_body]
fn replace_first(p: &Pattern, haystack: &str, replacement: &str) -> (r: String)
    ensures
        r@ == regex_replace_first(p.source@, haystack@, replacement@),
        p.source@ == channel_pattern_text() && replacement@.len() == 0 && ends_with_ascii_channel(
            haystack@,
        ) ==> r@ == haystack@.take(haystack@.len() - 3),
        p.source@ == channel_pattern_text() && replacement@.len() == 0 ==> (r@ == haystack@ || (
        may_end_with_channel(haystack@) && r@ == haystack@.take(haystack@.len() - 3))),
        p.source@ == channel_pattern_text() && replacement@.len() == 0 && !may_end_with_channel(
            haystack@,
        ) ==> r@ == haystack@,
{
    p.regex.replace(haystack, replacement).into_owned()
}

impl Pattern {
    /// The text that this pattern was compiled from.
    pub closed spec fn text(&self) -> Seq<char> {
        self.source@
    }

    /// Compiles `pattern`.
    pub fn new(pattern: &str) -> (r: Result<Pattern, PatternError>)
        ensures
            r matches Ok(p) ==> p.text() == pattern@,
            pattern@ == channel_pattern_text() ==> r is Ok,
    {
        match compile(pattern) {
            Ok(p) => Ok(p),
            Err(_) => Err(PatternError::Invalid),
        }
    }

    /// Capture group 1 of the first match of this pattern in `haystack`.
    pub fn captures_first_group(&self, haystack: &str) -> (r: Option<String>)
        ensures
            opt_text(r) == regex_first_group(self.text(), haystack@),
            self.text() == channel_pattern_text() && ends_with_ascii_channel(haystack@) ==> opt_text(
                r,
            ) == Some(haystack@.skip(haystack@.len() - 3)),
            self.text() == channel_pattern_text() && r is Some ==> may_end_with_channel(haystack@)
                && r.unwrap()@ == haystack@.skip(haystack@.len() - 3),
            self.text() == channel_pattern_text() && !may_end_with_channel(haystack@) ==> r is None,
    {
        first_group(self, haystack)
    }

    /// `haystack` with the first match of this pattern replaced by
    /// `replacement`.
    pub fn replace(&self, haystack: &str, replacement: &str) -> (r: String)
        ensures
            r@ == regex_replace_first(self.text(), haystack@, replacement@),
            self.text() == channel_pattern_text() && replacement@.len() == 0
                && ends_with_ascii_channel(haystack@) ==> r@ == haystack@.take(haystack@.len() - 3),
            self.text() == channel_pattern_text() && replacement@.len() == 0 && !may_end_with_channel(
                haystack@,
            ) ==> r@ == haystack@,
    {
        replace_first(self, haystack, replacement)
    }
}

/// Compiles the channel pattern `(ch\d)$`, which always compiles.
pub fn channel_pattern() -> (r: Result<Pattern, PatternError>)
    ensures
        r is Ok,
        r matches Ok(p) ==> p.text() == channel_pattern_text(),
{
    Pattern::new("(ch\\d)$")
}

} // verus!
