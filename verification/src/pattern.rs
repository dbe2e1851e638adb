//! Line patterns: what kind of line a line of source text is.
//!
//! Matching is done by the `regex` crate and trimming by `str::trim`. Their
//! results are not proved here; they are named, and everything else in the
//! crate is stated over those names.

use regex::Regex;
use vstd::prelude::*;

use crate::result::Error;

verus! {

/// `regex::Regex`, a compiled regular expression. Nothing inside it is
/// visible to the verifier.
#[verifier::external_type_specification]
#[verifier::external_body]
pub struct ExRegex(regex::Regex);

/// The haystacks in which a compiled regex finds a match: what
/// `Regex::is_match` answers for each of them.
pub uninterp spec fn regex_haystacks(re: Regex) -> Set<Seq<char>>;

/// What `Regex::new` makes of `pattern`: the haystacks in which the compiled
/// regex finds a match, or `None` where the regex engine refuses the pattern.
pub uninterp spec fn pattern_haystacks(pattern: Seq<char>) -> Option<Set<Seq<char>>>;

/// What `str::trim` returns for `line`: the text without its leading and
/// trailing whitespace.
pub uninterp spec fn trimmed(line: Seq<char>) -> Seq<char>;

/// Calls `Regex::new`. Trusted: compiling a pattern gives a regex that finds
/// a match in exactly the haystacks named by `pattern_haystacks`, and the
/// engine refuses a pattern exactly where that name is `None`.
#[verifier::external_body]
fn compile(pattern: &str) -> (compiled: Option<Regex>)
    ensures
        match compiled {
            Some(re) => pattern_haystacks(pattern@) == Some(regex_haystacks(re)),
            None => pattern_haystacks(pattern@) is None,
        },
{
    Regex::new(pattern).ok()
}

/// `Regex::is_match`. Trusted: whether the regex finds a match anywhere in
/// `haystack` depends on the regex and the haystack alone.
pub assume_specification[ Regex::is_match ](re: &Regex, haystack: &str) -> (found: bool)
    ensures
        found == regex_haystacks(*re).contains(haystack@),
;

/// `str::trim`. Trusted: the result is the slice without its leading and
/// trailing whitespace, which depends on the text alone.
pub assume_specification[ str::trim ](s: &str) -> (r: &str)
    ensures
        r@ == trimmed(s@),
;

/// An import: optional whitespace, `use`, then whitespace.
pub const IMPORT_PATTERN: &'static str = r"^\s*use\s+";

/// A module declaration: optional whitespace, optional `pub`, optional
/// whitespace, then `mod`.
pub const MODULE_PATTERN: &'static str = r"^\s*(?:pub)?\s*mod";

/// A line comment: optional whitespace, then `//`. Block comments are not
/// recognised.
pub const COMMENT_PATTERN: &'static str = r"^\s*//";

/// What the classifier reads off one line.
#[derive(Debug, Clone, Copy, PartialEq, Eq, Structural)]
pub struct LineKind {
    /// Nothing but whitespace.
    pub blank: bool,
    /// Matches the comment pattern.
    pub comment: bool,
    /// Matches the import pattern or the module-declaration pattern.
    pub preamble: bool,
}

/// Whether `pattern` compiles and finds a match in `line`.
pub open spec fn matches_pattern(pattern: Seq<char>, line: Seq<char>) -> bool {
    pattern_haystacks(pattern) matches Some(found) && found.contains(line)
}

/// Whether the regex engine accepts all three line patterns.
pub open spec fn patterns_compile() -> bool {
    &&& pattern_haystacks(IMPORT_PATTERN@) is Some
    &&& pattern_haystacks(MODULE_PATTERN@) is Some
    &&& pattern_haystacks(COMMENT_PATTERN@) is Some
}

/// The kind of one line of text.
pub open spec fn line_kind(line: Seq<char>) -> LineKind {
    LineKind {
        blank: trimmed(line).len() == 0,
        comment: matches_pattern(COMMENT_PATTERN@, line),
        preamble: matches_pattern(IMPORT_PATTERN@, line) || matches_pattern(
            MODULE_PATTERN@,
            line,
        ),
    }
}

/// The kinds of the lines of a file, in order.
pub open spec fn line_kinds(lines: Seq<Seq<char>>) -> Seq<LineKind> {
    Seq::new(lines.len(), |i: int| line_kind(lines[i]))
}

/// The three line patterns, compiled.
pub struct LinePatterns {
    import: Regex,
    module: Regex,
    comment: Regex,
}

impl LinePatterns {
    /// Each field is the regex of its pattern.
    #[verifier::type_invariant]
    spec fn compiled_from_patterns(&self) -> bool {
        &&& pattern_haystacks(IMPORT_PATTERN@) == Some(regex_haystacks(self.import))
        &&& pattern_haystacks(MODULE_PATTERN@) == Some(regex_haystacks(self.module))
        &&& pattern_haystacks(COMMENT_PATTERN@) == Some(regex_haystacks(self.comment))
    }

    /// Compiles the three patterns. Fails with `PatternError` exactly where
    /// the regex engine refuses one of them.
    pub fn new() -> (r: Result<LinePatterns, Error>)
        ensures
            r is Ok <==> patterns_compile(),
            r matches Err(e) ==> e == Error::PatternError,
    {
        let import = match compile(IMPORT_PATTERN) {
            Some(re) => re,
            None => { return Err(Error::PatternError); },
        };
        let module = match compile(MODULE_PATTERN) {
            Some(re) => re,
            None => { return Err(Error::PatternError); },
        };
        let comment = match compile(COMMENT_PATTERN) {
            Some(re) => re,
            None => { return Err(Error::PatternError); },
        };
        Ok(LinePatterns { import, module, comment })
    }

    /// Classifies one line.
    pub fn kind_of(&self, line: &str) -> (kind: LineKind)
        ensures
            kind == line_kind(line@),
    {
        proof {
            use_type_invariant(self);
        }
        LineKind {
            blank: line.trim().is_empty(),
            comment: self.comment.is_match(line),
            preamble: self.import.is_match(line) || self.module.is_match(line),
        }
    }
}

} // verus!
