//! Compiled patterns: the regular expressions that select panes.

use std::sync::Arc;
use vstd::prelude::*;

verus! {

/// `regex::Regex`, a compiled regular expression. Nothing of its inside is
/// known here; [`regex_language`] stands for what it matches.
#[verifier::external_type_specification]
#[verifier::external_body]
pub struct ExRegex(regex::Regex);

/// `regex::Error`, the error of a pattern that does not compile. Nothing of
/// its inside is known here; [`regex_error_text`] stands for what it says.
#[verifier::external_type_specification]
#[verifier::external_body]
pub struct ExRegexError(regex::Error);

/// What `regex::Regex::new` makes of a pattern text: the set of the texts
/// that the compiled expression matches, or the text of the error. What
/// that is for a given pattern is left to the regex crate; this is its name.
pub uninterp spec fn compile_outcome(pattern: Seq<char>) -> Result<Set<Seq<char>>, Seq<char>>;

/// The texts that an expression matches: those for which
/// `regex::Regex::is_match` returns `true`.
pub uninterp spec fn regex_language(regex: regex::Regex) -> Set<Seq<char>>;

/// The text that a `regex::Error` shows through `Display`.
pub uninterp spec fn regex_error_text(error: regex::Error) -> Seq<char>;

/// Calls `regex::Regex::new`, which parses and compiles with the regex
/// crate's default options and its fixed size limit. Trusted: the outcome
/// depends on the pattern text alone, so the expression matches what
/// [`compile_outcome`] names for the text, or the error says what it names.
#[verifier::external_body]
fn regex_new(pattern: &str) -> (r: Result<regex::Regex, regex::Error>)
    ensures
        match r {
            Ok(regex) => compile_outcome(pattern@) == Ok::<Set<Seq<char>>, Seq<char>>(
                regex_language(regex),
            ),
            Err(error) => compile_outcome(pattern@) == Err::<Set<Seq<char>>, Seq<char>>(
                regex_error_text(error),
            ),
        },
{
    regex::Regex::new(pattern)
}

/// Calls `regex::Regex::is_match`, which looks for a match anywhere in
/// `text`. Trusted: the answer depends on the expression and the text alone;
/// [`regex_language`] is the name for the texts with the answer `true`.
#[verifier::external_body]
fn regex_is_match(regex: &regex::Regex, text: &str) -> (r: bool)
    ensures
        r == regex_language(*regex).contains(text@),
{
    regex.is_match(text)
}

/// Calls `to_string` on a `regex::Error`, which formats it through its
/// `Display` impl. Trusted: the text depends on the error alone;
/// [`regex_error_text`] is the name for it.
#[verifier::external_body]
fn regex_error_to_string(error: &regex::Error) -> (r: String)
    ensures
        r@ == regex_error_text(*error),
{
    error.to_string()
}

/// Calls `Arc::clone`. Trusted: the new handle points at the same compiled
/// pattern as the one it was cloned from.
#[verifier::external_body]
pub(crate) fn share(pattern: &Arc<CompiledPattern>) -> (r: Arc<CompiledPattern>)
    ensures
        r == *pattern,
{
    Arc::clone(pattern)
}

/// A pattern text that does not compile, with what the parser said of it.
#[derive(Clone, Debug, PartialEq, Eq)]
pub struct PatternCompileError {
    /// The pattern text as it was given.
    pub pattern: String,
    /// The parser's diagnostic.
    pub diagnostic: String,
}

/// A pattern text together with the expression compiled from it.
#[derive(Debug)]
pub struct CompiledPattern {
    source: String,
    regex: regex::Regex,
}

/// A compiled pattern that any number of holders share.
pub type SharedMatcher = Arc<CompiledPattern>;

/// Whether `pattern` compiles.
pub open spec fn compiles(pattern: Seq<char>) -> bool {
    compile_outcome(pattern) is Ok
}

/// Whether `pattern` compiles and then matches somewhere in `text`.
pub open spec fn pattern_matches(pattern: Seq<char>, text: Seq<char>) -> bool {
    compile_outcome(pattern) matches Ok(language) && language.contains(text)
}

impl CompiledPattern {
    /// The expression is the one that the text compiles to.
    #[verifier::type_invariant]
    spec fn consistent(self) -> bool {
        compile_outcome(self.source@) == Ok::<Set<Seq<char>>, Seq<char>>(regex_language(self.regex))
    }

    /// The pattern text that this was compiled from.
    pub closed spec fn source(self) -> Seq<char> {
        self.source@
    }

    /// Compiles `pattern`. The error carries the pattern and the parser's
    /// diagnostic.
    pub fn compile(pattern: &str) -> (r: Result<CompiledPattern, PatternCompileError>)
        ensures
            r is Ok <==> compiles(pattern@),
            r matches Ok(compiled) ==> compiled.source() == pattern@,
            r matches Err(error) ==> error.pattern@ == pattern@ && compile_outcome(pattern@) == Err::<
                Set<Seq<char>>,
                Seq<char>,
            >(error.diagnostic@),
    {
        match regex_new(pattern) {
            Ok(regex) => Ok(CompiledPattern { source: pattern.to_owned(), regex }),
            Err(error) => Err(
                PatternCompileError {
                    pattern: pattern.to_owned(),
                    diagnostic: regex_error_to_string(&error),
                },
            ),
        }
    }

    /// The pattern text that this was compiled from.
    pub fn as_str(&self) -> (r: &str)
        ensures
            r@ == self.source(),
            compiles(self.source()),
    {
        proof {
            use_type_invariant(self);
        }
        self.source.as_str()
    }

    /// Whether the pattern matches somewhere in `text`.
    pub fn is_match(&self, text: &str) -> (r: bool)
        ensures
            r == pattern_matches(self.source(), text@),
    {
        proof {
            use_type_invariant(self);
        }
        regex_is_match(&self.regex, text)
    }
}

} // verus!
