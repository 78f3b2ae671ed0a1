use vstd::prelude::*;

verus! {

/// `regex::Regex`, carried through opaquely.
#[verifier::external_type_specification]
#[verifier::external_body]
pub struct ExRegex(regex::Regex);

/// `regex::Error`, carried through opaquely.
#[verifier::external_type_specification]
#[verifier::external_body]
pub struct ExRegexError(regex::Error);

/// Whether `regex::Regex::new` accepts the pattern text.
pub uninterp spec fn pattern_compiles(source: Seq<char>) -> bool;

/// Whether the regular expression written `source` matches somewhere in `text`.
pub uninterp spec fn pattern_matches(source: Seq<char>, text: Seq<char>) -> bool;

/// Relies on `regex::Regex::new`: it succeeds or fails on the pattern text alone.
#[verifier::external_body]
fn regex_new(source: &str) -> (r: Result<regex::Regex, regex::Error>)
    ensures
        r.is_ok() == pattern_compiles(source@),
{
    regex::Regex::new(source)
}

/// A compiled key-matching pattern, kept with the text it was compiled from.
pub struct Pattern {
    source: String,
    compiled: regex::Regex,
}

/// A pattern text that does not compile, and the compiler's message.
#[derive(Clone, Debug)]
pub struct PatternError {
    pub source: String,
    pub message: String,
}

/// Relies on `regex::Regex::is_match`: whether the pattern matches anywhere
/// in the haystack. `Pattern::new` is the only way to build a `Pattern`, so
/// `compiled` is always what `regex::Regex::new` made of `source`.
#[verifier::external_body]
fn regex_is_match(p: &Pattern, text: &str) -> (r: bool)
    ensures
        r == pattern_matches(p@, text@),
{
    p.compiled.is_match(text)
}

/// Relies on `regex::Error`'s `Display` for a readable message; nothing is
/// assumed of its text.
#[verifier::external_body]
fn regex_error_message(e: &regex::Error) -> (r: String) {
    e.to_string()
}

impl View for Pattern {
    type V = Seq<char>;

    closed spec fn view(&self) -> Seq<char> {
        self.source@
    }
}

impl Pattern {
    /// Compiles `source`; fails exactly when the text is not a valid pattern.
    pub fn new(source: &str) -> (r: Result<Pattern, PatternError>)
        ensures
            r.is_ok() == pattern_compiles(source@),
            r matches Ok(p) ==> p@ == source@,
            r matches Err(e) ==> e.source@ == source@,
    {
        match regex_new(source) {
            Ok(compiled) => Ok(Pattern { source: source.to_string(), compiled }),
            Err(e) => Err(PatternError { source: source.to_string(), message: regex_error_message(&e) }),
        }
    }

    /// The text the pattern was compiled from.
    pub fn as_str(&self) -> (r: &str)
        ensures
            r@ == self@,
    {
        self.source.as_str()
    }

    /// Whether the pattern matches somewhere in `text`.
    pub fn is_match(&self, text: &str) -> (r: bool)
        ensures
            r == pattern_matches(self@, text@),
    {
        regex_is_match(self, text)
    }
}

} // verus!
