use vstd::prelude::*;

verus! {

/// Whether `regex::Regex::new` accepts the pattern.
pub uninterp spec fn regex_compiles(pattern: Seq<char>) -> bool;

/// Relies on `regex::Regex::new`, which accepts a pattern or not by its text
/// alone.
#[verifier::external_body]
fn compiles(pattern: &str) -> (r: bool)
    ensures
        r == regex_compiles(pattern@),
{
    ::regex::Regex::new(pattern).is_ok()
}

/// A regular expression from the configuration, known to compile.
#[derive(Clone, Debug)]
pub struct Regex {
    pattern: String,
}

impl Regex {
    pub closed spec fn pattern_text(&self) -> Seq<char> {
        self.pattern@
    }

    /// Checks a pattern; `None` where it is not a valid expression.
    pub fn parse(pattern: &str) -> (r: Option<Regex>)
        ensures
            r is Some <==> regex_compiles(pattern@),
            r matches Some(x) ==> x.pattern_text() == pattern@,
    {
        if compiles(pattern) {
            Some(Regex { pattern: pattern.to_owned() })
        } else {
            None
        }
    }

    /// The pattern text.
    pub fn as_str(&self) -> (r: &str)
        ensures
            r@ == self.pattern_text(),
    {
        self.pattern.as_str()
    }
}

} // verus!
