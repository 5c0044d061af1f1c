//! Compiled text patterns. A pattern is compiled once, at configuration
//! time, and then matched against post titles and file names. Compilation
//! and matching are done by the `regex` crate; both are deterministic
//! functions of the pattern text and the candidate text, so the contracts
//! speak of them through the two named results below.

use vstd::prelude::*;

verus! {

#[verifier::external_type_specification]
#[verifier::external_body]
pub struct ExRegex(regex::Regex);

/// Whether `regex::Regex::new` accepts the pattern text `p`.
pub uninterp spec fn pattern_valid(p: Seq<char>) -> bool;

/// Whether the pattern compiled from `p` matches somewhere in `text`,
/// as `regex::Regex::is_match` decides it.
pub uninterp spec fn pattern_matches(p: Seq<char>, text: Seq<char>) -> bool;

/// A compiled pattern, paired with the exact text it was compiled from.
/// The only constructor is `compile`, so the pairing always holds.
#[derive(Debug)]
pub struct Pattern {
    re: regex::Regex,
    source: String,
}

impl View for Pattern {
    type V = Seq<char>;

    closed spec fn view(&self) -> Seq<char> {
        self.source@
    }
}

impl Pattern {
    /// Relies on `regex::Regex::new`: it returns `Ok` exactly on the
    /// syntactically valid patterns, and its verdict depends on the
    /// pattern text alone.
    #[verifier::external_body]
    pub fn compile(source: &str) -> (r: Option<Pattern>)
        ensures
            r is Some <==> pattern_valid(source@),
            r matches Some(p) ==> p@ == source@,
    {
        match regex::Regex::new(source) {
            Ok(re) => Some(Pattern { re, source: source.to_owned() }),
            Err(_) => None,
        }
    }

    /// Relies on `regex::Regex::is_match`: the result depends on the
    /// compiled pattern and the candidate text alone. `self.re` was
    /// compiled from `self.source`, the view of this value.
    #[verifier::external_body]
    pub fn matches(&self, text: &str) -> (r: bool)
        ensures
            r == pattern_matches(self@, text@),
    {
        self.re.is_match(text)
    }

    /// The text this pattern was compiled from.
    pub fn source(&self) -> (s: &str)
        ensures
            s@ == self@,
    {
        self.source.as_str()
    }
}

} // verus!
