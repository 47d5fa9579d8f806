//! Pattern rules: a compiled regular expression together with the
//! replacement template that applies where it matches.

use vstd::prelude::*;
use crate::template::groups_view;

verus! {

#[verifier::external_type_specification]
#[verifier::external_body]
pub struct ExRegex(regex::Regex);

#[verifier::external_type_specification]
#[verifier::external_body]
pub struct ExRegexError(regex::Error);

/// Whether `regex::Regex::new` accepts a pattern.
pub uninterp spec fn pattern_compiles(pattern: Seq<char>) -> bool;

/// What `regex::Regex::captures` finds for a pattern in a text: the text
/// before the leftmost-first match, the capture groups in the order of their
/// opening parentheses (group 0 is the whole match; `None` for a group that
/// took no part), and the text after the match.
pub uninterp spec fn regex_captures(pattern: Seq<char>, text: Seq<char>) -> Option<
    (Seq<char>, Seq<Option<Seq<char>>>, Seq<char>),
>;

/// Relies on `regex::Regex::new`: it compiles the pattern, or returns an error
/// when the pattern is malformed or too large; which of the two depends on the
/// pattern alone.
pub assume_specification[ regex::Regex::new ](re: &str) -> (r: Result<regex::Regex, regex::Error>)
    ensures
        r is Ok <==> pattern_compiles(re@),
;

/// The error returned for a pattern that does not compile.
#[derive(Debug)]
pub struct InvalidPatternError {
    pub pattern: String,
}

/// Where a rule's pattern matched a word: the text before the match, the
/// capture groups, and the text after the match.
pub struct Captured {
    pub before: String,
    pub groups: Vec<Option<String>>,
    pub after: String,
}

impl Captured {
    pub open spec fn view(&self) -> (Seq<char>, Seq<Option<Seq<char>>>, Seq<char>) {
        (self.before@, groups_view(self.groups@), self.after@)
    }
}

/// A pattern together with its replacement template. The regular expression
/// is always the one compiled from `pattern`: the fields are private and
/// `PatternRule::new` is the only constructor.
pub struct PatternRule {
    pattern: String,
    template: String,
    regex: regex::Regex,
}

impl View for PatternRule {
    /// The pattern and the template.
    type V = (Seq<char>, Seq<char>);

    closed spec fn view(&self) -> (Seq<char>, Seq<char>) {
        (self.pattern@, self.template@)
    }
}

impl PatternRule {
    /// Compiles `pattern`; fails exactly when the pattern does not compile.
    pub fn new(pattern: String, template: String) -> (r: Result<PatternRule, InvalidPatternError>)
        ensures
            r is Ok <==> pattern_compiles(pattern@),
            r matches Ok(rule) ==> rule@ == (pattern@, template@),
            r matches Err(e) ==> e.pattern@ == pattern@,
    {
        match regex::Regex::new(pattern.as_str()) {
            Ok(regex) => Ok(PatternRule { pattern, template, regex }),
            Err(_) => Err(InvalidPatternError { pattern }),
        }
    }

    /// The replacement template.
    pub fn template(&self) -> (r: &String)
        ensures
            r@ == self@.1,
    {
        &self.template
    }

    /// Relies on `regex::Regex::captures`, run with the expression compiled
    /// from this rule's pattern: the leftmost-first match and its groups, or
    /// `None` where the pattern does not match.
    #[verifier::external_body]
    pub(crate) fn captures(&self, text: &str) -> (r: Option<Captured>)
        ensures
            match r {
                Some(c) => regex_captures(self@.0, text@) == Some(c.view()),
                None => regex_captures(self@.0, text@) is None,
            },
    {
        let caps = self.regex.captures(text)?;
        let whole = caps.get_match();
        Some(Captured {
            before: text[..whole.start()].to_string(),
            groups: caps.iter().map(|g| g.map(|g| g.as_str().to_string())).collect(),
            after: text[whole.end()..].to_string(),
        })
    }
}

} // verus!
