//! Case handling: the lowercase and uppercase forms that std computes, and the
//! rule that carries the case pattern of one word over to another.

use vstd::prelude::*;
use vstd::string::*;

verus! {

/// What `str::to_lowercase` returns for a string.
pub uninterp spec fn lower_of(s: Seq<char>) -> Seq<char>;

/// What `str::to_uppercase` returns for a string.
pub uninterp spec fn upper_of(s: Seq<char>) -> Seq<char>;

/// Whether `char::is_uppercase` holds of a character.
pub uninterp spec fn is_upper_char(c: char) -> bool;

/// Relies on `str::to_lowercase`: the result depends on the characters alone.
#[verifier::external_body]
pub(crate) fn to_lower(s: &str) -> (r: String)
    ensures
        r@ == lower_of(s@),
{
    s.to_lowercase()
}

/// Relies on `str::to_uppercase`: the result depends on the characters alone.
#[verifier::external_body]
fn to_upper(s: &str) -> (r: String)
    ensures
        r@ == upper_of(s@),
{
    s.to_uppercase()
}

/// Relies on `char::is_uppercase`: whether the character has the Unicode
/// `Uppercase` property.
#[verifier::external_body]
fn is_upper(c: char) -> (r: bool)
    ensures
        r == is_upper_char(c),
{
    c.is_uppercase()
}

/// `token` with the case pattern of `word`: unchanged when the two are equal,
/// lowercased for a lowercase word, uppercased for an uppercase word, with an
/// uppercased first character when the word starts with an uppercase
/// character, and lowercased otherwise.
pub open spec fn restore_case_spec(word: Seq<char>, token: Seq<char>) -> Seq<char> {
    if word == token {
        token
    } else if word == lower_of(word) {
        lower_of(token)
    } else if word == upper_of(word) {
        upper_of(token)
    } else if word.len() > 0 && is_upper_char(word[0]) && token.len() > 0 {
        upper_of(seq![token[0]]) + token.subrange(1, token.len() as int)
    } else {
        lower_of(token)
    }
}

/// Applies the case pattern of `word` to `token`.
pub fn restore_case(word: &str, token: &str) -> (r: String)
    ensures
        r@ == restore_case_spec(word@, token@),
{
    let w = word.to_owned();
    let t = token.to_owned();
    if w == t {
        return t;
    }
    let lower = to_lower(word);
    if w == lower {
        return to_lower(token);
    }
    let upper = to_upper(word);
    if w == upper {
        return to_upper(token);
    }
    let word_len = word.unicode_len();
    let token_len = token.unicode_len();
    if word_len > 0 && token_len > 0 && is_upper(word.get_char(0)) {
        let first = token.substring_char(0, 1);
        assert(first@ =~= seq![token@[0]]);
        let mut r = to_upper(first);
        r.append(token.substring_char(1, token_len));
        return r;
    }
    to_lower(token)
}

} // verus!
