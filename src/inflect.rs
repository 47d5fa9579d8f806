//! Inflection: choosing the irregular pair, the uncountable entry or the
//! pattern rule that applies to a word, and building the result.

use vstd::prelude::*;
use vstd::string::*;
use crate::casing::{lower_of, restore_case, restore_case_spec, to_lower};
use crate::irregular::{find_pair, lookup};
use crate::number::{decimal, decimal_string};
use crate::pattern::{regex_captures, Captured, PatternRule};
use crate::store::{rules_view, strings_view, RuleStore, StoreModel};
use crate::template::{expand, expand_template, remove_dollar_escapes, strip_dollars};
use crate::text::push_char;

verus! {

/// The word that a rule's match turns into: the text before the match, the
/// template (with the case of `word` applied) with its markers replaced by the
/// capture groups, and the text after the match, with every leftover `$` and
/// the character after it removed.
pub open spec fn substitute(
    word: Seq<char>,
    template: Seq<char>,
    found: (Seq<char>, Seq<Option<Seq<char>>>, Seq<char>),
) -> Seq<char> {
    strip_dollars(found.0 + expand(restore_case_spec(word, template), word, found.1) + found.2)
}

/// The result of the last `n` rules on `word`: the newest rule among them
/// whose pattern matches decides; without one the word stays as it is.
pub open spec fn apply_rules(rules: Seq<(Seq<char>, Seq<char>)>, word: Seq<char>, n: nat) -> Seq<char>
    decreases n,
{
    if n == 0 || n > rules.len() {
        word
    } else {
        match regex_captures(rules[n - 1].0, word) {
            Some(found) => substitute(word, rules[n - 1].1, found),
            None => apply_rules(rules, word, (n - 1) as nat),
        }
    }
}

/// A word whose lowercase form `token` is empty or uncountable stays as it
/// is; otherwise the rules decide.
pub open spec fn sanitize(
    token: Seq<char>,
    word: Seq<char>,
    rules: Seq<(Seq<char>, Seq<char>)>,
    uncountables: Seq<Seq<char>>,
) -> Seq<char> {
    if token.len() == 0 || uncountables.contains(token) {
        word
    } else {
        apply_rules(rules, word, rules.len())
    }
}

/// The rules of one direction.
pub open spec fn rules_for(m: StoreModel, plural: bool) -> Seq<(Seq<char>, Seq<char>)> {
    if plural {
        m.plural_rules
    } else {
        m.singular_rules
    }
}

/// `word` turned toward the plural (when `plural`) or the singular. A word
/// that is already an irregular form of that kind keeps it; an irregular
/// form of the other kind turns into its partner; anything else goes through
/// `sanitize`.
pub open spec fn inflect(m: StoreModel, word: Seq<char>, plural: bool) -> Seq<char> {
    let token = lower_of(word);
    if lookup(m.irregulars, token, plural) is Some {
        restore_case_spec(word, token)
    } else {
        match lookup(m.irregulars, token, !plural) {
            Some(partner) => restore_case_spec(word, partner),
            None => sanitize(token, word, rules_for(m, plural), m.uncountables),
        }
    }
}

/// What `pluralize` returns: the singular for a count of one, the plural for
/// any other count, behind the count and a space when `include_count`.
pub open spec fn pluralize_spec(m: StoreModel, word: Seq<char>, count: int, include_count: bool) -> Seq<char> {
    let inflected = inflect(m, word, count != 1);
    if include_count {
        decimal(count) + seq![' '] + inflected
    } else {
        inflected
    }
}

/// Builds the word that a match of a rule with `template` on `word` turns
/// into.
pub fn replace_match(word: &str, template: &str, found: Captured) -> (r: String)
    ensures
        r@ == substitute(word@, template@, found.view()),
{
    let cased = restore_case(word, template);
    let expanded = expand_template(cased.as_str(), word, &found.groups);
    let mut whole = found.before;
    whole.append(expanded.as_str());
    whole.append(found.after.as_str());
    remove_dollar_escapes(whole.as_str())
}

/// Whether `token` is one of `words`.
fn contains_word(words: &Vec<String>, token: &String) -> (r: bool)
    ensures
        r == strings_view(words@).contains(token@),
{
    let mut i: usize = 0;
    while i < words.len()
        invariant
            i <= words@.len(),
            forall|k: int| 0 <= k < i ==> words@[k]@ != token@,
        decreases words@.len() - i,
    {
        if words[i] == *token {
            assert(strings_view(words@)[i as int] == token@);
            return true;
        }
        i = i + 1;
    }
    assert(!strings_view(words@).contains(token@)) by {
        assert forall|k: int| 0 <= k < words@.len() implies strings_view(words@)[k] != token@ by {
            assert(strings_view(words@)[k] == words@[k]@);
        }
    }
    false
}

/// Applies the newest rule that matches `word`, unless its lowercase form
/// `token` is empty or uncountable.
pub fn sanitize_word(token: &String, word: &str, rules: &Vec<PatternRule>, uncountable: &Vec<String>) -> (r: String)
    ensures
        r@ == sanitize(token@, word@, rules_view(rules@), strings_view(uncountable@)),
{
    if token.as_str().unicode_len() == 0 || contains_word(uncountable, token) {
        return word.to_owned();
    }
    let ghost model = rules_view(rules@);
    let mut i: usize = rules.len();
    while i > 0
        invariant
            i <= rules@.len(),
            model == rules_view(rules@),
            token@.len() != 0,
            !strings_view(uncountable@).contains(token@),
            apply_rules(model, word@, model.len()) == apply_rules(model, word@, i as nat),
        decreases i,
    {
        let rule = &rules[i - 1];
        assert(model[i - 1] == rule@);
        match rule.captures(word) {
            Some(found) => {
                assert(apply_rules(model, word@, i as nat) == substitute(
                    word@,
                    model[i - 1].1,
                    found.view(),
                ));
                return replace_match(word, rule.template().as_str(), found);
            },
            None => {},
        }
        i = i - 1;
    }
    word.to_owned()
}

/// `word` turned toward the plural (when `plural`) or the singular.
fn replace_word(store: &RuleStore, word: &str, plural: bool) -> (r: String)
    ensures
        r@ == inflect(store@, word@, plural),
{
    proof {
        store.lemma_view();
    }
    let token = to_lower(word);
    if find_pair(&store.irregulars, &token, plural).is_some() {
        return restore_case(word, token.as_str());
    }
    if let Some(partner) = find_pair(&store.irregulars, &token, !plural) {
        return restore_case(word, partner.as_str());
    }
    let rules = if plural { &store.plural_rules } else { &store.singular_rules };
    sanitize_word(&token, word, rules, &store.uncountables)
}

/// The singular of `word`, in its case.
pub fn to_singular(store: &RuleStore, word: &str) -> (r: String)
    ensures
        r@ == inflect(store@, word@, false),
{
    replace_word(store, word, false)
}

/// The plural of `word`, in its case.
pub fn to_plural(store: &RuleStore, word: &str) -> (r: String)
    ensures
        r@ == inflect(store@, word@, true),
{
    replace_word(store, word, true)
}

/// `word` in the singular when `count` is one and in the plural otherwise,
/// preceded by the count and a space when `include_count`.
pub fn pluralize(store: &RuleStore, word: &str, count: isize, include_count: bool) -> (r: String)
    ensures
        r@ == pluralize_spec(store@, word@, count as int, include_count),
{
    let inflected = if count == 1 {
        to_singular(store, word)
    } else {
        to_plural(store, word)
    };
    if include_count {
        let mut out = decimal_string(count);
        push_char(&mut out, ' ');
        out.append(inflected.as_str());
        out
    } else {
        inflected
    }
}

} // verus!
