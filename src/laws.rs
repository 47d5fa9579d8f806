//! Properties of inflection that hold for every store and word.

use vstd::prelude::*;
use crate::casing::{lower_of, restore_case_spec};
use crate::inflect::{apply_rules, inflect, pluralize_spec, substitute};
use crate::irregular::{lookup, lemma_without_members, pairs_unique, with_pair};
use crate::pattern::regex_captures;
use crate::store::StoreModel;

verus! {

/// The form of a pair that a lookup by plural (when `by_plural`) or by
/// singular compares with its key.
pub open spec fn key_side(pair: (Seq<char>, Seq<char>), by_plural: bool) -> Seq<char> {
    if by_plural {
        pair.1
    } else {
        pair.0
    }
}

/// `lookup` finds nothing exactly when no pair has `key` on the side looked
/// up.
pub proof fn lemma_lookup_none(pairs: Seq<(Seq<char>, Seq<char>)>, key: Seq<char>, by_plural: bool)
    ensures
        lookup(pairs, key, by_plural) is None <==> forall|i: int|
            0 <= i < pairs.len() ==> key_side(#[trigger] pairs[i], by_plural) != key,
    decreases pairs.len(),
{
    if pairs.len() > 0 {
        let init = pairs.drop_last();
        lemma_lookup_none(init, key, by_plural);
        assert forall|i: int| 0 <= i < init.len() implies init[i] == pairs[i] by {}
        if lookup(pairs, key, by_plural) is None {
            assert forall|i: int| 0 <= i < pairs.len() implies key_side(
                #[trigger] pairs[i],
                by_plural,
            ) != key by {
                if i < init.len() {
                    assert(init[i] == pairs[i]);
                }
            }
        } else if key_side(pairs.last(), by_plural) != key {
            let i = choose|i: int| 0 <= i < init.len() && key_side(#[trigger] init[i], by_plural) == key;
            assert(pairs[i] == init[i]);
        } else {
            assert(pairs[pairs.len() - 1] == pairs.last());
        }
    }
}

/// The form of a pair that a lookup by plural (when `by_plural`) or by
/// singular returns.
pub open spec fn value_side(pair: (Seq<char>, Seq<char>), by_plural: bool) -> Seq<char> {
    if by_plural {
        pair.0
    } else {
        pair.1
    }
}

/// What `lookup` finds comes from a pair of the table.
proof fn lemma_lookup_from_pair(pairs: Seq<(Seq<char>, Seq<char>)>, key: Seq<char>, by_plural: bool)
    ensures
        lookup(pairs, key, by_plural) matches Some(v) ==> exists|i: int|
            0 <= i < pairs.len() && key_side(#[trigger] pairs[i], by_plural) == key && value_side(
                pairs[i],
                by_plural,
            ) == v,
    decreases pairs.len(),
{
    if pairs.len() > 0 {
        let init = pairs.drop_last();
        lemma_lookup_from_pair(init, key, by_plural);
        if key_side(pairs.last(), by_plural) == key {
            assert(pairs[pairs.len() - 1] == pairs.last());
        } else if lookup(init, key, by_plural) is Some {
            let i = choose|i: int|
                0 <= i < init.len() && key_side(#[trigger] init[i], by_plural) == key && value_side(
                    init[i],
                    by_plural,
                ) == lookup(init, key, by_plural)->Some_0;
            assert(pairs[i] == init[i]);
        }
    }
}

/// In a table without clashes, looking up a pair's key finds that pair.
proof fn lemma_lookup_finds_pair(pairs: Seq<(Seq<char>, Seq<char>)>, i: int, by_plural: bool)
    requires
        pairs_unique(pairs),
        0 <= i < pairs.len(),
    ensures
        lookup(pairs, key_side(pairs[i], by_plural), by_plural) == Some(value_side(pairs[i], by_plural)),
    decreases pairs.len(),
{
    if i < pairs.len() - 1 {
        let init = pairs.drop_last();
        assert(init[i] == pairs[i]);
        assert(pairs.last() == pairs[pairs.len() - 1]);
        lemma_lookup_finds_pair(init, i, by_plural);
    }
}

/// The singular-to-plural and plural-to-singular maps of an irregular table
/// without clashes are exact inverses: a singular maps to a plural exactly
/// when that plural maps back to it.
pub proof fn lemma_irregular_maps_inverse(
    pairs: Seq<(Seq<char>, Seq<char>)>,
    singular: Seq<char>,
    plural: Seq<char>,
)
    requires
        pairs_unique(pairs),
    ensures
        lookup(pairs, singular, false) == Some(plural) <==> lookup(pairs, plural, true) == Some(
            singular,
        ),
{
    lemma_lookup_from_pair(pairs, singular, false);
    lemma_lookup_from_pair(pairs, plural, true);
    if lookup(pairs, singular, false) == Some(plural) {
        let i = choose|i: int|
            0 <= i < pairs.len() && key_side(#[trigger] pairs[i], false) == singular && value_side(
                pairs[i],
                false,
            ) == plural;
        lemma_lookup_finds_pair(pairs, i, true);
    }
    if lookup(pairs, plural, true) == Some(singular) {
        let i = choose|i: int|
            0 <= i < pairs.len() && key_side(#[trigger] pairs[i], true) == plural && value_side(
                pairs[i],
                true,
            ) == singular;
        lemma_lookup_finds_pair(pairs, i, false);
    }
}

/// A word whose lowercase form is uncountable, and that no irregular pair
/// names, comes back unchanged from `pluralize` whatever the count.
pub proof fn lemma_uncountable_unchanged(m: StoreModel, word: Seq<char>, count: int)
    requires
        m.uncountables.contains(lower_of(word)),
        lookup(m.irregulars, lower_of(word), true) is None,
        lookup(m.irregulars, lower_of(word), false) is None,
    ensures
        pluralize_spec(m, word, count, false) == word,
{
}

/// Where no rule among the last `n` matches, the word stays as it is.
proof fn lemma_no_match_keeps(rules: Seq<(Seq<char>, Seq<char>)>, word: Seq<char>, n: nat)
    requires
        forall|i: int| 0 <= i < rules.len() ==> (#[trigger] regex_captures(rules[i].0, word)) is None,
    ensures
        apply_rules(rules, word, n) == word,
    decreases n,
{
    if n > 0 && n <= rules.len() {
        assert(regex_captures(rules[n - 1].0, word) is None);
        lemma_no_match_keeps(rules, word, (n - 1) as nat);
    }
}

/// A word that no irregular pair, uncountable entry or plural rule covers is
/// its own plural: `pluralize` hands it back for every count but one.
pub proof fn lemma_unknown_word_unchanged(m: StoreModel, word: Seq<char>, count: int)
    requires
        count != 1,
        lookup(m.irregulars, lower_of(word), true) is None,
        lookup(m.irregulars, lower_of(word), false) is None,
        forall|i: int|
            0 <= i < m.plural_rules.len() ==> (#[trigger] regex_captures(m.plural_rules[i].0, word)) is None,
    ensures
        pluralize_spec(m, word, count, false) == word,
{
    lemma_no_match_keeps(m.plural_rules, word, m.plural_rules.len());
}

/// After registering `singular` with `plural` (both lowercase), the singular
/// turns into the plural for every count but one, whatever the pattern rules
/// say, provided no other pair has the singular as its plural.
pub proof fn lemma_irregular_wins(m: StoreModel, singular: Seq<char>, plural: Seq<char>, count: int)
    requires
        lower_of(singular) == singular,
        lower_of(plural) == plural,
        count != 1,
        singular == plural || lookup(m.irregulars, singular, true) is None,
    ensures
        pluralize_spec(
            StoreModel { irregulars: with_pair(m.irregulars, singular, plural), ..m },
            singular,
            count,
            false,
        ) == plural,
{
    let pairs = with_pair(m.irregulars, singular, plural);
    assert(pairs.drop_last() =~= crate::irregular::without(m.irregulars, singular, plural));
    if singular != plural {
        lemma_lookup_none(m.irregulars, singular, true);
        lemma_without_members(m.irregulars, singular, plural);
        let rest = pairs.drop_last();
        lemma_lookup_none(rest, singular, true);
        assert forall|i: int| 0 <= i < rest.len() implies key_side(#[trigger] rest[i], true)
            != singular by {
            let j = choose|j: int| 0 <= j < m.irregulars.len() && m.irregulars[j] == rest[i];
            assert(key_side(m.irregulars[j], true) != singular);
        }
        assert(lookup(pairs, singular, true) is None);
    }
    assert(lookup(pairs, singular, false) == Some(plural));
    assert(restore_case_spec(singular, plural) == plural);
}

/// Once a rule with `template` is the newest rule toward the plural, it
/// decides the plural of every word its pattern matches, unless the word is
/// empty, uncountable or irregular.
pub proof fn lemma_newest_rule_decides(
    m: StoreModel,
    pattern: Seq<char>,
    template: Seq<char>,
    word: Seq<char>,
    found: (Seq<char>, Seq<Option<Seq<char>>>, Seq<char>),
)
    requires
        regex_captures(pattern, word) == Some(found),
        lower_of(word).len() > 0,
        !m.uncountables.contains(lower_of(word)),
        lookup(m.irregulars, lower_of(word), true) is None,
        lookup(m.irregulars, lower_of(word), false) is None,
    ensures
        inflect(
            StoreModel { plural_rules: m.plural_rules.push((pattern, template)), ..m },
            word,
            true,
        ) == substitute(word, template, found),
{
    let rules = m.plural_rules.push((pattern, template));
    assert(rules[rules.len() - 1] == (pattern, template));
}

/// Of two plural rules registered one after the other, the later decides
/// the plural of every word that both patterns match, unless the word is
/// empty, uncountable or irregular.
pub proof fn lemma_later_rule_wins(
    m: StoreModel,
    first: (Seq<char>, Seq<char>),
    second: (Seq<char>, Seq<char>),
    word: Seq<char>,
)
    requires
        regex_captures(first.0, word) is Some,
        regex_captures(second.0, word) is Some,
        lower_of(word).len() > 0,
        !m.uncountables.contains(lower_of(word)),
        lookup(m.irregulars, lower_of(word), true) is None,
        lookup(m.irregulars, lower_of(word), false) is None,
    ensures
        inflect(
            StoreModel { plural_rules: m.plural_rules.push(first).push(second), ..m },
            word,
            true,
        ) == substitute(word, second.1, regex_captures(second.0, word)->Some_0),
{
    let once = StoreModel { plural_rules: m.plural_rules.push(first), ..m };
    lemma_newest_rule_decides(once, second.0, second.1, word, regex_captures(second.0, word)->Some_0);
}

} // verus!
