//! Loading a table of rules into a store, once.

use vstd::prelude::*;
use vstd::string::*;
use crate::casing::{lower_of, to_lower};
use crate::irregular::{add_pair, lemma_with_pair_unique, pairs_unique, with_pair};
use crate::pattern::{pattern_compiles, InvalidPatternError, PatternRule};
use crate::store::{identity_template, pairs_view, rules_view, strings_view, RuleStore, StoreModel};

verus! {

/// A table of rules to load into a store.
pub struct RuleTable {
    /// (singular, plural) pairs.
    pub irregular: Vec<(String, String)>,
    /// (pattern, template) rules toward the plural, oldest first.
    pub plural: Vec<(String, String)>,
    /// (pattern, template) rules toward the singular, oldest first.
    pub singular: Vec<(String, String)>,
    /// Words that are never inflected.
    pub uncountable_words: Vec<String>,
    /// Patterns whose matches are never inflected.
    pub uncountable_patterns: Vec<String>,
}

/// `pairs` after registering each of `added` in order.
pub open spec fn with_pairs(pairs: Seq<(Seq<char>, Seq<char>)>, added: Seq<(Seq<char>, Seq<char>)>) -> Seq<(Seq<char>, Seq<char>)>
    decreases added.len(),
{
    if added.len() == 0 {
        pairs
    } else {
        let before = with_pairs(pairs, added.drop_last());
        with_pair(before, added.last().0, added.last().1)
    }
}

/// The rules that keep each of `patterns` as it is.
pub open spec fn identity_rules(patterns: Seq<Seq<char>>) -> Seq<(Seq<char>, Seq<char>)> {
    patterns.map_values(|p: Seq<char>| (p, identity_template()))
}

/// The rules of one direction in a table: its own, then one that keeps the
/// matches of each uncountable pattern.
pub open spec fn table_rules(rules: Seq<(String, String)>, patterns: Seq<String>) -> Seq<(Seq<char>, Seq<char>)> {
    pairs_view(rules) + identity_rules(strings_view(patterns))
}

/// Whether every pattern of a list of rules compiles.
pub open spec fn rules_compile(rules: Seq<(Seq<char>, Seq<char>)>) -> bool {
    forall|i: int| 0 <= i < rules.len() ==> pattern_compiles(#[trigger] rules[i].0)
}

/// Whether every pattern of the table compiles.
pub open spec fn table_compiles(t: RuleTable) -> bool {
    &&& rules_compile(table_rules(t.plural@, t.uncountable_patterns@))
    &&& rules_compile(table_rules(t.singular@, t.uncountable_patterns@))
}

/// The store after loading the table: irregular pairs registered in order,
/// the table's rules after the store's own, and the uncountable words in
/// lowercase.
pub open spec fn seeded_model(m: StoreModel, t: RuleTable) -> StoreModel {
    StoreModel {
        irregulars: with_pairs(m.irregulars, pairs_view(t.irregular@)),
        plural_rules: m.plural_rules + table_rules(t.plural@, t.uncountable_patterns@),
        singular_rules: m.singular_rules + table_rules(t.singular@, t.uncountable_patterns@),
        uncountables: m.uncountables + strings_view(t.uncountable_words@).map_values(
            |w: Seq<char>| lower_of(w),
        ),
        seeded: true,
    }
}

/// The template that keeps a whole match.
fn identity_placement() -> (r: String)
    ensures
        r@ == identity_template(),
{
    let mut r = String::new();
    r.append("$0");
    proof {
        reveal_strlit("$0");
        assert(r@ =~= identity_template());
    }
    r
}

/// Compiles the rules of one direction of a table.
fn compile_rules(rules: &Vec<(String, String)>, patterns: &Vec<String>) -> (r: Result<
    Vec<PatternRule>,
    InvalidPatternError,
>)
    ensures
        r is Ok <==> rules_compile(table_rules(rules@, patterns@)),
        r matches Ok(v) ==> rules_view(v@) == table_rules(rules@, patterns@),
        r matches Err(e) ==> !pattern_compiles(e.pattern@),
{
    let ghost all = table_rules(rules@, patterns@);
    let mut out: Vec<PatternRule> = Vec::new();
    let mut i: usize = 0;
    while i < rules.len()
        invariant
            i <= rules@.len(),
            all == table_rules(rules@, patterns@),
            rules_view(out@) == all.subrange(0, i as int),
            rules_compile(rules_view(out@)),
        decreases rules@.len() - i,
    {
        let rule = PatternRule::new(rules[i].0.clone(), rules[i].1.clone());
        match rule {
            Ok(compiled) => {
                assert(all[i as int] == pairs_view(rules@)[i as int]);
                let ghost before = out@;
                out.push(compiled);
                assert(rules_view(out@) =~= rules_view(before).push(compiled@));
                assert(rules_view(out@) =~= all.subrange(0, i + 1));
            },
            Err(e) => {
                assert(all[i as int] == pairs_view(rules@)[i as int]);
                assert(all[i as int].0 == rules@[i as int].0@);
                assert(!pattern_compiles(all[i as int].0));
                return Err(e);
            },
        }
        i = i + 1;
    }
    let n = rules.len();
    let mut j: usize = 0;
    while j < patterns.len()
        invariant
            n == rules@.len(),
            j <= patterns@.len(),
            all == table_rules(rules@, patterns@),
            rules_view(out@) == all.subrange(0, n + j),
            rules_compile(rules_view(out@)),
        decreases patterns@.len() - j,
    {
        let rule = PatternRule::new(patterns[j].clone(), identity_placement());
        match rule {
            Ok(compiled) => {
                assert(all[n + j] == identity_rules(strings_view(patterns@))[j as int]);
                let ghost before = out@;
                out.push(compiled);
                assert(rules_view(out@) =~= rules_view(before).push(compiled@));
                assert(rules_view(out@) =~= all.subrange(0, n + j + 1));
            },
            Err(e) => {
                assert(all[n + j] == identity_rules(strings_view(patterns@))[j as int]);
                assert(all[n + j].0 == patterns@[j as int]@);
                assert(!pattern_compiles(all[n + j].0));
                return Err(e);
            },
        }
        j = j + 1;
    }
    assert(all.subrange(0, n + j) =~= all);
    proof {
        assert forall|k: int| 0 <= k < all.len() implies pattern_compiles(#[trigger] all[k].0) by {
            assert(rules_view(out@)[k] == out@[k]@);
        }
    }
    Ok(out)
}

/// Loads `table` into a store that has not been seeded yet; a store that has
/// been is left as it is. Fails, leaving the store as it was, when a pattern
/// of the table does not compile.
pub fn initialize(store: &mut RuleStore, table: &RuleTable) -> (r: Result<(), InvalidPatternError>)
    ensures
        old(store)@.seeded ==> r is Ok && final(store)@ == old(store)@,
        !old(store)@.seeded ==> (r is Ok <==> table_compiles(*table)),
        !old(store)@.seeded && r is Ok ==> final(store)@ == seeded_model(old(store)@, *table),
        r is Err ==> final(store)@ == old(store)@,
        r matches Err(e) ==> !pattern_compiles(e.pattern@),
        old(store).wf() ==> final(store).wf(),
{
    proof {
        store.lemma_view();
    }
    if store.seeded {
        return Ok(());
    }
    let plural = compile_rules(&table.plural, &table.uncountable_patterns)?;
    let singular = compile_rules(&table.singular, &table.uncountable_patterns)?;
    let ghost start = store@;
    let ghost added = pairs_view(table.irregular@);
    let mut i: usize = 0;
    assert(with_pairs(start.irregulars, added.subrange(0, 0)) == start.irregulars);
    while i < table.irregular.len()
        invariant
            i <= table.irregular@.len(),
            added == pairs_view(table.irregular@),
            pairs_view(store.irregulars@) == with_pairs(start.irregulars, added.subrange(0, i as int)),
            pairs_unique(start.irregulars) ==> pairs_unique(pairs_view(store.irregulars@)),
            store.plural_rules == old(store).plural_rules,
            store.singular_rules == old(store).singular_rules,
            store.uncountables == old(store).uncountables,
            store.seeded == old(store).seeded,
        decreases table.irregular@.len() - i,
    {
        assert(added.subrange(0, i + 1).drop_last() =~= added.subrange(0, i as int));
        proof {
            if pairs_unique(start.irregulars) {
                lemma_with_pair_unique(pairs_view(store.irregulars@), added[i as int].0, added[i as int].1);
            }
        }
        add_pair(&mut store.irregulars, table.irregular[i].0.clone(), table.irregular[i].1.clone());
        i = i + 1;
    }
    assert(added.subrange(0, i as int) =~= added);
    let ghost words = strings_view(table.uncountable_words@);
    let mut k: usize = 0;
    while k < table.uncountable_words.len()
        invariant
            k <= table.uncountable_words@.len(),
            words == strings_view(table.uncountable_words@),
            pairs_view(store.irregulars@) == with_pairs(start.irregulars, added),
            pairs_unique(start.irregulars) ==> pairs_unique(pairs_view(store.irregulars@)),
            store.plural_rules == old(store).plural_rules,
            store.singular_rules == old(store).singular_rules,
            store.seeded == old(store).seeded,
            strings_view(store.uncountables@) == start.uncountables + words.subrange(0, k as int).map_values(
                |w: Seq<char>| lower_of(w),
            ),
        decreases table.uncountable_words@.len() - k,
    {
        let lowered = to_lower(table.uncountable_words[k].as_str());
        let ghost before = store.uncountables@;
        store.uncountables.push(lowered);
        assert(strings_view(store.uncountables@) =~= strings_view(before).push(lowered@));
        assert(words.subrange(0, k + 1).map_values(|w: Seq<char>| lower_of(w)) =~= words.subrange(
            0,
            k as int,
        ).map_values(|w: Seq<char>| lower_of(w)).push(lower_of(words[k as int])));
        assert(strings_view(store.uncountables@) =~= start.uncountables + words.subrange(
            0,
            k + 1,
        ).map_values(|w: Seq<char>| lower_of(w)));
        k = k + 1;
    }
    assert(words.subrange(0, k as int) =~= words);
    let ghost old_plural = rules_view(store.plural_rules@);
    let ghost old_singular = rules_view(store.singular_rules@);
    let mut plural = plural;
    let mut singular = singular;
    store.plural_rules.append(&mut plural);
    store.singular_rules.append(&mut singular);
    store.seeded = true;
    proof {
        store.lemma_view();
        assert(rules_view(store.plural_rules@) =~= old_plural + table_rules(
            table.plural@,
            table.uncountable_patterns@,
        ));
        assert(rules_view(store.singular_rules@) =~= old_singular + table_rules(
            table.singular@,
            table.uncountable_patterns@,
        ));
    }
    Ok(())
}

} // verus!
