//! The rule store: irregular pairs, the plural and singular pattern rules in
//! the order they were registered, and the uncountable words.

use vstd::prelude::*;
use crate::casing::{lower_of, to_lower};
use crate::irregular::{add_pair, pairs_unique, with_pair, lemma_with_pair_unique};
use crate::pattern::{pattern_compiles, InvalidPatternError, PatternRule};

verus! {

/// What a rule store holds.
pub ghost struct StoreModel {
    /// Irregular (singular, plural) pairs, oldest first.
    pub irregulars: Seq<(Seq<char>, Seq<char>)>,
    /// (pattern, template) rules toward the plural, oldest first.
    pub plural_rules: Seq<(Seq<char>, Seq<char>)>,
    /// (pattern, template) rules toward the singular, oldest first.
    pub singular_rules: Seq<(Seq<char>, Seq<char>)>,
    /// Lowercase words that have no distinct plural.
    pub uncountables: Seq<Seq<char>>,
    /// Whether the built-in table has been loaded.
    pub seeded: bool,
}

/// The rules that inflect words; see `StoreModel` for what it holds.
pub struct RuleStore {
    pub(crate) irregulars: Vec<(String, String)>,
    pub(crate) plural_rules: Vec<PatternRule>,
    pub(crate) singular_rules: Vec<PatternRule>,
    pub(crate) uncountables: Vec<String>,
    pub(crate) seeded: bool,
}

/// The (pattern, template) views of a list of rules.
pub open spec fn rules_view(rules: Seq<PatternRule>) -> Seq<(Seq<char>, Seq<char>)> {
    rules.map_values(|r: PatternRule| r@)
}

/// The (singular, plural) views of a list of pairs.
pub open spec fn pairs_view(pairs: Seq<(String, String)>) -> Seq<(Seq<char>, Seq<char>)> {
    pairs.map_values(|q: (String, String)| (q.0@, q.1@))
}

/// The views of a list of strings.
pub open spec fn strings_view(words: Seq<String>) -> Seq<Seq<char>> {
    words.map_values(|s: String| s@)
}

impl View for RuleStore {
    type V = StoreModel;

    closed spec fn view(&self) -> StoreModel {
        StoreModel {
            irregulars: pairs_view(self.irregulars@),
            plural_rules: rules_view(self.plural_rules@),
            singular_rules: rules_view(self.singular_rules@),
            uncountables: strings_view(self.uncountables@),
            seeded: self.seeded,
        }
    }
}

/// The template of a rule registered for a pattern-based uncountable word:
/// the whole match, kept as it is.
pub open spec fn identity_template() -> Seq<char> {
    seq!['$', '0']
}

/// A word or a pattern that is never inflected.
pub enum UncountableRule {
    /// A pattern; words it matches keep their form.
    Regex(String),
    /// A single word, compared without regard to case.
    String(String),
}

impl RuleStore {
    /// An empty store, with no built-in rules loaded.
    pub fn new() -> (r: RuleStore)
        ensures
            r.wf(),
            r@.irregulars.len() == 0,
            r@.plural_rules.len() == 0,
            r@.singular_rules.len() == 0,
            r@.uncountables.len() == 0,
            !r@.seeded,
    {
        RuleStore {
            irregulars: Vec::new(),
            plural_rules: Vec::new(),
            singular_rules: Vec::new(),
            uncountables: Vec::new(),
            seeded: false,
        }
    }

    /// What the view of a store is made of.
    pub(crate) proof fn lemma_view(&self)
        ensures
            self@.irregulars == pairs_view(self.irregulars@),
            self@.plural_rules == rules_view(self.plural_rules@),
            self@.singular_rules == rules_view(self.singular_rules@),
            self@.uncountables == strings_view(self.uncountables@),
            self@.seeded == self.seeded,
    {
    }

    /// The irregular table maps singulars to plurals and plurals to
    /// singulars as exact inverses.
    pub open spec fn wf(&self) -> bool {
        pairs_unique(self@.irregulars)
    }
}

/// Registers an irregular pair: `singular` turns into `plural` and back.
/// Any earlier pair with the same singular or the same plural is replaced.
pub fn add_irregular_rule(store: &mut RuleStore, singular: String, plural: String)
    ensures
        final(store)@ == (StoreModel {
            irregulars: with_pair(old(store)@.irregulars, singular@, plural@),
            ..old(store)@
        }),
        old(store).wf() ==> final(store).wf(),
{
    proof {
        if old(store).wf() {
            lemma_with_pair_unique(old(store)@.irregulars, singular@, plural@);
        }
    }
    add_pair(&mut store.irregulars, singular, plural);
}

/// Registers a rule toward the plural; it takes precedence over every rule
/// registered before it. Fails, leaving the store as it was, when `rule`
/// does not compile.
pub fn add_plural_rule(store: &mut RuleStore, rule: String, placement: String) -> (r: Result<
    (),
    InvalidPatternError,
>)
    ensures
        r is Ok <==> pattern_compiles(rule@),
        r is Ok ==> final(store)@ == (StoreModel {
            plural_rules: old(store)@.plural_rules.push((rule@, placement@)),
            ..old(store)@
        }),
        r is Err ==> final(store)@ == old(store)@,
        r matches Err(e) ==> e.pattern@ == rule@,
        old(store).wf() ==> final(store).wf(),
{
    let compiled = PatternRule::new(rule, placement)?;
    store.plural_rules.push(compiled);
    assert(rules_view(store.plural_rules@) =~= rules_view(old(store).plural_rules@).push(compiled@));
    Ok(())
}

/// Registers a rule toward the singular; it takes precedence over every
/// rule registered before it. Fails, leaving the store as it was, when `rule`
/// does not compile.
pub fn add_singular_rule(store: &mut RuleStore, rule: String, placement: String) -> (r: Result<
    (),
    InvalidPatternError,
>)
    ensures
        r is Ok <==> pattern_compiles(rule@),
        r is Ok ==> final(store)@ == (StoreModel {
            singular_rules: old(store)@.singular_rules.push((rule@, placement@)),
            ..old(store)@
        }),
        r is Err ==> final(store)@ == old(store)@,
        r matches Err(e) ==> e.pattern@ == rule@,
        old(store).wf() ==> final(store).wf(),
{
    let compiled = PatternRule::new(rule, placement)?;
    store.singular_rules.push(compiled);
    assert(rules_view(store.singular_rules@) =~= rules_view(old(store).singular_rules@).push(
        compiled@,
    ));
    Ok(())
}

/// Registers a word or pattern that is never inflected. A word is stored in
/// lowercase; a pattern becomes a rule in both directions whose template
/// keeps the whole match. Fails, leaving the store as it was, when a pattern
/// does not compile.
pub fn add_uncountable_rule(store: &mut RuleStore, rule: UncountableRule) -> (r: Result<
    (),
    InvalidPatternError,
>)
    ensures
        match rule {
            UncountableRule::Regex(p) => {
                &&& (r is Ok <==> pattern_compiles(p@))
                &&& r is Ok ==> final(store)@ == (StoreModel {
                    plural_rules: old(store)@.plural_rules.push((p@, identity_template())),
                    singular_rules: old(store)@.singular_rules.push((p@, identity_template())),
                    ..old(store)@
                })
                &&& r is Err ==> final(store)@ == old(store)@
                &&& r matches Err(e) ==> e.pattern@ == p@
            },
            UncountableRule::String(w) => {
                &&& r is Ok
                &&& final(store)@ == (StoreModel {
                    uncountables: old(store)@.uncountables.push(lower_of(w@)),
                    ..old(store)@
                })
            },
        },
        old(store).wf() ==> final(store).wf(),
{
    match rule {
        UncountableRule::Regex(pattern) => {
            let mut keep = String::new();
            keep.append("$0");
            proof {
                reveal_strlit("$0");
                assert(keep@ =~= identity_template());
            }
            let plural = PatternRule::new(pattern.clone(), keep.clone())?;
            let singular = PatternRule::new(pattern, keep)?;
            store.plural_rules.push(plural);
            store.singular_rules.push(singular);
            assert(rules_view(store.plural_rules@) =~= rules_view(old(store).plural_rules@).push(
                plural@,
            ));
            assert(rules_view(store.singular_rules@) =~= rules_view(
                old(store).singular_rules@,
            ).push(singular@));
            Ok(())
        },
        UncountableRule::String(word) => {
            let lowered = to_lower(word.as_str());
            store.uncountables.push(lowered);
            assert(strings_view(store.uncountables@) =~= strings_view(
                old(store).uncountables@,
            ).push(lowered@));
            Ok(())
        },
    }
}

} // verus!
