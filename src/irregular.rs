//! Irregular singular/plural pairs. The table is one list of pairs, so the
//! singular-to-plural and plural-to-singular maps it stands for are exact
//! inverses while no two pairs share a singular or a plural.

use vstd::prelude::*;

verus! {

/// The form paired with `key` in the last pair that has `key` as its plural
/// (when `by_plural`) or as its singular (otherwise).
pub open spec fn lookup(pairs: Seq<(Seq<char>, Seq<char>)>, key: Seq<char>, by_plural: bool) -> Option<Seq<char>>
    decreases pairs.len(),
{
    if pairs.len() == 0 {
        None
    } else if by_plural && pairs.last().1 == key {
        Some(pairs.last().0)
    } else if !by_plural && pairs.last().0 == key {
        Some(pairs.last().1)
    } else {
        lookup(pairs.drop_last(), key, by_plural)
    }
}

/// No two pairs share a singular, and no two share a plural.
pub open spec fn pairs_unique(pairs: Seq<(Seq<char>, Seq<char>)>) -> bool {
    forall|i: int, j: int|
        0 <= i < j < pairs.len() ==> pairs[i].0 != pairs[j].0 && pairs[i].1 != pairs[j].1
}

/// The pairs that neither have `singular` as their singular nor `plural` as
/// their plural, in their order.
pub open spec fn without(pairs: Seq<(Seq<char>, Seq<char>)>, singular: Seq<char>, plural: Seq<char>) -> Seq<(Seq<char>, Seq<char>)>
    decreases pairs.len(),
{
    if pairs.len() == 0 {
        seq![]
    } else {
        let rest = without(pairs.drop_last(), singular, plural);
        if pairs.last().0 != singular && pairs.last().1 != plural {
            rest.push(pairs.last())
        } else {
            rest
        }
    }
}

/// The table after registering `singular` with `plural`: pairs that would
/// clash with the new one are dropped and the new pair is added last.
pub open spec fn with_pair(pairs: Seq<(Seq<char>, Seq<char>)>, singular: Seq<char>, plural: Seq<char>) -> Seq<(Seq<char>, Seq<char>)> {
    without(pairs, singular, plural).push((singular, plural))
}

pub(crate) proof fn lemma_without_members(pairs: Seq<(Seq<char>, Seq<char>)>, singular: Seq<char>, plural: Seq<char>)
    ensures
        forall|k: int|
            0 <= k < without(pairs, singular, plural).len() ==> {
                let x = #[trigger] without(pairs, singular, plural)[k];
                &&& pairs.contains(x)
                &&& x.0 != singular
                &&& x.1 != plural
            },
        pairs_unique(pairs) ==> pairs_unique(without(pairs, singular, plural)),
    decreases pairs.len(),
{
    if pairs.len() > 0 {
        let init = pairs.drop_last();
        lemma_without_members(init, singular, plural);
        let rest = without(init, singular, plural);
        assert forall|k: int| 0 <= k < rest.len() implies pairs.contains(#[trigger] rest[k]) by {
            let j = choose|j: int| 0 <= j < init.len() && init[j] == rest[k];
            assert(pairs[j] == rest[k]);
        }
        assert(pairs.contains(pairs.last())) by {
            assert(pairs[pairs.len() - 1] == pairs.last());
        }
        if pairs_unique(pairs) {
            assert(pairs_unique(init));
            assert forall|k: int| 0 <= k < rest.len() implies #[trigger] rest[k].0 != pairs.last().0
                && rest[k].1 != pairs.last().1 by {
                let j = choose|j: int| 0 <= j < init.len() && init[j] == rest[k];
                assert(pairs[j] == init[j]);
            }
        }
    }
}

/// Registering a pair keeps singulars and plurals unique.
pub proof fn lemma_with_pair_unique(pairs: Seq<(Seq<char>, Seq<char>)>, singular: Seq<char>, plural: Seq<char>)
    requires
        pairs_unique(pairs),
    ensures
        pairs_unique(with_pair(pairs, singular, plural)),
{
    lemma_without_members(pairs, singular, plural);
    let rest = without(pairs, singular, plural);
    let all = with_pair(pairs, singular, plural);
    assert forall|i: int, j: int| 0 <= i < j < all.len() implies all[i].0 != all[j].0
        && all[i].1 != all[j].1 by {
        if j == all.len() - 1 {
            assert(all[i] == rest[i]);
        } else {
            assert(all[i] == rest[i] && all[j] == rest[j]);
        }
    }
}

/// The pair list after registering `singular` with `plural`.
pub fn add_pair(pairs: &mut Vec<(String, String)>, singular: String, plural: String)
    ensures
        final(pairs)@.map_values(|q: (String, String)| (q.0@, q.1@)) == with_pair(
            old(pairs)@.map_values(|q: (String, String)| (q.0@, q.1@)),
            singular@,
            plural@,
        ),
{
    let ghost model = old(pairs)@.map_values(|q: (String, String)| (q.0@, q.1@));
    let mut kept: Vec<(String, String)> = Vec::new();
    let n = pairs.len();
    let mut i: usize = 0;
    while i < n
        invariant
            n == pairs@.len(),
            i <= n,
            pairs@ == old(pairs)@,
            model == old(pairs)@.map_values(|q: (String, String)| (q.0@, q.1@)),
            kept@.map_values(|q: (String, String)| (q.0@, q.1@)) == without(
                model.subrange(0, i as int),
                singular@,
                plural@,
            ),
        decreases n - i,
    {
        assert(model.subrange(0, i + 1).drop_last() =~= model.subrange(0, i as int));
        let ghost before = kept@;
        if pairs[i].0 != singular && pairs[i].1 != plural {
            kept.push((pairs[i].0.clone(), pairs[i].1.clone()));
            assert(kept@.map_values(|q: (String, String)| (q.0@, q.1@)) =~= before.map_values(
                |q: (String, String)| (q.0@, q.1@),
            ).push(model[i as int]));
        }
        i = i + 1;
    }
    assert(model.subrange(0, n as int) =~= model);
    let ghost before = kept@;
    kept.push((singular, plural));
    assert(kept@.map_values(|q: (String, String)| (q.0@, q.1@)) =~= before.map_values(
        |q: (String, String)| (q.0@, q.1@),
    ).push((singular@, plural@)));
    *pairs = kept;
}

/// The form paired with `key`, looked up by plural (when `by_plural`) or by
/// singular.
pub fn find_pair(pairs: &Vec<(String, String)>, key: &String, by_plural: bool) -> (r: Option<String>)
    ensures
        r matches Some(v) ==> lookup(pairs@.map_values(|q: (String, String)| (q.0@, q.1@)), key@, by_plural) == Some(v@),
        r is None ==> lookup(pairs@.map_values(|q: (String, String)| (q.0@, q.1@)), key@, by_plural) is None,
{
    let ghost model = pairs@.map_values(|q: (String, String)| (q.0@, q.1@));
    let mut i: usize = pairs.len();
    assert(model.subrange(0, i as int) =~= model);
    while i > 0
        invariant
            i <= pairs@.len(),
            model == pairs@.map_values(|q: (String, String)| (q.0@, q.1@)),
            lookup(model, key@, by_plural) == lookup(model.subrange(0, i as int), key@, by_plural),
        decreases i,
    {
        let ghost prefix = model.subrange(0, i as int);
        assert(prefix.drop_last() =~= model.subrange(0, i - 1));
        assert(prefix.last() == model[i - 1]);
        let pair = &pairs[i - 1];
        if by_plural && pair.1 == *key {
            return Some(pair.0.clone());
        }
        if !by_plural && pair.0 == *key {
            return Some(pair.1.clone());
        }
        i = i - 1;
    }
    None
}

} // verus!
