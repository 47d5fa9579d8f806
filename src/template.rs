//! Replacement templates: positional markers (`$0` for the whole match, `$1`
//! to `$9` for capture groups) and the clean-up of markers left unresolved.

use vstd::prelude::*;
use vstd::string::*;
use crate::casing::{restore_case, restore_case_spec};
use crate::text::{chars_of, push_char};

verus! {

/// `s` with every `$` removed together with the character that follows it.
pub open spec fn strip_dollars(s: Seq<char>) -> Seq<char>
    decreases s.len(),
{
    if s.len() == 0 {
        seq![]
    } else if s[0] == '$' {
        if s.len() < 2 {
            seq![]
        } else {
            strip_dollars(s.subrange(2, s.len() as int))
        }
    } else {
        seq![s[0]] + strip_dollars(s.drop_first())
    }
}

/// Removes every `$` from `s` along with the character right after it.
pub fn remove_dollar_escapes(s: &str) -> (r: String)
    ensures
        r@ == strip_dollars(s@),
{
    let cs = chars_of(s);
    let n = cs.len();
    let mut out = String::new();
    let mut i: usize = 0;
    assert(out@ + strip_dollars(s@.subrange(0, n as int)) =~= strip_dollars(s@)) by {
        assert(s@.subrange(0, n as int) =~= s@);
    }
    while i < n
        invariant
            n == cs@.len(),
            cs@ == s@,
            i <= n,
            out@ + strip_dollars(s@.subrange(i as int, n as int)) == strip_dollars(s@),
        decreases n - i,
    {
        let rest = Ghost(s@.subrange(i as int, n as int));
        if cs[i] == '$' {
            if n - i >= 2 {
                assert(rest@.subrange(2, rest@.len() as int) =~= s@.subrange(i + 2, n as int));
                i = i + 2;
            } else {
                assert(s@.subrange(n as int, n as int) =~= Seq::<char>::empty());
                i = n;
            }
        } else {
            assert(rest@.drop_first() =~= s@.subrange(i + 1, n as int));
            push_char(&mut out, cs[i]);
            i = i + 1;
        }
    }
    assert(s@.subrange(n as int, n as int) =~= Seq::<char>::empty());
    out
}

/// Whether `c` is one of the decimal digits `0` to `9`.
pub open spec fn is_digit(c: char) -> bool {
    '0' <= c && c <= '9'
}

/// The value of a decimal digit.
pub open spec fn digit_value(c: char) -> int {
    c as int - '0' as int
}

/// Whether the marker digit `c` names a capture group that took part in the
/// match.
pub open spec fn names_group(c: char, groups: Seq<Option<Seq<char>>>) -> bool {
    is_digit(c) && digit_value(c) < groups.len() && groups[digit_value(c)] is Some
}

/// `t` with each marker `$d` whose group took part in the match replaced by
/// that group's text, with the case of `word` applied to it. Other characters,
/// including markers of groups that did not take part, are kept.
pub open spec fn expand(t: Seq<char>, word: Seq<char>, groups: Seq<Option<Seq<char>>>) -> Seq<char>
    decreases t.len(),
{
    if t.len() == 0 {
        seq![]
    } else if t.len() >= 2 && t[0] == '$' && names_group(t[1], groups) {
        restore_case_spec(word, groups[digit_value(t[1])]->Some_0) + expand(
            t.subrange(2, t.len() as int),
            word,
            groups,
        )
    } else {
        seq![t[0]] + expand(t.drop_first(), word, groups)
    }
}

/// The texts of capture groups, as character sequences.
pub open spec fn groups_view(groups: Seq<Option<String>>) -> Seq<Option<Seq<char>>> {
    Seq::new(
        groups.len(),
        |i: int|
            match groups[i] {
                Some(g) => Some(g@),
                None => None,
            },
    )
}

/// Replaces the markers of `template` by the capture groups they name.
pub fn expand_template(template: &str, word: &str, groups: &Vec<Option<String>>) -> (r: String)
    ensures
        r@ == expand(template@, word@, groups_view(groups@)),
{
    let gs = Ghost(groups_view(groups@));
    let t = chars_of(template);
    let n = t.len();
    let mut out = String::new();
    let mut i: usize = 0;
    assert(out@ + expand(template@.subrange(0, n as int), word@, gs@) =~= expand(
        template@,
        word@,
        gs@,
    )) by {
        assert(template@.subrange(0, n as int) =~= template@);
    }
    while i < n
        invariant
            n == t@.len(),
            t@ == template@,
            i <= n,
            gs@ == groups_view(groups@),
            out@ + expand(template@.subrange(i as int, n as int), word@, gs@) == expand(
                template@,
                word@,
                gs@,
            ),
        decreases n - i,
    {
        let rest = Ghost(template@.subrange(i as int, n as int));
        let c = t[i];
        if c == '$' && i + 1 < n && '0' <= t[i + 1] && t[i + 1] <= '9' {
            let d = (t[i + 1] as u32 - '0' as u32) as usize;
            assert(d as int == digit_value(t@[i + 1]));
            if d < groups.len() {
                match &groups[d] {
                    Some(g) => {
                        assert(rest@.subrange(2, rest@.len() as int) =~= template@.subrange(
                            i + 2,
                            n as int,
                        ));
                        let piece = restore_case(word, g.as_str());
                        out.append(piece.as_str());
                        i = i + 2;
                        continue;
                    },
                    None => {},
                }
            }
        }
        assert(rest@.drop_first() =~= template@.subrange(i + 1, n as int));
        push_char(&mut out, c);
        i = i + 1;
    }
    assert(template@.subrange(n as int, n as int) =~= Seq::<char>::empty());
    out
}

} // verus!
