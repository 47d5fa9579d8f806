//! Decimal rendering of a signed count.

use vstd::prelude::*;
use crate::text::push_char;

verus! {

/// The character of a decimal digit `d` (0 to 9).
pub open spec fn digit_char(d: nat) -> char {
    ('0' as u32 + d) as char
}

/// The decimal digits of `n`, most significant first, without leading zeros
/// (`0` is the single digit `0`).
pub open spec fn digits(n: nat) -> Seq<char>
    decreases n,
{
    if n < 10 {
        seq![digit_char(n)]
    } else {
        digits(n / 10).push(digit_char(n % 10))
    }
}

/// How `n` is written in decimal: a `-` in front of a negative number.
pub open spec fn decimal(n: int) -> Seq<char> {
    if n < 0 {
        seq!['-'] + digits((-n) as nat)
    } else {
        digits(n as nat)
    }
}

/// Writes `n` in decimal.
pub fn decimal_string(n: isize) -> (r: String)
    ensures
        r@ == decimal(n as int),
{
    let negative = n < 0;
    let wide = n as i128;
    let mut rest: u128 = if negative { (0 - wide) as u128 } else { wide as u128 };
    let ghost magnitude: nat = rest as nat;
    let mut tail: Vec<char> = Vec::new();
    assert(digits(magnitude) =~= digits(rest as nat) + tail@);
    loop
        invariant_except_break
            digits(magnitude) == digits(rest as nat) + tail@,
        ensures
            digits(magnitude) == tail@,
        decreases rest,
    {
        let d = (rest % 10) as u8;
        let c = (48u8 + d) as char;
        assert(c == digit_char((rest % 10) as nat));
        let ghost old_tail = tail@;
        tail.insert(0, c);
        assert(tail@ =~= seq![c] + old_tail);
        if rest < 10 {
            assert(digits(magnitude) =~= tail@);
            break;
        }
        assert(digits(rest as nat) == digits((rest / 10) as nat).push(c));
        assert(digits(rest as nat) + old_tail =~= digits((rest / 10) as nat) + tail@);
        rest = rest / 10;
    }
    let mut out = String::new();
    if negative {
        push_char(&mut out, '-');
    }
    let ghost prefix = out@;
    let mut i: usize = 0;
    while i < tail.len()
        invariant
            i <= tail@.len(),
            out@ == prefix + tail@.subrange(0, i as int),
        decreases tail@.len() - i,
    {
        push_char(&mut out, tail[i]);
        i = i + 1;
    }
    assert(tail@.subrange(0, tail@.len() as int) =~= tail@);
    assert(out@ =~= decimal(n as int));
    out
}

} // verus!
