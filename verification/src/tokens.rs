//! The token estimator: a line's cost is the count of its space-separated
//! segments, one more than the count of its space characters. An intentional
//! low-fidelity proxy for a real tokenizer.

use vstd::prelude::*;

verus! {

/// Number of occurrences of `c` in `s`.
pub open spec fn count_char(s: Seq<char>, c: char) -> nat
    decreases s.len(),
{
    if s.len() == 0 {
        0
    } else {
        count_char(s.drop_last(), c) + (if s.last() == c {
            1nat
        } else {
            0nat
        })
    }
}

/// Estimated token cost of one line of text.
pub open spec fn token_cost(s: Seq<char>) -> nat {
    count_char(s, ' ') + 1
}

/// What an unsigned running total holds of an exact mathematical total:
/// equal until the machine word is exhausted, then pinned at its maximum.
pub open spec fn sat(n: int) -> int {
    if n > usize::MAX {
        usize::MAX as int
    } else {
        n
    }
}

/// Counting over a concatenation splits into counting over the parts.
pub proof fn lemma_count_char_concat(a: Seq<char>, b: Seq<char>, c: char)
    ensures
        count_char(a + b, c) == count_char(a, c) + count_char(b, c),
    decreases b.len(),
{
    if b.len() == 0 {
        assert(a + b =~= a);
    } else {
        assert((a + b).drop_last() =~= a + b.drop_last());
        lemma_count_char_concat(a, b.drop_last(), c);
    }
}

/// Addition that pins at the largest `usize` instead of wrapping.
pub fn sat_add(a: usize, b: usize) -> (r: usize)
    ensures
        r as int == sat(a + b),
{
    if a > usize::MAX - b {
        usize::MAX
    } else {
        a + b
    }
}

/// Saturation distributes over addition of already-saturated parts.
pub proof fn lemma_sat_add(x: int, y: int)
    requires
        x >= 0,
        y >= 0,
    ensures
        sat(sat(x) + sat(y)) == sat(x + y),
{
}

/// Count of space characters in `s`, pinned at the largest `usize`.
pub fn count_spaces(s: &str) -> (r: usize)
    ensures
        r as int == sat(count_char(s@, ' ') as int),
{
    let n = s.unicode_len();
    let mut i: usize = 0;
    let mut cnt: usize = 0;
    while i < n
        invariant
            i <= n,
            n == s@.len(),
            cnt <= i,
            cnt as int == count_char(s@.take(i as int), ' '),
        decreases n - i,
    {
        proof {
            assert(s@.take(i + 1 as int).drop_last() =~= s@.take(i as int));
            assert(s@.take(i + 1 as int).last() == s@[i as int]);
        }
        if s.get_char(i) == ' ' {
            cnt = cnt + 1;
        }
        i = i + 1;
    }
    proof {
        assert(s@.take(n as int) =~= s@);
    }
    cnt
}

/// Estimated token cost of `s`, pinned at the largest `usize`.
pub fn estimate_tokens(s: &str) -> (r: usize)
    ensures
        r as int == sat(token_cost(s@) as int),
{
    let spaces = count_spaces(s);
    sat_add(spaces, 1)
}

} // verus!
