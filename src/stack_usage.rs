//! Estimating how much of a stack has been used.
//!
//! Stacks are zero-filled at boot. Scanning upward from a stack's low end, a
//! run of zero words is taken to be memory the stack never reached; the
//! estimate cannot tell those apart from words that were written and later
//! set back to zero.

use vstd::prelude::*;

verus! {

/// The number of zero words at the start of `words`, before the first
/// non-zero one.
pub open spec fn leading_zero_words(words: Seq<u32>) -> int
    decreases words.len(),
{
    if words.len() == 0 || words[0] != 0 {
        0
    } else {
        1 + leading_zero_words(words.drop_first())
    }
}

/// Counts the zero words at the low end of a stack, stopping at the first
/// non-zero word.
pub fn unused_words(words: &[u32]) -> (r: usize)
    ensures
        r == leading_zero_words(words@),
        r <= words@.len(),
        forall|i: int| 0 <= i < r ==> words@[i] == 0,
        r < words@.len() ==> words@[r as int] != 0,
{
    let mut i: usize = 0;
    assert(words@.subrange(0, words@.len() as int) =~= words@);
    while i < words.len() && words[i] == 0
        invariant
            i <= words@.len(),
            forall|j: int| 0 <= j < i ==> words@[j] == 0,
            leading_zero_words(words@) == i + leading_zero_words(words@.subrange(i as int, words@.len() as int)),
        decreases words.len() - i,
    {
        proof {
            let rest = words@.subrange(i as int, words@.len() as int);
            assert(rest.drop_first() =~= words@.subrange(i + 1, words@.len() as int));
        }
        i = i + 1;
    }
    proof {
        let rest = words@.subrange(i as int, words@.len() as int);
        if i == words@.len() {
            assert(rest.len() == 0);
        } else {
            assert(rest[0] == words@[i as int]);
            assert(rest.len() > 0);
        }
    }
    i
}

/// Reports stack usage as a count of bytes: `(total, used)`, where the
/// stack's words are given from its low end up.
///
/// The unused part is the run of zero words at the low end; everything above
/// the first non-zero word counts as used.
pub fn stack_used_bytes(words: &[u32]) -> (r: (usize, usize))
    requires
        words@.len() * 4 <= usize::MAX,
    ensures
        r.0 == words@.len() * 4,
        r.1 == (words@.len() - leading_zero_words(words@)) * 4,
{
    let size_words = words.len();
    let free_words = unused_words(words);
    let used_words = size_words - free_words;
    (size_words * 4, used_words * 4)
}

/// The estimate never under-reports: if the word at index `k` (counted from
/// the low end) is non-zero, the used bytes reach at least from the high end
/// of the stack down to that word.
pub proof fn lemma_usage_covers_written(words: Seq<u32>, k: int)
    requires
        0 <= k < words.len(),
        words[k] != 0,
    ensures
        (words.len() - leading_zero_words(words)) * 4 >= (words.len() - k) * 4,
    decreases words.len(),
{
    if k > 0 && words[0] == 0 {
        lemma_usage_covers_written(words.drop_first(), k - 1);
    }
}

} // verus!
