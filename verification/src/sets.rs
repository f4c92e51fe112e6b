//! Counting in finite sets of 16-bit numbers.

use vstd::prelude::*;

verus! {

/// A finite set of numbers between 1 and `max` has at most `max` elements.
pub proof fn lemma_count_within(numbers: Set<u16>, max: u16)
    requires
        numbers.finite(),
        forall|n: u16| numbers.contains(n) ==> 1 <= n <= max,
    ensures
        numbers.len() <= max,
    decreases max,
{
    if max == 0 {
        assert(numbers =~= Set::<u16>::empty());
    } else {
        let fewer = numbers.remove(max);
        lemma_count_within(fewer, (max - 1) as u16);
        if numbers.contains(max) {
            assert(numbers =~= fewer.insert(max));
        } else {
            assert(numbers =~= fewer);
        }
    }
}

} // verus!
