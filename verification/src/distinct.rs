//! Sequences with repeats removed.

use vstd::prelude::*;

verus! {

/// `s` with every element after its first occurrence removed, in order.
pub open spec fn first_occurrences<A>(s: Seq<A>) -> Seq<A>
    decreases s.len(),
{
    if s.len() == 0 {
        Seq::empty()
    } else {
        let rest = first_occurrences(s.drop_last());
        if rest.contains(s.last()) {
            rest
        } else {
            rest.push(s.last())
        }
    }
}

/// Removing repeats keeps exactly the elements that were there, each once.
pub proof fn lemma_first_occurrences<A>(s: Seq<A>)
    ensures
        first_occurrences(s).no_duplicates(),
        forall|x: A| first_occurrences(s).contains(x) <==> s.contains(x),
        first_occurrences(s).len() <= s.len(),
    decreases s.len(),
{
    if s.len() > 0 {
        let init = s.drop_last();
        lemma_first_occurrences(init);
        let rest = first_occurrences(init);
        assert forall|x: A| first_occurrences(s).contains(x) <==> s.contains(x) by {
            assert(s =~= init.push(s.last()));
            if x == s.last() {
                assert(s[s.len() - 1] == x);
                if !rest.contains(x) {
                    assert(rest.push(x)[rest.len() as int] == x);
                }
            } else {
                if s.contains(x) {
                    let k = choose|k: int| 0 <= k < s.len() && s[k] == x;
                    assert(init[k] == x);
                }
                if init.contains(x) {
                    let k = choose|k: int| 0 <= k < init.len() && init[k] == x;
                    assert(s[k] == x);
                }
                if !rest.contains(s.last()) {
                    let next = rest.push(s.last());
                    if next.contains(x) {
                        let k = choose|k: int| 0 <= k < next.len() && next[k] == x;
                        assert(rest[k] == x);
                    }
                    if rest.contains(x) {
                        let k = choose|k: int| 0 <= k < rest.len() && rest[k] == x;
                        assert(next[k] == x);
                    }
                }
            }
        }
        if !rest.contains(s.last()) {
            let next = rest.push(s.last());
            assert forall|i: int, j: int| 0 <= i < j < next.len() implies next[i] != next[j] by {
                if j == rest.len() {
                    assert(rest.contains(next[i]));
                }
            }
        }
    }
}

} // verus!
