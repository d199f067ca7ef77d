//! Counting in sequences of actions and events, as used in statements about
//! whole runs.

use vstd::prelude::*;

verus! {

/// How many elements of `s` satisfy `p`.
pub open spec fn count<A>(s: Seq<A>, p: spec_fn(A) -> bool) -> nat
    decreases s.len(),
{
    if s.len() == 0 {
        0
    } else {
        count(s.drop_last(), p) + if p(s.last()) {
            1nat
        } else {
            0nat
        }
    }
}

/// Appending one element raises the count by one or leaves it.
pub proof fn lemma_count_push<A>(s: Seq<A>, a: A, p: spec_fn(A) -> bool)
    ensures
        count(s.push(a), p) == count(s, p) + if p(a) {
            1nat
        } else {
            0nat
        },
{
    assert(s.push(a).drop_last() == s);
}

/// The count is zero exactly if no element satisfies `p`.
pub proof fn lemma_count_zero<A>(s: Seq<A>, p: spec_fn(A) -> bool)
    ensures
        count(s, p) == 0 <==> forall|i: int| 0 <= i < s.len() ==> !p(#[trigger] s[i]),
    decreases s.len(),
{
    if s.len() > 0 {
        let front = s.drop_last();
        lemma_count_zero(front, p);
        if count(s, p) == 0 {
            assert forall|i: int| 0 <= i < s.len() implies !p(#[trigger] s[i]) by {
                if i < front.len() {
                    assert(front[i] == s[i]);
                }
            }
        } else {
            if p(s.last()) {
                assert(p(s[s.len() - 1]));
            } else {
                let i = choose|i: int| 0 <= i < front.len() && p(#[trigger] front[i]);
                assert(p(s[i]));
            }
        }
    }
}

/// What a sequence holds, it still holds after one more element, and it
/// holds that element.
pub proof fn lemma_contains_push<A>(s: Seq<A>, a: A, x: A)
    ensures
        s.push(a).contains(a),
        s.contains(x) ==> s.push(a).contains(x),
        s.push(a).contains(x) ==> s.contains(x) || x == a,
{
    assert(s.push(a)[s.len() as int] == a);
    if s.contains(x) {
        let i = choose|i: int| 0 <= i < s.len() && s[i] == x;
        assert(s.push(a)[i] == x);
    }
    if s.push(a).contains(x) {
        let i = choose|i: int| 0 <= i < s.push(a).len() && s.push(a)[i] == x;
        if i < s.len() {
            assert(s[i] == x);
        }
    }
}

} // verus!
