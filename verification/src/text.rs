//! Character-level helpers: prefix tests, the last segment of a path, and
//! decimal rendering, each with its mathematical model.

use vstd::prelude::*;
use vstd::std_specs::iter::IteratorSpec;

verus! {

/// `String::push` of the standard library: appends one character to the end
/// of the string and changes nothing else.
pub assume_specification[ String::push ](s: &mut String, c: char)
    ensures
        final(s)@ == old(s)@.push(c),
;

/// The characters of `s` behind its last `'/'`, or all of `s` where it holds
/// no `'/'`.
pub open spec fn trailing_segment(s: Seq<char>) -> Seq<char>
    decreases s.len(),
{
    if s.len() == 0 {
        s
    } else if s.last() == '/' {
        Seq::empty()
    } else {
        trailing_segment(s.drop_last()).push(s.last())
    }
}

/// What makes `seg` the trailing segment of `s`: it is a suffix of `s` free
/// of `'/'`, and it cannot be extended to the left.
pub open spec fn is_trailing_segment(s: Seq<char>, seg: Seq<char>) -> bool {
    &&& seg.len() <= s.len()
    &&& seg == s.subrange(s.len() - seg.len(), s.len() as int)
    &&& forall|i: int| 0 <= i < seg.len() ==> seg[i] != '/'
    &&& seg.len() < s.len() ==> s[s.len() - seg.len() - 1] == '/'
}

/// `trailing_segment` meets its characterisation.
pub proof fn lemma_trailing_segment(s: Seq<char>)
    ensures
        is_trailing_segment(s, trailing_segment(s)),
    decreases s.len(),
{
    if s.len() == 0 {
        assert(s =~= s.subrange(0, 0));
    } else if s.last() == '/' {
        assert(Seq::<char>::empty() =~= s.subrange(s.len() as int, s.len() as int));
    } else {
        let front = s.drop_last();
        lemma_trailing_segment(front);
        let inner = trailing_segment(front);
        let seg = trailing_segment(s);
        assert(seg == s.subrange(s.len() - seg.len(), s.len() as int)) by {
            assert forall|i: int| 0 <= i < seg.len() implies seg[i] == s[s.len() - seg.len() + i] by {
                if i < inner.len() {
                    assert(inner[i] == front.subrange(front.len() - inner.len(), front.len() as int)[i]);
                }
            }
        }
        if seg.len() < s.len() {
            assert(inner.len() < front.len());
            assert(s[s.len() - seg.len() - 1] == front[front.len() - inner.len() - 1]);
        }
    }
}

/// Only one sequence is the trailing segment of `s`.
pub proof fn lemma_trailing_segment_unique(s: Seq<char>, a: Seq<char>, b: Seq<char>)
    requires
        is_trailing_segment(s, a),
        is_trailing_segment(s, b),
    ensures
        a == b,
{
    if a.len() < b.len() {
        let k = b.len() - a.len() - 1;
        assert(b[k] == s[s.len() - b.len() + k]);
        assert(false);
    }
    if b.len() < a.len() {
        let k = a.len() - b.len() - 1;
        assert(a[k] == s[s.len() - a.len() + k]);
        assert(false);
    }
    assert(a =~= b);
}

/// The part of `s` behind its last `'/'`.
pub fn last_segment(s: &str) -> (seg: String)
    ensures
        seg@ == trailing_segment(s@),
{
    let mut seg = String::new();
    for c in it: s.chars()
        invariant
            it.seq() == s@,
            seg@ == trailing_segment(s@.take(it.index() as int)),
    {
        proof {
            let k = it.index() as int;
            assert(s@.take(k + 1).drop_last() == s@.take(k));
        }
        if c == '/' {
            seg = String::new();
        } else {
            seg.push(c);
        }
    }
    proof {
        assert(s@.take(s@.len() as int) == s@);
    }
    seg
}

/// Whether `s` begins with `prefix`.
pub fn has_prefix(s: &str, prefix: &str) -> (b: bool)
    ensures
        b == prefix@.is_prefix_of(s@),
{
    let mut rest = s.chars();
    for c in it: prefix.chars()
        invariant
            it.seq() == prefix@,
            it.index() <= s@.len(),
            rest.remaining() == s@.skip(it.index() as int),
            s@.take(it.index() as int) == prefix@.take(it.index() as int),
    {
        let ghost k = it.index() as int;
        match rest.next() {
            None => {
                return false;
            },
            Some(d) => {
                if d != c {
                    proof {
                        assert(s@[k] != prefix@[k]);
                        if prefix@.is_prefix_of(s@) {
                            assert(s@.subrange(0, prefix@.len() as int)[k] == prefix@[k]);
                        }
                    }
                    return false;
                }
                proof {
                    assert(s@.skip(k).drop_first() == s@.skip(k + 1));
                    assert(s@.take(k + 1) == s@.take(k).push(s@[k]));
                    assert(prefix@.take(k + 1) == prefix@.take(k).push(prefix@[k]));
                }
            },
        }
    }
    proof {
        let n = prefix@.len() as int;
        assert(prefix@.take(n) == prefix@);
        assert(s@.take(n) == s@.subrange(0, n));
    }
    true
}

/// The character that stands for the digit `d`.
pub open spec fn digit(d: nat) -> char
    recommends
        d < 10,
{
    (0x30 + d) as char
}

/// The decimal rendering of `n`, most significant digit first, without
/// leading zeros.
pub open spec fn decimal(n: nat) -> Seq<char>
    decreases n,
{
    if n < 10 {
        seq![digit(n)]
    } else {
        decimal(n / 10).push(digit(n % 10))
    }
}

/// A decimal rendering is never empty, holds digits only, and has a single
/// character exactly for the numbers below ten.
pub proof fn lemma_decimal_shape(n: nat)
    ensures
        decimal(n).len() >= 1,
        decimal(n).len() == 1 <==> n < 10,
        forall|i: int| 0 <= i < decimal(n).len() ==> '0' <= #[trigger] decimal(n)[i] <= '9',
    decreases n,
{
    if n >= 10 {
        lemma_decimal_shape(n / 10);
    }
}

/// Different numbers have different decimal renderings.
pub proof fn lemma_decimal_injective(a: nat, b: nat)
    requires
        decimal(a) == decimal(b),
    ensures
        a == b,
    decreases a,
{
    lemma_decimal_shape(a);
    lemma_decimal_shape(b);
    if a < 10 {
        assert(decimal(a)[0] == digit(a));
        assert(decimal(b)[0] == digit(b));
        assert(digit(a) as int == 0x30 + a);
        assert(digit(b) as int == 0x30 + b);
    } else {
        assert(decimal(a).last() == digit(a % 10));
        assert(decimal(b).last() == digit(b % 10));
        assert(digit(a % 10) as int == 0x30 + a % 10);
        assert(digit(b % 10) as int == 0x30 + b % 10);
        assert(decimal(a).drop_last() == decimal(a / 10));
        assert(decimal(b).drop_last() == decimal(b / 10));
        lemma_decimal_injective(a / 10, b / 10);
    }
}

/// Appends the decimal rendering of `n` to `out`.
pub fn push_decimal(out: &mut String, n: u128)
    ensures
        final(out)@ == old(out)@ + decimal(n as nat),
    decreases n,
{
    if n >= 10 {
        push_decimal(out, n / 10);
    }
    let d: u8 = (n % 10) as u8;
    out.push((0x30u8 + d) as char);
}

} // verus!
