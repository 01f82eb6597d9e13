//! Subsequence relation on sequences.
//!
//! `is_subseq(a, b)` holds when `a` can be obtained from `b` by deleting
//! items while keeping the relative order of the rest. The shaping
//! combinators state their ordering guarantee with it: whatever they emit is
//! a subsequence of what the upstream sequence yielded.

use vstd::prelude::*;

verus! {

/// `a` is a subsequence of `b`: `a`'s items occur in `b` in the same
/// relative order (occurrence-wise, so duplicates must be matched one for
/// one).
pub open spec fn is_subseq<T>(a: Seq<T>, b: Seq<T>) -> bool
    decreases b.len(),
{
    if a.len() == 0 {
        true
    } else if b.len() == 0 {
        false
    } else if a.last() == b.last() {
        is_subseq(a.drop_last(), b.drop_last())
    } else {
        is_subseq(a, b.drop_last())
    }
}

/// Deleting the last item of a subsequence keeps it a subsequence.
pub proof fn lemma_subseq_drop_left<T>(a: Seq<T>, b: Seq<T>)
    requires
        is_subseq(a, b),
        a.len() > 0,
    ensures
        is_subseq(a.drop_last(), b),
    decreases b.len(),
{
    if a.last() == b.last() {
        if a.drop_last().len() > 0 && a.drop_last().last() == b.last() {
            lemma_subseq_drop_left(a.drop_last(), b.drop_last());
        }
    } else {
        lemma_subseq_drop_left(a, b.drop_last());
        if a.drop_last().len() > 0 && a.drop_last().last() == b.last() {
            lemma_subseq_drop_left(a.drop_last(), b.drop_last());
        }
    }
}

/// A subsequence of `b` is still a subsequence after `b` grows at the end.
pub proof fn lemma_subseq_grow<T>(a: Seq<T>, b: Seq<T>, x: T)
    requires
        is_subseq(a, b),
    ensures
        is_subseq(a, b.push(x)),
{
    assert(b.push(x).drop_last() =~= b);
    if a.len() > 0 && a.last() == x {
        lemma_subseq_drop_left(a, b);
    }
}

/// Pushing the same item onto both sides preserves the relation.
pub proof fn lemma_subseq_push_both<T>(a: Seq<T>, b: Seq<T>, x: T)
    requires
        is_subseq(a, b),
    ensures
        is_subseq(a.push(x), b.push(x)),
{
    assert(a.push(x).last() == b.push(x).last());
    assert(a.push(x).drop_last() =~= a);
    assert(b.push(x).drop_last() =~= b);
}

/// A subsequence of a prefix of `c` is a subsequence of `c`.
pub proof fn lemma_subseq_of_prefix<T>(a: Seq<T>, b: Seq<T>, c: Seq<T>)
    requires
        is_subseq(a, b),
        b.len() <= c.len(),
        b == c.take(b.len() as int),
    ensures
        is_subseq(a, c),
    decreases c.len(),
{
    if b.len() == c.len() {
        assert(c.take(b.len() as int) =~= c);
    } else {
        assert(c.drop_last().take(b.len() as int) =~= c.take(b.len() as int));
        lemma_subseq_of_prefix(a, b, c.drop_last());
        lemma_subseq_grow(a, c.drop_last(), c.last());
        assert(c.drop_last().push(c.last()) =~= c);
    }
}

} // verus!
