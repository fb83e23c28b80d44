//! Sequences seen through machine indices.

use vstd::prelude::*;

verus! {

/// The first `n` items of `s`.
pub open spec fn prefix<T>(s: Seq<T>, n: usize) -> Seq<T> {
    s.subrange(0, n as int)
}

/// The item of `s` at the machine index `i`.
pub open spec fn item<T>(s: Seq<T>, i: usize) -> T {
    s[i as int]
}

/// An empty prefix holds nothing, and the prefix of full length is the whole.
pub proof fn lemma_prefix_ends<T>(s: Seq<T>)
    ensures
        prefix(s, 0) == Seq::<T>::empty(),
        s.len() <= usize::MAX ==> prefix(s, s.len() as usize) == s,
{
    assert(prefix(s, 0) =~= Seq::<T>::empty());
    if s.len() <= usize::MAX {
        assert(prefix(s, s.len() as usize) =~= s);
    }
}

/// A prefix grows by the item that follows it.
pub proof fn lemma_prefix_step<T>(s: Seq<T>, n: usize)
    requires
        n < s.len(),
        n < usize::MAX,
    ensures
        prefix(s, (n + 1) as usize) == prefix(s, n).push(item(s, n)),
{
    assert(prefix(s, (n + 1) as usize) =~= prefix(s, n).push(item(s, n)));
}

} // verus!
