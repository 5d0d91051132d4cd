//! First-match search in a sequence, the one lookup rule of this crate:
//! wherever several entries answer to a key, the earliest one is meant.

use vstd::prelude::*;

verus! {

/// What a borrowed result stands for: the value behind the reference.
pub open spec fn owned<T>(found: Option<&T>) -> Option<T> {
    match found {
        Some(entry) => Some(*entry),
        None => None,
    }
}

/// The least index at or after `from` whose entry satisfies `wanted`, or the
/// length of the sequence when there is none.
pub open spec fn first_from<T>(s: Seq<T>, wanted: spec_fn(T) -> bool, from: int) -> int
    decreases s.len() - from,
{
    if from < 0 || from >= s.len() {
        s.len() as int
    } else if wanted(s[from]) {
        from
    } else {
        first_from(s, wanted, from + 1)
    }
}

/// The least index whose entry satisfies `wanted`, if any entry does.
pub open spec fn first_index<T>(s: Seq<T>, wanted: spec_fn(T) -> bool) -> Option<int> {
    let i = first_from(s, wanted, 0);
    if i < s.len() {
        Some(i)
    } else {
        None
    }
}

/// What `first_from` finds: an entry that satisfies the predicate and has no
/// such entry between `from` and itself, or the end of the sequence when no
/// entry from `from` on satisfies it.
pub proof fn lemma_first_from<T>(s: Seq<T>, wanted: spec_fn(T) -> bool, from: int)
    requires
        0 <= from <= s.len(),
    ensures
        from <= first_from(s, wanted, from) <= s.len(),
        first_from(s, wanted, from) < s.len() ==> wanted(s[first_from(s, wanted, from)]),
        forall|j: int| from <= j < first_from(s, wanted, from) ==> !wanted(#[trigger] s[j]),
    decreases s.len() - from,
{
    if from < s.len() && !wanted(s[from]) {
        lemma_first_from(s, wanted, from + 1);
    }
}

/// `first_index` finds `i` exactly when `i` is the earliest entry that
/// satisfies the predicate.
pub proof fn lemma_first_index<T>(s: Seq<T>, wanted: spec_fn(T) -> bool, i: int)
    requires
        0 <= i < s.len(),
        wanted(s[i]),
        forall|j: int| 0 <= j < i ==> !wanted(#[trigger] s[j]),
    ensures
        first_index(s, wanted) == Some(i),
{
    lemma_first_from(s, wanted, 0);
}

/// `first_index` finds nothing exactly when no entry satisfies the predicate.
pub proof fn lemma_first_index_none<T>(s: Seq<T>, wanted: spec_fn(T) -> bool)
    ensures
        first_index(s, wanted) is None <==> forall|j: int|
            0 <= j < s.len() ==> !wanted(#[trigger] s[j]),
        first_index(s, wanted) matches Some(i) ==> 0 <= i < s.len() && wanted(s[i]),
{
    lemma_first_from(s, wanted, 0);
}

} // verus!
