//! The first element of a sequence that meets a condition.

use vstd::prelude::*;

verus! {

/// The least position at or after `from` whose element meets `p`; the length
/// of `s` where no element from `from` on meets it.
pub open spec fn first_from<T>(s: Seq<T>, p: spec_fn(T) -> bool, from: int) -> int
    decreases s.len() - from,
{
    if from < 0 || from >= s.len() {
        s.len() as int
    } else if p(s[from]) {
        from
    } else {
        first_from(s, p, from + 1)
    }
}

/// The position of the first element of `s` that meets `p`; the length of
/// `s` where none does.
pub open spec fn first<T>(s: Seq<T>, p: spec_fn(T) -> bool) -> int {
    first_from(s, p, 0)
}

/// `first_from` names an element that meets `p`, unless it names the end, and
/// no element between `from` and that place meets `p`.
pub proof fn lemma_first_from<T>(s: Seq<T>, p: spec_fn(T) -> bool, from: int)
    requires
        0 <= from <= s.len(),
    ensures
        from <= first_from(s, p, from) <= s.len(),
        first_from(s, p, from) < s.len() ==> p(s[first_from(s, p, from)]),
        forall|k: int| from <= k < first_from(s, p, from) ==> !p(#[trigger] s[k]),
    decreases s.len() - from,
{
    if from < s.len() && !p(s[from]) {
        lemma_first_from(s, p, from + 1);
    }
}

/// A place is the one that `first_from` names if its element meets `p`, or it
/// is the end, and no element between `from` and it meets `p`.
pub proof fn lemma_first_from_is<T>(s: Seq<T>, p: spec_fn(T) -> bool, from: int, i: int)
    requires
        0 <= from <= i <= s.len(),
        i < s.len() ==> p(s[i]),
        forall|k: int| from <= k < i ==> !p(#[trigger] s[k]),
    ensures
        first_from(s, p, from) == i,
    decreases i - from,
{
    if from < i {
        lemma_first_from_is(s, p, from + 1, i);
    }
}

/// Where a sequence starts with an element that meets `p`, that element is
/// the first; where it starts with one that does not, the search goes on
/// behind it.
pub proof fn lemma_first_after_head<T>(head: T, rest: Seq<T>, p: spec_fn(T) -> bool)
    ensures
        p(head) ==> first(seq![head] + rest, p) == 0,
        !p(head) ==> first(seq![head] + rest, p) == first(rest, p) + 1,
        !p(head) && first(rest, p) < rest.len() ==> (seq![head] + rest)[first(
            seq![head] + rest,
            p,
        )] == rest[first(rest, p)],
{
    let all = seq![head] + rest;
    if !p(head) {
        lemma_first_from(rest, p, 0);
        let k = first(rest, p);
        assert forall|j: int| 0 <= j < k + 1 implies !p(#[trigger] all[j]) by {
            if j > 0 {
                assert(all[j] == rest[j - 1]);
            }
        }
        lemma_first_from_is(all, p, 0, k + 1);
    }
}

} // verus!
