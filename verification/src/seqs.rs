//! Searching a sequence from the front.

use vstd::prelude::*;

verus! {

/// Index of the first element at or after `from` that satisfies `wanted`.
pub open spec fn first_at<T>(s: Seq<T>, wanted: spec_fn(T) -> bool, from: int) -> Option<int>
    decreases s.len() - from,
{
    if from < 0 || from >= s.len() {
        None
    } else if wanted(s[from]) {
        Some(from)
    } else {
        first_at(s, wanted, from + 1)
    }
}

/// The first element that satisfies `wanted`.
pub open spec fn first<T>(s: Seq<T>, wanted: spec_fn(T) -> bool) -> Option<T> {
    match first_at(s, wanted, 0) {
        Some(at) => Some(s[at]),
        None => None,
    }
}

/// Whether some element satisfies `wanted`.
pub open spec fn any<T>(s: Seq<T>, wanted: spec_fn(T) -> bool) -> bool {
    first_at(s, wanted, 0) is Some
}

/// `first_at` finds the least index at or after `from` that satisfies
/// `wanted`, and finds none only where there is none.
pub proof fn lemma_first_at<T>(s: Seq<T>, wanted: spec_fn(T) -> bool, from: int)
    requires
        0 <= from,
    ensures
        match first_at(s, wanted, from) {
            Some(at) => {
                &&& from <= at < s.len()
                &&& wanted(s[at])
                &&& forall|j: int| from <= j < at ==> !wanted(#[trigger] s[j])
            },
            None => forall|j: int| from <= j < s.len() ==> !wanted(#[trigger] s[j]),
        },
    decreases s.len() - from,
{
    if from < s.len() && !wanted(s[from]) {
        lemma_first_at(s, wanted, from + 1);
    }
}

/// Nothing is found in a sequence in which no element satisfies `wanted`,
/// and appending an element to it finds that element if it does.
pub proof fn lemma_first_at_push<T>(s: Seq<T>, wanted: spec_fn(T) -> bool, last: T, from: int)
    requires
        0 <= from,
    ensures
        first_at(s.push(last), wanted, from) == match first_at(s, wanted, from) {
            Some(at) => Some(at),
            None => if wanted(last) && from <= s.len() {
                Some(s.len() as int)
            } else {
                None
            },
        },
    decreases s.len() - from,
{
    let t = s.push(last);
    if from < s.len() {
        assert(t[from] == s[from]);
        if !wanted(s[from]) {
            lemma_first_at_push(s, wanted, last, from + 1);
        }
    } else if from == s.len() {
        assert(t[from] == last);
        assert(first_at(t, wanted, from + 1) is None);
    }
}

/// Where `first_at` finds nothing from the start, filtering keeps nothing,
/// and the other way round.
pub proof fn lemma_none_kept<T>(s: Seq<T>, wanted: spec_fn(T) -> bool)
    ensures
        first_at(s, wanted, 0) is None <==> s.filter(wanted).len() == 0,
    decreases s.len(),
{
    reveal(Seq::filter);
    lemma_first_at(s, wanted, 0);
    if s.len() > 0 {
        let front = s.drop_last();
        lemma_none_kept(front, wanted);
        lemma_first_at(front, wanted, 0);
        if first_at(s, wanted, 0) is None {
            assert forall|j: int| 0 <= j < front.len() implies !wanted(#[trigger] front[j]) by {
                assert(front[j] == s[j]);
            }
            assert(!wanted(s[s.len() - 1]));
        } else {
            let at = first_at(s, wanted, 0)->0;
            if at < front.len() {
                assert(front[at] == s[at]);
            }
        }
    }
}

/// Every element that filtering keeps satisfies the filter.
pub proof fn lemma_kept_wanted<T>(s: Seq<T>, wanted: spec_fn(T) -> bool)
    ensures
        forall|i: int| 0 <= i < s.filter(wanted).len() ==> wanted(#[trigger] s.filter(wanted)[i]),
    decreases s.len(),
{
    reveal(Seq::filter);
    if s.len() > 0 {
        lemma_kept_wanted(s.drop_last(), wanted);
    }
}

/// Filtering a sequence with one more element keeps that element if it
/// satisfies the filter, and changes nothing else.
pub proof fn lemma_kept_push<T>(s: Seq<T>, wanted: spec_fn(T) -> bool, last: T)
    ensures
        s.push(last).filter(wanted) == if wanted(last) {
            s.filter(wanted).push(last)
        } else {
            s.filter(wanted)
        },
{
    reveal(Seq::filter);
    assert(s.push(last).drop_last() =~= s);
}

/// Filtering first by one filter cannot leave more for a second one.
pub proof fn lemma_fewer_kept<T>(s: Seq<T>, first: spec_fn(T) -> bool, second: spec_fn(T) -> bool)
    ensures
        s.filter(first).filter(second).len() <= s.filter(second).len(),
    decreases s.len(),
{
    reveal(Seq::filter);
    if s.len() > 0 {
        let front = s.drop_last();
        lemma_fewer_kept(front, first, second);
        if first(s.last()) {
            lemma_kept_push(front.filter(first), second, s.last());
        }
    }
}

/// An index that satisfies `wanted` and has none before it that does is
/// the one that `first_at` finds.
pub proof fn lemma_first_at_is<T>(s: Seq<T>, wanted: spec_fn(T) -> bool, at: int)
    requires
        0 <= at < s.len(),
        wanted(s[at]),
        forall|j: int| 0 <= j < at ==> !wanted(#[trigger] s[j]),
    ensures
        first_at(s, wanted, 0) == Some(at),
{
    lemma_first_at(s, wanted, 0);
}

/// Taking away an element that does not satisfy `wanted` does not change
/// which element is the first that does.
pub proof fn lemma_first_without<T>(s: Seq<T>, wanted: spec_fn(T) -> bool, gone: int)
    requires
        0 <= gone < s.len(),
        !wanted(s[gone]),
    ensures
        first(s.remove(gone), wanted) == first(s, wanted),
{
    let rest = s.remove(gone);
    lemma_first_at(s, wanted, 0);
    lemma_first_at(rest, wanted, 0);
    match first_at(s, wanted, 0) {
        Some(at) => {
            let moved = if at < gone {
                at
            } else {
                at - 1
            };
            assert(rest[moved] == s[at]);
            assert forall|j: int| 0 <= j < moved implies !wanted(#[trigger] rest[j]) by {
                if j < gone {
                    assert(rest[j] == s[j]);
                } else {
                    assert(rest[j] == s[j + 1]);
                }
            }
            lemma_first_at_is(rest, wanted, moved);
        },
        None => {
            assert forall|j: int| 0 <= j < rest.len() implies !wanted(#[trigger] rest[j]) by {
                if j < gone {
                    assert(rest[j] == s[j]);
                } else {
                    assert(rest[j] == s[j + 1]);
                }
            }
        },
    }
}

} // verus!
