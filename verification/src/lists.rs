//! Lists of ids: taking one id out, and what filtering does to a list that
//! grows at its end.

use crate::model::{other_than, without};
use vstd::prelude::*;

verus! {

/// Filtering a list with one more item at its end keeps the item or not,
/// behind what it keeps of the list.
pub proof fn lemma_filter_push<A>(s: Seq<A>, x: A, p: spec_fn(A) -> bool)
    ensures
        s.push(x).filter(p) == if p(x) {
            s.filter(p).push(x)
        } else {
            s.filter(p)
        },
{
    reveal(Seq::filter);
    assert(s.push(x).drop_last() =~= s);
}

/// A list that holds nothing twice still does with one more item that it
/// did not hold.
pub proof fn lemma_push_no_duplicates<A>(s: Seq<A>, x: A)
    requires
        s.no_duplicates(),
        !s.contains(x),
    ensures
        s.push(x).no_duplicates(),
{
    let t = s.push(x);
    assert forall|i: int, j: int| 0 <= i < t.len() && 0 <= j < t.len() && i != j implies t[i]
        != t[j] by {
        if i < s.len() {
            assert(s.contains(s[i]));
        }
        if j < s.len() {
            assert(s.contains(s[j]));
        }
    }
}

/// Filtering the empty list gives the empty list.
pub proof fn lemma_filter_empty<A>(p: spec_fn(A) -> bool)
    ensures
        Seq::<A>::empty().filter(p) == Seq::<A>::empty(),
{
    reveal(Seq::filter);
}

/// Filtering a list that holds nothing twice gives such a list.
pub proof fn lemma_filter_no_duplicates(s: Seq<u64>, p: spec_fn(u64) -> bool)
    requires
        s.no_duplicates(),
    ensures
        s.filter(p).no_duplicates(),
    decreases s.len(),
{
    reveal(Seq::filter);
    if s.len() > 0 {
        let front = s.drop_last();
        let kept = front.filter(p);
        lemma_filter_no_duplicates(front, p);
        if p(s.last()) {
            assert forall|i: int, j: int|
                0 <= i < kept.push(s.last()).len() && 0 <= j < kept.push(s.last()).len() && i
                    != j implies kept.push(s.last())[i] != kept.push(s.last())[j] by {
                if i < kept.len() && j == kept.len() {
                    lemma_kept_is_earlier(s, p, i);
                }
                if j < kept.len() && i == kept.len() {
                    lemma_kept_is_earlier(s, p, j);
                }
            }
        }
    }
}

/// What is kept of all but the last item differs from the last item, where
/// the list holds nothing twice.
proof fn lemma_kept_is_earlier(s: Seq<u64>, p: spec_fn(u64) -> bool, i: int)
    requires
        s.no_duplicates(),
        s.len() > 0,
        0 <= i < s.drop_last().filter(p).len(),
    ensures
        s.drop_last().filter(p)[i] != s.last(),
{
    let front = s.drop_last();
    let kept = front.filter(p);
    assert(kept.contains(kept[i]));
    front.lemma_filter_contains_rev(p, kept[i]);
    let j = choose|j: int| 0 <= j < front.len() && front[j] == kept[i];
    assert(s[j] == kept[i]);
}

/// A list without one id: it holds what the list held, but for the id, and
/// nothing twice where the list held nothing twice.
pub proof fn lemma_without(list: Seq<u64>, id: u64)
    requires
        list.no_duplicates(),
    ensures
        without(list, id).no_duplicates(),
        forall|x: u64| #[trigger] without(list, id).contains(x) <==> list.contains(x) && x != id,
{
    let p = other_than(id);
    let kept = list.filter(p);
    lemma_filter_no_duplicates(list, p);
    list.filter_lemma(p);
    assert forall|x: u64| #[trigger] kept.contains(x) implies list.contains(x) && x != id by {
        list.lemma_filter_contains_rev(p, x);
        let i = choose|i: int| 0 <= i < kept.len() && kept[i] == x;
        assert(p(kept[i]));
    }
    assert forall|x: u64| list.contains(x) && x != id implies #[trigger] kept.contains(x) by {
        let i = choose|i: int| 0 <= i < list.len() && list[i] == x;
        assert(p(list[i]));
    }
}

/// The list without an id: the other ids, in the order they had.
pub fn remove_id(list: &Vec<u64>, id: u64) -> (r: Vec<u64>)
    ensures
        r@ == without(list@, id),
{
    let mut r: Vec<u64> = Vec::with_capacity(list.len());
    let mut i: usize = 0;
    proof {
        lemma_filter_empty(other_than(id));
        assert(list@.take(0) =~= Seq::<u64>::empty());
    }
    while i < list.len()
        invariant
            i <= list@.len(),
            r@ == without(list@.take(i as int), id),
        decreases list@.len() - i,
    {
        proof {
            lemma_filter_push(list@.take(i as int), list@[i as int], other_than(id));
            assert(list@.take(i + 1) =~= list@.take(i as int).push(list@[i as int]));
        }
        if list[i] != id {
            r.push(list[i]);
        }
        i += 1;
    }
    assert(list@.take(list@.len() as int) =~= list@);
    r
}

/// A copy of a list of ids.
pub fn copy_ids(list: &Vec<u64>) -> (r: Vec<u64>)
    ensures
        r@ == list@,
{
    let mut r: Vec<u64> = Vec::with_capacity(list.len());
    let mut i: usize = 0;
    while i < list.len()
        invariant
            i <= list@.len(),
            r@ == list@.take(i as int),
        decreases list@.len() - i,
    {
        r.push(list[i]);
        assert(list@.take(i + 1) =~= list@.take(i as int).push(list@[i as int]));
        i += 1;
    }
    assert(list@.take(list@.len() as int) =~= list@);
    r
}

} // verus!
