//! Facts about sequences without duplicates and the sets they stand for.
//!
//! The store keeps each table as a vector of rows and specifies it as the
//! set of those rows; these lemmas carry a push, a removal or a scan of the
//! vector over to the set.

use vstd::prelude::*;

verus! {

/// The views of the elements of `s`, in order.
pub open spec fn views<T: View>(s: Seq<T>) -> Seq<T::V> {
    Seq::new(s.len(), |i: int| s[i]@)
}

/// Pushing an element pushes its view.
pub proof fn lemma_views_push<T: View>(s: Seq<T>, x: T)
    ensures
        views(s.push(x)) == views(s).push(x@),
{
    assert(views(s.push(x)) =~= views(s).push(x@));
}

/// Removing an element removes its view.
pub proof fn lemma_views_remove<T: View>(s: Seq<T>, i: int)
    requires
        0 <= i < s.len(),
    ensures
        views(s.remove(i)) == views(s).remove(i),
{
    assert(views(s.remove(i)) =~= views(s).remove(i));
}

/// The empty sequence stands for the empty set.
pub proof fn lemma_set_of_empty<A>()
    ensures
        Seq::<A>::empty().to_set() == Set::<A>::empty(),
        Seq::<A>::empty().no_duplicates(),
{
    assert(Seq::<A>::empty().to_set() =~= Set::<A>::empty());
}

/// Pushing a new element inserts it into the set.
pub proof fn lemma_set_of_push<A>(s: Seq<A>, x: A)
    requires
        s.no_duplicates(),
        !s.contains(x),
    ensures
        s.push(x).no_duplicates(),
        s.push(x).to_set() == s.to_set().insert(x),
{
    let t = s.push(x);
    assert forall|a: A| t.to_set().contains(a) <==> s.to_set().insert(x).contains(a) by {
        if t.contains(a) {
            let j = choose|j: int| 0 <= j < t.len() && t[j] == a;
            if j < s.len() {
                assert(s[j] == a);
            }
        }
        if s.contains(a) {
            let j = choose|j: int| 0 <= j < s.len() && s[j] == a;
            assert(t[j] == a);
        }
        assert(t[s.len() as int] == x);
    }
    assert(t.to_set() =~= s.to_set().insert(x));
    assert forall|i: int, j: int| 0 <= i < t.len() && 0 <= j < t.len() && i != j implies t[i]
        != t[j] by {
        if i < s.len() && j < s.len() {
        } else if i < s.len() {
            assert(s[i] == t[i]);
        } else {
            assert(s[j] == t[j]);
        }
    }
}

/// What a sequence holds after a push.
pub proof fn lemma_contains_push<A>(s: Seq<A>, x: A)
    ensures
        forall|a: A| #[trigger] s.push(x).contains(a) <==> s.contains(a) || a == x,
{
    let t = s.push(x);
    assert forall|a: A| #[trigger] t.contains(a) <==> s.contains(a) || a == x by {
        if t.contains(a) {
            let j = choose|j: int| 0 <= j < t.len() && t[j] == a;
            if j < s.len() {
                assert(s[j] == a);
            }
        }
        if s.contains(a) {
            let j = choose|j: int| 0 <= j < s.len() && s[j] == a;
            assert(t[j] == a);
        }
        assert(t[s.len() as int] == x);
    }
}

/// Removing the element at `i` removes it from the set.
pub proof fn lemma_set_of_remove<A>(s: Seq<A>, i: int)
    requires
        s.no_duplicates(),
        0 <= i < s.len(),
    ensures
        s.remove(i).no_duplicates(),
        s.remove(i).to_set() == s.to_set().remove(s[i]),
{
    let t = s.remove(i);
    assert forall|a: A| t.to_set().contains(a) <==> s.to_set().remove(s[i]).contains(a) by {
        if t.contains(a) {
            let j = choose|j: int| 0 <= j < t.len() && t[j] == a;
            if j < i {
                assert(s[j] == a);
            } else {
                assert(s[j + 1] == a);
            }
        }
        if s.contains(a) && a != s[i] {
            let j = choose|j: int| 0 <= j < s.len() && s[j] == a;
            if j < i {
                assert(t[j] == a);
            } else {
                assert(t[j - 1] == a);
            }
        }
    }
    assert(t.to_set() =~= s.to_set().remove(s[i]));
}

/// One more element of a scan: the prefix grows by an element it did not hold.
pub proof fn lemma_set_of_prefix<A>(s: Seq<A>, i: int)
    requires
        s.no_duplicates(),
        0 <= i < s.len(),
    ensures
        s.take(i + 1).to_set() == s.take(i).to_set().insert(s[i]),
        !s.take(i).contains(s[i]),
        s.take(i).no_duplicates(),
        s.take(i).to_set().finite(),
{
    let p = s.take(i);
    assert(s.take(i + 1) =~= p.push(s[i]));
    if p.contains(s[i]) {
        let j = choose|j: int| 0 <= j < p.len() && p[j] == s[i];
        assert(s[j] == s[i]);
    }
    lemma_set_of_push(p, s[i]);
    vstd::seq_lib::seq_to_set_is_finite(p);
}

/// One more element of a scan: what the longer prefix holds.
pub proof fn lemma_prefix_step<A>(s: Seq<A>, i: int)
    requires
        0 <= i < s.len(),
    ensures
        forall|a: A| #[trigger] s.take(i + 1).contains(a) <==> s.take(i).contains(a) || a == s[i],
        s.no_duplicates() ==> !s.take(i).contains(s[i]),
{
    let p = s.take(i);
    let q = s.take(i + 1);
    assert(q =~= p.push(s[i]));
    assert forall|a: A| #[trigger] q.contains(a) <==> p.contains(a) || a == s[i] by {
        if q.contains(a) {
            let j = choose|j: int| 0 <= j < q.len() && q[j] == a;
            if j < i {
                assert(p[j] == a);
            }
        }
        if p.contains(a) {
            let j = choose|j: int| 0 <= j < p.len() && p[j] == a;
            assert(q[j] == a);
        }
        assert(q[i] == s[i]);
    }
    if s.no_duplicates() && p.contains(s[i]) {
        let j = choose|j: int| 0 <= j < p.len() && p[j] == s[i];
        assert(s[j] == s[i]);
    }
}

} // verus!
