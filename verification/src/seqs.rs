use vstd::prelude::*;

verus! {

/// A list without repeats, drawn from a list without repeats of the same
/// length, holds every item of that list.
pub proof fn lemma_distinct_covers<A>(s: Seq<A>, q: Seq<A>)
    requires
        s.no_duplicates(),
        q.no_duplicates(),
        forall|i: int| 0 <= i < s.len() ==> q.contains(#[trigger] s[i]),
        s.len() == q.len(),
    ensures
        forall|j: int| 0 <= j < q.len() ==> s.contains(#[trigger] q[j]),
        s.to_multiset() =~= q.to_multiset(),
{
    s.unique_seq_to_set();
    q.unique_seq_to_set();
    assert(s.to_set().subset_of(q.to_set())) by {
        assert forall|x: A| s.to_set().contains(x) implies q.to_set().contains(x) by {
            let i = choose|i: int| 0 <= i < s.len() && s[i] == x;
            assert(q.contains(s[i]));
        }
    }
    vstd::set_lib::lemma_subset_equality(s.to_set(), q.to_set());
    assert forall|j: int| 0 <= j < q.len() implies s.contains(#[trigger] q[j]) by {
        assert(q.to_set().contains(q[j]));
        assert(s.to_set().contains(q[j]));
    }
    s.lemma_multiset_has_no_duplicates();
    q.lemma_multiset_has_no_duplicates();
    assert forall|x: A| s.to_multiset().count(x) == q.to_multiset().count(x) by {
        s.to_multiset_ensures();
        q.to_multiset_ensures();
        if s.contains(x) {
            assert(s.to_set().contains(x));
            assert(q.to_set().contains(x));
            assert(q.contains(x));
        } else {
            if q.contains(x) {
                assert(q.to_set().contains(x));
                assert(s.to_set().contains(x));
            }
        }
    }
}

/// Taking one item out of a list without repeats leaves the others, each
/// once and in their order.
pub proof fn lemma_remove_keeps_others<A>(s: Seq<A>, i: int)
    requires
        0 <= i < s.len(),
        s.no_duplicates(),
    ensures
        s.remove(i).no_duplicates(),
        s.remove(i).len() == s.len() - 1,
        !s.remove(i).contains(s[i]),
        forall|x: A| x != s[i] && s.contains(x) ==> #[trigger] s.remove(i).contains(x),
        forall|x: A| #[trigger] s.remove(i).contains(x) ==> s.contains(x),
        s.index_of(s[i]) == i,
{
    let r = s.remove(i);
    assert forall|a: int, b: int| 0 <= a < r.len() && 0 <= b < r.len() && a != b implies r[a]
        != r[b] by {
        let a0 = if a < i {
            a
        } else {
            a + 1
        };
        let b0 = if b < i {
            b
        } else {
            b + 1
        };
        assert(r[a] == s[a0]);
        assert(r[b] == s[b0]);
    }
    if r.contains(s[i]) {
        let a = choose|a: int| 0 <= a < r.len() && r[a] == s[i];
        let a0 = if a < i {
            a
        } else {
            a + 1
        };
        assert(r[a] == s[a0]);
    }
    assert forall|x: A| x != s[i] && s.contains(x) implies #[trigger] r.contains(x) by {
        let j = choose|j: int| 0 <= j < s.len() && s[j] == x;
        let j0 = if j < i {
            j
        } else {
            j - 1
        };
        assert(r[j0] == x);
    }
    assert forall|x: A| #[trigger] r.contains(x) implies s.contains(x) by {
        let a = choose|a: int| 0 <= a < r.len() && r[a] == x;
        let a0 = if a < i {
            a
        } else {
            a + 1
        };
        assert(r[a] == s[a0]);
    }
}

/// A list made of two holds what either holds.
pub proof fn lemma_concat_contains<A>(a: Seq<A>, b: Seq<A>, x: A)
    ensures
        (a + b).contains(x) <==> a.contains(x) || b.contains(x),
{
    let c = a + b;
    if a.contains(x) {
        let i = choose|i: int| 0 <= i < a.len() && a[i] == x;
        assert(c[i] == x);
    }
    if b.contains(x) {
        let i = choose|i: int| 0 <= i < b.len() && b[i] == x;
        assert(c[a.len() + i] == x);
    }
    if c.contains(x) {
        let i = choose|i: int| 0 <= i < c.len() && c[i] == x;
        if i < a.len() {
            assert(a[i] == x);
        } else {
            assert(b[i - a.len()] == x);
        }
    }
}

} // verus!
