use vstd::prelude::*;

verus! {

/// One more element at the end of a prefix adds what `f` makes of it, if anything.
pub proof fn lemma_filter_map_step<A, B>(s: Seq<A>, f: spec_fn(A) -> Option<B>, i: int)
    requires
        0 <= i < s.len(),
    ensures
        s.take(i + 1).filter_map(f) == match f(s[i]) {
            Some(b) => s.take(i).filter_map(f).push(b),
            None => s.take(i).filter_map(f),
        },
{
    let t = s.take(i + 1);
    assert(t.drop_last() =~= s.take(i));
    assert(t.last() == s[i]);
    match f(s[i]) {
        Some(b) => {
            assert(s.take(i).filter_map(f) + seq![b] =~= s.take(i).filter_map(f).push(b));
        },
        None => {},
    }
}

/// The whole sequence is its own longest prefix.
pub proof fn lemma_take_all<A>(s: Seq<A>)
    ensures
        s.take(s.len() as int) == s,
{
    assert(s.take(s.len() as int) =~= s);
}

/// Where `f` selects nothing from any element, nothing is selected.
pub proof fn lemma_filter_map_none<A, B>(s: Seq<A>, f: spec_fn(A) -> Option<B>)
    requires
        forall|i: int| 0 <= i < s.len() ==> f(#[trigger] s[i]) is None,
    ensures
        s.filter_map(f) == Seq::<B>::empty(),
    decreases s.len(),
{
    if s.len() > 0 {
        let rest = s.drop_last();
        assert forall|i: int| 0 <= i < rest.len() implies f(#[trigger] rest[i]) is None by {
            assert(rest[i] == s[i]);
        }
        lemma_filter_map_none(rest, f);
        assert(f(s.last()) is None) by {
            assert(s.last() == s[s.len() - 1]);
        }
    }
}

/// A sequence without duplicates stays so when an element leaves, and loses exactly
/// that element.
pub proof fn lemma_remove_no_duplicates<A>(s: Seq<A>, i: int)
    requires
        s.no_duplicates(),
        0 <= i < s.len(),
    ensures
        s.remove(i).no_duplicates(),
        forall|y: A| #[trigger] s.remove(i).contains(y) <==> (s.contains(y) && y != s[i]),
{
    let r = s.remove(i);
    assert forall|y: A| r.contains(y) <==> (s.contains(y) && y != s[i]) by {
        if r.contains(y) {
            let j = r.index_of(y);
            let jj = if j < i { j } else { j + 1 };
            assert(s[jj] == y);
        }
        if s.contains(y) && y != s[i] {
            let j = s.index_of(y);
            let jj = if j < i { j } else { j - 1 };
            assert(r[jj] == y);
        }
    }
}

/// Taking a value out of a sequence without duplicates leaves the others, none twice.
pub proof fn lemma_remove_value_no_duplicates<A>(s: Seq<A>, x: A)
    requires
        s.no_duplicates(),
    ensures
        s.remove_value(x).no_duplicates(),
        forall|y: A| #[trigger] s.remove_value(x).contains(y) <==> (s.contains(y) && y != x),
        s.contains(x) ==> s.remove_value(x).len() == s.len() - 1,
        !s.contains(x) ==> s.remove_value(x) == s,
{
    s.index_of_first_ensures(x);
    if s.contains(x) {
        let i = s.index_of_first(x)->0;
        lemma_remove_no_duplicates(s, i);
    }
}

/// A value that a sequence without duplicates lacks can be added at its end.
pub proof fn lemma_push_no_duplicates<A>(s: Seq<A>, x: A)
    requires
        s.no_duplicates(),
        !s.contains(x),
    ensures
        s.push(x).no_duplicates(),
        forall|y: A| #[trigger] s.push(x).contains(y) <==> (s.contains(y) || y == x),
{
    let p = s.push(x);
    assert(p.last() == x);
    assert forall|y: A| p.contains(y) <==> (s.contains(y) || y == x) by {
        if s.contains(y) {
            let j = s.index_of(y);
            assert(p[j] == y);
        }
        if p.contains(y) && y != x {
            let j = p.index_of(y);
            assert(s[j] == y);
        }
    }
}

} // verus!
