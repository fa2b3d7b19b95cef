//! Sequences built by going over another sequence in order.

use vstd::prelude::*;

verus! {

/// What `f` makes of the items of `s`, in their order, without the items of
/// which it makes nothing.
pub open spec fn filter_map<A, B>(s: Seq<A>, f: spec_fn(A) -> Option<B>) -> Seq<B>
    decreases s.len(),
{
    if s.len() == 0 {
        Seq::empty()
    } else {
        let rest = filter_map(s.drop_last(), f);
        match f(s.last()) {
            Some(b) => rest.push(b),
            None => rest,
        }
    }
}

/// `filter_map`, for an `f` that is also given the place of each item.
pub open spec fn filter_map_indexed<A, B>(s: Seq<A>, f: spec_fn(int, A) -> Option<B>) -> Seq<B>
    decreases s.len(),
{
    if s.len() == 0 {
        Seq::empty()
    } else {
        let rest = filter_map_indexed(s.drop_last(), f);
        match f(s.len() - 1, s.last()) {
            Some(b) => rest.push(b),
            None => rest,
        }
    }
}

/// One more item of `s` adds what `f` makes of it, at the end.
pub proof fn lemma_filter_map_step<A, B>(s: Seq<A>, i: int, f: spec_fn(A) -> Option<B>)
    requires
        0 <= i < s.len(),
    ensures
        filter_map(s.take(i + 1), f) == match f(s[i]) {
            Some(b) => filter_map(s.take(i), f).push(b),
            None => filter_map(s.take(i), f),
        },
{
    assert(s.take(i + 1).drop_last() =~= s.take(i));
}

/// One more item of `s` adds what `f` makes of it and of its place, at the
/// end.
pub proof fn lemma_filter_map_indexed_step<A, B>(
    s: Seq<A>,
    i: int,
    f: spec_fn(int, A) -> Option<B>,
)
    requires
        0 <= i < s.len(),
    ensures
        filter_map_indexed(s.take(i + 1), f) == match f(i, s[i]) {
            Some(b) => filter_map_indexed(s.take(i), f).push(b),
            None => filter_map_indexed(s.take(i), f),
        },
{
    assert(s.take(i + 1).drop_last() =~= s.take(i));
}

/// Going over two sequences one after the other gives what going over each
/// gives, one after the other.
pub proof fn lemma_filter_map_concat<A, B>(a: Seq<A>, b: Seq<A>, f: spec_fn(A) -> Option<B>)
    ensures
        filter_map(a + b, f) == filter_map(a, f) + filter_map(b, f),
    decreases b.len(),
{
    if b.len() > 0 {
        assert((a + b).drop_last() =~= a + b.drop_last());
        lemma_filter_map_concat(a, b.drop_last(), f);
    }
}

/// The views of the items of a vector after one more item was pushed.
pub proof fn lemma_deep_view_push<T: DeepView>(before: Vec<T>, after: Vec<T>, item: T)
    requires
        after@ == before@.push(item),
    ensures
        after.deep_view() == before.deep_view().push(item.deep_view()),
{
}

/// What `f` makes of the items of `s`, one sequence after the other.
pub open spec fn flat_map<A, B>(s: Seq<A>, f: spec_fn(A) -> Seq<B>) -> Seq<B>
    decreases s.len(),
{
    if s.len() == 0 {
        Seq::empty()
    } else {
        flat_map(s.drop_last(), f) + f(s.last())
    }
}

/// One more item of `s` adds what `f` makes of it, at the end.
pub proof fn lemma_flat_map_step<A, B>(s: Seq<A>, i: int, f: spec_fn(A) -> Seq<B>)
    requires
        0 <= i < s.len(),
    ensures
        flat_map(s.take(i + 1), f) == flat_map(s.take(i), f) + f(s[i]),
{
    assert(s.take(i + 1).drop_last() =~= s.take(i));
}

/// The views of the items of a vector after another was appended to it.
pub proof fn lemma_deep_view_append<T: DeepView>(before: Vec<T>, after: Vec<T>, added: Vec<T>)
    requires
        after@ == before@ + added@,
    ensures
        after.deep_view() == before.deep_view() + added.deep_view(),
{
}

/// Of each item, `pick` makes something or `miss` does, never both: what
/// they make of a sequence has, together, the length of the sequence.
pub proof fn lemma_filter_map_indexed_count<A, B, C>(
    s: Seq<A>,
    pick: spec_fn(int, A) -> Option<B>,
    miss: spec_fn(int, A) -> Option<C>,
)
    requires
        forall|i: int, a: A| (#[trigger] pick(i, a)) is Some <==> (#[trigger] miss(i, a)) is None,
    ensures
        filter_map_indexed(s, pick).len() + filter_map_indexed(s, miss).len() == s.len(),
        s.len() > 0 && filter_map_indexed(s, miss).len() == 0 ==> filter_map_indexed(
            s,
            pick,
        ).last() == pick(s.len() - 1, s.last())->0,
    decreases s.len(),
{
    if s.len() > 0 {
        lemma_filter_map_indexed_count(s.drop_last(), pick, miss);
    }
}

/// Going over two sequences one after the other gives what going over each
/// gives, one after the other.
pub proof fn lemma_flat_map_concat<A, B>(a: Seq<A>, b: Seq<A>, f: spec_fn(A) -> Seq<B>)
    ensures
        flat_map(a + b, f) == flat_map(a, f) + flat_map(b, f),
    decreases b.len(),
{
    if b.len() > 0 {
        assert((a + b).drop_last() =~= a + b.drop_last());
        lemma_flat_map_concat(a, b.drop_last(), f);
    }
}

/// Going over one item gives what `f` makes of it.
pub proof fn lemma_flat_map_one<A, B>(a: A, f: spec_fn(A) -> Seq<B>)
    ensures
        flat_map(seq![a], f) == f(a),
{
    assert(flat_map(seq![a].drop_last(), f) =~= Seq::<B>::empty());
}

/// `acc`, followed by the items of `s` that are new: each item of `s` is
/// added, in order, unless it is there already.
pub open spec fn add_distinct<A>(acc: Seq<A>, s: Seq<A>) -> Seq<A>
    decreases s.len(),
{
    if s.len() == 0 {
        acc
    } else {
        let rest = add_distinct(acc, s.drop_last());
        if rest.contains(s.last()) {
            rest
        } else {
            rest.push(s.last())
        }
    }
}

/// The items of `s` without repetition, each at the place of its first
/// occurrence.
pub open spec fn distinct<A>(s: Seq<A>) -> Seq<A> {
    add_distinct(Seq::empty(), s)
}

/// One more item of `s` is added at the end, unless it is there already.
pub proof fn lemma_add_distinct_step<A>(acc: Seq<A>, s: Seq<A>, i: int)
    requires
        0 <= i < s.len(),
    ensures
        add_distinct(acc, s.take(i + 1)) == if add_distinct(acc, s.take(i)).contains(s[i]) {
            add_distinct(acc, s.take(i))
        } else {
            add_distinct(acc, s.take(i)).push(s[i])
        },
{
    assert(s.take(i + 1).drop_last() =~= s.take(i));
}

/// Adding without repetition keeps what was there, adds nothing twice, and
/// adds exactly the items given.
pub proof fn lemma_add_distinct<A>(acc: Seq<A>, s: Seq<A>)
    ensures
        acc.no_duplicates() ==> add_distinct(acc, s).no_duplicates(),
        forall|x: A|
            #[trigger] add_distinct(acc, s).contains(x) <==> acc.contains(x) || s.contains(x),
    decreases s.len(),
{
    if s.len() > 0 {
        let rest = add_distinct(acc, s.drop_last());
        lemma_add_distinct(acc, s.drop_last());
        assert forall|x: A| #[trigger]
            add_distinct(acc, s).contains(x) <==> acc.contains(x) || s.contains(x) by {
            if s.contains(x) {
                let k = choose|k: int| 0 <= k < s.len() && s[k] == x;
                if k < s.len() - 1 {
                    assert(s.drop_last()[k] == x);
                } else {
                    if !rest.contains(x) {
                        assert(rest.push(x)[rest.len() as int] == x);
                    }
                }
            }
            if rest.contains(x) {
                let k = choose|k: int| 0 <= k < rest.len() && rest[k] == x;
                if !rest.contains(s.last()) {
                    assert(rest.push(s.last())[k] == x);
                }
            }
            if s.drop_last().contains(x) {
                let k = choose|k: int| 0 <= k < s.drop_last().len() && s.drop_last()[k] == x;
                assert(s[k] == x);
            }
        }
    }
}

/// The items of a sequence without repetition hold nothing twice, and hold
/// exactly the items of the sequence.
pub proof fn lemma_distinct<A>(s: Seq<A>)
    ensures
        distinct(s).no_duplicates(),
        forall|x: A| #[trigger] distinct(s).contains(x) <==> s.contains(x),
{
    lemma_add_distinct(Seq::<A>::empty(), s);
}

} // verus!
