//! Balanced chains: many sequences joined two by two, so that the nesting of
//! the joins grows with the logarithm of their number.

use vstd::prelude::*;

verus! {

/// Items joined into one sequence, two parts at a time.
#[derive(Debug, PartialEq, Eq)]
pub enum Chain<T> {
    /// No item.
    Empty,
    /// One item.
    One(T),
    /// The items of the first part, then those of the second.
    Chain(Box<Chain<T>>, Box<Chain<T>>),
}

/// [`Chain`] as it is specified: text as a sequence of characters, lists as
/// sequences.
pub ghost enum ChainView<V> {
    Empty,
    One(V),
    Chain(Box<ChainView<V>>, Box<ChainView<V>>),
}

/// The chain with each item seen as it is specified.
pub open spec fn chain_view<T: DeepView>(chain: Chain<T>) -> ChainView<T::V>
    decreases chain,
{
    match chain {
        Chain::Empty => ChainView::Empty,
        Chain::One(item) => ChainView::One(item.deep_view()),
        Chain::Chain(left, right) => ChainView::Chain(
            Box::new(chain_view(*left)),
            Box::new(chain_view(*right)),
        ),
    }
}

impl<T: DeepView> DeepView for Chain<T> {
    type V = ChainView<T::V>;

    open spec fn deep_view(&self) -> ChainView<T::V> {
        chain_view(*self)
    }
}

impl<V> ChainView<V> {
    /// The items in the order in which the chain yields them.
    pub open spec fn items(self) -> Seq<V>
        decreases self,
    {
        match self {
            ChainView::Empty => Seq::empty(),
            ChainView::One(item) => seq![item],
            ChainView::Chain(left, right) => left.items() + right.items(),
        }
    }

    /// How deep the joins are nested.
    pub open spec fn depth(self) -> nat
        decreases self,
    {
        match self {
            ChainView::Empty => 0,
            ChainView::One(_) => 0,
            ChainView::Chain(left, right) => {
                let l = left.depth();
                let r = right.depth();
                1 + if l >= r {
                    l
                } else {
                    r
                }
            },
        }
    }
}

/// The balanced chain of `items`: the first half joined with the rest, each
/// balanced in turn.
pub open spec fn spec_chain<V>(items: Seq<V>) -> ChainView<V>
    decreases items.len(),
{
    if items.len() == 0 {
        ChainView::Empty
    } else if items.len() == 1 {
        ChainView::One(items[0])
    } else {
        let mid = items.len() / 2;
        ChainView::Chain(
            Box::new(spec_chain(items.take(mid as int))),
            Box::new(spec_chain(items.skip(mid as int))),
        )
    }
}

/// Two to the power `k`.
pub open spec fn two_to(k: nat) -> nat
    decreases k,
{
    if k == 0 {
        1
    } else {
        2 * two_to((k - 1) as nat)
    }
}

/// A balanced chain yields its items in their order, whatever their number.
pub proof fn lemma_chain_keeps_order<V>(items: Seq<V>)
    ensures
        spec_chain(items).items() == items,
    decreases items.len(),
{
    if items.len() >= 2 {
        let mid = (items.len() / 2) as int;
        lemma_chain_keeps_order(items.take(mid));
        lemma_chain_keeps_order(items.skip(mid));
    }
}

/// A balanced chain of at most two to the power `k` items nests its joins at
/// most `k` deep.
pub proof fn lemma_chain_depth<V>(items: Seq<V>, k: nat)
    requires
        items.len() <= two_to(k),
    ensures
        spec_chain(items).depth() <= k,
    decreases items.len(),
{
    if items.len() >= 2 {
        let mid = (items.len() / 2) as int;
        assert(k > 0);
        lemma_chain_depth(items.take(mid), (k - 1) as nat);
        lemma_chain_depth(items.skip(mid), (k - 1) as nat);
    }
}

/// Joins `iterators` into a balanced chain. The joins are nested like a
/// binary tree, so that a long list does not nest them deeply.
pub fn make_binary_tree_chain<T: DeepView>(iterators: Vec<T>) -> (r: Chain<T>)
    ensures
        r.deep_view() == spec_chain(iterators.deep_view()),
        r.deep_view().items() == iterators.deep_view(),
        forall|k: nat| iterators.len() <= two_to(k) ==> r.deep_view().depth() <= k,
    decreases iterators.len(),
{
    let mut iterators = iterators;
    let ghost all = iterators;
    proof {
        lemma_chain_keeps_order(all.deep_view());
        assert forall|k: nat| all.len() <= two_to(k) implies spec_chain(
            all.deep_view(),
        ).depth() <= k by {
            lemma_chain_depth(all.deep_view(), k);
        }
    }
    if iterators.len() == 0 {
        return Chain::Empty;
    }
    if iterators.len() == 1 {
        match iterators.pop() {
            Some(item) => {
                return Chain::One(item);
            },
            None => {
                return Chain::Empty;
            },
        }
    }
    let mid = iterators.len() / 2;
    let rest = iterators.split_off(mid);
    assert(iterators.deep_view() =~= all.deep_view().take(mid as int));
    assert(rest.deep_view() =~= all.deep_view().skip(mid as int));
    let left = make_binary_tree_chain(iterators);
    let right = make_binary_tree_chain(rest);
    Chain::Chain(Box::new(left), Box::new(right))
}

} // verus!
