//! A set that keeps its elements in the order in which they were inserted.
use vstd::prelude::*;

verus! {

/// A value that can be a member of an [`OrderedSet`]: two values are the same
/// member exactly if their views are equal.
pub trait Element: View + Sized {
    /// Whether `self` and `other` have the same view.
    fn same(&self, other: &Self) -> (r: bool)
        ensures
            r == (self@ == other@),
    ;
}

/// The views of the items of a sequence.
pub open spec fn views<T: View>(items: Seq<T>) -> Seq<T::V> {
    items.map_values(|x: T| x@)
}

/// `items` without repetitions: of equal items the first one stays.
pub open spec fn distinct<A>(items: Seq<A>) -> Seq<A>
    decreases items.len(),
{
    if items.len() == 0 {
        items
    } else if distinct(items.drop_last()).contains(items.last()) {
        distinct(items.drop_last())
    } else {
        distinct(items.drop_last()).push(items.last())
    }
}

/// A sequence with one more item holds what it held, and that item.
pub proof fn lemma_push_contains<A>(items: Seq<A>, last: A, a: A)
    ensures
        items.push(last).contains(a) <==> items.contains(a) || a == last,
{
    if items.push(last).contains(a) {
        let i = choose|i: int| 0 <= i < items.push(last).len() && items.push(last)[i] == a;
        if i < items.len() {
            assert(items[i] == a);
        }
    }
    if items.contains(a) {
        let i = choose|i: int| 0 <= i < items.len() && items[i] == a;
        assert(items.push(last)[i] == a);
    }
    if a == last {
        assert(items.push(last)[items.len() as int] == a);
    }
}

/// `distinct` keeps every item, and each once.
pub proof fn lemma_distinct<A>(items: Seq<A>)
    ensures
        distinct(items).no_duplicates(),
        forall|a: A| distinct(items).contains(a) <==> items.contains(a),
    decreases items.len(),
{
    if items.len() > 0 {
        let before = items.drop_last();
        let last = items.last();
        lemma_distinct(before);
        assert(items =~= before.push(last));
        assert forall|a: A| distinct(items).contains(a) <==> items.contains(a) by {
            lemma_push_contains(before, last, a);
            lemma_push_contains(distinct(before), last, a);
            assert(distinct(before).contains(a) <==> before.contains(a));
        }
    }
}

/// What a filter keeps of the first `k + 1` items is what it keeps of the first
/// `k`, and the item at `k` if it keeps that.
pub proof fn lemma_filter_take<A>(items: Seq<A>, keeps: spec_fn(A) -> bool, k: int)
    requires
        0 <= k < items.len(),
    ensures
        items.take(k + 1).filter(keeps) == if keeps(items[k]) {
            items.take(k).filter(keeps).push(items[k])
        } else {
            items.take(k).filter(keeps)
        },
{
    reveal(Seq::filter);
    assert(items.take(k + 1).drop_last() =~= items.take(k));
}

/// A finite set of `T`, told apart by their views. Iteration yields the elements
/// in the order of their insertion.
#[derive(Debug, Clone)]
pub struct OrderedSet<T: Element> {
    items: Vec<T>,
}

impl<T: Element> View for OrderedSet<T> {
    type V = Set<T::V>;

    open spec fn view(&self) -> Set<T::V> {
        self.order().to_set()
    }
}

/// Whether `items` holds `item`.
fn holds<T: Element>(items: &[T], item: &T) -> (r: bool)
    ensures
        r == views(items@).contains(item@),
{
    let mut i: usize = 0;
    while i < items.len()
        invariant
            i <= items.len(),
            forall|j: int| 0 <= j < i ==> views(items@)[j] != item@,
        decreases items.len() - i,
    {
        if items[i].same(item) {
            assert(views(items@)[i as int] == item@);
            return true;
        }
        i += 1;
    }
    false
}

/// Whether `outer` holds every item of `inner`.
fn holds_all<T: Element>(outer: &[T], inner: &[T]) -> (r: bool)
    ensures
        r == views(inner@).to_set().subset_of(views(outer@).to_set()),
{
    let mut i: usize = 0;
    while i < inner.len()
        invariant
            i <= inner.len(),
            forall|j: int| 0 <= j < i ==> views(outer@).contains(#[trigger] views(inner@)[j]),
        decreases inner.len() - i,
    {
        if !holds(outer, &inner[i]) {
            proof {
                let v = views(inner@)[i as int];
                assert(views(inner@).contains(v));
                assert(views(inner@).to_set().contains(v));
                assert(!views(outer@).to_set().contains(v));
            }
            return false;
        }
        i += 1;
    }
    proof {
        assert forall|v: T::V| views(inner@).to_set().contains(v) implies views(
            outer@,
        ).to_set().contains(v) by {
            let j = choose|j: int| 0 <= j < views(inner@).len() && views(inner@)[j] == v;
            assert(views(outer@).contains(views(inner@)[j]));
        }
    }
    true
}

impl<T: Element> OrderedSet<T> {
    /// The elements in the order of their insertion.
    pub closed spec fn order(&self) -> Seq<T::V> {
        views(self.items@)
    }

    /// Whether no element is held twice. The sets that this module makes are
    /// well formed, and stay so.
    pub open spec fn wf(&self) -> bool {
        self.order().no_duplicates()
    }

    /// The empty set.
    pub fn new() -> (r: Self)
        ensures
            r.wf(),
            r@ == Set::<T::V>::empty(),
            r.order() == Seq::<T::V>::empty(),
    {
        let r = OrderedSet { items: Vec::new() };
        assert(views(r.items@) =~= Seq::<T::V>::empty());
        assert(r@ =~= Set::<T::V>::empty());
        r
    }

    /// Whether `item` is an element.
    pub fn contains(&self, item: &T) -> (r: bool)
        ensures
            r == self@.contains(item@),
    {
        holds(self.items.as_slice(), item)
    }

    /// Adds `item` unless it is an element already. Returns whether it was added.
    pub fn insert(&mut self, item: T) -> (r: bool)
        ensures
            r == !old(self)@.contains(item@),
            final(self)@ == old(self)@.insert(item@),
            final(self).order() == if r {
                old(self).order().push(item@)
            } else {
                old(self).order()
            },
            old(self).wf() ==> final(self).wf(),
    {
        if self.contains(&item) {
            assert(self@ =~= self@.insert(item@));
            false
        } else {
            let ghost before = self.items@;
            self.items.push(item);
            proof {
                assert(views(self.items@) =~= views(before).push(item@));
                views(before).lemma_push_to_set_commute(item@);
            }
            true
        }
    }

    /// The number of elements.
    pub fn len(&self) -> (r: usize)
        ensures
            r == self.order().len(),
            self.wf() ==> r == self@.len(),
    {
        proof {
            if self.wf() {
                self.order().unique_seq_to_set();
            }
        }
        self.items.len()
    }

    /// Whether the set has no element.
    pub fn is_empty(&self) -> (r: bool)
        ensures
            r == (self@ == Set::<T::V>::empty()),
    {
        proof {
            if self.items@.len() > 0 {
                let v = views(self.items@)[0];
                assert(views(self.items@).contains(v));
                assert(self@.contains(v));
            } else {
                assert(self@ =~= Set::<T::V>::empty());
            }
        }
        self.items.len() == 0
    }

    /// The elements in the order of their insertion.
    pub fn as_slice(&self) -> (r: &[T])
        ensures
            views(r@) == self.order(),
    {
        self.items.as_slice()
    }

    /// The set of the items of `items`, in the order in which each occurs first.
    pub fn from_vec(items: Vec<T>) -> (r: Self)
        ensures
            r.wf(),
            r@ == views(items@).to_set(),
            r.order() == distinct(views(items@)),
    {
        let mut r = Self::new();
        let ghost all = views(items@);
        for item in it: items
            invariant
                views(it.seq()) == all,
                r.wf(),
                r@ == all.take(it.index() as int).to_set(),
                r.order() == distinct(all.take(it.index() as int)),
        {
            proof {
                let k = it.index() as int;
                assert(all.take(k + 1) =~= all.take(k).push(item@));
                assert(all.take(k + 1).drop_last() =~= all.take(k));
                all.take(k).lemma_push_to_set_commute(item@);
                lemma_distinct(all.take(k));
            }
            r.insert(item);
        }
        assert(all.take(all.len() as int) =~= all);
        r
    }
}

impl<T: Element> PartialEq for OrderedSet<T> {
    /// Two sets are equal if they have the same elements, in whatever order.
    fn eq(&self, other: &Self) -> (r: bool) {
        let r = holds_all(self.items.as_slice(), other.items.as_slice()) && holds_all(
            other.items.as_slice(),
            self.items.as_slice(),
        );
        assert(r == (self@ =~= other@));
        r
    }
}

impl<T: Element> vstd::std_specs::cmp::PartialEqSpecImpl for OrderedSet<T> {
    open spec fn obeys_eq_spec() -> bool {
        true
    }

    open spec fn eq_spec(&self, other: &Self) -> bool {
        self@ == other@
    }
}

} // verus!
