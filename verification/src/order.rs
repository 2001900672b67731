//! Sorting by a total order.

use vstd::prelude::*;

use crate::model::Value;
use crate::name_map;
use crate::name_map::Name;

verus! {

/// A type whose values stand in a total order.
pub trait Ordered: Value {
    /// Whether a value stands before another, or is the same.
    spec fn order() -> spec_fn(Self::V, Self::V) -> bool;

    /// The order is total.
    proof fn order_is_total()
        ensures
            vstd::relations::total_ordering(Self::order()),
    ;

    /// Whether this value stands before the other, or is the same.
    fn is_up_to(&self, other: &Self) -> (r: bool)
        ensures
            r == Self::order()(self.deep_view(), other.deep_view()),
    ;
}

proof fn insert_counts<A>(s: Seq<A>, p: int, x: A)
    requires
        0 <= p <= s.len(),
    ensures
        s.insert(p, x).to_multiset() == s.to_multiset().insert(x),
{
    let t = s.insert(p, x);
    assert(t.remove(p) =~= s);
    t.to_multiset_ensures();
    assert(t[p] == x);
    assert(t.contains(x));
    assert(t.to_multiset().remove(x).insert(x) =~= t.to_multiset());
}

/// Puts `x` behind every value that stands before it or is the same.
fn insert_in_order<T: Ordered>(v: &mut Vec<T>, x: T)
    requires
        vstd::relations::sorted_by(old(v).deep_view(), T::order()),
    ensures
        vstd::relations::sorted_by(final(v).deep_view(), T::order()),
        final(v).deep_view().to_multiset() == old(v).deep_view().to_multiset().insert(
            x.deep_view(),
        ),
{
    let ghost s = v.deep_view();
    let ghost y = x.deep_view();
    let mut p: usize = 0;
    while p < v.len() && v[p].is_up_to(&x)
        invariant
            p <= v@.len(),
            s == v.deep_view(),
            y == x.deep_view(),
            forall|i: int| 0 <= i < p ==> T::order()(#[trigger] s[i], y),
        decreases v.len() - p,
    {
        assert(s[p as int] == v@[p as int].deep_view());
        p = p + 1;
    }
    proof {
        insert_counts(s, p as int, y);
        T::order_is_total();
        let leq = T::order();
        let t = s.insert(p as int, y);
        if p < s.len() {
            assert(s[p as int] == v@[p as int].deep_view());
            assert(leq(s[p as int], y) || leq(y, s[p as int]));
        }
        assert forall|i: int, j: int| 0 <= i < j < t.len() implies leq(t[i], t[j]) by {
            if j == p {
                assert(t[i] == s[i]);
                assert(leq(s[i], y));
            } else if i == p {
                assert(t[j] == s[j - 1]);
                assert(leq(y, s[p as int]));
                if j - 1 > p {
                    assert(leq(s[p as int], s[j - 1]));
                    assert(leq(y, s[j - 1]));
                }
            } else {
                let a = if i < p {
                    i
                } else {
                    i - 1
                };
                let b = if j < p {
                    j
                } else {
                    j - 1
                };
                assert(t[i] == s[a]);
                assert(t[j] == s[b]);
                assert(leq(s[a], s[b]));
            }
        }
    }
    v.insert(p, x);
    assert(v.deep_view() =~= s.insert(p as int, y));
}

/// The values in their order.
pub fn sorted<T: Ordered>(values: Vec<T>) -> (r: Vec<T>)
    ensures
        r.deep_view() == values.deep_view().sort_by(T::order()),
{
    let ghost all = values.deep_view();
    let mut out: Vec<T> = Vec::new();
    let mut i: usize = 0;
    assert(out.deep_view() =~= all.take(0));
    while i < values.len()
        invariant
            i <= values@.len(),
            all == values.deep_view(),
            vstd::relations::sorted_by(out.deep_view(), T::order()),
            out.deep_view().to_multiset() == all.take(i as int).to_multiset(),
        decreases values.len() - i,
    {
        let item = values[i].dup();
        proof {
            assert(all.take(i + 1) =~= all.take(i as int).push(all[i as int]));
            all.take(i as int).to_multiset_ensures();
            assert(all[i as int] == values@[i as int].deep_view());
        }
        insert_in_order(&mut out, item);
        i = i + 1;
    }
    proof {
        assert(all.take(i as int) =~= all);
        T::order_is_total();
        all.lemma_sort_by_ensures(T::order());
        vstd::seq_lib::lemma_sorted_unique(
            out.deep_view(),
            all.sort_by(T::order()),
            T::order(),
        );
    }
    out
}

/// A name with the priority that it has. Lower priorities come first, and
/// among equal ones the names decide.
#[derive(Debug, PartialEq, Eq)]
pub struct Prioritized<K: Name> {
    /// Lower comes first.
    pub priority: i32,
    /// What has the priority.
    pub name: K,
}

impl<K: Name> DeepView for Prioritized<K> {
    type V = (i32, Seq<char>);

    open spec fn deep_view(&self) -> (i32, Seq<char>) {
        (self.priority, self.name.deep_view())
    }
}

impl<K: Name> Value for Prioritized<K> {
    fn same(&self, other: &Self) -> (r: bool) {
        self.priority == other.priority && self.name.same(&other.name)
    }

    fn dup(&self) -> (r: Self) {
        Prioritized { priority: self.priority, name: self.name.dup() }
    }
}

/// By priority, then by name.
pub open spec fn prior(a: (i32, Seq<char>), b: (i32, Seq<char>)) -> bool {
    a.0 < b.0 || (a.0 == b.0 && (a.1 == b.1 || name_map::before(a.1, b.1)))
}

/// By priority, then by name, as a relation.
pub open spec fn by_priority() -> spec_fn((i32, Seq<char>), (i32, Seq<char>)) -> bool {
    |a: (i32, Seq<char>), b: (i32, Seq<char>)| prior(a, b)
}

impl<K: Name> Ordered for Prioritized<K> {
    open spec fn order() -> spec_fn((i32, Seq<char>), (i32, Seq<char>)) -> bool {
        by_priority()
    }

    proof fn order_is_total() {
        let leq = Self::order();
        assert forall|a: (i32, Seq<char>), b: (i32, Seq<char>)|
            #[trigger] leq(a, b) && #[trigger] leq(b, a) implies a == b by {
            name_map::before_irreflexive(a.1);
            if name_map::before(a.1, b.1) && name_map::before(b.1, a.1) {
                name_map::before_transitive(a.1, b.1, a.1);
            }
        }
        assert forall|a: (i32, Seq<char>), b: (i32, Seq<char>), c: (i32, Seq<char>)|
            #[trigger] leq(a, b) && #[trigger] leq(b, c) implies leq(a, c) by {
            if name_map::before(a.1, b.1) && name_map::before(b.1, c.1) {
                name_map::before_transitive(a.1, b.1, c.1);
            }
        }
        assert forall|a: (i32, Seq<char>), b: (i32, Seq<char>)|
            #[trigger] leq(a, b) || #[trigger] leq(b, a) by {
            name_map::before_total(a.1, b.1);
        }
    }

    fn is_up_to(&self, other: &Self) -> (r: bool) {
        self.priority < other.priority || (self.priority == other.priority && (self.name.same(
            &other.name,
        ) || name_map::precedes(self.name.text(), other.name.text())))
    }
}

} // verus!
