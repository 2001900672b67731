//! Lists that are used as ordered sets: membership, adding once, removing.

use vstd::prelude::*;

use crate::model::Value;

verus! {

/// The list with `x` at its end, unless it is there already.
pub open spec fn with<A>(s: Seq<A>, x: A) -> Seq<A> {
    if s.contains(x) {
        s
    } else {
        s.push(x)
    }
}

/// The list without any `x`, in the same order.
pub open spec fn without<A>(s: Seq<A>, x: A) -> Seq<A>
    decreases s.len(),
{
    if s.len() == 0 {
        s
    } else if s.last() == x {
        without(s.drop_last(), x)
    } else {
        without(s.drop_last(), x).push(s.last())
    }
}

/// The items of `t` added to `s`, one after the other, each unless it is there.
pub open spec fn union<A>(s: Seq<A>, t: Seq<A>) -> Seq<A>
    decreases t.len(),
{
    if t.len() == 0 {
        s
    } else {
        with(union(s, t.drop_last()), t.last())
    }
}

/// The items of `want` that `have` lacks, in order.
pub open spec fn lacking<A>(want: Seq<A>, have: Seq<A>) -> Seq<A>
    decreases want.len(),
{
    if want.len() == 0 {
        want
    } else if have.contains(want.last()) {
        lacking(want.drop_last(), have)
    } else {
        lacking(want.drop_last(), have).push(want.last())
    }
}

/// The first item with the property `p`.
pub open spec fn first<A>(s: Seq<A>, p: spec_fn(A) -> bool) -> Option<A>
    decreases s.len(),
{
    if s.len() == 0 {
        None
    } else if p(s[0]) {
        Some(s[0])
    } else {
        first(s.skip(1), p)
    }
}

/// `first` finds an item exactly if there is one.
pub proof fn first_facts<A>(s: Seq<A>, p: spec_fn(A) -> bool)
    ensures
        first(s, p) is Some == exists|i: int| 0 <= i < s.len() && p(#[trigger] s[i]),
        first(s, p) matches Some(x) ==> p(x) && s.contains(x),
    decreases s.len(),
{
    if s.len() > 0 && !p(s[0]) {
        let t = s.skip(1);
        first_facts(t, p);
        if first(t, p) is Some {
            let i = choose|i: int| 0 <= i < t.len() && p(#[trigger] t[i]);
            assert(p(s[i + 1]));
            let x = first(t, p)->0;
            let k = choose|k: int| 0 <= k < t.len() && t[k] == x;
            assert(s[k + 1] == x);
        }
        if exists|i: int| 0 <= i < s.len() && p(#[trigger] s[i]) {
            let i = choose|i: int| 0 <= i < s.len() && p(#[trigger] s[i]);
            assert(p(t[i - 1]));
        }
    } else if s.len() > 0 {
        assert(p(s[0]));
        assert(s.contains(s[0]));
    }
}

/// Removing an item leaves every other item, and only those.
pub proof fn without_contains<A>(s: Seq<A>, x: A, y: A)
    ensures
        without(s, x).contains(y) == (s.contains(y) && y != x),
    decreases s.len(),
{
    if s.len() > 0 {
        let t = s.drop_last();
        without_contains(t, x, y);
        let w = without(t, x);
        if s.contains(y) && y != s.last() {
            let i = choose|i: int| 0 <= i < s.len() && s[i] == y;
            assert(t[i] == y);
        }
        if t.contains(y) {
            let i = choose|i: int| 0 <= i < t.len() && t[i] == y;
            assert(s[i] == y);
        }
        if s.last() == y {
            assert(s[s.len() - 1] == y);
        }
        if s.last() != x {
            if w.contains(y) {
                let i = choose|i: int| 0 <= i < w.len() && w[i] == y;
                assert(w.push(s.last())[i] == y);
            }
            if s.last() == y {
                assert(w.push(s.last())[w.len() as int] == y);
            }
            if w.push(s.last()).contains(y) && !w.contains(y) {
                let i = choose|i: int| 0 <= i < w.push(s.last()).len() && w.push(s.last())[i] == y;
                if i < w.len() {
                    assert(w[i] == y);
                }
            }
        }
    }
}

/// Adding an item leaves what was there and adds only that item.
pub proof fn with_contains<A>(s: Seq<A>, x: A, y: A)
    ensures
        with(s, x).contains(y) == (s.contains(y) || y == x),
{
    if !s.contains(x) {
        if s.contains(y) {
            let i = choose|i: int| 0 <= i < s.len() && s[i] == y;
            assert(s.push(x)[i] == y);
        }
        assert(s.push(x)[s.len() as int] == x);
    }
}

/// A union holds what either side holds.
pub proof fn union_contains<A>(s: Seq<A>, t: Seq<A>, y: A)
    ensures
        union(s, t).contains(y) == (s.contains(y) || t.contains(y)),
    decreases t.len(),
{
    if t.len() > 0 {
        union_contains(s, t.drop_last(), y);
        with_contains(union(s, t.drop_last()), t.last(), y);
        if t.contains(y) && y != t.last() {
            let i = choose|i: int| 0 <= i < t.len() && t[i] == y;
            assert(t.drop_last()[i] == y);
        }
        if t.drop_last().contains(y) {
            let i = choose|i: int| 0 <= i < t.drop_last().len() && t.drop_last()[i] == y;
            assert(t[i] == y);
        }
        assert(t[t.len() - 1] == t.last());
    }
}

/// A union with a list that has no repetition keeps the result without any.
pub proof fn union_no_duplicates<A>(s: Seq<A>, t: Seq<A>)
    requires
        s.no_duplicates(),
    ensures
        union(s, t).no_duplicates(),
    decreases t.len(),
{
    if t.len() > 0 {
        union_no_duplicates(s, t.drop_last());
        let u = union(s, t.drop_last());
        let x = t.last();
        if !u.contains(x) {
            assert forall|i: int, j: int|
                0 <= i < u.push(x).len() && 0 <= j < u.push(x).len() && i != j implies u.push(x)[i]
                != u.push(x)[j] by {
                if i < u.len() {
                    assert(u.contains(u[i]));
                }
                if j < u.len() {
                    assert(u.contains(u[j]));
                }
            }
        }
    }
}

/// An item that was absent and is added at the end goes away when it is removed.
pub proof fn without_undoes_with<A>(s: Seq<A>, x: A)
    requires
        !s.contains(x),
    ensures
        without(with(s, x), x) == s,
{
    without_of_absent(s, x);
    assert(s.push(x).drop_last() == s);
}

/// Removing what is absent changes nothing.
pub proof fn without_of_absent<A>(s: Seq<A>, x: A)
    requires
        !s.contains(x),
    ensures
        without(s, x) == s,
    decreases s.len(),
{
    if s.len() > 0 {
        assert(s[s.len() - 1] != x);
        assert forall|i: int| 0 <= i < s.drop_last().len() implies s.drop_last()[i] != x by {
            assert(s[i] != x);
        }
        without_of_absent(s.drop_last(), x);
        assert(s.drop_last().push(s.last()) == s);
    }
}

/// Nothing is lacking exactly when every wanted item is there.
pub proof fn lacking_none<A>(want: Seq<A>, have: Seq<A>)
    ensures
        (lacking(want, have).len() == 0) == (forall|i: int|
            0 <= i < want.len() ==> have.contains(#[trigger] want[i])),
    decreases want.len(),
{
    if want.len() > 0 {
        lacking_none(want.drop_last(), have);
        assert forall|i: int| 0 <= i < want.drop_last().len() implies want.drop_last()[i]
            == want[i] by {}
        if forall|i: int| 0 <= i < want.len() ==> have.contains(#[trigger] want[i]) {
            assert(have.contains(want[want.len() - 1]));
        }
        if lacking(want, have).len() == 0 {
            assert forall|i: int| 0 <= i < want.len() implies have.contains(#[trigger] want[i]) by {
                if i < want.len() - 1 {
                    assert(have.contains(want.drop_last()[i]));
                }
            }
        }
    }
}

/// What is lacking is wanted and absent, and the other way round.
pub proof fn lacking_contains<A>(want: Seq<A>, have: Seq<A>, y: A)
    ensures
        lacking(want, have).contains(y) == (want.contains(y) && !have.contains(y)),
    decreases want.len(),
{
    if want.len() > 0 {
        let t = want.drop_last();
        let l = lacking(t, have);
        let x = want.last();
        lacking_contains(t, have, y);
        if want.contains(y) && y != x {
            let i = choose|i: int| 0 <= i < want.len() && want[i] == y;
            assert(t[i] == y);
        }
        if t.contains(y) {
            let i = choose|i: int| 0 <= i < t.len() && t[i] == y;
            assert(want[i] == y);
        }
        assert(want[want.len() - 1] == x);
        if !have.contains(x) {
            assert(l.push(x)[l.len() as int] == x);
            if l.contains(y) {
                let i = choose|i: int| 0 <= i < l.len() && l[i] == y;
                assert(l.push(x)[i] == y);
            }
            if l.push(x).contains(y) && y != x {
                let i = choose|i: int| 0 <= i < l.push(x).len() && l.push(x)[i] == y;
                assert(l[i] == y);
            }
        }
    }
}

/// Whether the list holds a value like `x`.
pub fn contains<T: Value>(v: &Vec<T>, x: &T) -> (r: bool)
    ensures
        r == v.deep_view().contains(x.deep_view()),
{
    let mut i: usize = 0;
    while i < v.len()
        invariant
            i <= v.len(),
            forall|j: int| 0 <= j < i ==> v.deep_view()[j] != x.deep_view(),
        decreases v.len() - i,
    {
        if v[i].same(x) {
            assert(v.deep_view()[i as int] == x.deep_view());
            return true;
        }
        i = i + 1;
    }
    false
}

/// Puts `x` at the end of the list, unless it is there already.
pub fn push_unique<T: Value>(v: &mut Vec<T>, x: T)
    ensures
        final(v).deep_view() == with(old(v).deep_view(), x.deep_view()),
{
    if !contains(v, &x) {
        let ghost before = v.deep_view();
        v.push(x);
        assert(v.deep_view() =~= before.push(x.deep_view()));
    }
}

/// The list without any value like `x`.
pub fn removed<T: Value>(v: &Vec<T>, x: &T) -> (r: Vec<T>)
    ensures
        r.deep_view() == without(v.deep_view(), x.deep_view()),
{
    let mut out: Vec<T> = Vec::new();
    let mut i: usize = 0;
    assert(out.deep_view() =~= v.deep_view().take(0));
    while i < v.len()
        invariant
            i <= v.len(),
            out.deep_view() == without(v.deep_view().take(i as int), x.deep_view()),
        decreases v.len() - i,
    {
        assert(v.deep_view().take(i + 1).drop_last() == v.deep_view().take(i as int));
        if !v[i].same(x) {
            let item = v[i].dup();
            let ghost before = out.deep_view();
            out.push(item);
            assert(out.deep_view() =~= before.push(item.deep_view()));
        }
        i = i + 1;
    }
    assert(v.deep_view().take(i as int) == v.deep_view());
    out
}

/// Removes every value like `x` from the list.
pub fn remove_all<T: Value>(v: &mut Vec<T>, x: &T)
    ensures
        final(v).deep_view() == without(old(v).deep_view(), x.deep_view()),
{
    let kept = removed(v, x);
    *v = kept;
}

/// Adds the items of `source` that `target` lacks, in their order.
pub fn extend_unique<T: Value>(target: &mut Vec<T>, source: &Vec<T>)
    ensures
        final(target).deep_view() == union(old(target).deep_view(), source.deep_view()),
{
    let mut i: usize = 0;
    let ghost start = target.deep_view();
    assert(source.deep_view().take(0) =~= Seq::<T::V>::empty());
    while i < source.len()
        invariant
            i <= source.len(),
            target.deep_view() == union(start, source.deep_view().take(i as int)),
        decreases source.len() - i,
    {
        assert(source.deep_view().take(i + 1).drop_last() == source.deep_view().take(i as int));
        push_unique(target, source[i].dup());
        i = i + 1;
    }
    assert(source.deep_view().take(i as int) == source.deep_view());
}

/// The items of `want` that `have` lacks, in order.
pub fn missing<T: Value>(want: &Vec<T>, have: &Vec<T>) -> (r: Vec<T>)
    ensures
        r.deep_view() == lacking(want.deep_view(), have.deep_view()),
{
    let mut out: Vec<T> = Vec::new();
    let mut i: usize = 0;
    assert(out.deep_view() =~= want.deep_view().take(0));
    while i < want.len()
        invariant
            i <= want.len(),
            out.deep_view() == lacking(want.deep_view().take(i as int), have.deep_view()),
        decreases want.len() - i,
    {
        assert(want.deep_view().take(i + 1).drop_last() == want.deep_view().take(i as int));
        if !contains(have, &want[i]) {
            let item = want[i].dup();
            let ghost before = out.deep_view();
            out.push(item);
            assert(out.deep_view() =~= before.push(item.deep_view()));
        }
        i = i + 1;
    }
    assert(want.deep_view().take(i as int) == want.deep_view());
    out
}

/// Puts `x` at the end of the list.
pub fn push<T: DeepView>(v: &mut Vec<T>, x: T)
    ensures
        final(v).deep_view() == old(v).deep_view().push(x.deep_view()),
{
    let ghost before = v.deep_view();
    v.push(x);
    assert(v.deep_view() =~= before.push(x.deep_view()));
}

/// A list of nothing.
pub fn none<T: DeepView>() -> (r: Vec<T>)
    ensures
        r.deep_view() == Seq::<T::V>::empty(),
{
    let out: Vec<T> = Vec::new();
    assert(out.deep_view() =~= Seq::<T::V>::empty());
    out
}

/// `first` gives the item before which no other has the property.
pub proof fn first_is<A>(s: Seq<A>, p: spec_fn(A) -> bool, k: int)
    requires
        0 <= k < s.len(),
        p(s[k]),
        forall|i: int| 0 <= i < k ==> !p(#[trigger] s[i]),
    ensures
        first(s, p) == Some(s[k]),
    decreases s.len(),
{
    if k > 0 {
        let t = s.skip(1);
        assert(!p(s[0]));
        assert forall|i: int| 0 <= i < k - 1 implies !p(#[trigger] t[i]) by {
            assert(t[i] == s[i + 1]);
        }
        assert(t[k - 1] == s[k]);
        first_is(t, p, k - 1);
    }
}

/// `first` gives nothing where no item has the property.
pub proof fn first_is_none<A>(s: Seq<A>, p: spec_fn(A) -> bool)
    requires
        forall|i: int| 0 <= i < s.len() ==> !p(#[trigger] s[i]),
    ensures
        first(s, p) is None,
{
    first_facts(s, p);
}

} // verus!
