//! Maps from validated names to values, kept in the order of the names.

use vstd::prelude::*;

use crate::model::Value;
use crate::text;

verus! {

/// A validated name, ordered by its characters.
pub trait Name: Value + DeepView<V = Seq<char>> {
    /// The name as text.
    fn text(&self) -> (r: &str)
        ensures
            r@ == self.deep_view(),
    ;
}

/// `a` comes before `b` in the order of their characters.
pub open spec fn before(a: Seq<char>, b: Seq<char>) -> bool
    decreases a.len(),
{
    if b.len() == 0 {
        false
    } else if a.len() == 0 {
        true
    } else if a[0] != b[0] {
        a[0] < b[0]
    } else {
        before(a.drop_first(), b.drop_first())
    }
}

pub proof fn before_irreflexive(a: Seq<char>)
    ensures
        !before(a, a),
    decreases a.len(),
{
    if a.len() > 0 {
        before_irreflexive(a.drop_first());
    }
}

pub proof fn before_transitive(a: Seq<char>, b: Seq<char>, c: Seq<char>)
    requires
        before(a, b),
        before(b, c),
    ensures
        before(a, c),
    decreases a.len(),
{
    if a.len() > 0 && a[0] == b[0] && b[0] == c[0] {
        before_transitive(a.drop_first(), b.drop_first(), c.drop_first());
    }
}

pub proof fn before_total(a: Seq<char>, b: Seq<char>)
    ensures
        a == b || before(a, b) || before(b, a),
    decreases a.len(),
{
    if a.len() > 0 && b.len() > 0 && a[0] == b[0] {
        before_total(a.drop_first(), b.drop_first());
        if a.drop_first() == b.drop_first() {
            assert(a =~= seq![a[0]] + a.drop_first());
            assert(b =~= seq![b[0]] + b.drop_first());
        }
    } else if a.len() == 0 && b.len() == 0 {
        assert(a =~= b);
    }
}

/// Whether `a` comes before `b`.
pub fn precedes(a: &str, b: &str) -> (r: bool)
    ensures
        r == before(a@, b@),
{
    let ac = text::chars_of(a);
    let bc = text::chars_of(b);
    let mut i: usize = 0;
    assert(a@.skip(0) == a@ && b@.skip(0) == b@);
    while i < ac.len() && i < bc.len()
        invariant
            ac@ == a@,
            bc@ == b@,
            i <= ac.len(),
            i <= bc.len(),
            before(a@, b@) == before(a@.skip(i as int), b@.skip(i as int)),
        decreases ac.len() - i,
    {
        if ac[i] != bc[i] {
            return ac[i] < bc[i];
        }
        assert(a@.skip(i as int).drop_first() == a@.skip(i + 1));
        assert(b@.skip(i as int).drop_first() == b@.skip(i + 1));
        i = i + 1;
    }
    i < bc.len()
}

/// The number of leading entries whose names come before `k`.
pub open spec fn rank<W>(m: Seq<(Seq<char>, W)>, k: Seq<char>) -> int
    decreases m.len(),
{
    if m.len() == 0 || !before(m[0].0, k) {
        0
    } else {
        1 + rank(m.drop_first(), k)
    }
}

/// The names increase strictly.
pub open spec fn sorted<W>(m: Seq<(Seq<char>, W)>) -> bool {
    forall|i: int, j: int| 0 <= i < j < m.len() ==> before(#[trigger] m[i].0, #[trigger] m[j].0)
}

/// The value under `k`.
pub open spec fn lookup<W>(m: Seq<(Seq<char>, W)>, k: Seq<char>) -> Option<W> {
    let p = rank(m, k);
    if p < m.len() && m[p].0 == k {
        Some(m[p].1)
    } else {
        None
    }
}

/// The map with `v` under `k`.
pub open spec fn put<W>(m: Seq<(Seq<char>, W)>, k: Seq<char>, v: W) -> Seq<(Seq<char>, W)> {
    let p = rank(m, k);
    if p < m.len() && m[p].0 == k {
        m.update(p, (k, v))
    } else {
        m.insert(p, (k, v))
    }
}

/// The map without anything under `k`.
pub open spec fn cut<W>(m: Seq<(Seq<char>, W)>, k: Seq<char>) -> Seq<(Seq<char>, W)> {
    let p = rank(m, k);
    if p < m.len() && m[p].0 == k {
        m.remove(p)
    } else {
        m
    }
}

/// The names, in order.
pub open spec fn names<W>(m: Seq<(Seq<char>, W)>) -> Seq<Seq<char>> {
    Seq::new(m.len(), |i: int| m[i].0)
}

pub proof fn rank_facts<W>(m: Seq<(Seq<char>, W)>, k: Seq<char>)
    ensures
        0 <= rank(m, k) <= m.len(),
        forall|i: int| 0 <= i < rank(m, k) ==> before(#[trigger] m[i].0, k),
        rank(m, k) < m.len() ==> !before(m[rank(m, k)].0, k),
    decreases m.len(),
{
    if m.len() > 0 && before(m[0].0, k) {
        rank_facts(m.drop_first(), k);
        assert forall|i: int| 0 <= i < rank(m, k) implies before(#[trigger] m[i].0, k) by {
            if i > 0 {
                assert(m[i] == m.drop_first()[i - 1]);
            }
        }
    }
}

/// A split of the entries into those before `k` and the rest fixes the rank.
pub proof fn rank_is<W>(m: Seq<(Seq<char>, W)>, k: Seq<char>, p: int)
    requires
        0 <= p <= m.len(),
        forall|i: int| 0 <= i < p ==> before(#[trigger] m[i].0, k),
        p < m.len() ==> !before(m[p].0, k),
    ensures
        rank(m, k) == p,
    decreases m.len(),
{
    if p > 0 {
        assert(before(m[0].0, k));
        let t = m.drop_first();
        assert forall|i: int| 0 <= i < p - 1 implies before(#[trigger] t[i].0, k) by {
            assert(t[i] == m[i + 1]);
        }
        rank_is(t, k, p - 1);
    }
}

/// In an ordered map every entry is found under its name.
pub proof fn lookup_of_entry<W>(m: Seq<(Seq<char>, W)>, i: int)
    requires
        sorted(m),
        0 <= i < m.len(),
    ensures
        rank(m, m[i].0) == i,
        lookup(m, m[i].0) == Some(m[i].1),
{
    before_irreflexive(m[i].0);
    rank_is(m, m[i].0, i);
}

/// A name that is found is the name of an entry, and the other way round.
pub proof fn lookup_finds<W>(m: Seq<(Seq<char>, W)>, k: Seq<char>)
    requires
        sorted(m),
    ensures
        lookup(m, k) is Some == exists|i: int| 0 <= i < m.len() && #[trigger] m[i].0 == k,
{
    rank_facts(m, k);
    if exists|i: int| 0 <= i < m.len() && #[trigger] m[i].0 == k {
        let i = choose|i: int| 0 <= i < m.len() && #[trigger] m[i].0 == k;
        lookup_of_entry(m, i);
    }
}

/// In an ordered map a name that is not found stands in no entry.
pub proof fn lookup_absent<W>(m: Seq<(Seq<char>, W)>, k: Seq<char>, i: int)
    requires
        sorted(m),
        lookup(m, k) is None,
        0 <= i < m.len(),
    ensures
        m[i].0 != k,
{
    if m[i].0 == k {
        lookup_of_entry(m, i);
    }
}

/// Putting a value under a name keeps the order of the names.
pub proof fn put_sorted<W>(m: Seq<(Seq<char>, W)>, k: Seq<char>, v: W)
    requires
        sorted(m),
    ensures
        sorted(put(m, k, v)),
{
    let p = rank(m, k);
    rank_facts(m, k);
    let r = put(m, k, v);
    if p < m.len() && m[p].0 == k {
        assert forall|i: int, j: int| 0 <= i < j < r.len() implies before(
            #[trigger] r[i].0,
            #[trigger] r[j].0,
        ) by {
            assert(r[i].0 == m[i].0 && r[j].0 == m[j].0);
        }
    } else {
        if p < m.len() {
            before_total(m[p].0, k);
        }
        assert forall|i: int, j: int| 0 <= i < j < r.len() implies before(
            #[trigger] r[i].0,
            #[trigger] r[j].0,
        ) by {
            if j < p {
                assert(r[i] == m[i] && r[j] == m[j]);
            } else if j == p {
                assert(r[i] == m[i] && before(m[i].0, k));
            } else if i > p {
                assert(r[i] == m[i - 1] && r[j] == m[j - 1]);
            } else if i == p {
                assert(r[j] == m[j - 1]);
                if j - 1 > p {
                    before_transitive(k, m[p].0, m[j - 1].0);
                }
            } else {
                assert(r[i] == m[i] && r[j] == m[j - 1]);
            }
        }
    }
}

/// Removing a name keeps the order of the names.
pub proof fn cut_sorted<W>(m: Seq<(Seq<char>, W)>, k: Seq<char>)
    requires
        sorted(m),
    ensures
        sorted(cut(m, k)),
{
    rank_facts(m, k);
    let p = rank(m, k);
    let r = cut(m, k);
    if p < m.len() && m[p].0 == k {
        assert forall|i: int, j: int| 0 <= i < j < r.len() implies before(
            #[trigger] r[i].0,
            #[trigger] r[j].0,
        ) by {
            let a = if i < p {
                i
            } else {
                i + 1
            };
            let b = if j < p {
                j
            } else {
                j + 1
            };
            assert(r[i] == m[a] && r[j] == m[b]);
        }
    }
}

/// A value that was put under a name is found there, and every other name
/// keeps what it had.
pub proof fn lookup_of_put<W>(m: Seq<(Seq<char>, W)>, k: Seq<char>, v: W, j: Seq<char>)
    requires
        sorted(m),
    ensures
        lookup(put(m, k, v), j) == if j == k {
            Some(v)
        } else {
            lookup(m, j)
        },
{
    let p = rank(m, k);
    let r = put(m, k, v);
    rank_facts(m, k);
    put_sorted(m, k, v);
    assert(r[p] == (k, v));
    lookup_of_entry(r, p);
    if j != k {
        lookup_finds(m, j);
        lookup_finds(r, j);
        if exists|i: int| 0 <= i < m.len() && #[trigger] m[i].0 == j {
            let i = choose|i: int| 0 <= i < m.len() && #[trigger] m[i].0 == j;
            lookup_of_entry(m, i);
            let q = if p < m.len() && m[p].0 == k {
                i
            } else if i < p {
                i
            } else {
                i + 1
            };
            assert(r[q] == m[i]);
            lookup_of_entry(r, q);
        } else if exists|i: int| 0 <= i < r.len() && #[trigger] r[i].0 == j {
            let i = choose|i: int| 0 <= i < r.len() && #[trigger] r[i].0 == j;
            let q = if p < m.len() && m[p].0 == k {
                i
            } else if i < p {
                i
            } else {
                i - 1
            };
            assert(i != p);
            assert(m[q] == r[i]);
            assert(false);
        }
    }
}

/// What is put under a name replaces what was put there before.
pub proof fn put_over_put<W>(m: Seq<(Seq<char>, W)>, k: Seq<char>, w: W, v: W)
    requires
        sorted(m),
    ensures
        put(put(m, k, w), k, v) == put(m, k, v),
{
    let p = rank(m, k);
    let r = put(m, k, w);
    rank_facts(m, k);
    before_irreflexive(k);
    assert(r[p] == (k, w));
    assert forall|i: int| 0 <= i < p implies before(#[trigger] r[i].0, k) by {
        assert(r[i] == m[i]);
    }
    rank_is(r, k, p);
    assert(put(r, k, v) =~= put(m, k, v));
}

/// What is put under a name does not depend on what was cut there before.
pub proof fn put_over_cut<W>(m: Seq<(Seq<char>, W)>, k: Seq<char>, v: W)
    requires
        sorted(m),
    ensures
        put(cut(m, k), k, v) == put(m, k, v),
{
    let p = rank(m, k);
    let r = cut(m, k);
    rank_facts(m, k);
    if p < m.len() && m[p].0 == k {
        assert forall|i: int| 0 <= i < p implies before(#[trigger] r[i].0, k) by {
            assert(r[i] == m[i]);
        }
        if p < r.len() {
            assert(r[p] == m[p + 1]);
            assert(before(m[p].0, m[p + 1].0));
            before_irreflexive(k);
            if before(r[p].0, k) {
                before_transitive(k, r[p].0, k);
            }
        }
        rank_is(r, k, p);
        assert(put(r, k, v) =~= put(m, k, v));
    }
}

/// Cutting a name takes away what was put there.
pub proof fn cut_over_put<W>(m: Seq<(Seq<char>, W)>, k: Seq<char>, w: W)
    requires
        sorted(m),
    ensures
        cut(put(m, k, w), k) == cut(m, k),
{
    let p = rank(m, k);
    let r = put(m, k, w);
    rank_facts(m, k);
    before_irreflexive(k);
    assert(r[p] == (k, w));
    assert forall|i: int| 0 <= i < p implies before(#[trigger] r[i].0, k) by {
        assert(r[i] == m[i]);
    }
    rank_is(r, k, p);
    assert(cut(r, k) =~= cut(m, k));
}

/// Cutting a name twice is cutting it once.
pub proof fn cut_over_cut<W>(m: Seq<(Seq<char>, W)>, k: Seq<char>)
    requires
        sorted(m),
    ensures
        cut(cut(m, k), k) == cut(m, k),
{
    lookup_of_cut(m, k, k);
}

/// Putting back what is there changes nothing.
pub proof fn put_of_lookup<W>(m: Seq<(Seq<char>, W)>, k: Seq<char>)
    ensures
        lookup(m, k) matches Some(v) ==> put(m, k, v) == m,
{
    rank_facts(m, k);
    if let Some(v) = lookup(m, k) {
        assert(put(m, k, v) =~= m);
    }
}

/// A name that was cut is not found, and every other name keeps what it had.
pub proof fn lookup_of_cut<W>(m: Seq<(Seq<char>, W)>, k: Seq<char>, j: Seq<char>)
    requires
        sorted(m),
    ensures
        lookup(cut(m, k), j) == if j == k {
            None
        } else {
            lookup(m, j)
        },
{
    let p = rank(m, k);
    let r = cut(m, k);
    rank_facts(m, k);
    cut_sorted(m, k);
    lookup_finds(m, j);
    lookup_finds(r, j);
    if p < m.len() && m[p].0 == k {
        if lookup(r, j) is Some {
            let i = choose|i: int| 0 <= i < r.len() && #[trigger] r[i].0 == j;
            let q = if i < p {
                i
            } else {
                i + 1
            };
            assert(m[q] == r[i]);
            lookup_of_entry(r, i);
            lookup_of_entry(m, q);
            lookup_of_entry(m, p);
            if j == k {
                assert(q == p);
            }
        } else if j != k && lookup(m, j) is Some {
            let i = choose|i: int| 0 <= i < m.len() && #[trigger] m[i].0 == j;
            let q = if i < p {
                i
            } else {
                i - 1
            };
            assert(i != p);
            assert(r[q] == m[i]);
            assert(false);
        }
    }
}

/// The names increase strictly, so none occurs twice.
pub open spec fn ascending(s: Seq<Seq<char>>) -> bool {
    forall|i: int, j: int| 0 <= i < j < s.len() ==> before(#[trigger] s[i], #[trigger] s[j])
}

/// Puts a name in its place in an ascending list, unless it is there already.
pub fn insert_name<'a, K: Name>(names: &mut Vec<&'a K>, name: &'a K)
    requires
        ascending(old(names).deep_view()),
    ensures
        ascending(final(names).deep_view()),
        forall|n: Seq<char>| #[trigger]
            final(names).deep_view().contains(n) == (old(names).deep_view().contains(n) || n
                == name.deep_view()),
{
    let ghost start = names.deep_view();
    let ghost k = name.deep_view();
    let mut p: usize = 0;
    while p < names.len() && precedes(names[p].text(), name.text())
        invariant
            p <= names@.len(),
            start == names.deep_view(),
            k == name.deep_view(),
            forall|i: int| 0 <= i < p ==> before(#[trigger] start[i], k),
        decreases names.len() - p,
    {
        assert(before(start[p as int], k));
        p = p + 1;
    }
    if p < names.len() && names[p].same(name) {
        assert(start[p as int] == k);
        assert forall|n: Seq<char>| #[trigger] start.contains(n) == (start.contains(n) || n
            == k) by {
            if n == k {
                assert(start[p as int] == n);
            }
        }
        return;
    }
    names.insert(p, name);
    let ghost after = names.deep_view();
    assert(after =~= start.insert(p as int, k));
    proof {
        if p < start.len() {
            before_total(start[p as int], k);
        }
        assert forall|i: int, j: int| 0 <= i < j < after.len() implies before(
            #[trigger] after[i],
            #[trigger] after[j],
        ) by {
            if j < p {
                assert(after[i] == start[i] && after[j] == start[j]);
            } else if j == p {
                assert(after[i] == start[i] && before(start[i], k));
            } else if i > p {
                assert(after[i] == start[i - 1] && after[j] == start[j - 1]);
            } else if i == p {
                assert(after[j] == start[j - 1]);
                if j - 1 > p {
                    before_transitive(k, start[p as int], start[j - 1]);
                }
            } else {
                assert(after[i] == start[i] && after[j] == start[j - 1]);
            }
        }
        assert forall|n: Seq<char>| #[trigger] after.contains(n) == (start.contains(n) || n
            == k) by {
            assert(after[p as int] == k);
            if start.contains(n) {
                let i = choose|i: int| 0 <= i < start.len() && start[i] == n;
                if i < p {
                    assert(after[i] == n);
                } else {
                    assert(after[i + 1] == n);
                }
            }
            if after.contains(n) && n != k {
                let i = choose|i: int| 0 <= i < after.len() && after[i] == n;
                if i < p {
                    assert(start[i] == n);
                } else {
                    assert(start[i - 1] == n);
                }
            }
        }
    }
}

/// A map from names to values whose entries stand in the order of the names.
#[derive(Debug, PartialEq, Eq)]
pub struct NameMap<K: Name, V: Value> {
    entries: Vec<(K, V)>,
}

impl<K: Name, V: Value> DeepView for NameMap<K, V> {
    type V = Seq<(Seq<char>, V::V)>;

    closed spec fn deep_view(&self) -> Seq<(Seq<char>, V::V)> {
        Seq::new(
            self.entries@.len(),
            |i: int| (self.entries@[i].0.deep_view(), self.entries@[i].1.deep_view()),
        )
    }
}

impl<K: Name, V: Value> NameMap<K, V> {
    /// The entries stand in the order of their names.
    #[verifier::type_invariant]
    pub open spec fn ordered(self) -> bool {
        sorted(self.deep_view())
    }

    /// A map without entries.
    pub fn new() -> (r: Self)
        ensures
            r.deep_view() == Seq::<(Seq<char>, V::V)>::empty(),
    {
        let r = NameMap { entries: Vec::new() };
        assert(r.deep_view() =~= Seq::<(Seq<char>, V::V)>::empty());
        r
    }

    /// The number of entries.
    pub fn len(&self) -> (r: usize)
        ensures
            r == self.deep_view().len(),
    {
        self.entries.len()
    }

    /// Whether the map has no entries.
    pub fn is_empty(&self) -> (r: bool)
        ensures
            r == (self.deep_view().len() == 0),
    {
        self.entries.len() == 0
    }

    /// The `i`th name.
    pub fn key(&self, i: usize) -> (r: &K)
        requires
            i < self.deep_view().len(),
        ensures
            r.deep_view() == self.deep_view()[i as int].0,
    {
        &self.entries[i].0
    }

    /// The value under the `i`th name.
    pub fn value(&self, i: usize) -> (r: &V)
        requires
            i < self.deep_view().len(),
        ensures
            r.deep_view() == self.deep_view()[i as int].1,
    {
        &self.entries[i].1
    }

    /// The number of leading entries whose names come before `k`.
    fn rank_of(&self, k: &K) -> (r: usize)
        ensures
            r == rank(self.deep_view(), k.deep_view()),
            r <= self.entries@.len(),
    {
        let mut i: usize = 0;
        while i < self.entries.len()
            invariant
                i <= self.entries@.len(),
                forall|j: int|
                    0 <= j < i ==> before(#[trigger] self.deep_view()[j].0, k.deep_view()),
            decreases self.entries.len() - i,
        {
            if !precedes(self.entries[i].0.text(), k.text()) {
                proof {
                    rank_is(self.deep_view(), k.deep_view(), i as int);
                }
                return i;
            }
            i = i + 1;
        }
        proof {
            rank_is(self.deep_view(), k.deep_view(), i as int);
        }
        i
    }

    /// The value under `k`.
    pub fn get(&self, k: &K) -> (r: Option<&V>)
        ensures
            match r {
                Some(v) => lookup(self.deep_view(), k.deep_view()) == Some(v.deep_view()),
                None => lookup(self.deep_view(), k.deep_view()) is None,
            },
    {
        let p: usize = self.rank_of(k);
        if p < self.entries.len() && self.entries[p].0.same(k) {
            Some(&self.entries[p].1)
        } else {
            None
        }
    }

    /// Whether there is an entry under `k`.
    pub fn contains_key(&self, k: &K) -> (r: bool)
        ensures
            r == (lookup(self.deep_view(), k.deep_view()) is Some),
    {
        self.get(k).is_some()
    }

    /// Puts `v` under `k`, in place of what was there.
    pub fn insert(&mut self, k: K, v: V)
        ensures
            final(self).deep_view() == put(old(self).deep_view(), k.deep_view(), v.deep_view()),
    {
        proof {
            use_type_invariant(&*self);
            put_sorted(self.deep_view(), k.deep_view(), v.deep_view());
        }
        let p: usize = self.rank_of(&k);
        let ghost start = self.deep_view();
        let ghost kv = k.deep_view();
        let ghost vv = v.deep_view();
        let mut entries: Vec<(K, V)> = Vec::new();
        std::mem::swap(&mut entries, &mut self.entries);
        if p < entries.len() && entries[p].0.same(&k) {
            entries.set(p, (k, v));
        } else {
            entries.insert(p, (k, v));
        }
        let ghost shown = Seq::new(
            entries@.len(),
            |i: int| (entries@[i].0.deep_view(), entries@[i].1.deep_view()),
        );
        assert(shown =~= put(start, kv, vv));
        self.entries = entries;
    }

    /// Puts `v` under `k`, which comes after every name that is there.
    pub fn append(&mut self, k: K, v: V)
        requires
            old(self).deep_view().len() > 0 ==> before(
                old(self).deep_view().last().0,
                k.deep_view(),
            ),
        ensures
            final(self).deep_view() == old(self).deep_view().push((k.deep_view(), v.deep_view())),
    {
        let ghost start = self.deep_view();
        let ghost kv = k.deep_view();
        let ghost after = start.push((kv, v.deep_view()));
        proof {
            use_type_invariant(&*self);
            assert forall|i: int, j: int| 0 <= i < j < after.len() implies before(
                #[trigger] after[i].0,
                #[trigger] after[j].0,
            ) by {
                if j == start.len() && i < start.len() - 1 {
                    before_transitive(start[i].0, start.last().0, kv);
                }
            }
        }
        let mut entries: Vec<(K, V)> = Vec::new();
        std::mem::swap(&mut entries, &mut self.entries);
        entries.push((k, v));
        let ghost shown = Seq::new(
            entries@.len(),
            |i: int| (entries@[i].0.deep_view(), entries@[i].1.deep_view()),
        );
        assert(shown =~= after);
        self.entries = entries;
    }

    /// Removes the entry under `k`.
    pub fn remove(&mut self, k: &K)
        ensures
            final(self).deep_view() == cut(old(self).deep_view(), k.deep_view()),
    {
        proof {
            use_type_invariant(&*self);
            cut_sorted(self.deep_view(), k.deep_view());
        }
        let p: usize = self.rank_of(k);
        let ghost start = self.deep_view();
        if p < self.entries.len() && self.entries[p].0.same(k) {
            let mut entries: Vec<(K, V)> = Vec::new();
            std::mem::swap(&mut entries, &mut self.entries);
            entries.remove(p);
            let ghost shown = Seq::new(
                entries@.len(),
                |i: int| (entries@[i].0.deep_view(), entries@[i].1.deep_view()),
            );
            assert(shown =~= cut(start, k.deep_view()));
            self.entries = entries;
        }
    }
}

impl<K: Name, V: Value> Clone for NameMap<K, V> {
    fn clone(&self) -> (r: Self)
        ensures
            r.deep_view() == self.deep_view(),
    {
        self.dup()
    }
}

impl<K: Name, V: Value> Default for NameMap<K, V> {
    fn default() -> (r: Self)
        ensures
            r.deep_view() == Seq::<(Seq<char>, V::V)>::empty(),
    {
        NameMap::new()
    }
}

impl<K: Name, V: Value> Value for NameMap<K, V> {
    fn same(&self, other: &Self) -> (r: bool) {
        if self.entries.len() != other.entries.len() {
            assert(self.deep_view().len() != other.deep_view().len());
            return false;
        }
        let mut i: usize = 0;
        while i < self.entries.len()
            invariant
                i <= self.entries@.len() == other.entries@.len(),
                forall|j: int| 0 <= j < i ==> self.deep_view()[j] == other.deep_view()[j],
            decreases self.entries.len() - i,
        {
            if !self.entries[i].0.same(&other.entries[i].0) || !self.entries[i].1.same(
                &other.entries[i].1,
            ) {
                assert(self.deep_view()[i as int] != other.deep_view()[i as int]);
                return false;
            }
            i = i + 1;
        }
        assert(self.deep_view() =~= other.deep_view());
        true
    }

    fn dup(&self) -> (r: Self) {
        proof {
            use_type_invariant(&*self);
        }
        let mut entries: Vec<(K, V)> = Vec::new();
        let mut i: usize = 0;
        while i < self.entries.len()
            invariant
                i <= self.entries@.len(),
                entries@.len() == i,
                forall|j: int|
                    0 <= j < i ==> (entries@[j].0.deep_view(), entries@[j].1.deep_view())
                        == #[trigger] self.deep_view()[j],
            decreases self.entries.len() - i,
        {
            entries.push((self.entries[i].0.dup(), self.entries[i].1.dup()));
            i = i + 1;
        }
        let ghost shown = Seq::new(
            entries@.len(),
            |i: int| (entries@[i].0.deep_view(), entries@[i].1.deep_view()),
        );
        assert(shown =~= self.deep_view());
        NameMap { entries }
    }
}

} // verus!
