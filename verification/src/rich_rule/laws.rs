//! How a rule's text falls into tokens.

use vstd::prelude::*;

use crate::rich_rule;
use crate::text;

verus! {

/// A word that stands for itself outside quotes.
pub open spec fn plain(w: Seq<char>) -> bool {
    w.len() > 0 && forall|i: int|
        0 <= i < w.len() ==> (#[trigger] w[i]) != '"' && !text::white(w[i])
}

/// One more token in front.
pub open spec fn preceded(token: Seq<char>, rest: Option<Seq<Seq<char>>>) -> Option<
    Seq<Seq<char>>,
> {
    match rest {
        Some(tokens) => Some(seq![token] + tokens),
        None => None,
    }
}

proof fn same_rest(s: Seq<char>, i: int, t: Seq<char>, j: int, current: Seq<char>, quoted: bool)
    requires
        0 <= i <= s.len(),
        0 <= j <= t.len(),
        s.skip(i) == t.skip(j),
    ensures
        rich_rule::tokens_from(s, i, current, quoted) == rich_rule::tokens_from(
            t,
            j,
            current,
            quoted,
        ),
    decreases s.len() - i,
{
    assert(s.skip(i).len() == s.len() - i);
    assert(t.skip(j).len() == t.len() - j);
    if i < s.len() {
        assert(s.skip(i)[0] == s[i]);
        assert(t.skip(j)[0] == t[j]);
        assert(s.skip(i + 1) =~= s.skip(i).skip(1));
        assert(t.skip(j + 1) =~= t.skip(j).skip(1));
        same_rest(s, i + 1, t, j + 1, current, !quoted);
        same_rest(s, i + 1, t, j + 1, current, quoted);
        same_rest(s, i + 1, t, j + 1, Seq::empty(), quoted);
        same_rest(s, i + 1, t, j + 1, current.push(s[i]), quoted);
    }
}

/// Characters that neither quote nor separate extend the current token.
proof fn run(w: Seq<char>, rest: Seq<char>, current: Seq<char>, quoted: bool)
    requires
        forall|i: int| 0 <= i < w.len() ==> (#[trigger] w[i]) != '"'
            && (quoted || !text::white(w[i])),
    ensures
        rich_rule::tokens_from(w + rest, 0, current, quoted) == rich_rule::tokens_from(
            rest,
            0,
            current + w,
            quoted,
        ),
    decreases w.len(),
{
    if w.len() == 0 {
        assert(w + rest =~= rest);
        assert(current + w =~= current);
    } else {
        let s = w + rest;
        let tail = w.skip(1);
        assert(s[0] == w[0]);
        assert(s.skip(1) =~= (tail + rest).skip(0));
        same_rest(s, 1, tail + rest, 0, current.push(w[0]), quoted);
        run(tail, rest, current.push(w[0]), quoted);
        assert(current.push(w[0]) + tail =~= current + w);
    }
}

/// A quote opens or closes.
proof fn quote(rest: Seq<char>, current: Seq<char>, quoted: bool)
    ensures
        rich_rule::tokens_from(seq!['"'] + rest, 0, current, quoted) == rich_rule::tokens_from(
            rest,
            0,
            current,
            !quoted,
        ),
{
    let s = seq!['"'] + rest;
    assert(s[0] == '"');
    assert(s.skip(1) =~= rest.skip(0));
    same_rest(s, 1, rest, 0, current, !quoted);
}

/// A space outside quotes ends the current token.
proof fn space(rest: Seq<char>, current: Seq<char>)
    requires
        current.len() > 0,
    ensures
        rich_rule::tokens_from(seq![' '] + rest, 0, current, false) == preceded(
            current,
            rich_rule::tokens_of(rest),
        ),
{
    let s = seq![' '] + rest;
    assert(s[0] == ' ');
    assert(s.skip(1) =~= rest.skip(0));
    same_rest(s, 1, rest, 0, Seq::empty(), false);
}

/// A word, a space and a rest: the word is the first token.
pub proof fn word_first(w: Seq<char>, rest: Seq<char>)
    requires
        plain(w),
    ensures
        rich_rule::tokens_of(w + (seq![' '] + rest)) == preceded(w, rich_rule::tokens_of(rest)),
{
    run(w, seq![' '] + rest, Seq::empty(), false);
    assert(Seq::<char>::empty() + w =~= w);
    space(rest, w);
}

/// A word alone is the only token.
pub proof fn word_alone(w: Seq<char>)
    requires
        plain(w),
    ensures
        rich_rule::tokens_of(w) == Some(seq![w]),
{
    run(w, Seq::empty(), Seq::empty(), false);
    assert(w + Seq::<char>::empty() =~= w);
    assert(Seq::<char>::empty() + w =~= w);
}

/// A key, a quoted value, a space and a rest: key and value, without the
/// quotes, are the first token.
pub proof fn pair_first(key: Seq<char>, value: Seq<char>, rest: Seq<char>)
    requires
        plain(key),
        text::free_of(value, '"'),
    ensures
        rich_rule::tokens_of(
            key + (seq!['"'] + (value + (seq!['"'] + (seq![' '] + rest)))),
        ) == preceded(key + value, rich_rule::tokens_of(rest)),
{
    let r3 = seq![' '] + rest;
    let r2 = seq!['"'] + r3;
    let r1 = value + r2;
    run(key, seq!['"'] + r1, Seq::empty(), false);
    assert(Seq::<char>::empty() + key =~= key);
    quote(r1, key, false);
    run(value, r2, key, true);
    quote(r3, key + value, true);
    space(rest, key + value);
}

/// A key and its quoted value.
pub open spec fn pair(key: Seq<char>, value: Seq<char>) -> Seq<char> {
    key + (seq!['"'] + (value + seq!['"']))
}

/// A key and its quoted value alone are the only token, without the quotes.
pub proof fn pair_alone(key: Seq<char>, value: Seq<char>)
    requires
        plain(key),
        text::free_of(value, '"'),
    ensures
        rich_rule::tokens_of(pair(key, value)) == Some(seq![key + value]),
{
    let r2 = seq!['"'];
    let r1 = value + r2;
    let none = Seq::<char>::empty();
    run(key, seq!['"'] + r1, none, false);
    assert(none + key =~= key);
    quote(r1, key, false);
    run(value, r2, key, true);
    assert(r2 =~= seq!['"'] + none);
    quote(none, key + value, true);
}

proof fn tokens_continue(s: Seq<char>, r: Seq<char>, i: int, current: Seq<char>, quoted: bool)
    requires
        0 <= i <= s.len(),
        rich_rule::tokens_from(s, i, current, quoted) is Some,
        rich_rule::tokens_of(r) is Some,
    ensures
        rich_rule::tokens_from(s + (seq![' '] + r), i, current, quoted) == Some(
            rich_rule::tokens_from(s, i, current, quoted)->0 + rich_rule::tokens_of(r)->0,
        ),
    decreases s.len() - i,
{
    let t = s + (seq![' '] + r);
    let more = rich_rule::tokens_of(r)->0;
    if i == s.len() {
        assert(t[i] == ' ');
        assert(t.skip(i + 1) =~= r.skip(0));
        same_rest(t, i + 1, r, 0, Seq::empty(), false);
        if current.len() == 0 {
            assert(current =~= Seq::empty());
            assert(Seq::<Seq<char>>::empty() + more =~= more);
        }
    } else {
        assert(t[i] == s[i]);
        if s[i] == '"' {
            tokens_continue(s, r, i + 1, current, !quoted);
        } else if text::white(s[i]) && !quoted {
            if current.len() == 0 {
                tokens_continue(s, r, i + 1, current, quoted);
            } else {
                tokens_continue(s, r, i + 1, Seq::empty(), quoted);
                let rest = rich_rule::tokens_from(s, i + 1, Seq::empty(), quoted)->0;
                assert(seq![current] + (rest + more) =~= (seq![current] + rest) + more);
            }
        } else {
            tokens_continue(s, r, i + 1, current.push(s[i]), quoted);
        }
    }
}

/// The tokens of two texts with a space between them are those of the first,
/// and behind them those of the second.
pub proof fn tokens_joined(s: Seq<char>, r: Seq<char>)
    requires
        rich_rule::tokens_of(s) is Some,
        rich_rule::tokens_of(r) is Some,
    ensures
        rich_rule::tokens_of(s + (seq![' '] + r)) == Some(
            rich_rule::tokens_of(s)->0 + rich_rule::tokens_of(r)->0,
        ),
{
    tokens_continue(s, r, 0, Seq::empty(), false);
}

} // verus!
