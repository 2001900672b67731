//! IP addresses and their text forms: dotted quads for IPv4, colon-separated
//! hexadecimal groups with `::` compression for IPv6.

use vstd::prelude::*;

use crate::model::Value;
use crate::number;
use crate::text;

verus! {

/// An IP address as a number in network byte order.
#[derive(Debug, Clone, Copy, PartialEq, Eq, Hash, PartialOrd, Ord, Structural)]
pub enum IpAddr {
    /// An IPv4 address.
    V4(u32),
    /// An IPv6 address.
    V6(u128),
}

impl DeepView for IpAddr {
    type V = IpAddr;

    open spec fn deep_view(&self) -> IpAddr {
        *self
    }
}

impl Value for IpAddr {
    fn same(&self, other: &Self) -> (r: bool) {
        *self == *other
    }

    fn dup(&self) -> (r: Self) {
        *self
    }
}

// ---------------------------------------------------------------------------
// Dotted quads
// ---------------------------------------------------------------------------
/// The number that one part of a dotted quad spells: up to three digits
/// without a leading zero, at most 255.
pub open spec fn octet(s: Seq<char>) -> Option<int> {
    if number::all_digits(s) && s.len() <= 3 && (s.len() == 1 || s[0] != '0') && number::value(s)
        <= 255 {
        Some(number::value(s) as int)
    } else {
        None
    }
}

/// The IPv4 address that a dotted quad spells.
pub open spec fn quad(s: Seq<char>) -> Option<int> {
    let p = text::pieces(s, '.');
    if p.len() == 4 {
        match (octet(p[0]), octet(p[1]), octet(p[2]), octet(p[3])) {
            (Some(a), Some(b), Some(c), Some(d)) => Some(
                a * 0x100_0000 + b * 0x1_0000 + c * 0x100 + d,
            ),
            _ => None,
        }
    } else {
        None
    }
}

/// The dotted quad of an IPv4 address.
pub open spec fn quad_text(n: int) -> Seq<char> {
    let n1 = n / 256;
    let n2 = n1 / 256;
    let n3 = n2 / 256;
    number::decimal(n3 as nat) + seq!['.'] + number::decimal((n2 % 256) as nat) + seq!['.']
        + number::decimal((n1 % 256) as nat) + seq!['.'] + number::decimal((n % 256) as nat)
}

fn parse_octet(s: &str) -> (r: Option<u32>)
    ensures
        match r {
            Some(n) => octet(s@) == Some(n as int) && n <= 255,
            None => octet(s@) is None,
        },
{
    let sc = text::chars_of(s);
    if sc.len() == 0 || sc.len() > 3 || (sc.len() > 1 && sc[0] == '0') || sc[0] == '+' {
        proof {
            if sc@.len() > 0 && sc@[0] == '+' {
                assert(!text::digit(s@[0]));
            }
        }
        return None;
    }
    match number::parse_unsigned(s, 255) {
        Some(n) => Some(n as u32),
        None => None,
    }
}

fn parse_quad(s: &str) -> (r: Option<u32>)
    ensures
        match r {
            Some(n) => quad(s@) == Some(n as int),
            None => quad(s@) is None,
        },
{
    let parts = text::split(s, '.');
    if parts.len() != 4 {
        return None;
    }
    assert(forall|i: int| 0 <= i < 4 ==> parts.deep_view()[i] == #[trigger] parts@[i]@);
    let a = parse_octet(parts[0]);
    let b = parse_octet(parts[1]);
    let c = parse_octet(parts[2]);
    let d = parse_octet(parts[3]);
    match (a, b, c, d) {
        (Some(a), Some(b), Some(c), Some(d)) => Some(
            a * 0x100_0000 + b * 0x1_0000 + c * 0x100 + d,
        ),
        _ => None,
    }
}

fn show_quad(n: u32) -> (r: String)
    ensures
        r@ == quad_text(n as int),
{
    proof {
        reveal_strlit(".");
        assert("."@ =~= seq!['.']);
    }
    let n1: u32 = n / 256;
    let n2: u32 = n1 / 256;
    let n3: u32 = n2 / 256;
    let a = number::show(n3 as u64);
    let b = number::show((n2 % 256) as u64);
    let c = number::show((n1 % 256) as u64);
    let d = number::show((n % 256) as u64);
    text::cat7(a.as_str(), ".", b.as_str(), ".", c.as_str(), ".", d.as_str())
}

// ---------------------------------------------------------------------------
// Hexadecimal groups
// ---------------------------------------------------------------------------
/// The number that a hexadecimal digit stands for.
pub open spec fn hex_digit_value(c: char) -> int {
    if text::digit(c) {
        c as int - 48
    } else if 'a' <= c && c <= 'f' {
        c as int - 87
    } else {
        c as int - 55
    }
}

/// The number that a run of hexadecimal digits spells.
pub open spec fn hex_value(s: Seq<char>) -> int
    decreases s.len(),
{
    if s.len() == 0 {
        0
    } else {
        hex_value(s.drop_last()) * 16 + hex_digit_value(s.last())
    }
}

/// Hexadecimal digits and nothing else.
pub open spec fn all_hex(s: Seq<char>) -> bool {
    forall|i: int| 0 <= i < s.len() ==> text::hex_digit(#[trigger] s[i])
}

/// The number that one group spells: one to four hexadecimal digits.
pub open spec fn group(s: Seq<char>) -> Option<int> {
    if 0 < s.len() <= 4 && all_hex(s) {
        Some(hex_value(s))
    } else {
        None
    }
}

/// The character for a hexadecimal digit, in lower case.
pub open spec fn hex_digit_char(n: int) -> char {
    if n < 10 {
        (48 + n) as char
    } else {
        (87 + n) as char
    }
}

/// The shortest hexadecimal spelling of a number.
pub open spec fn hex_text(n: nat) -> Seq<char>
    decreases n,
{
    if n < 16 {
        seq![hex_digit_char(n as int)]
    } else {
        hex_text(n / 16).push(hex_digit_char((n % 16) as int))
    }
}

/// The groups that the parts spell. Where `quad_last` holds, a dotted quad may
/// stand at the end for two groups.
pub open spec fn groups(parts: Seq<Seq<char>>, quad_last: bool) -> Option<Seq<int>>
    decreases parts.len(),
{
    if parts.len() == 0 {
        Some(Seq::empty())
    } else {
        match groups(parts.drop_last(), false) {
            None => None,
            Some(g) => match group(parts.last()) {
                Some(x) => Some(g.push(x)),
                None => if quad_last {
                    match quad(parts.last()) {
                        Some(n) => Some(g.push(n / 0x1_0000).push(n % 0x1_0000)),
                        None => None,
                    }
                } else {
                    None
                },
            },
        }
    }
}

/// The groups on one side of `::`: none for an empty text.
pub open spec fn side(s: Seq<char>, quad_last: bool) -> Option<Seq<int>> {
    if s.len() == 0 {
        Some(Seq::empty())
    } else {
        groups(text::pieces(s, ':'), quad_last)
    }
}

/// `n` groups of zero.
pub open spec fn zeros(n: int) -> Seq<int> {
    Seq::new(n as nat, |i: int| 0)
}

/// The number that eight groups make.
pub open spec fn of_groups(g: Seq<int>) -> int {
    g[0] * 0x1_0000_0000_0000_0000_0000_0000_0000 + g[1] * 0x1_0000_0000_0000_0000_0000_0000 + g[2]
        * 0x1_0000_0000_0000_0000_0000 + g[3] * 0x1_0000_0000_0000_0000 + g[4]
        * 0x1_0000_0000_0000 + g[5] * 0x1_0000_0000 + g[6] * 0x1_0000 + g[7]
}

/// The eight groups of a number.
pub open spec fn to_groups(n: int) -> Seq<int> {
    let n1 = n / 0x1_0000;
    let n2 = n1 / 0x1_0000;
    let n3 = n2 / 0x1_0000;
    let n4 = n3 / 0x1_0000;
    let n5 = n4 / 0x1_0000;
    let n6 = n5 / 0x1_0000;
    let n7 = n6 / 0x1_0000;
    seq![
        n7,
        n6 % 0x1_0000,
        n5 % 0x1_0000,
        n4 % 0x1_0000,
        n3 % 0x1_0000,
        n2 % 0x1_0000,
        n1 % 0x1_0000,
        n % 0x1_0000,
    ]
}

/// The IPv6 address that a text spells: eight groups, or fewer around one `::`
/// that stands for at least one group of zero.
pub open spec fn colons(s: Seq<char>) -> Option<int> {
    match text::parted(s, seq![':', ':']) {
        Some((head, tail)) => match (side(head, false), side(tail, true)) {
            (Some(a), Some(b)) => if a.len() + b.len() <= 7 {
                Some(of_groups(a + zeros(8 - a.len() - b.len()) + b))
            } else {
                None
            },
            _ => None,
        },
        None => match groups(text::pieces(s, ':'), true) {
            Some(g) => if g.len() == 8 {
                Some(of_groups(g))
            } else {
                None
            },
            None => None,
        },
    }
}

/// The length of the run of zero groups that starts at `i`.
pub open spec fn zero_run(g: Seq<int>, i: int) -> int
    decreases g.len() - i,
{
    if i < 0 || i >= g.len() || g[i] != 0 {
        0
    } else {
        1 + zero_run(g, i + 1)
    }
}

/// Start and length of the longest run of zero groups at or after `i`; the
/// first one, where several are longest.
pub open spec fn longest_zeros(g: Seq<int>, i: int) -> (int, int)
    decreases g.len() - i,
{
    if i < 0 || i >= g.len() {
        (g.len() as int, 0)
    } else {
        let rest = longest_zeros(g, i + 1);
        if zero_run(g, i) > 0 && zero_run(g, i) >= rest.1 {
            (i, zero_run(g, i))
        } else {
            rest
        }
    }
}

/// The groups in hexadecimal.
pub open spec fn hex_texts(g: Seq<int>) -> Seq<Seq<char>> {
    Seq::new(g.len(), |i: int| hex_text(g[i] as nat))
}

/// The groups in hexadecimal, with a colon between neighbours.
pub open spec fn groups_text(g: Seq<int>) -> Seq<char> {
    text::joined(hex_texts(g), seq![':'])
}

/// An IPv4-mapped address: `::ffff:` and an IPv4 address.
pub open spec fn mapped(g: Seq<int>) -> bool {
    g[0] == 0 && g[1] == 0 && g[2] == 0 && g[3] == 0 && g[4] == 0 && g[5] == 0xffff
}

/// The text of an IPv6 address: the longest run of two or more zero groups is
/// written `::`, and an IPv4-mapped address ends in a dotted quad.
pub open spec fn colons_text(n: int) -> Seq<char> {
    let g = to_groups(n);
    if mapped(g) {
        "::ffff:"@ + quad_text(g[6] * 0x1_0000 + g[7])
    } else {
        let (start, len) = longest_zeros(g, 0);
        if len > 1 {
            groups_text(g.take(start)) + seq![':', ':'] + groups_text(g.skip(start + len))
        } else {
            groups_text(g)
        }
    }
}

proof fn hex_value_bound(s: Seq<char>)
    requires
        all_hex(s),
    ensures
        0 <= hex_value(s),
        s.len() <= 1 ==> hex_value(s) < 16,
        s.len() <= 2 ==> hex_value(s) < 256,
        s.len() <= 3 ==> hex_value(s) < 4096,
        s.len() <= 4 ==> hex_value(s) < 65536,
    decreases s.len(),
{
    if s.len() > 0 {
        assert(text::hex_digit(s[s.len() - 1]));
        assert forall|i: int| 0 <= i < s.drop_last().len() implies text::hex_digit(
            #[trigger] s.drop_last()[i],
        ) by {
            assert(text::hex_digit(s[i]));
        }
        hex_value_bound(s.drop_last());
    }
}

fn parse_group(s: &str) -> (r: Option<u32>)
    ensures
        match r {
            Some(n) => group(s@) == Some(n as int) && n < 0x1_0000,
            None => group(s@) is None,
        },
{
    let sc = text::chars_of(s);
    if sc.len() == 0 || sc.len() > 4 {
        return None;
    }
    let mut n: u32 = 0;
    let mut i: usize = 0;
    assert(s@.take(0) =~= Seq::<char>::empty());
    while i < sc.len()
        invariant
            sc@ == s@,
            i <= sc@.len() <= 4,
            n == hex_value(s@.take(i as int)),
            forall|j: int| 0 <= j < i ==> text::hex_digit(#[trigger] s@[j]),
            n < 0x1_0000,
        decreases sc.len() - i,
    {
        let c = sc[i];
        if !text::is_hex_digit(c) {
            assert(!text::hex_digit(s@[i as int]));
            return None;
        }
        let d: u32 = if text::is_digit(c) {
            c as u32 - 48
        } else if 'a' <= c && c <= 'f' {
            c as u32 - 87
        } else {
            c as u32 - 55
        };
        proof {
            let t = s@.take(i + 1);
            assert(t.drop_last() =~= s@.take(i as int));
            assert forall|j: int| 0 <= j < t.len() implies text::hex_digit(#[trigger] t[j]) by {
                assert(t[j] == s@[j]);
            }
            hex_value_bound(t);
        }
        n = n * 16 + d;
        i = i + 1;
    }
    assert(s@.take(i as int) =~= s@);
    Some(n)
}

fn show_hex(n: u32) -> (r: String)
    ensures
        r@ == hex_text(n as nat),
    decreases n,
{
    let d: u8 = (n % 16) as u8;
    let c = if d < 10 {
        (48 + d) as char
    } else {
        (87 + d) as char
    };
    let mut out = if n < 16 {
        String::new()
    } else {
        show_hex(n / 16)
    };
    out.push(c);
    assert(out@ =~= hex_text(n as nat));
    out
}

/// The numbers of a list, as mathematical integers.
pub open spec fn ints(v: Seq<u32>) -> Seq<int> {
    Seq::new(v.len(), |i: int| v[i] as int)
}

/// Every group fits in sixteen bits.
pub open spec fn small(g: Seq<int>) -> bool {
    forall|i: int| 0 <= i < g.len() ==> 0 <= #[trigger] g[i] < 0x1_0000
}

fn parse_groups(s: &str, quad_last: bool) -> (r: Option<Vec<u32>>)
    ensures
        match r {
            Some(g) => groups(text::pieces(s@, ':'), quad_last) == Some(ints(g@)) && small(
                ints(g@),
            ),
            None => groups(text::pieces(s@, ':'), quad_last) is None,
        },
{
    let parts = text::split(s, ':');
    let ghost shown = parts.deep_view();
    let mut out: Vec<u32> = Vec::new();
    let mut i: usize = 0;
    assert(shown.take(0) =~= Seq::<Seq<char>>::empty());
    assert(ints(out@) =~= Seq::<int>::empty());
    while i < parts.len()
        invariant
            shown == parts.deep_view(),
            shown == text::pieces(s@, ':'),
            i <= parts@.len(),
            groups(shown.take(i as int), quad_last && i == parts.len()) == Some(ints(out@)),
            small(ints(out@)),
            i < parts.len() ==> groups(shown.take(i as int), false) == Some(ints(out@)),
        decreases parts.len() - i,
    {
        let last = i + 1 == parts.len();
        let ghost sofar = ints(out@);
        assert(shown.take(i + 1).drop_last() =~= shown.take(i as int));
        match parse_group(parts[i]) {
            Some(n) => {
                out.push(n);
                assert(ints(out@) =~= sofar.push(n as int));
            },
            None => {
                proof {
                    if !(last && quad_last) {
                        groups_none(shown, i + 1, quad_last);
                    }
                }
                if !(last && quad_last) {
                    return None;
                }
                match parse_quad(parts[i]) {
                    Some(n) => {
                        out.push(n / 0x1_0000);
                        out.push(n % 0x1_0000);
                        assert(ints(out@) =~= sofar.push(n as int / 0x1_0000).push(
                            n as int % 0x1_0000,
                        ));
                    },
                    None => {
                        assert(shown.take(i + 1) =~= shown);
                        return None;
                    },
                }
            },
        }
        i = i + 1;
    }
    assert(shown.take(i as int) =~= shown);
    Some(out)
}

/// A part that spells no group spoils the whole, wherever it stands.
proof fn groups_none(parts: Seq<Seq<char>>, k: int, quad_last: bool)
    requires
        0 < k <= parts.len(),
        groups(parts.take(k), quad_last && k == parts.len()) is None,
        groups(parts.take(k), false) is None,
    ensures
        groups(parts, quad_last) is None,
    decreases parts.len() - k,
{
    if k == parts.len() {
        assert(parts.take(k) =~= parts);
    } else {
        assert(parts.take(k + 1).drop_last() =~= parts.take(k));
        groups_none(parts, k + 1, quad_last);
    }
}

fn parse_side(s: &str, quad_last: bool) -> (r: Option<Vec<u32>>)
    ensures
        match r {
            Some(g) => side(s@, quad_last) == Some(ints(g@)) && small(ints(g@)),
            None => side(s@, quad_last) is None,
        },
{
    if s.unicode_len() == 0 {
        let out: Vec<u32> = Vec::new();
        assert(ints(out@) =~= Seq::<int>::empty());
        Some(out)
    } else {
        parse_groups(s, quad_last)
    }
}

fn from_groups(g: &Vec<u32>) -> (r: u128)
    requires
        g@.len() == 8,
        small(ints(g@)),
    ensures
        r == of_groups(ints(g@)),
{
    proof {
        let v = ints(g@);
        assert(0 <= v[0] < 0x1_0000 && 0 <= v[1] < 0x1_0000 && 0 <= v[2] < 0x1_0000 && 0 <= v[3]
            < 0x1_0000);
        assert(0 <= v[4] < 0x1_0000 && 0 <= v[5] < 0x1_0000 && 0 <= v[6] < 0x1_0000 && 0 <= v[7]
            < 0x1_0000);
    }
    g[0] as u128 * 0x1_0000_0000_0000_0000_0000_0000_0000 + g[1] as u128
        * 0x1_0000_0000_0000_0000_0000_0000 + g[2] as u128 * 0x1_0000_0000_0000_0000_0000
        + g[3] as u128 * 0x1_0000_0000_0000_0000 + g[4] as u128 * 0x1_0000_0000_0000 + g[5] as u128
        * 0x1_0000_0000 + g[6] as u128 * 0x1_0000 + g[7] as u128
}

fn parse_colons(s: &str) -> (r: Option<u128>)
    ensures
        match r {
            Some(n) => colons(s@) == Some(n as int),
            None => colons(s@) is None,
        },
{
    proof {
        reveal_strlit("::");
        assert("::"@ =~= seq![':', ':']);
    }
    match text::split_once(s, "::") {
        Some((head, tail)) => {
            let a = parse_side(head, false);
            let b = parse_side(tail, true);
            match (a, b) {
                (Some(a), Some(b)) => {
                    if a.len() > 7 || b.len() > 7 || a.len() + b.len() > 7 {
                        return None;
                    }
                    let ghost av = ints(a@);
                    let ghost bv = ints(b@);
                    let mut g: Vec<u32> = a;
                    let mut b: Vec<u32> = b;
                    let total: usize = 8 - b.len();
                    while g.len() < total
                        invariant
                            av.len() <= g@.len() <= total,
                            ints(g@) =~= av + zeros(g@.len() - av.len()),
                            small(av),
                        decreases total - g.len(),
                    {
                        let ghost was = ints(g@);
                        g.push(0);
                        assert(ints(g@) =~= was.push(0));
                        assert(zeros(g@.len() - av.len()) =~= zeros(g@.len() - av.len() - 1).push(
                            0,
                        ));
                    }
                    g.append(&mut b);
                    assert(ints(g@) =~= av + zeros(8 - av.len() - bv.len()) + bv);
                    Some(from_groups(&g))
                },
                _ => None,
            }
        },
        None => match parse_groups(s, true) {
            Some(g) => if g.len() == 8 {
                Some(from_groups(&g))
            } else {
                None
            },
            None => None,
        },
    }
}

fn show_groups(g: &Vec<u32>, from: usize, to: usize) -> (r: String)
    requires
        from <= to <= g@.len(),
    ensures
        r@ == groups_text(ints(g@).subrange(from as int, to as int)),
{
    proof {
        reveal_strlit(":");
        assert(":"@ =~= seq![':']);
    }
    let ghost part = ints(g@).subrange(from as int, to as int);
    let mut texts: Vec<String> = Vec::new();
    let mut i: usize = from;
    while i < to
        invariant
            from <= i <= to <= g@.len(),
            part == ints(g@).subrange(from as int, to as int),
            texts@.len() == i - from,
            forall|j: int| 0 <= j < i - from ==> texts@[j]@ == #[trigger] hex_texts(part)[j],
        decreases to - i,
    {
        texts.push(show_hex(g[i]));
        i = i + 1;
    }
    assert(texts.deep_view() =~= hex_texts(part));
    text::join(&texts, ":")
}

fn zero_run_of(g: &Vec<u32>, i: usize) -> (r: usize)
    requires
        i <= g@.len(),
    ensures
        r == zero_run(ints(g@), i as int),
        i + r <= g@.len(),
    decreases g@.len() - i,
{
    if i >= g.len() || g[i] != 0 {
        0
    } else {
        1 + zero_run_of(g, i + 1)
    }
}

fn longest_zeros_of(g: &Vec<u32>, i: usize) -> (r: (usize, usize))
    requires
        i <= g@.len(),
    ensures
        (r.0 as int, r.1 as int) == longest_zeros(ints(g@), i as int),
        r.0 + r.1 <= g@.len(),
    decreases g@.len() - i,
{
    if i >= g.len() {
        (g.len(), 0)
    } else {
        let rest = longest_zeros_of(g, i + 1);
        let run: usize = zero_run_of(g, i);
        if run > 0 && run >= rest.1 {
            (i, run)
        } else {
            rest
        }
    }
}

fn show_colons(n: u128) -> (r: String)
    ensures
        r@ == colons_text(n as int),
{
    let n1: u128 = n / 0x1_0000;
    let n2: u128 = n1 / 0x1_0000;
    let n3: u128 = n2 / 0x1_0000;
    let n4: u128 = n3 / 0x1_0000;
    let n5: u128 = n4 / 0x1_0000;
    let n6: u128 = n5 / 0x1_0000;
    let n7: u128 = n6 / 0x1_0000;
    let g: Vec<u32> = vec![
        n7 as u32,
        (n6 % 0x1_0000) as u32,
        (n5 % 0x1_0000) as u32,
        (n4 % 0x1_0000) as u32,
        (n3 % 0x1_0000) as u32,
        (n2 % 0x1_0000) as u32,
        (n1 % 0x1_0000) as u32,
        (n % 0x1_0000) as u32,
    ];
    assert(ints(g@) =~= to_groups(n as int));
    if g[0] == 0 && g[1] == 0 && g[2] == 0 && g[3] == 0 && g[4] == 0 && g[5] == 0xffff {
        let q = show_quad(g[6] * 0x1_0000 + g[7]);
        text::cat2("::ffff:", q.as_str())
    } else {
        let (start, len) = longest_zeros_of(&g, 0);
        if len > 1 {
            let head = show_groups(&g, 0, start);
            let tail = show_groups(&g, start + len, 8);
            proof {
                reveal_strlit("::");
                assert("::"@ =~= seq![':', ':']);
                let v = to_groups(n as int);
                assert(v.subrange(0, start as int) =~= v.take(start as int));
                assert(v.subrange(start + len, 8) =~= v.skip(start + len));
            }
            text::cat3(head.as_str(), "::", tail.as_str())
        } else {
            assert(ints(g@).subrange(0, 8) =~= ints(g@));
            show_groups(&g, 0, 8)
        }
    }
}

// ---------------------------------------------------------------------------
// Addresses of either family
// ---------------------------------------------------------------------------
/// The address that a text spells.
pub open spec fn address(s: Seq<char>) -> Option<IpAddr> {
    match quad(s) {
        Some(n) => Some(IpAddr::V4(n as u32)),
        None => match colons(s) {
            Some(n) => Some(IpAddr::V6(n as u128)),
            None => None,
        },
    }
}

impl IpAddr {
    /// The text of the address.
    pub open spec fn spelled(self) -> Seq<char> {
        match self {
            IpAddr::V4(n) => quad_text(n as int),
            IpAddr::V6(n) => colons_text(n as int),
        }
    }

    /// Reads a dotted quad or an IPv6 address.
    pub fn parse(s: &str) -> (r: Option<IpAddr>)
        ensures
            r == address(s@),
    {
        match parse_quad(s) {
            Some(n) => Some(IpAddr::V4(n)),
            None => match parse_colons(s) {
                Some(n) => Some(IpAddr::V6(n)),
                None => None,
            },
        }
    }

    /// The text of the address.
    pub fn show(&self) -> (r: String)
        ensures
            r@ == self.spelled(),
            address(r@) == Some(*self),
    {
        proof {
            address_reads_back(*self);
        }
        match self {
            IpAddr::V4(n) => show_quad(*n),
            IpAddr::V6(n) => show_colons(*n),
        }
    }

    /// Whether this is an IPv4 address.
    pub fn is_ipv4(&self) -> (r: bool)
        ensures
            r == (self is V4),
    {
        matches!(self, IpAddr::V4(_))
    }
}

// ---------------------------------------------------------------------------
// Reading back what was written
// ---------------------------------------------------------------------------
proof fn octet_reads_back(n: nat)
    requires
        n <= 255,
    ensures
        octet(number::decimal(n)) == Some(n as int),
        text::free_of(number::decimal(n), '.'),
        text::free_of(number::decimal(n), ':'),
        text::free_of(number::decimal(n), '/'),
{
    number::decimal_shape(n);
    number::decimal_reads_back(n);
    number::decimal_free_of(n, '.');
    number::decimal_free_of(n, ':');
    number::decimal_free_of(n, '/');
}

proof fn quad_numbers(n: int)
    requires
        0 <= n < 0x1_0000_0000,
    ensures
        ({
            let n1 = n / 256;
            let n2 = n1 / 256;
            let n3 = n2 / 256;
            0 <= n3 <= 255 && n3 * 0x100_0000 + (n2 % 256) * 0x1_0000 + (n1 % 256) * 0x100 + n % 256
                == n
        }),
{
}

/// A dotted quad reads back as its number, and holds digits and dots alone.
pub proof fn quad_reads_back(n: int)
    requires
        0 <= n < 0x1_0000_0000,
    ensures
        quad(quad_text(n)) == Some(n),
        text::free_of(quad_text(n), ':'),
        text::free_of(quad_text(n), '/'),
        quad_text(n).len() > 0,
        text::digit(quad_text(n)[0]),
        !all_hex(quad_text(n)),
{
    let n1 = n / 256;
    let n2 = n1 / 256;
    let n3 = n2 / 256;
    quad_numbers(n);
    let a = number::decimal(n3 as nat);
    let b = number::decimal((n2 % 256) as nat);
    let c = number::decimal((n1 % 256) as nat);
    let d = number::decimal((n % 256) as nat);
    octet_reads_back(n3 as nat);
    octet_reads_back((n2 % 256) as nat);
    octet_reads_back((n1 % 256) as nat);
    octet_reads_back((n % 256) as nat);
    let ab = a + seq!['.'] + b;
    let abc = ab + seq!['.'] + c;
    text::pieces_of_one(a, '.');
    text::pieces_appended(a, '.', b);
    text::pieces_appended(ab, '.', c);
    text::pieces_appended(abc, '.', d);
    let s = quad_text(n);
    assert(s =~= abc + seq!['.'] + d);
    let p = text::pieces(s, '.');
    assert(p =~= seq![a, b, c, d]);
    number::decimal_shape(n3 as nat);
    number::decimal_reads_back(n3 as nat);
    assert(s[0] == a[0]);
    assert(text::digit(a[0]));
    let dot = a.len() as int;
    assert(s[dot] == '.');
    assert(!text::hex_digit(s[dot]));
    let x = a.len() as int;
    let y = x + 1 + b.len();
    let z = y + 1 + c.len();
    assert forall|i: int| 0 <= i < s.len() implies #[trigger] s[i] != ':' && s[i] != '/' by {
        if i < x {
            assert(s[i] == a[i]);
        } else if x < i < y {
            assert(s[i] == b[i - x - 1]);
        } else if y < i < z {
            assert(s[i] == c[i - y - 1]);
        } else if z < i {
            assert(s[i] == d[i - z - 1]);
        }
    }
}

proof fn hex_reads_back(n: nat)
    ensures
        hex_text(n).len() > 0,
        n < 16 ==> hex_text(n).len() == 1,
        n < 256 ==> hex_text(n).len() <= 2,
        n < 4096 ==> hex_text(n).len() <= 3,
        n < 65536 ==> hex_text(n).len() <= 4,
        all_hex(hex_text(n)),
        hex_value(hex_text(n)) == n,
    decreases n,
{
    let s = hex_text(n);
    if n < 16 {
        assert(s.drop_last() =~= Seq::<char>::empty());
        assert(hex_value(s.drop_last()) == 0);
    } else {
        hex_reads_back(n / 16);
        let t = hex_text(n / 16);
        assert(s.drop_last() =~= t);
        assert forall|i: int| 0 <= i < s.len() implies text::hex_digit(#[trigger] s[i]) by {
            if i < t.len() {
                assert(s[i] == t[i]);
            }
        }
    }
}

proof fn hex_free_of(n: nat, c: char)
    requires
        !text::hex_digit(c),
    ensures
        text::free_of(hex_text(n), c),
{
    hex_reads_back(n);
    assert forall|i: int| 0 <= i < hex_text(n).len() implies #[trigger] hex_text(n)[i] != c by {
        assert(text::hex_digit(hex_text(n)[i]));
    }
}

proof fn groups_of_hex(g: Seq<int>, quad_last: bool)
    requires
        small(g),
    ensures
        groups(hex_texts(g), quad_last) == Some(g),
    decreases g.len(),
{
    let parts = hex_texts(g);
    if g.len() == 0 {
        assert(g =~= Seq::<int>::empty());
    } else {
        let rest = g.drop_last();
        assert forall|i: int| 0 <= i < rest.len() implies 0 <= #[trigger] rest[i] < 0x1_0000 by {
            assert(rest[i] == g[i]);
        }
        assert(parts.drop_last() =~= hex_texts(rest));
        groups_of_hex(rest, false);
        assert(0 <= g[g.len() - 1] < 0x1_0000);
        hex_reads_back(g.last() as nat);
        assert(parts.last() == hex_text(g.last() as nat));
        assert(rest.push(g.last()) =~= g);
    }
}

/// The text of the groups holds hexadecimal digits and colons, no two colons
/// side by side and none at its ends.
proof fn groups_text_shape(g: Seq<int>)
    requires
        small(g),
        g.len() > 0,
    ensures
        ({
            let s = groups_text(g);
            &&& s.len() > 0
            &&& text::hex_digit(s[0])
            &&& text::hex_digit(s.last())
            &&& forall|i: int| 0 <= i < s.len() ==> text::hex_digit(#[trigger] s[i]) || s[i] == ':'
            &&& forall|i: int| 0 <= i < s.len() - 1 && #[trigger] s[i] == ':' ==> s[i + 1] != ':'
            &&& text::pieces(s, ':') == hex_texts(g)
        }),
    decreases g.len(),
{
    let parts = hex_texts(g);
    let s = groups_text(g);
    assert forall|i: int| 0 <= i < parts.len() implies text::free_of(#[trigger] parts[i], ':') by {
        hex_free_of(g[i] as nat, ':');
    }
    text::pieces_of_joined(parts, ':');
    let last = parts.last();
    hex_reads_back(g.last() as nat);
    assert(last == hex_text(g.last() as nat));
    assert(text::hex_digit(last[0]));
    assert(text::hex_digit(last[last.len() - 1]));
    if g.len() == 1 {
        assert(s == last);
        hex_free_of(g.last() as nat, ':');
    } else {
        let rest = g.drop_last();
        assert forall|i: int| 0 <= i < rest.len() implies 0 <= #[trigger] rest[i] < 0x1_0000 by {
            assert(rest[i] == g[i]);
        }
        groups_text_shape(rest);
        assert(parts.drop_last() =~= hex_texts(rest));
        let t = groups_text(rest);
        assert(s == t + seq![':'] + last);
        let n = t.len() as int;
        assert(s.last() == last[last.len() - 1]);
        assert(s[0] == t[0]);
        assert forall|i: int| 0 <= i < s.len() implies text::hex_digit(#[trigger] s[i]) || s[i]
            == ':' by {
            if i < n {
                assert(s[i] == t[i]);
            } else if i > n {
                assert(s[i] == last[i - n - 1]);
                assert(text::hex_digit(last[i - n - 1]));
            }
        }
        hex_free_of(g.last() as nat, ':');
        assert forall|i: int| 0 <= i < s.len() - 1 && #[trigger] s[i] == ':' implies s[i + 1]
            != ':' by {
            if i < n - 1 {
                assert(s[i] == t[i]);
                assert(s[i + 1] == t[i + 1]);
            } else if i == n - 1 {
                assert(s[i] == t.last());
            } else {
                assert(s[i + 1] == last[i + 1 - n - 1]);
            }
        }
    }
}

proof fn zero_run_facts(g: Seq<int>, i: int)
    requires
        0 <= i <= g.len(),
    ensures
        0 <= zero_run(g, i) <= g.len() - i,
        forall|j: int| i <= j < i + zero_run(g, i) ==> #[trigger] g[j] == 0,
    decreases g.len() - i,
{
    if i < g.len() && g[i] == 0 {
        zero_run_facts(g, i + 1);
    }
}

proof fn longest_zeros_facts(g: Seq<int>, i: int)
    requires
        0 <= i <= g.len(),
    ensures
        ({
            let (start, len) = longest_zeros(g, i);
            &&& i <= start
            &&& 0 <= len
            &&& start + len <= g.len()
            &&& forall|j: int| start <= j < start + len ==> #[trigger] g[j] == 0
        }),
    decreases g.len() - i,
{
    if i < g.len() {
        longest_zeros_facts(g, i + 1);
        zero_run_facts(g, i);
    }
}

proof fn groups_of_number(n: int)
    requires
        0 <= n < 0x1_0000_0000_0000_0000_0000_0000_0000_0000,
    ensures
        to_groups(n).len() == 8,
        small(to_groups(n)),
        of_groups(to_groups(n)) == n,
{
}

proof fn full_text_reads_back(g: Seq<int>)
    requires
        small(g),
        g.len() == 8,
    ensures
        colons(groups_text(g)) == Some(of_groups(g)),
{
    groups_text_shape(g);
    groups_of_hex(g, true);
    let s = groups_text(g);
    let pat = seq![':', ':'];
    assert forall|j: int| 0 <= j implies !text::occurs_at(s, pat, j) by {
        if text::occurs_at(s, pat, j) {
            text::occurs_char(s, pat, j, 0);
            text::occurs_char(s, pat, j, 1);
        }
    }
    text::parted_nowhere(s, pat);
}

proof fn side_reads_back(g: Seq<int>, quad_last: bool)
    requires
        small(g),
    ensures
        side(groups_text(g), quad_last) == Some(g),
{
    if g.len() == 0 {
        assert(g =~= Seq::<int>::empty());
    } else {
        groups_text_shape(g);
        groups_of_hex(g, quad_last);
    }
}

proof fn short_text_reads_back(g: Seq<int>, start: int, len: int)
    requires
        small(g),
        g.len() == 8,
        0 <= start,
        0 < len,
        start + len <= 8,
        forall|j: int| start <= j < start + len ==> #[trigger] g[j] == 0,
    ensures
        ({
            let s = groups_text(g.take(start)) + seq![':', ':'] + groups_text(g.skip(start + len));
            colons(s) == Some(of_groups(g))
        }),
{
    let a = g.take(start);
    let b = g.skip(start + len);
    assert forall|i: int| 0 <= i < a.len() implies 0 <= #[trigger] a[i] < 0x1_0000 by {
        assert(a[i] == g[i]);
    }
    assert forall|i: int| 0 <= i < b.len() implies 0 <= #[trigger] b[i] < 0x1_0000 by {
        assert(b[i] == g[start + len + i]);
    }
    let head = groups_text(a);
    let tail = groups_text(b);
    let pat = seq![':', ':'];
    let s = head + pat + tail;
    if a.len() > 0 {
        groups_text_shape(a);
    }
    assert forall|j: int| 0 <= j < head.len() implies !text::occurs_at(s, pat, j) by {
        if text::occurs_at(s, pat, j) {
            text::occurs_char(s, pat, j, 0);
            text::occurs_char(s, pat, j, 1);
            assert(s[j] == head[j]);
            if j + 1 < head.len() {
                assert(s[j + 1] == head[j + 1]);
            } else {
                assert(head[j] == head.last());
            }
        }
    }
    text::parted_around(s, pat, head, tail);
    side_reads_back(a, false);
    side_reads_back(b, true);
    assert(a + zeros(8 - a.len() - b.len()) + b =~= g);
}

proof fn mapped_text_reads_back(m: int)
    requires
        0 <= m < 0x1_0000_0000,
    ensures
        colons("::ffff:"@ + quad_text(m)) == Some(0xffff_0000_0000 + m),
{
    reveal_strlit("::ffff:");
    let q = quad_text(m);
    quad_reads_back(m);
    let s = "::ffff:"@ + q;
    let pat = seq![':', ':'];
    let word = seq!['f', 'f', 'f', 'f'];
    let tail = word + seq![':'] + q;
    let nothing = Seq::<char>::empty();
    assert(s =~= nothing + pat + tail);
    text::parted_around(s, pat, nothing, tail);
    text::pieces_of_one(word, ':');
    text::pieces_appended(word, ':', q);
    let parts = text::pieces(tail, ':');
    assert(parts =~= seq![word, q]);
    assert(parts.drop_last() =~= seq![word]);
    assert(seq![word].drop_last() =~= Seq::<Seq<char>>::empty());
    reveal_with_fuel(hex_value, 5);
    assert(word.drop_last().drop_last().drop_last().drop_last() =~= Seq::<char>::empty());
    assert(hex_value(word) == 0xffff);
    assert(all_hex(word));
    assert(groups(Seq::<Seq<char>>::empty(), false) == Some(Seq::<int>::empty()));
    assert(Seq::<int>::empty().push(0xffff) =~= seq![0xffffint]);
    assert(seq![word].last() == word);
    assert(groups(seq![word], false) == Some(seq![0xffffint]));
    assert(group(q) is None);
    let b = seq![0xffffint].push(m / 0x1_0000).push(m % 0x1_0000);
    assert(groups(parts, true) == Some(b));
    let whole = Seq::<int>::empty() + zeros(5) + b;
    assert(of_groups(whole) == 0xffff_0000_0000 + m);
}

/// An IPv6 text reads back as its number.
pub proof fn colons_read_back(n: int)
    requires
        0 <= n < 0x1_0000_0000_0000_0000_0000_0000_0000_0000,
    ensures
        colons(colons_text(n)) == Some(n),
{
    let g = to_groups(n);
    groups_of_number(n);
    if mapped(g) {
        mapped_text_reads_back(g[6] * 0x1_0000 + g[7]);
    } else {
        longest_zeros_facts(g, 0);
        let (start, len) = longest_zeros(g, 0);
        if len > 1 {
            short_text_reads_back(g, start, len);
        } else {
            full_text_reads_back(g);
        }
    }
}

/// The text of an IPv6 address is no dotted quad, starts with a colon or a
/// hexadecimal digit, and holds no slash.
proof fn colons_text_shape(n: int)
    requires
        0 <= n < 0x1_0000_0000_0000_0000_0000_0000_0000_0000,
    ensures
        ({
            let s = colons_text(n);
            &&& quad(s) is None
            &&& s.len() > 0
            &&& text::hex_digit(s[0]) || s[0] == ':'
            &&& text::free_of(s, '/')
        }),
{
    let g = to_groups(n);
    groups_of_number(n);
    let s = colons_text(n);
    if mapped(g) {
        let m = g[6] * 0x1_0000 + g[7];
        quad_reads_back(m);
        reveal_strlit("::ffff:");
        let q = quad_text(m);
        assert(s[0] == ':');
        text::next_sep_facts(s, '.', 0);
        let p = text::pieces(s, '.');
        let e = text::next_sep(s, '.', 0);
        assert(e > 0);
        assert(p[0][0] == ':');
        assert(!text::digit(p[0][0]));
        assert forall|i: int| 0 <= i < s.len() implies #[trigger] s[i] != '/' by {
            if i >= 7 {
                assert(s[i] == q[i - 7]);
            }
        }
    } else {
        longest_zeros_facts(g, 0);
        let (start, len) = longest_zeros(g, 0);
        let a = g.take(start);
        let b = g.skip(start + len);
        assert(small(a)) by {
            assert forall|i: int| 0 <= i < a.len() implies 0 <= #[trigger] a[i] < 0x1_0000 by {
                assert(a[i] == g[i]);
            }
        }
        assert(small(b)) by {
            assert forall|i: int| 0 <= i < b.len() implies 0 <= #[trigger] b[i] < 0x1_0000 by {
                assert(b[i] == g[start + len + i]);
            }
        }
        if a.len() > 0 {
            groups_text_shape(a);
        }
        if b.len() > 0 {
            groups_text_shape(b);
        }
        groups_text_shape(g);
        let head = groups_text(a);
        let tail = groups_text(b);
        if len > 1 {
            assert forall|i: int| 0 <= i < s.len() implies text::hex_digit(#[trigger] s[i]) || s[i]
                == ':' by {
                if i < head.len() {
                    assert(s[i] == head[i]);
                } else if i >= head.len() + 2 {
                    assert(s[i] == tail[i - head.len() - 2]);
                }
            }
        }
        assert forall|i: int| 0 <= i < s.len() implies #[trigger] s[i] != '.' && s[i] != '/' by {
            assert(text::hex_digit(s[i]) || s[i] == ':');
        }
        text::pieces_of_one(s, '.');
    }
}

/// An address reads back from its text.
pub proof fn address_reads_back(a: IpAddr)
    ensures
        address(a.spelled()) == Some(a),
{
    match a {
        IpAddr::V4(n) => {
            quad_reads_back(n as int);
        },
        IpAddr::V6(n) => {
            colons_read_back(n as int);
            colons_text_shape(n as int);
        },
    }
}

/// The text of an address starts with a hexadecimal digit or a colon, and
/// holds no slash.
pub proof fn address_text_shape(a: IpAddr)
    ensures
        a.spelled().len() > 0,
        text::hex_digit(a.spelled()[0]) || a.spelled()[0] == ':',
        text::free_of(a.spelled(), '/'),
{
    match a {
        IpAddr::V4(n) => {
            quad_reads_back(n as int);
        },
        IpAddr::V6(n) => {
            colons_text_shape(n as int);
        },
    }
}

proof fn gap_stays(s: Seq<char>, j: int)
    requires
        0 <= j,
        j + 1 < s.len(),
        s[j] == ':',
        s[j + 1] == ':',
    ensures
        exists|k: int|
            0 <= k < text::pieces(s, ':').len() && (#[trigger] text::pieces(s, ':')[k]).len() == 0,
{
    text::empty_piece(s, ':', 0, j);
    let p = text::pieces(s, ':');
    assert(p == text::pieces_from(s, ':', 0));
    let k = choose|k: int| 0 <= k < p.len() && (#[trigger] p[k]).len() == 0;
    assert(text::pieces(s, ':')[k].len() == 0);
}

/// Cut at its colons, the text of an address with a colon-free suffix never
/// falls into six pieces that all hold something.
pub proof fn address_pieces(a: IpAddr, suffix: Seq<char>)
    requires
        text::free_of(suffix, ':'),
    ensures
        ({
            let p = text::pieces(a.spelled() + suffix, ':');
            p.len() != 6 || exists|k: int| 0 <= k < p.len() && (#[trigger] p[k]).len() == 0
        }),
{
    let s = a.spelled() + suffix;
    match a {
        IpAddr::V4(n) => {
            quad_reads_back(n as int);
            let q = quad_text(n as int);
            assert forall|i: int| 0 <= i < s.len() implies #[trigger] s[i] != ':' by {
                if i < q.len() {
                    assert(s[i] == q[i]);
                } else {
                    assert(s[i] == suffix[i - q.len()]);
                }
            }
            text::pieces_of_one(s, ':');
        },
        IpAddr::V6(n) => {
            let g = to_groups(n as int);
            groups_of_number(n as int);
            if mapped(g) {
                reveal_strlit("::ffff:");
                assert(s[0] == ':' && s[1] == ':');
                gap_stays(s, 0);
            } else {
                longest_zeros_facts(g, 0);
                let (start, len) = longest_zeros(g, 0);
                if len > 1 {
                    let j = groups_text(g.take(start)).len() as int;
                    assert(s[j] == ':' && s[j + 1] == ':');
                    gap_stays(s, j);
                } else {
                    let rest = g.drop_last();
                    assert forall|i: int| 0 <= i < rest.len() implies 0 <= #[trigger] rest[i]
                        < 0x1_0000 by {
                        assert(rest[i] == g[i]);
                    }
                    groups_text_shape(rest);
                    assert(hex_texts(g).drop_last() =~= hex_texts(rest));
                    let last = hex_text(g.last() as nat);
                    hex_free_of(g.last() as nat, ':');
                    assert(hex_texts(g).last() == last);
                    assert(s =~= groups_text(rest) + seq![':'] + (last + suffix));
                    text::pieces_appended(groups_text(rest), ':', last + suffix);
                }
            }
        },
    }
}

/// A character that the text of an address may hold.
pub open spec fn address_char(c: char) -> bool {
    text::hex_digit(c) || c == '.' || c == ':'
}

/// A text that is made of such characters.
pub open spec fn address_chars(s: Seq<char>) -> bool {
    forall|i: int| 0 <= i < s.len() ==> address_char(#[trigger] s[i])
}

proof fn decimal_is_address_text(n: nat)
    ensures
        address_chars(number::decimal(n)),
{
    let s = number::decimal(n);
    assert forall|i: int| 0 <= i < s.len() implies address_char(#[trigger] s[i]) by {
        if !text::digit(s[i]) {
            number::decimal_free_of(n, s[i]);
        }
    }
}

proof fn groups_are_address_text(g: Seq<int>)
    ensures
        address_chars(groups_text(g)),
    decreases g.len(),
{
    if g.len() > 0 {
        let last = hex_text(g.last() as nat);
        assert forall|i: int| 0 <= i < last.len() implies address_char(#[trigger] last[i]) by {
            if !text::hex_digit(last[i]) {
                hex_free_of(g.last() as nat, last[i]);
            }
        }
        assert(hex_texts(g).last() == last);
        if g.len() > 1 {
            groups_are_address_text(g.drop_last());
            assert(hex_texts(g).drop_last() =~= hex_texts(g.drop_last()));
        }
    }
}

proof fn quad_is_address_text(n: int)
    ensures
        address_chars(quad_text(n)),
{
    let n1 = n / 256;
    let n2 = n1 / 256;
    decimal_is_address_text((n2 / 256) as nat);
    decimal_is_address_text((n2 % 256) as nat);
    decimal_is_address_text((n1 % 256) as nat);
    decimal_is_address_text((n % 256) as nat);
}

/// The text of an address holds hexadecimal digits, dots and colons only.
pub proof fn address_text_chars(a: IpAddr)
    ensures
        address_chars(a.spelled()),
{
    match a {
        IpAddr::V4(n) => {
            quad_is_address_text(n as int);
        },
        IpAddr::V6(n) => {
            let g = to_groups(n as int);
            let (start, len) = longest_zeros(g, 0);
            reveal_strlit("::ffff:");
            assert(address_chars("::ffff:"@));
            quad_is_address_text(g[6] * 0x1_0000 + g[7]);
            groups_are_address_text(g);
            groups_are_address_text(g.take(start));
            groups_are_address_text(g.skip(start + len));
        },
    }
}

} // verus!
