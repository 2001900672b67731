//! Decimal integers as text.

use vstd::prelude::*;

use crate::text;

verus! {

/// The digit character for `n`.
pub open spec fn digit_char(n: int) -> char
    recommends
        0 <= n < 10,
{
    (48 + n) as char
}

/// The number that a run of decimal digits spells.
pub open spec fn value(s: Seq<char>) -> nat
    decreases s.len(),
{
    if s.len() == 0 {
        0
    } else {
        (value(s.drop_last()) * 10 + (s.last() as int - 48)) as nat
    }
}

/// One or more decimal digits and nothing else.
pub open spec fn all_digits(s: Seq<char>) -> bool {
    s.len() > 0 && forall|i: int| 0 <= i < s.len() ==> text::digit(#[trigger] s[i])
}

/// The shortest decimal spelling of a natural number.
pub open spec fn decimal(n: nat) -> Seq<char>
    decreases n,
{
    if n < 10 {
        seq![digit_char(n as int)]
    } else {
        decimal(n / 10).push(digit_char((n % 10) as int))
    }
}

/// The shortest decimal spelling of a 32-bit number.
pub open spec fn decimal_u32(n: u32) -> Seq<char> {
    decimal(n as nat)
}

/// The shortest decimal spelling of an integer.
pub open spec fn signed_decimal(n: int) -> Seq<char> {
    if n < 0 {
        seq!['-'] + decimal((-n) as nat)
    } else {
        decimal(n as nat)
    }
}

/// The number that `s` spells, if it is an optional `+` and decimal digits
/// and the number is at most `max`.
pub open spec fn unsigned(s: Seq<char>, max: nat) -> Option<nat> {
    let digits = if s.len() > 0 && s[0] == '+' {
        s.drop_first()
    } else {
        s
    };
    if all_digits(digits) && value(digits) <= max {
        Some(value(digits))
    } else {
        None
    }
}

/// The number that `s` spells, if it is an optional sign and decimal digits
/// and the number lies between `-max - 1` and `max`.
pub open spec fn signed(s: Seq<char>, max: nat) -> Option<int> {
    if s.len() > 0 && s[0] == '-' {
        let digits = s.drop_first();
        if all_digits(digits) && value(digits) <= max + 1 {
            Some(-(value(digits) as int))
        } else {
            None
        }
    } else {
        match unsigned(s, max) {
            Some(n) => Some(n as int),
            None => None,
        }
    }
}

proof fn value_of_prefix(s: Seq<char>, k: int)
    requires
        0 <= k <= s.len(),
        all_digits(s),
    ensures
        value(s.take(k)) <= value(s),
    decreases s.len(),
{
    if k == s.len() {
        assert(s.take(k) == s);
    } else {
        let t = s.drop_last();
        assert(text::digit(s.last()));
        if t.len() > 0 {
            assert forall|i: int| 0 <= i < t.len() implies text::digit(#[trigger] t[i]) by {
                assert(text::digit(s[i]));
            }
            value_of_prefix(t, k);
            assert(t.take(k) == s.take(k));
        } else {
            assert(s.take(k) == Seq::<char>::empty());
        }
    }
}

/// The digits of `s` from position `from` on, as a number of at most `max`.
fn read_digits(s: &Vec<char>, from: usize, max: u64) -> (r: Option<u64>)
    requires
        from <= s.len(),
    ensures
        r matches Some(n) ==> all_digits(s@.skip(from as int)) && value(s@.skip(from as int)) == n
            && n <= max,
        r is None ==> !(all_digits(s@.skip(from as int)) && value(s@.skip(from as int)) <= max),
{
    let ghost digits = s@.skip(from as int);
    if from == s.len() {
        return None;
    }
    let mut n: u128 = 0;
    let mut i: usize = from;
    assert(digits.take(0) == Seq::<char>::empty());
    while i < s.len()
        invariant
            from <= i <= s.len(),
            digits == s@.skip(from as int),
            digits.len() > 0,
            n <= max,
            n == value(digits.take(i - from)),
            forall|j: int| 0 <= j < i - from ==> text::digit(#[trigger] digits[j]),
        decreases s.len() - i,
    {
        let c = s[i];
        assert(c == digits[i - from]);
        if !text::is_digit(c) {
            assert(!text::digit(digits[i - from]));
            return None;
        }
        let d: u128 = (c as u32 - 48) as u128;
        n = n * 10 + d;
        i = i + 1;
        assert(digits.take(i - from).drop_last() == digits.take(i - from - 1));
        if n > max as u128 {
            proof {
                if all_digits(digits) {
                    value_of_prefix(digits, i - from);
                }
            }
            return None;
        }
    }
    assert(digits.take(i - from) == digits);
    Some(n as u64)
}

/// An unsigned integer of at most `max`, made of digits alone.
pub fn parse_digits(s: &str, max: u64) -> (r: Option<u64>)
    ensures
        match r {
            Some(n) => all_digits(s@) && value(s@) == n && n <= max,
            None => !(all_digits(s@) && value(s@) <= max),
        },
{
    let sc = text::chars_of(s);
    assert(s@.skip(0) == s@);
    read_digits(&sc, 0, max)
}

/// An unsigned integer of at most `max`, with an optional leading `+`.
pub fn parse_unsigned(s: &str, max: u64) -> (r: Option<u64>)
    ensures
        match r {
            Some(n) => unsigned(s@, max as nat) == Some(n as nat) && n <= max,
            None => unsigned(s@, max as nat) is None,
        },
{
    let sc = text::chars_of(s);
    if sc.len() > 0 && sc[0] == '+' {
        assert(s@.skip(1) == s@.drop_first());
        read_digits(&sc, 1, max)
    } else {
        assert(s@.skip(0) == s@);
        read_digits(&sc, 0, max)
    }
}

/// A signed integer between `-max - 1` and `max`, with an optional sign.
pub fn parse_signed(s: &str, max: u64) -> (r: Option<i64>)
    requires
        max < i64::MAX,
    ensures
        match r {
            Some(n) => signed(s@, max as nat) == Some(n as int) && -(max as int) - 1 <= n <= max,
            None => signed(s@, max as nat) is None,
        },
{
    let sc = text::chars_of(s);
    if sc.len() > 0 && sc[0] == '-' {
        assert(s@.skip(1) == s@.drop_first());
        match read_digits(&sc, 1, max + 1) {
            Some(n) => Some(-(n as i64)),
            None => None,
        }
    } else {
        match parse_unsigned(s, max) {
            Some(n) => Some(n as i64),
            None => None,
        }
    }
}

/// The shortest decimal spelling of `n`.
pub fn show(n: u64) -> (r: String)
    ensures
        r@ == decimal(n as nat),
    decreases n,
{
    let c = ((n % 10) as u8 + 48) as char;
    let mut out = if n < 10 {
        String::new()
    } else {
        show(n / 10)
    };
    out.push(c);
    assert(out@ == decimal(n as nat));
    out
}

/// The shortest decimal spelling of `n`.
pub fn show_u32(n: u32) -> (r: String)
    ensures
        r@ == decimal_u32(n),
{
    show(n as u64)
}

/// The shortest decimal spelling of `n`.
pub fn show_signed(n: i64) -> (r: String)
    requires
        n > i64::MIN,
    ensures
        r@ == signed_decimal(n as int),
{
    if n < 0 {
        let digits = show((-n) as u64);
        let mut out = String::new();
        out.push('-');
        out.append(digits.as_str());
        assert(out@ == signed_decimal(n as int));
        out
    } else {
        show(n as u64)
    }
}

/// What `decimal` writes is made of digits, and spells the number back.
pub proof fn decimal_reads_back(n: nat)
    ensures
        all_digits(decimal(n)),
        value(decimal(n)) == n,
    decreases n,
{
    let s = decimal(n);
    if n < 10 {
        assert(s.drop_last() == Seq::<char>::empty());
        assert(value(s) == n) by {
            assert(value(s.drop_last()) == 0);
        }
    } else {
        decimal_reads_back(n / 10);
        let t = decimal(n / 10);
        assert(s.drop_last() == t);
        assert forall|i: int| 0 <= i < s.len() implies text::digit(#[trigger] s[i]) by {
            if i < t.len() {
                assert(s[i] == t[i]);
            }
        }
    }
}

/// Reading what was written gives the number back.
pub proof fn unsigned_reads_back(n: nat, max: nat)
    requires
        n <= max,
    ensures
        unsigned(decimal(n), max) == Some(n),
{
    decimal_reads_back(n);
    assert(text::digit(decimal(n)[0]));
}

/// Reading what was written gives the number back.
pub proof fn signed_reads_back(n: int, max: nat)
    requires
        -max - 1 <= n <= max,
    ensures
        signed(signed_decimal(n), max) == Some(n),
{
    if n < 0 {
        let digits = decimal((-n) as nat);
        decimal_reads_back((-n) as nat);
        assert((seq!['-'] + digits).drop_first() == digits);
    } else {
        unsigned_reads_back(n as nat, max);
        decimal_reads_back(n as nat);
        assert(text::digit(decimal(n as nat)[0]));
    }
}

/// A spelling has no leading zero, and one digit for each power of ten.
pub proof fn decimal_shape(n: nat)
    ensures
        decimal(n).len() > 0,
        n < 10 ==> decimal(n).len() == 1,
        n < 100 ==> decimal(n).len() <= 2,
        n < 1000 ==> decimal(n).len() <= 3,
        n > 0 ==> decimal(n)[0] != '0',
    decreases n,
{
    if n >= 10 {
        decimal_shape(n / 10);
        assert(decimal(n)[0] == decimal(n / 10)[0]);
    }
}

/// A spelling holds no character but digits.
pub proof fn decimal_free_of(n: nat, c: char)
    requires
        !text::digit(c),
    ensures
        text::free_of(decimal(n), c),
{
    decimal_reads_back(n);
    assert forall|i: int| 0 <= i < decimal(n).len() implies #[trigger] decimal(n)[i] != c by {
        assert(text::digit(decimal(n)[i]));
    }
}

} // verus!
