//! Text as sequences of Unicode scalar values: the spec functions say what a
//! piece of text is, the executable functions compute it.

use vstd::prelude::*;

verus! {

/// `String::push` appends one character.
pub assume_specification[ String::push ](s: &mut String, c: char)
    ensures
        final(s)@ == old(s)@.push(c),
;

// ---------------------------------------------------------------------------
// Characters
// ---------------------------------------------------------------------------
/// An ASCII decimal digit.
pub open spec fn digit(c: char) -> bool {
    '0' <= c && c <= '9'
}

/// An ASCII letter.
pub open spec fn letter(c: char) -> bool {
    ('a' <= c && c <= 'z') || ('A' <= c && c <= 'Z')
}

/// An ASCII letter or digit.
pub open spec fn alnum(c: char) -> bool {
    letter(c) || digit(c)
}

/// An ASCII hexadecimal digit.
pub open spec fn hex_digit(c: char) -> bool {
    digit(c) || ('a' <= c && c <= 'f') || ('A' <= c && c <= 'F')
}

/// A character with Unicode's `White_Space` property.
pub open spec fn white(c: char) -> bool {
    let n = c as int;
    ||| 0x09 <= n <= 0x0d
    ||| n == 0x20
    ||| n == 0x85
    ||| n == 0xa0
    ||| n == 0x1680
    ||| 0x2000 <= n <= 0x200a
    ||| n == 0x2028
    ||| n == 0x2029
    ||| n == 0x202f
    ||| n == 0x205f
    ||| n == 0x3000
}

/// A character that ASCII counts as white space: tab, line feed, form feed,
/// carriage return or space.
pub open spec fn ascii_white(c: char) -> bool {
    let n = c as int;
    n == 0x09 || n == 0x0a || n == 0x0c || n == 0x0d || n == 0x20
}

/// A control code (general category `Cc`).
pub open spec fn control(c: char) -> bool {
    let n = c as int;
    n <= 0x1f || 0x7f <= n <= 0x9f
}

/// The ASCII lower-case form of one character.
pub open spec fn lower_char(c: char) -> char {
    if 'A' <= c && c <= 'Z' {
        ((c as int) + 32) as char
    } else {
        c
    }
}

pub fn is_digit(c: char) -> (r: bool)
    ensures
        r == digit(c),
{
    '0' <= c && c <= '9'
}

pub fn is_alnum(c: char) -> (r: bool)
    ensures
        r == alnum(c),
{
    ('a' <= c && c <= 'z') || ('A' <= c && c <= 'Z') || ('0' <= c && c <= '9')
}

pub fn is_hex_digit(c: char) -> (r: bool)
    ensures
        r == hex_digit(c),
{
    ('0' <= c && c <= '9') || ('a' <= c && c <= 'f') || ('A' <= c && c <= 'F')
}

pub fn is_white(c: char) -> (r: bool)
    ensures
        r == white(c),
{
    let n: u32 = c as u32;
    (0x09 <= n && n <= 0x0d) || n == 0x20 || n == 0x85 || n == 0xa0 || n == 0x1680 || (0x2000 <= n
        && n <= 0x200a) || n == 0x2028 || n == 0x2029 || n == 0x202f || n == 0x205f || n == 0x3000
}

pub fn is_ascii_white(c: char) -> (r: bool)
    ensures
        r == ascii_white(c),
{
    let n: u32 = c as u32;
    n == 0x09 || n == 0x0a || n == 0x0c || n == 0x0d || n == 0x20
}

pub fn is_control(c: char) -> (r: bool)
    ensures
        r == control(c),
{
    let n: u32 = c as u32;
    n <= 0x1f || (0x7f <= n && n <= 0x9f)
}

pub fn to_lower_char(c: char) -> (r: char)
    ensures
        r == lower_char(c),
{
    if 'A' <= c && c <= 'Z' {
        ((c as u8) + 32) as char
    } else {
        c
    }
}

// ---------------------------------------------------------------------------
// Whole texts
// ---------------------------------------------------------------------------
/// The number of bytes in the UTF-8 encoding of a text.
pub open spec fn utf8_len(s: Seq<char>) -> nat {
    vstd::utf8::encode_utf8(s).len()
}

/// Whether two texts hold the same characters.
pub fn same(a: &str, b: &str) -> (r: bool)
    ensures
        r == (a@ == b@),
{
    a.to_owned() == b.to_owned()
}

/// The characters of `s`, in order.
pub fn chars_of(s: &str) -> (r: Vec<char>)
    ensures
        r@ == s@,
{
    let mut out: Vec<char> = Vec::new();
    for c in it: s.chars()
        invariant
            it.seq() == s@,
            out@ == s@.take(it.index() as int),
    {
        assert(s@.take(it.index() + 1) == s@.take(it.index() as int).push(c));
        out.push(c);
    }
    out
}

/// The number of bytes in the UTF-8 encoding of `s`.
pub fn byte_len(s: &str) -> (n: usize)
    ensures
        n == utf8_len(s@),
{
    s.as_bytes().len()
}

/// The text with every ASCII letter in lower case.
pub open spec fn lower(s: Seq<char>) -> Seq<char> {
    Seq::new(s.len(), |i: int| lower_char(s[i]))
}

pub fn to_lower(s: &str) -> (r: String)
    ensures
        r@ == lower(s@),
{
    let chars = chars_of(s);
    let mut out = String::new();
    let mut i: usize = 0;
    while i < chars.len()
        invariant
            chars@ == s@,
            i <= chars.len(),
            out@ == lower(s@).take(i as int),
        decreases chars.len() - i,
    {
        let c = to_lower_char(chars[i]);
        out.push(c);
        i = i + 1;
        assert(lower(s@).take(i as int) == lower(s@).take(i - 1).push(c));
    }
    assert(lower(s@).take(i as int) == lower(s@));
    out
}

/// The ASCII upper-case form of one character.
pub open spec fn upper_char(c: char) -> char {
    if 'a' <= c && c <= 'z' {
        ((c as int) - 32) as char
    } else {
        c
    }
}

/// The text with every ASCII letter in upper case.
pub open spec fn upper(s: Seq<char>) -> Seq<char> {
    Seq::new(s.len(), |i: int| upper_char(s[i]))
}

pub fn to_upper(s: &str) -> (r: String)
    ensures
        r@ == upper(s@),
{
    let chars = chars_of(s);
    let mut out = String::new();
    let mut i: usize = 0;
    while i < chars.len()
        invariant
            chars@ == s@,
            i <= chars.len(),
            out@ == upper(s@).take(i as int),
        decreases chars.len() - i,
    {
        let c = chars[i];
        let u = if 'a' <= c && c <= 'z' {
            ((c as u8) - 32) as char
        } else {
            c
        };
        out.push(u);
        i = i + 1;
        assert(upper(s@).take(i as int) == upper(s@).take(i - 1).push(u));
    }
    assert(upper(s@).take(i as int) == upper(s@));
    out
}

/// The text of one character.
pub fn of_char(c: char) -> (r: String)
    ensures
        r@ == seq![c],
{
    let mut out = "".to_owned();
    proof {
        reveal_strlit("");
    }
    out.push(c);
    assert(out@ =~= seq![c]);
    out
}

pub fn cat2(a: &str, b: &str) -> (r: String)
    ensures
        r@ == a@ + b@,
{
    let mut out = a.to_owned();
    out.append(b);
    out
}

pub fn cat3(a: &str, b: &str, c: &str) -> (r: String)
    ensures
        r@ == a@ + b@ + c@,
{
    let mut out = cat2(a, b);
    out.append(c);
    out
}

pub fn cat4(a: &str, b: &str, c: &str, d: &str) -> (r: String)
    ensures
        r@ == a@ + b@ + c@ + d@,
{
    let mut out = cat3(a, b, c);
    out.append(d);
    out
}

pub fn cat5(a: &str, b: &str, c: &str, d: &str, e: &str) -> (r: String)
    ensures
        r@ == a@ + b@ + c@ + d@ + e@,
{
    let mut out = cat4(a, b, c, d);
    out.append(e);
    out
}

pub fn cat6(a: &str, b: &str, c: &str, d: &str, e: &str, f: &str) -> (r: String)
    ensures
        r@ == a@ + b@ + c@ + d@ + e@ + f@,
{
    let mut out = cat5(a, b, c, d, e);
    out.append(f);
    out
}

pub fn cat7(a: &str, b: &str, c: &str, d: &str, e: &str, f: &str, g: &str) -> (r: String)
    ensures
        r@ == a@ + b@ + c@ + d@ + e@ + f@ + g@,
{
    let mut out = cat6(a, b, c, d, e, f);
    out.append(g);
    out
}

/// The texts one after the other, with `sep` between neighbours.
pub open spec fn joined(parts: Seq<Seq<char>>, sep: Seq<char>) -> Seq<char>
    decreases parts.len(),
{
    if parts.len() == 0 {
        Seq::empty()
    } else if parts.len() == 1 {
        parts[0]
    } else {
        joined(parts.drop_last(), sep) + sep + parts.last()
    }
}

pub fn join(parts: &Vec<String>, sep: &str) -> (r: String)
    ensures
        r@ == joined(parts.deep_view(), sep@),
{
    let mut out = String::new();
    let mut i: usize = 0;
    while i < parts.len()
        invariant
            i <= parts.len(),
            out@ == joined(parts.deep_view().take(i as int), sep@),
        decreases parts.len() - i,
    {
        if i > 0 {
            out.append(sep);
        }
        out.append(parts[i].as_str());
        i = i + 1;
        proof {
            let shown = parts.deep_view().take(i as int);
            assert(shown.drop_last() == parts.deep_view().take(i - 1));
            if i == 1 {
                assert(out@ == parts[0]@);
            }
        }
    }
    assert(parts.deep_view().take(i as int) == parts.deep_view());
    out
}

// ---------------------------------------------------------------------------
// Prefixes, searching and splitting
// ---------------------------------------------------------------------------
/// `pat` stands in `s` at position `i`.
pub open spec fn occurs_at(s: Seq<char>, pat: Seq<char>, i: int) -> bool {
    0 <= i && i + pat.len() <= s.len() && s.subrange(i, i + pat.len()) == pat
}

/// The first position at or after `from` where `pat` stands in `s`.
pub open spec fn found_from(s: Seq<char>, pat: Seq<char>, from: int) -> Option<int>
    decreases s.len() - from,
{
    if from < 0 || from + pat.len() > s.len() {
        None
    } else if occurs_at(s, pat, from) {
        Some(from)
    } else if from < s.len() {
        found_from(s, pat, from + 1)
    } else {
        None
    }
}

/// The first position where `pat` stands in `s`.
pub open spec fn found(s: Seq<char>, pat: Seq<char>) -> Option<int> {
    found_from(s, pat, 0)
}

/// `pat` stands somewhere in `s`.
pub open spec fn has(s: Seq<char>, pat: Seq<char>) -> bool {
    found(s, pat) is Some
}

/// What is left of `s` without the prefix `pat`, if it has that prefix.
pub open spec fn stripped(s: Seq<char>, pat: Seq<char>) -> Option<Seq<char>> {
    if occurs_at(s, pat, 0) {
        Some(s.skip(pat.len() as int))
    } else {
        None
    }
}

/// The parts of `s` before and after the first occurrence of `pat`.
pub open spec fn parted(s: Seq<char>, pat: Seq<char>) -> Option<(Seq<char>, Seq<char>)> {
    match found(s, pat) {
        Some(i) => Some((s.take(i), s.skip(i + pat.len()))),
        None => None,
    }
}

/// A position that `found_from` gives lies in range and is the first one.
pub proof fn found_from_facts(s: Seq<char>, pat: Seq<char>, from: int)
    requires
        0 <= from,
    ensures
        found_from(s, pat, from) matches Some(i) ==> from <= i && occurs_at(s, pat, i)
            && (forall|j: int| from <= j < i ==> !occurs_at(s, pat, j)),
        found_from(s, pat, from) is None ==> (forall|j: int| from <= j ==> !occurs_at(s, pat, j)),
    decreases s.len() - from,
{
    if from + pat.len() <= s.len() && !occurs_at(s, pat, from) && from < s.len() {
        found_from_facts(s, pat, from + 1);
    }
}

/// Any first occurrence is the one that `found_from` gives.
pub proof fn found_from_is(s: Seq<char>, pat: Seq<char>, from: int, i: int)
    requires
        0 <= from <= i,
        occurs_at(s, pat, i),
        forall|j: int| from <= j < i ==> !occurs_at(s, pat, j),
    ensures
        found_from(s, pat, from) == Some(i),
    decreases s.len() - from,
{
    if from < i {
        found_from_is(s, pat, from + 1, i);
    }
}

/// Whether `pat` stands in `s` at position `i`.
fn stands_at(s: &Vec<char>, pat: &Vec<char>, i: usize) -> (r: bool)
    requires
        i + pat.len() <= s.len(),
    ensures
        r == occurs_at(s@, pat@, i as int),
{
    let mut k: usize = 0;
    while k < pat.len()
        invariant
            k <= pat.len(),
            i + pat.len() <= s.len(),
            forall|j: int| 0 <= j < k ==> s@[i + j] == pat@[j],
        decreases pat.len() - k,
    {
        if s[i + k] != pat[k] {
            assert(s@.subrange(i as int, i + pat.len())[k as int] != pat@[k as int]);
            return false;
        }
        k = k + 1;
    }
    assert(s@.subrange(i as int, i + pat.len()) == pat@);
    true
}

pub fn find(s: &str, pat: &str) -> (r: Option<usize>)
    ensures
        r matches Some(i) ==> found(s@, pat@) == Some(i as int) && i + pat@.len() <= s@.len(),
        r is None ==> found(s@, pat@) is None,
{
    let sc = chars_of(s);
    let pc = chars_of(pat);
    if pc.len() > sc.len() {
        return None;
    }
    let mut i: usize = 0;
    loop
        invariant
            sc@ == s@,
            pc@ == pat@,
            i + pc.len() <= sc.len(),
            found(s@, pat@) == found_from(s@, pat@, i as int),
        decreases sc.len() - i,
    {
        if stands_at(&sc, &pc, i) {
            return Some(i);
        }
        if i == sc.len() - pc.len() {
            assert(found_from(s@, pat@, i + 1) is None);
            return None;
        }
        i = i + 1;
    }
}

pub fn contains(s: &str, pat: &str) -> (r: bool)
    ensures
        r == has(s@, pat@),
{
    find(s, pat).is_some()
}

pub fn starts_with(s: &str, pat: &str) -> (r: bool)
    ensures
        r == occurs_at(s@, pat@, 0),
{
    let sc = chars_of(s);
    let pc = chars_of(pat);
    pc.len() <= sc.len() && stands_at(&sc, &pc, 0)
}

pub fn strip_prefix<'a>(s: &'a str, pat: &str) -> (r: Option<&'a str>)
    ensures
        match r {
            Some(rest) => stripped(s@, pat@) == Some(rest@),
            None => stripped(s@, pat@) is None,
        },
{
    if starts_with(s, pat) {
        let n: usize = s.unicode_len();
        let k: usize = pat.unicode_len();
        Some(s.substring_char(k, n))
    } else {
        None
    }
}

pub fn split_once<'a>(s: &'a str, pat: &str) -> (r: Option<(&'a str, &'a str)>)
    ensures
        match r {
            Some((a, b)) => parted(s@, pat@) == Some((a@, b@)),
            None => parted(s@, pat@) is None,
        },
{
    match find(s, pat) {
        Some(i) => {
            let n: usize = s.unicode_len();
            let k: usize = pat.unicode_len();
            Some((s.substring_char(0, i), s.substring_char(i + k, n)))
        },
        None => None,
    }
}

/// The first position at or after `from` that holds `sep`, or the length.
pub open spec fn next_sep(s: Seq<char>, sep: char, from: int) -> int
    decreases s.len() - from,
{
    if from < 0 || from >= s.len() || s[from] == sep {
        from
    } else {
        next_sep(s, sep, from + 1)
    }
}

pub proof fn next_sep_facts(s: Seq<char>, sep: char, from: int)
    requires
        0 <= from <= s.len(),
    ensures
        from <= next_sep(s, sep, from) <= s.len(),
        next_sep(s, sep, from) < s.len() ==> s[next_sep(s, sep, from)] == sep,
        forall|j: int| from <= j < next_sep(s, sep, from) ==> s[j] != sep,
    decreases s.len() - from,
{
    if from < s.len() && s[from] != sep {
        next_sep_facts(s, sep, from + 1);
    }
}

/// The parts of `s` from position `from` on, cut at every `sep`.
pub open spec fn pieces_from(s: Seq<char>, sep: char, from: int) -> Seq<Seq<char>>
    decreases s.len() - from,
{
    let e = next_sep(s, sep, from);
    if from < 0 || from > s.len() || e >= s.len() || e < from {
        seq![s.skip(from)]
    } else {
        seq![s.subrange(from, e)] + pieces_from(s, sep, e + 1)
    }
}

/// The parts of `s`, cut at every `sep`: one more than it has separators.
pub open spec fn pieces(s: Seq<char>, sep: char) -> Seq<Seq<char>> {
    pieces_from(s, sep, 0)
}

pub fn split<'a>(s: &'a str, sep: char) -> (r: Vec<&'a str>)
    ensures
        r.deep_view() == pieces(s@, sep),
{
    let sc = chars_of(s);
    let n: usize = sc.len();
    let mut out: Vec<&'a str> = Vec::new();
    let mut from: usize = 0;
    let mut i: usize = 0;
    while i < n
        invariant
            sc@ == s@,
            n == s@.len(),
            from <= i <= n,
            next_sep(s@, sep, i as int) == next_sep(s@, sep, from as int),
            pieces(s@, sep) == out.deep_view() + pieces_from(s@, sep, from as int),
        decreases n - i,
    {
        if sc[i] == sep {
            let part = s.substring_char(from, i);
            let ghost before = out.deep_view();
            out.push(part);
            proof {
                assert(next_sep(s@, sep, from as int) == i);
                assert(out.deep_view() == before.push(part@));
                assert(before.push(part@) + pieces_from(s@, sep, i + 1) == before + (seq![part@]
                    + pieces_from(s@, sep, i + 1)));
            }
            from = i + 1;
        }
        i = i + 1;
    }
    let part = s.substring_char(from, n);
    let ghost before = out.deep_view();
    out.push(part);
    proof {
        assert(part@ == s@.skip(from as int));
        assert(out.deep_view() == before + seq![part@]);
    }
    out
}

/// A character that separates words.
pub open spec fn blank(c: char, ascii: bool) -> bool {
    if ascii {
        ascii_white(c)
    } else {
        white(c)
    }
}

fn is_blank(c: char, ascii: bool) -> (r: bool)
    ensures
        r == blank(c, ascii),
{
    if ascii {
        is_ascii_white(c)
    } else {
        is_white(c)
    }
}

/// The position where the run of non-white characters that covers `from` ends.
pub open spec fn word_end(s: Seq<char>, from: int, ascii: bool) -> int
    decreases s.len() - from,
{
    if from < 0 || from >= s.len() || blank(s[from], ascii) {
        from
    } else {
        word_end(s, from + 1, ascii)
    }
}

/// The words of `s` from position `from` on: the runs of characters between
/// white space. Where `ascii` holds, only ASCII white space counts.
pub open spec fn words_from(s: Seq<char>, from: int, ascii: bool) -> Seq<Seq<char>>
    decreases s.len() - from,
{
    if from < 0 || from >= s.len() {
        Seq::empty()
    } else if blank(s[from], ascii) {
        words_from(s, from + 1, ascii)
    } else {
        let e = word_end(s, from, ascii);
        if e <= from || e > s.len() {
            Seq::empty()
        } else {
            seq![s.subrange(from, e)] + words_from(s, e, ascii)
        }
    }
}

/// The words of `s`.
pub open spec fn words(s: Seq<char>) -> Seq<Seq<char>> {
    words_from(s, 0, false)
}

/// The words of `s`, between ASCII white space.
pub open spec fn ascii_words(s: Seq<char>) -> Seq<Seq<char>> {
    words_from(s, 0, true)
}

pub fn split_words<'a>(s: &'a str) -> (r: Vec<&'a str>)
    ensures
        r.deep_view() == words(s@),
{
    split_blank(s, false)
}

pub fn split_ascii_words<'a>(s: &'a str) -> (r: Vec<&'a str>)
    ensures
        r.deep_view() == ascii_words(s@),
{
    split_blank(s, true)
}

fn split_blank<'a>(s: &'a str, ascii: bool) -> (r: Vec<&'a str>)
    ensures
        r.deep_view() == words_from(s@, 0, ascii),
{
    let sc = chars_of(s);
    let n: usize = sc.len();
    let mut out: Vec<&'a str> = Vec::new();
    let mut i: usize = 0;
    assert(out.deep_view() + words_from(s@, 0, ascii) =~= words_from(s@, 0, ascii));
    while i < n
        invariant
            sc@ == s@,
            n == s@.len(),
            i <= n,
            words_from(s@, 0, ascii) == out.deep_view() + words_from(s@, i as int, ascii),
        decreases n - i,
    {
        if is_blank(sc[i], ascii) {
            i = i + 1;
        } else {
            let from: usize = i;
            i = i + 1;
            while i < n && !is_blank(sc[i], ascii)
                invariant
                    sc@ == s@,
                    n == s@.len(),
                    from < i <= n,
                    word_end(s@, from as int, ascii) == word_end(s@, i as int, ascii),
                decreases n - i,
            {
                i = i + 1;
            }
            let part = s.substring_char(from, i);
            let ghost before = out.deep_view();
            out.push(part);
            proof {
                assert(word_end(s@, from as int, ascii) == i);
                assert(out.deep_view() =~= before.push(part@));
                assert(before.push(part@) + words_from(s@, i as int, ascii) =~= before + (seq![part@]
                    + words_from(s@, i as int, ascii)));
            }
        }
    }
    assert(out.deep_view() + Seq::<Seq<char>>::empty() =~= out.deep_view());
    out
}

// ---------------------------------------------------------------------------
// Trimming
// ---------------------------------------------------------------------------
/// The text without its leading white space.
pub open spec fn trimmed_start(s: Seq<char>) -> Seq<char>
    decreases s.len(),
{
    if s.len() > 0 && white(s[0]) {
        trimmed_start(s.drop_first())
    } else {
        s
    }
}

/// The text without its trailing white space.
pub open spec fn trimmed_end(s: Seq<char>) -> Seq<char>
    decreases s.len(),
{
    if s.len() > 0 && white(s.last()) {
        trimmed_end(s.drop_last())
    } else {
        s
    }
}

/// The text without leading and trailing white space.
pub open spec fn trimmed(s: Seq<char>) -> Seq<char> {
    trimmed_end(trimmed_start(s))
}

proof fn trimmed_end_bounds(s: Seq<char>)
    ensures
        trimmed_end(s).len() <= s.len(),
        trimmed_end(s) == s.take(trimmed_end(s).len() as int),
        trimmed_end(s).len() > 0 ==> !white(trimmed_end(s).last()),
    decreases s.len(),
{
    if s.len() > 0 && white(s.last()) {
        trimmed_end_bounds(s.drop_last());
        assert(s.drop_last().take(trimmed_end(s).len() as int) =~= s.take(
            trimmed_end(s).len() as int,
        ));
    } else {
        assert(s.take(s.len() as int) =~= s);
    }
}

proof fn trimmed_start_bounds(s: Seq<char>)
    ensures
        trimmed_start(s).len() > 0 ==> !white(trimmed_start(s)[0]),
    decreases s.len(),
{
    if s.len() > 0 && white(s[0]) {
        trimmed_start_bounds(s.drop_first());
    }
}

/// Trimmed text has nothing left to trim.
pub proof fn trimmed_once(s: Seq<char>)
    ensures
        trimmed(trimmed(s)) == trimmed(s),
{
    trimmed_start_bounds(s);
    trimmed_end_bounds(trimmed_start(s));
    let t = trimmed(s);
    if t.len() > 0 {
        assert(t[0] == trimmed_start(s)[0]);
    }
}

/// Text without any white space has nothing to trim.
pub proof fn tokens_stay_whole(s: Seq<char>)
    requires
        forall|i: int| 0 <= i < s.len() ==> !white(#[trigger] s[i]),
    ensures
        trimmed(s) == s,
{
    if s.len() > 0 {
        assert(!white(s[0]));
        assert(!white(s[s.len() - 1]));
    }
}

pub fn trim<'a>(s: &'a str) -> (r: &'a str)
    ensures
        r@ == trimmed(s@),
{
    let sc = chars_of(s);
    let n: usize = sc.len();
    let mut a: usize = 0;
    assert(s@.skip(0) == s@);
    while a < n && is_white(sc[a])
        invariant
            sc@ == s@,
            n == s@.len(),
            a <= n,
            trimmed_start(s@) == trimmed_start(s@.skip(a as int)),
        decreases n - a,
    {
        assert(s@.skip(a as int).drop_first() == s@.skip(a + 1));
        a = a + 1;
    }
    let mut b: usize = n;
    assert(trimmed_start(s@) == s@.skip(a as int));
    assert(s@.skip(a as int) == s@.subrange(a as int, b as int));
    while b > a && is_white(sc[b - 1])
        invariant
            sc@ == s@,
            n == s@.len(),
            a <= b <= n,
            trimmed(s@) == trimmed_end(s@.subrange(a as int, b as int)),
        decreases b,
    {
        assert(s@.subrange(a as int, b as int).drop_last() == s@.subrange(a as int, b - 1));
        b = b - 1;
    }
    s.substring_char(a, b)
}

// ---------------------------------------------------------------------------
// Taking composed texts apart again
// ---------------------------------------------------------------------------
/// The text does not hold the character.
pub open spec fn free_of(s: Seq<char>, c: char) -> bool {
    forall|i: int| 0 <= i < s.len() ==> #[trigger] s[i] != c
}

/// Where a pattern stands, each of its characters stands.
pub proof fn occurs_char(s: Seq<char>, pat: Seq<char>, i: int, k: int)
    requires
        occurs_at(s, pat, i),
        0 <= k < pat.len(),
    ensures
        s[i + k] == pat[k],
{
    assert(s.subrange(i, i + pat.len())[k] == s[i + k]);
}

/// A text with the pattern in the middle parts into what stands around it, if
/// the pattern does not stand earlier.
pub proof fn parted_around(s: Seq<char>, pat: Seq<char>, a: Seq<char>, b: Seq<char>)
    requires
        s == a + pat + b,
        forall|j: int| 0 <= j < a.len() ==> !occurs_at(s, pat, j),
    ensures
        parted(s, pat) == Some((a, b)),
{
    assert(s.subrange(a.len() as int, (a.len() + pat.len()) as int) =~= pat);
    found_from_is(s, pat, 0, a.len() as int);
    assert(s.take(a.len() as int) =~= a);
    assert(s.skip((a.len() + pat.len()) as int) =~= b);
}

/// A text in which the pattern stands nowhere does not part.
pub proof fn parted_nowhere(s: Seq<char>, pat: Seq<char>)
    requires
        forall|j: int| 0 <= j ==> !occurs_at(s, pat, j),
    ensures
        parted(s, pat) is None,
{
    found_from_facts(s, pat, 0);
}

/// A text parts at a character that the first part does not hold.
pub proof fn parted_at_char(a: Seq<char>, c: char, b: Seq<char>)
    requires
        free_of(a, c),
    ensures
        parted(a + seq![c] + b, seq![c]) == Some((a, b)),
{
    let s = a + seq![c] + b;
    assert forall|j: int| 0 <= j < a.len() implies !occurs_at(s, seq![c], j) by {
        if occurs_at(s, seq![c], j) {
            occurs_char(s, seq![c], j, 0);
            assert(s[j] == a[j]);
        }
    }
    parted_around(s, seq![c], a, b);
}

/// A text does not part at a character that it does not hold.
pub proof fn parted_without_char(s: Seq<char>, c: char)
    requires
        free_of(s, c),
    ensures
        parted(s, seq![c]) is None,
{
    assert forall|j: int| 0 <= j implies !occurs_at(s, seq![c], j) by {
        if occurs_at(s, seq![c], j) {
            occurs_char(s, seq![c], j, 0);
        }
    }
    parted_nowhere(s, seq![c]);
}

proof fn next_sep_is(s: Seq<char>, sep: char, from: int, e: int)
    requires
        0 <= from <= e <= s.len(),
        forall|j: int| from <= j < e ==> s[j] != sep,
        e < s.len() ==> s[e] == sep,
    ensures
        next_sep(s, sep, from) == e,
    decreases e - from,
{
    if from < e {
        next_sep_is(s, sep, from + 1, e);
    }
}

/// A text without the separator is its only piece.
pub proof fn pieces_of_one(s: Seq<char>, sep: char)
    requires
        free_of(s, sep),
    ensures
        pieces(s, sep) == seq![s],
{
    next_sep_is(s, sep, 0, s.len() as int);
    assert(s.skip(0) =~= s);
}

proof fn pieces_from_appended(s: Seq<char>, sep: char, b: Seq<char>, from: int)
    requires
        0 <= from <= s.len(),
        free_of(b, sep),
    ensures
        pieces_from(s + seq![sep] + b, sep, from) == pieces_from(s, sep, from).push(b),
    decreases s.len() - from,
{
    let t = s + seq![sep] + b;
    let e = next_sep(s, sep, from);
    next_sep_facts(s, sep, from);
    assert forall|j: int| from <= j < e implies t[j] != sep by {
        assert(t[j] == s[j]);
    }
    assert(t[e] == sep);
    next_sep_is(t, sep, from, e);
    assert(t.subrange(from, e) =~= s.subrange(from, e));
    if e < s.len() {
        pieces_from_appended(s, sep, b, e + 1);
        assert(pieces_from(t, sep, from) =~= pieces_from(s, sep, from).push(b));
    } else {
        let n = s.len() as int + 1;
        assert forall|j: int| n <= j < t.len() implies t[j] != sep by {
            assert(t[j] == b[j - n]);
        }
        next_sep_is(t, sep, n, t.len() as int);
        assert(t.skip(n) =~= b);
        assert(pieces_from(t, sep, n) =~= seq![b]);
        assert(s.subrange(from, e) =~= s.skip(from));
        assert(pieces_from(t, sep, from) =~= pieces_from(s, sep, from).push(b));
    }
}

/// Appending a separator and a text without one appends that text as a piece.
pub proof fn pieces_appended(s: Seq<char>, sep: char, b: Seq<char>)
    requires
        free_of(b, sep),
    ensures
        pieces(s + seq![sep] + b, sep) == pieces(s, sep).push(b),
{
    pieces_from_appended(s, sep, b, 0);
}

/// Texts without the separator are the pieces of what they are joined to.
pub proof fn pieces_of_joined(parts: Seq<Seq<char>>, sep: char)
    requires
        parts.len() > 0,
        forall|i: int| 0 <= i < parts.len() ==> free_of(#[trigger] parts[i], sep),
    ensures
        pieces(joined(parts, seq![sep]), sep) == parts,
    decreases parts.len(),
{
    if parts.len() == 1 {
        pieces_of_one(parts[0], sep);
        assert(parts =~= seq![parts[0]]);
    } else {
        let rest = parts.drop_last();
        assert forall|i: int| 0 <= i < rest.len() implies free_of(#[trigger] rest[i], sep) by {
            assert(rest[i] == parts[i]);
        }
        pieces_of_joined(rest, sep);
        pieces_appended(joined(rest, seq![sep]), sep, parts.last());
        assert(rest.push(parts.last()) =~= parts);
    }
}

/// Two separators side by side leave an empty piece.
pub proof fn empty_piece(s: Seq<char>, sep: char, from: int, j: int)
    requires
        0 <= from <= j,
        j + 1 < s.len(),
        s[j] == sep,
        s[j + 1] == sep,
    ensures
        exists|k: int|
            0 <= k < pieces_from(s, sep, from).len() && (#[trigger] pieces_from(
                s,
                sep,
                from,
            )[k]).len() == 0,
    decreases j - from,
{
    next_sep_facts(s, sep, from);
    let e = next_sep(s, sep, from);
    assert(e <= j);
    let rest = pieces_from(s, sep, e + 1);
    let all = pieces_from(s, sep, from);
    assert(all == seq![s.subrange(from, e)] + rest);
    if e == j {
        next_sep_is(s, sep, j + 1, j + 1);
        assert(rest[0] == s.subrange(j + 1, j + 1));
        assert(all[1] == rest[0]);
    } else {
        empty_piece(s, sep, e + 1, j);
        let k = choose|k: int| 0 <= k < rest.len() && (#[trigger] rest[k]).len() == 0;
        assert(all[k + 1] == rest[k]);
    }
}

} // verus!
