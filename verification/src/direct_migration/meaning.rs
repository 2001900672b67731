//! What a translated rule says, against the options of the direct rule.

use vstd::prelude::*;

use crate::address;
use crate::address::{AddressFamily, SourceAddressView};
use crate::direct_migration;
use crate::direct_migration::{DirectArgumentsView, DirectChain, DirectOption};
use crate::ids;
use crate::ids::IpProtocol;
use crate::ip;
use crate::number;
use crate::port;
use crate::port::{PortSelectorView, PortSpecView};
use crate::rich_rule;
use crate::rich_rule::laws;
use crate::rich_rule::{
    ExpressionBuilderView, RichRuleAction, RichRuleAddressMatchView,
    RichRuleAnalysisView, RichRuleExpressionView,
};
use crate::text;
use crate::traffic_test;

verus! {

// ---------------------------------------------------------------------------
// The text of the rule
// ---------------------------------------------------------------------------
/// What a rule is made of.
pub struct Parts {
    pub family: AddressFamily,
    pub priority: i16,
    pub source: Option<SourceAddressView>,
    pub destination: Option<SourceAddressView>,
    pub source_port: Option<PortSpecView>,
    pub destination_port: Option<PortSpecView>,
    pub protocol: Option<Seq<char>>,
    pub action: RichRuleAction,
}

/// The address is one of the family, in its proper form.
spec fn of_family(a: Option<SourceAddressView>, family: AddressFamily) -> bool {
    a matches Some(address) ==> address.valid() && address is Ip && address.family() == Some(family)
}

/// The addresses are of the family, there is at most one of ports and protocol,
/// and each is in its proper form.
spec fn fit(p: Parts) -> bool {
    &&& of_family(p.source, p.family)
    &&& of_family(p.destination, p.family)
    &&& p.source_port matches Some(spec) ==> spec.port.valid() && p.destination_port is None
        && p.protocol is None
    &&& p.destination_port matches Some(spec) ==> spec.port.valid() && p.protocol is None
    &&& p.protocol matches Some(name) ==> IpProtocol::parsed(name) is Ok && text::free_of(name, '"')
}

spec fn element_text(p: Parts) -> Seq<char> {
    match (p.source_port, p.destination_port, p.protocol) {
        (Some(spec), _, _) => direct_migration::port_element("source-port"@, spec),
        (None, Some(spec), _) => direct_migration::port_element("port"@, spec),
        (None, None, Some(name)) => "protocol value=\""@ + name + "\""@,
        (None, None, None) => ""@,
    }
}

spec fn spelled(a: Option<SourceAddressView>) -> Option<Seq<char>> {
    match a {
        Some(address) => Some(address.spelled()),
        None => None,
    }
}

spec fn action_text(action: RichRuleAction) -> Seq<char> {
    match action {
        RichRuleAction::Accept => "accept"@,
        RichRuleAction::Reject => "reject"@,
        RichRuleAction::Drop => "drop"@,
    }
}

spec fn text_of(p: Parts) -> Seq<char> {
    direct_migration::rule_of(
        p.family,
        p.priority,
        spelled(p.source),
        spelled(p.destination),
        element_text(p),
        action_text(p.action),
        None,
    )
}

spec fn head_tokens(p: Parts) -> Seq<Seq<char>> {
    seq![
        "rule"@,
        "priority="@ + number::signed_decimal(p.priority as int),
        "family="@ + p.family.spelled(),
    ]
}

spec fn address_tokens(word: Seq<char>, a: Option<SourceAddressView>) -> Seq<Seq<char>> {
    match a {
        Some(address) => seq![word, "address="@ + address.spelled()],
        None => Seq::empty(),
    }
}

spec fn port_tokens(word: Seq<char>, spec: PortSpecView) -> Seq<Seq<char>> {
    seq![word, "port="@ + spec.port.spelled(), "protocol="@ + spec.protocol.spelled()]
}

spec fn element_tokens(p: Parts) -> Seq<Seq<char>> {
    match (p.source_port, p.destination_port, p.protocol) {
        (Some(spec), _, _) => port_tokens("source-port"@, spec),
        (None, Some(spec), _) => port_tokens("port"@, spec),
        (None, None, Some(name)) => seq!["protocol"@, "value="@ + name],
        (None, None, None) => Seq::empty(),
    }
}

spec fn tokens(p: Parts) -> Seq<Seq<char>> {
    head_tokens(p) + address_tokens("source"@, p.source) + address_tokens(
        "destination"@,
        p.destination,
    ) + element_tokens(p) + seq![action_text(p.action)]
}

proof fn words_are_plain()
    ensures
        laws::plain("rule"@),
        laws::plain("priority="@),
        laws::plain("family="@),
        laws::plain("source"@),
        laws::plain("destination"@),
        laws::plain("address="@),
        laws::plain("port"@),
        laws::plain("source-port"@),
        laws::plain("port="@),
        laws::plain("protocol="@),
        laws::plain("protocol"@),
        laws::plain("value="@),
        laws::plain("accept"@),
        laws::plain("reject"@),
        laws::plain("drop"@),
{
    reveal_strlit("rule");
    reveal_strlit("priority=");
    reveal_strlit("family=");
    reveal_strlit("source");
    reveal_strlit("destination");
    reveal_strlit("address=");
    reveal_strlit("port");
    reveal_strlit("source-port");
    reveal_strlit("port=");
    reveal_strlit("protocol=");
    reveal_strlit("protocol");
    reveal_strlit("value=");
    reveal_strlit("accept");
    reveal_strlit("reject");
    reveal_strlit("drop");
}

/// A word and a key with its quoted value.
spec fn word_and_pair(word: Seq<char>, key: Seq<char>, value: Seq<char>) -> Seq<char> {
    word + (seq![' '] + laws::pair(key, value))
}

proof fn word_and_pair_tokens(word: Seq<char>, key: Seq<char>, value: Seq<char>)
    requires
        laws::plain(word),
        laws::plain(key),
        text::free_of(value, '"'),
    ensures
        rich_rule::tokens_of(word_and_pair(word, key, value)) == Some(seq![word, key + value]),
{
    laws::pair_alone(key, value);
    laws::word_first(word, laws::pair(key, value));
    assert(seq![word] + seq![key + value] =~= seq![word, key + value]);
}

proof fn address_text(s: Seq<char>, a: Seq<char>)
    ensures
        s + " source address=\""@ + a + "\""@ == s + (seq![' '] + word_and_pair(
            "source"@,
            "address="@,
            a,
        )),
        s + " destination address=\""@ + a + "\""@ == s + (seq![' '] + word_and_pair(
            "destination"@,
            "address="@,
            a,
        )),
{
    reveal_strlit("\"");
    reveal_strlit("address=");
    assert(s + " source address=\""@ + a + "\""@ =~= s + (seq![' '] + word_and_pair(
        "source"@,
        "address="@,
        a,
    ))) by {
        reveal_strlit("source");
        reveal_strlit(" source address=\"");
    }
    assert(s + " destination address=\""@ + a + "\""@ =~= s + (seq![' '] + word_and_pair(
        "destination"@,
        "address="@,
        a,
    ))) by {
        reveal_strlit("destination");
        reveal_strlit(" destination address=\"");
    }
}

proof fn head_text(p: Parts)
    ensures
        ({
            let n = number::signed_decimal(p.priority as int);
            let f = p.family.spelled();
            "rule priority=\""@ + n + "\" family=\""@ + f + "\""@ == word_and_pair(
                "rule"@,
                "priority="@,
                n,
            ) + (seq![' '] + laws::pair("family="@, f))
        }),
{
    let n = number::signed_decimal(p.priority as int);
    let f = p.family.spelled();
    reveal_strlit("\"");
    reveal_strlit("rule");
    reveal_strlit("priority=");
    reveal_strlit("family=");
    reveal_strlit("rule priority=\"");
    reveal_strlit("\" family=\"");
    assert("rule priority=\""@ + n + "\" family=\""@ + f + "\""@ =~= word_and_pair(
        "rule"@,
        "priority="@,
        n,
    ) + (seq![' '] + laws::pair("family="@, f)));
}

proof fn port_text(word: Seq<char>, spec: PortSpecView)
    ensures
        direct_migration::port_element(word, spec) == word_and_pair(
            word,
            "port="@,
            spec.port.spelled(),
        ) + (seq![' '] + laws::pair("protocol="@, spec.protocol.spelled())),
{
    reveal_strlit("\"");
    reveal_strlit(" port=\"");
    reveal_strlit("port=");
    reveal_strlit("\" protocol=\"");
    reveal_strlit("protocol=");
    assert(direct_migration::port_element(word, spec) =~= word_and_pair(
        word,
        "port="@,
        spec.port.spelled(),
    ) + (seq![' '] + laws::pair("protocol="@, spec.protocol.spelled())));
}

proof fn protocol_text(name: Seq<char>)
    ensures
        "protocol value=\""@ + name + "\""@ == word_and_pair("protocol"@, "value="@, name),
{
    reveal_strlit("\"");
    reveal_strlit("protocol value=\"");
    reveal_strlit("protocol");
    reveal_strlit("value=");
    assert("protocol value=\""@ + name + "\""@ =~= word_and_pair("protocol"@, "value="@, name));
}

proof fn address_has_no_quote(a: SourceAddressView)
    requires
        a is Ip,
    ensures
        text::free_of(a.spelled(), '"'),
{
    if let SourceAddressView::Ip { addr, prefix } = a {
        let shown = addr.spelled();
        ip::address_text_chars(addr);
        assert forall|i: int| 0 <= i < shown.len() implies #[trigger] shown[i] != '"' by {
            assert(ip::address_char(shown[i]));
        }
        if let Some(n) = prefix {
            number::decimal_free_of(n as nat, '"');
            reveal_strlit("/");
            let d = number::decimal(n as nat);
            let s = shown + "/"@ + d;
            assert forall|i: int| 0 <= i < s.len() implies #[trigger] s[i] != '"' by {
                if i < shown.len() {
                    assert(s[i] == shown[i]);
                } else if i > shown.len() {
                    assert(s[i] == d[i - shown.len() - 1]);
                }
            }
        }
    }
}

proof fn port_has_no_quote(spec: PortSpecView)
    ensures
        text::free_of(spec.port.spelled(), '"'),
        text::free_of(spec.protocol.spelled(), '"'),
{
    reveal_strlit("-");
    reveal_strlit("tcp");
    reveal_strlit("udp");
    reveal_strlit("sctp");
    reveal_strlit("dccp");
    match spec.port {
        PortSelectorView::Single(a) => {
            number::decimal_free_of(a as nat, '"');
        },
        PortSelectorView::Range(a, b) => {
            number::decimal_free_of(a as nat, '"');
            number::decimal_free_of(b as nat, '"');
            let x = number::decimal(a as nat);
            let y = number::decimal(b as nat);
            let s = x + "-"@ + y;
            assert forall|i: int| 0 <= i < s.len() implies #[trigger] s[i] != '"' by {
                if i < x.len() {
                    assert(s[i] == x[i]);
                } else if i > x.len() {
                    assert(s[i] == y[i - x.len() - 1]);
                }
            }
        },
    }
}

proof fn head_has_no_quote(p: Parts)
    ensures
        text::free_of(number::signed_decimal(p.priority as int), '"'),
        text::free_of(p.family.spelled(), '"'),
{
    reveal_strlit("ipv4");
    reveal_strlit("ipv6");
    let n = p.priority as int;
    if n < 0 {
        number::decimal_free_of((-n) as nat, '"');
        let d = number::decimal((-n) as nat);
        let s = number::signed_decimal(n);
        assert forall|i: int| 0 <= i < s.len() implies #[trigger] s[i] != '"' by {
            if i > 0 {
                assert(s[i] == d[i - 1]);
            }
        }
    } else {
        number::decimal_free_of(n as nat, '"');
    }
}

/// The tokens with an optional address behind them.
proof fn address_joined(s: Seq<char>, t: Seq<Seq<char>>, word: Seq<char>, a: Option<SourceAddressView>)
    requires
        rich_rule::tokens_of(s) == Some(t),
        laws::plain(word),
        a matches Some(address) ==> address is Ip,
    ensures
        a matches Some(address) ==> rich_rule::tokens_of(
            s + (seq![' '] + word_and_pair(word, "address="@, address.spelled())),
        ) == Some(t + address_tokens(word, a)),
        a is None ==> t + address_tokens(word, a) == t,
{
    words_are_plain();
    if let Some(address) = a {
        address_has_no_quote(address);
        word_and_pair_tokens(word, "address="@, address.spelled());
        laws::tokens_joined(s, word_and_pair(word, "address="@, address.spelled()));
    } else {
        assert(t + Seq::<Seq<char>>::empty() =~= t);
    }
}

proof fn element_joined(p: Parts)
    requires
        fit(p),
    ensures
        element_text(p).len() > 0 ==> rich_rule::tokens_of(element_text(p)) == Some(
            element_tokens(p),
        ),
        element_text(p).len() == 0 ==> element_tokens(p).len() == 0,
{
    words_are_plain();
    match (p.source_port, p.destination_port, p.protocol) {
        (Some(spec), _, _) => {
            port_element_tokens("source-port"@, spec);
        },
        (None, Some(spec), _) => {
            port_element_tokens("port"@, spec);
        },
        (None, None, Some(name)) => {
            protocol_text(name);
            word_and_pair_tokens("protocol"@, "value="@, name);
        },
        (None, None, None) => {
            reveal_strlit("");
        },
    }
}

proof fn port_element_tokens(word: Seq<char>, spec: PortSpecView)
    requires
        laws::plain(word),
    ensures
        direct_migration::port_element(word, spec).len() > 0,
        rich_rule::tokens_of(direct_migration::port_element(word, spec)) == Some(
            port_tokens(word, spec),
        ),
{
    words_are_plain();
    port_has_no_quote(spec);
    port_text(word, spec);
    word_and_pair_tokens(word, "port="@, spec.port.spelled());
    laws::pair_alone("protocol="@, spec.protocol.spelled());
    laws::tokens_joined(
        word_and_pair(word, "port="@, spec.port.spelled()),
        laws::pair("protocol="@, spec.protocol.spelled()),
    );
    assert(seq![word, "port="@ + spec.port.spelled()] + seq![
        "protocol="@ + spec.protocol.spelled(),
    ] =~= port_tokens(word, spec));
}

spec fn head_of(p: Parts) -> Seq<char> {
    "rule priority=\""@ + number::signed_decimal(p.priority as int) + "\" family=\""@
        + p.family.spelled() + "\""@
}

spec fn from_of(p: Parts) -> Seq<char> {
    match p.source {
        Some(a) => head_of(p) + " source address=\""@ + a.spelled() + "\""@,
        None => head_of(p),
    }
}

spec fn to_of(p: Parts) -> Seq<char> {
    match p.destination {
        Some(a) => from_of(p) + " destination address=\""@ + a.spelled() + "\""@,
        None => from_of(p),
    }
}

spec fn matching_of(p: Parts) -> Seq<char> {
    if element_text(p).len() == 0 {
        to_of(p)
    } else {
        to_of(p) + " "@ + element_text(p)
    }
}

/// The text starts as a rule does and has these tokens.
spec fn reads(s: Seq<char>, t: Seq<Seq<char>>) -> bool {
    s.len() > 0 && s[0] == 'r' && rich_rule::tokens_of(s) == Some(t)
}

proof fn head_reads(p: Parts)
    ensures
        reads(head_of(p), head_tokens(p)),
{
    let n = number::signed_decimal(p.priority as int);
    let f = p.family.spelled();
    words_are_plain();
    head_text(p);
    head_has_no_quote(p);
    word_and_pair_tokens("rule"@, "priority="@, n);
    laws::pair_alone("family="@, f);
    laws::tokens_joined(word_and_pair("rule"@, "priority="@, n), laws::pair("family="@, f));
    assert(seq!["rule"@, "priority="@ + n] + seq!["family="@ + f] =~= head_tokens(p));
    assert(head_of(p)[0] == "rule"@[0]) by {
        reveal_strlit("rule");
    }
    reveal_strlit("rule");
}

proof fn addresses_read(p: Parts)
    requires
        fit(p),
    ensures
        reads(
            to_of(p),
            head_tokens(p) + address_tokens("source"@, p.source) + address_tokens(
                "destination"@,
                p.destination,
            ),
        ),
{
    words_are_plain();
    head_reads(p);
    let t0 = head_tokens(p);
    address_joined(head_of(p), t0, "source"@, p.source);
    if let Some(a) = p.source {
        address_text(head_of(p), a.spelled());
        assert(from_of(p)[0] == head_of(p)[0]);
    }
    let t1 = t0 + address_tokens("source"@, p.source);
    assert(reads(from_of(p), t1));
    address_joined(from_of(p), t1, "destination"@, p.destination);
    if let Some(a) = p.destination {
        address_text(from_of(p), a.spelled());
        assert(to_of(p)[0] == from_of(p)[0]);
    }
}

proof fn matches_read(p: Parts)
    requires
        fit(p),
    ensures
        reads(
            matching_of(p),
            head_tokens(p) + address_tokens("source"@, p.source) + address_tokens(
                "destination"@,
                p.destination,
            ) + element_tokens(p),
        ),
{
    addresses_read(p);
    element_joined(p);
    let t2 = head_tokens(p) + address_tokens("source"@, p.source) + address_tokens(
        "destination"@,
        p.destination,
    );
    let e = element_text(p);
    if e.len() == 0 {
        assert(t2 + element_tokens(p) =~= t2);
    } else {
        reveal_strlit(" ");
        laws::tokens_joined(to_of(p), e);
        assert(to_of(p) + " "@ + e =~= to_of(p) + (seq![' '] + e));
        assert(matching_of(p)[0] == to_of(p)[0]);
    }
}

proof fn rule_tokens(p: Parts)
    requires
        fit(p),
    ensures
        rich_rule::tokens_of(text_of(p)) == Some(tokens(p)),
        text::trimmed(text_of(p)) == text_of(p),
{
    let action = action_text(p.action);
    let m = matching_of(p);
    let whole = m + " "@ + action;
    words_are_plain();
    matches_read(p);
    laws::word_alone(action);
    laws::tokens_joined(m, action);
    assert(whole =~= m + (seq![' '] + action)) by {
        reveal_strlit(" ");
    }
    assert(text_of(p) == whole);
    reveal_strlit("accept");
    reveal_strlit("reject");
    reveal_strlit("drop");
    assert(whole[0] == m[0]);
    assert(whole.last() == action.last());
    assert(action.last() == 't' || action.last() == 'p');
    assert(text::trimmed_start(whole) == whole);
    assert(text::trimmed_end(whole) == whole);
}

// ---------------------------------------------------------------------------
// The analysis of the rule
// ---------------------------------------------------------------------------
proof fn starts_with_part(a: Seq<char>, b: Seq<char>)
    ensures
        text::occurs_at(a + b, a, 0),
        text::stripped(a + b, a) == Some(b),
{
    assert((a + b).subrange(0, a.len() as int) =~= a);
    assert((a + b).skip(a.len() as int) =~= b);
}

proof fn differs_at_start(s: Seq<char>, pat: Seq<char>)
    requires
        pat.len() > 0,
        s.len() > 0 ==> s[0] != pat[0],
    ensures
        !text::occurs_at(s, pat, 0),
{
    if text::occurs_at(s, pat, 0) {
        text::occurs_char(s, pat, 0, 0);
    }
}

proof fn value_behind(key: Seq<char>, whole: Seq<char>, v: Seq<char>)
    requires
        text::free_of(key, '='),
        whole == key + seq!['='] + v,
    ensures
        rich_rule::value_of(whole) == v,
{
    reveal_strlit("=");
    assert("="@ =~= seq!['=']);
    text::parted_at_char(key, '=', v);
}

proof fn priority_is_read(t: Seq<Seq<char>>, i: int, n: i16, b: ExpressionBuilderView)
    requires
        0 <= i < t.len(),
        t[i] == "priority="@ + number::signed_decimal(n as int),
        !b.priority_seen,
    ensures
        rich_rule::analyzed_from(t, i, b) == rich_rule::analyzed_from(
            t,
            i + 1,
            ExpressionBuilderView { priority: n, priority_seen: true, ..b },
        ),
{
    let v = number::signed_decimal(n as int);
    traffic_test::priority_reads_back(n);
    starts_with_part("priority="@, v);
    reveal_strlit("priority=");
    reveal_strlit("priority");
    reveal_strlit("family=");
    assert(t[i] =~= "priority"@ + seq!['='] + v);
    value_behind("priority"@, t[i], v);
    assert(t[i][0] == 'p');
    differs_at_start(t[i], "family="@);
}

proof fn family_is_read(t: Seq<Seq<char>>, i: int, f: AddressFamily, b: ExpressionBuilderView)
    requires
        0 <= i < t.len(),
        t[i] == "family="@ + f.spelled(),
        b.family is None,
    ensures
        rich_rule::analyzed_from(t, i, b) == rich_rule::analyzed_from(
            t,
            i + 1,
            ExpressionBuilderView { family: Some(f), ..b },
        ),
{
    let v = f.spelled();
    starts_with_part("family="@, v);
    reveal_strlit("family=");
    reveal_strlit("family");
    reveal_strlit("ipv4");
    reveal_strlit("ipv6");
    assert(t[i] =~= "family"@ + seq!['='] + v);
    value_behind("family"@, t[i], v);
    assert("ipv4"@[3] == '4' && "ipv6"@[3] == '6');
}

/// The words that start an element, told apart.
proof fn words_differ()
    ensures
        forall|w: Seq<char>|
            (w == "source"@ || w == "destination"@ || w == "port"@ || w == "source-port"@ || w
                == "protocol"@ || w == "accept"@ || w == "reject"@ || w == "drop"@)
                ==> !#[trigger] text::occurs_at(w, "family="@, 0) && !text::occurs_at(
                w,
                "priority="@,
                0,
            ),
        "destination"@ != "source"@,
        "port"@ != "source"@ && "port"@ != "destination"@ && "port"@ != "service"@,
        "source-port"@ != "source"@ && "source-port"@ != "destination"@ && "source-port"@
            != "service"@ && "source-port"@ != "port"@,
        "protocol"@ != "source"@ && "protocol"@ != "destination"@ && "protocol"@ != "service"@
            && "protocol"@ != "port"@ && "protocol"@ != "source-port"@,
        "accept"@ != "source"@ && "accept"@ != "destination"@ && "accept"@ != "service"@
            && "accept"@ != "port"@ && "accept"@ != "source-port"@ && "accept"@ != "protocol"@,
        "reject"@ != "source"@ && "reject"@ != "destination"@ && "reject"@ != "service"@
            && "reject"@ != "port"@ && "reject"@ != "source-port"@ && "reject"@ != "protocol"@
            && "reject"@ != "accept"@,
        "drop"@ != "source"@ && "drop"@ != "destination"@ && "drop"@ != "service"@ && "drop"@
            != "port"@ && "drop"@ != "source-port"@ && "drop"@ != "protocol"@ && "drop"@
            != "accept"@ && "drop"@ != "reject"@,
{
    reveal_strlit("family=");
    reveal_strlit("priority=");
    reveal_strlit("source");
    reveal_strlit("destination");
    reveal_strlit("service");
    reveal_strlit("port");
    reveal_strlit("source-port");
    reveal_strlit("protocol");
    reveal_strlit("accept");
    reveal_strlit("reject");
    reveal_strlit("drop");
    assert("source"@.len() == 6 && "destination"@.len() == 11 && "service"@.len() == 7);
    assert("port"@.len() == 4 && "source-port"@.len() == 11 && "protocol"@.len() == 8);
    assert("accept"@.len() == 6 && "reject"@.len() == 6 && "drop"@.len() == 4);
    assert("source"@[0] == 's' && "accept"@[0] == 'a' && "reject"@[0] == 'r');
    assert("destination"@[0] == 'd' && "source-port"@[0] == 's');
    assert("port"@[0] == 'p' && "drop"@[0] == 'd' && "protocol"@[0] == 'p');
    assert("family="@[0] == 'f' && "priority="@[0] == 'p' && "priority="@.len() == 9);
    assert forall|w: Seq<char>|
        (w == "source"@ || w == "destination"@ || w == "port"@ || w == "source-port"@ || w
            == "protocol"@ || w == "accept"@ || w == "reject"@ || w
            == "drop"@) implies !#[trigger] text::occurs_at(w, "family="@, 0) && !text::occurs_at(
        w,
        "priority="@,
        0,
    ) by {
        differs_at_start(w, "family="@);
        if w[0] != 'p' {
            differs_at_start(w, "priority="@);
        }
    }
}

proof fn address_is_read(
    t: Seq<Seq<char>>,
    i: int,
    source: bool,
    a: SourceAddressView,
    b: ExpressionBuilderView,
)
    requires
        0 <= i,
        i + 1 < t.len(),
        t[i] == if source {
            "source"@
        } else {
            "destination"@
        },
        t[i + 1] == "address="@ + a.spelled(),
        a.valid(),
        a is Ip,
        b.family is Some,
        a.family() == b.family,
        source ==> b.source is None,
        !source ==> b.destination is None,
    ensures
        ({
            let m = Some(RichRuleAddressMatchView { address: a, inverted: false });
            rich_rule::analyzed_from(t, i, b) == rich_rule::analyzed_from(
                t,
                i + 2,
                if source {
                    ExpressionBuilderView { source: m, ..b }
                } else {
                    ExpressionBuilderView { destination: m, ..b }
                },
            )
        }),
{
    let w = t[i + 1];
    words_differ();
    address::source_reads_back(a);
    starts_with_part("address="@, a.spelled());
    assert(!text::occurs_at(t[i], "family="@, 0));
    reveal_strlit("address=");
    assert(w[0] == 'a' && w.len() >= 8);
    assert(!rich_rule::says_not(w)) by {
        reveal_strlit("not");
        assert(text::lower(w).len() == w.len());
    }
    assert(!text::occurs_at(w, "invert="@, 0)) by {
        reveal_strlit("invert=");
        differs_at_start(w, "invert="@);
    }
    assert(!text::occurs_at(w, "ipset="@, 0)) by {
        reveal_strlit("ipset=");
        differs_at_start(w, "ipset="@);
    }
    assert(!text::occurs_at(w, "mac="@, 0)) by {
        reveal_strlit("mac=");
        differs_at_start(w, "mac="@);
    }
}

proof fn port_is_read(
    t: Seq<Seq<char>>,
    i: int,
    source: bool,
    spec: PortSpecView,
    b: ExpressionBuilderView,
)
    requires
        0 <= i,
        i + 2 < t.len(),
        t[i] == if source {
            "source-port"@
        } else {
            "port"@
        },
        t[i + 1] == "port="@ + spec.port.spelled(),
        t[i + 2] == "protocol="@ + spec.protocol.spelled(),
        spec.port.valid(),
        source ==> b.source_port is None,
        !source ==> b.destination_port is None,
    ensures
        rich_rule::analyzed_from(t, i, b) == rich_rule::analyzed_from(
            t,
            i + 3,
            if source {
                ExpressionBuilderView { source_port: Some(spec), ..b }
            } else {
                ExpressionBuilderView { destination_port: Some(spec), ..b }
            },
        ),
{
    words_differ();
    assert(!text::occurs_at(t[i], "family="@, 0));
    port::port_spec_reads_back(spec);
    starts_with_part("port="@, spec.port.spelled());
    starts_with_part("protocol="@, spec.protocol.spelled());
}

proof fn protocol_is_read(t: Seq<Seq<char>>, i: int, name: Seq<char>, b: ExpressionBuilderView)
    requires
        0 <= i,
        i + 1 < t.len(),
        t[i] == "protocol"@,
        t[i + 1] == "value="@ + name,
        IpProtocol::parsed(name) is Ok,
        b.protocol is None,
    ensures
        rich_rule::analyzed_from(t, i, b) == rich_rule::analyzed_from(
            t,
            i + 2,
            ExpressionBuilderView { protocol: Some(name), ..b },
        ),
{
    words_differ();
    assert(!text::occurs_at(t[i], "family="@, 0));
    starts_with_part("value="@, name);
}

proof fn action_is_read(t: Seq<Seq<char>>, i: int, action: RichRuleAction, b: ExpressionBuilderView)
    requires
        0 <= i,
        i + 1 == t.len(),
        t[i] == action_text(action),
        b.action is None,
    ensures
        rich_rule::analyzed_from(t, i, b) == rich_rule::concluded(
            ExpressionBuilderView { action: Some(action), ..b },
        ),
{
    let end = ExpressionBuilderView { action: Some(action), ..b };
    words_differ();
    assert(!text::occurs_at(t[i], "family="@, 0));
    assert(rich_rule::analyzed_from(t, i + 1, end) == rich_rule::concluded(end));
}

spec fn matcher(a: Option<SourceAddressView>) -> Option<RichRuleAddressMatchView> {
    match a {
        Some(address) => Some(RichRuleAddressMatchView { address, inverted: false }),
        None => None,
    }
}

/// The expression that the parts make.
spec fn expression(p: Parts) -> RichRuleExpressionView {
    RichRuleExpressionView {
        family: Some(p.family),
        source: matcher(p.source),
        destination: matcher(p.destination),
        service: None,
        destination_port: p.destination_port,
        source_port: p.source_port,
        protocol: p.protocol,
        priority: p.priority,
        action: p.action,
    }
}

proof fn addresses_are_analyzed(p: Parts) -> (r: (int, ExpressionBuilderView))
    requires
        fit(p),
    ensures
        ({
            let (i, b) = r;
            &&& rich_rule::analyzed_from(tokens(p), 1, ExpressionBuilderView::nothing())
                == rich_rule::analyzed_from(tokens(p), i, b)
            &&& i == head_tokens(p).len() + address_tokens("source"@, p.source).len()
                + address_tokens("destination"@, p.destination).len()
            &&& b == ExpressionBuilderView {
                priority: p.priority,
                priority_seen: true,
                family: Some(p.family),
                source: matcher(p.source),
                destination: matcher(p.destination),
                ..ExpressionBuilderView::nothing()
            }
        }),
{
    let t = tokens(p);
    let b0 = ExpressionBuilderView::nothing();
    let b1 = ExpressionBuilderView { priority: p.priority, priority_seen: true, ..b0 };
    let b2 = ExpressionBuilderView { family: Some(p.family), ..b1 };
    let h = head_tokens(p);
    assert(t[1] == h[1] && t[2] == h[2]);
    priority_is_read(t, 1, p.priority, b0);
    family_is_read(t, 2, p.family, b1);
    let b3 = ExpressionBuilderView { source: matcher(p.source), ..b2 };
    let s = address_tokens("source"@, p.source);
    if let Some(a) = p.source {
        assert(t[3] == s[0] && t[4] == s[1]);
        address_is_read(t, 3, true, a, b2);
    }
    let i: int = 3 + s.len() as int;
    let b4 = ExpressionBuilderView { destination: matcher(p.destination), ..b3 };
    let d = address_tokens("destination"@, p.destination);
    if let Some(a) = p.destination {
        assert(t[i] == d[0] && t[i + 1] == d[1]);
        address_is_read(t, i, false, a, b3);
    }
    (i + d.len(), b4)
}

proof fn element_is_analyzed(t: Seq<Seq<char>>, i: int, b: ExpressionBuilderView, p: Parts)
    requires
        fit(p),
        0 <= i,
        t.len() == i + element_tokens(p).len() + 1,
        forall|j: int| 0 <= j < element_tokens(p).len() ==> t[i + j] == #[trigger] element_tokens(
            p,
        )[j],
        t[t.len() - 1] == action_text(p.action),
        b.source_port is None,
        b.destination_port is None,
        b.protocol is None,
        b.action is None,
    ensures
        rich_rule::analyzed_from(t, i, b) == rich_rule::concluded(
            ExpressionBuilderView {
                source_port: p.source_port,
                destination_port: p.destination_port,
                protocol: p.protocol,
                action: Some(p.action),
                ..b
            },
        ),
{
    let e = element_tokens(p);
    let k = t.len() - 1;
    match (p.source_port, p.destination_port, p.protocol) {
        (Some(spec), _, _) => {
            assert(t[i + 0] == e[0] && t[i + 1] == e[1] && t[i + 2] == e[2]);
            port_is_read(t, i, true, spec, b);
            action_is_read(t, k, p.action, ExpressionBuilderView { source_port: Some(spec), ..b });
        },
        (None, Some(spec), _) => {
            assert(t[i + 0] == e[0] && t[i + 1] == e[1] && t[i + 2] == e[2]);
            port_is_read(t, i, false, spec, b);
            action_is_read(
                t,
                k,
                p.action,
                ExpressionBuilderView { destination_port: Some(spec), ..b },
            );
        },
        (None, None, Some(name)) => {
            assert(t[i + 0] == e[0] && t[i + 1] == e[1]);
            protocol_is_read(t, i, name, b);
            action_is_read(t, k, p.action, ExpressionBuilderView { protocol: Some(name), ..b });
        },
        (None, None, None) => {
            action_is_read(t, k, p.action, b);
        },
    }
}

proof fn rule_is_analyzed(p: Parts)
    requires
        fit(p),
    ensures
        rich_rule::analyzed(text_of(p)) == RichRuleAnalysisView::Supported(expression(p)),
{
    rule_tokens(p);
    let t = tokens(p);
    let (i, b) = addresses_are_analyzed(p);
    let e = element_tokens(p);
    let front = head_tokens(p) + address_tokens("source"@, p.source) + address_tokens(
        "destination"@,
        p.destination,
    );
    assert(t == front + e + seq![action_text(p.action)]);
    assert(front.len() == i);
    assert forall|j: int| 0 <= j < e.len() implies t[i + j] == #[trigger] e[j] by {}
    assert(t.len() <= 64);
    element_is_analyzed(t, i, b, p);
}

// ---------------------------------------------------------------------------
// The options of the direct rule
// ---------------------------------------------------------------------------
/// The line gives the option, under its short or its long name, this value.
/// Options and values alternate from the fifth word on.
pub open spec fn gives(
    words: Seq<Seq<char>>,
    short: Seq<char>,
    long: Seq<char>,
    value: Seq<char>,
) -> bool {
    exists|k: int| #[trigger] at_option(words, k) && (words[k] == short || words[k] == long)
        && words[k + 1] == value
}

/// A word that stands where an option stands.
pub open spec fn at_option(words: Seq<Seq<char>>, k: int) -> bool {
    4 <= k && k + 1 < words.len() && k % 2 == 0
}

/// The line does not have the option.
pub open spec fn omits(words: Seq<Seq<char>>, short: Seq<char>, long: Seq<char>) -> bool {
    forall|k: int| #[trigger] at_option(words, k) ==> words[k] != short && words[k] != long
}

spec fn option_given(
    words: Seq<Seq<char>>,
    from: int,
    option: DirectOption,
    value: Seq<char>,
) -> bool {
    exists|k: int| #[trigger] at_option(words, k) && from <= k && direct_migration::option_of(words[k])
        == Some(option) && direct_migration::kept_value(option, words[k + 1]) == value
}

spec fn option_omitted(words: Seq<Seq<char>>, from: int, option: DirectOption) -> bool {
    forall|k: int| #[trigger] at_option(words, k) && from <= k ==> direct_migration::option_of(words[k])
        != Some(option)
}

proof fn arguments_are_given(
    words: Seq<Seq<char>>,
    i: int,
    parsed: DirectArgumentsView,
    option: DirectOption,
)
    requires
        4 <= i,
        i % 2 == 0,
        direct_migration::arguments_from(words, i, parsed) is Ok,
    ensures
        match direct_migration::arguments_from(words, i, parsed)->Ok_0.get(option) {
            Some(v) => parsed.get(option) == Some(v) || option_given(words, i, option, v),
            None => parsed.get(option) is None && option_omitted(words, i, option),
        },
        parsed.get(option) is Some ==> direct_migration::arguments_from(
            words,
            i,
            parsed,
        )->Ok_0.get(option) == parsed.get(option),
    decreases words.len() - i,
{
    if i < words.len() {
        let here = direct_migration::option_of(words[i])->0;
        let value = direct_migration::kept_value(here, words[i + 1]);
        let next = parsed.set(here, value);
        assert(i + 1 < words.len());
        assert(at_option(words, i));
        arguments_are_given(words, i + 2, next, option);
        let end = direct_migration::arguments_from(words, i, parsed)->Ok_0;
        if let Some(v) = end.get(option) {
            if option == here {
                assert(next.get(option) == Some(value));
                assert(option_given(words, i, option, v));
            } else if parsed.get(option) != Some(v) {
                let k = choose|k: int| #[trigger] at_option(words, k) && i + 2 <= k
                    && direct_migration::option_of(words[k]) == Some(option)
                    && direct_migration::kept_value(option, words[k + 1]) == v;
                assert(at_option(words, k));
            }
        } else {
            assert forall|k: int| #[trigger] at_option(words, k) && i <= k implies
            direct_migration::option_of(words[k]) != Some(option) by {
                if k >= i + 2 {
                    assert(at_option(words, k));
                } else {
                    assert(k == i);
                }
            }
        }
    } else {
        assert forall|k: int| #[trigger] at_option(words, k) && i <= k implies
        direct_migration::option_of(words[k]) != Some(option) by {}
    }
}

/// The names of the options: each option has its own, and no other word is
/// one.
pub proof fn option_names(w: Seq<char>)
    ensures
        (direct_migration::option_of(w) == Some(DirectOption::Module)) == (w == "-m"@ || w
            == "--match"@),
        (direct_migration::option_of(w) == Some(DirectOption::Protocol)) == (w == "-p"@ || w
            == "--protocol"@),
        (direct_migration::option_of(w) == Some(DirectOption::Source)) == (w == "-s"@ || w
            == "--source"@),
        (direct_migration::option_of(w) == Some(DirectOption::Destination)) == (w == "-d"@ || w
            == "--destination"@),
        (direct_migration::option_of(w) == Some(DirectOption::SourcePort)) == (w == "--sport"@ || w
            == "--source-port"@),
        (direct_migration::option_of(w) == Some(DirectOption::DestinationPort)) == (w == "--dport"@
            || w == "--destination-port"@),
        (direct_migration::option_of(w) == Some(DirectOption::Action)) == (w == "-j"@ || w
            == "--jump"@),
        (direct_migration::option_of(w) == Some(DirectOption::RejectType)) == (w
            == "--reject-with"@),
{
    reveal_strlit("-p");
    reveal_strlit("--protocol");
    reveal_strlit("-m");
    reveal_strlit("--match");
    reveal_strlit("-s");
    reveal_strlit("--source");
    reveal_strlit("-d");
    reveal_strlit("--destination");
    reveal_strlit("--sport");
    reveal_strlit("--source-port");
    reveal_strlit("--dport");
    reveal_strlit("--destination-port");
    reveal_strlit("-j");
    reveal_strlit("--jump");
    reveal_strlit("--reject-with");
    assert("-p"@.len() == 2 && "-m"@.len() == 2 && "-s"@.len() == 2 && "-d"@.len() == 2
        && "-j"@.len() == 2);
    assert("-p"@[1] == 'p' && "-m"@[1] == 'm' && "-s"@[1] == 's' && "-d"@[1] == 'd' && "-j"@[1]
        == 'j');
    assert("--protocol"@.len() == 10 && "--match"@.len() == 7 && "--source"@.len() == 8);
    assert("--destination"@.len() == 13 && "--sport"@.len() == 7 && "--source-port"@.len() == 13);
    assert("--dport"@.len() == 7 && "--destination-port"@.len() == 18 && "--jump"@.len() == 6);
    assert("--reject-with"@.len() == 13);
    assert("--match"@[2] == 'm' && "--sport"@[2] == 's' && "--dport"@[2] == 'd');
    assert("--destination"@[2] == 'd' && "--source-port"@[2] == 's' && "--reject-with"@[2] == 'r');
}

/// What the line says of one option, in its own words.
proof fn said(
    words: Seq<Seq<char>>,
    args: DirectArgumentsView,
    option: DirectOption,
    short: Seq<char>,
    long: Seq<char>,
)
    requires
        direct_migration::arguments_from(words, 4, DirectArgumentsView::nothing()) == Ok::<
            DirectArgumentsView,
            Seq<char>,
        >(args),
        forall|w: Seq<char>|
            (#[trigger] direct_migration::option_of(w) == Some(option)) == (w == short || w
                == long),
    ensures
        args.get(option) matches Some(v) ==> exists|raw: Seq<char>| #[trigger]
            gives(words, short, long, raw) && direct_migration::kept_value(option, raw) == v,
        args.get(option) is None ==> omits(words, short, long),
{
    arguments_are_given(words, 4, DirectArgumentsView::nothing(), option);
    if let Some(v) = args.get(option) {
        let k = choose|k: int| #[trigger] at_option(words, k) && 4 <= k && direct_migration::option_of(
            words[k],
        ) == Some(option) && direct_migration::kept_value(option, words[k + 1]) == v;
        assert(gives(words, short, long, words[k + 1]));
    } else {
        assert forall|k: int| #[trigger] at_option(words, k) implies words[k] != short && words[k]
            != long by {
            assert(direct_migration::option_of(words[k]) != Some(option));
        }
    }
}

/// The address match says what the option says: the address that its value
/// reads as, not inverted; nothing where the option is not given.
pub open spec fn address_said(
    words: Seq<Seq<char>>,
    short: Seq<char>,
    long: Seq<char>,
    m: Option<RichRuleAddressMatchView>,
) -> bool {
    match m {
        Some(found) => !found.inverted && exists|v: Seq<char>| #[trigger]
            gives(words, short, long, v) && SourceAddressView::parsed(v) == Ok::<
                SourceAddressView,
                ids::ValidationErrorView,
            >(found.address),
        None => omits(words, short, long),
    }
}

/// The port match says what the option says: the port that its value reads as,
/// with the protocol of the line; nothing where the option is not given.
pub open spec fn port_said(
    words: Seq<Seq<char>>,
    short: Seq<char>,
    long: Seq<char>,
    spec: Option<PortSpecView>,
) -> bool {
    match spec {
        Some(found) => exists|v: Seq<char>, p: Seq<char>| #[trigger]
            gives(words, short, long, v) && #[trigger] gives(words, "-p"@, "--protocol"@, p)
                && PortSpecView::parsed(v + "/"@ + text::lower(p)) == Ok::<
                PortSpecView,
                ids::ValidationErrorView,
            >(found),
        None => omits(words, short, long),
    }
}

/// The expression says what the words of the direct rule say: source and
/// destination, source port and destination port, protocol, action, priority
/// and family, each from its own option, and nothing that no option says.
pub open spec fn says_the_same(words: Seq<Seq<char>>, e: RichRuleExpressionView) -> bool {
    &&& words[0] == "ipv4"@ && e.family == Some(AddressFamily::Ipv4) || words[0] == "ipv6"@
        && e.family == Some(AddressFamily::Ipv6)
    &&& number::signed(words[3], 32767) == Some(e.priority as int)
    &&& address_said(words, "-s"@, "--source"@, e.source)
    &&& address_said(words, "-d"@, "--destination"@, e.destination)
    &&& port_said(words, "--sport"@, "--source-port"@, e.source_port)
    &&& port_said(words, "--dport"@, "--destination-port"@, e.destination_port)
    &&& match e.protocol {
        Some(name) => e.source_port is None && e.destination_port is None && exists|p: Seq<char>|
            #[trigger] gives(words, "-p"@, "--protocol"@, p) && text::lower(p) == name,
        None => e.source_port is Some || e.destination_port is Some || omits(
            words,
            "-p"@,
            "--protocol"@,
        ),
    }
    &&& e.service is None
    &&& exists|a: Seq<char>| #[trigger]
        gives(words, "-j"@, "--jump"@, a) && text::upper(a) == match e.action {
            RichRuleAction::Accept => "ACCEPT"@,
            RichRuleAction::Reject => "REJECT"@,
            RichRuleAction::Drop => "DROP"@,
        }
}

/// The line rejects in a particular way, which a rich rule can say and its
/// analysis leaves open.
pub open spec fn names_reject_type(words: Seq<Seq<char>>) -> bool {
    !omits(words, "--reject-with"@, "--reject-with"@)
}

/// The line matches a protocol and no port, and the protocol is no name that a
/// rich rule's analysis takes.
pub open spec fn names_odd_protocol(words: Seq<Seq<char>>) -> bool {
    &&& omits(words, "--sport"@, "--source-port"@)
    &&& omits(words, "--dport"@, "--destination-port"@)
    &&& exists|p: Seq<char>| #[trigger]
        gives(words, "-p"@, "--protocol"@, p) && IpProtocol::parsed(text::lower(p)) is Err
}

/// What the line says of every option, in its own words.
spec fn all_said(words: Seq<Seq<char>>, args: DirectArgumentsView) -> bool {
    &&& args.source matches Some(v) ==> gives(words, "-s"@, "--source"@, v)
    &&& args.source is None ==> omits(words, "-s"@, "--source"@)
    &&& args.destination matches Some(v) ==> gives(words, "-d"@, "--destination"@, v)
    &&& args.destination is None ==> omits(words, "-d"@, "--destination"@)
    &&& args.source_port matches Some(v) ==> gives(words, "--sport"@, "--source-port"@, v)
    &&& args.source_port is None ==> omits(words, "--sport"@, "--source-port"@)
    &&& args.destination_port matches Some(v) ==> gives(
        words,
        "--dport"@,
        "--destination-port"@,
        v,
    )
    &&& args.destination_port is None ==> omits(words, "--dport"@, "--destination-port"@)
    &&& args.protocol matches Some(v) ==> exists|p: Seq<char>| #[trigger]
        gives(words, "-p"@, "--protocol"@, p) && text::lower(p) == v
    &&& args.protocol is None ==> omits(words, "-p"@, "--protocol"@)
    &&& args.action matches Some(v) ==> exists|a: Seq<char>| #[trigger]
        gives(words, "-j"@, "--jump"@, a) && text::upper(a) == v
    &&& args.reject_type is Some ==> names_reject_type(words)
}

proof fn options_said(words: Seq<Seq<char>>, args: DirectArgumentsView)
    requires
        direct_migration::arguments_from(words, 4, DirectArgumentsView::nothing()) == Ok::<
            DirectArgumentsView,
            Seq<char>,
        >(args),
    ensures
        all_said(words, args),
{
    assert forall|w: Seq<char>| (#[trigger] direct_migration::option_of(w) == Some(
        DirectOption::Source,
    )) == (w == "-s"@ || w == "--source"@) by {
        option_names(w);
    }
    said(words, args, DirectOption::Source, "-s"@, "--source"@);
    assert forall|w: Seq<char>| (#[trigger] direct_migration::option_of(w) == Some(
        DirectOption::Destination,
    )) == (w == "-d"@ || w == "--destination"@) by {
        option_names(w);
    }
    said(words, args, DirectOption::Destination, "-d"@, "--destination"@);
    assert forall|w: Seq<char>| (#[trigger] direct_migration::option_of(w) == Some(
        DirectOption::SourcePort,
    )) == (w == "--sport"@ || w == "--source-port"@) by {
        option_names(w);
    }
    said(words, args, DirectOption::SourcePort, "--sport"@, "--source-port"@);
    assert forall|w: Seq<char>| (#[trigger] direct_migration::option_of(w) == Some(
        DirectOption::DestinationPort,
    )) == (w == "--dport"@ || w == "--destination-port"@) by {
        option_names(w);
    }
    said(words, args, DirectOption::DestinationPort, "--dport"@, "--destination-port"@);
    assert forall|w: Seq<char>| (#[trigger] direct_migration::option_of(w) == Some(
        DirectOption::Protocol,
    )) == (w == "-p"@ || w == "--protocol"@) by {
        option_names(w);
    }
    said(words, args, DirectOption::Protocol, "-p"@, "--protocol"@);
    assert forall|w: Seq<char>| (#[trigger] direct_migration::option_of(w) == Some(
        DirectOption::Action,
    )) == (w == "-j"@ || w == "--jump"@) by {
        option_names(w);
    }
    said(words, args, DirectOption::Action, "-j"@, "--jump"@);
    assert forall|w: Seq<char>| (#[trigger] direct_migration::option_of(w) == Some(
        DirectOption::RejectType,
    )) == (w == "--reject-with"@ || w == "--reject-with"@) by {
        option_names(w);
    }
    said(words, args, DirectOption::RejectType, "--reject-with"@, "--reject-with"@);
    if args.reject_type is Some {
        let raw = choose|raw: Seq<char>| #[trigger]
            gives(words, "--reject-with"@, "--reject-with"@, raw);
        let k = choose|k: int| #[trigger] at_option(words, k) && (words[k] == "--reject-with"@
            || words[k] == "--reject-with"@) && words[k + 1] == raw;
        assert(at_option(words, k));
    }
}

spec fn read_address(v: Option<Seq<char>>) -> Option<SourceAddressView> {
    match v {
        Some(raw) => Some(SourceAddressView::parsed(raw)->Ok_0),
        None => None,
    }
}

spec fn read_port(v: Option<Seq<char>>, protocol: Option<Seq<char>>) -> Option<PortSpecView> {
    match (v, protocol) {
        (Some(raw), Some(p)) => Some(PortSpecView::parsed(raw + "/"@ + p)->Ok_0),
        _ => None,
    }
}

/// What the options make.
spec fn parts_of(args: DirectArgumentsView, family: AddressFamily, priority: i16) -> Parts {
    Parts {
        family,
        priority,
        source: read_address(args.source),
        destination: read_address(args.destination),
        source_port: read_port(args.source_port, args.protocol),
        destination_port: read_port(args.destination_port, args.protocol),
        protocol: if args.source_port is None && args.destination_port is None {
            args.protocol
        } else {
            None
        },
        action: if args.action == Some("ACCEPT"@) {
            RichRuleAction::Accept
        } else if args.action == Some("DROP"@) {
            RichRuleAction::Drop
        } else {
            RichRuleAction::Reject
        },
    }
}

proof fn port_proper(v: Seq<char>, p: Seq<char>)
    ensures
        PortSpecView::parsed(v + "/"@ + p) matches Ok(spec) ==> spec.port.valid(),
{
    if let Some((a, _)) = text::parted(v + "/"@ + p, "/"@) {
        port::parsed_selector_is_valid(a);
    }
}

proof fn name_has_no_quote(name: Seq<char>)
    requires
        IpProtocol::parsed(name) is Ok,
    ensures
        text::free_of(name, '"'),
{
    ids::identifiers_are_safe_tokens(name, "ip protocol"@, 16, seq!['-']);
    assert forall|i: int| 0 <= i < name.len() implies #[trigger] name[i] != '"' by {
        assert(text::alnum(name[i]) || seq!['-'].contains(name[i]));
    }
}

proof fn parts_make_the_rule(args: DirectArgumentsView, family: AddressFamily, priority: i16)
    requires
        args.rich_rule(family, priority) is Ok,
        args.reject_type is None,
        args.source_port is None && args.destination_port is None ==> (args.protocol
            matches Some(name) ==> IpProtocol::parsed(name) is Ok),
    ensures
        fit(parts_of(args, family, priority)),
        args.rich_rule(family, priority) == direct_migration::checked_rule(
            text_of(parts_of(args, family, priority)),
        ),
        args.source matches Some(v) ==> SourceAddressView::parsed(v) is Ok,
        args.destination matches Some(v) ==> SourceAddressView::parsed(v) is Ok,
        args.source_port matches Some(v) ==> (args.protocol matches Some(p) && PortSpecView::parsed(
            v + "/"@ + p,
        ) is Ok),
        args.destination_port matches Some(v) ==> (args.protocol matches Some(p)
            && PortSpecView::parsed(v + "/"@ + p) is Ok),
        args.action == Some(
            match parts_of(args, family, priority).action {
                RichRuleAction::Accept => "ACCEPT"@,
                RichRuleAction::Reject => "REJECT"@,
                RichRuleAction::Drop => "DROP"@,
            },
        ),
{
    reveal_strlit("ACCEPT");
    reveal_strlit("DROP");
    reveal_strlit("REJECT");
    assert("ACCEPT"@[0] == 'A' && "DROP"@[0] == 'D' && "REJECT"@[0] == 'R');
    if let Some(v) = args.source {
        address::parsed_source_is_valid(v);
    }
    if let Some(v) = args.destination {
        address::parsed_source_is_valid(v);
    }
    if let Some(p) = args.protocol {
        if let Some(v) = args.source_port {
            port_proper(v, p);
        }
        if let Some(v) = args.destination_port {
            port_proper(v, p);
        }
        if args.source_port is None && args.destination_port is None {
            name_has_no_quote(p);
        }
    }
}

/// A translated rule says what the direct rule says: its analysis is supported,
/// and the words of the line say the same, option by option. Chain, family and
/// priority of the translation are those of the line.
pub proof fn translations_say_what_the_options_say(raw: Seq<char>)
    requires
        direct_migration::translated(raw) is Ok,
        !names_reject_type(text::ascii_words(raw)),
        !names_odd_protocol(text::ascii_words(raw)),
    ensures
        direct_migration::translated(raw) matches Ok(t) && (rich_rule::analyzed(
            t.rich_rule,
        ) matches RichRuleAnalysisView::Supported(e) && says_the_same(text::ascii_words(raw), e)
            && e.family == Some(t.family) && e.priority == t.priority),
{
    let words = text::ascii_words(raw);
    let t = direct_migration::translated(raw)->Ok_0;
    let args = direct_migration::arguments_from(words, 4, DirectArgumentsView::nothing())->Ok_0;
    options_said(words, args);
    if args.reject_type is Some {
        assert(names_reject_type(words));
    }
    if args.source_port is None && args.destination_port is None {
        if let Some(name) = args.protocol {
            let raw_name = choose|p: Seq<char>| #[trigger]
                gives(words, "-p"@, "--protocol"@, p) && text::lower(p) == name;
            assert(gives(words, "-p"@, "--protocol"@, raw_name));
        }
    }
    parts_make_the_rule(args, t.family, t.priority);
    let p = parts_of(args, t.family, t.priority);
    rule_is_analyzed(p);
    rule_tokens(p);
    assert(t.rich_rule == text_of(p));
    parts_say_the_same(words, args, t.family, t.priority);
}

proof fn parts_say_the_same(
    words: Seq<Seq<char>>,
    args: DirectArgumentsView,
    family: AddressFamily,
    priority: i16,
)
    requires
        words.len() > 3,
        all_said(words, args),
        direct_migration::header_of(words) matches Ok((f, _, n)) && f == family && n == priority,
        args.source matches Some(v) ==> SourceAddressView::parsed(v) is Ok,
        args.destination matches Some(v) ==> SourceAddressView::parsed(v) is Ok,
        args.source_port matches Some(v) ==> (args.protocol matches Some(p) && PortSpecView::parsed(
            v + "/"@ + p,
        ) is Ok),
        args.destination_port matches Some(v) ==> (args.protocol matches Some(p)
            && PortSpecView::parsed(v + "/"@ + p) is Ok),
        args.action == Some(
            match parts_of(args, family, priority).action {
                RichRuleAction::Accept => "ACCEPT"@,
                RichRuleAction::Reject => "REJECT"@,
                RichRuleAction::Drop => "DROP"@,
            },
        ),
    ensures
        says_the_same(words, expression(parts_of(args, family, priority))),
{
    let e = expression(parts_of(args, family, priority));
    number_fits(words[3]);
    if let Some(p) = args.protocol {
        let raw = choose|raw: Seq<char>| #[trigger]
            gives(words, "-p"@, "--protocol"@, raw) && text::lower(raw) == p;
        assert(gives(words, "-p"@, "--protocol"@, raw));
        if let Some(v) = args.source_port {
            assert(gives(words, "--sport"@, "--source-port"@, v));
        }
        if let Some(v) = args.destination_port {
            assert(gives(words, "--dport"@, "--destination-port"@, v));
        }
    }
    assert(address_said(words, "-s"@, "--source"@, e.source));
    assert(address_said(words, "-d"@, "--destination"@, e.destination));
    assert(port_said(words, "--sport"@, "--source-port"@, e.source_port));
    assert(port_said(words, "--dport"@, "--destination-port"@, e.destination_port));
}

proof fn number_fits(s: Seq<char>)
    ensures
        number::signed(s, 32767) matches Some(n) ==> -32768 <= n <= 32767,
{
}

/// The chain of a translation is the one that the line names, in the filter
/// table.
pub proof fn translations_keep_the_chain(raw: Seq<char>)
    requires
        direct_migration::translated(raw) is Ok,
    ensures
        ({
            let words = text::ascii_words(raw);
            let t = direct_migration::translated(raw)->Ok_0;
            &&& words[1] == "filter"@
            &&& words[2] == match t.chain {
                DirectChain::Input => "INPUT"@,
                DirectChain::Output => "OUTPUT"@,
                DirectChain::Forward => "FORWARD"@,
            }
            &&& words[0] == match t.family {
                AddressFamily::Ipv4 => "ipv4"@,
                AddressFamily::Ipv6 => "ipv6"@,
            }
        }),
{
}

/// The options can be translated: a module repeats the protocol, the action is
/// one of three, only a rejection has a type, the addresses read as addresses
/// of the family, and there is one port with its protocol, or a protocol, or a
/// source alone.
pub open spec fn translatable(args: DirectArgumentsView, family: AddressFamily) -> bool {
    &&& args.module is None || args.module == args.protocol
    &&& args.action == Some("ACCEPT"@) || args.action == Some("DROP"@) || args.action == Some(
        "REJECT"@,
    )
    &&& args.reject_type is Some ==> args.action == Some("REJECT"@)
    &&& args.source matches Some(v) ==> (SourceAddressView::parsed(v) matches Ok(a) && a.family()
        == Some(family))
    &&& args.destination matches Some(v) ==> (SourceAddressView::parsed(v) matches Ok(a)
        && a.family() == Some(family))
    &&& match (args.source_port, args.destination_port, args.protocol) {
        (Some(v), None, Some(p)) => PortSpecView::parsed(v + "/"@ + p) is Ok,
        (None, Some(v), Some(p)) => PortSpecView::parsed(v + "/"@ + p) is Ok,
        (None, None, Some(_)) => true,
        (None, None, None) => args.source is Some && args.destination is None,
        _ => false,
    }
}

/// What can be translated is: where the options can be translated, name no
/// reject type, and match a protocol that an analysis takes if they match one
/// without a port, the rule has a translation; where they cannot be translated
/// it has none.
pub proof fn what_can_be_translated_is(raw: Seq<char>, args: DirectArgumentsView)
    requires
        ({
            let words = text::ascii_words(raw);
            &&& words.len() >= 6
            &&& !direct_migration::unsafe_tokens(words)
            &&& direct_migration::header_of(words) is Ok
            &&& direct_migration::arguments_from(words, 4, DirectArgumentsView::nothing()) == Ok::<
                DirectArgumentsView,
                Seq<char>,
            >(args)
        }),
    ensures
        ({
            let (family, _, _) = direct_migration::header_of(text::ascii_words(raw))->Ok_0;
            &&& direct_migration::translated(raw) is Ok ==> translatable(args, family)
            &&& translatable(args, family) && args.reject_type is None && (args.source_port is None
                && args.destination_port is None ==> (args.protocol matches Some(name)
                ==> IpProtocol::parsed(name) is Ok)) ==> direct_migration::translated(raw) is Ok
        }),
{
    let (family, _, priority) = direct_migration::header_of(text::ascii_words(raw))->Ok_0;
    reveal_strlit("ACCEPT");
    reveal_strlit("DROP");
    reveal_strlit("REJECT");
    reveal_strlit("accept");
    reveal_strlit("drop");
    reveal_strlit("reject");
    assert("accept"@[0] == 'a' && "drop"@[0] == 'd' && "reject"@[0] == 'r');
    assert("ACCEPT"@[0] == 'A' && "DROP"@[0] == 'D' && "REJECT"@[0] == 'R');
    if translatable(args, family) && args.reject_type is None && (args.source_port is None
        && args.destination_port is None ==> (args.protocol matches Some(name)
        ==> IpProtocol::parsed(name) is Ok)) {
        translatable_parts_make_a_rule(args, family, priority);
    }
}

proof fn translatable_parts_make_a_rule(
    args: DirectArgumentsView,
    family: AddressFamily,
    priority: i16,
)
    requires
        translatable(args, family),
        args.reject_type is None,
        args.source_port is None && args.destination_port is None ==> (args.protocol
            matches Some(name) ==> IpProtocol::parsed(name) is Ok),
    ensures
        args.rich_rule(family, priority) is Ok,
{
    let p = parts_of(args, family, priority);
    reveal_strlit("ACCEPT");
    reveal_strlit("DROP");
    reveal_strlit("REJECT");
    assert("ACCEPT"@[0] == 'A' && "DROP"@[0] == 'D' && "REJECT"@[0] == 'R');
    if let Some(v) = args.source {
        address::parsed_source_is_valid(v);
    }
    if let Some(v) = args.destination {
        address::parsed_source_is_valid(v);
    }
    if let Some(name) = args.protocol {
        if let Some(v) = args.source_port {
            port_proper(v, name);
        }
        if let Some(v) = args.destination_port {
            port_proper(v, name);
        }
        if args.source_port is None && args.destination_port is None {
            name_has_no_quote(name);
        }
    }
    assert(fit(p));
    rule_is_a_rule(p);
    assert(args.rich_rule(family, priority) == direct_migration::checked_rule(text_of(p)));
}

spec fn printable(s: Seq<char>) -> bool {
    forall|i: int| 0 <= i < s.len() ==> !text::control(#[trigger] s[i])
}

proof fn joined(a: Seq<char>, b: Seq<char>)
    requires
        printable(a),
        printable(b),
    ensures
        printable(a + b),
{
    let s = a + b;
    assert forall|i: int| 0 <= i < s.len() implies !text::control(#[trigger] s[i]) by {
        if i < a.len() {
            assert(s[i] == a[i]);
        } else {
            assert(s[i] == b[i - a.len()]);
        }
    }
}

proof fn decimal_printable(n: nat)
    ensures
        printable(number::decimal(n)),
{
    let d = number::decimal(n);
    assert forall|i: int| 0 <= i < d.len() implies !text::control(#[trigger] d[i]) by {
        if text::control(d[i]) {
            number::decimal_free_of(n, d[i]);
        }
    }
}

proof fn address_printable(a: SourceAddressView)
    requires
        a is Ip,
    ensures
        printable(a.spelled()),
{
    if let SourceAddressView::Ip { addr, prefix } = a {
        let shown = addr.spelled();
        ip::address_text_chars(addr);
        assert forall|i: int| 0 <= i < shown.len() implies !text::control(#[trigger] shown[i]) by {
            assert(ip::address_char(shown[i]));
        }
        if let Some(n) = prefix {
            reveal_strlit("/");
            decimal_printable(n as nat);
            joined(shown, "/"@);
            joined(shown + "/"@, number::decimal(n as nat));
        }
    }
}

proof fn port_element_printable(word: Seq<char>, spec: PortSpecView)
    requires
        printable(word),
    ensures
        printable(direct_migration::port_element(word, spec)),
{
    let a = spec.port.spelled();
    let b = spec.protocol.spelled();
    assert(printable(a)) by {
        match spec.port {
            PortSelectorView::Single(x) => {
                decimal_printable(x as nat);
            },
            PortSelectorView::Range(x, y) => {
                reveal_strlit("-");
                decimal_printable(x as nat);
                decimal_printable(y as nat);
                joined(number::decimal(x as nat), "-"@);
                joined(number::decimal(x as nat) + "-"@, number::decimal(y as nat));
            },
        }
    }
    assert(printable(b)) by {
        reveal_strlit("tcp");
        reveal_strlit("udp");
        reveal_strlit("sctp");
        reveal_strlit("dccp");
    }
    let l1 = " port=\""@;
    let l2 = "\" protocol=\""@;
    let l3 = "\""@;
    assert(printable(l1) && printable(l2) && printable(l3)) by {
        reveal_strlit(" port=\"");
        reveal_strlit("\" protocol=\"");
        reveal_strlit("\"");
    }
    joined(word, l1);
    joined(word + l1, a);
    joined(word + l1 + a, l2);
    joined(word + l1 + a + l2, b);
    joined(word + l1 + a + l2 + b, l3);
}

proof fn element_printable(p: Parts)
    requires
        fit(p),
    ensures
        printable(element_text(p)),
{
    match (p.source_port, p.destination_port, p.protocol) {
        (Some(spec), _, _) => {
            reveal_strlit("source-port");
            port_element_printable("source-port"@, spec);
        },
        (None, Some(spec), _) => {
            reveal_strlit("port");
            port_element_printable("port"@, spec);
        },
        (None, None, Some(name)) => {
            ids::identifiers_are_safe_tokens(name, "ip protocol"@, 16, seq!['-']);
            assert forall|i: int| 0 <= i < name.len() implies !text::control(#[trigger] name[i]) by {
                assert(text::alnum(name[i]) || seq!['-'].contains(name[i]));
            }
            reveal_strlit("protocol value=\"");
            reveal_strlit("\"");
            joined("protocol value=\""@, name);
            joined("protocol value=\""@ + name, "\""@);
        },
        (None, None, None) => {
            reveal_strlit("");
        },
    }
}

proof fn addresses_printable(p: Parts)
    requires
        fit(p),
    ensures
        printable(to_of(p)),
{
    let n = number::signed_decimal(p.priority as int);
    let f = p.family.spelled();
    let l1 = "rule priority=\""@;
    let l2 = "\" family=\""@;
    let q = "\""@;
    let ls = " source address=\""@;
    let ld = " destination address=\""@;
    assert(printable(l1) && printable(l2) && printable(q) && printable(ls) && printable(ld)) by {
        reveal_strlit("rule priority=\"");
        reveal_strlit("\" family=\"");
        reveal_strlit("\"");
        reveal_strlit(" source address=\"");
        reveal_strlit(" destination address=\"");
    }
    assert(printable(f)) by {
        reveal_strlit("ipv4");
        reveal_strlit("ipv6");
    }
    assert(printable(n)) by {
        if p.priority < 0 {
            decimal_printable((-(p.priority as int)) as nat);
            joined(seq!['-'], number::decimal((-(p.priority as int)) as nat));
        } else {
            decimal_printable(p.priority as nat);
        }
    }
    joined(l1, n);
    joined(l1 + n, l2);
    joined(l1 + n + l2, f);
    joined(l1 + n + l2 + f, q);
    let head = head_of(p);
    if let Some(a) = p.source {
        address_printable(a);
        joined(head, ls);
        joined(head + ls, a.spelled());
        joined(head + ls + a.spelled(), q);
    }
    let from = from_of(p);
    if let Some(a) = p.destination {
        address_printable(a);
        joined(from, ld);
        joined(from + ld, a.spelled());
        joined(from + ld + a.spelled(), q);
    }
}

/// The text of the parts starts with the word `rule` and a space.
proof fn starts_as_a_rule(p: Parts)
    requires
        fit(p),
    ensures
        ({
            let t = text_of(p);
            t.len() > 5 && t[0] == 'r' && t[1] == 'u' && t[2] == 'l' && t[3] == 'e' && t[4] == ' '
        }),
{
    reveal_strlit("rule priority=\"");
    let h = head_of(p);
    let l = "rule priority=\""@;
    assert(l.len() == 15);
    assert forall|i: int| 0 <= i < 15 implies #[trigger] h[i] == l[i] by {}
    assert forall|i: int| 0 <= i < h.len() implies #[trigger] from_of(p)[i] == h[i] by {}
    assert forall|i: int| 0 <= i < h.len() implies #[trigger] to_of(p)[i] == h[i] by {
        assert(from_of(p)[i] == h[i]);
    }
    assert forall|i: int| 0 <= i < h.len() implies #[trigger] matching_of(p)[i] == h[i] by {
        assert(to_of(p)[i] == h[i]);
    }
    let t = text_of(p);
    assert(t == matching_of(p) + " "@ + action_text(p.action));
    assert forall|i: int| 0 <= i < 15 implies #[trigger] t[i] == l[i] by {
        assert(matching_of(p)[i] == h[i]);
        assert(h[i] == l[i]);
    }
    assert(l[0] == 'r' && l[1] == 'u' && l[2] == 'l' && l[3] == 'e' && l[4] == ' ');
    assert(t[0] == l[0] && t[1] == l[1] && t[2] == l[2] && t[3] == l[3] && t[4] == l[4]);
}

proof fn rule_is_a_rule(p: Parts)
    requires
        fit(p),
    ensures
        direct_migration::checked_rule(text_of(p)) == Ok::<Seq<char>, Seq<char>>(text_of(p)),
{
    let t = text_of(p);
    let action = action_text(p.action);
    rule_tokens(p);
    addresses_printable(p);
    element_printable(p);
    assert(printable(" "@) && printable(action)) by {
        reveal_strlit(" ");
        reveal_strlit("accept");
        reveal_strlit("reject");
        reveal_strlit("drop");
    }
    if element_text(p).len() > 0 {
        joined(to_of(p), " "@);
        joined(to_of(p) + " "@, element_text(p));
    }
    joined(matching_of(p), " "@);
    joined(matching_of(p) + " "@, action);
    assert(printable(t));
    starts_as_a_rule(p);
    reveal_strlit("rule");
    assert(t.subrange(0, 4) =~= "rule"@);
    assert(text::occurs_at(t, "rule"@, 0));
    let rest = t.skip(4);
    assert(text::stripped(t, "rule"@) == Some(rest));
    assert(rest[0] == ' ');
    assert(rich_rule::rule_text(t));
}

} // verus!
