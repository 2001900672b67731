//! What a proposed rule allows.

use vstd::prelude::*;

use crate::address;
use crate::address::{AddressFamily, SourceAddressView};
use crate::ip;
use crate::number;
use crate::operation::FirewallOperationView;
use crate::port;
use crate::port::{PortSelectorView, PortSpecView};
use crate::proposal::DeniedFlowView;
use crate::rich_rule;
use crate::rich_rule::{
    ExpressionBuilderView, RichRuleAction, RichRuleAddressMatchView, RichRuleAnalysisView,
    RichRuleExpressionView,
};
use crate::snapshot::ConfigurationTarget;
use crate::text;

verus! {

/// A flow as it is read off a log line: the port is not zero and the family
/// is that of the source.
pub open spec fn coherent(flow: DeniedFlowView) -> bool {
    flow.dport != 0 && (flow.family == AddressFamily::Ipv4) == (flow.src is V4)
}

/// The source of a flow as a single host.
pub open spec fn host(flow: DeniedFlowView) -> SourceAddressView {
    SourceAddressView::Ip {
        addr: flow.src,
        prefix: Some(
            if flow.src is V4 {
                32u8
            } else {
                128u8
            },
        ),
    }
}

/// What allows one flow and nothing else: this source, this port, this
/// protocol, no further match.
pub open spec fn least_rule(flow: DeniedFlowView) -> RichRuleExpressionView {
    RichRuleExpressionView {
        family: Some(flow.family),
        source: Some(RichRuleAddressMatchView { address: host(flow), inverted: false }),
        destination: None,
        service: None,
        destination_port: Some(
            PortSpecView { port: PortSelectorView::Single(flow.dport), protocol: flow.proto },
        ),
        source_port: None,
        protocol: None,
        priority: 0,
        action: RichRuleAction::Accept,
    }
}

/// Every flow that is read off a log line is coherent.
pub proof fn parsed_flows_are_coherent(
    src: Seq<char>,
    dport: Seq<char>,
    proto: Seq<char>,
    iface: Seq<char>,
)
    ensures
        DeniedFlowView::parsed(src, dport, proto, iface) matches Ok(flow) ==> coherent(flow),
{
}

/// The rule's text, cut where its tokens end.
spec fn cut_text(
    family: Seq<char>,
    source: Seq<char>,
    dport: Seq<char>,
    proto: Seq<char>,
) -> Seq<char> {
    let r6 = "protocol="@ + (seq!['"'] + (proto + (seq!['"'] + (seq![' '] + "accept"@))));
    let r5 = "port="@ + (seq!['"'] + (dport + (seq!['"'] + (seq![' '] + r6))));
    let r4 = "port"@ + (seq![' '] + r5);
    let r3 = "address="@ + (seq!['"'] + (source + (seq!['"'] + (seq![' '] + r4))));
    let r2 = "source"@ + (seq![' '] + r3);
    let r1 = "family="@ + (seq!['"'] + (family + (seq!['"'] + (seq![' '] + r2))));
    "rule"@ + (seq![' '] + r1)
}

spec fn prefix_text(flow: DeniedFlowView) -> Seq<char> {
    if flow.family == AddressFamily::Ipv4 {
        "/32"@
    } else {
        "/128"@
    }
}

proof fn assoc(a: Seq<char>, b: Seq<char>, c: Seq<char>)
    ensures
        (a + b) + c == a + (b + c),
{
    assert((a + b) + c =~= a + (b + c));
}

/// Replaces the literal `l` by its parts, with what follows.
proof fn literals_cut()
    ensures
        forall|r: Seq<char>| #[trigger]
            ("rule family=\""@ + r) == "rule"@ + (seq![' '] + ("family="@ + (seq!['"'] + r))),
        forall|r: Seq<char>| #[trigger]
            ("\" source address=\""@ + r) == seq!['"'] + (seq![' '] + ("source"@ + (seq![' '] + (
            "address="@ + (seq!['"'] + r))))),
        forall|r: Seq<char>| #[trigger]
            ("\" port port=\""@ + r) == seq!['"'] + (seq![' '] + ("port"@ + (seq![' '] + ("port="@ + (
            seq!['"'] + r))))),
        forall|r: Seq<char>| #[trigger]
            ("\" protocol=\""@ + r) == seq!['"'] + (seq![' '] + ("protocol="@ + (seq!['"'] + r))),
        "\" accept"@ == seq!['"'] + (seq![' '] + "accept"@),
{
    reveal_strlit("rule family=\"");
    reveal_strlit("rule");
    reveal_strlit("family=");
    reveal_strlit("\" source address=\"");
    reveal_strlit("source");
    reveal_strlit("address=");
    reveal_strlit("\" port port=\"");
    reveal_strlit("port");
    reveal_strlit("port=");
    reveal_strlit("\" protocol=\"");
    reveal_strlit("protocol=");
    reveal_strlit("\" accept");
    reveal_strlit("accept");
    assert forall|r: Seq<char>| #[trigger]
        ("rule family=\""@ + r) == "rule"@ + (seq![' '] + ("family="@ + (seq!['"'] + r))) by {
        assert("rule family=\""@ + r =~= "rule"@ + (seq![' '] + ("family="@ + (seq!['"'] + r))));
    }
    assert forall|r: Seq<char>| #[trigger]
        ("\" source address=\""@ + r) == seq!['"'] + (seq![' '] + ("source"@ + (seq![' '] + ("address="@
            + (seq!['"'] + r))))) by {
        assert("\" source address=\""@ + r =~= seq!['"'] + (seq![' '] + ("source"@ + (seq![' '] + (
        "address="@ + (seq!['"'] + r))))));
    }
    assert forall|r: Seq<char>| #[trigger]
        ("\" port port=\""@ + r) == seq!['"'] + (seq![' '] + ("port"@ + (seq![' '] + ("port="@ + (
        seq!['"'] + r))))) by {
        assert("\" port port=\""@ + r =~= seq!['"'] + (seq![' '] + ("port"@ + (seq![' '] + ("port="@ + (
        seq!['"'] + r))))));
    }
    assert forall|r: Seq<char>| #[trigger]
        ("\" protocol=\""@ + r) == seq!['"'] + (seq![' '] + ("protocol="@ + (seq!['"'] + r))) by {
        assert(
            "\" protocol=\""@ + r =~= seq!['"'] + (seq![' '] + ("protocol="@ + (seq!['"'] + r)))
        );
    }
    assert("\" accept"@ =~= seq!['"'] + (seq![' '] + "accept"@));
}

proof fn text_is_cut(flow: DeniedFlowView)
    ensures
        flow.allow_text() == cut_text(
            flow.family.spelled(),
            flow.src.spelled() + prefix_text(flow),
            number::decimal(flow.dport as nat),
            flow.proto.spelled(),
        ),
{
    let f = flow.family.spelled();
    let a = flow.src.spelled();
    let p = prefix_text(flow);
    let d = number::decimal(flow.dport as nat);
    let x = flow.proto.spelled();
    let l1 = "rule family=\""@;
    let l2 = "\" source address=\""@;
    let l3 = "\" port port=\""@;
    let l4 = "\" protocol=\""@;
    let l5 = "\" accept"@;
    let t = flow.allow_text();
    assert(t == l1 + f + l2 + a + p + l3 + d + l4 + x + l5);
    assoc(l1 + f + l2 + a + p + l3 + d + l4, x, l5);
    assoc(l1 + f + l2 + a + p + l3 + d, l4, x + l5);
    assoc(l1 + f + l2 + a + p + l3, d, l4 + (x + l5));
    assoc(l1 + f + l2 + a + p, l3, d + (l4 + (x + l5)));
    assoc(l1 + f + l2, a, p);
    assoc(l1 + f + l2, a + p, l3 + (d + (l4 + (x + l5))));
    assoc(l1 + f, l2, (a + p) + (l3 + (d + (l4 + (x + l5)))));
    assoc(l1, f, l2 + ((a + p) + (l3 + (d + (l4 + (x + l5))))));
    literals_cut();
}

/// The tokens of the rule.
spec fn rule_tokens(
    family: Seq<char>,
    source: Seq<char>,
    dport: Seq<char>,
    proto: Seq<char>,
) -> Seq<Seq<char>> {
    seq![
        "rule"@,
        "family="@ + family,
        "source"@,
        "address="@ + source,
        "port"@,
        "port="@ + dport,
        "protocol="@ + proto,
        "accept"@,
    ]
}

proof fn words_are_plain()
    ensures
        rich_rule::laws::plain("rule"@),
        rich_rule::laws::plain("family="@),
        rich_rule::laws::plain("source"@),
        rich_rule::laws::plain("address="@),
        rich_rule::laws::plain("port"@),
        rich_rule::laws::plain("port="@),
        rich_rule::laws::plain("protocol="@),
        rich_rule::laws::plain("accept"@),
{
    reveal_strlit("rule");
    reveal_strlit("family=");
    reveal_strlit("source");
    reveal_strlit("address=");
    reveal_strlit("port");
    reveal_strlit("port=");
    reveal_strlit("protocol=");
    reveal_strlit("accept");
}

proof fn tokens_of_cut_text(
    family: Seq<char>,
    source: Seq<char>,
    dport: Seq<char>,
    proto: Seq<char>,
)
    requires
        text::free_of(family, '"'),
        text::free_of(source, '"'),
        text::free_of(dport, '"'),
        text::free_of(proto, '"'),
    ensures
        rich_rule::tokens_of(cut_text(family, source, dport, proto)) == Some(
            rule_tokens(family, source, dport, proto),
        ),
{
    words_are_plain();
    let r6 = "protocol="@ + (seq!['"'] + (proto + (seq!['"'] + (seq![' '] + "accept"@))));
    let r5 = "port="@ + (seq!['"'] + (dport + (seq!['"'] + (seq![' '] + r6))));
    let r4 = "port"@ + (seq![' '] + r5);
    let r3 = "address="@ + (seq!['"'] + (source + (seq!['"'] + (seq![' '] + r4))));
    let r2 = "source"@ + (seq![' '] + r3);
    let r1 = "family="@ + (seq!['"'] + (family + (seq!['"'] + (seq![' '] + r2))));
    rich_rule::laws::word_alone("accept"@);
    rich_rule::laws::pair_first("protocol="@, proto, "accept"@);
    rich_rule::laws::pair_first("port="@, dport, r6);
    rich_rule::laws::word_first("port"@, r5);
    rich_rule::laws::pair_first("address="@, source, r4);
    rich_rule::laws::word_first("source"@, r3);
    rich_rule::laws::pair_first("family="@, family, r2);
    rich_rule::laws::word_first("rule"@, r1);
    let tokens = rule_tokens(family, source, dport, proto);
    assert(tokens =~= seq!["rule"@] + (seq!["family="@ + family] + (seq!["source"@] + (seq![
        "address="@ + source,
    ] + (seq!["port"@] + (seq!["port="@ + dport] + (seq!["protocol="@ + proto] + seq![
        "accept"@,
    ])))))));
}

proof fn spellings_hold_no_quote(flow: DeniedFlowView)
    ensures
        text::free_of(flow.family.spelled(), '"'),
        text::free_of(flow.src.spelled() + prefix_text(flow), '"'),
        text::free_of(number::decimal(flow.dport as nat), '"'),
        text::free_of(flow.proto.spelled(), '"'),
{
    reveal_strlit("ipv4");
    reveal_strlit("ipv6");
    reveal_strlit("/32");
    reveal_strlit("/128");
    reveal_strlit("tcp");
    reveal_strlit("udp");
    reveal_strlit("sctp");
    reveal_strlit("dccp");
    ip::address_text_chars(flow.src);
    let s = flow.src.spelled() + prefix_text(flow);
    assert forall|i: int| 0 <= i < s.len() implies #[trigger] s[i] != '"' by {
        if i < flow.src.spelled().len() {
            assert(ip::address_char(flow.src.spelled()[i]));
        } else {
            assert(s[i] == prefix_text(flow)[i - flow.src.spelled().len()]);
        }
    }
    number::decimal_free_of(flow.dport as nat, '"');
}

proof fn starts_with_part(a: Seq<char>, b: Seq<char>)
    ensures
        text::occurs_at(a + b, a, 0),
        text::stripped(a + b, a) == Some(b),
{
    assert((a + b).subrange(0, a.len() as int) =~= a);
    assert((a + b).skip(a.len() as int) =~= b);
}

proof fn differs_at_start(s: Seq<char>, pat: Seq<char>)
    requires
        pat.len() > 0,
        s.len() > 0 ==> s[0] != pat[0],
    ensures
        !text::occurs_at(s, pat, 0),
{
    if text::occurs_at(s, pat, 0) {
        text::occurs_char(s, pat, 0, 0);
    }
}

spec fn printable(s: Seq<char>) -> bool {
    forall|i: int| 0 <= i < s.len() ==> !text::control(#[trigger] s[i])
}

proof fn printable_joined(a: Seq<char>, b: Seq<char>)
    requires
        printable(a),
        printable(b),
    ensures
        printable(a + b),
{
    let s = a + b;
    assert forall|i: int| 0 <= i < s.len() implies !text::control(#[trigger] s[i]) by {
        if i < a.len() {
            assert(s[i] == a[i]);
        } else {
            assert(s[i] == b[i - a.len()]);
        }
    }
}

proof fn allow_text_is_printable(flow: DeniedFlowView)
    ensures
        printable(flow.allow_text()),
{
    let f = flow.family.spelled();
    let a = flow.src.spelled();
    let p = prefix_text(flow);
    let d = number::decimal(flow.dport as nat);
    let x = flow.proto.spelled();
    let l1 = "rule family=\""@;
    let l2 = "\" source address=\""@;
    let l3 = "\" port port=\""@;
    let l4 = "\" protocol=\""@;
    let l5 = "\" accept"@;
    assert(printable(l1)) by {
        reveal_strlit("rule family=\"");
    }
    assert(printable(l2)) by {
        reveal_strlit("\" source address=\"");
    }
    assert(printable(l3)) by {
        reveal_strlit("\" port port=\"");
    }
    assert(printable(l4)) by {
        reveal_strlit("\" protocol=\"");
    }
    assert(printable(l5)) by {
        reveal_strlit("\" accept");
    }
    assert(printable(f)) by {
        reveal_strlit("ipv4");
        reveal_strlit("ipv6");
    }
    assert(printable(p)) by {
        reveal_strlit("/32");
        reveal_strlit("/128");
    }
    assert(printable(x)) by {
        reveal_strlit("tcp");
        reveal_strlit("udp");
        reveal_strlit("sctp");
        reveal_strlit("dccp");
    }
    assert(printable(a)) by {
        ip::address_text_chars(flow.src);
        assert forall|i: int| 0 <= i < a.len() implies !text::control(#[trigger] a[i]) by {
            assert(ip::address_char(a[i]));
        }
    }
    assert(printable(d)) by {
        assert forall|i: int| 0 <= i < d.len() implies !text::control(#[trigger] d[i]) by {
            if text::control(d[i]) {
                number::decimal_free_of(flow.dport as nat, d[i]);
            }
        }
    }
    printable_joined(l1, f);
    printable_joined(l1 + f, l2);
    printable_joined(l1 + f + l2, a);
    printable_joined(l1 + f + l2 + a, p);
    printable_joined(l1 + f + l2 + a + p, l3);
    printable_joined(l1 + f + l2 + a + p + l3, d);
    printable_joined(l1 + f + l2 + a + p + l3 + d, l4);
    printable_joined(l1 + f + l2 + a + p + l3 + d + l4, x);
    printable_joined(l1 + f + l2 + a + p + l3 + d + l4 + x, l5);
}

/// A proposal is always made: the rule's text is a rule, for every flow.
pub proof fn proposal_is_always_made(
    flow: DeniedFlowView,
    zone: Seq<char>,
    target: ConfigurationTarget,
)
    ensures
        flow.proposal(zone, target) == Some(
            FirewallOperationView::AddRichRule { zone, rule: flow.allow_text(), target },
        ),
{
    let t = flow.allow_text();
    allow_text_is_printable(flow);
    text_is_cut(flow);
    let family = flow.family.spelled();
    let source = flow.src.spelled() + prefix_text(flow);
    let dport = number::decimal(flow.dport as nat);
    let proto = flow.proto.spelled();
    let r6 = "protocol="@ + (seq!['"'] + (proto + (seq!['"'] + (seq![' '] + "accept"@))));
    let r5 = "port="@ + (seq!['"'] + (dport + (seq!['"'] + (seq![' '] + r6))));
    let r4 = "port"@ + (seq![' '] + r5);
    let r3 = "address="@ + (seq!['"'] + (source + (seq!['"'] + (seq![' '] + r4))));
    let r2 = "source"@ + (seq![' '] + r3);
    let r1 = "family="@ + (seq!['"'] + (family + (seq!['"'] + (seq![' '] + r2))));
    let rest = seq![' '] + r1;
    assert(t == "rule"@ + rest);
    starts_with_part("rule"@, rest);
    assert(rest[0] == ' ');
    reveal_strlit("rule");
    assert(t[0] == 'r');
    let l5 = "\" accept"@;
    let before = "rule family=\""@ + family + "\" source address=\""@ + flow.src.spelled()
        + prefix_text(flow) + "\" port port=\""@ + dport + "\" protocol=\""@ + proto;
    assert(t == before + l5);
    reveal_strlit("\" accept");
    assert(t.last() == l5[7]);
    assert(text::trimmed_start(t) == t);
    assert(text::trimmed_end(t) == t);
}

proof fn family_is_read(flow: DeniedFlowView, tokens: Seq<Seq<char>>)
    requires
        tokens.len() > 1,
        tokens[1] == "family="@ + flow.family.spelled(),
    ensures
        rich_rule::element_step(tokens, 1, ExpressionBuilderView::nothing()) == Ok::<
            (int, ExpressionBuilderView),
            RichRuleAnalysisView,
        >(
            (
                1,
                ExpressionBuilderView {
                    family: Some(flow.family),
                    ..ExpressionBuilderView::nothing()
                },
            ),
        ),
{
    let f = flow.family.spelled();
    let t = tokens[1];
    starts_with_part("family="@, f);
    reveal_strlit("family=");
    reveal_strlit("family");
    reveal_strlit("=");
    reveal_strlit("ipv4");
    reveal_strlit("ipv6");
    assert("family="@ =~= "family"@ + seq!['=']);
    assert("="@ =~= seq!['=']);
    assert(t =~= "family"@ + seq!['='] + f);
    text::parted_at_char("family"@, '=', f);
    assert("ipv4"@[3] == '4' && "ipv6"@[3] == '6');
}

proof fn source_is_read(flow: DeniedFlowView, tokens: Seq<Seq<char>>, b: ExpressionBuilderView)
    requires
        coherent(flow),
        tokens.len() > 3,
        tokens[2] == "source"@,
        tokens[3] == "address="@ + (flow.src.spelled() + prefix_text(flow)),
        b.source is None,
        b.family == Some(flow.family),
    ensures
        rich_rule::element_step(tokens, 2, b) == Ok::<
            (int, ExpressionBuilderView),
            RichRuleAnalysisView,
        >(
            (
                3,
                ExpressionBuilderView {
                    source: Some(RichRuleAddressMatchView { address: host(flow), inverted: false }),
                    ..b
                },
            ),
        ),
{
    let raw = flow.src.spelled() + prefix_text(flow);
    let t = tokens[3];
    assert(raw == host(flow).spelled()) by {
        reveal_strlit("/");
        reveal_strlit("/32");
        reveal_strlit("/128");
        reveal_with_fuel(number::decimal, 4);
        assert("/32"@ =~= "/"@ + number::decimal(32));
        assert("/128"@ =~= "/"@ + number::decimal(128));
        assoc(flow.src.spelled(), "/"@, number::decimal(32));
        assoc(flow.src.spelled(), "/"@, number::decimal(128));
    }
    address::source_reads_back(host(flow));
    starts_with_part("address="@, raw);
    assert(!text::occurs_at("source"@, "family="@, 0)) by {
        reveal_strlit("source");
        reveal_strlit("family=");
    }
    assert(!text::occurs_at("source"@, "priority="@, 0)) by {
        reveal_strlit("source");
        reveal_strlit("priority=");
    }
    reveal_strlit("address=");
    assert(t[0] == 'a' && t.len() >= 8);
    assert(!rich_rule::says_not(t)) by {
        reveal_strlit("not");
        assert(text::lower(t).len() == t.len());
    }
    assert(!text::occurs_at(t, "invert="@, 0)) by {
        reveal_strlit("invert=");
        differs_at_start(t, "invert="@);
    }
    assert(!text::occurs_at(t, "ipset="@, 0)) by {
        reveal_strlit("ipset=");
        differs_at_start(t, "ipset="@);
    }
    assert(!text::occurs_at(t, "mac="@, 0)) by {
        reveal_strlit("mac=");
        differs_at_start(t, "mac="@);
    }
}

proof fn port_is_read(flow: DeniedFlowView, tokens: Seq<Seq<char>>, b: ExpressionBuilderView)
    requires
        flow.dport != 0,
        tokens.len() > 6,
        tokens[4] == "port"@,
        tokens[5] == "port="@ + number::decimal(flow.dport as nat),
        tokens[6] == "protocol="@ + flow.proto.spelled(),
        b.destination_port is None,
    ensures
        rich_rule::element_step(tokens, 4, b) == Ok::<
            (int, ExpressionBuilderView),
            RichRuleAnalysisView,
        >(
            (
                6,
                ExpressionBuilderView {
                    destination_port: Some(
                        PortSpecView {
                            port: PortSelectorView::Single(flow.dport),
                            protocol: flow.proto,
                        },
                    ),
                    ..b
                },
            ),
        ),
{
    let spec = PortSpecView { port: PortSelectorView::Single(flow.dport), protocol: flow.proto };
    port::port_spec_reads_back(spec);
    starts_with_part("port="@, number::decimal(flow.dport as nat));
    starts_with_part("protocol="@, flow.proto.spelled());
    reveal_strlit("port");
    reveal_strlit("family=");
    reveal_strlit("priority=");
    reveal_strlit("source");
    reveal_strlit("destination");
    reveal_strlit("service");
    assert("port"@.len() == 4);
    assert("source"@.len() == 6 && "destination"@.len() == 11 && "service"@.len() == 7);
    assert("family="@.len() == 7 && "priority="@.len() == 9);
}

proof fn accept_is_read(tokens: Seq<Seq<char>>, b: ExpressionBuilderView)
    requires
        tokens.len() == 8,
        tokens[7] == "accept"@,
        b.action is None,
    ensures
        rich_rule::element_step(tokens, 7, b) == Ok::<
            (int, ExpressionBuilderView),
            RichRuleAnalysisView,
        >((7, ExpressionBuilderView { action: Some(RichRuleAction::Accept), ..b })),
{
    reveal_strlit("accept");
    reveal_strlit("family=");
    reveal_strlit("priority=");
    reveal_strlit("source");
    reveal_strlit("destination");
    reveal_strlit("service");
    reveal_strlit("port");
    reveal_strlit("source-port");
    reveal_strlit("protocol");
    assert("accept"@.len() == 6 && "accept"@[0] == 'a' && "source"@[0] == 's');
    assert("port"@.len() == 4);
    assert("destination"@.len() == 11 && "service"@.len() == 7);
    assert("source-port"@.len() == 11 && "protocol"@.len() == 8);
    assert("family="@.len() == 7 && "priority="@.len() == 9);
}

/// A proposed rule is the tightest one: it allows this one host, this one port
/// and this one protocol, and matches on nothing else.
pub proof fn proposal_allows_one_flow_only(flow: DeniedFlowView)
    requires
        coherent(flow),
    ensures
        rich_rule::analyzed(flow.allow_text()) == RichRuleAnalysisView::Supported(least_rule(flow)),
{
    let family = flow.family.spelled();
    let source = flow.src.spelled() + prefix_text(flow);
    let dport = number::decimal(flow.dport as nat);
    let proto = flow.proto.spelled();
    text_is_cut(flow);
    spellings_hold_no_quote(flow);
    tokens_of_cut_text(family, source, dport, proto);
    let tokens = rule_tokens(family, source, dport, proto);
    let b0 = ExpressionBuilderView::nothing();
    let b1 = ExpressionBuilderView { family: Some(flow.family), ..b0 };
    let b2 = ExpressionBuilderView {
        source: Some(RichRuleAddressMatchView { address: host(flow), inverted: false }),
        ..b1
    };
    let b3 = ExpressionBuilderView {
        destination_port: Some(
            PortSpecView { port: PortSelectorView::Single(flow.dport), protocol: flow.proto },
        ),
        ..b2
    };
    let b4 = ExpressionBuilderView { action: Some(RichRuleAction::Accept), ..b3 };
    family_is_read(flow, tokens);
    source_is_read(flow, tokens, b1);
    port_is_read(flow, tokens, b2);
    accept_is_read(tokens, b3);
    assert(rich_rule::analyzed_from(tokens, 8, b4) == rich_rule::concluded(b4));
    assert(rich_rule::analyzed_from(tokens, 7, b3) == rich_rule::concluded(b4));
    assert(rich_rule::analyzed_from(tokens, 4, b2) == rich_rule::concluded(b4));
    assert(rich_rule::analyzed_from(tokens, 2, b1) == rich_rule::concluded(b4));
    assert(rich_rule::analyzed_from(tokens, 1, b0) == rich_rule::concluded(b4));
}

} // verus!
