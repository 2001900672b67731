//! What an analysis says, against the tokens of the rule.

use vstd::prelude::*;

use crate::address::{AddressFamily, SourceAddressView};
use crate::ids::{IpProtocol, ServiceName, ValidationErrorView};
use crate::port::PortSpecView;
use crate::rich_rule;
use crate::rich_rule::{
    ExpressionBuilderView, RichRuleAction, RichRuleAddressMatchView, RichRuleAnalysisView,
    RichRuleExpressionView,
};
use crate::text;
use crate::traffic_test::{RulePriority, RulePriorityErrorView};

verus! {

/// The word is a token of the rule, behind the first one and before the `n`th.
pub open spec fn has_word(tokens: Seq<Seq<char>>, n: int, word: Seq<char>) -> bool {
    exists|i: int| 1 <= i < n && #[trigger] tokens[i] == word
}

/// A token `key=…` with this value.
pub open spec fn keyed(token: Seq<char>, key: Seq<char>, value: Seq<char>) -> bool {
    token == key + value
}

/// At this place the rule names the service.
pub open spec fn service_at(tokens: Seq<Seq<char>>, i: int, name: Seq<char>) -> bool {
    tokens[i] == "service"@ && keyed(tokens[i + 1], "name="@, name)
}

/// At this place the rule names the protocol.
pub open spec fn protocol_at(tokens: Seq<Seq<char>>, i: int, name: Seq<char>) -> bool {
    tokens[i] == "protocol"@ && keyed(tokens[i + 1], "value="@, name)
}

/// At this place the rule names a port under this word, with its protocol, that
/// reads as the port spec.
pub open spec fn port_at(
    tokens: Seq<Seq<char>>,
    i: int,
    word: Seq<char>,
    spec: PortSpecView,
) -> bool {
    &&& tokens[i] == word
    &&& exists|port: Seq<char>, protocol: Seq<char>|
        #[trigger] keyed(tokens[i + 1], "port="@, port) && #[trigger] keyed(
            tokens[i + 2],
            "protocol="@,
            protocol,
        ) && PortSpecView::parsed(port + "/"@ + protocol) == Ok::<
            PortSpecView,
            ValidationErrorView,
        >(spec)
}

/// The token reads as the address.
pub open spec fn address_token(token: Seq<char>, address: SourceAddressView) -> bool {
    exists|raw: Seq<char>| #[trigger]
        keyed(token, "address="@, raw) && SourceAddressView::parsed(raw) == Ok::<
            SourceAddressView,
            ValidationErrorView,
        >(address)
}

/// The token turns the match around, or says that it does not.
pub open spec fn inversion_token(token: Seq<char>, inverted: bool) -> bool {
    ||| inverted && text::lower(token) == "not"@
    ||| text::occurs_at(token, "invert="@, 0) && (rich_rule::value_of(token) == if inverted {
        "true"@
    } else {
        "false"@
    } || rich_rule::value_of(token) == if inverted {
        "yes"@
    } else {
        "no"@
    })
}

/// At this place the rule names an address under this word, turned around or
/// not.
pub open spec fn address_at(
    tokens: Seq<Seq<char>>,
    i: int,
    word: Seq<char>,
    m: RichRuleAddressMatchView,
) -> bool {
    &&& tokens[i] == word
    &&& (!m.inverted && address_token(tokens[i + 1], m.address)) || (inversion_token(
        tokens[i + 1],
        m.inverted,
    ) && address_token(tokens[i + 2], m.address))
}

/// What was read of the first `n` tokens: every part stands among them under
/// its own word, and a part that was not read has no word among them.
spec fn told(tokens: Seq<Seq<char>>, n: int, b: ExpressionBuilderView) -> bool {
    &&& b.family matches Some(f) ==> exists|i: int|
        1 <= i < n && text::occurs_at(#[trigger] tokens[i], "family="@, 0) && rich_rule::value_of(
            tokens[i],
        ) == f.spelled()
    &&& b.priority_seen ==> exists|i: int|
        1 <= i < n && text::occurs_at(#[trigger] tokens[i], "priority="@, 0)
            && RulePriority::parsed(rich_rule::value_of(tokens[i])) == Ok::<
            i16,
            RulePriorityErrorView,
        >(b.priority)
    &&& !b.priority_seen ==> b.priority == 0
    &&& b.source matches Some(m) ==> exists|i: int|
        1 <= i < n && #[trigger] address_at(tokens, i, "source"@, m)
    &&& b.destination matches Some(m) ==> exists|i: int|
        1 <= i < n && #[trigger] address_at(tokens, i, "destination"@, m)
    &&& b.service matches Some(s) ==> exists|i: int|
        1 <= i < n && #[trigger] service_at(tokens, i, s)
    &&& b.destination_port matches Some(p) ==> exists|i: int|
        1 <= i < n && #[trigger] port_at(tokens, i, "port"@, p)
    &&& b.source_port matches Some(p) ==> exists|i: int|
        1 <= i < n && #[trigger] port_at(tokens, i, "source-port"@, p)
    &&& b.protocol matches Some(p) ==> exists|i: int|
        1 <= i < n && #[trigger] protocol_at(tokens, i, p)
    &&& b.action matches Some(a) ==> has_word(
        tokens,
        n,
        match a {
            RichRuleAction::Accept => "accept"@,
            RichRuleAction::Reject => "reject"@,
            RichRuleAction::Drop => "drop"@,
        },
    )
}

proof fn stripped_is_keyed(token: Seq<char>, key: Seq<char>, value: Seq<char>)
    requires
        text::stripped(token, key) == Some(value),
    ensures
        keyed(token, key, value),
{
    assert(token =~= key + value);
}

proof fn grown(tokens: Seq<Seq<char>>, n: int, m: int, b: ExpressionBuilderView)
    requires
        told(tokens, n, b),
        n <= m,
    ensures
        told(tokens, m, b),
{
    if let Some(a) = b.action {
        let w = match a {
            RichRuleAction::Accept => "accept"@,
            RichRuleAction::Reject => "reject"@,
            RichRuleAction::Drop => "drop"@,
        };
        let i = choose|i: int| 1 <= i < n && #[trigger] tokens[i] == w;
        assert(1 <= i < m && tokens[i] == w);
    }
}

proof fn address_told(
    tokens: Seq<Seq<char>>,
    i: int,
    source: bool,
    b: ExpressionBuilderView,
)
    requires
        1 <= i < tokens.len(),
        tokens[i] == if source {
            "source"@
        } else {
            "destination"@
        },
        told(tokens, i, b),
        rich_rule::address_step(tokens, i, source, b) is Ok,
    ensures
        rich_rule::address_step(tokens, i, source, b) matches Ok((last, next)) && i < last
            < tokens.len() && told(tokens, last + 1, next),
{
    let label = if source {
        "source"@
    } else {
        "destination"@
    };
    let (last, next) = rich_rule::address_step(tokens, i, source, b)->Ok_0;
    let (inverted, at) = rich_rule::inversion_step(tokens, i, label)->Ok_0;
    let t = tokens[at + 1];
    let m = rich_rule::address_match(t, label, inverted, b.family)->Ok_0;
    let raw = text::stripped(t, "address="@)->0;
    stripped_is_keyed(t, "address="@, raw);
    assert(address_token(t, m.address));
    if at == i + 1 {
        assert(inversion_token(tokens[i + 1], inverted));
    }
    assert(address_at(tokens, i, label, m));
    grown(tokens, i, last + 1, b);
}

proof fn port_told(tokens: Seq<Seq<char>>, i: int, source: bool, b: ExpressionBuilderView)
    requires
        1 <= i < tokens.len(),
        tokens[i] == if source {
            "source-port"@
        } else {
            "port"@
        },
        told(tokens, i, b),
        rich_rule::port_step(tokens, i, source, b) is Ok,
    ensures
        rich_rule::port_step(tokens, i, source, b) matches Ok((last, next)) && i < last
            < tokens.len() && told(tokens, last + 1, next),
{
    let (last, next) = rich_rule::port_step(tokens, i, source, b)->Ok_0;
    let port = text::stripped(tokens[i + 1], "port="@)->0;
    let protocol = text::stripped(tokens[i + 2], "protocol="@)->0;
    let spec = PortSpecView::parsed(port + "/"@ + protocol)->Ok_0;
    stripped_is_keyed(tokens[i + 1], "port="@, port);
    stripped_is_keyed(tokens[i + 2], "protocol="@, protocol);
    assert(port_at(tokens, i, tokens[i], spec));
    grown(tokens, i, last + 1, b);
}

proof fn name_told(tokens: Seq<Seq<char>>, i: int, b: ExpressionBuilderView)
    requires
        1 <= i < tokens.len(),
        told(tokens, i, b),
    ensures
        tokens[i] == "service"@ ==> (rich_rule::service_step(tokens, i, b) matches Ok((last, next))
            ==> i < last < tokens.len() && told(tokens, last + 1, next)),
        tokens[i] == "protocol"@ ==> (rich_rule::protocol_step(tokens, i, b) matches Ok(
            (last, next),
        ) ==> i < last < tokens.len() && told(tokens, last + 1, next)),
{
    if tokens[i] == "service"@ && rich_rule::service_step(tokens, i, b) is Ok {
        let raw = text::stripped(tokens[i + 1], "name="@)->0;
        stripped_is_keyed(tokens[i + 1], "name="@, raw);
        assert(service_at(tokens, i, raw));
        grown(tokens, i, i + 2, b);
    }
    if tokens[i] == "protocol"@ && rich_rule::protocol_step(tokens, i, b) is Ok {
        let raw = text::stripped(tokens[i + 1], "value="@)->0;
        stripped_is_keyed(tokens[i + 1], "value="@, raw);
        assert(protocol_at(tokens, i, raw));
        grown(tokens, i, i + 2, b);
    }
}

proof fn element_told(tokens: Seq<Seq<char>>, i: int, b: ExpressionBuilderView)
    requires
        1 <= i < tokens.len(),
        told(tokens, i, b),
    ensures
        rich_rule::element_step(tokens, i, b) matches Ok((last, next)) ==> i <= last < tokens.len()
            && told(tokens, last + 1, next),
{
    let t = tokens[i];
    if rich_rule::element_step(tokens, i, b) is Ok {
        if text::occurs_at(t, "family="@, 0) || text::occurs_at(t, "priority="@, 0) {
            grown(tokens, i, i + 1, b);
        } else if t == "source"@ {
            address_told(tokens, i, true, b);
        } else if t == "destination"@ {
            address_told(tokens, i, false, b);
        } else if t == "service"@ {
            name_told(tokens, i, b);
        } else if t == "port"@ {
            port_told(tokens, i, false, b);
        } else if t == "source-port"@ {
            port_told(tokens, i, true, b);
        } else if t == "protocol"@ {
            name_told(tokens, i, b);
        } else {
            grown(tokens, i, i + 1, b);
            assert(has_word(tokens, i + 1, t));
        }
    }
}

/// The expression says only what the rule's tokens say: each part of it stands
/// in the rule under its own word, and a part that is missing is read as none;
/// a rule without a priority has priority zero.
pub open spec fn stands_in(tokens: Seq<Seq<char>>, e: RichRuleExpressionView) -> bool {
    let n = tokens.len() as int;
    &&& e.family matches Some(f) ==> exists|i: int|
        1 <= i < n && text::occurs_at(#[trigger] tokens[i], "family="@, 0) && rich_rule::value_of(
            tokens[i],
        ) == f.spelled()
    &&& e.priority == 0 || exists|i: int|
        1 <= i < n && text::occurs_at(#[trigger] tokens[i], "priority="@, 0)
            && RulePriority::parsed(rich_rule::value_of(tokens[i])) == Ok::<
            i16,
            RulePriorityErrorView,
        >(e.priority)
    &&& e.source matches Some(m) ==> exists|i: int|
        1 <= i < n && #[trigger] address_at(tokens, i, "source"@, m)
    &&& e.destination matches Some(m) ==> exists|i: int|
        1 <= i < n && #[trigger] address_at(tokens, i, "destination"@, m)
    &&& e.service matches Some(s) ==> exists|i: int|
        1 <= i < n && #[trigger] service_at(tokens, i, s)
    &&& e.destination_port matches Some(p) ==> exists|i: int|
        1 <= i < n && #[trigger] port_at(tokens, i, "port"@, p)
    &&& e.source_port matches Some(p) ==> exists|i: int|
        1 <= i < n && #[trigger] port_at(tokens, i, "source-port"@, p)
    &&& e.protocol matches Some(p) ==> exists|i: int|
        1 <= i < n && #[trigger] protocol_at(tokens, i, p)
    &&& has_word(
        tokens,
        n,
        match e.action {
            RichRuleAction::Accept => "accept"@,
            RichRuleAction::Reject => "reject"@,
            RichRuleAction::Drop => "drop"@,
        },
    )
    &&& !(e.service is Some && e.destination_port is Some)
    &&& !(e.protocol is Some && (e.service is Some || e.destination_port is Some))
}

proof fn analysis_told(tokens: Seq<Seq<char>>, i: int, b: ExpressionBuilderView)
    requires
        1 <= i <= tokens.len(),
        told(tokens, i, b),
    ensures
        rich_rule::analyzed_from(tokens, i, b) matches RichRuleAnalysisView::Supported(e)
            ==> stands_in(tokens, e),
    decreases tokens.len() - i,
{
    if i < tokens.len() {
        element_told(tokens, i, b);
        if let Ok((last, next)) = rich_rule::element_step(tokens, i, b) {
            analysis_told(tokens, last + 1, next);
        }
    }
}

/// A supported analysis says only what the rule says.
pub proof fn analyses_stand_in_the_rule(raw: Seq<char>)
    ensures
        rich_rule::analyzed(raw) matches RichRuleAnalysisView::Supported(e) ==> (
        rich_rule::tokens_of(raw) matches Some(tokens) && stands_in(tokens, e)),
{
    if let Some(tokens) = rich_rule::tokens_of(raw) {
        if tokens.len() >= 1 {
            analysis_told(tokens, 1, ExpressionBuilderView::nothing());
        }
    }
}

// ---------------------------------------------------------------------------
// What is left out
// ---------------------------------------------------------------------------
/// The words that start an element.
pub open spec fn element_word(w: Seq<char>) -> bool {
    ||| w == "source"@
    ||| w == "destination"@
    ||| w == "service"@
    ||| w == "port"@
    ||| w == "source-port"@
    ||| w == "protocol"@
    ||| w == "accept"@
    ||| w == "reject"@
    ||| w == "drop"@
}

/// A token that an element takes along: one with a key, or the word that turns
/// a match around.
pub open spec fn attribute_token(t: Seq<char>) -> bool {
    t.contains('=') || text::lower(t) == "not"@
}

proof fn keys_have_equals(t: Seq<char>)
    ensures
        text::occurs_at(t, "family="@, 0) ==> t.contains('='),
        text::occurs_at(t, "priority="@, 0) ==> t.contains('='),
        text::occurs_at(t, "invert="@, 0) ==> t.contains('='),
        text::occurs_at(t, "address="@, 0) ==> t.contains('='),
        text::occurs_at(t, "name="@, 0) ==> t.contains('='),
        text::occurs_at(t, "value="@, 0) ==> t.contains('='),
        text::occurs_at(t, "port="@, 0) ==> t.contains('='),
        text::occurs_at(t, "protocol="@, 0) ==> t.contains('='),
{
    reveal_strlit("family=");
    reveal_strlit("priority=");
    reveal_strlit("invert=");
    reveal_strlit("address=");
    reveal_strlit("name=");
    reveal_strlit("value=");
    reveal_strlit("port=");
    reveal_strlit("protocol=");
    if text::occurs_at(t, "family="@, 0) {
        text::occurs_char(t, "family="@, 0, 6);
        assert(t[6] == '=');
    }
    if text::occurs_at(t, "priority="@, 0) {
        text::occurs_char(t, "priority="@, 0, 8);
        assert(t[8] == '=');
    }
    if text::occurs_at(t, "invert="@, 0) {
        text::occurs_char(t, "invert="@, 0, 6);
        assert(t[6] == '=');
    }
    if text::occurs_at(t, "address="@, 0) {
        text::occurs_char(t, "address="@, 0, 7);
        assert(t[7] == '=');
    }
    if text::occurs_at(t, "name="@, 0) {
        text::occurs_char(t, "name="@, 0, 4);
        assert(t[4] == '=');
    }
    if text::occurs_at(t, "value="@, 0) {
        text::occurs_char(t, "value="@, 0, 5);
        assert(t[5] == '=');
    }
    if text::occurs_at(t, "port="@, 0) {
        text::occurs_char(t, "port="@, 0, 4);
        assert(t[4] == '=');
    }
    if text::occurs_at(t, "protocol="@, 0) {
        text::occurs_char(t, "protocol="@, 0, 8);
        assert(t[8] == '=');
    }
}

/// All of these tokens are known: words that start an element, or taken along.
spec fn known(tokens: Seq<Seq<char>>, from: int, to: int) -> bool {
    forall|k: int| from <= k < to ==> element_word(#[trigger] tokens[k]) || attribute_token(
        tokens[k],
    )
}

proof fn element_known(tokens: Seq<Seq<char>>, i: int, b: ExpressionBuilderView)
    requires
        1 <= i < tokens.len(),
    ensures
        rich_rule::element_step(tokens, i, b) matches Ok((last, _)) ==> i <= last < tokens.len()
            && known(tokens, i, last + 1),
{
    let t = tokens[i];
    keys_have_equals(t);
    if i + 1 < tokens.len() {
        keys_have_equals(tokens[i + 1]);
    }
    if i + 2 < tokens.len() {
        keys_have_equals(tokens[i + 2]);
    }
    if let Ok((last, _)) = rich_rule::element_step(tokens, i, b) {
        assert(last <= i + 2);
        assert forall|k: int| i <= k < last + 1 implies element_word(#[trigger] tokens[k])
            || attribute_token(tokens[k]) by {
            assert(k == i || k == i + 1 || k == i + 2);
        }
    }
}

proof fn analysis_known(tokens: Seq<Seq<char>>, i: int, b: ExpressionBuilderView)
    requires
        1 <= i <= tokens.len(),
        known(tokens, 1, i),
    ensures
        rich_rule::analyzed_from(tokens, i, b) is Supported ==> known(
            tokens,
            1,
            tokens.len() as int,
        ),
    decreases tokens.len() - i,
{
    if i < tokens.len() {
        element_known(tokens, i, b);
        if let Ok((last, next)) = rich_rule::element_step(tokens, i, b) {
            analysis_known(tokens, last + 1, next);
        }
    }
}

/// A supported analysis leaves nothing out: every token behind the first is a
/// word that starts an element of the model, or a part of one. So a rule that
/// logs, audits, limits, marks, clamps or needs a helper is never supported.
pub proof fn supported_rules_are_understood_whole(raw: Seq<char>, k: int)
    requires
        rich_rule::analyzed(raw) is Supported,
        rich_rule::tokens_of(raw) matches Some(tokens) && 1 <= k < tokens.len(),
    ensures
        rich_rule::tokens_of(raw) matches Some(tokens) && (element_word(tokens[k])
            || attribute_token(tokens[k])),
{
    let tokens = rich_rule::tokens_of(raw)->0;
    analysis_known(tokens, 1, ExpressionBuilderView::nothing());
    assert(known(tokens, 1, tokens.len() as int));
}

proof fn attributes_start_nothing(t: Seq<char>)
    requires
        attribute_token(t),
    ensures
        !element_word(t),
{
    reveal_strlit("source");
    reveal_strlit("destination");
    reveal_strlit("service");
    reveal_strlit("port");
    reveal_strlit("source-port");
    reveal_strlit("protocol");
    reveal_strlit("accept");
    reveal_strlit("reject");
    reveal_strlit("drop");
    reveal_strlit("not");
    assert("source"@.len() == 6 && "destination"@.len() == 11 && "service"@.len() == 7);
    assert("port"@.len() == 4 && "source-port"@.len() == 11 && "protocol"@.len() == 8);
    assert("accept"@.len() == 6 && "reject"@.len() == 6 && "drop"@.len() == 4);
    assert("not"@.len() == 3);
    assert(text::lower(t).len() == t.len());
}

/// Every word among the first `n` tokens that starts an element left its part.
spec fn kept(tokens: Seq<Seq<char>>, n: int, b: ExpressionBuilderView) -> bool {
    forall|k: int| 1 <= k < n ==> keeps(#[trigger] tokens[k], b)
}

spec fn keeps(t: Seq<char>, b: ExpressionBuilderView) -> bool {
    &&& t == "source"@ ==> b.source is Some
    &&& t == "destination"@ ==> b.destination is Some
    &&& t == "service"@ ==> b.service is Some
    &&& t == "port"@ ==> b.destination_port is Some
    &&& t == "source-port"@ ==> b.source_port is Some
    &&& t == "protocol"@ ==> b.protocol is Some
    &&& t == "accept"@ ==> b.action == Some(RichRuleAction::Accept)
    &&& t == "reject"@ ==> b.action == Some(RichRuleAction::Reject)
    &&& t == "drop"@ ==> b.action == Some(RichRuleAction::Drop)
    &&& text::occurs_at(t, "family="@, 0) ==> b.family is Some
    &&& text::occurs_at(t, "priority="@, 0) ==> b.priority_seen
}

/// Whatever was read before, an element adds to it.
spec fn adds_to(b: ExpressionBuilderView, next: ExpressionBuilderView) -> bool {
    &&& b.source is Some ==> next.source == b.source
    &&& b.destination is Some ==> next.destination == b.destination
    &&& b.service is Some ==> next.service == b.service
    &&& b.destination_port is Some ==> next.destination_port == b.destination_port
    &&& b.source_port is Some ==> next.source_port == b.source_port
    &&& b.protocol is Some ==> next.protocol == b.protocol
    &&& b.action is Some ==> next.action == b.action
    &&& b.family is Some ==> next.family == b.family
    &&& b.priority_seen ==> next.priority_seen
}

proof fn words_apart()
    ensures
        "destination"@ != "source"@,
        "service"@ != "source"@ && "service"@ != "destination"@,
        "port"@ != "source"@ && "port"@ != "destination"@ && "port"@ != "service"@,
        "source-port"@ != "source"@ && "source-port"@ != "destination"@ && "source-port"@
            != "service"@ && "source-port"@ != "port"@,
        "protocol"@ != "source"@ && "protocol"@ != "destination"@ && "protocol"@ != "service"@
            && "protocol"@ != "port"@ && "protocol"@ != "source-port"@,
        "accept"@ != "source"@ && "accept"@ != "destination"@ && "accept"@ != "service"@
            && "accept"@ != "port"@ && "accept"@ != "source-port"@ && "accept"@ != "protocol"@,
        "reject"@ != "source"@ && "reject"@ != "destination"@ && "reject"@ != "service"@
            && "reject"@ != "port"@ && "reject"@ != "source-port"@ && "reject"@ != "protocol"@
            && "reject"@ != "accept"@,
        "drop"@ != "source"@ && "drop"@ != "destination"@ && "drop"@ != "service"@ && "drop"@
            != "port"@ && "drop"@ != "source-port"@ && "drop"@ != "protocol"@ && "drop"@
            != "accept"@ && "drop"@ != "reject"@,
{
    reveal_strlit("source");
    reveal_strlit("destination");
    reveal_strlit("service");
    reveal_strlit("port");
    reveal_strlit("source-port");
    reveal_strlit("protocol");
    reveal_strlit("accept");
    reveal_strlit("reject");
    reveal_strlit("drop");
    assert("source"@.len() == 6 && "destination"@.len() == 11 && "service"@.len() == 7);
    assert("port"@.len() == 4 && "source-port"@.len() == 11 && "protocol"@.len() == 8);
    assert("accept"@.len() == 6 && "reject"@.len() == 6 && "drop"@.len() == 4);
    assert("source"@[0] == 's' && "accept"@[0] == 'a' && "reject"@[0] == 'r');
    assert("destination"@[0] == 'd' && "source-port"@[0] == 's');
    assert("port"@[0] == 'p' && "drop"@[0] == 'd' && "protocol"@[0] == 'p');
}

proof fn element_keeps(tokens: Seq<Seq<char>>, i: int, b: ExpressionBuilderView)
    requires
        1 <= i < tokens.len(),
    ensures
        rich_rule::element_step(tokens, i, b) matches Ok((last, next)) ==> adds_to(b, next) && keeps(
            tokens[i],
            next,
        ),
{
    let t = tokens[i];
    words_apart();
    keys_have_equals(t);
    if t.contains('=') {
        attributes_start_nothing(t);
    }
    if text::occurs_at(t, "family="@, 0) && text::occurs_at(t, "priority="@, 0) {
        reveal_strlit("family=");
        reveal_strlit("priority=");
        text::occurs_char(t, "family="@, 0, 0);
        text::occurs_char(t, "priority="@, 0, 0);
    }
}

/// A token that an element takes along names no family and no priority.
proof fn attributes_behind(tokens: Seq<Seq<char>>, i: int, b: ExpressionBuilderView, k: int)
    requires
        1 <= i < tokens.len(),
        rich_rule::element_step(tokens, i, b) matches Ok((last, _)) && i < k <= last,
    ensures
        attribute_token(tokens[k]),
        !text::occurs_at(tokens[k], "family="@, 0),
        !text::occurs_at(tokens[k], "priority="@, 0),
{
    let t = tokens[k];
    keys_have_equals(t);
    let f = "family="@;
    let p = "priority="@;
    reveal_strlit("family=");
    reveal_strlit("priority=");
    reveal_strlit("invert=");
    reveal_strlit("address=");
    reveal_strlit("name=");
    reveal_strlit("value=");
    reveal_strlit("port=");
    reveal_strlit("protocol=");
    reveal_strlit("not");
    assert(text::lower(t).len() == t.len());
    if text::occurs_at(t, f, 0) {
        text::occurs_char(t, f, 0, 0);
    }
    if text::occurs_at(t, p, 0) {
        text::occurs_char(t, p, 0, 0);
        text::occurs_char(t, p, 0, 1);
        text::occurs_char(t, p, 0, 2);
    }
    if text::occurs_at(t, "invert="@, 0) {
        text::occurs_char(t, "invert="@, 0, 0);
    }
    if text::occurs_at(t, "address="@, 0) {
        text::occurs_char(t, "address="@, 0, 0);
    }
    if text::occurs_at(t, "name="@, 0) {
        text::occurs_char(t, "name="@, 0, 0);
    }
    if text::occurs_at(t, "value="@, 0) {
        text::occurs_char(t, "value="@, 0, 0);
    }
    if text::occurs_at(t, "port="@, 0) {
        text::occurs_char(t, "port="@, 0, 1);
    }
    if text::occurs_at(t, "protocol="@, 0) {
        text::occurs_char(t, "protocol="@, 0, 2);
    }
    assert(k == i + 1 || k == i + 2);
}

proof fn analysis_keeps(tokens: Seq<Seq<char>>, i: int, b: ExpressionBuilderView)
    requires
        1 <= i <= tokens.len(),
        kept(tokens, i, b),
    ensures
        rich_rule::analyzed_from(tokens, i, b) matches RichRuleAnalysisView::Supported(e)
            ==> leaves_nothing_out(tokens, e),
    decreases tokens.len() - i,
{
    if i < tokens.len() {
        element_known(tokens, i, b);
        element_keeps(tokens, i, b);
        if let Ok((last, next)) = rich_rule::element_step(tokens, i, b) {
            assert forall|k: int| 1 <= k < last + 1 implies keeps(#[trigger] tokens[k], next) by {
                if k < i {
                    assert(keeps(tokens[k], b));
                } else if k > i {
                    attributes_behind(tokens, i, b, k);
                    attributes_start_nothing(tokens[k]);
                }
            }
            analysis_keeps(tokens, last + 1, next);
        }
    }
}

/// Whatever the rule names is in the expression: an address, a service, a port
/// or a protocol that is named is there, and the action is the one named.
pub open spec fn leaves_nothing_out(tokens: Seq<Seq<char>>, e: RichRuleExpressionView) -> bool {
    forall|k: int|
        1 <= k < tokens.len() ==> {
            let t = #[trigger] tokens[k];
            &&& t == "source"@ ==> e.source is Some
            &&& t == "destination"@ ==> e.destination is Some
            &&& t == "service"@ ==> e.service is Some
            &&& t == "port"@ ==> e.destination_port is Some
            &&& t == "source-port"@ ==> e.source_port is Some
            &&& t == "protocol"@ ==> e.protocol is Some
            &&& t == "accept"@ ==> e.action == RichRuleAction::Accept
            &&& t == "reject"@ ==> e.action == RichRuleAction::Reject
            &&& t == "drop"@ ==> e.action == RichRuleAction::Drop
            &&& text::occurs_at(t, "family="@, 0) ==> e.family is Some
        }
}

/// A supported analysis has every part that the rule names.
pub proof fn analyses_leave_nothing_out(raw: Seq<char>)
    ensures
        rich_rule::analyzed(raw) matches RichRuleAnalysisView::Supported(e) ==> (
        rich_rule::tokens_of(raw) matches Some(tokens) && leaves_nothing_out(tokens, e)),
{
    if let Some(tokens) = rich_rule::tokens_of(raw) {
        if tokens.len() >= 1 {
            analysis_keeps(tokens, 1, ExpressionBuilderView::nothing());
        }
    }
}

} // verus!
