//! What an account concludes, said of the snapshot and the query alone.

use vstd::prelude::*;

use crate::address::SourceAddressView;
use crate::cidr;
use crate::explain;
use crate::ids::ServiceName;
use crate::ip;
use crate::ip::IpAddr;
use crate::lists;
use crate::name_map;
use crate::port;
use crate::port::{PortSelectorView, PortSpecView};
use crate::rich_rule;
use crate::service::ServiceDefinitionView;
use crate::snapshot::{FirewallSnapshotView, IpSetInfoView};
use crate::text;
use crate::zone::{ZoneDetailsView, ZoneTarget};

verus! {

// ---------------------------------------------------------------------------
// Which zone is asked
// ---------------------------------------------------------------------------
/// The address, or the block around it, has the other address in it.
pub open spec fn has_address(addr: IpAddr, prefix: Option<u8>, ip: IpAddr) -> bool {
    match prefix {
        Some(p) if p <= cidr::width(addr) => cidr::agree(addr, ip, p as nat),
        _ => addr == ip,
    }
}

/// The text reads as an address or block that has the address in it.
pub open spec fn text_has_address(entry: Seq<char>, ip: IpAddr) -> bool {
    SourceAddressView::parsed(entry) matches Ok(SourceAddressView::Ip { addr, prefix })
        && has_address(addr, prefix, ip)
}

/// A source binding takes traffic from the address: as an address or block
/// that has it, or as a known ipset with such an entry. A hardware address
/// takes none.
pub open spec fn takes(
    binding: SourceAddressView,
    ip: IpAddr,
    ipsets: Seq<(Seq<char>, IpSetInfoView)>,
) -> bool {
    ||| binding matches SourceAddressView::Ip { addr, prefix } && has_address(addr, prefix, ip)
    ||| binding matches SourceAddressView::IpSet(name) && (name_map::lookup(
        ipsets,
        name,
    ) matches Some(set) && exists|i: int|
        0 <= i < set.entries.len() && #[trigger] text_has_address(set.entries[i], ip))
}

/// One of the zone's sources takes traffic from the address.
pub open spec fn bound_to(
    zone: ZoneDetailsView,
    ip: IpAddr,
    ipsets: Seq<(Seq<char>, IpSetInfoView)>,
) -> bool {
    exists|i: int| 0 <= i < zone.sources.len() && #[trigger] takes(zone.sources[i], ip, ipsets)
}

/// The runtime zone that handles traffic from the address: the first one that
/// is bound to it, or the default zone where none is.
pub open spec fn handles(s: FirewallSnapshotView, ip: IpAddr, zone: ZoneDetailsView) -> bool {
    ||| exists|k: int|
        0 <= k < s.runtime.len() && #[trigger] s.runtime[k].1 == zone && bound_to(
            zone,
            ip,
            s.ipsets.runtime,
        ) && forall|j: int|
            0 <= j < k ==> !bound_to((#[trigger] s.runtime[j]).1, ip, s.ipsets.runtime)
    ||| name_map::lookup(s.runtime, s.default_zone) == Some(zone) && forall|j: int|
        0 <= j < s.runtime.len() ==> !bound_to((#[trigger] s.runtime[j]).1, ip, s.ipsets.runtime)
}

proof fn taking_is_covering(
    binding: SourceAddressView,
    ip: IpAddr,
    ipsets: Seq<(Seq<char>, IpSetInfoView)>,
)
    ensures
        takes(binding, ip, ipsets) == explain::binding_covers(binding, ip, ipsets),
{
    if let SourceAddressView::IpSet(name) = binding {
        if let Some(set) = name_map::lookup(ipsets, name) {
            assert forall|i: int| 0 <= i < set.entries.len() implies #[trigger] text_has_address(
                set.entries[i],
                ip,
            ) == explain::entry_covers(set.entries[i], ip) by {}
            if takes(binding, ip, ipsets) {
                let i = choose|i: int|
                    0 <= i < set.entries.len() && #[trigger] text_has_address(set.entries[i], ip);
                assert(explain::entry_covers(set.entries[i], ip));
            }
            if explain::binding_covers(binding, ip, ipsets) {
                let i = choose|i: int|
                    0 <= i < set.entries.len() && explain::entry_covers(
                        #[trigger] set.entries[i],
                        ip,
                    );
                assert(text_has_address(set.entries[i], ip));
            }
        }
    }
}

proof fn bound_is_found(
    zone: ZoneDetailsView,
    ip: IpAddr,
    ipsets: Seq<(Seq<char>, IpSetInfoView)>,
)
    ensures
        bound_to(zone, ip, ipsets) == lists::first(
            zone.sources,
            explain::binding_to(ip, ipsets),
        ) is Some,
{
    let wanted = explain::binding_to(ip, ipsets);
    lists::first_facts(zone.sources, wanted);
    assert forall|i: int| 0 <= i < zone.sources.len() implies #[trigger] wanted(zone.sources[i])
        == takes(zone.sources[i], ip, ipsets) by {
        taking_is_covering(zone.sources[i], ip, ipsets);
    }
    if bound_to(zone, ip, ipsets) {
        let i = choose|i: int|
            0 <= i < zone.sources.len() && #[trigger] takes(zone.sources[i], ip, ipsets);
        assert(wanted(zone.sources[i]));
    }
    if lists::first(zone.sources, wanted) is Some {
        let i = choose|i: int| 0 <= i < zone.sources.len() && wanted(#[trigger] zone.sources[i]);
        assert(wanted(zone.sources[i]));
        assert(takes(zone.sources[i], ip, ipsets));
    }
}

proof fn handling_zone_is_asked(
    s: FirewallSnapshotView,
    source: Seq<char>,
    query: PortSpecView,
    ip: IpAddr,
    zone: ZoneDetailsView,
)
    requires
        ip::address(source) == Some(ip),
        handles(s, ip, zone),
    ensures
        explain::explained(s, source, query).last() == explain::zone_lines(
            zone,
            ip,
            query,
            s.service_definitions,
        ).last(),
{
    let wanted = explain::zone_bound(ip, s.ipsets.runtime);
    assert forall|j: int| 0 <= j < s.runtime.len() implies wanted(#[trigger] s.runtime[j])
        == bound_to(s.runtime[j].1, ip, s.ipsets.runtime) by {
        bound_is_found(s.runtime[j].1, ip, s.ipsets.runtime);
    }
    let lines = explain::zone_lines(zone, ip, query, s.service_definitions);
    assert(lines.len() > 0);
    if exists|k: int|
        0 <= k < s.runtime.len() && #[trigger] s.runtime[k].1 == zone && bound_to(
            zone,
            ip,
            s.ipsets.runtime,
        ) && forall|j: int|
            0 <= j < k ==> !bound_to((#[trigger] s.runtime[j]).1, ip, s.ipsets.runtime) {
        let k = choose|k: int|
            0 <= k < s.runtime.len() && #[trigger] s.runtime[k].1 == zone && bound_to(
                zone,
                ip,
                s.ipsets.runtime,
            ) && forall|j: int|
                0 <= j < k ==> !bound_to((#[trigger] s.runtime[j]).1, ip, s.ipsets.runtime);
        assert(wanted(s.runtime[k]));
        lists::first_is(s.runtime, wanted, k);
    } else {
        lists::first_is_none(s.runtime, wanted);
    }
}

// ---------------------------------------------------------------------------
// What concerns the query
// ---------------------------------------------------------------------------
/// The rule is of the query's protocol and spans all its ports.
pub open spec fn opens_port(rule: PortSpecView, query: PortSpecView) -> bool {
    rule.protocol == query.protocol && port::spans(rule.port, query.port)
}

/// The service of that name is defined with a port that opens the query's.
pub open spec fn opens_service(
    definitions: Seq<(Seq<char>, ServiceDefinitionView)>,
    name: Seq<char>,
    query: PortSpecView,
) -> bool {
    name_map::lookup(definitions, name) matches Some(d) && exists|i: int|
        0 <= i < d.ports.len() && #[trigger] opens_port(d.ports[i], query)
}

/// What the rule's text says of ports lets the query pass: the port that it
/// names is of the query's protocol and spans its ports; or it names none, and
/// the service that it names is defined with such a port; or it names neither.
pub open spec fn port_condition(
    rule: Seq<char>,
    query: PortSpecView,
    definitions: Seq<(Seq<char>, ServiceDefinitionView)>,
) -> bool {
    let port = explain::attribute(rule, "port port"@);
    let protocol = explain::attribute(rule, "protocol"@);
    let service = explain::attribute(rule, "service name"@);
    &&& port matches Some(p) ==> protocol == Some(query.protocol.spelled()) && (
    PortSelectorView::parsed(p) matches Ok(selector) && port::spans(selector, query.port))
    &&& port is None ==> (service matches Some(name) ==> ServiceName::parsed(name) is Ok
        && opens_service(definitions, name, query))
}

/// The rule's text concerns traffic from the address to the query: it names a
/// source that has the address and no other family, and its ports let the
/// query pass.
pub open spec fn concerns(
    rule: Seq<char>,
    ip: IpAddr,
    query: PortSpecView,
    definitions: Seq<(Seq<char>, ServiceDefinitionView)>,
) -> bool {
    &&& explain::attribute(rule, "source address"@) matches Some(entry) && text_has_address(
        entry,
        ip,
    )
    &&& rich_rule::family_text(rule) matches Some(family) ==> family == match ip {
        IpAddr::V4(_) => "ipv4"@,
        IpAddr::V6(_) => "ipv6"@,
    }
    &&& port_condition(rule, query, definitions)
}

proof fn opening_is_covering(rule: PortSpecView, query: PortSpecView)
    requires
        query.port.valid(),
    ensures
        opens_port(rule, query) == explain::port_within(rule, query),
{
    port::spanning_is_by_bounds(rule.port, query.port);
}

proof fn opening_is_found(ports: Seq<PortSpecView>, query: PortSpecView)
    requires
        query.port.valid(),
    ensures
        (exists|i: int| 0 <= i < ports.len() && #[trigger] opens_port(ports[i], query))
            == lists::first(ports, explain::covering(query)) is Some,
{
    let wanted = explain::covering(query);
    lists::first_facts(ports, wanted);
    assert forall|i: int| 0 <= i < ports.len() implies wanted(#[trigger] ports[i]) == opens_port(
        ports[i],
        query,
    ) by {
        opening_is_covering(ports[i], query);
    }
    if exists|i: int| 0 <= i < ports.len() && #[trigger] opens_port(ports[i], query) {
        let i = choose|i: int| 0 <= i < ports.len() && #[trigger] opens_port(ports[i], query);
        assert(wanted(ports[i]));
    }
    if lists::first(ports, wanted) is Some {
        let i = choose|i: int| 0 <= i < ports.len() && wanted(#[trigger] ports[i]);
        assert(opens_port(ports[i], query));
    }
}

proof fn service_opening_is_found(
    definitions: Seq<(Seq<char>, ServiceDefinitionView)>,
    name: Seq<char>,
    query: PortSpecView,
)
    requires
        query.port.valid(),
    ensures
        opens_service(definitions, name, query) == explain::opens(
            name_map::lookup(definitions, name),
            query,
        ),
{
    if let Some(d) = name_map::lookup(definitions, name) {
        opening_is_found(d.ports, query);
    }
}

proof fn concerning_is_covering(
    rule: Seq<char>,
    ip: IpAddr,
    query: PortSpecView,
    definitions: Seq<(Seq<char>, ServiceDefinitionView)>,
)
    requires
        query.port.valid(),
    ensures
        concerns(rule, ip, query, definitions) == explain::rule_covers(
            rule,
            ip,
            query,
            definitions,
        ),
{
    if let Some(p) = explain::attribute(rule, "port port"@) {
        if let Ok(selector) = PortSelectorView::parsed(p) {
            port::spanning_is_by_bounds(selector, query.port);
        }
    } else if let Some(service) = explain::attribute(rule, "service name"@) {
        service_opening_is_found(definitions, service, query);
    }
}

// ---------------------------------------------------------------------------
// The verdict
// ---------------------------------------------------------------------------
/// The account ends with this verdict.
pub open spec fn concludes(
    s: FirewallSnapshotView,
    source: Seq<char>,
    query: PortSpecView,
    verdict: Seq<char>,
) -> bool {
    explain::explained(s, source, query).last() == ("verdict"@, verdict)
}

/// None of the zone's rich rules concerns the query.
pub open spec fn no_rule_concerns(
    s: FirewallSnapshotView,
    zone: ZoneDetailsView,
    ip: IpAddr,
    query: PortSpecView,
) -> bool {
    forall|i: int|
        0 <= i < zone.rich_rules.len() ==> !concerns(
            #[trigger] zone.rich_rules[i],
            ip,
            query,
            s.service_definitions,
        )
}

/// None of the zone's services opens the query's port.
pub open spec fn no_service_opens(
    s: FirewallSnapshotView,
    zone: ZoneDetailsView,
    query: PortSpecView,
) -> bool {
    forall|i: int|
        0 <= i < zone.services.len() ==> !opens_service(
            s.service_definitions,
            #[trigger] zone.services[i],
            query,
        )
}

/// None of the zone's ports opens the query's port.
pub open spec fn no_port_opens(zone: ZoneDetailsView, query: PortSpecView) -> bool {
    forall|i: int| 0 <= i < zone.ports.len() ==> !opens_port(#[trigger] zone.ports[i], query)
}

proof fn rules_passed(
    s: FirewallSnapshotView,
    zone: ZoneDetailsView,
    ip: IpAddr,
    query: PortSpecView,
)
    requires
        query.port.valid(),
        no_rule_concerns(s, zone, ip, query),
    ensures
        explain::zone_lines(zone, ip, query, s.service_definitions).last()
            == explain::service_lines(zone, query, s.service_definitions).last(),
{
    let wanted = explain::rule_applying(ip, query, s.service_definitions);
    assert forall|i: int| 0 <= i < zone.rich_rules.len() implies !wanted(
        #[trigger] zone.rich_rules[i],
    ) by {
        concerning_is_covering(zone.rich_rules[i], ip, query, s.service_definitions);
    }
    lists::first_is_none(zone.rich_rules, wanted);
    assert(explain::service_lines(zone, query, s.service_definitions).len() > 0);
}

proof fn services_passed(s: FirewallSnapshotView, zone: ZoneDetailsView, query: PortSpecView)
    requires
        query.port.valid(),
        no_service_opens(s, zone, query),
    ensures
        explain::service_lines(zone, query, s.service_definitions).last() == explain::port_lines(
            zone,
            query,
        ).last(),
{
    let wanted = explain::service_opening(query, s.service_definitions);
    assert forall|i: int| 0 <= i < zone.services.len() implies !wanted(
        #[trigger] zone.services[i],
    ) by {
        service_opening_is_found(s.service_definitions, zone.services[i], query);
    }
    lists::first_is_none(zone.services, wanted);
    assert(explain::port_lines(zone, query).len() > 0);
}

/// The first rich rule that concerns the query decides, by the first of
/// accept, reject, drop and mark that is a word of the rule.
pub proof fn first_concerning_rule_decides(
    s: FirewallSnapshotView,
    source: Seq<char>,
    query: PortSpecView,
    ip: IpAddr,
    zone: ZoneDetailsView,
    k: int,
)
    requires
        query.port.valid(),
        ip::address(source) == Some(ip),
        handles(s, ip, zone),
        0 <= k < zone.rich_rules.len(),
        concerns(zone.rich_rules[k], ip, query, s.service_definitions),
        forall|i: int|
            0 <= i < k ==> !concerns(
                #[trigger] zone.rich_rules[i],
                ip,
                query,
                s.service_definitions,
            ),
    ensures
        ({
            let words = text::words(zone.rich_rules[k]);
            let action = if words.contains("accept"@) {
                "accept"@
            } else if words.contains("reject"@) {
                "reject"@
            } else if words.contains("drop"@) {
                "drop"@
            } else if words.contains("mark"@) {
                "mark"@
            } else {
                "unknown action"@
            };
            concludes(
                s,
                source,
                query,
                action + " — by the rich rule above (textual approximation)"@,
            )
        }),
{
    let wanted = explain::rule_applying(ip, query, s.service_definitions);
    assert forall|i: int| 0 <= i <= k implies wanted(#[trigger] zone.rich_rules[i]) == concerns(
        zone.rich_rules[i],
        ip,
        query,
        s.service_definitions,
    ) by {
        concerning_is_covering(zone.rich_rules[i], ip, query, s.service_definitions);
    }
    lists::first_is(zone.rich_rules, wanted, k);
    handling_zone_is_asked(s, source, query, ip, zone);
}

/// Where no rich rule concerns the query, the first service that opens its
/// port allows it.
pub proof fn first_opening_service_allows(
    s: FirewallSnapshotView,
    source: Seq<char>,
    query: PortSpecView,
    ip: IpAddr,
    zone: ZoneDetailsView,
    k: int,
)
    requires
        query.port.valid(),
        ip::address(source) == Some(ip),
        handles(s, ip, zone),
        no_rule_concerns(s, zone, ip, query),
        0 <= k < zone.services.len(),
        opens_service(s.service_definitions, zone.services[k], query),
        forall|i: int|
            0 <= i < k ==> !opens_service(s.service_definitions, #[trigger] zone.services[i], query),
    ensures
        concludes(
            s,
            source,
            query,
            "allowed by service `"@ + zone.services[k] + "` in zone `"@ + zone.name + "`"@,
        ),
{
    let wanted = explain::service_opening(query, s.service_definitions);
    assert forall|i: int| 0 <= i <= k implies wanted(#[trigger] zone.services[i]) == opens_service(
        s.service_definitions,
        zone.services[i],
        query,
    ) by {
        service_opening_is_found(s.service_definitions, zone.services[i], query);
    }
    lists::first_is(zone.services, wanted, k);
    rules_passed(s, zone, ip, query);
    handling_zone_is_asked(s, source, query, ip, zone);
}

/// Where no rich rule concerns the query and no service opens its port, the
/// first port that does allows it.
pub proof fn first_opening_port_allows(
    s: FirewallSnapshotView,
    source: Seq<char>,
    query: PortSpecView,
    ip: IpAddr,
    zone: ZoneDetailsView,
    k: int,
)
    requires
        query.port.valid(),
        ip::address(source) == Some(ip),
        handles(s, ip, zone),
        no_rule_concerns(s, zone, ip, query),
        no_service_opens(s, zone, query),
        0 <= k < zone.ports.len(),
        opens_port(zone.ports[k], query),
        forall|i: int| 0 <= i < k ==> !opens_port(#[trigger] zone.ports[i], query),
    ensures
        concludes(
            s,
            source,
            query,
            "allowed by open port "@ + zone.ports[k].spelled() + " in zone `"@ + zone.name + "`"@,
        ),
{
    let wanted = explain::covering(query);
    assert forall|i: int| 0 <= i <= k implies wanted(#[trigger] zone.ports[i]) == opens_port(
        zone.ports[i],
        query,
    ) by {
        opening_is_covering(zone.ports[i], query);
    }
    lists::first_is(zone.ports, wanted, k);
    rules_passed(s, zone, ip, query);
    services_passed(s, zone, query);
    handling_zone_is_asked(s, source, query, ip, zone);
}

/// Where no rich rule concerns the query, and no service and no port of the
/// zone opens its port, the zone's target decides.
pub proof fn otherwise_the_target_decides(
    s: FirewallSnapshotView,
    source: Seq<char>,
    query: PortSpecView,
    ip: IpAddr,
    zone: ZoneDetailsView,
)
    requires
        query.port.valid(),
        ip::address(source) == Some(ip),
        handles(s, ip, zone),
        no_rule_concerns(s, zone, ip, query),
        no_service_opens(s, zone, query),
        no_port_opens(zone, query),
    ensures
        zone.target == ZoneTarget::Accept ==> concludes(
            s,
            source,
            query,
            "allowed — the zone accepts unmatched traffic"@,
        ),
        zone.target == ZoneTarget::Drop ==> concludes(
            s,
            source,
            query,
            "silently dropped — no reply is sent"@,
        ),
        zone.target == ZoneTarget::Reject ==> concludes(
            s,
            source,
            query,
            "rejected with an ICMP error"@,
        ),
        zone.target == ZoneTarget::Default ==> concludes(
            s,
            source,
            query,
            "rejected with an ICMP error (firewalld's built-in default is reject-like)"@,
        ),
{
    let wanted = explain::covering(query);
    assert forall|i: int| 0 <= i < zone.ports.len() implies !wanted(#[trigger] zone.ports[i]) by {
        opening_is_covering(zone.ports[i], query);
    }
    lists::first_is_none(zone.ports, wanted);
    rules_passed(s, zone, ip, query);
    services_passed(s, zone, query);
    handling_zone_is_asked(s, source, query, ip, zone);
}

/// A rich rule that names a port decides nothing about other ports or
/// protocols: if every rule names one that does not let the query pass, and no
/// service or port of the zone opens the query's port, the zone's target
/// decides.
pub proof fn rules_for_other_ports_decide_nothing(
    s: FirewallSnapshotView,
    source: Seq<char>,
    query: PortSpecView,
    ip: IpAddr,
    zone: ZoneDetailsView,
)
    requires
        query.port.valid(),
        ip::address(source) == Some(ip),
        handles(s, ip, zone),
        forall|i: int|
            0 <= i < zone.rich_rules.len() ==> (explain::attribute(
                #[trigger] zone.rich_rules[i],
                "port port"@,
            ) matches Some(p) && (PortSelectorView::parsed(p) matches Ok(selector)
                ==> !port::spans(selector, query.port) || explain::attribute(
                zone.rich_rules[i],
                "protocol"@,
            ) != Some(query.protocol.spelled()))),
        no_service_opens(s, zone, query),
        no_port_opens(zone, query),
    ensures
        explain::explained(s, source, query).last() == ("verdict"@, match zone.target {
            ZoneTarget::Accept => "allowed — the zone accepts unmatched traffic"@,
            ZoneTarget::Drop => "silently dropped — no reply is sent"@,
            ZoneTarget::Reject => "rejected with an ICMP error"@,
            ZoneTarget::Default =>
                "rejected with an ICMP error (firewalld's built-in default is reject-like)"@,
        }),
{
    otherwise_the_target_decides(s, source, query, ip, zone);
}

/// The zone that traffic from an address enters by its source is the first of
/// the runtime that is bound to it.
pub proof fn bound_zones_handle_their_sources(s: FirewallSnapshotView, ip: IpAddr, k: int)
    requires
        0 <= k < s.runtime.len(),
        bound_to(s.runtime[k].1, ip, s.ipsets.runtime),
        forall|j: int|
            0 <= j < k ==> !bound_to((#[trigger] s.runtime[j]).1, ip, s.ipsets.runtime),
    ensures
        explain::source_zone(s, ip) == Some(s.runtime[k]),
        handles(s, ip, s.runtime[k].1),
{
    let wanted = explain::zone_bound(ip, s.ipsets.runtime);
    assert forall|j: int| 0 <= j < s.runtime.len() implies wanted(#[trigger] s.runtime[j])
        == bound_to(s.runtime[j].1, ip, s.ipsets.runtime) by {
        bound_is_found(s.runtime[j].1, ip, s.ipsets.runtime);
    }
    lists::first_is(s.runtime, wanted, k);
}

/// Where no zone of the runtime is bound to the address, none is entered by
/// its source.
pub proof fn unbound_sources_enter_no_zone(s: FirewallSnapshotView, ip: IpAddr)
    requires
        forall|j: int|
            0 <= j < s.runtime.len() ==> !bound_to(
                (#[trigger] s.runtime[j]).1,
                ip,
                s.ipsets.runtime,
            ),
    ensures
        explain::source_zone(s, ip) is None,
{
    let wanted = explain::zone_bound(ip, s.ipsets.runtime);
    assert forall|j: int| 0 <= j < s.runtime.len() implies !wanted(#[trigger] s.runtime[j]) by {
        bound_is_found(s.runtime[j].1, ip, s.ipsets.runtime);
    }
    lists::first_is_none(s.runtime, wanted);
}

/// A block has an address in it exactly if both agree on the leading bits that
/// the block fixes; a prefix longer than the address asks for the same address.
pub proof fn blocks_hold_what_agrees(network: IpAddr, prefix: u8, candidate: IpAddr)
    ensures
        explain::block_holds(network, prefix, candidate) == has_address(
            network,
            Some(prefix),
            candidate,
        ),
{
}

// ---------------------------------------------------------------------------
// Attributes in the text of a rule
// ---------------------------------------------------------------------------
/// The text is made of what stands before the key, the key with an equals sign
/// and a quote, the value, and what stands behind it, starting with a quote.
/// The value holds none, and the key does not stand so any earlier.
pub open spec fn attribute_at(
    raw: Seq<char>,
    key: Seq<char>,
    a: Seq<char>,
    value: Seq<char>,
    b: Seq<char>,
) -> bool {
    let opening = key + "=\""@;
    &&& raw == a + opening + value + b
    &&& text::free_of(value, '"')
    &&& b.len() == 0 || b[0] == '"'
    &&& forall|j: int| 0 <= j < a.len() ==> !text::occurs_at(raw, opening, j)
}

/// An attribute's value stands in the text: behind the key, an equals sign and
/// a quote, up to the next quote or the end. Where the key does not stand so
/// in the text, there is none.
pub proof fn attributes_stand_in_the_text(raw: Seq<char>, key: Seq<char>) -> (around: (
    Seq<char>,
    Seq<char>,
))
    ensures
        explain::attribute(raw, key) matches Some(value) ==> attribute_at(
            raw,
            key,
            around.0,
            value,
            around.1,
        ),
        explain::attribute(raw, key) is None ==> forall|j: int|
            0 <= j ==> !#[trigger] text::occurs_at(raw, key + "=\""@, j),
{
    reveal_strlit("\"");
    let pat = key + "=\""@;
    let mark = "\""@;
    text::found_from_facts(raw, pat, 0);
    let (a, rest) = match text::parted(raw, pat) {
        Some(parts) => parts,
        None => (raw, Seq::empty()),
    };
    text::found_from_facts(rest, mark, 0);
    let (value, b) = match text::parted(rest, mark) {
        Some((value, tail)) => (value, mark + tail),
        None => (rest, Seq::empty()),
    };
    assert forall|i: int| 0 <= i < value.len() implies value[i] != '"' by {
        assert(!text::occurs_at(rest, mark, i));
        assert(value[i] == rest[i]);
        if value[i] == '"' {
            assert(rest.subrange(i, i + 1) =~= mark);
        }
    }
    if text::parted(raw, pat) is Some {
        assert(rest =~= value + b);
        assert(raw =~= a + pat + rest);
        assert(raw =~= a + pat + value + b);
    }
    (a, b)
}

} // verus!
