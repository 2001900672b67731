//! "Explain this traffic": a step-by-step account of how firewalld would
//! treat one ingress packet, evaluated against the RUNTIME snapshot.
//!
//! This is an **approximation of firewalld's zone dispatch**, not an nftables
//! simulator: rich rules are matched textually against their raw text, the
//! ingress interface is unknown (so interface-bound zones are only reported as
//! candidates), and rule priorities are ignored. It exists to answer "why is
//! this blocked/allowed" at the zone level, honestly labeled as best-effort.

use vstd::prelude::*;

use crate::address::{AddressFamily, SourceAddress, SourceAddressView};
use crate::cidr;
use crate::ids::{InterfaceName, IpSetName, ServiceName, ZoneName};
use crate::ip;
use crate::ip::IpAddr;
use crate::lists;
use crate::model::Value;
use crate::name_map;
use crate::name_map::NameMap;
use crate::number;
use crate::port::{PortSelector, PortSelectorView, PortSpec, PortSpecView};
use crate::rich_rule;
use crate::rich_rule::RichRule;
use crate::service::{ServiceDefinition, ServiceDefinitionView};
use crate::snapshot::{FirewallSnapshot, FirewallSnapshotView, IpSetInfo, IpSetInfoView};
use crate::text;
use crate::zone::{ZoneDetails, ZoneDetailsView, ZoneTarget};

pub mod meaning;

verus! {

// ---------------------------------------------------------------------------
// Ports
// ---------------------------------------------------------------------------
/// Whether the queried selector lies entirely inside the rule's selector.
pub open spec fn selector_within(rule: PortSelectorView, query: PortSelectorView) -> bool {
    rule.bounds().0 <= query.bounds().0 && query.bounds().1 <= rule.bounds().1
}

/// Same protocol, and the queried port or range lies inside the rule's.
pub open spec fn port_within(rule: PortSpecView, query: PortSpecView) -> bool {
    rule.protocol == query.protocol && selector_within(rule.port, query.port)
}

/// The rules that cover `query`.
pub open spec fn covering(query: PortSpecView) -> spec_fn(PortSpecView) -> bool {
    |rule: PortSpecView| port_within(rule, query)
}

/// Whether a port rule covers itself, and what it covers, and so on down.
pub proof fn port_within_is_an_order(a: PortSpecView, b: PortSpecView, c: PortSpecView)
    ensures
        port_within(a, a),
        port_within(a, b) && port_within(b, c) ==> port_within(a, c),
{
}

/// Whether the queried selector lies entirely inside the rule's selector.
pub fn selector_covers(rule: &PortSelector, query: &PortSelector) -> (r: bool)
    ensures
        r == selector_within(rule.deep_view(), query.deep_view()),
{
    let (rule_start, rule_end) = rule.bounds();
    let (query_start, query_end) = query.bounds();
    rule_start <= query_start && query_end <= rule_end
}

/// Whether `rule` covers `query`: same protocol, and the queried port(s) fall
/// entirely inside the rule's port or range.
fn port_covers(rule: &PortSpec, query: &PortSpec) -> (r: bool)
    ensures
        r == port_within(rule.deep_view(), query.deep_view()),
{
    rule.protocol == query.protocol && selector_covers(&rule.port, &query.port)
}

/// The first port rule that covers the query.
fn find_port<'a>(ports: &'a Vec<PortSpec>, query: &PortSpec) -> (r: Option<&'a PortSpec>)
    ensures
        lists::first(ports.deep_view(), covering(query.deep_view())) == (match r {
            Some(p) => Some(p.deep_view()),
            None => None,
        }),
{
    let ghost all = ports.deep_view();
    let ghost wanted = covering(query.deep_view());
    let mut i: usize = 0;
    assert(all.skip(0) =~= all);
    while i < ports.len()
        invariant
            i <= ports@.len(),
            all == ports.deep_view(),
            wanted == covering(query.deep_view()),
            lists::first(all, wanted) == lists::first(all.skip(i as int), wanted),
        decreases ports.len() - i,
    {
        assert(all.skip(i as int)[0] == ports[i as int].deep_view());
        if port_covers(&ports[i], query) {
            return Some(&ports[i]);
        }
        assert(all.skip(i as int).skip(1) =~= all.skip(i + 1));
        i = i + 1;
    }
    None
}

/// The service has a definition that opens the queried port.
pub open spec fn opens(definition: Option<ServiceDefinitionView>, query: PortSpecView) -> bool {
    match definition {
        Some(d) => lists::first(d.ports, covering(query)) is Some,
        None => false,
    }
}

/// Whether a cached service definition opens the queried port.
fn service_opens(definition: Option<&ServiceDefinition>, query: &PortSpec) -> (r: bool)
    ensures
        r == opens(
            match definition {
                Some(d) => Some(d.deep_view()),
                None => None,
            },
            query.deep_view(),
        ),
{
    match definition {
        Some(d) => find_port(&d.ports, query).is_some(),
        None => false,
    }
}

// ---------------------------------------------------------------------------
// Sources
// ---------------------------------------------------------------------------
/// The block `network/prefix` holds `candidate`. A prefix longer than the
/// address compares all of it.
pub open spec fn block_holds(network: IpAddr, prefix: u8, candidate: IpAddr) -> bool {
    if prefix <= cidr::width(network) {
        cidr::agree(network, candidate, prefix as nat)
    } else {
        network == candidate
    }
}

/// CIDR containment: is `candidate` inside `network/prefix`? Families must
/// match; the comparison is plain bit math.
pub fn cidr_contains(network: IpAddr, prefix: u8, candidate: IpAddr) -> (r: bool)
    ensures
        r == block_holds(network, prefix, candidate),
{
    let width: u8 = if network.is_ipv4() {
        32
    } else {
        128
    };
    if prefix <= width {
        cidr::leading_bits_agree(network, candidate, prefix)
    } else {
        network == candidate
    }
}

/// An address or block, with or without a prefix, covers `ip`.
pub open spec fn address_covers(addr: IpAddr, prefix: Option<u8>, ip: IpAddr) -> bool {
    match prefix {
        None => addr == ip,
        Some(p) => block_holds(addr, p, ip),
    }
}

/// One raw address text covers `ip`, as an address or a block.
pub open spec fn entry_covers(entry: Seq<char>, ip: IpAddr) -> bool {
    match SourceAddressView::parsed(entry) {
        Ok(SourceAddressView::Ip { addr, prefix }) => address_covers(addr, prefix, ip),
        _ => false,
    }
}

/// The source bindings that cover `ip`: an address, a block, or an ipset with
/// an entry that covers it. A MAC address covers none.
pub open spec fn binding_covers(
    binding: SourceAddressView,
    ip: IpAddr,
    ipsets: Seq<(Seq<char>, IpSetInfoView)>,
) -> bool {
    match binding {
        SourceAddressView::Ip { addr, prefix } => address_covers(addr, prefix, ip),
        SourceAddressView::IpSet(name) => match name_map::lookup(ipsets, name) {
            Some(set) => exists|i: int|
                0 <= i < set.entries.len() && entry_covers(#[trigger] set.entries[i], ip),
            None => false,
        },
        SourceAddressView::Mac(_) => false,
    }
}

/// The bindings that cover `ip`.
pub open spec fn binding_to(
    ip: IpAddr,
    ipsets: Seq<(Seq<char>, IpSetInfoView)>,
) -> spec_fn(SourceAddressView) -> bool {
    |binding: SourceAddressView| binding_covers(binding, ip, ipsets)
}

/// The zones with a binding that covers `ip`.
pub open spec fn zone_bound(
    ip: IpAddr,
    ipsets: Seq<(Seq<char>, IpSetInfoView)>,
) -> spec_fn((Seq<char>, ZoneDetailsView)) -> bool {
    |zone: (Seq<char>, ZoneDetailsView)|
        lists::first(zone.1.sources, binding_to(ip, ipsets)) is Some
}

/// The first runtime zone with a binding that covers `ip`.
pub open spec fn source_zone(s: FirewallSnapshotView, ip: IpAddr) -> Option<
    (Seq<char>, ZoneDetailsView),
> {
    lists::first(s.runtime, zone_bound(ip, s.ipsets.runtime))
}

fn address_matches(addr: IpAddr, prefix: &Option<u8>, ip: IpAddr) -> (r: bool)
    ensures
        r == address_covers(addr, *prefix, ip),
{
    match prefix {
        None => addr == ip,
        Some(p) => cidr_contains(addr, *p, ip),
    }
}

/// Whether one raw address string (an ipset entry or a rich-rule source)
/// covers `ip`, by exact address or CIDR containment.
fn entry_matches(entry: &str, ip: IpAddr) -> (r: bool)
    ensures
        r == entry_covers(entry@, ip),
{
    match SourceAddress::parse(entry) {
        Ok(SourceAddress::Ip { addr, prefix }) => address_matches(addr, &prefix, ip),
        _ => false,
    }
}

fn set_matches(set: &IpSetInfo, ip: IpAddr) -> (r: bool)
    ensures
        r == exists|i: int|
            0 <= i < set.deep_view().entries.len() && entry_covers(
                #[trigger] set.deep_view().entries[i],
                ip,
            ),
{
    let mut i: usize = 0;
    while i < set.entries.len()
        invariant
            i <= set.entries@.len(),
            forall|j: int|
                0 <= j < i ==> !entry_covers(#[trigger] set.deep_view().entries[j], ip),
        decreases set.entries.len() - i,
    {
        assert(set.deep_view().entries[i as int] == set.entries@[i as int]@);
        if entry_matches(set.entries[i].as_str(), ip) {
            return true;
        }
        i = i + 1;
    }
    false
}

/// Whether a zone source binding covers `ip`: exact IP, CIDR containment, or
/// membership in a named ipset. MAC bindings never match an IP query.
fn source_matches(
    binding: &SourceAddress,
    ip: IpAddr,
    ipsets: &NameMap<IpSetName, IpSetInfo>,
) -> (r: bool)
    ensures
        r == binding_covers(binding.deep_view(), ip, ipsets.deep_view()),
{
    match binding {
        SourceAddress::Ip { addr, prefix } => address_matches(*addr, prefix, ip),
        SourceAddress::IpSet(name) => match ipsets.get(name) {
            Some(set) => set_matches(set, ip),
            None => false,
        },
        SourceAddress::Mac(_) => false,
    }
}

/// The first binding that covers `ip`.
fn find_binding<'a>(
    sources: &'a Vec<SourceAddress>,
    ip: IpAddr,
    ipsets: &NameMap<IpSetName, IpSetInfo>,
) -> (r: Option<&'a SourceAddress>)
    ensures
        lists::first(sources.deep_view(), binding_to(ip, ipsets.deep_view())) == (match r {
            Some(b) => Some(b.deep_view()),
            None => None,
        }),
{
    let ghost all = sources.deep_view();
    let ghost wanted = binding_to(ip, ipsets.deep_view());
    let mut i: usize = 0;
    assert(all.skip(0) =~= all);
    while i < sources.len()
        invariant
            i <= sources@.len(),
            all == sources.deep_view(),
            wanted == binding_to(ip, ipsets.deep_view()),
            lists::first(all, wanted) == lists::first(all.skip(i as int), wanted),
        decreases sources.len() - i,
    {
        assert(all.skip(i as int)[0] == sources[i as int].deep_view());
        if source_matches(&sources[i], ip, ipsets) {
            return Some(&sources[i]);
        }
        assert(all.skip(i as int).skip(1) =~= all.skip(i + 1));
        i = i + 1;
    }
    None
}

/// The position of the first runtime zone with a binding that covers `ip`.
fn find_source_zone(snapshot: &FirewallSnapshot, ip: IpAddr) -> (r: Option<usize>)
    ensures
        match r {
            Some(i) => i < snapshot.deep_view().runtime.len() && source_zone(
                snapshot.deep_view(),
                ip,
            ) == Some(snapshot.deep_view().runtime[i as int]) && lists::first(
                snapshot.deep_view().runtime[i as int].1.sources,
                binding_to(ip, snapshot.deep_view().ipsets.runtime),
            ) is Some,
            None => source_zone(snapshot.deep_view(), ip) is None,
        },
{
    let ghost all = snapshot.deep_view().runtime;
    let ghost wanted = zone_bound(ip, snapshot.deep_view().ipsets.runtime);
    let mut i: usize = 0;
    assert(all.skip(0) =~= all);
    while i < snapshot.runtime.len()
        invariant
            i <= all.len(),
            all == snapshot.deep_view().runtime,
            wanted == zone_bound(ip, snapshot.deep_view().ipsets.runtime),
            lists::first(all, wanted) == lists::first(all.skip(i as int), wanted),
        decreases all.len() - i,
    {
        assert(all.skip(i as int)[0] == all[i as int]);
        if find_binding(
            &snapshot.runtime.value(i).sources,
            ip,
            &snapshot.ipsets.runtime,
        ).is_some() {
            return Some(i);
        }
        assert(all.skip(i as int).skip(1) =~= all.skip(i + 1));
        i = i + 1;
    }
    None
}

/// The runtime zone whose source bindings (IP/CIDR/ipset) cover `ip`, if any.
/// This is firewalld's highest-precedence zone dispatch — used by the SSH
/// guard to know which zone actually protects the operator's session.
pub fn zone_for_source_ip(snapshot: &FirewallSnapshot, ip: IpAddr) -> (r: Option<ZoneName>)
    ensures
        r.deep_view() == (match source_zone(snapshot.deep_view(), ip) {
            Some(zone) => Some(zone.0),
            None => None,
        }),
{
    match find_source_zone(snapshot, ip) {
        Some(i) => Some(snapshot.runtime.key(i).dup()),
        None => None,
    }
}

// ---------------------------------------------------------------------------
// Rich rules
// ---------------------------------------------------------------------------
/// What stands between `key="` and the next quote, or to the end.
pub open spec fn attribute(raw: Seq<char>, key: Seq<char>) -> Option<Seq<char>> {
    match text::parted(raw, key + "=\""@) {
        Some((_, rest)) => match text::parted(rest, "\""@) {
            Some((value, _)) => Some(value),
            None => Some(rest),
        },
        None => None,
    }
}

/// Extracts the value of a `key="value"` attribute from raw rich-rule text.
fn attr<'a>(raw: &'a str, key: &str) -> (r: Option<&'a str>)
    ensures
        attribute(raw@, key@) == (match r {
            Some(v) => Some(v@),
            None => None,
        }),
{
    let pattern = text::cat2(key, "=\"");
    match text::split_once(raw, pattern.as_str()) {
        Some((_, rest)) => match text::split_once(rest, "\"") {
            Some((value, _)) => Some(value),
            None => Some(rest),
        },
        None => None,
    }
}

/// The family of an address.
pub open spec fn family_of(ip: IpAddr) -> AddressFamily {
    match ip {
        IpAddr::V4(_) => AddressFamily::Ipv4,
        IpAddr::V6(_) => AddressFamily::Ipv6,
    }
}

/// The text of a rich rule applies to traffic from `ip` to `query`: its family
/// agrees, its source covers `ip`, and its port or service, if it names one,
/// covers the query.
pub open spec fn rule_covers(
    raw: Seq<char>,
    ip: IpAddr,
    query: PortSpecView,
    definitions: Seq<(Seq<char>, ServiceDefinitionView)>,
) -> bool {
    let family_agrees = match rich_rule::family_text(raw) {
        Some(f) => f == family_of(ip).spelled(),
        None => true,
    };
    let source_agrees = match attribute(raw, "source address"@) {
        Some(source) => entry_covers(source, ip),
        None => false,
    };
    let condition_agrees = match attribute(raw, "port port"@) {
        Some(port) => attribute(raw, "protocol"@) == Some(query.protocol.spelled())
            && match PortSelectorView::parsed(port) {
            Ok(selector) => selector_within(selector, query.port),
            Err(_) => false,
        },
        None => match attribute(raw, "service name"@) {
            Some(service) => match ServiceName::parsed(service) {
                Ok(name) => opens(name_map::lookup(definitions, name), query),
                Err(_) => false,
            },
            None => true,
        },
    };
    family_agrees && source_agrees && condition_agrees
}

/// The rules that apply to traffic from `ip` to `query`.
pub open spec fn rule_applying(
    ip: IpAddr,
    query: PortSpecView,
    definitions: Seq<(Seq<char>, ServiceDefinitionView)>,
) -> spec_fn(Seq<char>) -> bool {
    |raw: Seq<char>| rule_covers(raw, ip, query, definitions)
}

/// Best-effort textual rich-rule match: the raw text must carry a
/// `source address="…"` covering `ip` (family-compatible), and either no
/// port/service condition, a `port port="…" protocol="…"` covering the query,
/// or a `service name="…"` whose cached definition opens the queried port.
fn rich_rule_matches(
    rule: &RichRule,
    ip: IpAddr,
    query: &PortSpec,
    definitions: &NameMap<ServiceName, ServiceDefinition>,
) -> (r: bool)
    ensures
        r == rule_covers(rule.deep_view(), ip, query.deep_view(), definitions.deep_view()),
{
    let family = if ip.is_ipv4() {
        AddressFamily::Ipv4
    } else {
        AddressFamily::Ipv6
    };
    if let Some(f) = rule.family() {
        if !text::same(f, family.as_str()) {
            return false;
        }
    }
    let raw = rule.as_str();
    match attr(raw, "source address") {
        Some(source) => {
            if !entry_matches(source, ip) {
                return false;
            }
        },
        None => {
            return false;
        },
    }
    if let Some(port) = attr(raw, "port port") {
        let protocol_agrees = match attr(raw, "protocol") {
            Some(protocol) => text::same(protocol, query.protocol.as_str()),
            None => false,
        };
        return protocol_agrees && match PortSelector::parse(port) {
            Ok(selector) => selector_covers(&selector, &query.port),
            Err(_) => false,
        };
    }
    if let Some(service) = attr(raw, "service name") {
        return match ServiceName::parse(service) {
            Ok(name) => service_opens(definitions.get(&name), query),
            Err(_) => false,
        };
    }
    true
}

fn find_rule<'a>(
    rules: &'a Vec<RichRule>,
    ip: IpAddr,
    query: &PortSpec,
    definitions: &NameMap<ServiceName, ServiceDefinition>,
) -> (r: Option<&'a RichRule>)
    ensures
        lists::first(
            rules.deep_view(),
            rule_applying(ip, query.deep_view(), definitions.deep_view()),
        ) == (match r {
            Some(rule) => Some(rule.deep_view()),
            None => None,
        }),
{
    let ghost all = rules.deep_view();
    let ghost wanted = rule_applying(ip, query.deep_view(), definitions.deep_view());
    let mut i: usize = 0;
    assert(all.skip(0) =~= all);
    while i < rules.len()
        invariant
            i <= rules@.len(),
            all == rules.deep_view(),
            wanted == rule_applying(ip, query.deep_view(), definitions.deep_view()),
            lists::first(all, wanted) == lists::first(all.skip(i as int), wanted),
        decreases rules.len() - i,
    {
        assert(all.skip(i as int)[0] == rules[i as int].deep_view());
        if rich_rule_matches(&rules[i], ip, query, definitions) {
            return Some(&rules[i]);
        }
        assert(all.skip(i as int).skip(1) =~= all.skip(i + 1));
        i = i + 1;
    }
    None
}

/// The services whose cached definition opens the queried port.
pub open spec fn service_opening(
    query: PortSpecView,
    definitions: Seq<(Seq<char>, ServiceDefinitionView)>,
) -> spec_fn(Seq<char>) -> bool {
    |name: Seq<char>| opens(name_map::lookup(definitions, name), query)
}

fn find_service<'a>(
    services: &'a Vec<ServiceName>,
    query: &PortSpec,
    definitions: &NameMap<ServiceName, ServiceDefinition>,
) -> (r: Option<&'a ServiceName>)
    ensures
        lists::first(
            services.deep_view(),
            service_opening(query.deep_view(), definitions.deep_view()),
        ) == (match r {
            Some(name) => Some(name.deep_view()),
            None => None,
        }),
{
    let ghost all = services.deep_view();
    let ghost wanted = service_opening(query.deep_view(), definitions.deep_view());
    let mut i: usize = 0;
    assert(all.skip(0) =~= all);
    while i < services.len()
        invariant
            i <= services@.len(),
            all == services.deep_view(),
            wanted == service_opening(query.deep_view(), definitions.deep_view()),
            lists::first(all, wanted) == lists::first(all.skip(i as int), wanted),
        decreases services.len() - i,
    {
        assert(all.skip(i as int)[0] == services[i as int].deep_view());
        if service_opens(definitions.get(&services[i]), query) {
            return Some(&services[i]);
        }
        assert(all.skip(i as int).skip(1) =~= all.skip(i + 1));
        i = i + 1;
    }
    None
}

// ---------------------------------------------------------------------------
// The account
// ---------------------------------------------------------------------------
/// One line of the account: a step and its detail.
pub type Line = (Seq<char>, Seq<char>);

/// What a zone target means for traffic that no rule matched.
pub open spec fn target_meaning(target: ZoneTarget) -> Seq<char> {
    match target {
        ZoneTarget::Accept => "allowed — the zone accepts unmatched traffic"@,
        ZoneTarget::Drop => "silently dropped — no reply is sent"@,
        ZoneTarget::Reject => "rejected with an ICMP error"@,
        ZoneTarget::Default =>
            "rejected with an ICMP error (firewalld's built-in default is reject-like)"@,
    }
}

/// The line of a stage that matched nothing among `n` items.
pub open spec fn no_match(stage: Seq<char>, n: nat) -> Line {
    (stage, "no match among "@ + number::decimal(n))
}

/// The lines of a zone whose rules match nothing.
pub open spec fn target_lines(zone: ZoneDetailsView) -> Seq<Line> {
    seq![
        ("target"@, "no rule matched — zone target `"@ + zone.target.spelled() + "` decides"@),
        ("verdict"@, target_meaning(zone.target)),
    ]
}

/// The lines from the explicitly opened ports on.
pub open spec fn port_lines(zone: ZoneDetailsView, query: PortSpecView) -> Seq<Line> {
    match lists::first(zone.ports, covering(query)) {
        Some(spec) => seq![
            ("ports"@, "open port "@ + spec.spelled() + " covers "@ + query.spelled()),
            (
                "verdict"@,
                "allowed by open port "@ + spec.spelled() + " in zone `"@ + zone.name + "`"@,
            ),
        ],
        None => seq![no_match("ports"@, zone.ports.len())] + target_lines(zone),
    }
}

/// The lines from the services on.
pub open spec fn service_lines(
    zone: ZoneDetailsView,
    query: PortSpecView,
    definitions: Seq<(Seq<char>, ServiceDefinitionView)>,
) -> Seq<Line> {
    match lists::first(zone.services, service_opening(query, definitions)) {
        Some(name) => seq![
            ("services"@, "service `"@ + name + "` opens "@ + query.spelled()),
            ("verdict"@, "allowed by service `"@ + name + "` in zone `"@ + zone.name + "`"@),
        ],
        None => seq![no_match("services"@, zone.services.len())] + port_lines(zone, query),
    }
}

/// The lines within the selected zone: rich rules, services, ports, target.
/// The first stage that matches ends the account with its verdict.
pub open spec fn zone_lines(
    zone: ZoneDetailsView,
    ip: IpAddr,
    query: PortSpecView,
    definitions: Seq<(Seq<char>, ServiceDefinitionView)>,
) -> Seq<Line> {
    match lists::first(zone.rich_rules, rule_applying(ip, query, definitions)) {
        Some(rule) => seq![
            ("rich rules"@, "textual match: "@ + rule),
            (
                "verdict"@,
                (match rich_rule::action_word(rule) {
                    Some(action) => action,
                    None => "unknown action"@,
                }) + " — by the rich rule above (textual approximation)"@,
            ),
        ],
        None => seq![no_match("rich rules"@, zone.rich_rules.len())] + service_lines(
            zone,
            query,
            definitions,
        ),
    }
}

/// One line for each zone that is bound to an interface.
pub open spec fn candidate_lines(zones: Seq<(Seq<char>, ZoneDetailsView)>) -> Seq<Line>
    decreases zones.len(),
{
    if zones.len() == 0 {
        Seq::empty()
    } else {
        let before = candidate_lines(zones.drop_last());
        let (name, zone) = zones.last();
        if zone.interfaces.len() == 0 {
            before
        } else {
            before.push(
                (
                    ""@,
                    "candidate `"@ + name + "` if traffic arrives on "@ + text::joined(
                        zone.interfaces,
                        ", "@,
                    ) + " (ingress interface unknown)"@,
                ),
            )
        }
    }
}

/// The lines from the zone selection on.
pub open spec fn dispatch_lines(s: FirewallSnapshotView, ip: IpAddr, query: PortSpecView) -> Seq<
    Line,
> {
    match source_zone(s, ip) {
        Some((name, zone)) => {
            let binding = lists::first(zone.sources, binding_to(ip, s.ipsets.runtime))->0;
            seq![
                (
                    "zone"@,
                    "`"@ + name + "` — source binding "@ + binding.spelled() + " matches "@
                        + ip.spelled() + " (source beats interface)"@,
                ),
            ] + zone_lines(zone, ip, query, s.service_definitions)
        },
        None => seq![("zone"@, "no source binding matches "@ + ip.spelled())] + candidate_lines(
            s.runtime,
        ) + seq![(""@, "continuing with the default zone `"@ + s.default_zone + "`"@)] + (
        match name_map::lookup(s.runtime, s.default_zone) {
            Some(zone) => zone_lines(zone, ip, query, s.service_definitions),
            None => seq![
                (
                    "error"@,
                    "default zone `"@ + s.default_zone
                        + "` has no runtime details in this snapshot"@,
                ),
            ],
        }),
    }
}

/// The whole account of traffic from `source` to `query`.
pub open spec fn explained(
    s: FirewallSnapshotView,
    source: Seq<char>,
    query: PortSpecView,
) -> Seq<Line> {
    seq![(""@, "approximation of firewalld's zone dispatch — not an nft simulation"@)] + (
    match ip::address(source) {
        Some(ip) => dispatch_lines(s, ip, query),
        None => seq![("error"@, "`"@ + source + "` is not a plain IP address"@)],
    })
}

/// The source is an address, and a zone with runtime details handles it.
pub open spec fn decidable(s: FirewallSnapshotView, source: Seq<char>) -> bool {
    match ip::address(source) {
        Some(ip) => source_zone(s, ip) is Some || name_map::lookup(
            s.runtime,
            s.default_zone,
        ) is Some,
        None => false,
    }
}

/// An account starts with the disclaimer and ends with a verdict, or with an
/// error where no zone can decide.
pub proof fn account_ends_decided(s: FirewallSnapshotView, source: Seq<char>, query: PortSpecView)
    ensures
        explained(s, source, query).len() >= 2,
        explained(s, source, query)[0].0 == ""@,
        explained(s, source, query).last().0 == if decidable(s, source) {
            "verdict"@
        } else {
            "error"@
        },
{
}

/// Puts one line at the end of the account.
fn note(lines: &mut Vec<(String, String)>, step: &str, detail: String)
    ensures
        final(lines).deep_view() == old(lines).deep_view().push((step@, detail@)),
{
    lists::push(lines, (step.to_owned(), detail));
}

fn note_no_match(lines: &mut Vec<(String, String)>, stage: &str, n: usize)
    ensures
        final(lines).deep_view() == old(lines).deep_view().push(no_match(stage@, n as nat)),
{
    let count = number::show(n as u64);
    note(lines, stage, text::cat2("no match among ", count.as_str()));
}

fn note_target(zone: &ZoneDetails, lines: &mut Vec<(String, String)>)
    ensures
        final(lines).deep_view() == old(lines).deep_view() + target_lines(zone.deep_view()),
{
    let ghost before = lines.deep_view();
    let meaning = match zone.target {
        ZoneTarget::Accept => "allowed — the zone accepts unmatched traffic",
        ZoneTarget::Drop => "silently dropped — no reply is sent",
        ZoneTarget::Reject => "rejected with an ICMP error",
        ZoneTarget::Default =>
            "rejected with an ICMP error (firewalld's built-in default is reject-like)",
    };
    note(
        lines,
        "target",
        text::cat3("no rule matched — zone target `", zone.target.as_str(), "` decides"),
    );
    note(lines, "verdict", meaning.to_owned());
    assert(lines.deep_view() =~= before + target_lines(zone.deep_view()));
}

fn note_ports(zone: &ZoneDetails, query: &PortSpec, lines: &mut Vec<(String, String)>)
    ensures
        final(lines).deep_view() == old(lines).deep_view() + port_lines(
            zone.deep_view(),
            query.deep_view(),
        ),
{
    let ghost before = lines.deep_view();
    if let Some(spec) = find_port(&zone.ports, query) {
        let shown = spec.show();
        let asked = query.show();
        note(lines, "ports", text::cat4("open port ", shown.as_str(), " covers ", asked.as_str()));
        note(
            lines,
            "verdict",
            text::cat5(
                "allowed by open port ",
                shown.as_str(),
                " in zone `",
                zone.name.as_str(),
                "`",
            ),
        );
        assert(lines.deep_view() =~= before + port_lines(zone.deep_view(), query.deep_view()));
        return;
    }
    note_no_match(lines, "ports", zone.ports.len());
    note_target(zone, lines);
    assert(lines.deep_view() =~= before + port_lines(zone.deep_view(), query.deep_view()));
}

fn note_services(
    zone: &ZoneDetails,
    query: &PortSpec,
    definitions: &NameMap<ServiceName, ServiceDefinition>,
    lines: &mut Vec<(String, String)>,
)
    ensures
        final(lines).deep_view() == old(lines).deep_view() + service_lines(
            zone.deep_view(),
            query.deep_view(),
            definitions.deep_view(),
        ),
{
    let ghost before = lines.deep_view();
    let ghost wanted = service_lines(zone.deep_view(), query.deep_view(), definitions.deep_view());
    if let Some(name) = find_service(&zone.services, query, definitions) {
        let asked = query.show();
        note(
            lines,
            "services",
            text::cat4("service `", name.as_str(), "` opens ", asked.as_str()),
        );
        note(
            lines,
            "verdict",
            text::cat5(
                "allowed by service `",
                name.as_str(),
                "` in zone `",
                zone.name.as_str(),
                "`",
            ),
        );
        assert(lines.deep_view() =~= before + wanted);
        return;
    }
    note_no_match(lines, "services", zone.services.len());
    note_ports(zone, query, lines);
    assert(lines.deep_view() =~= before + wanted);
}

/// Stages 2–5 within the selected zone's runtime config: rich rules,
/// services, explicit ports, zone target. Appends one line per stage plus a
/// final verdict.
fn evaluate_zone(
    snapshot: &FirewallSnapshot,
    zone: &ZoneDetails,
    ip: IpAddr,
    query: &PortSpec,
    lines: &mut Vec<(String, String)>,
)
    ensures
        final(lines).deep_view() == old(lines).deep_view() + zone_lines(
            zone.deep_view(),
            ip,
            query.deep_view(),
            snapshot.deep_view().service_definitions,
        ),
{
    let ghost before = lines.deep_view();
    let ghost wanted = zone_lines(
        zone.deep_view(),
        ip,
        query.deep_view(),
        snapshot.deep_view().service_definitions,
    );
    if let Some(rule) = find_rule(&zone.rich_rules, ip, query, &snapshot.service_definitions) {
        note(lines, "rich rules", text::cat2("textual match: ", rule.as_str()));
        let action = match rule.action() {
            Some(action) => action,
            None => "unknown action",
        };
        note(
            lines,
            "verdict",
            text::cat2(action, " — by the rich rule above (textual approximation)"),
        );
        assert(lines.deep_view() =~= before + wanted);
        return;
    }
    note_no_match(lines, "rich rules", zone.rich_rules.len());
    note_services(zone, query, &snapshot.service_definitions, lines);
    assert(lines.deep_view() =~= before + wanted);
}

fn names_of(interfaces: &Vec<InterfaceName>) -> (r: Vec<String>)
    ensures
        r.deep_view() == interfaces.deep_view(),
{
    let mut out: Vec<String> = Vec::new();
    let mut i: usize = 0;
    while i < interfaces.len()
        invariant
            i <= interfaces@.len(),
            out.deep_view() =~= interfaces.deep_view().take(i as int),
        decreases interfaces.len() - i,
    {
        lists::push(&mut out, interfaces[i].as_str().to_owned());
        i = i + 1;
    }
    assert(out.deep_view() =~= interfaces.deep_view());
    out
}

fn note_candidates(snapshot: &FirewallSnapshot, lines: &mut Vec<(String, String)>)
    ensures
        final(lines).deep_view() == old(lines).deep_view() + candidate_lines(
            snapshot.deep_view().runtime,
        ),
{
    let ghost before = lines.deep_view();
    let ghost zones = snapshot.deep_view().runtime;
    let mut i: usize = 0;
    assert(zones.take(0).len() == 0);
    assert(before + Seq::<Line>::empty() =~= before);
    while i < snapshot.runtime.len()
        invariant
            i <= zones.len(),
            zones == snapshot.deep_view().runtime,
            lines.deep_view() == before + candidate_lines(zones.take(i as int)),
        decreases zones.len() - i,
    {
        assert(zones.take(i + 1).drop_last() =~= zones.take(i as int));
        let zone = snapshot.runtime.value(i);
        if zone.interfaces.len() > 0 {
            let interfaces = text::join(&names_of(&zone.interfaces), ", ");
            note(
                lines,
                "",
                text::cat5(
                    "candidate `",
                    snapshot.runtime.key(i).as_str(),
                    "` if traffic arrives on ",
                    interfaces.as_str(),
                    " (ingress interface unknown)",
                ),
            );
        }
        assert(lines.deep_view() =~= before + candidate_lines(zones.take(i + 1)));
        i = i + 1;
    }
    assert(zones.take(i as int) =~= zones);
}

/// Explains how firewalld would treat ingress traffic from `source` to
/// `port`, as ordered `(step, detail)` lines for a details overlay. An empty
/// step key renders as a plain continuation line.
///
/// Evaluation order (an approximation of firewalld's actual dispatch):
/// zone selection by source binding (exact IP, CIDR containment, or ipset
/// membership; source beats interface), then within the selected zone's
/// runtime config: rich rules (textual match), services, explicit ports, and
/// finally the zone target. Every consulted stage produces a line, matched
/// or not; the first decisive match ends the evaluation with a verdict.
pub fn explain(snapshot: &FirewallSnapshot, source: &str, port: PortSpec) -> (r: Vec<
    (String, String),
>)
    ensures
        r.deep_view() == explained(snapshot.deep_view(), source@, port.deep_view()),
{
    let ghost s = snapshot.deep_view();
    let ghost wanted = explained(s, source@, port.deep_view());
    let mut lines: Vec<(String, String)> = lists::none();
    note(
        &mut lines,
        "",
        "approximation of firewalld's zone dispatch — not an nft simulation".to_owned(),
    );
    let ip = match IpAddr::parse(source) {
        Some(ip) => ip,
        None => {
            note(&mut lines, "error", text::cat3("`", source, "` is not a plain IP address"));
            assert(lines.deep_view() =~= wanted);
            return lines;
        },
    };
    let shown = ip.show();
    if let Some(i) = find_source_zone(snapshot, ip) {
        let zone = snapshot.runtime.value(i);
        if let Some(binding) = find_binding(&zone.sources, ip, &snapshot.ipsets.runtime) {
            let bound = binding.show();
            note(
                &mut lines,
                "zone",
                text::cat7(
                    "`",
                    snapshot.runtime.key(i).as_str(),
                    "` — source binding ",
                    bound.as_str(),
                    " matches ",
                    shown.as_str(),
                    " (source beats interface)",
                ),
            );
        }
        evaluate_zone(snapshot, zone, ip, &port, &mut lines);
        assert(lines.deep_view() =~= wanted);
        return lines;
    }
    note(&mut lines, "zone", text::cat2("no source binding matches ", shown.as_str()));
    note_candidates(snapshot, &mut lines);
    let default = snapshot.default_zone.as_str();
    note(&mut lines, "", text::cat3("continuing with the default zone `", default, "`"));
    match snapshot.runtime.get(&snapshot.default_zone) {
        Some(zone) => {
            evaluate_zone(snapshot, zone, ip, &port, &mut lines);
        },
        None => {
            note(
                &mut lines,
                "error",
                text::cat3(
                    "default zone `",
                    default,
                    "` has no runtime details in this snapshot",
                ),
            );
        },
    }
    assert(lines.deep_view() =~= wanted);
    lines
}

} // verus!
