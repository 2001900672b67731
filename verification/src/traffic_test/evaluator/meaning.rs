//! What an evaluation decides, said of the snapshot and the scenario alone.

use vstd::prelude::*;

use crate::address::{AddressFamily, SourceAddressView};
use crate::capability;
use crate::capability::{FeatureSupport, FirewalldFeature};
use crate::cidr;
use crate::ip::IpAddr;
use crate::lists;
use crate::name_map;
use crate::policy::PolicyDetailsView;
use crate::port;
use crate::port::{PortSelectorView, PortSpecView, Protocol};
use crate::service::ServiceDefinitionView;
use crate::snapshot::{ConfigurationTarget, SnapshotSection};
use crate::traffic_test::evaluator;
use crate::traffic_test::index::{
    IndexedZoneBindingKindView, IndexedZoneBindingView, TrafficEvaluationIndexView,
};
use crate::traffic_test::report::{EvaluationContextView, EvaluationTarget};
use crate::traffic_test::scenario::{
    TrafficConnectionState, TrafficDestinationView, TrafficDirection, TrafficScenarioView,
    TrafficTransportView,
};
use crate::traffic_test::{FirewallDecision, UnknownReason};
use crate::zone::{ZoneDetailsView, ZoneTarget};

verus! {

// ---------------------------------------------------------------------------
// Ports and protocols
// ---------------------------------------------------------------------------
/// The rules have one of the transport's own protocol for all queried ports.
pub open spec fn lists_ports(
    rules: Seq<PortSpecView>,
    transport: TrafficTransportView,
    query: Option<PortSelectorView>,
) -> bool {
    query matches Some(q) && exists|i: int|
        0 <= i < rules.len() && port::spans((#[trigger] rules[i]).port, q) && ((transport is Tcp
            && rules[i].protocol == Protocol::Tcp) || (transport is Udp && rules[i].protocol
            == Protocol::Udp))
}

/// The destination port, the source port or the IP protocol is opened.
pub open spec fn opened(
    scenario: TrafficScenarioView,
    ports: Seq<PortSpecView>,
    source_ports: Seq<PortSpecView>,
    protocols: Seq<Seq<char>>,
) -> bool {
    ||| lists_ports(ports, scenario.transport, scenario.destination_port)
    ||| lists_ports(source_ports, scenario.transport, scenario.source_port)
    ||| scenario.transport matches TrafficTransportView::RawProtocol { protocol }
        && protocols.contains(protocol)
}

proof fn listed_ports(
    rules: Seq<PortSpecView>,
    transport: TrafficTransportView,
    protocol: Protocol,
    query: Option<PortSelectorView>,
)
    requires
        query matches Some(q) ==> q.valid(),
        (transport is Tcp && protocol == Protocol::Tcp) || (transport is Udp && protocol
            == Protocol::Udp),
    ensures
        lists_ports(rules, transport, query) == evaluator::port_listed(rules, protocol, query),
{
    if let Some(q) = query {
        assert forall|i: int| 0 <= i < rules.len() implies port::spans((#[trigger] rules[i]).port, q) == (
        rules[i].port.bounds().0 <= q.bounds().0 && q.bounds().1 <= rules[i].port.bounds().1) by {
            port::spanning_is_by_bounds(rules[i].port, q);
        }
    }
}

/// The scenario's ports are ports.
pub open spec fn proper(scenario: TrafficScenarioView) -> bool {
    &&& scenario.destination_port matches Some(q) ==> q.valid()
    &&& scenario.source_port matches Some(q) ==> q.valid()
}

proof fn opened_is_listed(
    scenario: TrafficScenarioView,
    ports: Seq<PortSpecView>,
    source_ports: Seq<PortSpecView>,
    protocols: Seq<Seq<char>>,
)
    requires
        proper(scenario),
    ensures
        opened(scenario, ports, source_ports, protocols) == evaluator::transport_listed(
            scenario,
            ports,
            source_ports,
            protocols,
        ),
{
    if scenario.transport is Tcp {
        listed_ports(ports, scenario.transport, Protocol::Tcp, scenario.destination_port);
        listed_ports(source_ports, scenario.transport, Protocol::Tcp, scenario.source_port);
    } else if scenario.transport is Udp {
        listed_ports(ports, scenario.transport, Protocol::Udp, scenario.destination_port);
        listed_ports(source_ports, scenario.transport, Protocol::Udp, scenario.source_port);
    }
}

// ---------------------------------------------------------------------------
// Evidence
// ---------------------------------------------------------------------------
/// The configuration that the index is about.
pub open spec fn scope(x: TrafficEvaluationIndexView) -> ConfigurationTarget {
    if x.target == EvaluationTarget::Runtime {
        ConfigurationTarget::Runtime
    } else {
        ConfigurationTarget::Permanent
    }
}

/// The zones of that configuration.
pub open spec fn zones(x: TrafficEvaluationIndexView) -> Seq<(Seq<char>, ZoneDetailsView)> {
    if x.target == EvaluationTarget::Runtime {
        x.snapshot.runtime
    } else {
        x.snapshot.permanent
    }
}

/// The policies of that configuration.
pub open spec fn policies(x: TrafficEvaluationIndexView) -> Seq<(Seq<char>, PolicyDetailsView)> {
    if x.target == EvaluationTarget::Runtime {
        x.snapshot.policies.runtime
    } else {
        x.snapshot.policies.permanent
    }
}

/// The section was read in that configuration.
pub open spec fn read(x: TrafficEvaluationIndexView, section: SnapshotSection) -> bool {
    x.snapshot.complete(section, scope(x))
}

/// The policy handles traffic from the zone to the host: it is enabled, and in
/// the runtime active, it takes traffic from any zone or this one, and hands
/// it to the host or anywhere.
pub open spec fn applies(
    policy: PolicyDetailsView,
    zone: Seq<char>,
    target: EvaluationTarget,
) -> bool {
    &&& !policy.disabled
    &&& target == EvaluationTarget::Runtime ==> policy.active
    &&& policy.ingress_zones.contains("ANY"@) || policy.ingress_zones.contains(zone)
    &&& policy.egress_zones.contains("HOST"@) || policy.egress_zones.contains("ANY"@)
}

/// Some policy of the configuration handles traffic from the zone to the host.
pub open spec fn some_policy_applies(x: TrafficEvaluationIndexView, zone: Seq<char>) -> bool {
    exists|i: int|
        0 <= i < policies(x).len() && applies((#[trigger] policies(x)[i]).1, zone, x.target)
}

/// A new connection to the host, asked about the configuration that the index
/// is about, of a running daemon with its zones read and not in panic mode.
pub open spec fn on_the_way(
    x: TrafficEvaluationIndexView,
    scenario: TrafficScenarioView,
    context: EvaluationContextView,
) -> bool {
    &&& scenario.objection() is None
    &&& context.objection() is None
    &&& context.target == x.target
    &&& scenario.direction == TrafficDirection::ToHost
    &&& scenario.connection_state == TrafficConnectionState::New
    &&& read(x, SnapshotSection::Zones)
    &&& x.snapshot.status.daemon_running
    &&& x.target == EvaluationTarget::Runtime ==> !x.snapshot.status.panic_mode
}

/// The traffic enters this zone, and nothing but the zone's own lists and
/// target has a say: there are no direct rules, no policy applies, the zone
/// has no rich rules, and all of that was read.
pub open spec fn up_to_the_zone(
    x: TrafficEvaluationIndexView,
    scenario: TrafficScenarioView,
    context: EvaluationContextView,
    name: Seq<char>,
    zone: ZoneDetailsView,
) -> bool {
    &&& on_the_way(x, scenario, context)
    &&& evaluator::ingress(x, scenario).1 == Ok::<Seq<char>, UnknownReason>(name)
    &&& name_map::lookup(zones(x), name) == Some(zone)
    &&& read(x, SnapshotSection::DirectRules)
    &&& x.snapshot.direct_rules.len() == 0
    &&& read(x, SnapshotSection::Policies)
    &&& !some_policy_applies(x, name)
    &&& zone.rich_rules.len() == 0
}

/// The decision of an evaluation, with the reason where there is none.
pub open spec fn decides(
    x: TrafficEvaluationIndexView,
    scenario: TrafficScenarioView,
    context: EvaluationContextView,
    decision: FirewallDecision,
    reason: Option<UnknownReason>,
) -> bool {
    evaluator::evaluated(x, scenario, context) matches Ok(result) && result.decision == decision
        && result.unknown_reason == reason
}

proof fn policies_searched(x: TrafficEvaluationIndexView, name: Seq<char>)
    ensures
        some_policy_applies(x, name) == lists::first(
            x.policies(),
            evaluator::concerning(name, x.target),
        ) is Some,
{
    let wanted = evaluator::concerning(name, x.target);
    lists::first_facts(x.policies(), wanted);
    assert(policies(x) == x.policies());
    if some_policy_applies(x, name) {
        let i = choose|i: int|
            0 <= i < policies(x).len() && applies((#[trigger] policies(x)[i]).1, name, x.target);
        assert(wanted(x.policies()[i]));
    }
    if let Some(entry) = lists::first(x.policies(), wanted) {
        assert(x.policies().contains(entry));
        let i = choose|i: int| 0 <= i < x.policies().len() && x.policies()[i] == entry;
        assert(applies(policies(x)[i].1, name, x.target));
    }
}

proof fn at_the_zone(
    x: TrafficEvaluationIndexView,
    scenario: TrafficScenarioView,
    context: EvaluationContextView,
    name: Seq<char>,
    zone: ZoneDetailsView,
)
    requires
        up_to_the_zone(x, scenario, context, name, zone),
    ensures
        match evaluator::zone_decides(x, scenario, zone).1 {
            Ok(decision) => decides(x, scenario, context, decision, None),
            Err(reason) => decides(
                x,
                scenario,
                context,
                FirewallDecision::Unknown,
                Some(reason),
            ),
        },
{
    policies_searched(x, name);
    evaluator::evaluation_concludes(x, scenario, context);
}

// ---------------------------------------------------------------------------
// What a zone decides
// ---------------------------------------------------------------------------
/// Traffic whose port or protocol the zone opens is allowed. UDP is opened by
/// UDP ports only, TCP by TCP ports only.
pub proof fn opened_traffic_is_allowed(
    x: TrafficEvaluationIndexView,
    scenario: TrafficScenarioView,
    context: EvaluationContextView,
    name: Seq<char>,
    zone: ZoneDetailsView,
)
    requires
        proper(scenario),
        up_to_the_zone(x, scenario, context, name, zone),
        opened(scenario, zone.ports, zone.source_ports, zone.protocols),
    ensures
        decides(x, scenario, context, FirewallDecision::Allow, None),
{
    opened_is_listed(scenario, zone.ports, zone.source_ports, zone.protocols);
    at_the_zone(x, scenario, context, name, zone);
}

/// What the target decides of traffic that nothing opens. The default target
/// blocks, where firewalld is known to give it that meaning.
pub open spec fn target_says(
    x: TrafficEvaluationIndexView,
    scenario: TrafficScenarioView,
    context: EvaluationContextView,
    zone: ZoneDetailsView,
) -> bool {
    match zone.target {
        ZoneTarget::Accept => decides(x, scenario, context, FirewallDecision::Allow, None),
        ZoneTarget::Drop | ZoneTarget::Reject => decides(
            x,
            scenario,
            context,
            FirewallDecision::Block,
            None,
        ),
        ZoneTarget::Default => match capability::support_of(
            capability::reported(x.snapshot.status.version),
            FirewalldFeature::DefaultTargetRejectSemantics,
        ) {
            FeatureSupport::Supported => decides(
                x,
                scenario,
                context,
                FirewallDecision::Block,
                None,
            ),
            FeatureSupport::Unsupported => decides(
                x,
                scenario,
                context,
                FirewallDecision::Unknown,
                Some(UnknownReason::VersionUnsupported),
            ),
            FeatureSupport::Unknown => decides(
                x,
                scenario,
                context,
                FirewallDecision::Unknown,
                Some(UnknownReason::CapabilityUnavailable),
            ),
        },
    }
}

/// Traffic other than ICMP that neither a port nor a protocol opens in a zone
/// without services is up to the zone's target.
pub proof fn unopened_traffic_is_up_to_the_target(
    x: TrafficEvaluationIndexView,
    scenario: TrafficScenarioView,
    context: EvaluationContextView,
    name: Seq<char>,
    zone: ZoneDetailsView,
)
    requires
        proper(scenario),
        up_to_the_zone(x, scenario, context, name, zone),
        !(scenario.transport is Icmp),
        !opened(scenario, zone.ports, zone.source_ports, zone.protocols),
        zone.services.len() == 0,
    ensures
        target_says(x, scenario, context, zone),
{
    opened_is_listed(scenario, zone.ports, zone.source_ports, zone.protocols);
    at_the_zone(x, scenario, context, name, zone);
}

/// An ICMP type is blocked exactly if the zone lists it; with inversion,
/// exactly if it does not.
pub proof fn icmp_is_up_to_the_blocks(
    x: TrafficEvaluationIndexView,
    scenario: TrafficScenarioView,
    context: EvaluationContextView,
    name: Seq<char>,
    zone: ZoneDetailsView,
    icmp_type: Seq<char>,
)
    requires
        up_to_the_zone(x, scenario, context, name, zone),
        scenario.transport == (TrafficTransportView::Icmp { icmp_type }),
    ensures
        !zone.icmp_block_inversion && zone.icmp_blocks.contains(icmp_type) ==> decides(
            x,
            scenario,
            context,
            FirewallDecision::Block,
            None,
        ),
        !zone.icmp_block_inversion && !zone.icmp_blocks.contains(icmp_type) ==> decides(
            x,
            scenario,
            context,
            FirewallDecision::Allow,
            None,
        ),
        zone.icmp_block_inversion && zone.icmp_blocks.contains(icmp_type) ==> decides(
            x,
            scenario,
            context,
            FirewallDecision::Allow,
            None,
        ),
        zone.icmp_block_inversion && !zone.icmp_blocks.contains(icmp_type) ==> decides(
            x,
            scenario,
            context,
            FirewallDecision::Block,
            None,
        ),
{
    at_the_zone(x, scenario, context, name, zone);
}

// ---------------------------------------------------------------------------
// Services
// ---------------------------------------------------------------------------
/// The number of leading bits that a source fixes: its prefix length, or all.
pub open spec fn fixed_bits(addr: IpAddr, prefix: Option<u8>) -> int {
    match prefix {
        Some(p) => p as int,
        None => match addr {
            IpAddr::V4(_) => 32,
            IpAddr::V6(_) => 128,
        },
    }
}

/// Every address of the candidate is one of the block's: both are addresses of
/// one family, the block fixes no more bits than the candidate, and they agree
/// on those.
pub open spec fn encloses(block: SourceAddressView, candidate: SourceAddressView) -> bool {
    match (block, candidate) {
        (
            SourceAddressView::Ip { addr: network, prefix: p },
            SourceAddressView::Ip { addr: address, prefix: q },
        ) => fixed_bits(network, p) <= fixed_bits(address, q) && cidr::agree(
            network,
            address,
            fixed_bits(network, p) as nat,
        ),
        _ => false,
    }
}

/// No prefix is longer than its address.
pub open spec fn within_width(source: SourceAddressView) -> bool {
    source matches SourceAddressView::Ip { addr, prefix: Some(p) } ==> p <= match addr {
        IpAddr::V4(_) => 32int,
        IpAddr::V6(_) => 128int,
    }
}

proof fn enclosing_is_specific(block: SourceAddressView, candidate: SourceAddressView)
    requires
        within_width(block),
    ensures
        encloses(block, candidate) == evaluator::specificity(block, candidate) is Some,
        evaluator::specificity(block, candidate) matches Some(n) ==> (block
            matches SourceAddressView::Ip { addr, prefix } && n == fixed_bits(addr, prefix)),
{
}

/// Some destination of the definition is of the given family.
pub open spec fn limits_family(definition: ServiceDefinitionView, family: AddressFamily) -> bool {
    exists|i: int|
        0 <= i < definition.destinations.len() && (#[trigger] definition.destinations[i]).family
            == family
}

/// One of the destinations of that family encloses the address.
pub open spec fn reaches(
    definition: ServiceDefinitionView,
    family: AddressFamily,
    address: SourceAddressView,
) -> bool {
    exists|i: int|
        0 <= i < definition.destinations.len() && (#[trigger] definition.destinations[i]).family
            == family && encloses(definition.destinations[i].address, address)
}

/// The service opens the traffic for certain: it lists the port or protocol,
/// needs no helper or module, and limits no destination of the source's family
/// or one that encloses the scenario's.
pub open spec fn serves(definition: ServiceDefinitionView, scenario: TrafficScenarioView) -> bool {
    &&& opened(scenario, definition.ports, definition.source_ports, definition.protocols)
    &&& definition.helpers.len() == 0 && definition.modules.len() == 0
    &&& scenario.source.family() matches Some(family) && (!limits_family(definition, family) || (
    scenario.destination matches TrafficDestinationView::Address(address) && reaches(
        definition,
        family,
        address,
    )))
}

/// The service does not open the traffic for certain: it lists neither the
/// port nor the protocol; or it needs no helper or module, and limits the
/// destinations to some that do not enclose the scenario's.
pub open spec fn ignores(definition: ServiceDefinitionView, scenario: TrafficScenarioView) -> bool {
    ||| !opened(scenario, definition.ports, definition.source_ports, definition.protocols)
    ||| definition.helpers.len() == 0 && definition.modules.len() == 0 && (
    scenario.source.family() matches Some(family) && limits_family(definition, family) && (
    scenario.destination matches TrafficDestinationView::Address(address) && !reaches(
        definition,
        family,
        address,
    )))
}

/// The prefixes of the definition's destinations are within their width.
pub open spec fn destinations_proper(definition: ServiceDefinitionView) -> bool {
    forall|i: int|
        0 <= i < definition.destinations.len() ==> within_width(
            (#[trigger] definition.destinations[i]).address,
        )
}

proof fn fit_is_service(definition: ServiceDefinitionView, scenario: TrafficScenarioView)
    requires
        proper(scenario),
        destinations_proper(definition),
    ensures
        serves(definition, scenario) == (evaluator::service_fit(definition, scenario)
            == evaluator::ServiceMatch::Matched),
        ignores(definition, scenario) == (evaluator::service_fit(definition, scenario)
            == evaluator::ServiceMatch::NotMatched),
{
    opened_is_listed(
        scenario,
        definition.ports,
        definition.source_ports,
        definition.protocols,
    );
    if let Some(family) = scenario.source.family() {
        assert(limits_family(definition, family) == evaluator::restricts(
            definition.destinations,
            family,
        ));
        if let TrafficDestinationView::Address(address) = scenario.destination {
            assert forall|i: int| 0 <= i < definition.destinations.len() implies encloses(
                (#[trigger] definition.destinations[i]).address,
                address,
            ) == evaluator::specificity(definition.destinations[i].address, address) is Some by {
                enclosing_is_specific(definition.destinations[i].address, address);
            }
            assert(reaches(definition, family, address) == evaluator::admits(
                definition.destinations,
                family,
                address,
            ));
        }
    }
}

/// The service at that place of the zone was resolved without failures.
pub open spec fn resolved(x: TrafficEvaluationIndexView, zone: ZoneDetailsView, i: int) -> bool {
    name_map::lookup(x.services, zone.services[i]) matches Some(r) && r.failures.len() == 0
        && destinations_proper(r.effective)
}

/// What the service at that place of the zone opens, with all that it brings
/// along.
pub open spec fn offered(
    x: TrafficEvaluationIndexView,
    zone: ZoneDetailsView,
    i: int,
) -> ServiceDefinitionView {
    name_map::lookup(x.services, zone.services[i])->0.effective
}

/// The services before that place were resolved and ignore the traffic.
pub open spec fn passes_by(
    x: TrafficEvaluationIndexView,
    scenario: TrafficScenarioView,
    zone: ZoneDetailsView,
    n: int,
) -> bool {
    forall|i: int|
        0 <= i < n ==> (#[trigger] resolved(x, zone, i)) && ignores(offered(x, zone, i), scenario)
}

proof fn passing_by(
    x: TrafficEvaluationIndexView,
    scenario: TrafficScenarioView,
    zone: ZoneDetailsView,
    n: int,
    i: int,
)
    requires
        proper(scenario),
        0 <= i <= n <= zone.services.len(),
        passes_by(x, scenario, zone, n),
    ensures
        evaluator::services_decide(x, scenario, zone, i) == evaluator::services_decide(
            x,
            scenario,
            zone,
            n,
        ),
    decreases n - i,
{
    if i < n {
        assert(resolved(x, zone, i));
        fit_is_service(offered(x, zone, i), scenario);
        passing_by(x, scenario, zone, n, i + 1);
    }
}

/// The first service of the zone that does not ignore the traffic decides: one
/// that serves it allows it; one that was not resolved, or whose helpers,
/// modules or destinations leave it open, leaves it open. The services and
/// their definitions must have been read.
pub proof fn first_relevant_service_decides(
    x: TrafficEvaluationIndexView,
    scenario: TrafficScenarioView,
    context: EvaluationContextView,
    name: Seq<char>,
    zone: ZoneDetailsView,
    n: int,
)
    requires
        proper(scenario),
        up_to_the_zone(x, scenario, context, name, zone),
        !(scenario.transport is Icmp),
        !opened(scenario, zone.ports, zone.source_ports, zone.protocols),
        0 <= n <= zone.services.len(),
        passes_by(x, scenario, zone, n),
        read(x, SnapshotSection::Services),
        read(x, SnapshotSection::ServiceDefinitions),
    ensures
        n == zone.services.len() ==> target_says(x, scenario, context, zone),
        n < zone.services.len() && resolved(x, zone, n) && serves(offered(x, zone, n), scenario)
            ==> decides(x, scenario, context, FirewallDecision::Allow, None),
        n < zone.services.len() && (match name_map::lookup(x.services, zone.services[n]) {
            Some(r) => r.failures.len() > 0,
            None => true,
        }) ==> decides(
            x,
            scenario,
            context,
            FirewallDecision::Unknown,
            Some(UnknownReason::IncompleteServiceDefinition),
        ),
        n < zone.services.len() && resolved(x, zone, n) && !serves(offered(x, zone, n), scenario)
            && !ignores(offered(x, zone, n), scenario) ==> decides(
            x,
            scenario,
            context,
            FirewallDecision::Unknown,
            Some(UnknownReason::UnsupportedServiceFeature),
        ),
{
    opened_is_listed(scenario, zone.ports, zone.source_ports, zone.protocols);
    at_the_zone(x, scenario, context, name, zone);
    passing_by(x, scenario, zone, n, 0);
    if n < zone.services.len() && resolved(x, zone, n) {
        fit_is_service(offered(x, zone, n), scenario);
    }
}

/// Services that were not read leave traffic open that nothing else opens.
pub proof fn unread_services_leave_it_open(
    x: TrafficEvaluationIndexView,
    scenario: TrafficScenarioView,
    context: EvaluationContextView,
    name: Seq<char>,
    zone: ZoneDetailsView,
)
    requires
        proper(scenario),
        up_to_the_zone(x, scenario, context, name, zone),
        !(scenario.transport is Icmp),
        !opened(scenario, zone.ports, zone.source_ports, zone.protocols),
        zone.services.len() > 0,
        !read(x, SnapshotSection::Services) || !read(x, SnapshotSection::ServiceDefinitions),
    ensures
        decides(
            x,
            scenario,
            context,
            FirewallDecision::Unknown,
            Some(UnknownReason::IncompleteSnapshot),
        ),
{
    opened_is_listed(scenario, zone.ports, zone.source_ports, zone.protocols);
    at_the_zone(x, scenario, context, name, zone);
}

proof fn allowed_by_a_service(
    x: TrafficEvaluationIndexView,
    scenario: TrafficScenarioView,
    zone: ZoneDetailsView,
    i: int,
)
    requires
        proper(scenario),
        0 <= i,
        evaluator::services_decide(x, scenario, zone, i) matches Some(decided) && decided.1 is Ok,
    ensures
        exists|k: int|
            0 <= k < zone.services.len() && (#[trigger] name_map::lookup(
                x.services,
                zone.services[k],
            ) matches Some(r) && r.failures.len() == 0 && opened(
                scenario,
                r.effective.ports,
                r.effective.source_ports,
                r.effective.protocols,
            )),
    decreases zone.services.len() - i,
{
    if i < zone.services.len() {
        let r = name_map::lookup(x.services, zone.services[i]);
        if let Some(r) = r {
            opened_is_listed(
                scenario,
                r.effective.ports,
                r.effective.source_ports,
                r.effective.protocols,
            );
            if evaluator::service_fit(r.effective, scenario)
                == evaluator::ServiceMatch::NotMatched {
                allowed_by_a_service(x, scenario, zone, i + 1);
            } else {
                assert(name_map::lookup(x.services, zone.services[i]) == Some(r));
            }
        }
    }
}

/// Nothing is allowed without a reason: traffic other than ICMP into a zone
/// that does not accept what no rule matches is allowed only if the zone, or a
/// service of the zone that was resolved without failures, opens its port or
/// protocol.
pub proof fn allowed_traffic_is_opened(
    x: TrafficEvaluationIndexView,
    scenario: TrafficScenarioView,
    context: EvaluationContextView,
    name: Seq<char>,
    zone: ZoneDetailsView,
)
    requires
        proper(scenario),
        up_to_the_zone(x, scenario, context, name, zone),
        !(scenario.transport is Icmp),
        zone.target != ZoneTarget::Accept,
        decides(x, scenario, context, FirewallDecision::Allow, None),
    ensures
        opened(scenario, zone.ports, zone.source_ports, zone.protocols) || exists|k: int|
            0 <= k < zone.services.len() && (#[trigger] name_map::lookup(
                x.services,
                zone.services[k],
            ) matches Some(r) && r.failures.len() == 0 && opened(
                scenario,
                r.effective.ports,
                r.effective.source_ports,
                r.effective.protocols,
            )),
{
    opened_is_listed(scenario, zone.ports, zone.source_ports, zone.protocols);
    at_the_zone(x, scenario, context, name, zone);
    if !opened(scenario, zone.ports, zone.source_ports, zone.protocols) {
        allowed_by_a_service(x, scenario, zone, 0);
    }
}

// ---------------------------------------------------------------------------
// What is beyond the model
// ---------------------------------------------------------------------------
/// What keeps an evaluation from a decision is named, the first that does: the
/// wrong configuration, another path or connection, zones that were not read,
/// direct rules, policies and rich rules.
pub proof fn what_rules_out_a_decision_is_named(
    x: TrafficEvaluationIndexView,
    scenario: TrafficScenarioView,
    context: EvaluationContextView,
    name: Seq<char>,
)
    requires
        scenario.objection() is None,
        context.objection() is None,
    ensures
        ({
            let open = |reason: UnknownReason|
                decides(x, scenario, context, FirewallDecision::Unknown, Some(reason));
            if context.target != x.target {
                open(UnknownReason::StaleSnapshot)
            } else if scenario.direction != TrafficDirection::ToHost {
                open(UnknownReason::UnsupportedDirection)
            } else if scenario.connection_state != TrafficConnectionState::New {
                open(UnknownReason::UnsupportedConnectionState)
            } else if !read(x, SnapshotSection::Zones) || !x.snapshot.status.daemon_running {
                open(UnknownReason::IncompleteSnapshot)
            } else if x.target == EvaluationTarget::Runtime && x.snapshot.status.panic_mode {
                decides(x, scenario, context, FirewallDecision::Block, None)
            } else {
                match evaluator::ingress(x, scenario).1 {
                    Err(reason) => open(reason),
                    Ok(entered) => entered == name ==> (match name_map::lookup(zones(x), name) {
                        None => open(UnknownReason::IncompleteSnapshot),
                        Some(zone) => {
                            &&& !read(x, SnapshotSection::DirectRules) ==> open(
                                UnknownReason::IncompleteSnapshot,
                            )
                            &&& read(x, SnapshotSection::DirectRules)
                                && x.snapshot.direct_rules.len() > 0 ==> open(
                                UnknownReason::ExternalRulesOutsideModel,
                            )
                            &&& read(x, SnapshotSection::DirectRules)
                                && x.snapshot.direct_rules.len() == 0 && !read(
                                x,
                                SnapshotSection::Policies,
                            ) ==> open(UnknownReason::IncompleteSnapshot)
                            &&& read(x, SnapshotSection::DirectRules)
                                && x.snapshot.direct_rules.len() == 0 && read(
                                x,
                                SnapshotSection::Policies,
                            ) && some_policy_applies(x, name) ==> open(
                                UnknownReason::UnsupportedPolicyFeature,
                            )
                            &&& read(x, SnapshotSection::DirectRules)
                                && x.snapshot.direct_rules.len() == 0 && read(
                                x,
                                SnapshotSection::Policies,
                            ) && !some_policy_applies(x, name) && zone.rich_rules.len() > 0
                                ==> open(UnknownReason::UnsupportedRichRule)
                        },
                    }),
                }
            }
        }),
{
    policies_searched(x, name);
    evaluator::evaluation_concludes(x, scenario, context);
}

// ---------------------------------------------------------------------------
// The way in
// ---------------------------------------------------------------------------
/// The binding takes traffic from this source: it is a source binding that
/// encloses it.
pub open spec fn takes_source(
    binding: IndexedZoneBindingView,
    source: SourceAddressView,
) -> bool {
    binding.kind matches IndexedZoneBindingKindView::Source(block) && encloses(block, source)
}

/// The leading bits that a source binding fixes.
pub open spec fn narrowness(binding: IndexedZoneBindingView) -> int {
    match binding.kind {
        IndexedZoneBindingKindView::Source(SourceAddressView::Ip { addr, prefix }) => fixed_bits(
            addr,
            prefix,
        ),
        _ => 0,
    }
}

/// The first binding goes before the second: by a lower priority number, or at
/// the same priority by fixing more bits.
pub open spec fn goes_before(a: IndexedZoneBindingView, b: IndexedZoneBindingView) -> bool {
    ||| a.ingress_priority < b.ingress_priority
    ||| a.ingress_priority == b.ingress_priority && narrowness(a) > narrowness(b)
}

/// The binding is among those that take the traffic, and no other of them goes
/// before it.
pub open spec fn foremost(
    bindings: Seq<IndexedZoneBindingView>,
    takes: spec_fn(IndexedZoneBindingView) -> bool,
    i: int,
) -> bool {
    &&& takes(bindings[i])
    &&& forall|j: int|
        0 <= j < bindings.len() && takes(#[trigger] bindings[j]) ==> !goes_before(
            bindings[j],
            bindings[i],
        )
}

/// The bindings that take traffic from this source.
pub open spec fn source_takers(source: SourceAddressView) -> spec_fn(
    IndexedZoneBindingView,
) -> bool {
    |binding: IndexedZoneBindingView| takes_source(binding, source)
}

/// The bindings of this interface.
pub open spec fn interface_takers(interface: Seq<char>) -> spec_fn(IndexedZoneBindingView) -> bool {
    |binding: IndexedZoneBindingView|
        binding.kind == IndexedZoneBindingKindView::Interface(interface)
}

/// The prefixes of the source bindings are within their width.
pub open spec fn bindings_proper(bindings: Seq<IndexedZoneBindingView>) -> bool {
    forall|i: int|
        0 <= i < bindings.len() ==> ((#[trigger] bindings[i]).kind
            matches IndexedZoneBindingKindView::Source(block) ==> within_width(block))
}

/// What a source binding that takes the traffic amounts to.
spec fn hit_of(binding: IndexedZoneBindingView) -> evaluator::Hit {
    (binding.ingress_priority, narrowness(binding) as u8, binding.zone)
}

spec fn from_taker(
    bindings: Seq<IndexedZoneBindingView>,
    takes: spec_fn(IndexedZoneBindingView) -> bool,
    h: evaluator::Hit,
) -> bool {
    exists|i: int|
        0 <= i < bindings.len() && takes(#[trigger] bindings[i]) && hit_of(bindings[i]) == h
}

/// The hits are those of the bindings that take the traffic.
spec fn hits_of(
    bindings: Seq<IndexedZoneBindingView>,
    takes: spec_fn(IndexedZoneBindingView) -> bool,
    hits: Seq<evaluator::Hit>,
) -> bool {
    &&& forall|i: int|
        0 <= i < bindings.len() && takes(#[trigger] bindings[i]) ==> 0 <= narrowness(bindings[i])
            <= 128 && hits.contains(hit_of(bindings[i]))
    &&& forall|k: int| 0 <= k < hits.len() ==> from_taker(bindings, takes, #[trigger] hits[k])
}

/// One binding more, with its hit if it takes the traffic.
proof fn one_more_hit(
    bindings: Seq<IndexedZoneBindingView>,
    takes: spec_fn(IndexedZoneBindingView) -> bool,
    before: Seq<evaluator::Hit>,
)
    requires
        bindings.len() > 0,
        hits_of(bindings.drop_last(), takes, before),
        takes(bindings.last()) ==> 0 <= narrowness(bindings.last()) <= 128,
    ensures
        takes(bindings.last()) ==> hits_of(bindings, takes, before.push(hit_of(bindings.last()))),
        !takes(bindings.last()) ==> hits_of(bindings, takes, before),
{
    let rest = bindings.drop_last();
    let last = bindings.last();
    let hits = if takes(last) {
        before.push(hit_of(last))
    } else {
        before
    };
    assert(bindings[bindings.len() - 1] == last);
    assert forall|i: int| 0 <= i < bindings.len() && takes(#[trigger] bindings[i]) implies 0
        <= narrowness(bindings[i]) <= 128 && hits.contains(hit_of(bindings[i])) by {
        if i < rest.len() {
            assert(rest[i] == bindings[i]);
            let k = choose|k: int| 0 <= k < before.len() && before[k] == hit_of(rest[i]);
            assert(hits[k] == before[k]);
        } else {
            assert(hits[hits.len() - 1] == hit_of(last));
        }
    }
    assert forall|k: int| 0 <= k < hits.len() implies from_taker(
        bindings,
        takes,
        #[trigger] hits[k],
    ) by {
        if k < before.len() {
            assert(hits[k] == before[k]);
            let i = choose|i: int|
                0 <= i < rest.len() && takes(#[trigger] rest[i]) && hit_of(rest[i]) == before[k];
            assert(bindings[i] == rest[i]);
        } else {
            assert(takes(bindings[bindings.len() - 1]));
        }
    }
}

proof fn source_hits_are_takers(bindings: Seq<IndexedZoneBindingView>, source: SourceAddressView)
    requires
        bindings_proper(bindings),
    ensures
        hits_of(bindings, source_takers(source), evaluator::source_hits(bindings, source)),
    decreases bindings.len(),
{
    if bindings.len() > 0 {
        let rest = bindings.drop_last();
        let last = bindings.last();
        assert(bindings[bindings.len() - 1] == last);
        assert forall|i: int| 0 <= i < rest.len() implies ((#[trigger] rest[i]).kind
            matches IndexedZoneBindingKindView::Source(block) ==> within_width(block)) by {
            assert(rest[i] == bindings[i]);
        }
        source_hits_are_takers(rest, source);
        if let IndexedZoneBindingKindView::Source(block) = last.kind {
            enclosing_is_specific(block, source);
        }
        one_more_hit(bindings, source_takers(source), evaluator::source_hits(rest, source));
    }
}

proof fn interface_hits_are_takers(bindings: Seq<IndexedZoneBindingView>, interface: Seq<char>)
    ensures
        hits_of(bindings, interface_takers(interface), evaluator::interface_hits(bindings, interface)),
    decreases bindings.len(),
{
    if bindings.len() > 0 {
        let rest = bindings.drop_last();
        interface_hits_are_takers(rest, interface);
        one_more_hit(
            bindings,
            interface_takers(interface),
            evaluator::interface_hits(rest, interface),
        );
    }
}

proof fn foremost_hits_lead(
    bindings: Seq<IndexedZoneBindingView>,
    takes: spec_fn(IndexedZoneBindingView) -> bool,
    hits: Seq<evaluator::Hit>,
    j: int,
)
    requires
        hits_of(bindings, takes, hits),
        0 <= j < bindings.len(),
        takes(bindings[j]),
    ensures
        foremost(bindings, takes, j) == evaluator::leads(hits, hit_of(bindings[j])),
{
    let h = hit_of(bindings[j]);
    if foremost(bindings, takes, j) {
        assert forall|k: int| 0 <= k < hits.len() implies evaluator::ahead(h, #[trigger] hits[k]) by {
            assert(from_taker(bindings, takes, hits[k]));
            let m = choose|m: int|
                0 <= m < bindings.len() && takes(#[trigger] bindings[m]) && hit_of(bindings[m])
                    == hits[k];
            assert(!goes_before(bindings[m], bindings[j]));
        }
    }
    if evaluator::leads(hits, h) {
        assert forall|m: int|
            0 <= m < bindings.len() && takes(#[trigger] bindings[m]) implies !goes_before(
            bindings[m],
            bindings[j],
        ) by {
            let k = choose|k: int| 0 <= k < hits.len() && hits[k] == hit_of(bindings[m]);
            assert(evaluator::ahead(h, hits[k]));
        }
    }
}

/// All foremost bindings are of one zone.
pub open spec fn one_zone(
    bindings: Seq<IndexedZoneBindingView>,
    takes: spec_fn(IndexedZoneBindingView) -> bool,
    zone: Seq<char>,
) -> bool {
    forall|j: int|
        0 <= j < bindings.len() && #[trigger] foremost(bindings, takes, j) ==> bindings[j].zone
            == zone
}

/// The bindings that take the traffic do not all have one priority.
pub open spec fn mixed_priorities(
    bindings: Seq<IndexedZoneBindingView>,
    takes: spec_fn(IndexedZoneBindingView) -> bool,
) -> bool {
    exists|i: int, j: int|
        0 <= i < bindings.len() && 0 <= j < bindings.len() && takes(#[trigger] bindings[i])
            && takes(#[trigger] bindings[j]) && bindings[i].ingress_priority
            != bindings[j].ingress_priority
}

proof fn foremost_agree(
    bindings: Seq<IndexedZoneBindingView>,
    takes: spec_fn(IndexedZoneBindingView) -> bool,
    hits: Seq<evaluator::Hit>,
    i: int,
)
    requires
        hits_of(bindings, takes, hits),
        0 <= i < bindings.len(),
        foremost(bindings, takes, i),
    ensures
        evaluator::agreed_zone(hits) == if one_zone(bindings, takes, bindings[i].zone) {
            Some(bindings[i].zone)
        } else {
            None
        },
{
    let wanted = evaluator::leading(hits);
    let zone = bindings[i].zone;
    foremost_hits_lead(bindings, takes, hits, i);
    let t = choose|t: int| 0 <= t < hits.len() && hits[t] == hit_of(bindings[i]);
    lists::first_facts(hits, wanted);
    assert(wanted(hits[t]));
    let first = lists::first(hits, wanted)->0;
    assert(hits.contains(first) && wanted(first));
    let f = choose|f: int| 0 <= f < hits.len() && hits[f] == first;
    assert(from_taker(bindings, takes, hits[f]));
    let g = choose|g: int|
        0 <= g < bindings.len() && takes(#[trigger] bindings[g]) && hit_of(bindings[g]) == hits[f];
    foremost_hits_lead(bindings, takes, hits, g);
    assert(foremost(bindings, takes, g));
    if one_zone(bindings, takes, zone) {
        assert(first.2 == zone);
        assert forall|k: int|
            0 <= k < hits.len() && evaluator::leads(hits, #[trigger] hits[k]) implies hits[k].2
            == first.2 by {
            assert(from_taker(bindings, takes, hits[k]));
            let j = choose|j: int|
                0 <= j < bindings.len() && takes(#[trigger] bindings[j]) && hit_of(bindings[j])
                    == hits[k];
            foremost_hits_lead(bindings, takes, hits, j);
            assert(foremost(bindings, takes, j));
        }
    } else {
        let j = choose|j: int|
            0 <= j < bindings.len() && #[trigger] foremost(bindings, takes, j) && bindings[j].zone
                != zone;
        foremost_hits_lead(bindings, takes, hits, j);
        let k = choose|k: int| 0 <= k < hits.len() && hits[k] == hit_of(bindings[j]);
        assert(evaluator::leads(hits, hits[k]));
        assert(evaluator::leads(hits, hits[t]));
        assert(hits[k].2 != hits[t].2);
    }
}

proof fn priorities_mix(
    bindings: Seq<IndexedZoneBindingView>,
    takes: spec_fn(IndexedZoneBindingView) -> bool,
    hits: Seq<evaluator::Hit>,
)
    requires
        hits_of(bindings, takes, hits),
    ensures
        evaluator::priorities_differ(hits) == mixed_priorities(bindings, takes),
{
    if mixed_priorities(bindings, takes) {
        let (i, j) = choose|i: int, j: int|
            0 <= i < bindings.len() && 0 <= j < bindings.len() && takes(#[trigger] bindings[i])
                && takes(#[trigger] bindings[j]) && bindings[i].ingress_priority
                != bindings[j].ingress_priority;
        let a = choose|k: int| 0 <= k < hits.len() && hits[k] == hit_of(bindings[i]);
        let b = choose|k: int| 0 <= k < hits.len() && hits[k] == hit_of(bindings[j]);
        assert(hits[a].0 != hits[b].0);
    }
    if evaluator::priorities_differ(hits) {
        let (a, b) = choose|a: int, b: int|
            0 <= a < hits.len() && 0 <= b < hits.len() && (#[trigger] hits[a]).0 != (
            #[trigger] hits[b]).0;
        assert(from_taker(bindings, takes, hits[a]));
        assert(from_taker(bindings, takes, hits[b]));
        let m = choose|m: int|
            0 <= m < bindings.len() && takes(#[trigger] bindings[m]) && hit_of(bindings[m])
                == hits[a];
        let n = choose|n: int|
            0 <= n < bindings.len() && takes(#[trigger] bindings[n]) && hit_of(bindings[n])
                == hits[b];
        assert(bindings[m].ingress_priority != bindings[n].ingress_priority);
    }
}

/// The zone that the bindings that take the traffic lead to: that of the
/// foremost of them, where these are of one zone. Where the priorities are not
/// all one, firewalld must be known to heed them.
pub open spec fn leads_to(
    x: TrafficEvaluationIndexView,
    takes: spec_fn(IndexedZoneBindingView) -> bool,
    zone: Seq<char>,
    entered: Result<Seq<char>, UnknownReason>,
) -> bool {
    let support = capability::support_of(
        capability::reported(x.snapshot.status.version),
        FirewalldFeature::ZonePriorities,
    );
    let mixed = mixed_priorities(x.zone_bindings, takes);
    if mixed && support == FeatureSupport::Unsupported {
        entered == Err::<Seq<char>, UnknownReason>(UnknownReason::VersionUnsupported)
    } else if mixed && support == FeatureSupport::Unknown {
        entered == Err::<Seq<char>, UnknownReason>(UnknownReason::CapabilityUnavailable)
    } else if one_zone(x.zone_bindings, takes, zone) {
        entered == Ok::<Seq<char>, UnknownReason>(zone)
    } else {
        entered == Err::<Seq<char>, UnknownReason>(UnknownReason::AmbiguousIngressZone)
    }
}

/// A named zone is entered if the configuration has it. A binding to an ipset
/// leaves the way in open otherwise.
pub proof fn named_zones_are_entered(x: TrafficEvaluationIndexView, scenario: TrafficScenarioView)
    ensures
        scenario.ingress_zone matches Some(zone) ==> evaluator::ingress(x, scenario).1
            == if name_map::lookup(zones(x), zone) is Some {
            Ok::<Seq<char>, UnknownReason>(zone)
        } else {
            Err(UnknownReason::IncompleteSnapshot)
        },
        scenario.ingress_zone is None && (exists|i: int|
            0 <= i < x.zone_bindings.len() && (#[trigger] x.zone_bindings[i]).kind matches
                IndexedZoneBindingKindView::Source(SourceAddressView::IpSet(_)))
            ==> evaluator::ingress(x, scenario).1 == Err::<Seq<char>, UnknownReason>(
            UnknownReason::CapabilityUnavailable,
        ),
{
}

/// No zone is bound to an ipset.
pub open spec fn no_ipset_bound(bindings: Seq<IndexedZoneBindingView>) -> bool {
    forall|i: int|
        0 <= i < bindings.len() ==> !((#[trigger] bindings[i]).kind matches
            IndexedZoneBindingKindView::Source(SourceAddressView::IpSet(_)))
}

/// Traffic from a source that bindings take enters the zone that they lead to.
pub proof fn sources_lead_to_their_zone(
    x: TrafficEvaluationIndexView,
    scenario: TrafficScenarioView,
    i: int,
)
    requires
        bindings_proper(x.zone_bindings),
        scenario.ingress_zone is None,
        no_ipset_bound(x.zone_bindings),
        0 <= i < x.zone_bindings.len(),
        foremost(x.zone_bindings, source_takers(scenario.source), i),
    ensures
        leads_to(
            x,
            source_takers(scenario.source),
            x.zone_bindings[i].zone,
            evaluator::ingress(x, scenario).1,
        ),
{
    let takes = source_takers(scenario.source);
    let hits = evaluator::source_hits(x.zone_bindings, scenario.source);
    source_hits_are_takers(x.zone_bindings, scenario.source);
    foremost_agree(x.zone_bindings, takes, hits, i);
    priorities_mix(x.zone_bindings, takes, hits);
    assert(hits.contains(hit_of(x.zone_bindings[i])));
    assert(!evaluator::binds_ipset(x.zone_bindings));
}

/// Traffic that no source binding takes, on an interface that is bound, enters
/// the zone that the bindings of the interface lead to.
pub proof fn interfaces_lead_to_their_zone(
    x: TrafficEvaluationIndexView,
    scenario: TrafficScenarioView,
    interface: Seq<char>,
    i: int,
)
    requires
        bindings_proper(x.zone_bindings),
        scenario.ingress_zone is None,
        no_ipset_bound(x.zone_bindings),
        forall|j: int|
            0 <= j < x.zone_bindings.len() ==> !takes_source(
                #[trigger] x.zone_bindings[j],
                scenario.source,
            ),
        scenario.ingress_interface == Some(interface),
        0 <= i < x.zone_bindings.len(),
        foremost(x.zone_bindings, interface_takers(interface), i),
    ensures
        leads_to(
            x,
            interface_takers(interface),
            x.zone_bindings[i].zone,
            evaluator::ingress(x, scenario).1,
        ),
{
    let takes = interface_takers(interface);
    let hits = evaluator::interface_hits(x.zone_bindings, interface);
    no_source_hits(x, scenario.source);
    interface_hits_are_takers(x.zone_bindings, interface);
    foremost_agree(x.zone_bindings, takes, hits, i);
    priorities_mix(x.zone_bindings, takes, hits);
    assert(hits.contains(hit_of(x.zone_bindings[i])));
    assert(!evaluator::binds_ipset(x.zone_bindings));
}

proof fn no_source_hits(x: TrafficEvaluationIndexView, source: SourceAddressView)
    requires
        bindings_proper(x.zone_bindings),
        forall|j: int|
            0 <= j < x.zone_bindings.len() ==> !takes_source(#[trigger] x.zone_bindings[j], source),
    ensures
        evaluator::source_hits(x.zone_bindings, source).len() == 0,
{
    let hits = evaluator::source_hits(x.zone_bindings, source);
    source_hits_are_takers(x.zone_bindings, source);
    if hits.len() > 0 {
        assert(from_taker(x.zone_bindings, source_takers(source), hits[0]));
    }
}

/// Traffic that no source binding takes and that names no interface enters the
/// default zone, if the configuration has it.
pub proof fn other_traffic_enters_the_default_zone(
    x: TrafficEvaluationIndexView,
    scenario: TrafficScenarioView,
)
    requires
        bindings_proper(x.zone_bindings),
        scenario.ingress_zone is None,
        no_ipset_bound(x.zone_bindings),
        forall|i: int|
            0 <= i < x.zone_bindings.len() ==> !takes_source(
                #[trigger] x.zone_bindings[i],
                scenario.source,
            ),
        scenario.ingress_interface matches Some(interface) ==> forall|i: int|
            0 <= i < x.zone_bindings.len() ==> (#[trigger] x.zone_bindings[i]).kind
                != IndexedZoneBindingKindView::Interface(interface),
    ensures
        evaluator::ingress(x, scenario).1 == if name_map::lookup(
            zones(x),
            x.snapshot.default_zone,
        ) is Some {
            Ok::<Seq<char>, UnknownReason>(x.snapshot.default_zone)
        } else {
            Err(UnknownReason::IncompleteSnapshot)
        },
{
    let bindings = x.zone_bindings;
    no_source_hits(x, scenario.source);
    if let Some(interface) = scenario.ingress_interface {
        no_interface_hits(bindings, interface);
    }
    assert(!evaluator::binds_ipset(bindings));
}

proof fn no_interface_hits(bindings: Seq<IndexedZoneBindingView>, interface: Seq<char>)
    requires
        forall|i: int|
            0 <= i < bindings.len() ==> (#[trigger] bindings[i]).kind
                != IndexedZoneBindingKindView::Interface(interface),
    ensures
        evaluator::interface_hits(bindings, interface).len() == 0,
    decreases bindings.len(),
{
    if bindings.len() > 0 {
        let rest = bindings.drop_last();
        assert forall|i: int| 0 <= i < rest.len() implies (#[trigger] rest[i]).kind
            != IndexedZoneBindingKindView::Interface(interface) by {
            assert(rest[i] == bindings[i]);
        }
        no_interface_hits(rest, interface);
        assert(bindings[bindings.len() - 1] == bindings.last());
    }
}

} // verus!
