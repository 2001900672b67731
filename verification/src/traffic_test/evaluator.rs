//! Pure, fail-closed evaluation for the initial host-ingress traffic path.

use vstd::prelude::*;

use crate::address::{AddressFamily, SourceAddress, SourceAddressView};
use crate::capability;
use crate::capability::{FeatureSupport, FirewalldFeature};
use crate::cidr;
use crate::explain;
use crate::ids::{IcmpType, InterfaceName, IpProtocol, ZoneName};
use crate::ip::IpAddr;
use crate::lists;
use crate::model;
use crate::model::Value;
use crate::name_map;
use crate::policy::{PolicyDetails, PolicyDetailsView};
use crate::port::{PortSelector, PortSelectorView, PortSpec, PortSpecView, Protocol};
use crate::service::{
    ServiceDefinition,
    ServiceDefinitionView,
    ServiceDestination,
    ServiceDestinationView,
};
use crate::snapshot::SnapshotSection;
use crate::text;
use crate::traffic_test::index::{
    IndexedZoneBinding, IndexedZoneBindingKind, IndexedZoneBindingKindView, IndexedZoneBindingView,
    TrafficEvaluationIndex, TrafficEvaluationIndexView,
};
use crate::traffic_test::report::{
    EvaluationContext, EvaluationContextView, EvaluationTarget, TrafficReportError,
    TrafficReportErrorView, TrafficTestResult, TrafficTestResultView,
};
use crate::traffic_test::scenario::{
    TrafficConnectionState, TrafficDestination, TrafficDestinationView, TrafficDirection,
    TrafficScenario, TrafficScenarioView, TrafficTransport, TrafficTransportView,
    TrafficValidationError, TrafficValidationErrorView,
};
use crate::traffic_test::{
    FirewallDecision, TraceObjectRef, TraceObjectRefView, TrafficExpectation, TrafficTestStatus,
    TrafficTraceOutcome, TrafficTraceStage, TrafficTraceStep, TrafficTraceStepView, UnknownReason,
};
use crate::zone::{ZoneDetails, ZoneDetailsView, ZoneTarget};

pub mod meaning;

verus! {

/// Failure to evaluate an invalid input contract or construct a bounded result.
#[derive(Debug, PartialEq, Eq)]
pub enum TrafficEvaluationError {
    /// The scenario bypassed suite validation or was mutated after validation.
    InvalidScenario(TrafficValidationError),
    /// The evaluation identity or bounded report contract was invalid.
    Report(TrafficReportError),
}

/// What a `TrafficEvaluationError` models.
#[verifier::ext_equal]
pub enum TrafficEvaluationErrorView {
    InvalidScenario(TrafficValidationErrorView),
    Report(TrafficReportErrorView),
}

impl DeepView for TrafficEvaluationError {
    type V = TrafficEvaluationErrorView;

    open spec fn deep_view(&self) -> TrafficEvaluationErrorView {
        match self {
            TrafficEvaluationError::InvalidScenario(x0) =>
                TrafficEvaluationErrorView::InvalidScenario(x0.deep_view()),
            TrafficEvaluationError::Report(x0) => TrafficEvaluationErrorView::Report(
                x0.deep_view(),
            ),
        }
    }
}

impl Value for TrafficEvaluationError {
    fn same(&self, other: &Self) -> (r: bool) {
        match (self, other) {
            (
                TrafficEvaluationError::InvalidScenario(x0),
                TrafficEvaluationError::InvalidScenario(x0_other),
            ) => x0.same(x0_other),
            (TrafficEvaluationError::Report(x0), TrafficEvaluationError::Report(x0_other)) =>
                x0.same(x0_other),
            _ => false,
        }
    }

    fn dup(&self) -> (r: Self) {
        match self {
            TrafficEvaluationError::InvalidScenario(x0) => TrafficEvaluationError::InvalidScenario(
                x0.dup(),
            ),
            TrafficEvaluationError::Report(x0) => TrafficEvaluationError::Report(x0.dup()),
        }
    }
}

impl Clone for TrafficEvaluationError {
    fn clone(&self) -> (r: Self)
        ensures
            r.deep_view() == self.deep_view(),
    {
        self.dup()
    }
}

impl TrafficEvaluationErrorView {
    /// The sentence that describes the failure.
    pub open spec fn message(self) -> Seq<char> {
        match self {
            TrafficEvaluationErrorView::InvalidScenario(e) => "invalid traffic scenario: "@
                + e.message(),
            TrafficEvaluationErrorView::Report(e) => "invalid traffic evaluation contract: "@
                + e.message(),
        }
    }
}

impl TrafficEvaluationError {
    /// The sentence that describes the failure.
    pub fn message(&self) -> (r: String)
        ensures
            r@ == self.deep_view().message(),
    {
        match self {
            TrafficEvaluationError::InvalidScenario(e) => {
                let inner = e.message();
                text::cat2("invalid traffic scenario: ", inner.as_str())
            },
            TrafficEvaluationError::Report(e) => {
                let inner = e.message();
                text::cat2("invalid traffic evaluation contract: ", inner.as_str())
            },
        }
    }
}

// ---------------------------------------------------------------------------
// Addresses, protocols and ports
// ---------------------------------------------------------------------------
/// The length of a whole address of this family.
pub open spec fn full_prefix(address: IpAddr) -> u8 {
    match address {
        IpAddr::V4(_) => 32,
        IpAddr::V6(_) => 128,
    }
}

/// The block `network/prefix` holds `candidate`. A prefix longer than the
/// address holds every address of the family where it counts whole bytes, and
/// none otherwise.
pub open spec fn block_holds(network: IpAddr, prefix: u8, candidate: IpAddr) -> bool {
    if prefix <= full_prefix(network) {
        cidr::agree(network, candidate, prefix as nat)
    } else {
        cidr::same_family(network, candidate) && prefix % 8 == 0
    }
}

/// The prefix length of a binding that covers all of the candidate.
pub open spec fn specificity(binding: SourceAddressView, candidate: SourceAddressView) -> Option<
    u8,
> {
    match (binding, candidate) {
        (
            SourceAddressView::Ip { addr: network, prefix: length },
            SourceAddressView::Ip { addr: address, prefix: width },
        ) => {
            let length = length.unwrap_or(full_prefix(network));
            let width = width.unwrap_or(full_prefix(address));
            if length <= width && block_holds(network, length, address) {
                Some(length)
            } else {
                None
            }
        },
        _ => None,
    }
}

/// The port protocol of a transport that has ports.
pub open spec fn port_protocol(transport: TrafficTransportView) -> Option<Protocol> {
    match transport {
        TrafficTransportView::Tcp => Some(Protocol::Tcp),
        TrafficTransportView::Udp => Some(Protocol::Udp),
        _ => None,
    }
}

/// The IP protocol name of a scenario. ICMP depends on the source's family.
pub open spec fn protocol_name(scenario: TrafficScenarioView) -> Option<Seq<char>> {
    match scenario.transport {
        TrafficTransportView::Tcp => Some("tcp"@),
        TrafficTransportView::Udp => Some("udp"@),
        TrafficTransportView::Icmp { .. } => match scenario.source.family() {
            Some(AddressFamily::Ipv4) => Some("icmp"@),
            Some(AddressFamily::Ipv6) => Some("ipv6-icmp"@),
            None => None,
        },
        TrafficTransportView::RawProtocol { protocol } => Some(protocol),
    }
}

/// One of the rules covers the queried port.
pub open spec fn port_listed(
    rules: Seq<PortSpecView>,
    protocol: Protocol,
    query: Option<PortSelectorView>,
) -> bool {
    match query {
        Some(q) => exists|i: int|
            0 <= i < rules.len() && (#[trigger] rules[i]).protocol == protocol
                && explain::selector_within(rules[i].port, q),
        None => false,
    }
}

/// The ports, source ports or protocols cover the scenario's transport.
pub open spec fn transport_listed(
    scenario: TrafficScenarioView,
    ports: Seq<PortSpecView>,
    source_ports: Seq<PortSpecView>,
    protocols: Seq<Seq<char>>,
) -> bool {
    match scenario.transport {
        TrafficTransportView::Tcp => {
            port_listed(ports, Protocol::Tcp, scenario.destination_port) || port_listed(
                source_ports,
                Protocol::Tcp,
                scenario.source_port,
            )
        },
        TrafficTransportView::Udp => {
            port_listed(ports, Protocol::Udp, scenario.destination_port) || port_listed(
                source_ports,
                Protocol::Udp,
                scenario.source_port,
            )
        },
        TrafficTransportView::RawProtocol { protocol } => protocols.contains(protocol),
        TrafficTransportView::Icmp { .. } => false,
    }
}

/// How a service definition applies to a scenario.
#[derive(Debug, Clone, Copy, PartialEq, Eq, Structural)]
pub enum ServiceMatch {
    /// The definition admits the traffic.
    Matched,
    /// The definition does not concern the traffic.
    NotMatched,
    /// The definition concerns the traffic in a way that is not modeled.
    Unknown,
}

impl DeepView for ServiceMatch {
    type V = ServiceMatch;

    open spec fn deep_view(&self) -> ServiceMatch {
        *self
    }
}

impl Value for ServiceMatch {
    fn same(&self, other: &Self) -> (r: bool) {
        *self == *other
    }

    fn dup(&self) -> (r: Self) {
        *self
    }
}

/// The definition restricts destinations of the given family.
pub open spec fn restricts(
    destinations: Seq<ServiceDestinationView>,
    family: AddressFamily,
) -> bool {
    exists|i: int| 0 <= i < destinations.len() && (#[trigger] destinations[i]).family == family
}

/// One of the destinations of the family covers the candidate.
pub open spec fn admits(
    destinations: Seq<ServiceDestinationView>,
    family: AddressFamily,
    candidate: SourceAddressView,
) -> bool {
    exists|i: int|
        0 <= i < destinations.len() && (#[trigger] destinations[i]).family == family && specificity(
            destinations[i].address,
            candidate,
        ) is Some
}

/// How a service definition applies to a scenario: not at all where it lists
/// neither its ports nor its protocol; unknown where helpers, modules or a
/// destination restriction without an explicit destination are in play.
pub open spec fn service_fit(
    definition: ServiceDefinitionView,
    scenario: TrafficScenarioView,
) -> ServiceMatch {
    if !transport_listed(
        scenario,
        definition.ports,
        definition.source_ports,
        definition.protocols,
    ) {
        ServiceMatch::NotMatched
    } else if definition.helpers.len() > 0 || definition.modules.len() > 0 {
        ServiceMatch::Unknown
    } else {
        match scenario.source.family() {
            None => ServiceMatch::Unknown,
            Some(family) => if !restricts(definition.destinations, family) {
                ServiceMatch::Matched
            } else {
                match scenario.destination {
                    TrafficDestinationView::LocalHost => ServiceMatch::Unknown,
                    TrafficDestinationView::Address(candidate) => if admits(
                        definition.destinations,
                        family,
                        candidate,
                    ) {
                        ServiceMatch::Matched
                    } else {
                        ServiceMatch::NotMatched
                    },
                }
            },
        }
    }
}

// ---------------------------------------------------------------------------
// Steps of the trace
// ---------------------------------------------------------------------------
/// A step without an object.
pub open spec fn step(
    stage: TrafficTraceStage,
    outcome: TrafficTraceOutcome,
) -> TrafficTraceStepView {
    TrafficTraceStepView { stage, object: None, outcome }
}

/// A step about an object.
pub open spec fn step_on(
    stage: TrafficTraceStage,
    outcome: TrafficTraceOutcome,
    object: TraceObjectRefView,
) -> TrafficTraceStepView {
    TrafficTraceStepView { stage, object: Some(object), outcome }
}

/// The step that selects a zone for the way in.
pub open spec fn selecting(zone: Seq<char>) -> TrafficTraceStepView {
    step_on(
        TrafficTraceStage::IngressResolution,
        TrafficTraceOutcome::Selected,
        TraceObjectRefView::Zone(zone),
    )
}

/// Why a feature cannot be relied upon, if it cannot.
pub open spec fn feature_objection(
    x: TrafficEvaluationIndexView,
    feature: FirewalldFeature,
) -> Option<UnknownReason> {
    match capability::support_of(capability::reported(x.snapshot.status.version), feature) {
        FeatureSupport::Supported => None,
        FeatureSupport::Unsupported => Some(UnknownReason::VersionUnsupported),
        FeatureSupport::Unknown => Some(UnknownReason::CapabilityUnavailable),
    }
}

/// The step that records whether a feature can be relied upon.
pub open spec fn feature_step(
    x: TrafficEvaluationIndexView,
    feature: FirewalldFeature,
) -> TrafficTraceStepView {
    step(
        TrafficTraceStage::CapabilityCheck,
        match feature_objection(x, feature) {
            None => TrafficTraceOutcome::Matched,
            Some(reason) => TrafficTraceOutcome::Unknown(reason),
        },
    )
}

// ---------------------------------------------------------------------------
// The way in
// ---------------------------------------------------------------------------
/// A binding that concerns the traffic: its priority, its specificity, its zone.
pub type Hit = (i16, u8, Seq<char>);

/// The source bindings that cover the candidate.
pub open spec fn source_hits(
    bindings: Seq<IndexedZoneBindingView>,
    candidate: SourceAddressView,
) -> Seq<Hit>
    decreases bindings.len(),
{
    if bindings.len() == 0 {
        Seq::empty()
    } else {
        let before = source_hits(bindings.drop_last(), candidate);
        let binding = bindings.last();
        match binding.kind {
            IndexedZoneBindingKindView::Source(source) => match specificity(source, candidate) {
                Some(length) => before.push((binding.ingress_priority, length, binding.zone)),
                None => before,
            },
            IndexedZoneBindingKindView::Interface(_) => before,
        }
    }
}

/// The bindings of the interface.
pub open spec fn interface_hits(
    bindings: Seq<IndexedZoneBindingView>,
    interface: Seq<char>,
) -> Seq<Hit>
    decreases bindings.len(),
{
    if bindings.len() == 0 {
        Seq::empty()
    } else {
        let before = interface_hits(bindings.drop_last(), interface);
        let binding = bindings.last();
        if binding.kind == IndexedZoneBindingKindView::Interface(interface) {
            before.push((binding.ingress_priority, 0, binding.zone))
        } else {
            before
        }
    }
}

/// The first hit stands before or beside the second: a lower priority number,
/// or the same and at least as specific.
pub open spec fn ahead(a: Hit, b: Hit) -> bool {
    a.0 < b.0 || (a.0 == b.0 && a.1 >= b.1)
}

/// No hit stands before this one.
pub open spec fn leads(hits: Seq<Hit>, h: Hit) -> bool {
    forall|i: int| 0 <= i < hits.len() ==> ahead(h, #[trigger] hits[i])
}

/// The hits before which no other stands.
pub open spec fn leading(hits: Seq<Hit>) -> spec_fn(Hit) -> bool {
    |h: Hit| leads(hits, h)
}

/// Priorities differ among the hits, so their order decides.
pub open spec fn priorities_differ(hits: Seq<Hit>) -> bool {
    exists|i: int, j: int|
        0 <= i < hits.len() && 0 <= j < hits.len() && (#[trigger] hits[i]).0 != (
        #[trigger] hits[j]).0
}

/// The zone that all leading hits name, if they name one.
pub open spec fn agreed_zone(hits: Seq<Hit>) -> Option<Seq<char>> {
    match lists::first(hits, leading(hits)) {
        Some(h) => if forall|i: int|
            0 <= i < hits.len() && leads(hits, #[trigger] hits[i]) ==> hits[i].2 == h.2 {
            Some(h.2)
        } else {
            None
        },
        None => None,
    }
}

/// The zone that the hits select, with the steps taken: none where there are no
/// hits; where priorities differ, firewalld must support them.
pub open spec fn selection(x: TrafficEvaluationIndexView, hits: Seq<Hit>) -> (
    Seq<TrafficTraceStepView>,
    Result<Option<Seq<char>>, UnknownReason>,
) {
    let feature = FirewalldFeature::ZonePriorities;
    let checked = if priorities_differ(hits) {
        seq![feature_step(x, feature)]
    } else {
        Seq::empty()
    };
    if hits.len() == 0 {
        (Seq::empty(), Ok(None))
    } else if priorities_differ(hits) && feature_objection(x, feature) is Some {
        (checked, Err(feature_objection(x, feature)->0))
    } else {
        match agreed_zone(hits) {
            Some(zone) => (checked.push(selecting(zone)), Ok(Some(zone))),
            None => (checked, Err(UnknownReason::AmbiguousIngressZone)),
        }
    }
}

/// A zone is bound to an ipset, whose members the index does not evaluate.
pub open spec fn binds_ipset(bindings: Seq<IndexedZoneBindingView>) -> bool {
    exists|i: int|
        0 <= i < bindings.len() && (#[trigger] bindings[i]).kind matches
            IndexedZoneBindingKindView::Source(SourceAddressView::IpSet(_))
}

/// The named zone, if the index has it.
pub open spec fn known_zone(x: TrafficEvaluationIndexView, zone: Seq<char>) -> (
    Seq<TrafficTraceStepView>,
    Result<Seq<char>, UnknownReason>,
) {
    if name_map::lookup(x.zones(), zone) is Some {
        (seq![selecting(zone)], Ok(zone))
    } else {
        (Seq::empty(), Err(UnknownReason::IncompleteSnapshot))
    }
}

/// The hits of the scenario's interface hint, if it has one.
pub open spec fn hinted_hits(x: TrafficEvaluationIndexView, scenario: TrafficScenarioView) -> Seq<
    Hit,
> {
    match scenario.ingress_interface {
        Some(interface) => interface_hits(x.zone_bindings, interface),
        None => Seq::empty(),
    }
}

/// The zone on the way in, with the steps taken: the scenario's own, else by
/// source, else by interface, else the default zone.
pub open spec fn ingress(x: TrafficEvaluationIndexView, scenario: TrafficScenarioView) -> (
    Seq<TrafficTraceStepView>,
    Result<Seq<char>, UnknownReason>,
) {
    let by_source = selection(x, source_hits(x.zone_bindings, scenario.source));
    let by_interface = selection(x, hinted_hits(x, scenario));
    if scenario.ingress_zone is Some {
        known_zone(x, scenario.ingress_zone->0)
    } else if binds_ipset(x.zone_bindings) {
        (Seq::empty(), Err(UnknownReason::CapabilityUnavailable))
    } else if by_source.1 is Err {
        (by_source.0, Err(by_source.1->Err_0))
    } else if by_source.1->Ok_0 is Some {
        (by_source.0, Ok(by_source.1->Ok_0->0))
    } else if by_interface.1 is Err {
        (by_interface.0, Err(by_interface.1->Err_0))
    } else if by_interface.1->Ok_0 is Some {
        (by_interface.0, Ok(by_interface.1->Ok_0->0))
    } else {
        known_zone(x, x.snapshot.default_zone)
    }
}

// ---------------------------------------------------------------------------
// The zone
// ---------------------------------------------------------------------------
/// The policy is in force and may handle traffic from the zone to the host.
pub open spec fn policy_concerns(
    policy: PolicyDetailsView,
    zone: Seq<char>,
    target: EvaluationTarget,
) -> bool {
    &&& !policy.disabled
    &&& target == EvaluationTarget::Permanent || policy.active
    &&& policy.ingress_zones.contains("ANY"@) || policy.ingress_zones.contains(zone)
    &&& policy.egress_zones.contains("HOST"@) || policy.egress_zones.contains("ANY"@)
}

/// The policies in force that may handle traffic from the zone to the host.
pub open spec fn concerning(zone: Seq<char>, target: EvaluationTarget) -> spec_fn(
    (Seq<char>, PolicyDetailsView),
) -> bool {
    |entry: (Seq<char>, PolicyDetailsView)| policy_concerns(entry.1, zone, target)
}

/// The step that decides in a zone.
pub open spec fn deciding(
    zone: ZoneDetailsView,
    decision: FirewallDecision,
) -> TrafficTraceStepView {
    step_on(
        TrafficTraceStage::ZoneEvaluation,
        TrafficTraceOutcome::Decision(decision),
        TraceObjectRefView::Zone(zone.name),
    )
}

/// What the zone's blocks say of one ICMP type.
pub open spec fn icmp_decision(zone: ZoneDetailsView, icmp_type: Seq<char>) -> FirewallDecision {
    if zone.icmp_blocks.contains(icmp_type) != zone.icmp_block_inversion {
        FirewallDecision::Block
    } else {
        FirewallDecision::Allow
    }
}

/// What the services from the `i`th on decide, if they decide: the first one
/// that is not resolved, matches or cannot be modeled ends the search.
pub open spec fn services_decide(
    x: TrafficEvaluationIndexView,
    scenario: TrafficScenarioView,
    zone: ZoneDetailsView,
    i: int,
) -> Option<(Seq<TrafficTraceStepView>, Result<FirewallDecision, UnknownReason>)>
    decreases zone.services.len() - i,
{
    if i < 0 || i >= zone.services.len() {
        None
    } else {
        let name = zone.services[i];
        match name_map::lookup(x.services, name) {
            None => Some((Seq::empty(), Err(UnknownReason::IncompleteServiceDefinition))),
            Some(resolution) => if resolution.failures.len() > 0 {
                Some((Seq::empty(), Err(UnknownReason::IncompleteServiceDefinition)))
            } else {
                match service_fit(resolution.effective, scenario) {
                    ServiceMatch::Matched => Some(
                        (
                            seq![
                                step_on(
                                    TrafficTraceStage::ServiceExpansion,
                                    TrafficTraceOutcome::Expanded,
                                    TraceObjectRefView::Service(name),
                                ),
                                deciding(zone, FirewallDecision::Allow),
                            ],
                            Ok(FirewallDecision::Allow),
                        ),
                    ),
                    ServiceMatch::Unknown => Some(
                        (Seq::empty(), Err(UnknownReason::UnsupportedServiceFeature)),
                    ),
                    ServiceMatch::NotMatched => services_decide(x, scenario, zone, i + 1),
                }
            },
        }
    }
}

/// What the zone's services decide, if they decide. They are known only where
/// both the services and their definitions were observed completely.
pub open spec fn offered_decide(
    x: TrafficEvaluationIndexView,
    scenario: TrafficScenarioView,
    zone: ZoneDetailsView,
) -> Option<(Seq<TrafficTraceStepView>, Result<FirewallDecision, UnknownReason>)> {
    if zone.services.len() == 0 {
        None
    } else if !x.complete(SnapshotSection::Services) || !x.complete(
        SnapshotSection::ServiceDefinitions,
    ) {
        Some((Seq::empty(), Err(UnknownReason::IncompleteSnapshot)))
    } else {
        services_decide(x, scenario, zone, 0)
    }
}

/// The step that applies the zone's target.
pub open spec fn applying_target(
    zone: ZoneDetailsView,
    decision: FirewallDecision,
) -> TrafficTraceStepView {
    step_on(
        TrafficTraceStage::TargetEvaluation,
        TrafficTraceOutcome::Decision(decision),
        TraceObjectRefView::Zone(zone.name),
    )
}

/// What the zone's target decides. The default target blocks where firewalld
/// gives it that meaning.
pub open spec fn target_decides(x: TrafficEvaluationIndexView, zone: ZoneDetailsView) -> (
    Seq<TrafficTraceStepView>,
    Result<FirewallDecision, UnknownReason>,
) {
    let feature = FirewalldFeature::DefaultTargetRejectSemantics;
    match zone.target {
        ZoneTarget::Accept => (
            seq![applying_target(zone, FirewallDecision::Allow)],
            Ok(FirewallDecision::Allow),
        ),
        ZoneTarget::Default => match feature_objection(x, feature) {
            Some(reason) => (seq![feature_step(x, feature)], Err(reason)),
            None => (
                seq![feature_step(x, feature), applying_target(zone, FirewallDecision::Block)],
                Ok(FirewallDecision::Block),
            ),
        },
        _ => (
            seq![applying_target(zone, FirewallDecision::Block)],
            Ok(FirewallDecision::Block),
        ),
    }
}

/// What the zone decides, with the steps taken: ICMP by its blocks; else its
/// ports and protocols, its services, its target.
pub open spec fn zone_decides(
    x: TrafficEvaluationIndexView,
    scenario: TrafficScenarioView,
    zone: ZoneDetailsView,
) -> (Seq<TrafficTraceStepView>, Result<FirewallDecision, UnknownReason>) {
    match scenario.transport {
        TrafficTransportView::Icmp { icmp_type } => {
            let decision = icmp_decision(zone, icmp_type);
            (seq![deciding(zone, decision)], Ok(decision))
        },
        _ => if transport_listed(scenario, zone.ports, zone.source_ports, zone.protocols) {
            (seq![deciding(zone, FirewallDecision::Allow)], Ok(FirewallDecision::Allow))
        } else {
            match offered_decide(x, scenario, zone) {
                Some(decided) => decided,
                None => target_decides(x, zone),
            }
        },
    }
}

/// How an evaluation ends.
pub enum VerdictView {
    /// A proven decision.
    Decided(FirewallDecision),
    /// No proof, for a reason that arose at a stage, perhaps about an object.
    Unproven(TrafficTraceStage, UnknownReason, Option<TraceObjectRefView>),
}

/// Why the rest of the snapshot rules out a proof about the zone, if it does:
/// direct rules, policies and rich rules are beyond the model.
pub open spec fn beyond_model(
    x: TrafficEvaluationIndexView,
    name: Seq<char>,
    zone: ZoneDetailsView,
) -> Option<VerdictView> {
    if !x.complete(SnapshotSection::DirectRules) {
        Some(
            VerdictView::Unproven(
                TrafficTraceStage::CompletenessCheck,
                UnknownReason::IncompleteSnapshot,
                Some(TraceObjectRefView::SnapshotSection(SnapshotSection::DirectRules)),
            ),
        )
    } else if x.snapshot.direct_rules.len() > 0 {
        Some(
            VerdictView::Unproven(
                TrafficTraceStage::PathResolution,
                UnknownReason::ExternalRulesOutsideModel,
                Some(TraceObjectRefView::DirectRule { index: 0 }),
            ),
        )
    } else if !x.complete(SnapshotSection::Policies) {
        Some(
            VerdictView::Unproven(
                TrafficTraceStage::CompletenessCheck,
                UnknownReason::IncompleteSnapshot,
                Some(TraceObjectRefView::SnapshotSection(SnapshotSection::Policies)),
            ),
        )
    } else if lists::first(x.policies(), concerning(name, x.target)) is Some {
        Some(
            VerdictView::Unproven(
                TrafficTraceStage::PolicyEvaluation,
                UnknownReason::UnsupportedPolicyFeature,
                Some(
                    TraceObjectRefView::Policy(
                        (lists::first(x.policies(), concerning(name, x.target))->0).1.name,
                    ),
                ),
            ),
        )
    } else if zone.rich_rules.len() > 0 {
        Some(
            VerdictView::Unproven(
                TrafficTraceStage::RichRuleEvaluation,
                UnknownReason::UnsupportedRichRule,
                Some(TraceObjectRefView::RichRule { zone: name, index: 0 }),
            ),
        )
    } else {
        None
    }
}

/// How an evaluation ends once the zone is selected, with the steps taken.
pub open spec fn zone_path(
    x: TrafficEvaluationIndexView,
    scenario: TrafficScenarioView,
    name: Seq<char>,
) -> (Seq<TrafficTraceStepView>, VerdictView) {
    match name_map::lookup(x.zones(), name) {
        None => (
            Seq::empty(),
            VerdictView::Unproven(
                TrafficTraceStage::CompletenessCheck,
                UnknownReason::IncompleteSnapshot,
                Some(TraceObjectRefView::Zone(name)),
            ),
        ),
        Some(zone) => match beyond_model(x, name, zone) {
            Some(verdict) => (Seq::empty(), verdict),
            None => {
                let decided = zone_decides(x, scenario, zone);
                match decided.1 {
                    Ok(decision) => (decided.0, VerdictView::Decided(decision)),
                    Err(reason) => (
                        decided.0,
                        VerdictView::Unproven(TrafficTraceStage::ZoneEvaluation, reason, None),
                    ),
                }
            },
        },
    }
}

/// How an evaluation ends, with all the steps taken.
pub open spec fn path(
    x: TrafficEvaluationIndexView,
    scenario: TrafficScenarioView,
    context: EvaluationContextView,
) -> (Seq<TrafficTraceStepView>, VerdictView) {
    let normalized = seq![
        step(TrafficTraceStage::ScenarioNormalization, TrafficTraceOutcome::Matched),
    ];
    let identified = normalized.push(
        step(TrafficTraceStage::IdentityCheck, TrafficTraceOutcome::Matched),
    );
    let routed = identified.push(
        step(TrafficTraceStage::PathResolution, TrafficTraceOutcome::Selected),
    );
    let zones = TraceObjectRefView::SnapshotSection(SnapshotSection::Zones);
    let observed = routed.push(
        step_on(TrafficTraceStage::CompletenessCheck, TrafficTraceOutcome::Matched, zones),
    );
    if context.target != x.target {
        (
            normalized,
            VerdictView::Unproven(
                TrafficTraceStage::IdentityCheck,
                UnknownReason::StaleSnapshot,
                None,
            ),
        )
    } else if scenario.direction != TrafficDirection::ToHost {
        (
            identified,
            VerdictView::Unproven(
                TrafficTraceStage::PathResolution,
                UnknownReason::UnsupportedDirection,
                None,
            ),
        )
    } else if scenario.connection_state != TrafficConnectionState::New {
        (
            identified,
            VerdictView::Unproven(
                TrafficTraceStage::PathResolution,
                UnknownReason::UnsupportedConnectionState,
                None,
            ),
        )
    } else if !x.complete(SnapshotSection::Zones) || !x.snapshot.status.daemon_running {
        (
            routed,
            VerdictView::Unproven(
                TrafficTraceStage::CompletenessCheck,
                UnknownReason::IncompleteSnapshot,
                Some(zones),
            ),
        )
    } else if x.target == EvaluationTarget::Runtime && x.snapshot.status.panic_mode {
        (observed, VerdictView::Decided(FirewallDecision::Block))
    } else {
        let entered = ingress(x, scenario);
        match entered.1 {
            Err(reason) => (
                observed + entered.0,
                VerdictView::Unproven(TrafficTraceStage::IngressResolution, reason, None),
            ),
            Ok(name) => {
                let ended = zone_path(x, scenario, name);
                (observed + entered.0 + ended.0, ended.1)
            },
        }
    }
}

// ---------------------------------------------------------------------------
// The result
// ---------------------------------------------------------------------------
/// Whether the decision is what the scenario expects.
pub open spec fn comparison(
    decision: FirewallDecision,
    expectation: TrafficExpectation,
) -> TrafficTraceOutcome {
    match TrafficTestStatus::of(decision, expectation) {
        TrafficTestStatus::Pass => TrafficTraceOutcome::Matched,
        TrafficTestStatus::Fail => TrafficTraceOutcome::NotMatched,
        _ => TrafficTraceOutcome::Continued,
    }
}

/// The last steps of every trace: the decision, its comparison, its status.
pub open spec fn closing(decision: FirewallDecision, expectation: TrafficExpectation) -> Seq<
    TrafficTraceStepView,
> {
    seq![
        step(TrafficTraceStage::Decision, TrafficTraceOutcome::Decision(decision)),
        step(TrafficTraceStage::ExpectationComparison, comparison(decision, expectation)),
        step(
            TrafficTraceStage::Status,
            TrafficTraceOutcome::Status(TrafficTestStatus::of(decision, expectation)),
        ),
    ]
}

/// The result of a scenario, given the steps taken and how they end.
pub open spec fn concluded(
    scenario: TrafficScenarioView,
    trace: Seq<TrafficTraceStepView>,
    verdict: VerdictView,
) -> Result<TrafficTestResultView, TrafficEvaluationErrorView> {
    let made = match verdict {
        VerdictView::Decided(decision) => TrafficTestResultView::of(
            scenario.id,
            scenario.expectation,
            decision,
            None,
            trace + closing(decision, scenario.expectation),
        ),
        VerdictView::Unproven(stage, reason, object) => TrafficTestResultView::of(
            scenario.id,
            scenario.expectation,
            FirewallDecision::Unknown,
            Some(reason),
            trace.push(
                TrafficTraceStepView {
                    stage,
                    object,
                    outcome: TrafficTraceOutcome::Unknown(reason),
                },
            ) + closing(FirewallDecision::Unknown, scenario.expectation),
        ),
    };
    match made {
        Ok(result) => Ok(result),
        Err(e) => Err(TrafficEvaluationErrorView::Report(e)),
    }
}

/// The result of a scenario against one target of a snapshot.
pub open spec fn evaluated(
    x: TrafficEvaluationIndexView,
    scenario: TrafficScenarioView,
    context: EvaluationContextView,
) -> Result<TrafficTestResultView, TrafficEvaluationErrorView> {
    if scenario.objection() is Some {
        Err(TrafficEvaluationErrorView::InvalidScenario(scenario.objection()->0))
    } else if context.objection() is Some {
        Err(TrafficEvaluationErrorView::Report(context.objection()->0))
    } else {
        let walked = path(x, scenario, context);
        concluded(scenario, walked.0, walked.1)
    }
}

// ---------------------------------------------------------------------------
// Evaluation: addresses, protocols and ports
// ---------------------------------------------------------------------------
fn max_prefix(address: IpAddr) -> (r: u8)
    ensures
        r == full_prefix(address),
{
    if address.is_ipv4() {
        32
    } else {
        128
    }
}

/// Whether `candidate` lies inside `network/prefix`. Families never mix.
pub fn cidr_contains(network: IpAddr, prefix: u8, candidate: IpAddr) -> (r: bool)
    ensures
        r == block_holds(network, prefix, candidate),
{
    if prefix <= max_prefix(network) {
        cidr::leading_bits_agree(network, candidate, prefix)
    } else {
        network.is_ipv4() == candidate.is_ipv4() && prefix % 8 == 0
    }
}

/// The prefix length of a binding that covers all of the candidate, if it
/// does. Only addresses and blocks can.
pub fn source_binding_specificity(binding: &SourceAddress, candidate: &SourceAddress) -> (r: Option<
    u8,
>)
    ensures
        r == specificity(binding.deep_view(), candidate.deep_view()),
{
    match (binding, candidate) {
        (
            SourceAddress::Ip { addr: network, prefix: length },
            SourceAddress::Ip { addr: address, prefix: width },
        ) => {
            let length: u8 = match length {
                Some(n) => *n,
                None => max_prefix(*network),
            };
            let width: u8 = match width {
                Some(n) => *n,
                None => max_prefix(*address),
            };
            if length <= width && cidr_contains(*network, length, *address) {
                Some(length)
            } else {
                None
            }
        },
        _ => None,
    }
}

/// The port protocol of a transport that has ports.
pub fn transport_protocol(transport: &TrafficTransport) -> (r: Option<Protocol>)
    ensures
        r == port_protocol(transport.deep_view()),
{
    match transport {
        TrafficTransport::Tcp => Some(Protocol::Tcp),
        TrafficTransport::Udp => Some(Protocol::Udp),
        _ => None,
    }
}

/// The IP protocol name of a scenario's traffic.
pub fn scenario_protocol(scenario: &TrafficScenario) -> (r: Option<&str>)
    ensures
        protocol_name(scenario.deep_view()) == (match r {
            Some(name) => Some(name@),
            None => None,
        }),
{
    match &scenario.transport {
        TrafficTransport::Tcp => Some("tcp"),
        TrafficTransport::Udp => Some("udp"),
        TrafficTransport::Icmp { .. } => match scenario.source.family() {
            Some(AddressFamily::Ipv4) => Some("icmp"),
            Some(AddressFamily::Ipv6) => Some("ipv6-icmp"),
            None => None,
        },
        TrafficTransport::RawProtocol { protocol } => Some(protocol.as_str()),
    }
}

fn lists_port(rules: &Vec<PortSpec>, protocol: Protocol, query: &Option<PortSelector>) -> (r: bool)
    ensures
        r == port_listed(rules.deep_view(), protocol, query.deep_view()),
{
    match query {
        Some(q) => {
            let mut i: usize = 0;
            while i < rules.len()
                invariant
                    i <= rules@.len(),
                    query.deep_view() == Some(q.deep_view()),
                    forall|j: int|
                        0 <= j < i ==> !((#[trigger] rules.deep_view()[j]).protocol == protocol
                            && explain::selector_within(rules.deep_view()[j].port, q.deep_view())),
                decreases rules.len() - i,
            {
                assert(rules.deep_view()[i as int] == rules@[i as int].deep_view());
                if rules[i].protocol == protocol && explain::selector_covers(&rules[i].port, q) {
                    return true;
                }
                i = i + 1;
            }
            false
        },
        None => false,
    }
}

fn lists_transport(
    scenario: &TrafficScenario,
    ports: &Vec<PortSpec>,
    source_ports: &Vec<PortSpec>,
    protocols: &Vec<IpProtocol>,
) -> (r: bool)
    ensures
        r == transport_listed(
            scenario.deep_view(),
            ports.deep_view(),
            source_ports.deep_view(),
            protocols.deep_view(),
        ),
{
    match &scenario.transport {
        TrafficTransport::Tcp => {
            lists_port(ports, Protocol::Tcp, &scenario.destination_port) || lists_port(
                source_ports,
                Protocol::Tcp,
                &scenario.source_port,
            )
        },
        TrafficTransport::Udp => {
            lists_port(ports, Protocol::Udp, &scenario.destination_port) || lists_port(
                source_ports,
                Protocol::Udp,
                &scenario.source_port,
            )
        },
        TrafficTransport::RawProtocol { protocol } => lists::contains(protocols, protocol),
        TrafficTransport::Icmp { .. } => false,
    }
}

fn restricts_family(destinations: &Vec<ServiceDestination>, family: AddressFamily) -> (r: bool)
    ensures
        r == restricts(destinations.deep_view(), family),
{
    let mut i: usize = 0;
    while i < destinations.len()
        invariant
            i <= destinations@.len(),
            forall|j: int|
                0 <= j < i ==> (#[trigger] destinations.deep_view()[j]).family != family,
        decreases destinations.len() - i,
    {
        assert(destinations.deep_view()[i as int] == destinations@[i as int].deep_view());
        if destinations[i].family == family {
            return true;
        }
        i = i + 1;
    }
    false
}

fn admits_candidate(
    destinations: &Vec<ServiceDestination>,
    family: AddressFamily,
    candidate: &SourceAddress,
) -> (r: bool)
    ensures
        r == admits(destinations.deep_view(), family, candidate.deep_view()),
{
    let mut i: usize = 0;
    while i < destinations.len()
        invariant
            i <= destinations@.len(),
            forall|j: int|
                0 <= j < i ==> !((#[trigger] destinations.deep_view()[j]).family == family
                    && specificity(
                    destinations.deep_view()[j].address,
                    candidate.deep_view(),
                ) is Some),
        decreases destinations.len() - i,
    {
        assert(destinations.deep_view()[i as int] == destinations@[i as int].deep_view());
        if destinations[i].family == family && source_binding_specificity(
            &destinations[i].address,
            candidate,
        ).is_some() {
            return true;
        }
        i = i + 1;
    }
    false
}

fn service_match(definition: &ServiceDefinition, scenario: &TrafficScenario) -> (r: ServiceMatch)
    ensures
        r == service_fit(definition.deep_view(), scenario.deep_view()),
{
    if !lists_transport(
        scenario,
        &definition.ports,
        &definition.source_ports,
        &definition.protocols,
    ) {
        return ServiceMatch::NotMatched;
    }
    if definition.helpers.len() > 0 || definition.modules.len() > 0 {
        return ServiceMatch::Unknown;
    }
    let family = match scenario.source.family() {
        Some(family) => family,
        None => {
            return ServiceMatch::Unknown;
        },
    };
    if !restricts_family(&definition.destinations, family) {
        return ServiceMatch::Matched;
    }
    match &scenario.destination {
        TrafficDestination::LocalHost => ServiceMatch::Unknown,
        TrafficDestination::Address(candidate) => {
            if admits_candidate(&definition.destinations, family, candidate) {
                ServiceMatch::Matched
            } else {
                ServiceMatch::NotMatched
            }
        },
    }
}

// ---------------------------------------------------------------------------
// Evaluation: the way in
// ---------------------------------------------------------------------------
fn push_step(
    trace: &mut Vec<TrafficTraceStep>,
    stage: TrafficTraceStage,
    outcome: TrafficTraceOutcome,
)
    ensures
        final(trace).deep_view() == old(trace).deep_view().push(step(stage, outcome)),
{
    lists::push(trace, TrafficTraceStep::new(stage, outcome));
}

fn push_step_on(
    trace: &mut Vec<TrafficTraceStep>,
    stage: TrafficTraceStage,
    outcome: TrafficTraceOutcome,
    object: TraceObjectRef,
)
    ensures
        final(trace).deep_view() == old(trace).deep_view().push(
            step_on(stage, outcome, object.deep_view()),
        ),
{
    lists::push(trace, TrafficTraceStep::new(stage, outcome).with_object(object));
}

fn push_selected_zone(trace: &mut Vec<TrafficTraceStep>, selected: &ZoneName)
    ensures
        final(trace).deep_view() == old(trace).deep_view().push(selecting(selected.deep_view())),
{
    push_step_on(
        trace,
        TrafficTraceStage::IngressResolution,
        TrafficTraceOutcome::Selected,
        TraceObjectRef::Zone(selected.dup()),
    );
}

fn require_capability(
    index: &TrafficEvaluationIndex,
    feature: FirewalldFeature,
    trace: &mut Vec<TrafficTraceStep>,
) -> (r: Result<(), UnknownReason>)
    ensures
        final(trace).deep_view() == old(trace).deep_view().push(
            feature_step(index.deep_view(), feature),
        ),
        r == (match feature_objection(index.deep_view(), feature) {
            None => Ok::<(), UnknownReason>(()),
            Some(reason) => Err(reason),
        }),
{
    let version = match &index.snapshot_arc().status.version {
        Some(version) => Some(version.as_str()),
        None => None,
    };
    match feature.support_for(version) {
        FeatureSupport::Supported => {
            push_step(trace, TrafficTraceStage::CapabilityCheck, TrafficTraceOutcome::Matched);
            Ok(())
        },
        FeatureSupport::Unsupported => {
            push_step(
                trace,
                TrafficTraceStage::CapabilityCheck,
                TrafficTraceOutcome::Unknown(UnknownReason::VersionUnsupported),
            );
            Err(UnknownReason::VersionUnsupported)
        },
        FeatureSupport::Unknown => {
            push_step(
                trace,
                TrafficTraceStage::CapabilityCheck,
                TrafficTraceOutcome::Unknown(UnknownReason::CapabilityUnavailable),
            );
            Err(UnknownReason::CapabilityUnavailable)
        },
    }
}

fn find_source_hits(
    bindings: &Vec<IndexedZoneBinding>,
    candidate: &SourceAddress,
) -> (r: Vec<(i16, u8, ZoneName)>)
    ensures
        r.deep_view() == source_hits(bindings.deep_view(), candidate.deep_view()),
{
    let ghost all = bindings.deep_view();
    let mut out: Vec<(i16, u8, ZoneName)> = lists::none();
    let mut i: usize = 0;
    assert(all.take(0).len() == 0);
    while i < bindings.len()
        invariant
            i <= bindings@.len(),
            all == bindings.deep_view(),
            out.deep_view() == source_hits(all.take(i as int), candidate.deep_view()),
        decreases bindings.len() - i,
    {
        assert(all.take(i + 1).drop_last() =~= all.take(i as int));
        assert(all.take(i + 1).last() == bindings@[i as int].deep_view());
        if let IndexedZoneBindingKind::Source(source) = bindings[i].kind() {
            if let Some(length) = source_binding_specificity(source, candidate) {
                let priority: i16 = bindings[i].ingress_priority().get();
                lists::push(&mut out, (priority, length, bindings[i].zone().dup()));
            }
        }
        i = i + 1;
    }
    assert(all.take(i as int) =~= all);
    out
}

fn find_interface_hits(
    bindings: &Vec<IndexedZoneBinding>,
    interface: &InterfaceName,
) -> (r: Vec<(i16, u8, ZoneName)>)
    ensures
        r.deep_view() == interface_hits(bindings.deep_view(), interface.deep_view()),
{
    let ghost all = bindings.deep_view();
    let mut out: Vec<(i16, u8, ZoneName)> = lists::none();
    let mut i: usize = 0;
    assert(all.take(0).len() == 0);
    while i < bindings.len()
        invariant
            i <= bindings@.len(),
            all == bindings.deep_view(),
            out.deep_view() == interface_hits(all.take(i as int), interface.deep_view()),
        decreases bindings.len() - i,
    {
        assert(all.take(i + 1).drop_last() =~= all.take(i as int));
        assert(all.take(i + 1).last() == bindings@[i as int].deep_view());
        if let IndexedZoneBindingKind::Interface(candidate) = bindings[i].kind() {
            if candidate.same(interface) {
                let priority: i16 = bindings[i].ingress_priority().get();
                lists::push(&mut out, (priority, 0, bindings[i].zone().dup()));
            }
        }
        i = i + 1;
    }
    assert(all.take(i as int) =~= all);
    out
}

/// Whether the priorities differ. It is enough to compare with the first.
fn have_different_priorities(hits: &Vec<(i16, u8, ZoneName)>) -> (r: bool)
    ensures
        r == priorities_differ(hits.deep_view()),
{
    let ghost all = hits.deep_view();
    let mut i: usize = 0;
    while i < hits.len()
        invariant
            i <= hits@.len(),
            all == hits.deep_view(),
            forall|j: int| 0 <= j < i ==> (#[trigger] all[j]).0 == all[0].0,
        decreases hits.len() - i,
    {
        assert(all[i as int] == hits@[i as int].deep_view());
        assert(all[0] == hits@[0].deep_view());
        if hits[i].0 != hits[0].0 {
            return true;
        }
        i = i + 1;
    }
    false
}

/// The position of a hit before which no other stands.
fn find_leader(hits: &Vec<(i16, u8, ZoneName)>) -> (r: usize)
    requires
        hits.deep_view().len() > 0,
    ensures
        r < hits.deep_view().len(),
        leads(hits.deep_view(), hits.deep_view()[r as int]),
{
    let ghost all = hits.deep_view();
    let mut best: usize = 0;
    let mut i: usize = 0;
    while i < hits.len()
        invariant
            i <= hits@.len(),
            best < hits@.len(),
            all == hits.deep_view(),
            forall|j: int| 0 <= j < i ==> ahead(all[best as int], #[trigger] all[j]),
        decreases hits.len() - i,
    {
        assert(all[i as int] == hits@[i as int].deep_view());
        assert(all[best as int] == hits@[best as int].deep_view());
        if hits[i].0 < hits[best].0 || (hits[i].0 == hits[best].0 && hits[i].1 > hits[best].1) {
            best = i;
        }
        i = i + 1;
    }
    best
}

/// The zone that all leading hits name, if they name one.
fn exactly_one_zone(hits: &Vec<(i16, u8, ZoneName)>) -> (r: Option<ZoneName>)
    requires
        hits.deep_view().len() > 0,
    ensures
        r.deep_view() == agreed_zone(hits.deep_view()),
{
    let ghost all = hits.deep_view();
    let best: usize = find_leader(hits);
    let ghost leader = all[best as int];
    proof {
        lists::first_facts(all, leading(all));
        assert(leading(all)(leader));
    }
    assert(leader == hits@[best as int].deep_view());
    let mut i: usize = 0;
    while i < hits.len()
        invariant
            i <= hits@.len(),
            best < hits@.len(),
            all == hits.deep_view(),
            leader == all[best as int],
            leader == hits@[best as int].deep_view(),
            leads(all, leader),
            forall|j: int|
                0 <= j < i && leads(all, #[trigger] all[j]) ==> all[j].2 == leader.2,
            lists::first(all, leading(all)) matches Some(h) && leads(all, h) && all.contains(h),
        decreases hits.len() - i,
    {
        assert(all[i as int] == hits@[i as int].deep_view());
        if hits[i].0 == hits[best].0 && hits[i].1 == hits[best].1 && !hits[i].2.same(
            &hits[best].2,
        ) {
            proof {
                let h = lists::first(all, leading(all))->0;
                assert(leads(all, all[i as int]));
                assert(leads(all, all[best as int]));
                assert(agreed_zone(all) is None);
            }
            return None;
        }
        i = i + 1;
    }
    proof {
        let h = lists::first(all, leading(all))->0;
        let k = choose|k: int| 0 <= k < all.len() && all[k] == h;
        assert(leads(all, all[k]));
    }
    Some(hits[best].2.dup())
}

fn resolve_hits(
    index: &TrafficEvaluationIndex,
    hits: &Vec<(i16, u8, ZoneName)>,
    trace: &mut Vec<TrafficTraceStep>,
) -> (r: Result<Option<ZoneName>, UnknownReason>)
    ensures
        final(trace).deep_view() == old(trace).deep_view() + selection(
            index.deep_view(),
            hits.deep_view(),
        ).0,
        model::outcome(r) == selection(index.deep_view(), hits.deep_view()).1,
{
    let ghost before = trace.deep_view();
    let ghost chosen = selection(index.deep_view(), hits.deep_view());
    if hits.len() == 0 {
        assert(before + chosen.0 =~= before);
        return Ok(None);
    }
    if have_different_priorities(hits) {
        if let Err(reason) = require_capability(index, FirewalldFeature::ZonePriorities, trace) {
            assert(trace.deep_view() =~= before + chosen.0);
            return Err(reason);
        }
    }
    match exactly_one_zone(hits) {
        Some(selected) => {
            push_selected_zone(trace, &selected);
            assert(trace.deep_view() =~= before + chosen.0);
            Ok(Some(selected))
        },
        None => {
            assert(trace.deep_view() =~= before + chosen.0);
            Err(UnknownReason::AmbiguousIngressZone)
        },
    }
}

fn has_ipset_binding(bindings: &Vec<IndexedZoneBinding>) -> (r: bool)
    ensures
        r == binds_ipset(bindings.deep_view()),
{
    let ghost all = bindings.deep_view();
    let mut i: usize = 0;
    while i < bindings.len()
        invariant
            i <= bindings@.len(),
            all == bindings.deep_view(),
            forall|j: int|
                0 <= j < i ==> !((#[trigger] all[j]).kind matches
                    IndexedZoneBindingKindView::Source(SourceAddressView::IpSet(_))),
        decreases bindings.len() - i,
    {
        assert(all[i as int] == bindings@[i as int].deep_view());
        if let IndexedZoneBindingKind::Source(SourceAddress::IpSet(_)) = bindings[i].kind() {
            return true;
        }
        i = i + 1;
    }
    false
}

fn select_known_zone(
    index: &TrafficEvaluationIndex,
    zone: &ZoneName,
    trace: &mut Vec<TrafficTraceStep>,
) -> (r: Result<ZoneName, UnknownReason>)
    ensures
        final(trace).deep_view() == old(trace).deep_view() + known_zone(
            index.deep_view(),
            zone.deep_view(),
        ).0,
        model::outcome(r) == known_zone(index.deep_view(), zone.deep_view()).1,
{
    let ghost before = trace.deep_view();
    let ghost chosen = known_zone(index.deep_view(), zone.deep_view());
    if index.zone(zone).is_none() {
        assert(before + chosen.0 =~= before);
        return Err(UnknownReason::IncompleteSnapshot);
    }
    push_selected_zone(trace, zone);
    assert(trace.deep_view() =~= before + chosen.0);
    Ok(zone.dup())
}

fn resolve_ingress(
    index: &TrafficEvaluationIndex,
    scenario: &TrafficScenario,
    trace: &mut Vec<TrafficTraceStep>,
) -> (r: Result<ZoneName, UnknownReason>)
    ensures
        final(trace).deep_view() == old(trace).deep_view() + ingress(
            index.deep_view(),
            scenario.deep_view(),
        ).0,
        model::outcome(r) == ingress(index.deep_view(), scenario.deep_view()).1,
{
    let ghost before = trace.deep_view();
    if let Some(explicit) = &scenario.ingress_zone {
        return select_known_zone(index, explicit, trace);
    }
    if has_ipset_binding(index.zone_bindings()) {
        assert(before + Seq::<TrafficTraceStepView>::empty() =~= before);
        return Err(UnknownReason::CapabilityUnavailable);
    }
    let by_source = find_source_hits(index.zone_bindings(), &scenario.source);
    match resolve_hits(index, &by_source, trace) {
        Err(reason) => {
            return Err(reason);
        },
        Ok(Some(selected)) => {
            return Ok(selected);
        },
        Ok(None) => {},
    }
    assert(trace.deep_view() =~= before);
    if let Some(interface) = &scenario.ingress_interface {
        let by_interface = find_interface_hits(index.zone_bindings(), interface);
        match resolve_hits(index, &by_interface, trace) {
            Err(reason) => {
                return Err(reason);
            },
            Ok(Some(selected)) => {
                return Ok(selected);
            },
            Ok(None) => {},
        }
    }
    assert(trace.deep_view() =~= before);
    select_known_zone(index, &index.snapshot_arc().default_zone, trace)
}

// ---------------------------------------------------------------------------
// Evaluation: the zone
// ---------------------------------------------------------------------------
fn lists_zone(zones: &Vec<String>, name: &str) -> (r: bool)
    ensures
        r == zones.deep_view().contains(name@),
{
    let mut i: usize = 0;
    while i < zones.len()
        invariant
            i <= zones@.len(),
            forall|j: int| 0 <= j < i ==> zones.deep_view()[j] != name@,
        decreases zones.len() - i,
    {
        if text::same(zones[i].as_str(), name) {
            assert(zones.deep_view()[i as int] == name@);
            return true;
        }
        i = i + 1;
    }
    false
}

fn policy_may_apply(
    policy: &PolicyDetails,
    ingress_zone: &ZoneName,
    target: EvaluationTarget,
) -> (r: bool)
    ensures
        r == policy_concerns(policy.deep_view(), ingress_zone.deep_view(), target),
{
    !policy.disabled && (target == EvaluationTarget::Permanent || policy.active) && (lists_zone(
        &policy.ingress_zones,
        "ANY",
    ) || lists_zone(&policy.ingress_zones, ingress_zone.as_str())) && (lists_zone(
        &policy.egress_zones,
        "HOST",
    ) || lists_zone(&policy.egress_zones, "ANY"))
}

fn find_policy<'a>(index: &'a TrafficEvaluationIndex, zone: &ZoneName) -> (r: Option<
    &'a PolicyDetails,
>)
    ensures
        match r {
            Some(policy) => lists::first(
                index.deep_view().policies(),
                concerning(zone.deep_view(), index.deep_view().target),
            ) matches Some(entry) && entry.1 == policy.deep_view(),
            None => lists::first(
                index.deep_view().policies(),
                concerning(zone.deep_view(), index.deep_view().target),
            ) is None,
        },
{
    let policies = index.policies();
    let target = index.target();
    let ghost all = index.deep_view().policies();
    let ghost wanted = concerning(zone.deep_view(), target);
    let mut i: usize = 0;
    assert(all.skip(0) =~= all);
    while i < policies.len()
        invariant
            i <= all.len(),
            all == policies.deep_view(),
            all == index.deep_view().policies(),
            target == index.deep_view().target,
            wanted == concerning(zone.deep_view(), target),
            lists::first(all, wanted) == lists::first(all.skip(i as int), wanted),
        decreases all.len() - i,
    {
        assert(all.skip(i as int)[0] == all[i as int]);
        if policy_may_apply(policies.value(i), zone, target) {
            return Some(policies.value(i));
        }
        assert(all.skip(i as int).skip(1) =~= all.skip(i + 1));
        i = i + 1;
    }
    None
}

fn push_decision(trace: &mut Vec<TrafficTraceStep>, zone: &ZoneDetails, decision: FirewallDecision)
    ensures
        final(trace).deep_view() == old(trace).deep_view().push(
            deciding(zone.deep_view(), decision),
        ),
{
    push_step_on(
        trace,
        TrafficTraceStage::ZoneEvaluation,
        TrafficTraceOutcome::Decision(decision),
        TraceObjectRef::Zone(zone.name.dup()),
    );
}

fn evaluate_icmp(zone: &ZoneDetails, icmp_type: &IcmpType) -> (r: FirewallDecision)
    ensures
        r == icmp_decision(zone.deep_view(), icmp_type.deep_view()),
{
    if lists::contains(&zone.icmp_blocks, icmp_type) != zone.icmp_block_inversion {
        FirewallDecision::Block
    } else {
        FirewallDecision::Allow
    }
}

fn evaluate_services(
    index: &TrafficEvaluationIndex,
    scenario: &TrafficScenario,
    zone: &ZoneDetails,
    trace: &mut Vec<TrafficTraceStep>,
) -> (r: Option<Result<FirewallDecision, UnknownReason>>)
    ensures
        match services_decide(index.deep_view(), scenario.deep_view(), zone.deep_view(), 0) {
            Some(decided) => r == Some(decided.1) && final(trace).deep_view() == old(
                trace,
            ).deep_view() + decided.0,
            None => r is None && final(trace).deep_view() == old(trace).deep_view(),
        },
{
    let ghost x = index.deep_view();
    let ghost s = scenario.deep_view();
    let ghost z = zone.deep_view();
    let ghost before = trace.deep_view();
    let ghost decided = services_decide(x, s, z, 0);
    assert(before + Seq::<TrafficTraceStepView>::empty() =~= before);
    let mut i: usize = 0;
    while i < zone.services.len()
        invariant
            i <= zone.services@.len(),
            x == index.deep_view(),
            s == scenario.deep_view(),
            z == zone.deep_view(),
            trace.deep_view() == before,
            before == old(trace).deep_view(),
            before + Seq::<TrafficTraceStepView>::empty() == before,
            decided == services_decide(x, s, z, 0),
            decided == services_decide(x, s, z, i as int),
        decreases zone.services.len() - i,
    {
        let name = &zone.services[i];
        assert(z.services[i as int] == name.deep_view());
        match index.service(name) {
            None => {
                return Some(Err(UnknownReason::IncompleteServiceDefinition));
            },
            Some(resolution) => {
                if resolution.failures.len() > 0 {
                    return Some(Err(UnknownReason::IncompleteServiceDefinition));
                }
                match service_match(&resolution.effective, scenario) {
                    ServiceMatch::Matched => {
                        push_step_on(
                            trace,
                            TrafficTraceStage::ServiceExpansion,
                            TrafficTraceOutcome::Expanded,
                            TraceObjectRef::Service(name.dup()),
                        );
                        push_decision(trace, zone, FirewallDecision::Allow);
                        assert(trace.deep_view() =~= before + (decided->0).0);
                        return Some(Ok(FirewallDecision::Allow));
                    },
                    ServiceMatch::Unknown => {
                        return Some(Err(UnknownReason::UnsupportedServiceFeature));
                    },
                    ServiceMatch::NotMatched => {},
                }
            },
        }
        i = i + 1;
    }
    None
}

fn push_target(trace: &mut Vec<TrafficTraceStep>, zone: &ZoneDetails, decision: FirewallDecision)
    ensures
        final(trace).deep_view() == old(trace).deep_view().push(
            applying_target(zone.deep_view(), decision),
        ),
{
    push_step_on(
        trace,
        TrafficTraceStage::TargetEvaluation,
        TrafficTraceOutcome::Decision(decision),
        TraceObjectRef::Zone(zone.name.dup()),
    );
}

fn evaluate_target(
    index: &TrafficEvaluationIndex,
    zone: &ZoneDetails,
    trace: &mut Vec<TrafficTraceStep>,
) -> (r: Result<FirewallDecision, UnknownReason>)
    ensures
        final(trace).deep_view() == old(trace).deep_view() + target_decides(
            index.deep_view(),
            zone.deep_view(),
        ).0,
        r == target_decides(index.deep_view(), zone.deep_view()).1,
{
    let ghost before = trace.deep_view();
    let ghost decided = target_decides(index.deep_view(), zone.deep_view());
    let decision = match zone.target {
        ZoneTarget::Accept => FirewallDecision::Allow,
        ZoneTarget::Drop => FirewallDecision::Block,
        ZoneTarget::Reject => FirewallDecision::Block,
        ZoneTarget::Default => {
            if let Err(reason) = require_capability(
                index,
                FirewalldFeature::DefaultTargetRejectSemantics,
                trace,
            ) {
                assert(trace.deep_view() =~= before + decided.0);
                return Err(reason);
            }
            FirewallDecision::Block
        },
    };
    push_target(trace, zone, decision);
    assert(trace.deep_view() =~= before + decided.0);
    Ok(decision)
}

fn evaluate_zone(
    index: &TrafficEvaluationIndex,
    scenario: &TrafficScenario,
    zone: &ZoneDetails,
    trace: &mut Vec<TrafficTraceStep>,
) -> (r: Result<FirewallDecision, UnknownReason>)
    ensures
        final(trace).deep_view() == old(trace).deep_view() + zone_decides(
            index.deep_view(),
            scenario.deep_view(),
            zone.deep_view(),
        ).0,
        r == zone_decides(index.deep_view(), scenario.deep_view(), zone.deep_view()).1,
{
    let ghost before = trace.deep_view();
    let ghost decided = zone_decides(index.deep_view(), scenario.deep_view(), zone.deep_view());
    if let TrafficTransport::Icmp { icmp_type } = &scenario.transport {
        let decision = evaluate_icmp(zone, icmp_type);
        push_decision(trace, zone, decision);
        assert(trace.deep_view() =~= before + decided.0);
        return Ok(decision);
    }
    if lists_transport(scenario, &zone.ports, &zone.source_ports, &zone.protocols) {
        push_decision(trace, zone, FirewallDecision::Allow);
        assert(trace.deep_view() =~= before + decided.0);
        return Ok(FirewallDecision::Allow);
    }
    if zone.services.len() > 0 {
        if !index.section_is_complete(SnapshotSection::Services) || !index.section_is_complete(
            SnapshotSection::ServiceDefinitions,
        ) {
            assert(trace.deep_view() =~= before + decided.0);
            return Err(UnknownReason::IncompleteSnapshot);
        }
        if let Some(outcome) = evaluate_services(index, scenario, zone, trace) {
            return outcome;
        }
    }
    evaluate_target(index, zone, trace)
}

// ---------------------------------------------------------------------------
// Evaluation: the result
// ---------------------------------------------------------------------------
fn comparison_outcome(
    decision: FirewallDecision,
    expectation: TrafficExpectation,
) -> (r: TrafficTraceOutcome)
    ensures
        r == comparison(decision, expectation),
{
    match TrafficTestStatus::from_decision(decision, expectation) {
        TrafficTestStatus::Pass => TrafficTraceOutcome::Matched,
        TrafficTestStatus::Fail => TrafficTraceOutcome::NotMatched,
        _ => TrafficTraceOutcome::Continued,
    }
}

fn finish(
    scenario: &TrafficScenario,
    trace: Vec<TrafficTraceStep>,
    decision: FirewallDecision,
    reason: Option<UnknownReason>,
) -> (r: Result<TrafficTestResult, TrafficEvaluationError>)
    ensures
        model::outcome(r) == (match TrafficTestResultView::of(
            scenario.deep_view().id,
            scenario.deep_view().expectation,
            decision,
            reason.deep_view(),
            trace.deep_view() + closing(decision, scenario.deep_view().expectation),
        ) {
            Ok(result) => Ok(result),
            Err(e) => Err(TrafficEvaluationErrorView::Report(e)),
        }),
{
    let mut trace = trace;
    let ghost before = trace.deep_view();
    let status = TrafficTestStatus::from_decision(decision, scenario.expectation);
    push_step(
        &mut trace,
        TrafficTraceStage::Decision,
        TrafficTraceOutcome::Decision(decision),
    );
    push_step(
        &mut trace,
        TrafficTraceStage::ExpectationComparison,
        comparison_outcome(decision, scenario.expectation),
    );
    push_step(&mut trace, TrafficTraceStage::Status, TrafficTraceOutcome::Status(status));
    assert(trace.deep_view() =~= before + closing(decision, scenario.deep_view().expectation));
    match TrafficTestResult::new(
        scenario.id.dup(),
        scenario.expectation,
        decision,
        reason,
        trace,
    ) {
        Ok(result) => Ok(result),
        Err(e) => Err(TrafficEvaluationError::Report(e)),
    }
}

fn unknown(
    scenario: &TrafficScenario,
    trace: Vec<TrafficTraceStep>,
    stage: TrafficTraceStage,
    reason: UnknownReason,
) -> (r: Result<TrafficTestResult, TrafficEvaluationError>)
    ensures
        model::outcome(r) == concluded(
            scenario.deep_view(),
            trace.deep_view(),
            VerdictView::Unproven(stage, reason, None),
        ),
{
    let mut trace = trace;
    push_step(&mut trace, stage, TrafficTraceOutcome::Unknown(reason));
    finish(scenario, trace, FirewallDecision::Unknown, Some(reason))
}

fn unknown_with_object(
    scenario: &TrafficScenario,
    trace: Vec<TrafficTraceStep>,
    stage: TrafficTraceStage,
    reason: UnknownReason,
    object: TraceObjectRef,
) -> (r: Result<TrafficTestResult, TrafficEvaluationError>)
    ensures
        model::outcome(r) == concluded(
            scenario.deep_view(),
            trace.deep_view(),
            VerdictView::Unproven(stage, reason, Some(object.deep_view())),
        ),
{
    let mut trace = trace;
    push_step_on(&mut trace, stage, TrafficTraceOutcome::Unknown(reason), object);
    finish(scenario, trace, FirewallDecision::Unknown, Some(reason))
}

/// Evaluates a scenario in the zone that its traffic enters, behind the steps
/// that selected it.
pub fn evaluate_selected_zone(
    index: &TrafficEvaluationIndex,
    scenario: &TrafficScenario,
    selected_zone: ZoneName,
    trace: Vec<TrafficTraceStep>,
) -> (r: Result<TrafficTestResult, TrafficEvaluationError>)
    ensures
        ({
            let ended = zone_path(
                index.deep_view(),
                scenario.deep_view(),
                selected_zone.deep_view(),
            );
            model::outcome(r) == concluded(
                scenario.deep_view(),
                trace.deep_view() + ended.0,
                ended.1,
            )
        }),
{
    let mut trace = trace;
    let ghost before = trace.deep_view();
    assert(before + Seq::<TrafficTraceStepView>::empty() =~= before);
    let zone = match index.zone(&selected_zone) {
        Some(zone) => zone,
        None => {
            return unknown_with_object(
                scenario,
                trace,
                TrafficTraceStage::CompletenessCheck,
                UnknownReason::IncompleteSnapshot,
                TraceObjectRef::Zone(selected_zone),
            );
        },
    };
    if !index.section_is_complete(SnapshotSection::DirectRules) {
        return unknown_with_object(
            scenario,
            trace,
            TrafficTraceStage::CompletenessCheck,
            UnknownReason::IncompleteSnapshot,
            TraceObjectRef::SnapshotSection(SnapshotSection::DirectRules),
        );
    }
    if index.has_direct_rules() {
        return unknown_with_object(
            scenario,
            trace,
            TrafficTraceStage::PathResolution,
            UnknownReason::ExternalRulesOutsideModel,
            TraceObjectRef::DirectRule { index: 0 },
        );
    }
    if !index.section_is_complete(SnapshotSection::Policies) {
        return unknown_with_object(
            scenario,
            trace,
            TrafficTraceStage::CompletenessCheck,
            UnknownReason::IncompleteSnapshot,
            TraceObjectRef::SnapshotSection(SnapshotSection::Policies),
        );
    }
    if let Some(policy) = find_policy(index, &selected_zone) {
        return unknown_with_object(
            scenario,
            trace,
            TrafficTraceStage::PolicyEvaluation,
            UnknownReason::UnsupportedPolicyFeature,
            TraceObjectRef::Policy(policy.name.dup()),
        );
    }
    if zone.rich_rules.len() > 0 {
        return unknown_with_object(
            scenario,
            trace,
            TrafficTraceStage::RichRuleEvaluation,
            UnknownReason::UnsupportedRichRule,
            TraceObjectRef::RichRule { zone: selected_zone, index: 0 },
        );
    }
    match evaluate_zone(index, scenario, zone, &mut trace) {
        Ok(decision) => finish(scenario, trace, decision, None),
        Err(reason) => unknown(scenario, trace, TrafficTraceStage::ZoneEvaluation, reason),
    }
}

/// Evaluates one validated scenario against one immutable target-specific index.
pub fn evaluate_scenario(
    index: &TrafficEvaluationIndex,
    scenario: &TrafficScenario,
    context: &EvaluationContext,
) -> (r: Result<TrafficTestResult, TrafficEvaluationError>)
    ensures
        model::outcome(r) == evaluated(
            index.deep_view(),
            scenario.deep_view(),
            context.deep_view(),
        ),
{
    if let Err(e) = scenario.validate() {
        return Err(TrafficEvaluationError::InvalidScenario(e));
    }
    if let Err(e) = context.validate() {
        return Err(TrafficEvaluationError::Report(e));
    }
    let ghost walked = path(index.deep_view(), scenario.deep_view(), context.deep_view());
    let mut trace: Vec<TrafficTraceStep> = lists::none();
    push_step(&mut trace, TrafficTraceStage::ScenarioNormalization, TrafficTraceOutcome::Matched);
    if context.target != index.target() {
        assert(trace.deep_view() =~= walked.0);
        return unknown(
            scenario,
            trace,
            TrafficTraceStage::IdentityCheck,
            UnknownReason::StaleSnapshot,
        );
    }
    push_step(&mut trace, TrafficTraceStage::IdentityCheck, TrafficTraceOutcome::Matched);
    if scenario.direction != TrafficDirection::ToHost {
        assert(trace.deep_view() =~= walked.0);
        return unknown(
            scenario,
            trace,
            TrafficTraceStage::PathResolution,
            UnknownReason::UnsupportedDirection,
        );
    }
    if scenario.connection_state != TrafficConnectionState::New {
        assert(trace.deep_view() =~= walked.0);
        return unknown(
            scenario,
            trace,
            TrafficTraceStage::PathResolution,
            UnknownReason::UnsupportedConnectionState,
        );
    }
    push_step(&mut trace, TrafficTraceStage::PathResolution, TrafficTraceOutcome::Selected);
    if !index.section_is_complete(SnapshotSection::Zones)
        || !index.snapshot_arc().status.daemon_running {
        assert(trace.deep_view() =~= walked.0);
        return unknown_with_object(
            scenario,
            trace,
            TrafficTraceStage::CompletenessCheck,
            UnknownReason::IncompleteSnapshot,
            TraceObjectRef::SnapshotSection(SnapshotSection::Zones),
        );
    }
    push_step_on(
        &mut trace,
        TrafficTraceStage::CompletenessCheck,
        TrafficTraceOutcome::Matched,
        TraceObjectRef::SnapshotSection(SnapshotSection::Zones),
    );
    if index.target() == EvaluationTarget::Runtime && index.snapshot_arc().status.panic_mode {
        assert(trace.deep_view() =~= walked.0);
        return finish(scenario, trace, FirewallDecision::Block, None);
    }
    let ghost observed = trace.deep_view();
    match resolve_ingress(index, scenario, &mut trace) {
        Err(reason) => {
            assert(trace.deep_view() =~= walked.0);
            unknown(scenario, trace, TrafficTraceStage::IngressResolution, reason)
        },
        Ok(selected_zone) => {
            let ghost entered = trace.deep_view();
            assert(entered + zone_path(
                index.deep_view(),
                scenario.deep_view(),
                selected_zone.deep_view(),
            ).0 =~= walked.0);
            evaluate_selected_zone(index, scenario, selected_zone, trace)
        },
    }
}

// ---------------------------------------------------------------------------
// What every evaluation guarantees
// ---------------------------------------------------------------------------
proof fn services_steps(
    x: TrafficEvaluationIndexView,
    scenario: TrafficScenarioView,
    zone: ZoneDetailsView,
    i: int,
)
    ensures
        services_decide(x, scenario, zone, i) matches Some(decided) ==> decided.0.len() <= 2,
    decreases zone.services.len() - i,
{
    if 0 <= i < zone.services.len() {
        services_steps(x, scenario, zone, i + 1);
    }
}

proof fn path_steps(
    x: TrafficEvaluationIndexView,
    scenario: TrafficScenarioView,
    context: EvaluationContextView,
)
    ensures
        path(x, scenario, context).0.len() <= 8,
{
    let entered = ingress(x, scenario);
    assert(selection(x, source_hits(x.zone_bindings, scenario.source)).0.len() <= 2);
    assert(selection(x, hinted_hits(x, scenario)).0.len() <= 2);
    assert(entered.0.len() <= 2);
    if entered.1 is Ok {
        let name = entered.1->Ok_0;
        if name_map::lookup(x.zones(), name) is Some {
            let zone = name_map::lookup(x.zones(), name)->0;
            services_steps(x, scenario, zone, 0);
            assert(zone_decides(x, scenario, zone).0.len() <= 2);
        }
        assert(zone_path(x, scenario, name).0.len() <= 2);
    }
}

/// A valid scenario in a valid context always gets a result, and the result is
/// that of the path that the evaluation takes.
pub proof fn evaluation_concludes(
    x: TrafficEvaluationIndexView,
    scenario: TrafficScenarioView,
    context: EvaluationContextView,
)
    requires
        scenario.objection() is None,
        context.objection() is None,
    ensures
        evaluated(x, scenario, context) matches Ok(result) && result.scenario_id == scenario.id
            && result.expectation == scenario.expectation && result.consistent(),
        evaluated(x, scenario, context)->Ok_0.decision == (match path(x, scenario, context).1 {
            VerdictView::Decided(decision) => decision,
            VerdictView::Unproven(_, _, _) => FirewallDecision::Unknown,
        }),
        path(x, scenario, context).1 matches VerdictView::Unproven(_, reason, _) ==> evaluated(
            x,
            scenario,
            context,
        )->Ok_0.unknown_reason == Some(reason),
{
    path_steps(x, scenario, context);
    never_decided_unknown(x, scenario, context);
}

proof fn services_decide_known(
    x: TrafficEvaluationIndexView,
    scenario: TrafficScenarioView,
    zone: ZoneDetailsView,
    i: int,
)
    ensures
        services_decide(x, scenario, zone, i) matches Some(decided) ==> decided.1 != Ok::<
            FirewallDecision,
            UnknownReason,
        >(FirewallDecision::Unknown),
    decreases zone.services.len() - i,
{
    if 0 <= i < zone.services.len() {
        services_decide_known(x, scenario, zone, i + 1);
    }
}

proof fn never_decided_unknown(
    x: TrafficEvaluationIndexView,
    scenario: TrafficScenarioView,
    context: EvaluationContextView,
)
    ensures
        path(x, scenario, context).1 != VerdictView::Decided(FirewallDecision::Unknown),
{
    let entered = ingress(x, scenario);
    if entered.1 is Ok {
        let name = entered.1->Ok_0;
        if name_map::lookup(x.zones(), name) is Some {
            services_decide_known(x, scenario, name_map::lookup(x.zones(), name)->0, 0);
        }
    }
}

/// Evidence that does not belong to the context, a path that is not modeled,
/// or zones that were not observed never lead to a decision.
pub proof fn no_decision_without_evidence(
    x: TrafficEvaluationIndexView,
    scenario: TrafficScenarioView,
    context: EvaluationContextView,
)
    requires
        evaluated(x, scenario, context) is Ok,
        context.target != x.target || scenario.direction != TrafficDirection::ToHost
            || scenario.connection_state != TrafficConnectionState::New || !x.complete(
            SnapshotSection::Zones,
        ) || !x.snapshot.status.daemon_running,
    ensures
        evaluated(x, scenario, context)->Ok_0.decision == FirewallDecision::Unknown,
        evaluated(x, scenario, context)->Ok_0.status == TrafficTestStatus::Indeterminate,
{
}

/// Panic mode blocks runtime traffic whatever the zones say.
pub proof fn panic_mode_blocks(
    x: TrafficEvaluationIndexView,
    scenario: TrafficScenarioView,
    context: EvaluationContextView,
)
    requires
        scenario.objection() is None,
        context.objection() is None,
        context.target == x.target,
        scenario.direction == TrafficDirection::ToHost,
        scenario.connection_state == TrafficConnectionState::New,
        x.complete(SnapshotSection::Zones),
        x.snapshot.status.daemon_running,
        x.target == EvaluationTarget::Runtime,
        x.snapshot.status.panic_mode,
    ensures
        evaluated(x, scenario, context) matches Ok(result) && result.decision
            == FirewallDecision::Block,
{
}

/// A scenario is found allowed only on complete evidence: a zone on the way in
/// that the snapshot holds, with no rich rules, no policy in force that may
/// handle the traffic, no direct rules, and none of these unobserved.
pub proof fn allowed_only_on_complete_evidence(
    x: TrafficEvaluationIndexView,
    scenario: TrafficScenarioView,
    context: EvaluationContextView,
)
    requires
        evaluated(x, scenario, context) matches Ok(result) && result.decision
            == FirewallDecision::Allow,
    ensures
        x.complete(SnapshotSection::Zones),
        x.complete(SnapshotSection::DirectRules),
        x.complete(SnapshotSection::Policies),
        x.snapshot.status.daemon_running,
        x.snapshot.direct_rules.len() == 0,
        !(x.target == EvaluationTarget::Runtime && x.snapshot.status.panic_mode),
        ingress(x, scenario).1 matches Ok(name) && name_map::lookup(x.zones(), name) matches Some(
            zone,
        ) && zone.rich_rules.len() == 0 && forall|i: int|
            0 <= i < x.policies().len() ==> !policy_concerns(
                (#[trigger] x.policies()[i]).1,
                name,
                x.target,
            ),
{
    path_steps(x, scenario, context);
    let entered = ingress(x, scenario);
    if entered.1 is Ok {
        let name = entered.1->Ok_0;
        let wanted = concerning(name, x.target);
        lists::first_facts(x.policies(), wanted);
        assert forall|i: int| 0 <= i < x.policies().len() implies !policy_concerns(
            (#[trigger] x.policies()[i]).1,
            name,
            x.target,
        ) by {
            if policy_concerns(x.policies()[i].1, name, x.target) {
                assert(wanted(x.policies()[i]));
            }
        }
    }
}

} // verus!
