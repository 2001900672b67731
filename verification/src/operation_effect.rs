//! Exhaustive traffic-testing metadata for every firewall mutation.

use vstd::prelude::*;

use crate::address::{IpSetEntry, SourceAddress, SourceAddressView};
use crate::ids::{
    IcmpType, InterfaceName, IpProtocol, IpSetName, PolicyName, PolicySetName, ServiceName,
    ZoneName,
};
use crate::model::Value;
use crate::operation::{FirewallOperation, FirewallOperationView};
use crate::port::{ForwardPort, ForwardPortView, PortSpec, PortSpecView};
use crate::rich_rule;
use crate::rich_rule::{RichRule, RichRuleAnalysis, RichRuleAnalysisView};
use crate::snapshot::ConfigurationTarget;

pub mod meaning;

verus! {

/// Typed proof that an operation does not affect packet decisions.
#[derive(Debug, Clone, Copy, PartialEq, Eq, Structural)]
pub enum TrafficIrrelevanceProof {
    /// A logging-only effect with no configuration lifecycle side effect.
    LoggingSideEffectOnly,
}

impl DeepView for TrafficIrrelevanceProof {
    type V = TrafficIrrelevanceProof;

    open spec fn deep_view(&self) -> TrafficIrrelevanceProof {
        *self
    }
}

impl Value for TrafficIrrelevanceProof {
    fn same(&self, other: &Self) -> (r: bool) {
        *self == *other
    }

    fn dup(&self) -> (r: Self) {
        *self
    }
}

/// Why a traffic-relevant mutation cannot be projected exactly.
#[derive(Debug, Clone, Copy, PartialEq, Eq, Structural)]
pub enum UnsupportedOperationReason {
    /// The rich-rule parser rejected or deliberately does not model the rule.
    RichRuleSemantics,
    /// MAC-based zone selection is outside the approved address model.
    MacSourceBinding,
    /// IP-set membership and matching are not yet part of the exact projector.
    IpSetSemantics,
    /// Direct-rule and policy precedence cannot be projected as one exact transition.
    DirectRuleMigration,
}

impl DeepView for UnsupportedOperationReason {
    type V = UnsupportedOperationReason;

    open spec fn deep_view(&self) -> UnsupportedOperationReason {
        *self
    }
}

impl Value for UnsupportedOperationReason {
    fn same(&self, other: &Self) -> (r: bool) {
        *self == *other
    }

    fn dup(&self) -> (r: Self) {
        *self
    }
}

/// Whether a mutation can be represented honestly by the traffic-test projector.
#[derive(Debug, Clone, Copy, PartialEq, Eq, Structural)]
pub enum OperationEffectSupport {
    /// The selected snapshot target has one deterministic transition.
    SupportedExact,
    /// The transition is exact only at the stated evaluation instant.
    SupportedAtEvaluationInstant,
    /// The operation replaces one complete configuration from another.
    GlobalTransform,
    /// The mutation cannot change a traffic verdict for the typed reason.
    TrafficIrrelevant(TrafficIrrelevanceProof),
    /// The mutation may affect traffic but its transition is not modeled exactly.
    UnsupportedRelevant(UnsupportedOperationReason),
}

impl DeepView for OperationEffectSupport {
    type V = OperationEffectSupport;

    open spec fn deep_view(&self) -> OperationEffectSupport {
        *self
    }
}

impl Value for OperationEffectSupport {
    fn same(&self, other: &Self) -> (r: bool) {
        *self == *other
    }

    fn dup(&self) -> (r: Self) {
        *self
    }
}

/// Ordered configuration targets touched by an operation.
#[derive(Debug, Clone, Copy, PartialEq, Eq, Structural)]
pub enum OperationTargetSequence {
    /// Live runtime configuration only.
    Runtime,
    /// Stored permanent configuration only.
    Permanent,
    /// Runtime first, followed by permanent configuration.
    RuntimeThenPermanent,
    /// One global backend step affects runtime and permanent configuration together.
    RuntimeAndPermanent,
    /// Reload replaces runtime from permanent configuration.
    RuntimeFromPermanent,
    /// Runtime-to-permanent replaces permanent from runtime configuration.
    PermanentFromRuntime,
}

impl DeepView for OperationTargetSequence {
    type V = OperationTargetSequence;

    open spec fn deep_view(&self) -> OperationTargetSequence {
        *self
    }
}

impl Value for OperationTargetSequence {
    fn same(&self, other: &Self) -> (r: bool) {
        *self == *other
    }

    fn dup(&self) -> (r: Self) {
        *self
    }
}

/// Traffic-relevant time behavior of an operation.
#[derive(Debug, Clone, Copy, PartialEq, Eq, Structural)]
pub enum TemporalBehavior {
    /// The transition is immediate within its selected configuration target.
    Immediate,
    /// The permanent transition is stored now and activates at reload.
    StoredUntilReload,
    /// The runtime transition expires after this many seconds.
    ExpiresAfterSeconds(u32),
    /// One complete configuration replaces another at one lifecycle boundary.
    GlobalReplacement,
    /// The operation has no effect on traffic decisions.
    NoTrafficDecisionEffect,
}

impl DeepView for TemporalBehavior {
    type V = TemporalBehavior;

    open spec fn deep_view(&self) -> TemporalBehavior {
        *self
    }
}

impl Value for TemporalBehavior {
    fn same(&self, other: &Self) -> (r: bool) {
        *self == *other
    }

    fn dup(&self) -> (r: Self) {
        *self
    }
}

/// How a backend partial application must be handled by projection code.
#[derive(Debug, Clone, Copy, PartialEq, Eq, Structural)]
pub enum PartialApplicationPolicy {
    /// The operation has one mutation step; no partial-success projection exists.
    SingleStep,
    /// Executed steps must be reconciled against a fresh authoritative snapshot.
    ReconcileExecutedSteps,
}

impl DeepView for PartialApplicationPolicy {
    type V = PartialApplicationPolicy;

    open spec fn deep_view(&self) -> PartialApplicationPolicy {
        *self
    }
}

impl Value for PartialApplicationPolicy {
    fn same(&self, other: &Self) -> (r: bool) {
        *self == *other
    }

    fn dup(&self) -> (r: Self) {
        *self
    }
}

/// One traffic dimension that an operation can alter.
#[derive(Debug, Clone, Copy, PartialEq, Eq, Structural)]
pub enum TrafficDimension {
    /// Ingress or egress zone selection.
    ZoneSelection,
    /// Named service allowance or expansion.
    Service,
    /// Destination port matching.
    DestinationPort,
    /// Source port matching.
    SourcePort,
    /// Raw IP protocol matching.
    Protocol,
    /// Zone masquerading or NAT behavior.
    Masquerade,
    /// Intra-zone or port-forwarding behavior.
    Forwarding,
    /// ICMP blocking or inversion.
    Icmp,
    /// Rich-rule matching and decision behavior.
    RichRule,
    /// A zone's terminal target decision.
    ZoneDecision,
    /// A policy's selection or terminal decision.
    Policy,
    /// A custom service definition.
    ServiceDefinition,
    /// IP-set definition or membership.
    IpSet,
    /// Global panic-mode decision.
    PanicMode,
    /// Whole-configuration lifecycle semantics.
    GlobalConfiguration,
    /// Diagnostics with no packet-decision effect.
    Observability,
}

impl DeepView for TrafficDimension {
    type V = TrafficDimension;

    open spec fn deep_view(&self) -> TrafficDimension {
        *self
    }
}

impl Value for TrafficDimension {
    fn same(&self, other: &Self) -> (r: bool) {
        *self == *other
    }

    fn dup(&self) -> (r: Self) {
        *self
    }
}

/// Direction of a policy-zone binding.
#[derive(Debug, Clone, Copy, PartialEq, Eq, Structural)]
pub enum PolicyZoneDirection {
    /// Policy ingress zone.
    Ingress,
    /// Policy egress zone.
    Egress,
}

impl DeepView for PolicyZoneDirection {
    type V = PolicyZoneDirection;

    open spec fn deep_view(&self) -> PolicyZoneDirection {
        *self
    }
}

impl Value for PolicyZoneDirection {
    fn same(&self, other: &Self) -> (r: bool) {
        *self == *other
    }

    fn dup(&self) -> (r: Self) {
        *self
    }
}

/// Stable identity of the firewall object affected by one operation.
#[derive(Debug, PartialEq, Eq)]
#[allow(inconsistent_fields)]
pub enum AffectedObject {
    /// A zone object or zone-wide property.
    Zone(ZoneName),
    /// A named service enabled within a zone.
    ZoneService {
        /// Owning zone.
        zone: ZoneName,
        /// Referenced service.
        service: ServiceName,
    },
    /// A destination port within a zone.
    ZonePort {
        /// Owning zone.
        zone: ZoneName,
        /// Port specification.
        port: PortSpec,
    },
    /// A source port within a zone.
    ZoneSourcePort {
        /// Owning zone.
        zone: ZoneName,
        /// Port specification.
        port: PortSpec,
    },
    /// A raw IP protocol within a zone.
    ZoneProtocol {
        /// Owning zone.
        zone: ZoneName,
        /// Protocol name.
        protocol: IpProtocol,
    },
    /// A port-forwarding rule within a zone.
    ZoneForwardPort {
        /// Owning zone.
        zone: ZoneName,
        /// Forwarding rule.
        forward: ForwardPort,
    },
    /// A rich rule within a zone.
    ZoneRichRule {
        /// Owning zone.
        zone: ZoneName,
        /// Original validated rule.
        rule: RichRule,
    },
    /// An interface-to-zone binding.
    ZoneInterface {
        /// Owning zone.
        zone: ZoneName,
        /// Interface identity.
        interface: InterfaceName,
    },
    /// A source-to-zone binding.
    ZoneSource {
        /// Owning zone.
        zone: ZoneName,
        /// Source identity.
        source: SourceAddress,
    },
    /// An ICMP block within a zone.
    ZoneIcmp {
        /// Owning zone.
        zone: ZoneName,
        /// ICMP type.
        icmp: IcmpType,
    },
    /// A custom service definition.
    ServiceDefinition(ServiceName),
    /// One port within a custom service definition.
    ServiceDefinitionPort {
        /// Service identity.
        service: ServiceName,
        /// Port specification.
        port: PortSpec,
    },
    /// A policy object or policy-wide property.
    Policy(PolicyName),
    /// A policy-zone binding.
    PolicyZone {
        /// Policy identity.
        policy: PolicyName,
        /// Binding direction.
        direction: PolicyZoneDirection,
        /// Zone or `ANY`/`HOST` pseudo-zone.
        zone: String,
    },
    /// A named service enabled within a policy.
    PolicyService {
        /// Policy identity.
        policy: PolicyName,
        /// Referenced service.
        service: ServiceName,
    },
    /// A predefined policy-set identity.
    PolicySet(PolicySetName),
    /// An IP-set definition.
    IpSet(IpSetName),
    /// One member of an IP set.
    IpSetEntry {
        /// IP-set identity.
        name: IpSetName,
        /// Member identity.
        entry: IpSetEntry,
    },
    /// Firewalld panic mode.
    PanicMode,
    /// Whole-firewall lifecycle or global setting.
    Global,
}

/// What a `AffectedObject` models.
pub enum AffectedObjectView {
    Zone(Seq<char>),
    ZoneService { zone: Seq<char>, service: Seq<char> },
    ZonePort { zone: Seq<char>, port: PortSpecView },
    ZoneSourcePort { zone: Seq<char>, port: PortSpecView },
    ZoneProtocol { zone: Seq<char>, protocol: Seq<char> },
    ZoneForwardPort { zone: Seq<char>, forward: ForwardPortView },
    ZoneRichRule { zone: Seq<char>, rule: Seq<char> },
    ZoneInterface { zone: Seq<char>, interface: Seq<char> },
    ZoneSource { zone: Seq<char>, source: SourceAddressView },
    ZoneIcmp { zone: Seq<char>, icmp: Seq<char> },
    ServiceDefinition(Seq<char>),
    ServiceDefinitionPort { service: Seq<char>, port: PortSpecView },
    Policy(Seq<char>),
    PolicyZone { policy: Seq<char>, direction: PolicyZoneDirection, zone: Seq<char> },
    PolicyService { policy: Seq<char>, service: Seq<char> },
    PolicySet(Seq<char>),
    IpSet(Seq<char>),
    IpSetEntry { name: Seq<char>, entry: Seq<char> },
    PanicMode,
    Global,
}

impl DeepView for AffectedObject {
    type V = AffectedObjectView;

    open spec fn deep_view(&self) -> AffectedObjectView {
        match self {
            AffectedObject::Zone(x0) => AffectedObjectView::Zone(x0.deep_view()),
            AffectedObject::ZoneService { zone, service } => AffectedObjectView::ZoneService {
                zone: zone.deep_view(),
                service: service.deep_view(),
            },
            AffectedObject::ZonePort { zone, port } => AffectedObjectView::ZonePort {
                zone: zone.deep_view(),
                port: port.deep_view(),
            },
            AffectedObject::ZoneSourcePort { zone, port } => AffectedObjectView::ZoneSourcePort {
                zone: zone.deep_view(),
                port: port.deep_view(),
            },
            AffectedObject::ZoneProtocol { zone, protocol } => AffectedObjectView::ZoneProtocol {
                zone: zone.deep_view(),
                protocol: protocol.deep_view(),
            },
            AffectedObject::ZoneForwardPort { zone, forward } =>
                AffectedObjectView::ZoneForwardPort {
                    zone: zone.deep_view(),
                    forward: forward.deep_view(),
                },
            AffectedObject::ZoneRichRule { zone, rule } => AffectedObjectView::ZoneRichRule {
                zone: zone.deep_view(),
                rule: rule.deep_view(),
            },
            AffectedObject::ZoneInterface { zone, interface } => AffectedObjectView::ZoneInterface {
                zone: zone.deep_view(),
                interface: interface.deep_view(),
            },
            AffectedObject::ZoneSource { zone, source } => AffectedObjectView::ZoneSource {
                zone: zone.deep_view(),
                source: source.deep_view(),
            },
            AffectedObject::ZoneIcmp { zone, icmp } => AffectedObjectView::ZoneIcmp {
                zone: zone.deep_view(),
                icmp: icmp.deep_view(),
            },
            AffectedObject::ServiceDefinition(x0) => AffectedObjectView::ServiceDefinition(
                x0.deep_view(),
            ),
            AffectedObject::ServiceDefinitionPort { service, port } =>
                AffectedObjectView::ServiceDefinitionPort {
                    service: service.deep_view(),
                    port: port.deep_view(),
                },
            AffectedObject::Policy(x0) => AffectedObjectView::Policy(x0.deep_view()),
            AffectedObject::PolicyZone { policy, direction, zone } =>
                AffectedObjectView::PolicyZone {
                    policy: policy.deep_view(),
                    direction: direction.deep_view(),
                    zone: zone.deep_view(),
                },
            AffectedObject::PolicyService { policy, service } => AffectedObjectView::PolicyService {
                policy: policy.deep_view(),
                service: service.deep_view(),
            },
            AffectedObject::PolicySet(x0) => AffectedObjectView::PolicySet(x0.deep_view()),
            AffectedObject::IpSet(x0) => AffectedObjectView::IpSet(x0.deep_view()),
            AffectedObject::IpSetEntry { name, entry } => AffectedObjectView::IpSetEntry {
                name: name.deep_view(),
                entry: entry.deep_view(),
            },
            AffectedObject::PanicMode => AffectedObjectView::PanicMode,
            AffectedObject::Global => AffectedObjectView::Global,
        }
    }
}

impl Value for AffectedObject {
    fn same(&self, other: &Self) -> (r: bool) {
        match (self, other) {
            (AffectedObject::Zone(x0), AffectedObject::Zone(x0_other)) => x0.same(x0_other),
            (
                AffectedObject::ZoneService { zone, service },
                AffectedObject::ZoneService { zone: zone_other, service: service_other },
            ) => zone.same(zone_other) && service.same(service_other),
            (
                AffectedObject::ZonePort { zone, port },
                AffectedObject::ZonePort { zone: zone_other, port: port_other },
            ) => zone.same(zone_other) && port.same(port_other),
            (
                AffectedObject::ZoneSourcePort { zone, port },
                AffectedObject::ZoneSourcePort { zone: zone_other, port: port_other },
            ) => zone.same(zone_other) && port.same(port_other),
            (
                AffectedObject::ZoneProtocol { zone, protocol },
                AffectedObject::ZoneProtocol { zone: zone_other, protocol: protocol_other },
            ) => zone.same(zone_other) && protocol.same(protocol_other),
            (
                AffectedObject::ZoneForwardPort { zone, forward },
                AffectedObject::ZoneForwardPort { zone: zone_other, forward: forward_other },
            ) => zone.same(zone_other) && forward.same(forward_other),
            (
                AffectedObject::ZoneRichRule { zone, rule },
                AffectedObject::ZoneRichRule { zone: zone_other, rule: rule_other },
            ) => zone.same(zone_other) && rule.same(rule_other),
            (
                AffectedObject::ZoneInterface { zone, interface },
                AffectedObject::ZoneInterface { zone: zone_other, interface: interface_other },
            ) => zone.same(zone_other) && interface.same(interface_other),
            (
                AffectedObject::ZoneSource { zone, source },
                AffectedObject::ZoneSource { zone: zone_other, source: source_other },
            ) => zone.same(zone_other) && source.same(source_other),
            (
                AffectedObject::ZoneIcmp { zone, icmp },
                AffectedObject::ZoneIcmp { zone: zone_other, icmp: icmp_other },
            ) => zone.same(zone_other) && icmp.same(icmp_other),
            (AffectedObject::ServiceDefinition(x0), AffectedObject::ServiceDefinition(x0_other)) =>
                x0.same(x0_other),
            (
                AffectedObject::ServiceDefinitionPort { service, port },
                AffectedObject::ServiceDefinitionPort { service: service_other, port: port_other },
            ) => service.same(service_other) && port.same(port_other),
            (AffectedObject::Policy(x0), AffectedObject::Policy(x0_other)) => x0.same(x0_other),
            (
                AffectedObject::PolicyZone { policy, direction, zone },
                AffectedObject::PolicyZone {
                    policy: policy_other,
                    direction: direction_other,
                    zone: zone_other,
                },
            ) => policy.same(policy_other) && *direction == *direction_other && zone.same(zone_other),
            (
                AffectedObject::PolicyService { policy, service },
                AffectedObject::PolicyService { policy: policy_other, service: service_other },
            ) => policy.same(policy_other) && service.same(service_other),
            (AffectedObject::PolicySet(x0), AffectedObject::PolicySet(x0_other)) => x0.same(
                x0_other,
            ),
            (AffectedObject::IpSet(x0), AffectedObject::IpSet(x0_other)) => x0.same(x0_other),
            (
                AffectedObject::IpSetEntry { name, entry },
                AffectedObject::IpSetEntry { name: name_other, entry: entry_other },
            ) => name.same(name_other) && entry.same(entry_other),
            (AffectedObject::PanicMode, AffectedObject::PanicMode) => true,
            (AffectedObject::Global, AffectedObject::Global) => true,
            _ => false,
        }
    }

    fn dup(&self) -> (r: Self) {
        match self {
            AffectedObject::Zone(x0) => AffectedObject::Zone(x0.dup()),
            AffectedObject::ZoneService { zone, service } => AffectedObject::ZoneService {
                zone: zone.dup(),
                service: service.dup(),
            },
            AffectedObject::ZonePort { zone, port } => AffectedObject::ZonePort {
                zone: zone.dup(),
                port: port.dup(),
            },
            AffectedObject::ZoneSourcePort { zone, port } => AffectedObject::ZoneSourcePort {
                zone: zone.dup(),
                port: port.dup(),
            },
            AffectedObject::ZoneProtocol { zone, protocol } => AffectedObject::ZoneProtocol {
                zone: zone.dup(),
                protocol: protocol.dup(),
            },
            AffectedObject::ZoneForwardPort { zone, forward } => AffectedObject::ZoneForwardPort {
                zone: zone.dup(),
                forward: forward.dup(),
            },
            AffectedObject::ZoneRichRule { zone, rule } => AffectedObject::ZoneRichRule {
                zone: zone.dup(),
                rule: rule.dup(),
            },
            AffectedObject::ZoneInterface { zone, interface } => AffectedObject::ZoneInterface {
                zone: zone.dup(),
                interface: interface.dup(),
            },
            AffectedObject::ZoneSource { zone, source } => AffectedObject::ZoneSource {
                zone: zone.dup(),
                source: source.dup(),
            },
            AffectedObject::ZoneIcmp { zone, icmp } => AffectedObject::ZoneIcmp {
                zone: zone.dup(),
                icmp: icmp.dup(),
            },
            AffectedObject::ServiceDefinition(x0) => AffectedObject::ServiceDefinition(x0.dup()),
            AffectedObject::ServiceDefinitionPort { service, port } =>
                AffectedObject::ServiceDefinitionPort { service: service.dup(), port: port.dup() },
            AffectedObject::Policy(x0) => AffectedObject::Policy(x0.dup()),
            AffectedObject::PolicyZone { policy, direction, zone } => AffectedObject::PolicyZone {
                policy: policy.dup(),
                direction: *direction,
                zone: zone.dup(),
            },
            AffectedObject::PolicyService { policy, service } => AffectedObject::PolicyService {
                policy: policy.dup(),
                service: service.dup(),
            },
            AffectedObject::PolicySet(x0) => AffectedObject::PolicySet(x0.dup()),
            AffectedObject::IpSet(x0) => AffectedObject::IpSet(x0.dup()),
            AffectedObject::IpSetEntry { name, entry } => AffectedObject::IpSetEntry {
                name: name.dup(),
                entry: entry.dup(),
            },
            AffectedObject::PanicMode => AffectedObject::PanicMode,
            AffectedObject::Global => AffectedObject::Global,
        }
    }
}

impl Clone for AffectedObject {
    fn clone(&self) -> (r: Self)
        ensures
            r.deep_view() == self.deep_view(),
    {
        self.dup()
    }
}

/// Complete projection metadata for one firewall operation.
#[derive(Debug, PartialEq, Eq)]
pub struct OperationEffect {
    /// Projection support category.
    pub support: OperationEffectSupport,
    /// Ordered configuration targets.
    pub targets: OperationTargetSequence,
    /// Stable affected object identity.
    pub object: AffectedObject,
    /// Traffic dimensions potentially changed by the operation.
    pub dimensions: Vec<TrafficDimension>,
    /// Time-dependent behavior.
    pub temporal: TemporalBehavior,
    /// Required handling if backend execution is not fully applied.
    pub partial_application: PartialApplicationPolicy,
}

/// What a `OperationEffect` models.
pub struct OperationEffectView {
    pub support: OperationEffectSupport,
    pub targets: OperationTargetSequence,
    pub object: AffectedObjectView,
    pub dimensions: Seq<TrafficDimension>,
    pub temporal: TemporalBehavior,
    pub partial_application: PartialApplicationPolicy,
}

impl DeepView for OperationEffect {
    type V = OperationEffectView;

    open spec fn deep_view(&self) -> OperationEffectView {
        OperationEffectView {
            support: self.support.deep_view(),
            targets: self.targets.deep_view(),
            object: self.object.deep_view(),
            dimensions: self.dimensions.deep_view(),
            temporal: self.temporal.deep_view(),
            partial_application: self.partial_application.deep_view(),
        }
    }
}

impl Clone for OperationEffect {
    fn clone(&self) -> (r: Self)
        ensures
            r.deep_view() == self.deep_view(),
    {
        OperationEffect {
            support: self.support,
            targets: self.targets,
            object: self.object.clone(),
            dimensions: self.dimensions.dup(),
            temporal: self.temporal,
            partial_application: self.partial_application,
        }
    }
}

/// The scopes of a target, in the order in which they are changed.
pub open spec fn sequence_of(target: ConfigurationTarget) -> OperationTargetSequence {
    match target {
        ConfigurationTarget::Runtime => OperationTargetSequence::Runtime,
        ConfigurationTarget::Permanent => OperationTargetSequence::Permanent,
        ConfigurationTarget::RuntimeAndPermanent => OperationTargetSequence::RuntimeThenPermanent,
    }
}

/// When a change of a target takes effect.
pub open spec fn timing_of(target: ConfigurationTarget) -> TemporalBehavior {
    match target {
        ConfigurationTarget::Permanent => TemporalBehavior::StoredUntilReload,
        _ => TemporalBehavior::Immediate,
    }
}

/// Whether a change of a target can be applied in part.
pub open spec fn partial_of(target: ConfigurationTarget) -> PartialApplicationPolicy {
    match target {
        ConfigurationTarget::RuntimeAndPermanent =>
            PartialApplicationPolicy::ReconcileExecutedSteps,
        _ => PartialApplicationPolicy::SingleStep,
    }
}

/// Whether the effect of a rich rule is modeled.
pub open spec fn rule_support(rule: Seq<char>) -> OperationEffectSupport {
    match rich_rule::analyzed(rule) {
        RichRuleAnalysisView::Supported(_) => OperationEffectSupport::SupportedExact,
        _ => OperationEffectSupport::UnsupportedRelevant(
            UnsupportedOperationReason::RichRuleSemantics,
        ),
    }
}

/// Whether the effect of a source binding is modeled.
pub open spec fn binding_support(source: SourceAddressView) -> OperationEffectSupport {
    match source {
        SourceAddressView::Ip { .. } => OperationEffectSupport::SupportedExact,
        SourceAddressView::Mac(_) => OperationEffectSupport::UnsupportedRelevant(
            UnsupportedOperationReason::MacSourceBinding,
        ),
        SourceAddressView::IpSet(_) => OperationEffectSupport::UnsupportedRelevant(
            UnsupportedOperationReason::IpSetSemantics,
        ),
    }
}

/// The effect of a change of one object in a target.
pub open spec fn effect(
    support: OperationEffectSupport,
    target: ConfigurationTarget,
    object: AffectedObjectView,
    dimensions: Seq<TrafficDimension>,
) -> OperationEffectView {
    effect_with(support, target, object, dimensions, partial_of(target))
}

/// The effect of a change of one object in a target, with its own handling of
/// partial application.
pub open spec fn effect_with(
    support: OperationEffectSupport,
    target: ConfigurationTarget,
    object: AffectedObjectView,
    dimensions: Seq<TrafficDimension>,
    partial_application: PartialApplicationPolicy,
) -> OperationEffectView {
    OperationEffectView {
        support,
        targets: sequence_of(target),
        object,
        dimensions,
        temporal: timing_of(target),
        partial_application,
    }
}

fn target_sequence(target: ConfigurationTarget) -> (r: OperationTargetSequence)
    ensures
        r == sequence_of(target),
{
    match target {
        ConfigurationTarget::Runtime => OperationTargetSequence::Runtime,
        ConfigurationTarget::Permanent => OperationTargetSequence::Permanent,
        ConfigurationTarget::RuntimeAndPermanent => OperationTargetSequence::RuntimeThenPermanent,
    }
}

fn temporal_behavior(target: ConfigurationTarget) -> (r: TemporalBehavior)
    ensures
        r == timing_of(target),
{
    match target {
        ConfigurationTarget::Permanent => TemporalBehavior::StoredUntilReload,
        _ => TemporalBehavior::Immediate,
    }
}

fn partial_policy(target: ConfigurationTarget) -> (r: PartialApplicationPolicy)
    ensures
        r == partial_of(target),
{
    match target {
        ConfigurationTarget::RuntimeAndPermanent =>
            PartialApplicationPolicy::ReconcileExecutedSteps,
        _ => PartialApplicationPolicy::SingleStep,
    }
}

fn rich_rule_support(rule: &RichRule) -> (r: OperationEffectSupport)
    ensures
        r == rule_support(rule.deep_view()),
{
    match rule.analyze() {
        RichRuleAnalysis::Supported(_) => OperationEffectSupport::SupportedExact,
        _ => OperationEffectSupport::UnsupportedRelevant(
            UnsupportedOperationReason::RichRuleSemantics,
        ),
    }
}

fn source_binding_support(source: &SourceAddress) -> (r: OperationEffectSupport)
    ensures
        r == binding_support(source.deep_view()),
{
    match source {
        SourceAddress::Ip { .. } => OperationEffectSupport::SupportedExact,
        SourceAddress::Mac(_) => OperationEffectSupport::UnsupportedRelevant(
            UnsupportedOperationReason::MacSourceBinding,
        ),
        SourceAddress::IpSet(_) => OperationEffectSupport::UnsupportedRelevant(
            UnsupportedOperationReason::IpSetSemantics,
        ),
    }
}

fn classified(
    support: OperationEffectSupport,
    target: ConfigurationTarget,
    object: AffectedObject,
    dimensions: Vec<TrafficDimension>,
) -> (r: OperationEffect)
    ensures
        r.deep_view() == effect(support, target, object.deep_view(), dimensions@),
{
    classified_with_partial(support, target, object, dimensions, partial_policy(target))
}

fn classified_with_partial(
    support: OperationEffectSupport,
    target: ConfigurationTarget,
    object: AffectedObject,
    dimensions: Vec<TrafficDimension>,
    partial_application: PartialApplicationPolicy,
) -> (r: OperationEffect)
    ensures
        r.deep_view() == effect_with(
            support,
            target,
            object.deep_view(),
            dimensions@,
            partial_application,
        ),
{
    assert(dimensions.deep_view() =~= dimensions@);
    OperationEffect {
        support,
        targets: target_sequence(target),
        object,
        dimensions,
        temporal: temporal_behavior(target),
        partial_application,
    }
}

/// The effect of a single step, with its own targets and timing.
pub open spec fn whole_effect(
    support: OperationEffectSupport,
    targets: OperationTargetSequence,
    object: AffectedObjectView,
    dimensions: Seq<TrafficDimension>,
    temporal: TemporalBehavior,
) -> OperationEffectView {
    OperationEffectView {
        support,
        targets,
        object,
        dimensions,
        temporal,
        partial_application: PartialApplicationPolicy::SingleStep,
    }
}

fn whole(
    support: OperationEffectSupport,
    targets: OperationTargetSequence,
    object: AffectedObject,
    dimensions: Vec<TrafficDimension>,
    temporal: TemporalBehavior,
) -> (r: OperationEffect)
    ensures
        r.deep_view() == whole_effect(support, targets, object.deep_view(), dimensions@, temporal),
{
    assert(dimensions.deep_view() =~= dimensions@);
    OperationEffect {
        support,
        targets,
        object,
        dimensions,
        temporal,
        partial_application: PartialApplicationPolicy::SingleStep,
    }
}

fn one(a: TrafficDimension) -> (r: Vec<TrafficDimension>)
    ensures
        r@ == seq![a],
{
    vec![a]
}

fn two(a: TrafficDimension, b: TrafficDimension) -> (r: Vec<TrafficDimension>)
    ensures
        r@ == seq![a, b],
{
    vec![a, b]
}

impl OperationEffectView {
    /// The operation has one exact transition of a scope's configuration, for
    /// good or at the evaluation instant.
    pub open spec fn transitions(self) -> bool {
        self.support is SupportedExact || self.support is SupportedAtEvaluationInstant
    }

    /// The effect of an operation on what a zone allows or blocks.
    pub open spec fn of_rule(operation: FirewallOperationView) -> Option<OperationEffectView> {
        match operation {
            FirewallOperationView::AddService { zone, service, target } => Some(
                effect(
                    OperationEffectSupport::SupportedExact,
                    target,
                    AffectedObjectView::ZoneService { zone, service },
                    seq![TrafficDimension::Service],
                ),
            ),
            FirewallOperationView::AddTemporaryService { zone, service, seconds } => Some(
                whole_effect(
                    OperationEffectSupport::SupportedAtEvaluationInstant,
                    OperationTargetSequence::Runtime,
                    AffectedObjectView::ZoneService { zone, service },
                    seq![TrafficDimension::Service],
                    TemporalBehavior::ExpiresAfterSeconds(seconds),
                ),
            ),
            FirewallOperationView::RemoveService { zone, service, target } => Some(
                effect(
                    OperationEffectSupport::SupportedExact,
                    target,
                    AffectedObjectView::ZoneService { zone, service },
                    seq![TrafficDimension::Service],
                ),
            ),
            FirewallOperationView::AddPort { zone, port, target } => Some(
                effect(
                    OperationEffectSupport::SupportedExact,
                    target,
                    AffectedObjectView::ZonePort { zone, port },
                    seq![TrafficDimension::DestinationPort],
                ),
            ),
            FirewallOperationView::RemovePort { zone, port, target } => Some(
                effect(
                    OperationEffectSupport::SupportedExact,
                    target,
                    AffectedObjectView::ZonePort { zone, port },
                    seq![TrafficDimension::DestinationPort],
                ),
            ),
            FirewallOperationView::AddSourcePort { zone, port, target } => Some(
                effect(
                    OperationEffectSupport::SupportedExact,
                    target,
                    AffectedObjectView::ZoneSourcePort { zone, port },
                    seq![TrafficDimension::SourcePort],
                ),
            ),
            FirewallOperationView::RemoveSourcePort { zone, port, target } => Some(
                effect(
                    OperationEffectSupport::SupportedExact,
                    target,
                    AffectedObjectView::ZoneSourcePort { zone, port },
                    seq![TrafficDimension::SourcePort],
                ),
            ),
            FirewallOperationView::AddProtocol { zone, protocol, target } => Some(
                effect(
                    OperationEffectSupport::SupportedExact,
                    target,
                    AffectedObjectView::ZoneProtocol { zone, protocol },
                    seq![TrafficDimension::Protocol],
                ),
            ),
            FirewallOperationView::RemoveProtocol { zone, protocol, target } => Some(
                effect(
                    OperationEffectSupport::SupportedExact,
                    target,
                    AffectedObjectView::ZoneProtocol { zone, protocol },
                    seq![TrafficDimension::Protocol],
                ),
            ),
            FirewallOperationView::AddForwardPort { zone, forward, target } => Some(
                effect(
                    OperationEffectSupport::SupportedExact,
                    target,
                    AffectedObjectView::ZoneForwardPort { zone, forward },
                    seq![TrafficDimension::Forwarding, TrafficDimension::DestinationPort],
                ),
            ),
            FirewallOperationView::RemoveForwardPort { zone, forward, target } => Some(
                effect(
                    OperationEffectSupport::SupportedExact,
                    target,
                    AffectedObjectView::ZoneForwardPort { zone, forward },
                    seq![TrafficDimension::Forwarding, TrafficDimension::DestinationPort],
                ),
            ),
            FirewallOperationView::AddRichRule { zone, rule, target } => Some(
                effect(
                    rule_support(rule),
                    target,
                    AffectedObjectView::ZoneRichRule { zone, rule },
                    seq![TrafficDimension::RichRule],
                ),
            ),
            FirewallOperationView::RemoveRichRule { zone, rule, target } => Some(
                effect(
                    rule_support(rule),
                    target,
                    AffectedObjectView::ZoneRichRule { zone, rule },
                    seq![TrafficDimension::RichRule],
                ),
            ),
            FirewallOperationView::AddIcmpBlock { zone, icmp, target } => Some(
                effect(
                    OperationEffectSupport::SupportedExact,
                    target,
                    AffectedObjectView::ZoneIcmp { zone, icmp },
                    seq![TrafficDimension::Icmp],
                ),
            ),
            FirewallOperationView::RemoveIcmpBlock { zone, icmp, target } => Some(
                effect(
                    OperationEffectSupport::SupportedExact,
                    target,
                    AffectedObjectView::ZoneIcmp { zone, icmp },
                    seq![TrafficDimension::Icmp],
                ),
            ),
            _ => None,
        }
    }

    /// The effect of an operation on a zone, its bindings or its settings.
    pub open spec fn of_zone(operation: FirewallOperationView) -> Option<OperationEffectView> {
        match operation {
            FirewallOperationView::SetDefaultZone { zone } => Some(
                whole_effect(
                    OperationEffectSupport::SupportedExact,
                    OperationTargetSequence::RuntimeAndPermanent,
                    AffectedObjectView::Zone(zone),
                    seq![TrafficDimension::ZoneSelection],
                    TemporalBehavior::Immediate,
                ),
            ),
            FirewallOperationView::SetMasquerade { zone, target, .. } => Some(
                effect(
                    OperationEffectSupport::SupportedExact,
                    target,
                    AffectedObjectView::Zone(zone),
                    seq![TrafficDimension::Masquerade],
                ),
            ),
            FirewallOperationView::SetZoneTarget { zone, .. } => Some(
                effect(
                    OperationEffectSupport::SupportedExact,
                    ConfigurationTarget::Permanent,
                    AffectedObjectView::Zone(zone),
                    seq![TrafficDimension::ZoneDecision],
                ),
            ),
            FirewallOperationView::SetForward { zone, target, .. } => Some(
                effect(
                    OperationEffectSupport::SupportedExact,
                    target,
                    AffectedObjectView::Zone(zone),
                    seq![TrafficDimension::Forwarding],
                ),
            ),
            FirewallOperationView::SetIcmpBlockInversion { zone, target, .. } => Some(
                effect(
                    OperationEffectSupport::SupportedExact,
                    target,
                    AffectedObjectView::Zone(zone),
                    seq![TrafficDimension::Icmp],
                ),
            ),
            FirewallOperationView::AddInterface { zone, interface, target } => Some(
                effect(
                    OperationEffectSupport::SupportedExact,
                    target,
                    AffectedObjectView::ZoneInterface { zone, interface },
                    seq![TrafficDimension::ZoneSelection],
                ),
            ),
            FirewallOperationView::RemoveInterface { zone, interface, target } => Some(
                effect(
                    OperationEffectSupport::SupportedExact,
                    target,
                    AffectedObjectView::ZoneInterface { zone, interface },
                    seq![TrafficDimension::ZoneSelection],
                ),
            ),
            FirewallOperationView::AddSource { zone, source, target } => Some(
                effect(
                    binding_support(source),
                    target,
                    AffectedObjectView::ZoneSource { zone, source },
                    seq![TrafficDimension::ZoneSelection],
                ),
            ),
            FirewallOperationView::RemoveSource { zone, source, target } => Some(
                effect(
                    binding_support(source),
                    target,
                    AffectedObjectView::ZoneSource { zone, source },
                    seq![TrafficDimension::ZoneSelection],
                ),
            ),
            FirewallOperationView::CreateZone { zone } => Some(
                effect(
                    OperationEffectSupport::SupportedExact,
                    ConfigurationTarget::Permanent,
                    AffectedObjectView::Zone(zone),
                    seq![TrafficDimension::ZoneSelection, TrafficDimension::ZoneDecision],
                ),
            ),
            FirewallOperationView::DeleteZone { zone } => Some(
                effect(
                    OperationEffectSupport::SupportedExact,
                    ConfigurationTarget::Permanent,
                    AffectedObjectView::Zone(zone),
                    seq![TrafficDimension::ZoneSelection, TrafficDimension::ZoneDecision],
                ),
            ),
            _ => None,
        }
    }

    /// The effect of an operation on a service, a policy or an ipset.
    pub open spec fn of_object(operation: FirewallOperationView) -> Option<OperationEffectView> {
        match operation {
            FirewallOperationView::CreateService { service } => Some(
                effect(
                    OperationEffectSupport::SupportedExact,
                    ConfigurationTarget::Permanent,
                    AffectedObjectView::ServiceDefinition(service),
                    seq![TrafficDimension::ServiceDefinition],
                ),
            ),
            FirewallOperationView::DeleteService { service } => Some(
                effect(
                    OperationEffectSupport::SupportedExact,
                    ConfigurationTarget::Permanent,
                    AffectedObjectView::ServiceDefinition(service),
                    seq![TrafficDimension::ServiceDefinition],
                ),
            ),
            FirewallOperationView::AddServicePort { service, port } => Some(
                effect(
                    OperationEffectSupport::SupportedExact,
                    ConfigurationTarget::Permanent,
                    AffectedObjectView::ServiceDefinitionPort { service, port },
                    seq![TrafficDimension::ServiceDefinition, TrafficDimension::DestinationPort],
                ),
            ),
            FirewallOperationView::RemoveServicePort { service, port } => Some(
                effect(
                    OperationEffectSupport::SupportedExact,
                    ConfigurationTarget::Permanent,
                    AffectedObjectView::ServiceDefinitionPort { service, port },
                    seq![TrafficDimension::ServiceDefinition, TrafficDimension::DestinationPort],
                ),
            ),
            FirewallOperationView::CreatePolicy { policy } => Some(
                effect(
                    OperationEffectSupport::SupportedExact,
                    ConfigurationTarget::Permanent,
                    AffectedObjectView::Policy(policy),
                    seq![TrafficDimension::Policy],
                ),
            ),
            FirewallOperationView::DeletePolicy { policy } => Some(
                effect(
                    OperationEffectSupport::SupportedExact,
                    ConfigurationTarget::Permanent,
                    AffectedObjectView::Policy(policy),
                    seq![TrafficDimension::Policy],
                ),
            ),
            FirewallOperationView::MigrateDirectRule { migration } => Some(
                effect_with(
                    OperationEffectSupport::UnsupportedRelevant(
                        UnsupportedOperationReason::DirectRuleMigration,
                    ),
                    ConfigurationTarget::Permanent,
                    AffectedObjectView::Policy(migration.policy),
                    seq![TrafficDimension::Policy, TrafficDimension::RichRule],
                    PartialApplicationPolicy::ReconcileExecutedSteps,
                ),
            ),
            FirewallOperationView::SetPolicyTarget { policy, .. } => Some(
                effect(
                    OperationEffectSupport::SupportedExact,
                    ConfigurationTarget::Permanent,
                    AffectedObjectView::Policy(policy),
                    seq![TrafficDimension::Policy],
                ),
            ),
            FirewallOperationView::AddPolicyIngressZone { policy, zone } => Some(
                effect(
                    OperationEffectSupport::SupportedExact,
                    ConfigurationTarget::Permanent,
                    AffectedObjectView::PolicyZone {
                        policy,
                        direction: PolicyZoneDirection::Ingress,
                        zone,
                    },
                    seq![TrafficDimension::Policy, TrafficDimension::ZoneSelection],
                ),
            ),
            FirewallOperationView::AddPolicyEgressZone { policy, zone } => Some(
                effect(
                    OperationEffectSupport::SupportedExact,
                    ConfigurationTarget::Permanent,
                    AffectedObjectView::PolicyZone {
                        policy,
                        direction: PolicyZoneDirection::Egress,
                        zone,
                    },
                    seq![TrafficDimension::Policy, TrafficDimension::ZoneSelection],
                ),
            ),
            FirewallOperationView::AddPolicyService { policy, service, target } => Some(
                effect(
                    OperationEffectSupport::SupportedExact,
                    target,
                    AffectedObjectView::PolicyService { policy, service },
                    seq![TrafficDimension::Policy, TrafficDimension::Service],
                ),
            ),
            FirewallOperationView::RemovePolicyService { policy, service, target } => Some(
                effect(
                    OperationEffectSupport::SupportedExact,
                    target,
                    AffectedObjectView::PolicyService { policy, service },
                    seq![TrafficDimension::Policy, TrafficDimension::Service],
                ),
            ),
            FirewallOperationView::SetPolicySetEnabled { policy_set, target, .. } => Some(
                effect_with(
                    OperationEffectSupport::SupportedExact,
                    target,
                    AffectedObjectView::PolicySet(policy_set),
                    seq![TrafficDimension::Policy],
                    PartialApplicationPolicy::ReconcileExecutedSteps,
                ),
            ),
            FirewallOperationView::CreateIpSet { name, .. } => Some(
                effect(
                    OperationEffectSupport::UnsupportedRelevant(
                        UnsupportedOperationReason::IpSetSemantics,
                    ),
                    ConfigurationTarget::Permanent,
                    AffectedObjectView::IpSet(name),
                    seq![TrafficDimension::IpSet],
                ),
            ),
            FirewallOperationView::DeleteIpSet { name } => Some(
                effect(
                    OperationEffectSupport::UnsupportedRelevant(
                        UnsupportedOperationReason::IpSetSemantics,
                    ),
                    ConfigurationTarget::Permanent,
                    AffectedObjectView::IpSet(name),
                    seq![TrafficDimension::IpSet],
                ),
            ),
            FirewallOperationView::AddIpSetEntry { name, entry, target } => Some(
                effect(
                    OperationEffectSupport::UnsupportedRelevant(
                        UnsupportedOperationReason::IpSetSemantics,
                    ),
                    target,
                    AffectedObjectView::IpSetEntry { name, entry },
                    seq![TrafficDimension::IpSet],
                ),
            ),
            FirewallOperationView::RemoveIpSetEntry { name, entry, target } => Some(
                effect(
                    OperationEffectSupport::UnsupportedRelevant(
                        UnsupportedOperationReason::IpSetSemantics,
                    ),
                    target,
                    AffectedObjectView::IpSetEntry { name, entry },
                    seq![TrafficDimension::IpSet],
                ),
            ),
            _ => None,
        }
    }

    /// The effect of an operation on the firewall as a whole.
    pub open spec fn of_global(operation: FirewallOperationView) -> Option<OperationEffectView> {
        match operation {
            FirewallOperationView::SetPanicMode { .. } => Some(
                effect(
                    OperationEffectSupport::SupportedExact,
                    ConfigurationTarget::Runtime,
                    AffectedObjectView::PanicMode,
                    seq![TrafficDimension::PanicMode],
                ),
            ),
            FirewallOperationView::RuntimeToPermanent => Some(
                whole_effect(
                    OperationEffectSupport::GlobalTransform,
                    OperationTargetSequence::PermanentFromRuntime,
                    AffectedObjectView::Global,
                    seq![TrafficDimension::GlobalConfiguration],
                    TemporalBehavior::GlobalReplacement,
                ),
            ),
            FirewallOperationView::SetLogDenied { .. } => Some(
                whole_effect(
                    OperationEffectSupport::GlobalTransform,
                    OperationTargetSequence::RuntimeFromPermanent,
                    AffectedObjectView::Global,
                    seq![TrafficDimension::Observability, TrafficDimension::GlobalConfiguration],
                    TemporalBehavior::GlobalReplacement,
                ),
            ),
            FirewallOperationView::Reload => Some(
                whole_effect(
                    OperationEffectSupport::GlobalTransform,
                    OperationTargetSequence::RuntimeFromPermanent,
                    AffectedObjectView::Global,
                    seq![TrafficDimension::GlobalConfiguration],
                    TemporalBehavior::GlobalReplacement,
                ),
            ),
            _ => None,
        }
    }

    /// The effect of an operation: exactly one of the four kinds.
    pub open spec fn of(operation: FirewallOperationView) -> OperationEffectView {
        match Self::of_rule(operation) {
            Some(effect) => effect,
            None => match Self::of_zone(operation) {
                Some(effect) => effect,
                None => match Self::of_object(operation) {
                    Some(effect) => effect,
                    None => Self::of_global(operation)->0,
                },
            },
        }
    }
}

fn rule_effect(operation: &FirewallOperation) -> (r: Option<OperationEffect>)
    ensures
        r.deep_view() == OperationEffectView::of_rule(operation.deep_view()),
{
    match operation {
        FirewallOperation::AddService { zone, service, target } => Some(
            classified(
                OperationEffectSupport::SupportedExact,
                *target,
                AffectedObject::ZoneService { zone: zone.dup(), service: service.dup() },
                one(TrafficDimension::Service),
            ),
        ),
        FirewallOperation::AddTemporaryService { zone, service, seconds } => Some(
            whole(
                OperationEffectSupport::SupportedAtEvaluationInstant,
                OperationTargetSequence::Runtime,
                AffectedObject::ZoneService { zone: zone.dup(), service: service.dup() },
                one(TrafficDimension::Service),
                TemporalBehavior::ExpiresAfterSeconds(*seconds),
            ),
        ),
        FirewallOperation::RemoveService { zone, service, target } => Some(
            classified(
                OperationEffectSupport::SupportedExact,
                *target,
                AffectedObject::ZoneService { zone: zone.dup(), service: service.dup() },
                one(TrafficDimension::Service),
            ),
        ),
        FirewallOperation::AddPort { zone, port, target } => Some(
            classified(
                OperationEffectSupport::SupportedExact,
                *target,
                AffectedObject::ZonePort { zone: zone.dup(), port: port.dup() },
                one(TrafficDimension::DestinationPort),
            ),
        ),
        FirewallOperation::RemovePort { zone, port, target } => Some(
            classified(
                OperationEffectSupport::SupportedExact,
                *target,
                AffectedObject::ZonePort { zone: zone.dup(), port: port.dup() },
                one(TrafficDimension::DestinationPort),
            ),
        ),
        FirewallOperation::AddSourcePort { zone, port, target } => Some(
            classified(
                OperationEffectSupport::SupportedExact,
                *target,
                AffectedObject::ZoneSourcePort { zone: zone.dup(), port: port.dup() },
                one(TrafficDimension::SourcePort),
            ),
        ),
        FirewallOperation::RemoveSourcePort { zone, port, target } => Some(
            classified(
                OperationEffectSupport::SupportedExact,
                *target,
                AffectedObject::ZoneSourcePort { zone: zone.dup(), port: port.dup() },
                one(TrafficDimension::SourcePort),
            ),
        ),
        FirewallOperation::AddProtocol { zone, protocol, target } => Some(
            classified(
                OperationEffectSupport::SupportedExact,
                *target,
                AffectedObject::ZoneProtocol { zone: zone.dup(), protocol: protocol.dup() },
                one(TrafficDimension::Protocol),
            ),
        ),
        FirewallOperation::RemoveProtocol { zone, protocol, target } => Some(
            classified(
                OperationEffectSupport::SupportedExact,
                *target,
                AffectedObject::ZoneProtocol { zone: zone.dup(), protocol: protocol.dup() },
                one(TrafficDimension::Protocol),
            ),
        ),
        FirewallOperation::AddForwardPort { zone, forward, target } => Some(
            classified(
                OperationEffectSupport::SupportedExact,
                *target,
                AffectedObject::ZoneForwardPort { zone: zone.dup(), forward: forward.dup() },
                two(TrafficDimension::Forwarding, TrafficDimension::DestinationPort),
            ),
        ),
        FirewallOperation::RemoveForwardPort { zone, forward, target } => Some(
            classified(
                OperationEffectSupport::SupportedExact,
                *target,
                AffectedObject::ZoneForwardPort { zone: zone.dup(), forward: forward.dup() },
                two(TrafficDimension::Forwarding, TrafficDimension::DestinationPort),
            ),
        ),
        FirewallOperation::AddRichRule { zone, rule, target } => Some(
            classified(
                rich_rule_support(rule),
                *target,
                AffectedObject::ZoneRichRule { zone: zone.dup(), rule: rule.dup() },
                one(TrafficDimension::RichRule),
            ),
        ),
        FirewallOperation::RemoveRichRule { zone, rule, target } => Some(
            classified(
                rich_rule_support(rule),
                *target,
                AffectedObject::ZoneRichRule { zone: zone.dup(), rule: rule.dup() },
                one(TrafficDimension::RichRule),
            ),
        ),
        FirewallOperation::AddIcmpBlock { zone, icmp, target } => Some(
            classified(
                OperationEffectSupport::SupportedExact,
                *target,
                AffectedObject::ZoneIcmp { zone: zone.dup(), icmp: icmp.dup() },
                one(TrafficDimension::Icmp),
            ),
        ),
        FirewallOperation::RemoveIcmpBlock { zone, icmp, target } => Some(
            classified(
                OperationEffectSupport::SupportedExact,
                *target,
                AffectedObject::ZoneIcmp { zone: zone.dup(), icmp: icmp.dup() },
                one(TrafficDimension::Icmp),
            ),
        ),
        _ => None,
    }
}

fn zone_effect(operation: &FirewallOperation) -> (r: Option<OperationEffect>)
    ensures
        r.deep_view() == OperationEffectView::of_zone(operation.deep_view()),
{
    match operation {
        FirewallOperation::SetDefaultZone { zone } => Some(
            whole(
                OperationEffectSupport::SupportedExact,
                OperationTargetSequence::RuntimeAndPermanent,
                AffectedObject::Zone(zone.dup()),
                one(TrafficDimension::ZoneSelection),
                TemporalBehavior::Immediate,
            ),
        ),
        FirewallOperation::SetMasquerade { zone, target, .. } => Some(
            classified(
                OperationEffectSupport::SupportedExact,
                *target,
                AffectedObject::Zone(zone.dup()),
                one(TrafficDimension::Masquerade),
            ),
        ),
        FirewallOperation::SetZoneTarget { zone, .. } => Some(
            classified(
                OperationEffectSupport::SupportedExact,
                ConfigurationTarget::Permanent,
                AffectedObject::Zone(zone.dup()),
                one(TrafficDimension::ZoneDecision),
            ),
        ),
        FirewallOperation::SetForward { zone, target, .. } => Some(
            classified(
                OperationEffectSupport::SupportedExact,
                *target,
                AffectedObject::Zone(zone.dup()),
                one(TrafficDimension::Forwarding),
            ),
        ),
        FirewallOperation::SetIcmpBlockInversion { zone, target, .. } => Some(
            classified(
                OperationEffectSupport::SupportedExact,
                *target,
                AffectedObject::Zone(zone.dup()),
                one(TrafficDimension::Icmp),
            ),
        ),
        FirewallOperation::AddInterface { zone, interface, target } => Some(
            classified(
                OperationEffectSupport::SupportedExact,
                *target,
                AffectedObject::ZoneInterface { zone: zone.dup(), interface: interface.dup() },
                one(TrafficDimension::ZoneSelection),
            ),
        ),
        FirewallOperation::RemoveInterface { zone, interface, target } => Some(
            classified(
                OperationEffectSupport::SupportedExact,
                *target,
                AffectedObject::ZoneInterface { zone: zone.dup(), interface: interface.dup() },
                one(TrafficDimension::ZoneSelection),
            ),
        ),
        FirewallOperation::AddSource { zone, source, target } => Some(
            classified(
                source_binding_support(source),
                *target,
                AffectedObject::ZoneSource { zone: zone.dup(), source: source.dup() },
                one(TrafficDimension::ZoneSelection),
            ),
        ),
        FirewallOperation::RemoveSource { zone, source, target } => Some(
            classified(
                source_binding_support(source),
                *target,
                AffectedObject::ZoneSource { zone: zone.dup(), source: source.dup() },
                one(TrafficDimension::ZoneSelection),
            ),
        ),
        FirewallOperation::CreateZone { zone } => Some(
            classified(
                OperationEffectSupport::SupportedExact,
                ConfigurationTarget::Permanent,
                AffectedObject::Zone(zone.dup()),
                two(TrafficDimension::ZoneSelection, TrafficDimension::ZoneDecision),
            ),
        ),
        FirewallOperation::DeleteZone { zone } => Some(
            classified(
                OperationEffectSupport::SupportedExact,
                ConfigurationTarget::Permanent,
                AffectedObject::Zone(zone.dup()),
                two(TrafficDimension::ZoneSelection, TrafficDimension::ZoneDecision),
            ),
        ),
        _ => None,
    }
}

fn object_effect(operation: &FirewallOperation) -> (r: Option<OperationEffect>)
    ensures
        r.deep_view() == OperationEffectView::of_object(operation.deep_view()),
{
    match operation {
        FirewallOperation::CreateService { service } => Some(
            classified(
                OperationEffectSupport::SupportedExact,
                ConfigurationTarget::Permanent,
                AffectedObject::ServiceDefinition(service.dup()),
                one(TrafficDimension::ServiceDefinition),
            ),
        ),
        FirewallOperation::DeleteService { service } => Some(
            classified(
                OperationEffectSupport::SupportedExact,
                ConfigurationTarget::Permanent,
                AffectedObject::ServiceDefinition(service.dup()),
                one(TrafficDimension::ServiceDefinition),
            ),
        ),
        FirewallOperation::AddServicePort { service, port } => Some(
            classified(
                OperationEffectSupport::SupportedExact,
                ConfigurationTarget::Permanent,
                AffectedObject::ServiceDefinitionPort { service: service.dup(), port: port.dup() },
                two(TrafficDimension::ServiceDefinition, TrafficDimension::DestinationPort),
            ),
        ),
        FirewallOperation::RemoveServicePort { service, port } => Some(
            classified(
                OperationEffectSupport::SupportedExact,
                ConfigurationTarget::Permanent,
                AffectedObject::ServiceDefinitionPort { service: service.dup(), port: port.dup() },
                two(TrafficDimension::ServiceDefinition, TrafficDimension::DestinationPort),
            ),
        ),
        FirewallOperation::CreatePolicy { policy } => Some(
            classified(
                OperationEffectSupport::SupportedExact,
                ConfigurationTarget::Permanent,
                AffectedObject::Policy(policy.dup()),
                one(TrafficDimension::Policy),
            ),
        ),
        FirewallOperation::DeletePolicy { policy } => Some(
            classified(
                OperationEffectSupport::SupportedExact,
                ConfigurationTarget::Permanent,
                AffectedObject::Policy(policy.dup()),
                one(TrafficDimension::Policy),
            ),
        ),
        FirewallOperation::MigrateDirectRule { migration } => Some(
            classified_with_partial(
                OperationEffectSupport::UnsupportedRelevant(
                    UnsupportedOperationReason::DirectRuleMigration,
                ),
                ConfigurationTarget::Permanent,
                AffectedObject::Policy(migration.policy().dup()),
                two(TrafficDimension::Policy, TrafficDimension::RichRule),
                PartialApplicationPolicy::ReconcileExecutedSteps,
            ),
        ),
        FirewallOperation::SetPolicyTarget { policy, .. } => Some(
            classified(
                OperationEffectSupport::SupportedExact,
                ConfigurationTarget::Permanent,
                AffectedObject::Policy(policy.dup()),
                one(TrafficDimension::Policy),
            ),
        ),
        FirewallOperation::AddPolicyIngressZone { policy, zone } => Some(
            classified(
                OperationEffectSupport::SupportedExact,
                ConfigurationTarget::Permanent,
                AffectedObject::PolicyZone {
                    policy: policy.dup(),
                    direction: PolicyZoneDirection::Ingress,
                    zone: zone.dup(),
                },
                two(TrafficDimension::Policy, TrafficDimension::ZoneSelection),
            ),
        ),
        FirewallOperation::AddPolicyEgressZone { policy, zone } => Some(
            classified(
                OperationEffectSupport::SupportedExact,
                ConfigurationTarget::Permanent,
                AffectedObject::PolicyZone {
                    policy: policy.dup(),
                    direction: PolicyZoneDirection::Egress,
                    zone: zone.dup(),
                },
                two(TrafficDimension::Policy, TrafficDimension::ZoneSelection),
            ),
        ),
        FirewallOperation::AddPolicyService { policy, service, target } => Some(
            classified(
                OperationEffectSupport::SupportedExact,
                *target,
                AffectedObject::PolicyService { policy: policy.dup(), service: service.dup() },
                two(TrafficDimension::Policy, TrafficDimension::Service),
            ),
        ),
        FirewallOperation::RemovePolicyService { policy, service, target } => Some(
            classified(
                OperationEffectSupport::SupportedExact,
                *target,
                AffectedObject::PolicyService { policy: policy.dup(), service: service.dup() },
                two(TrafficDimension::Policy, TrafficDimension::Service),
            ),
        ),
        FirewallOperation::SetPolicySetEnabled { policy_set, target, .. } => Some(
            classified_with_partial(
                OperationEffectSupport::SupportedExact,
                *target,
                AffectedObject::PolicySet(policy_set.dup()),
                one(TrafficDimension::Policy),
                PartialApplicationPolicy::ReconcileExecutedSteps,
            ),
        ),
        FirewallOperation::CreateIpSet { name, .. } => Some(
            classified(
                OperationEffectSupport::UnsupportedRelevant(
                    UnsupportedOperationReason::IpSetSemantics,
                ),
                ConfigurationTarget::Permanent,
                AffectedObject::IpSet(name.dup()),
                one(TrafficDimension::IpSet),
            ),
        ),
        FirewallOperation::DeleteIpSet { name } => Some(
            classified(
                OperationEffectSupport::UnsupportedRelevant(
                    UnsupportedOperationReason::IpSetSemantics,
                ),
                ConfigurationTarget::Permanent,
                AffectedObject::IpSet(name.dup()),
                one(TrafficDimension::IpSet),
            ),
        ),
        FirewallOperation::AddIpSetEntry { name, entry, target } => Some(
            classified(
                OperationEffectSupport::UnsupportedRelevant(
                    UnsupportedOperationReason::IpSetSemantics,
                ),
                *target,
                AffectedObject::IpSetEntry { name: name.dup(), entry: entry.dup() },
                one(TrafficDimension::IpSet),
            ),
        ),
        FirewallOperation::RemoveIpSetEntry { name, entry, target } => Some(
            classified(
                OperationEffectSupport::UnsupportedRelevant(
                    UnsupportedOperationReason::IpSetSemantics,
                ),
                *target,
                AffectedObject::IpSetEntry { name: name.dup(), entry: entry.dup() },
                one(TrafficDimension::IpSet),
            ),
        ),
        _ => None,
    }
}

fn global_effect(operation: &FirewallOperation) -> (r: Option<OperationEffect>)
    ensures
        r.deep_view() == OperationEffectView::of_global(operation.deep_view()),
{
    match operation {
        FirewallOperation::SetPanicMode { .. } => Some(
            classified(
                OperationEffectSupport::SupportedExact,
                ConfigurationTarget::Runtime,
                AffectedObject::PanicMode,
                one(TrafficDimension::PanicMode),
            ),
        ),
        FirewallOperation::RuntimeToPermanent => Some(
            whole(
                OperationEffectSupport::GlobalTransform,
                OperationTargetSequence::PermanentFromRuntime,
                AffectedObject::Global,
                one(TrafficDimension::GlobalConfiguration),
                TemporalBehavior::GlobalReplacement,
            ),
        ),
        FirewallOperation::SetLogDenied { .. } => Some(
            whole(
                OperationEffectSupport::GlobalTransform,
                OperationTargetSequence::RuntimeFromPermanent,
                AffectedObject::Global,
                two(TrafficDimension::Observability, TrafficDimension::GlobalConfiguration),
                TemporalBehavior::GlobalReplacement,
            ),
        ),
        FirewallOperation::Reload => Some(
            whole(
                OperationEffectSupport::GlobalTransform,
                OperationTargetSequence::RuntimeFromPermanent,
                AffectedObject::Global,
                one(TrafficDimension::GlobalConfiguration),
                TemporalBehavior::GlobalReplacement,
            ),
        ),
        _ => None,
    }
}

impl OperationEffect {
    /// The effect of an operation.
    pub fn classify(operation: &FirewallOperation) -> (r: Self)
        ensures
            r.deep_view() == OperationEffectView::of(operation.deep_view()),
    {
        if let Some(effect) = rule_effect(operation) {
            return effect;
        }
        if let Some(effect) = zone_effect(operation) {
            return effect;
        }
        if let Some(effect) = object_effect(operation) {
            return effect;
        }
        global_effect(operation).unwrap()
    }
}

impl FirewallOperation {
    /// What the operation does to traffic.
    pub fn effect(&self) -> (r: OperationEffect)
        ensures
            r.deep_view() == OperationEffectView::of(self.deep_view()),
    {
        OperationEffect::classify(self)
    }
}

#[verifier::opaque]
spec fn effect_survives_inversion(op: FirewallOperationView) -> bool {
    op.inverted(op.target()) matches Some(inverse) ==> OperationEffectView::of(inverse)
        == OperationEffectView::of(op) && OperationEffectView::of(op).dimensions.len() > 0
}

/// An operation and its inverse have the same effect metadata: the same
/// support, targets, timing, handling of partial application, object and
/// dimensions. A temporary service is the exception: it ends by itself, its
/// removal does not.
pub proof fn inverse_has_the_same_effect(op: FirewallOperationView)
    requires
        !(op is AddTemporaryService),
    ensures
        op.inverted(op.target()) matches Some(inverse) ==> OperationEffectView::of(inverse)
            == OperationEffectView::of(op),
        op.inverted(op.target()) is Some ==> OperationEffectView::of(op).dimensions.len() > 0,
{
    if op is AddService || op is AddTemporaryService || op is RemoveService || op is AddPort
        || op is RemovePort || op is SetDefaultZone || op is SetMasquerade
        || op is SetZoneTarget {
        assert(effect_survives_inversion(op)) by {
            reveal(effect_survives_inversion);
        }
    } else if op is AddSourcePort || op is RemoveSourcePort || op is AddProtocol
        || op is RemoveProtocol || op is SetForward || op is SetIcmpBlockInversion
        || op is AddForwardPort || op is RemoveForwardPort {
        assert(effect_survives_inversion(op)) by {
            reveal(effect_survives_inversion);
        }
    } else if op is AddRichRule || op is RemoveRichRule || op is AddInterface
        || op is RemoveInterface || op is AddSource || op is RemoveSource || op is AddIcmpBlock
        || op is RemoveIcmpBlock {
        assert(effect_survives_inversion(op)) by {
            reveal(effect_survives_inversion);
        }
    } else if op is CreateService || op is DeleteService || op is AddServicePort
        || op is RemoveServicePort || op is CreatePolicy || op is DeletePolicy
        || op is MigrateDirectRule || op is SetPolicyTarget {
        assert(effect_survives_inversion(op)) by {
            reveal(effect_survives_inversion);
        }
    } else if op is AddPolicyIngressZone || op is AddPolicyEgressZone || op is AddPolicyService
        || op is RemovePolicyService || op is SetPolicySetEnabled || op is CreateIpSet
        || op is DeleteIpSet || op is AddIpSetEntry {
        assert(effect_survives_inversion(op)) by {
            reveal(effect_survives_inversion);
        }
    } else {
        assert(effect_survives_inversion(op)) by {
            reveal(effect_survives_inversion);
        }
    }
    reveal(effect_survives_inversion);
}

} // verus!
