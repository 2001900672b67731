//! What the effect of an operation says about it.

use vstd::prelude::*;

use crate::operation::FirewallOperationView;
use crate::operation_effect::{
    AffectedObjectView, OperationEffectSupport, OperationEffectView, OperationTargetSequence,
    PartialApplicationPolicy, PolicyZoneDirection, TemporalBehavior, TrafficDimension,
    UnsupportedOperationReason,
};
use crate::address::SourceAddressView;
use crate::rich_rule;
use crate::snapshot::ConfigurationTarget;

verus! {

/// The effect is on the object that the operation names, in the dimensions of
/// traffic that the object has a say in. What adds an item and what removes it
/// have their effect on the same object.
pub open spec fn on_its_object(op: FirewallOperationView, e: OperationEffectView) -> bool {
    match op {
        FirewallOperationView::AddService { zone, service, .. }
        | FirewallOperationView::AddTemporaryService { zone, service, .. }
        | FirewallOperationView::RemoveService { zone, service, .. } => {
            &&& e.object == AffectedObjectView::ZoneService { zone, service }
            &&& e.dimensions == seq![TrafficDimension::Service]
        },
        FirewallOperationView::AddPort { zone, port, .. }
        | FirewallOperationView::RemovePort { zone, port, .. } => {
            &&& e.object == AffectedObjectView::ZonePort { zone, port }
            &&& e.dimensions == seq![TrafficDimension::DestinationPort]
        },
        FirewallOperationView::AddSourcePort { zone, port, .. }
        | FirewallOperationView::RemoveSourcePort { zone, port, .. } => {
            &&& e.object == AffectedObjectView::ZoneSourcePort { zone, port }
            &&& e.dimensions == seq![TrafficDimension::SourcePort]
        },
        FirewallOperationView::AddProtocol { zone, protocol, .. }
        | FirewallOperationView::RemoveProtocol { zone, protocol, .. } => {
            &&& e.object == AffectedObjectView::ZoneProtocol { zone, protocol }
            &&& e.dimensions == seq![TrafficDimension::Protocol]
        },
        FirewallOperationView::AddForwardPort { zone, forward, .. }
        | FirewallOperationView::RemoveForwardPort { zone, forward, .. } => {
            &&& e.object == AffectedObjectView::ZoneForwardPort { zone, forward }
            &&& e.dimensions == seq![TrafficDimension::Forwarding, TrafficDimension::DestinationPort]
        },
        FirewallOperationView::AddRichRule { zone, rule, .. }
        | FirewallOperationView::RemoveRichRule { zone, rule, .. } => {
            &&& e.object == AffectedObjectView::ZoneRichRule { zone, rule }
            &&& e.dimensions == seq![TrafficDimension::RichRule]
        },
        FirewallOperationView::AddIcmpBlock { zone, icmp, .. }
        | FirewallOperationView::RemoveIcmpBlock { zone, icmp, .. } => {
            &&& e.object == AffectedObjectView::ZoneIcmp { zone, icmp }
            &&& e.dimensions == seq![TrafficDimension::Icmp]
        },
        FirewallOperationView::AddInterface { zone, interface, .. }
        | FirewallOperationView::RemoveInterface { zone, interface, .. } => {
            &&& e.object == AffectedObjectView::ZoneInterface { zone, interface }
            &&& e.dimensions == seq![TrafficDimension::ZoneSelection]
        },
        FirewallOperationView::AddSource { zone, source, .. }
        | FirewallOperationView::RemoveSource { zone, source, .. } => {
            &&& e.object == AffectedObjectView::ZoneSource { zone, source }
            &&& e.dimensions == seq![TrafficDimension::ZoneSelection]
        },
        FirewallOperationView::SetDefaultZone { zone, .. } => {
            &&& e.object == AffectedObjectView::Zone(zone)
            &&& e.dimensions == seq![TrafficDimension::ZoneSelection]
        },
        FirewallOperationView::SetMasquerade { zone, .. } => {
            &&& e.object == AffectedObjectView::Zone(zone)
            &&& e.dimensions == seq![TrafficDimension::Masquerade]
        },
        FirewallOperationView::SetForward { zone, .. } => {
            &&& e.object == AffectedObjectView::Zone(zone)
            &&& e.dimensions == seq![TrafficDimension::Forwarding]
        },
        FirewallOperationView::SetIcmpBlockInversion { zone, .. } => {
            &&& e.object == AffectedObjectView::Zone(zone)
            &&& e.dimensions == seq![TrafficDimension::Icmp]
        },
        FirewallOperationView::SetZoneTarget { zone, .. } => {
            &&& e.object == AffectedObjectView::Zone(zone)
            &&& e.dimensions == seq![TrafficDimension::ZoneDecision]
        },
        FirewallOperationView::CreateZone { zone, .. }
        | FirewallOperationView::DeleteZone { zone, .. } => {
            &&& e.object == AffectedObjectView::Zone(zone)
            &&& e.dimensions == seq![TrafficDimension::ZoneSelection, TrafficDimension::ZoneDecision]
        },
        FirewallOperationView::CreateService { service, .. }
        | FirewallOperationView::DeleteService { service, .. } => {
            &&& e.object == AffectedObjectView::ServiceDefinition(service)
            &&& e.dimensions == seq![TrafficDimension::ServiceDefinition]
        },
        FirewallOperationView::AddServicePort { service, port, .. }
        | FirewallOperationView::RemoveServicePort { service, port, .. } => {
            &&& e.object == AffectedObjectView::ServiceDefinitionPort { service, port }
            &&& e.dimensions == seq![TrafficDimension::ServiceDefinition, TrafficDimension::DestinationPort]
        },
        FirewallOperationView::CreatePolicy { policy, .. }
        | FirewallOperationView::DeletePolicy { policy, .. }
        | FirewallOperationView::SetPolicyTarget { policy, .. } => {
            &&& e.object == AffectedObjectView::Policy(policy)
            &&& e.dimensions == seq![TrafficDimension::Policy]
        },
        FirewallOperationView::AddPolicyService { policy, service, .. }
        | FirewallOperationView::RemovePolicyService { policy, service, .. } => {
            &&& e.object == AffectedObjectView::PolicyService { policy, service }
            &&& e.dimensions == seq![TrafficDimension::Policy, TrafficDimension::Service]
        },
        FirewallOperationView::SetPolicySetEnabled { policy_set, .. } => {
            &&& e.object == AffectedObjectView::PolicySet(policy_set)
            &&& e.dimensions == seq![TrafficDimension::Policy]
        },
        FirewallOperationView::CreateIpSet { name, .. }
        | FirewallOperationView::DeleteIpSet { name, .. } => {
            &&& e.object == AffectedObjectView::IpSet(name)
            &&& e.dimensions == seq![TrafficDimension::IpSet]
        },
        FirewallOperationView::AddIpSetEntry { name, entry, .. }
        | FirewallOperationView::RemoveIpSetEntry { name, entry, .. } => {
            &&& e.object == AffectedObjectView::IpSetEntry { name, entry }
            &&& e.dimensions == seq![TrafficDimension::IpSet]
        },
        FirewallOperationView::AddPolicyIngressZone { policy, zone } => {
            &&& e.object == AffectedObjectView::PolicyZone {
                policy,
                direction: PolicyZoneDirection::Ingress,
                zone,
            }
            &&& e.dimensions == seq![TrafficDimension::Policy, TrafficDimension::ZoneSelection]
        },
        FirewallOperationView::AddPolicyEgressZone { policy, zone } => {
            &&& e.object == AffectedObjectView::PolicyZone {
                policy,
                direction: PolicyZoneDirection::Egress,
                zone,
            }
            &&& e.dimensions == seq![TrafficDimension::Policy, TrafficDimension::ZoneSelection]
        },
        FirewallOperationView::MigrateDirectRule { migration } => {
            &&& e.object == AffectedObjectView::Policy(migration.policy)
            &&& e.dimensions == seq![TrafficDimension::Policy, TrafficDimension::RichRule]
        },
        FirewallOperationView::SetPanicMode { .. } => {
            &&& e.object == AffectedObjectView::PanicMode
            &&& e.dimensions == seq![TrafficDimension::PanicMode]
        },
        FirewallOperationView::SetLogDenied { .. } => {
            &&& e.object == AffectedObjectView::Global
            &&& e.dimensions == seq![TrafficDimension::Observability, TrafficDimension::GlobalConfiguration]
        },
        FirewallOperationView::RuntimeToPermanent | FirewallOperationView::Reload => {
            &&& e.object == AffectedObjectView::Global
            &&& e.dimensions == seq![TrafficDimension::GlobalConfiguration]
        },
    }
}

#[verifier::opaque]
spec fn object_named(op: FirewallOperationView) -> bool {
    on_its_object(op, OperationEffectView::of(op))
}

/// Every operation has its effect on the object that it names.
pub proof fn effects_are_on_their_object(op: FirewallOperationView)
    ensures
        on_its_object(op, OperationEffectView::of(op)),
{
    if op is AddService || op is AddTemporaryService || op is RemoveService || op is AddPort
        || op is RemovePort || op is SetDefaultZone || op is SetMasquerade || op is SetZoneTarget {
        assert(object_named(op)) by {
            reveal(object_named);
        }
    } else if op is AddSourcePort || op is RemoveSourcePort || op is AddProtocol
        || op is RemoveProtocol || op is SetForward || op is SetIcmpBlockInversion
        || op is AddForwardPort || op is RemoveForwardPort {
        assert(object_named(op)) by {
            reveal(object_named);
        }
    } else if op is AddRichRule || op is RemoveRichRule || op is AddInterface
        || op is RemoveInterface || op is AddSource || op is RemoveSource
        || op is AddIcmpBlock || op is RemoveIcmpBlock {
        assert(object_named(op)) by {
            reveal(object_named);
        }
    } else if op is CreateService || op is DeleteService || op is AddServicePort
        || op is RemoveServicePort || op is CreatePolicy || op is DeletePolicy
        || op is MigrateDirectRule || op is SetPolicyTarget {
        assert(object_named(op)) by {
            reveal(object_named);
        }
    } else if op is AddPolicyIngressZone || op is AddPolicyEgressZone
        || op is AddPolicyService || op is RemovePolicyService || op is SetPolicySetEnabled
        || op is CreateIpSet || op is DeleteIpSet || op is AddIpSetEntry {
        assert(object_named(op)) by {
            reveal(object_named);
        }
    } else {
        assert(object_named(op)) by {
            reveal(object_named);
        }
    }
    reveal(object_named);
}

/// How the operation is carried out: in the configuration that it targets, in
/// the runtime first where it targets both. The default zone is set in both at
/// once, storing and reloading replace one by the other, a temporary service
/// expires, and what takes several steps may be left half done.
pub open spec fn carried_out(op: FirewallOperationView, e: OperationEffectView) -> bool {
    &&& e.targets == match op {
        FirewallOperationView::SetDefaultZone { .. } =>
            OperationTargetSequence::RuntimeAndPermanent,
        FirewallOperationView::RuntimeToPermanent => OperationTargetSequence::PermanentFromRuntime,
        FirewallOperationView::Reload | FirewallOperationView::SetLogDenied { .. } =>
            OperationTargetSequence::RuntimeFromPermanent,
        _ => match op.target() {
            ConfigurationTarget::Runtime => OperationTargetSequence::Runtime,
            ConfigurationTarget::Permanent => OperationTargetSequence::Permanent,
            ConfigurationTarget::RuntimeAndPermanent =>
                OperationTargetSequence::RuntimeThenPermanent,
        },
    }
    &&& e.temporal == match op {
        FirewallOperationView::AddTemporaryService { seconds, .. } =>
            TemporalBehavior::ExpiresAfterSeconds(seconds),
        FirewallOperationView::RuntimeToPermanent | FirewallOperationView::Reload
        | FirewallOperationView::SetLogDenied { .. } => TemporalBehavior::GlobalReplacement,
        FirewallOperationView::SetDefaultZone { .. } => TemporalBehavior::Immediate,
        _ => if op.target() == ConfigurationTarget::Permanent {
            TemporalBehavior::StoredUntilReload
        } else {
            TemporalBehavior::Immediate
        },
    }
    &&& (e.partial_application == PartialApplicationPolicy::ReconcileExecutedSteps) == (op
        is MigrateDirectRule || op is SetPolicySetEnabled || (!(op is SetDefaultZone)
        && !(op is Reload) && !(op is SetLogDenied) && op.target()
        == ConfigurationTarget::RuntimeAndPermanent))
}

#[verifier::opaque]
spec fn course_named(op: FirewallOperationView) -> bool {
    carried_out(op, OperationEffectView::of(op))
}

/// Every effect says how its operation is carried out.
pub proof fn effects_say_how_it_is_done(op: FirewallOperationView)
    ensures
        carried_out(op, OperationEffectView::of(op)),
{
    if op is AddService || op is AddTemporaryService || op is RemoveService || op is AddPort
        || op is RemovePort || op is SetDefaultZone || op is SetMasquerade || op is SetZoneTarget {
        assert(course_named(op)) by {
            reveal(course_named);
        }
    } else if op is AddSourcePort || op is RemoveSourcePort || op is AddProtocol
        || op is RemoveProtocol || op is SetForward || op is SetIcmpBlockInversion
        || op is AddForwardPort || op is RemoveForwardPort {
        assert(course_named(op)) by {
            reveal(course_named);
        }
    } else if op is AddRichRule || op is RemoveRichRule || op is AddInterface
        || op is RemoveInterface || op is AddSource || op is RemoveSource
        || op is AddIcmpBlock || op is RemoveIcmpBlock {
        assert(course_named(op)) by {
            reveal(course_named);
        }
    } else if op is CreateService || op is DeleteService || op is AddServicePort
        || op is RemoveServicePort || op is CreatePolicy || op is DeletePolicy
        || op is MigrateDirectRule || op is SetPolicyTarget {
        assert(course_named(op)) by {
            reveal(course_named);
        }
    } else if op is AddPolicyIngressZone || op is AddPolicyEgressZone
        || op is AddPolicyService || op is RemovePolicyService || op is SetPolicySetEnabled
        || op is CreateIpSet || op is DeleteIpSet || op is AddIpSetEntry {
        assert(course_named(op)) by {
            reveal(course_named);
        }
    } else {
        assert(course_named(op)) by {
            reveal(course_named);
        }
    }
    reveal(course_named);
}

/// What can be projected: operations on ipsets and translated direct rules
/// cannot, nor can rich rules whose analysis is not supported, nor bindings of
/// hardware addresses and ipsets. A temporary service can at the instant.
/// Storing and reloading replace a whole configuration; all else is exact.
pub open spec fn projected_as(op: FirewallOperationView, s: OperationEffectSupport) -> bool {
    s == match op {
        FirewallOperationView::AddTemporaryService { .. } =>
            OperationEffectSupport::SupportedAtEvaluationInstant,
        FirewallOperationView::RuntimeToPermanent | FirewallOperationView::Reload
        | FirewallOperationView::SetLogDenied { .. } => OperationEffectSupport::GlobalTransform,
        FirewallOperationView::CreateIpSet { .. } | FirewallOperationView::DeleteIpSet { .. }
        | FirewallOperationView::AddIpSetEntry { .. }
        | FirewallOperationView::RemoveIpSetEntry { .. } =>
            OperationEffectSupport::UnsupportedRelevant(UnsupportedOperationReason::IpSetSemantics),
        FirewallOperationView::MigrateDirectRule { .. } =>
            OperationEffectSupport::UnsupportedRelevant(
                UnsupportedOperationReason::DirectRuleMigration,
            ),
        FirewallOperationView::AddRichRule { rule, .. }
        | FirewallOperationView::RemoveRichRule { rule, .. } => if rich_rule::analyzed(
            rule,
        ) is Supported {
            OperationEffectSupport::SupportedExact
        } else {
            OperationEffectSupport::UnsupportedRelevant(
                UnsupportedOperationReason::RichRuleSemantics,
            )
        },
        FirewallOperationView::AddSource { source, .. }
        | FirewallOperationView::RemoveSource { source, .. } => match source {
            SourceAddressView::Ip { .. } => OperationEffectSupport::SupportedExact,
            SourceAddressView::Mac(_) => OperationEffectSupport::UnsupportedRelevant(
                UnsupportedOperationReason::MacSourceBinding,
            ),
            SourceAddressView::IpSet(_) => OperationEffectSupport::UnsupportedRelevant(
                UnsupportedOperationReason::IpSetSemantics,
            ),
        },
        _ => OperationEffectSupport::SupportedExact,
    }
}

#[verifier::opaque]
spec fn support_named(op: FirewallOperationView) -> bool {
    projected_as(op, OperationEffectView::of(op).support)
}

/// Every effect says whether it can be projected.
pub proof fn effects_say_what_can_be_projected(op: FirewallOperationView)
    ensures
        projected_as(op, OperationEffectView::of(op).support),
{
    if op is AddService || op is AddTemporaryService || op is RemoveService || op is AddPort
        || op is RemovePort || op is SetDefaultZone || op is SetMasquerade || op is SetZoneTarget {
        assert(support_named(op)) by {
            reveal(support_named);
        }
    } else if op is AddSourcePort || op is RemoveSourcePort || op is AddProtocol
        || op is RemoveProtocol || op is SetForward || op is SetIcmpBlockInversion
        || op is AddForwardPort || op is RemoveForwardPort {
        assert(support_named(op)) by {
            reveal(support_named);
        }
    } else if op is AddRichRule || op is RemoveRichRule || op is AddInterface
        || op is RemoveInterface || op is AddSource || op is RemoveSource
        || op is AddIcmpBlock || op is RemoveIcmpBlock {
        assert(support_named(op)) by {
            reveal(support_named);
        }
    } else if op is CreateService || op is DeleteService || op is AddServicePort
        || op is RemoveServicePort || op is CreatePolicy || op is DeletePolicy
        || op is MigrateDirectRule || op is SetPolicyTarget {
        assert(support_named(op)) by {
            reveal(support_named);
        }
    } else if op is AddPolicyIngressZone || op is AddPolicyEgressZone
        || op is AddPolicyService || op is RemovePolicyService || op is SetPolicySetEnabled
        || op is CreateIpSet || op is DeleteIpSet || op is AddIpSetEntry {
        assert(support_named(op)) by {
            reveal(support_named);
        }
    } else {
        assert(support_named(op)) by {
            reveal(support_named);
        }
    }
    reveal(support_named);
}

} // verus!
