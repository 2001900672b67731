//! What an operation does to the details of a zone or a policy.

use vstd::prelude::*;

use crate::ids::{PolicyName, ZoneName};
use crate::lists;
use crate::model::Value;
use crate::operation::{FirewallOperation, FirewallOperationView};
use crate::policy::{PolicyDetails, PolicyDetailsView};
use crate::snapshot::ConfigurationTarget;
use crate::zone::{ZoneDetails, ZoneDetailsView};

verus! {

impl FirewallOperationView {
    /// For edits of a zone's details: the zone and the scopes that are edited.
    pub open spec fn zone_scope(self) -> Option<(Seq<char>, ConfigurationTarget)> {
        match self {
            FirewallOperationView::AddTemporaryService { zone, .. } => Some(
                (zone, ConfigurationTarget::Runtime),
            ),
            FirewallOperationView::SetZoneTarget { zone, .. } => Some(
                (zone, ConfigurationTarget::Permanent),
            ),
            FirewallOperationView::AddService { zone, target, .. } => Some((zone, target)),
            FirewallOperationView::RemoveService { zone, target, .. } => Some((zone, target)),
            FirewallOperationView::AddPort { zone, target, .. } => Some((zone, target)),
            FirewallOperationView::RemovePort { zone, target, .. } => Some((zone, target)),
            FirewallOperationView::AddSourcePort { zone, target, .. } => Some((zone, target)),
            FirewallOperationView::RemoveSourcePort { zone, target, .. } => Some((zone, target)),
            FirewallOperationView::AddProtocol { zone, target, .. } => Some((zone, target)),
            FirewallOperationView::RemoveProtocol { zone, target, .. } => Some((zone, target)),
            FirewallOperationView::AddForwardPort { zone, target, .. } => Some((zone, target)),
            FirewallOperationView::RemoveForwardPort { zone, target, .. } => Some((zone, target)),
            FirewallOperationView::AddRichRule { zone, target, .. } => Some((zone, target)),
            FirewallOperationView::RemoveRichRule { zone, target, .. } => Some((zone, target)),
            FirewallOperationView::AddInterface { zone, target, .. } => Some((zone, target)),
            FirewallOperationView::RemoveInterface { zone, target, .. } => Some((zone, target)),
            FirewallOperationView::AddSource { zone, target, .. } => Some((zone, target)),
            FirewallOperationView::RemoveSource { zone, target, .. } => Some((zone, target)),
            FirewallOperationView::AddIcmpBlock { zone, target, .. } => Some((zone, target)),
            FirewallOperationView::RemoveIcmpBlock { zone, target, .. } => Some((zone, target)),
            FirewallOperationView::SetMasquerade { zone, target, .. } => Some((zone, target)),
            FirewallOperationView::SetForward { zone, target, .. } => Some((zone, target)),
            FirewallOperationView::SetIcmpBlockInversion { zone, target, .. } => Some(
                (zone, target),
            ),
            _ => None,
        }
    }

    /// The details of a zone after the operation was applied to them: an item
    /// is added unless it is there, a removed item is gone, a setting is set.
    pub open spec fn zone_edited(self, z: ZoneDetailsView) -> ZoneDetailsView {
        match self {
            FirewallOperationView::AddTemporaryService { service, .. } => ZoneDetailsView {
                services: lists::with(z.services, service),
                ..z
            },
            FirewallOperationView::SetZoneTarget { zone_target, .. } => ZoneDetailsView {
                target: zone_target,
                ..z
            },
            FirewallOperationView::AddService { service, .. } => ZoneDetailsView {
                services: lists::with(z.services, service),
                ..z
            },
            FirewallOperationView::RemoveService { service, .. } => ZoneDetailsView {
                services: lists::without(z.services, service),
                ..z
            },
            FirewallOperationView::AddPort { port, .. } => ZoneDetailsView {
                ports: lists::with(z.ports, port),
                ..z
            },
            FirewallOperationView::RemovePort { port, .. } => ZoneDetailsView {
                ports: lists::without(z.ports, port),
                ..z
            },
            FirewallOperationView::AddSourcePort { port, .. } => ZoneDetailsView {
                source_ports: lists::with(z.source_ports, port),
                ..z
            },
            FirewallOperationView::RemoveSourcePort { port, .. } => ZoneDetailsView {
                source_ports: lists::without(z.source_ports, port),
                ..z
            },
            FirewallOperationView::AddProtocol { protocol, .. } => ZoneDetailsView {
                protocols: lists::with(z.protocols, protocol),
                ..z
            },
            FirewallOperationView::RemoveProtocol { protocol, .. } => ZoneDetailsView {
                protocols: lists::without(z.protocols, protocol),
                ..z
            },
            FirewallOperationView::AddForwardPort { forward, .. } => ZoneDetailsView {
                forward_ports: lists::with(z.forward_ports, forward),
                ..z
            },
            FirewallOperationView::RemoveForwardPort { forward, .. } => ZoneDetailsView {
                forward_ports: lists::without(z.forward_ports, forward),
                ..z
            },
            FirewallOperationView::AddRichRule { rule, .. } => ZoneDetailsView {
                rich_rules: lists::with(z.rich_rules, rule),
                ..z
            },
            FirewallOperationView::RemoveRichRule { rule, .. } => ZoneDetailsView {
                rich_rules: lists::without(z.rich_rules, rule),
                ..z
            },
            FirewallOperationView::AddInterface { interface, .. } => ZoneDetailsView {
                interfaces: lists::with(z.interfaces, interface),
                ..z
            },
            FirewallOperationView::RemoveInterface { interface, .. } => ZoneDetailsView {
                interfaces: lists::without(z.interfaces, interface),
                ..z
            },
            FirewallOperationView::AddSource { source, .. } => ZoneDetailsView {
                sources: lists::with(z.sources, source),
                ..z
            },
            FirewallOperationView::RemoveSource { source, .. } => ZoneDetailsView {
                sources: lists::without(z.sources, source),
                ..z
            },
            FirewallOperationView::AddIcmpBlock { icmp, .. } => ZoneDetailsView {
                icmp_blocks: lists::with(z.icmp_blocks, icmp),
                ..z
            },
            FirewallOperationView::RemoveIcmpBlock { icmp, .. } => ZoneDetailsView {
                icmp_blocks: lists::without(z.icmp_blocks, icmp),
                ..z
            },
            FirewallOperationView::SetMasquerade { enabled, .. } => ZoneDetailsView {
                masquerade: enabled,
                ..z
            },
            FirewallOperationView::SetForward { enabled, .. } => ZoneDetailsView {
                forward: enabled,
                ..z
            },
            FirewallOperationView::SetIcmpBlockInversion { enabled, .. } => ZoneDetailsView {
                icmp_block_inversion: enabled,
                ..z
            },
            _ => z,
        }
    }

    /// For edits of a policy's details: the policy and the scopes that are edited.
    pub open spec fn policy_scope(self) -> Option<(Seq<char>, ConfigurationTarget)> {
        match self {
            FirewallOperationView::SetPolicyTarget { policy, .. } => Some(
                (policy, ConfigurationTarget::Permanent),
            ),
            FirewallOperationView::AddPolicyIngressZone { policy, .. } => Some(
                (policy, ConfigurationTarget::Permanent),
            ),
            FirewallOperationView::AddPolicyEgressZone { policy, .. } => Some(
                (policy, ConfigurationTarget::Permanent),
            ),
            FirewallOperationView::AddPolicyService { policy, target, .. } => Some(
                (policy, target),
            ),
            FirewallOperationView::RemovePolicyService { policy, target, .. } => Some(
                (policy, target),
            ),
            _ => None,
        }
    }

    /// The details of a policy after the operation was applied to them.
    pub open spec fn policy_edited(self, p: PolicyDetailsView) -> PolicyDetailsView {
        match self {
            FirewallOperationView::SetPolicyTarget { policy_target, .. } => PolicyDetailsView {
                target: policy_target,
                ..p
            },
            FirewallOperationView::AddPolicyIngressZone { zone, .. } => PolicyDetailsView {
                ingress_zones: lists::with(p.ingress_zones, zone),
                ..p
            },
            FirewallOperationView::AddPolicyEgressZone { zone, .. } => PolicyDetailsView {
                egress_zones: lists::with(p.egress_zones, zone),
                ..p
            },
            FirewallOperationView::AddPolicyService { service, .. } => PolicyDetailsView {
                services: lists::with(p.services, service),
                ..p
            },
            FirewallOperationView::RemovePolicyService { service, .. } => PolicyDetailsView {
                services: lists::without(p.services, service),
                ..p
            },
            _ => p,
        }
    }
}

impl FirewallOperation {
    /// For edits of a zone's details: the zone and the scopes that are edited.
    pub fn zone_scope(&self) -> (r: Option<(&ZoneName, ConfigurationTarget)>)
        ensures
            self.deep_view().zone_scope() == (match r {
                Some((zone, target)) => Some((zone.deep_view(), target)),
                None => None,
            }),
    {
        match self {
            FirewallOperation::AddTemporaryService { zone, .. } => {
                Some((zone, ConfigurationTarget::Runtime))
            },
            FirewallOperation::SetZoneTarget { zone, .. } => {
                Some((zone, ConfigurationTarget::Permanent))
            },
            FirewallOperation::AddService { zone, target, .. } => Some((zone, *target)),
            FirewallOperation::RemoveService { zone, target, .. } => Some((zone, *target)),
            FirewallOperation::AddPort { zone, target, .. } => Some((zone, *target)),
            FirewallOperation::RemovePort { zone, target, .. } => Some((zone, *target)),
            FirewallOperation::AddSourcePort { zone, target, .. } => Some((zone, *target)),
            FirewallOperation::RemoveSourcePort { zone, target, .. } => Some((zone, *target)),
            FirewallOperation::AddProtocol { zone, target, .. } => Some((zone, *target)),
            FirewallOperation::RemoveProtocol { zone, target, .. } => Some((zone, *target)),
            FirewallOperation::AddForwardPort { zone, target, .. } => Some((zone, *target)),
            FirewallOperation::RemoveForwardPort { zone, target, .. } => Some((zone, *target)),
            FirewallOperation::AddRichRule { zone, target, .. } => Some((zone, *target)),
            FirewallOperation::RemoveRichRule { zone, target, .. } => Some((zone, *target)),
            FirewallOperation::AddInterface { zone, target, .. } => Some((zone, *target)),
            FirewallOperation::RemoveInterface { zone, target, .. } => Some((zone, *target)),
            FirewallOperation::AddSource { zone, target, .. } => Some((zone, *target)),
            FirewallOperation::RemoveSource { zone, target, .. } => Some((zone, *target)),
            FirewallOperation::AddIcmpBlock { zone, target, .. } => Some((zone, *target)),
            FirewallOperation::RemoveIcmpBlock { zone, target, .. } => Some((zone, *target)),
            FirewallOperation::SetMasquerade { zone, target, .. } => Some((zone, *target)),
            FirewallOperation::SetForward { zone, target, .. } => Some((zone, *target)),
            FirewallOperation::SetIcmpBlockInversion { zone, target, .. } => Some((zone, *target)),
            _ => None,
        }
    }

    /// Applies an edit of a zone to its details. Other operations leave them.
    pub fn edit_zone(&self, details: &mut ZoneDetails)
        ensures
            final(details).deep_view() == self.deep_view().zone_edited(old(details).deep_view()),
    {
        match self {
            FirewallOperation::AddTemporaryService { service, .. } => {
                lists::push_unique(&mut details.services, service.dup());
            },
            FirewallOperation::SetZoneTarget { zone_target, .. } => {
                details.target = *zone_target;
            },
            FirewallOperation::AddService { service, .. } => {
                lists::push_unique(&mut details.services, service.dup());
            },
            FirewallOperation::RemoveService { service, .. } => {
                lists::remove_all(&mut details.services, service);
            },
            FirewallOperation::AddPort { port, .. } => {
                lists::push_unique(&mut details.ports, port.dup());
            },
            FirewallOperation::RemovePort { port, .. } => {
                lists::remove_all(&mut details.ports, port);
            },
            FirewallOperation::AddSourcePort { port, .. } => {
                lists::push_unique(&mut details.source_ports, port.dup());
            },
            FirewallOperation::RemoveSourcePort { port, .. } => {
                lists::remove_all(&mut details.source_ports, port);
            },
            FirewallOperation::AddProtocol { protocol, .. } => {
                lists::push_unique(&mut details.protocols, protocol.dup());
            },
            FirewallOperation::RemoveProtocol { protocol, .. } => {
                lists::remove_all(&mut details.protocols, protocol);
            },
            FirewallOperation::AddForwardPort { forward, .. } => {
                lists::push_unique(&mut details.forward_ports, forward.dup());
            },
            FirewallOperation::RemoveForwardPort { forward, .. } => {
                lists::remove_all(&mut details.forward_ports, forward);
            },
            FirewallOperation::AddRichRule { rule, .. } => {
                lists::push_unique(&mut details.rich_rules, rule.dup());
            },
            FirewallOperation::RemoveRichRule { rule, .. } => {
                lists::remove_all(&mut details.rich_rules, rule);
            },
            FirewallOperation::AddInterface { interface, .. } => {
                lists::push_unique(&mut details.interfaces, interface.dup());
            },
            FirewallOperation::RemoveInterface { interface, .. } => {
                lists::remove_all(&mut details.interfaces, interface);
            },
            FirewallOperation::AddSource { source, .. } => {
                lists::push_unique(&mut details.sources, source.dup());
            },
            FirewallOperation::RemoveSource { source, .. } => {
                lists::remove_all(&mut details.sources, source);
            },
            FirewallOperation::AddIcmpBlock { icmp, .. } => {
                lists::push_unique(&mut details.icmp_blocks, icmp.dup());
            },
            FirewallOperation::RemoveIcmpBlock { icmp, .. } => {
                lists::remove_all(&mut details.icmp_blocks, icmp);
            },
            FirewallOperation::SetMasquerade { enabled, .. } => {
                details.masquerade = *enabled;
            },
            FirewallOperation::SetForward { enabled, .. } => {
                details.forward = *enabled;
            },
            FirewallOperation::SetIcmpBlockInversion { enabled, .. } => {
                details.icmp_block_inversion = *enabled;
            },
            _ => {},
        }
    }

    /// For edits of a policy's details: the policy and the scopes that are edited.
    pub fn policy_scope(&self) -> (r: Option<(&PolicyName, ConfigurationTarget)>)
        ensures
            self.deep_view().policy_scope() == (match r {
                Some((policy, target)) => Some((policy.deep_view(), target)),
                None => None,
            }),
    {
        match self {
            FirewallOperation::SetPolicyTarget { policy, .. } => {
                Some((policy, ConfigurationTarget::Permanent))
            },
            FirewallOperation::AddPolicyIngressZone { policy, .. } => {
                Some((policy, ConfigurationTarget::Permanent))
            },
            FirewallOperation::AddPolicyEgressZone { policy, .. } => {
                Some((policy, ConfigurationTarget::Permanent))
            },
            FirewallOperation::AddPolicyService { policy, target, .. } => Some((policy, *target)),
            FirewallOperation::RemovePolicyService { policy, target, .. } => Some(
                (policy, *target),
            ),
            _ => None,
        }
    }

    /// Applies an edit of a policy to its details. Other operations leave them.
    pub fn edit_policy(&self, details: &mut PolicyDetails)
        ensures
            final(details).deep_view() == self.deep_view().policy_edited(old(details).deep_view()),
    {
        match self {
            FirewallOperation::SetPolicyTarget { policy_target, .. } => {
                details.target = *policy_target;
            },
            FirewallOperation::AddPolicyIngressZone { zone, .. } => {
                lists::push_unique(&mut details.ingress_zones, zone.dup());
            },
            FirewallOperation::AddPolicyEgressZone { zone, .. } => {
                lists::push_unique(&mut details.egress_zones, zone.dup());
            },
            FirewallOperation::AddPolicyService { service, .. } => {
                lists::push_unique(&mut details.services, service.dup());
            },
            FirewallOperation::RemovePolicyService { service, .. } => {
                lists::remove_all(&mut details.services, service);
            },
            _ => {},
        }
    }
}

} // verus!
