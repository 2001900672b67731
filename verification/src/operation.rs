//! Typed firewall mutations: validation against a snapshot, human-readable
//! descriptions for the confirmation modal and toasts, and inverse operations
//! as rollback metadata.

use vstd::prelude::*;

use crate::address::{IpSetEntry, SourceAddress, SourceAddressView};
use crate::direct_migration::{DirectPolicyMigration, DirectPolicyMigrationView};
use crate::ids::{
    IcmpType, InterfaceName, IpProtocol, IpSetName, PolicyName, PolicySetName, ServiceName,
    ZoneName,
};
use crate::model::Value;
use crate::policy::PolicyTarget;
use crate::port::{ForwardPort, ForwardPortView, PortSpec, PortSpecView};
use crate::rich_rule::RichRule;
use crate::snapshot::{ConfigurationTarget, LogDenied};
use crate::zone::ZoneTarget;

pub mod check;
pub mod edit;
pub mod laws;
pub mod meaning;
pub mod message;

verus! {

/// One typed firewall mutation — everything the UI can do to firewalld.
/// Execution layers translate a variant into the matching `firewall-cmd`
/// invocation(s) per configuration target.
#[derive(Debug, PartialEq, Eq)]
#[allow(inconsistent_fields)]
pub enum FirewallOperation {
    /// Enable a service in a zone.
    AddService {
        /// Zone to modify.
        zone: ZoneName,
        /// Service to enable.
        service: ServiceName,
        /// Configuration scope the change applies to.
        target: ConfigurationTarget,
    },
    /// Temporarily allow a named service in the runtime only — firewalld
    /// removes it again after `seconds` (`--timeout`). Never touches the
    /// permanent config.
    AddTemporaryService {
        /// The zone to open.
        zone: ZoneName,
        /// The service to allow.
        service: ServiceName,
        /// Lifetime in seconds before firewalld auto-removes it.
        seconds: u32,
    },
    /// Disable a service in a zone.
    RemoveService {
        /// Zone to modify.
        zone: ZoneName,
        /// Service to disable.
        service: ServiceName,
        /// Configuration scope the change applies to.
        target: ConfigurationTarget,
    },
    /// Open a port (or range) in a zone.
    AddPort {
        /// Zone to modify.
        zone: ZoneName,
        /// Port(s) and protocol to open.
        port: PortSpec,
        /// Configuration scope the change applies to.
        target: ConfigurationTarget,
    },
    /// Close a port (or range) in a zone.
    RemovePort {
        /// Zone to modify.
        zone: ZoneName,
        /// Port(s) and protocol to close.
        port: PortSpec,
        /// Configuration scope the change applies to.
        target: ConfigurationTarget,
    },
    /// Change the default zone (always runtime and permanent in firewalld).
    SetDefaultZone {
        /// Zone to make the default.
        zone: ZoneName,
    },
    /// Enable or disable IP masquerading in a zone.
    SetMasquerade {
        /// Zone to modify.
        zone: ZoneName,
        /// Desired masquerade state.
        enabled: bool,
        /// Configuration scope the change applies to.
        target: ConfigurationTarget,
    },
    /// Set a zone's target — the fate of packets no rule matches. Permanent-only
    /// in firewalld; a reload activates it.
    SetZoneTarget {
        /// Zone to modify.
        zone: ZoneName,
        /// Desired target.
        zone_target: ZoneTarget,
    },
    /// Add a source-port match to a zone.
    AddSourcePort {
        /// Zone to modify.
        zone: ZoneName,
        /// Source port(s) and protocol.
        port: PortSpec,
        /// Configuration scope the change applies to.
        target: ConfigurationTarget,
    },
    /// Remove a source-port match from a zone.
    RemoveSourcePort {
        /// Zone to modify.
        zone: ZoneName,
        /// Source port(s) and protocol.
        port: PortSpec,
        /// Configuration scope the change applies to.
        target: ConfigurationTarget,
    },
    /// Allow an IP protocol in a zone (e.g. `gre`, `esp`).
    AddProtocol {
        /// Zone to modify.
        zone: ZoneName,
        /// Protocol to allow.
        protocol: IpProtocol,
        /// Configuration scope the change applies to.
        target: ConfigurationTarget,
    },
    /// Stop allowing an IP protocol in a zone.
    RemoveProtocol {
        /// Zone to modify.
        zone: ZoneName,
        /// Protocol to remove.
        protocol: IpProtocol,
        /// Configuration scope the change applies to.
        target: ConfigurationTarget,
    },
    /// Enable or disable intra-zone forwarding (firewalld 0.9+ `--add-forward`).
    SetForward {
        /// Zone to modify.
        zone: ZoneName,
        /// Desired forwarding state.
        enabled: bool,
        /// Configuration scope the change applies to.
        target: ConfigurationTarget,
    },
    /// Invert (or un-invert) a zone's icmp-block set: block everything except
    /// the listed types.
    SetIcmpBlockInversion {
        /// Zone to modify.
        zone: ZoneName,
        /// Desired inversion state.
        enabled: bool,
        /// Configuration scope the change applies to.
        target: ConfigurationTarget,
    },
    /// Add a port-forwarding rule to a zone.
    AddForwardPort {
        /// Zone to modify.
        zone: ZoneName,
        /// The forwarding rule.
        forward: ForwardPort,
        /// Configuration scope the change applies to.
        target: ConfigurationTarget,
    },
    /// Remove a port-forwarding rule from a zone.
    RemoveForwardPort {
        /// Zone to modify.
        zone: ZoneName,
        /// The forwarding rule.
        forward: ForwardPort,
        /// Configuration scope the change applies to.
        target: ConfigurationTarget,
    },
    /// Add a rich rule to a zone (passed to firewalld verbatim).
    AddRichRule {
        /// Zone to modify.
        zone: ZoneName,
        /// The rule text.
        rule: RichRule,
        /// Configuration scope the change applies to.
        target: ConfigurationTarget,
    },
    /// Remove a rich rule from a zone (matched by its verbatim text).
    RemoveRichRule {
        /// Zone to modify.
        zone: ZoneName,
        /// The rule text.
        rule: RichRule,
        /// Configuration scope the change applies to.
        target: ConfigurationTarget,
    },
    /// Bind an interface to a zone.
    AddInterface {
        /// Zone to bind to.
        zone: ZoneName,
        /// Interface to bind.
        interface: InterfaceName,
        /// Configuration scope the change applies to.
        target: ConfigurationTarget,
    },
    /// Unbind an interface from a zone.
    RemoveInterface {
        /// Zone to unbind from.
        zone: ZoneName,
        /// Interface to unbind.
        interface: InterfaceName,
        /// Configuration scope the change applies to.
        target: ConfigurationTarget,
    },
    /// Bind a source address to a zone.
    AddSource {
        /// Zone to bind to.
        zone: ZoneName,
        /// Source to bind.
        source: SourceAddress,
        /// Configuration scope the change applies to.
        target: ConfigurationTarget,
    },
    /// Unbind a source address from a zone.
    RemoveSource {
        /// Zone to unbind from.
        zone: ZoneName,
        /// Source to unbind.
        source: SourceAddress,
        /// Configuration scope the change applies to.
        target: ConfigurationTarget,
    },
    /// Block an ICMP type in a zone.
    AddIcmpBlock {
        /// Zone to modify.
        zone: ZoneName,
        /// ICMP type to block.
        icmp: IcmpType,
        /// Configuration scope the change applies to.
        target: ConfigurationTarget,
    },
    /// Unblock an ICMP type in a zone.
    RemoveIcmpBlock {
        /// Zone to modify.
        zone: ZoneName,
        /// ICMP type to unblock.
        icmp: IcmpType,
        /// Configuration scope the change applies to.
        target: ConfigurationTarget,
    },
    /// Custom service definitions are permanent-only; reload activates them.
    CreateService {
        /// Name for the new service.
        service: ServiceName,
    },
    /// Delete a custom service definition (permanent-only; reload applies).
    DeleteService {
        /// Service to delete.
        service: ServiceName,
    },
    /// Add a port to a custom service definition (permanent-only).
    AddServicePort {
        /// Service to modify.
        service: ServiceName,
        /// Port(s) and protocol to add.
        port: PortSpec,
    },
    /// Remove a port from a custom service definition (permanent-only).
    RemoveServicePort {
        /// Service to modify.
        service: ServiceName,
        /// Port(s) and protocol to remove.
        port: PortSpec,
    },
    /// Policy objects. Create/delete are permanent-only; rule edits honor the
    /// configuration target like zone edits.
    CreatePolicy {
        /// Name for the new policy.
        policy: PolicyName,
    },
    /// Delete a policy object (permanent-only; reload applies).
    DeletePolicy {
        /// Policy to delete.
        policy: PolicyName,
    },
    /// Create a policy that carries the translation of a legacy direct rule
    /// (permanent-only; reload applies). The legacy rule stays in place.
    MigrateDirectRule {
        /// The reviewed translation.
        migration: DirectPolicyMigration,
    },
    /// Set a policy's target, i.e. the fate of unmatched packets.
    SetPolicyTarget {
        /// Policy to modify.
        policy: PolicyName,
        /// Desired target.
        policy_target: PolicyTarget,
    },
    /// Add an ingress zone to a policy.
    AddPolicyIngressZone {
        /// Policy to modify.
        policy: PolicyName,
        /// Zone name; a plain string because `ANY`/`HOST` pseudo-zones
        /// are allowed here.
        zone: String,
    },
    /// Add an egress zone to a policy.
    AddPolicyEgressZone {
        /// Policy to modify.
        policy: PolicyName,
        /// Zone name; may be the `ANY`/`HOST` pseudo-zones.
        zone: String,
    },
    /// Allow a service in a policy.
    AddPolicyService {
        /// Policy to modify.
        policy: PolicyName,
        /// Service to allow.
        service: ServiceName,
        /// Configuration scope the change applies to.
        target: ConfigurationTarget,
    },
    /// Remove a service from a policy.
    RemovePolicyService {
        /// Policy to modify.
        policy: PolicyName,
        /// Service to remove.
        service: ServiceName,
        /// Configuration scope the change applies to.
        target: ConfigurationTarget,
    },
    /// Enable or disable every policy of a predefined policy set.
    SetPolicySetEnabled {
        /// Policy set to modify.
        policy_set: PolicySetName,
        /// Desired state.
        enabled: bool,
        /// Configuration scope the change applies to.
        target: ConfigurationTarget,
    },
    /// Permanent-only, like zones; reload activates.
    CreateIpSet {
        /// Name for the new ipset.
        name: IpSetName,
        /// The ipset type; must be one of the types in `IPSET_TYPES`.
        kind: String,
    },
    /// Delete an ipset (permanent-only; reload applies).
    DeleteIpSet {
        /// Ipset to delete.
        name: IpSetName,
    },
    /// Add an entry to an ipset.
    AddIpSetEntry {
        /// Ipset to modify.
        name: IpSetName,
        /// Entry to add (verbatim; supports compound-type entries).
        entry: IpSetEntry,
        /// Configuration scope the change applies to.
        target: ConfigurationTarget,
    },
    /// Remove an entry from an ipset.
    RemoveIpSetEntry {
        /// Ipset to modify.
        name: IpSetName,
        /// Entry to remove (verbatim; supports compound-type entries).
        entry: IpSetEntry,
        /// Configuration scope the change applies to.
        target: ConfigurationTarget,
    },
    /// `--new-zone` is permanent-only; a reload activates it (deliberately not
    /// automatic — reloads wipe runtime-only changes).
    CreateZone {
        /// Name for the new zone.
        zone: ZoneName,
    },
    /// Delete a zone (permanent-only; reload applies).
    DeleteZone {
        /// Zone to delete.
        zone: ZoneName,
    },
    /// Runtime-only emergency switch: drops every packet.
    SetPanicMode {
        /// Desired panic-mode state.
        enabled: bool,
    },
    /// Persist the entire runtime configuration to permanent.
    RuntimeToPermanent,
    /// Change firewalld's `LogDenied` setting.
    SetLogDenied {
        /// Desired setting.
        value: LogDenied,
    },
    /// Reload firewalld: permanent config becomes runtime, runtime-only
    /// changes are lost.
    Reload,
}

/// What a `FirewallOperation` models.
pub enum FirewallOperationView {
    AddService { zone: Seq<char>, service: Seq<char>, target: ConfigurationTarget },
    AddTemporaryService { zone: Seq<char>, service: Seq<char>, seconds: u32 },
    RemoveService { zone: Seq<char>, service: Seq<char>, target: ConfigurationTarget },
    AddPort { zone: Seq<char>, port: PortSpecView, target: ConfigurationTarget },
    RemovePort { zone: Seq<char>, port: PortSpecView, target: ConfigurationTarget },
    SetDefaultZone { zone: Seq<char> },
    SetMasquerade { zone: Seq<char>, enabled: bool, target: ConfigurationTarget },
    SetZoneTarget { zone: Seq<char>, zone_target: ZoneTarget },
    AddSourcePort { zone: Seq<char>, port: PortSpecView, target: ConfigurationTarget },
    RemoveSourcePort { zone: Seq<char>, port: PortSpecView, target: ConfigurationTarget },
    AddProtocol { zone: Seq<char>, protocol: Seq<char>, target: ConfigurationTarget },
    RemoveProtocol { zone: Seq<char>, protocol: Seq<char>, target: ConfigurationTarget },
    SetForward { zone: Seq<char>, enabled: bool, target: ConfigurationTarget },
    SetIcmpBlockInversion { zone: Seq<char>, enabled: bool, target: ConfigurationTarget },
    AddForwardPort { zone: Seq<char>, forward: ForwardPortView, target: ConfigurationTarget },
    RemoveForwardPort { zone: Seq<char>, forward: ForwardPortView, target: ConfigurationTarget },
    AddRichRule { zone: Seq<char>, rule: Seq<char>, target: ConfigurationTarget },
    RemoveRichRule { zone: Seq<char>, rule: Seq<char>, target: ConfigurationTarget },
    AddInterface { zone: Seq<char>, interface: Seq<char>, target: ConfigurationTarget },
    RemoveInterface { zone: Seq<char>, interface: Seq<char>, target: ConfigurationTarget },
    AddSource { zone: Seq<char>, source: SourceAddressView, target: ConfigurationTarget },
    RemoveSource { zone: Seq<char>, source: SourceAddressView, target: ConfigurationTarget },
    AddIcmpBlock { zone: Seq<char>, icmp: Seq<char>, target: ConfigurationTarget },
    RemoveIcmpBlock { zone: Seq<char>, icmp: Seq<char>, target: ConfigurationTarget },
    CreateService { service: Seq<char> },
    DeleteService { service: Seq<char> },
    AddServicePort { service: Seq<char>, port: PortSpecView },
    RemoveServicePort { service: Seq<char>, port: PortSpecView },
    CreatePolicy { policy: Seq<char> },
    DeletePolicy { policy: Seq<char> },
    MigrateDirectRule { migration: DirectPolicyMigrationView },
    SetPolicyTarget { policy: Seq<char>, policy_target: PolicyTarget },
    AddPolicyIngressZone { policy: Seq<char>, zone: Seq<char> },
    AddPolicyEgressZone { policy: Seq<char>, zone: Seq<char> },
    AddPolicyService { policy: Seq<char>, service: Seq<char>, target: ConfigurationTarget },
    RemovePolicyService { policy: Seq<char>, service: Seq<char>, target: ConfigurationTarget },
    SetPolicySetEnabled { policy_set: Seq<char>, enabled: bool, target: ConfigurationTarget },
    CreateIpSet { name: Seq<char>, kind: Seq<char> },
    DeleteIpSet { name: Seq<char> },
    AddIpSetEntry { name: Seq<char>, entry: Seq<char>, target: ConfigurationTarget },
    RemoveIpSetEntry { name: Seq<char>, entry: Seq<char>, target: ConfigurationTarget },
    CreateZone { zone: Seq<char> },
    DeleteZone { zone: Seq<char> },
    SetPanicMode { enabled: bool },
    RuntimeToPermanent,
    SetLogDenied { value: LogDenied },
    Reload,
}

impl DeepView for FirewallOperation {
    type V = FirewallOperationView;

    open spec fn deep_view(&self) -> FirewallOperationView {
        match self {
            FirewallOperation::AddService { zone, service, target } =>
                FirewallOperationView::AddService {
                    zone: zone.deep_view(),
                    service: service.deep_view(),
                    target: target.deep_view(),
                },
            FirewallOperation::AddTemporaryService { zone, service, seconds } =>
                FirewallOperationView::AddTemporaryService {
                    zone: zone.deep_view(),
                    service: service.deep_view(),
                    seconds: seconds.deep_view(),
                },
            FirewallOperation::RemoveService { zone, service, target } =>
                FirewallOperationView::RemoveService {
                    zone: zone.deep_view(),
                    service: service.deep_view(),
                    target: target.deep_view(),
                },
            FirewallOperation::AddPort { zone, port, target } => FirewallOperationView::AddPort {
                zone: zone.deep_view(),
                port: port.deep_view(),
                target: target.deep_view(),
            },
            FirewallOperation::RemovePort { zone, port, target } =>
                FirewallOperationView::RemovePort {
                    zone: zone.deep_view(),
                    port: port.deep_view(),
                    target: target.deep_view(),
                },
            FirewallOperation::SetDefaultZone { zone } => FirewallOperationView::SetDefaultZone {
                zone: zone.deep_view()
            },
            FirewallOperation::SetMasquerade { zone, enabled, target } =>
                FirewallOperationView::SetMasquerade {
                    zone: zone.deep_view(),
                    enabled: enabled.deep_view(),
                    target: target.deep_view(),
                },
            FirewallOperation::SetZoneTarget { zone, zone_target } =>
                FirewallOperationView::SetZoneTarget {
                    zone: zone.deep_view(),
                    zone_target: zone_target.deep_view(),
                },
            FirewallOperation::AddSourcePort { zone, port, target } =>
                FirewallOperationView::AddSourcePort {
                    zone: zone.deep_view(),
                    port: port.deep_view(),
                    target: target.deep_view(),
                },
            FirewallOperation::RemoveSourcePort { zone, port, target } =>
                FirewallOperationView::RemoveSourcePort {
                    zone: zone.deep_view(),
                    port: port.deep_view(),
                    target: target.deep_view(),
                },
            FirewallOperation::AddProtocol { zone, protocol, target } =>
                FirewallOperationView::AddProtocol {
                    zone: zone.deep_view(),
                    protocol: protocol.deep_view(),
                    target: target.deep_view(),
                },
            FirewallOperation::RemoveProtocol { zone, protocol, target } =>
                FirewallOperationView::RemoveProtocol {
                    zone: zone.deep_view(),
                    protocol: protocol.deep_view(),
                    target: target.deep_view(),
                },
            FirewallOperation::SetForward { zone, enabled, target } =>
                FirewallOperationView::SetForward {
                    zone: zone.deep_view(),
                    enabled: enabled.deep_view(),
                    target: target.deep_view(),
                },
            FirewallOperation::SetIcmpBlockInversion { zone, enabled, target } =>
                FirewallOperationView::SetIcmpBlockInversion {
                    zone: zone.deep_view(),
                    enabled: enabled.deep_view(),
                    target: target.deep_view(),
                },
            FirewallOperation::AddForwardPort { zone, forward, target } =>
                FirewallOperationView::AddForwardPort {
                    zone: zone.deep_view(),
                    forward: forward.deep_view(),
                    target: target.deep_view(),
                },
            FirewallOperation::RemoveForwardPort { zone, forward, target } =>
                FirewallOperationView::RemoveForwardPort {
                    zone: zone.deep_view(),
                    forward: forward.deep_view(),
                    target: target.deep_view(),
                },
            FirewallOperation::AddRichRule { zone, rule, target } =>
                FirewallOperationView::AddRichRule {
                    zone: zone.deep_view(),
                    rule: rule.deep_view(),
                    target: target.deep_view(),
                },
            FirewallOperation::RemoveRichRule { zone, rule, target } =>
                FirewallOperationView::RemoveRichRule {
                    zone: zone.deep_view(),
                    rule: rule.deep_view(),
                    target: target.deep_view(),
                },
            FirewallOperation::AddInterface { zone, interface, target } =>
                FirewallOperationView::AddInterface {
                    zone: zone.deep_view(),
                    interface: interface.deep_view(),
                    target: target.deep_view(),
                },
            FirewallOperation::RemoveInterface { zone, interface, target } =>
                FirewallOperationView::RemoveInterface {
                    zone: zone.deep_view(),
                    interface: interface.deep_view(),
                    target: target.deep_view(),
                },
            FirewallOperation::AddSource { zone, source, target } =>
                FirewallOperationView::AddSource {
                    zone: zone.deep_view(),
                    source: source.deep_view(),
                    target: target.deep_view(),
                },
            FirewallOperation::RemoveSource { zone, source, target } =>
                FirewallOperationView::RemoveSource {
                    zone: zone.deep_view(),
                    source: source.deep_view(),
                    target: target.deep_view(),
                },
            FirewallOperation::AddIcmpBlock { zone, icmp, target } =>
                FirewallOperationView::AddIcmpBlock {
                    zone: zone.deep_view(),
                    icmp: icmp.deep_view(),
                    target: target.deep_view(),
                },
            FirewallOperation::RemoveIcmpBlock { zone, icmp, target } =>
                FirewallOperationView::RemoveIcmpBlock {
                    zone: zone.deep_view(),
                    icmp: icmp.deep_view(),
                    target: target.deep_view(),
                },
            FirewallOperation::CreateService { service } => FirewallOperationView::CreateService {
                service: service.deep_view()
            },
            FirewallOperation::DeleteService { service } => FirewallOperationView::DeleteService {
                service: service.deep_view()
            },
            FirewallOperation::AddServicePort { service, port } =>
                FirewallOperationView::AddServicePort {
                    service: service.deep_view(),
                    port: port.deep_view(),
                },
            FirewallOperation::RemoveServicePort { service, port } =>
                FirewallOperationView::RemoveServicePort {
                    service: service.deep_view(),
                    port: port.deep_view(),
                },
            FirewallOperation::CreatePolicy { policy } => FirewallOperationView::CreatePolicy {
                policy: policy.deep_view()
            },
            FirewallOperation::DeletePolicy { policy } => FirewallOperationView::DeletePolicy {
                policy: policy.deep_view()
            },
            FirewallOperation::MigrateDirectRule { migration } =>
                FirewallOperationView::MigrateDirectRule { migration: migration.deep_view() },
            FirewallOperation::SetPolicyTarget { policy, policy_target } =>
                FirewallOperationView::SetPolicyTarget {
                    policy: policy.deep_view(),
                    policy_target: policy_target.deep_view(),
                },
            FirewallOperation::AddPolicyIngressZone { policy, zone } =>
                FirewallOperationView::AddPolicyIngressZone {
                    policy: policy.deep_view(),
                    zone: zone.deep_view(),
                },
            FirewallOperation::AddPolicyEgressZone { policy, zone } =>
                FirewallOperationView::AddPolicyEgressZone {
                    policy: policy.deep_view(),
                    zone: zone.deep_view(),
                },
            FirewallOperation::AddPolicyService { policy, service, target } =>
                FirewallOperationView::AddPolicyService {
                    policy: policy.deep_view(),
                    service: service.deep_view(),
                    target: target.deep_view(),
                },
            FirewallOperation::RemovePolicyService { policy, service, target } =>
                FirewallOperationView::RemovePolicyService {
                    policy: policy.deep_view(),
                    service: service.deep_view(),
                    target: target.deep_view(),
                },
            FirewallOperation::SetPolicySetEnabled { policy_set, enabled, target } =>
                FirewallOperationView::SetPolicySetEnabled {
                    policy_set: policy_set.deep_view(),
                    enabled: enabled.deep_view(),
                    target: target.deep_view(),
                },
            FirewallOperation::CreateIpSet { name, kind } => FirewallOperationView::CreateIpSet {
                name: name.deep_view(),
                kind: kind.deep_view(),
            },
            FirewallOperation::DeleteIpSet { name } => FirewallOperationView::DeleteIpSet {
                name: name.deep_view()
            },
            FirewallOperation::AddIpSetEntry { name, entry, target } =>
                FirewallOperationView::AddIpSetEntry {
                    name: name.deep_view(),
                    entry: entry.deep_view(),
                    target: target.deep_view(),
                },
            FirewallOperation::RemoveIpSetEntry { name, entry, target } =>
                FirewallOperationView::RemoveIpSetEntry {
                    name: name.deep_view(),
                    entry: entry.deep_view(),
                    target: target.deep_view(),
                },
            FirewallOperation::CreateZone { zone } => FirewallOperationView::CreateZone {
                zone: zone.deep_view()
            },
            FirewallOperation::DeleteZone { zone } => FirewallOperationView::DeleteZone {
                zone: zone.deep_view()
            },
            FirewallOperation::SetPanicMode { enabled } => FirewallOperationView::SetPanicMode {
                enabled: enabled.deep_view()
            },
            FirewallOperation::RuntimeToPermanent => FirewallOperationView::RuntimeToPermanent,
            FirewallOperation::SetLogDenied { value } => FirewallOperationView::SetLogDenied {
                value: value.deep_view()
            },
            FirewallOperation::Reload => FirewallOperationView::Reload,
        }
    }
}

impl Clone for FirewallOperation {
    fn clone(&self) -> (r: Self)
        ensures
            r.deep_view() == self.deep_view(),
    {
        match self {
            FirewallOperation::AddService { zone, service, target } =>
                FirewallOperation::AddService {
                    zone: zone.dup(),
                    service: service.dup(),
                    target: *target,
                },
            FirewallOperation::AddTemporaryService { zone, service, seconds } =>
                FirewallOperation::AddTemporaryService {
                    zone: zone.dup(),
                    service: service.dup(),
                    seconds: *seconds,
                },
            FirewallOperation::RemoveService { zone, service, target } =>
                FirewallOperation::RemoveService {
                    zone: zone.dup(),
                    service: service.dup(),
                    target: *target,
                },
            FirewallOperation::AddPort { zone, port, target } => FirewallOperation::AddPort {
                zone: zone.dup(),
                port: port.dup(),
                target: *target,
            },
            FirewallOperation::RemovePort { zone, port, target } => FirewallOperation::RemovePort {
                zone: zone.dup(),
                port: port.dup(),
                target: *target,
            },
            FirewallOperation::SetDefaultZone { zone } => FirewallOperation::SetDefaultZone {
                zone: zone.dup()
            },
            FirewallOperation::SetMasquerade { zone, enabled, target } =>
                FirewallOperation::SetMasquerade {
                    zone: zone.dup(),
                    enabled: *enabled,
                    target: *target,
                },
            FirewallOperation::SetZoneTarget { zone, zone_target } =>
                FirewallOperation::SetZoneTarget { zone: zone.dup(), zone_target: *zone_target },
            FirewallOperation::AddSourcePort { zone, port, target } =>
                FirewallOperation::AddSourcePort {
                    zone: zone.dup(),
                    port: port.dup(),
                    target: *target,
                },
            FirewallOperation::RemoveSourcePort { zone, port, target } =>
                FirewallOperation::RemoveSourcePort {
                    zone: zone.dup(),
                    port: port.dup(),
                    target: *target,
                },
            FirewallOperation::AddProtocol { zone, protocol, target } =>
                FirewallOperation::AddProtocol {
                    zone: zone.dup(),
                    protocol: protocol.dup(),
                    target: *target,
                },
            FirewallOperation::RemoveProtocol { zone, protocol, target } =>
                FirewallOperation::RemoveProtocol {
                    zone: zone.dup(),
                    protocol: protocol.dup(),
                    target: *target,
                },
            FirewallOperation::SetForward { zone, enabled, target } =>
                FirewallOperation::SetForward {
                    zone: zone.dup(),
                    enabled: *enabled,
                    target: *target,
                },
            FirewallOperation::SetIcmpBlockInversion { zone, enabled, target } =>
                FirewallOperation::SetIcmpBlockInversion {
                    zone: zone.dup(),
                    enabled: *enabled,
                    target: *target,
                },
            FirewallOperation::AddForwardPort { zone, forward, target } =>
                FirewallOperation::AddForwardPort {
                    zone: zone.dup(),
                    forward: forward.dup(),
                    target: *target,
                },
            FirewallOperation::RemoveForwardPort { zone, forward, target } =>
                FirewallOperation::RemoveForwardPort {
                    zone: zone.dup(),
                    forward: forward.dup(),
                    target: *target,
                },
            FirewallOperation::AddRichRule { zone, rule, target } =>
                FirewallOperation::AddRichRule {
                    zone: zone.dup(),
                    rule: rule.dup(),
                    target: *target,
                },
            FirewallOperation::RemoveRichRule { zone, rule, target } =>
                FirewallOperation::RemoveRichRule {
                    zone: zone.dup(),
                    rule: rule.dup(),
                    target: *target,
                },
            FirewallOperation::AddInterface { zone, interface, target } =>
                FirewallOperation::AddInterface {
                    zone: zone.dup(),
                    interface: interface.dup(),
                    target: *target,
                },
            FirewallOperation::RemoveInterface { zone, interface, target } =>
                FirewallOperation::RemoveInterface {
                    zone: zone.dup(),
                    interface: interface.dup(),
                    target: *target,
                },
            FirewallOperation::AddSource { zone, source, target } => FirewallOperation::AddSource {
                zone: zone.dup(),
                source: source.dup(),
                target: *target,
            },
            FirewallOperation::RemoveSource { zone, source, target } =>
                FirewallOperation::RemoveSource {
                    zone: zone.dup(),
                    source: source.dup(),
                    target: *target,
                },
            FirewallOperation::AddIcmpBlock { zone, icmp, target } =>
                FirewallOperation::AddIcmpBlock {
                    zone: zone.dup(),
                    icmp: icmp.dup(),
                    target: *target,
                },
            FirewallOperation::RemoveIcmpBlock { zone, icmp, target } =>
                FirewallOperation::RemoveIcmpBlock {
                    zone: zone.dup(),
                    icmp: icmp.dup(),
                    target: *target,
                },
            FirewallOperation::CreateService { service } => FirewallOperation::CreateService {
                service: service.dup()
            },
            FirewallOperation::DeleteService { service } => FirewallOperation::DeleteService {
                service: service.dup()
            },
            FirewallOperation::AddServicePort { service, port } =>
                FirewallOperation::AddServicePort { service: service.dup(), port: port.dup() },
            FirewallOperation::RemoveServicePort { service, port } =>
                FirewallOperation::RemoveServicePort { service: service.dup(), port: port.dup() },
            FirewallOperation::CreatePolicy { policy } => FirewallOperation::CreatePolicy {
                policy: policy.dup()
            },
            FirewallOperation::DeletePolicy { policy } => FirewallOperation::DeletePolicy {
                policy: policy.dup()
            },
            FirewallOperation::MigrateDirectRule { migration } =>
                FirewallOperation::MigrateDirectRule { migration: migration.dup() },
            FirewallOperation::SetPolicyTarget { policy, policy_target } =>
                FirewallOperation::SetPolicyTarget {
                    policy: policy.dup(),
                    policy_target: *policy_target,
                },
            FirewallOperation::AddPolicyIngressZone { policy, zone } =>
                FirewallOperation::AddPolicyIngressZone { policy: policy.dup(), zone: zone.dup() },
            FirewallOperation::AddPolicyEgressZone { policy, zone } =>
                FirewallOperation::AddPolicyEgressZone { policy: policy.dup(), zone: zone.dup() },
            FirewallOperation::AddPolicyService { policy, service, target } =>
                FirewallOperation::AddPolicyService {
                    policy: policy.dup(),
                    service: service.dup(),
                    target: *target,
                },
            FirewallOperation::RemovePolicyService { policy, service, target } =>
                FirewallOperation::RemovePolicyService {
                    policy: policy.dup(),
                    service: service.dup(),
                    target: *target,
                },
            FirewallOperation::SetPolicySetEnabled { policy_set, enabled, target } =>
                FirewallOperation::SetPolicySetEnabled {
                    policy_set: policy_set.dup(),
                    enabled: *enabled,
                    target: *target,
                },
            FirewallOperation::CreateIpSet { name, kind } => FirewallOperation::CreateIpSet {
                name: name.dup(),
                kind: kind.dup(),
            },
            FirewallOperation::DeleteIpSet { name } => FirewallOperation::DeleteIpSet {
                name: name.dup()
            },
            FirewallOperation::AddIpSetEntry { name, entry, target } =>
                FirewallOperation::AddIpSetEntry {
                    name: name.dup(),
                    entry: entry.dup(),
                    target: *target,
                },
            FirewallOperation::RemoveIpSetEntry { name, entry, target } =>
                FirewallOperation::RemoveIpSetEntry {
                    name: name.dup(),
                    entry: entry.dup(),
                    target: *target,
                },
            FirewallOperation::CreateZone { zone } => FirewallOperation::CreateZone {
                zone: zone.dup()
            },
            FirewallOperation::DeleteZone { zone } => FirewallOperation::DeleteZone {
                zone: zone.dup()
            },
            FirewallOperation::SetPanicMode { enabled } => FirewallOperation::SetPanicMode {
                enabled: *enabled
            },
            FirewallOperation::RuntimeToPermanent => FirewallOperation::RuntimeToPermanent,
            FirewallOperation::SetLogDenied { value } => FirewallOperation::SetLogDenied {
                value: *value
            },
            FirewallOperation::Reload => FirewallOperation::Reload,
        }
    }
}

/// Why an operation was rejected before ever reaching firewalld.
#[derive(Debug, PartialEq, Eq)]
pub enum OperationError {
    /// The referenced zone exists in neither runtime nor permanent config.
    UnknownZone(String),
    /// The desired state already holds; applying would be a no-op.
    NothingToDo(String),
    /// The operation can never succeed, e.g. the name is already taken.
    Invalid(String),
}

/// What a `OperationError` models.
#[verifier::ext_equal]
pub enum OperationErrorView {
    UnknownZone(Seq<char>),
    NothingToDo(Seq<char>),
    Invalid(Seq<char>),
}

impl DeepView for OperationError {
    type V = OperationErrorView;

    open spec fn deep_view(&self) -> OperationErrorView {
        match self {
            OperationError::UnknownZone(x0) => OperationErrorView::UnknownZone(x0.deep_view()),
            OperationError::NothingToDo(x0) => OperationErrorView::NothingToDo(x0.deep_view()),
            OperationError::Invalid(x0) => OperationErrorView::Invalid(x0.deep_view()),
        }
    }
}

impl Value for OperationError {
    fn same(&self, other: &Self) -> (r: bool) {
        match (self, other) {
            (OperationError::UnknownZone(x0), OperationError::UnknownZone(x0_other)) => x0.same(
                x0_other,
            ),
            (OperationError::NothingToDo(x0), OperationError::NothingToDo(x0_other)) => x0.same(
                x0_other,
            ),
            (OperationError::Invalid(x0), OperationError::Invalid(x0_other)) => x0.same(x0_other),
            _ => false,
        }
    }

    fn dup(&self) -> (r: Self) {
        match self {
            OperationError::UnknownZone(x0) => OperationError::UnknownZone(x0.dup()),
            OperationError::NothingToDo(x0) => OperationError::NothingToDo(x0.dup()),
            OperationError::Invalid(x0) => OperationError::Invalid(x0.dup()),
        }
    }
}

impl Clone for OperationError {
    fn clone(&self) -> (r: Self)
        ensures
            r.deep_view() == self.deep_view(),
    {
        self.dup()
    }
}

impl FirewallOperationView {
    /// The configuration target that the operation touches.
    pub open spec fn target(self) -> ConfigurationTarget {
        match self {
            FirewallOperationView::AddService { target, .. } => target,
            FirewallOperationView::AddTemporaryService { .. } => ConfigurationTarget::Runtime,
            FirewallOperationView::RemoveService { target, .. } => target,
            FirewallOperationView::AddPort { target, .. } => target,
            FirewallOperationView::RemovePort { target, .. } => target,
            FirewallOperationView::SetDefaultZone { .. } =>
                ConfigurationTarget::RuntimeAndPermanent,
            FirewallOperationView::SetMasquerade { target, .. } => target,
            FirewallOperationView::SetZoneTarget { .. } => ConfigurationTarget::Permanent,
            FirewallOperationView::AddSourcePort { target, .. } => target,
            FirewallOperationView::RemoveSourcePort { target, .. } => target,
            FirewallOperationView::AddProtocol { target, .. } => target,
            FirewallOperationView::RemoveProtocol { target, .. } => target,
            FirewallOperationView::SetForward { target, .. } => target,
            FirewallOperationView::SetIcmpBlockInversion { target, .. } => target,
            FirewallOperationView::AddForwardPort { target, .. } => target,
            FirewallOperationView::RemoveForwardPort { target, .. } => target,
            FirewallOperationView::AddRichRule { target, .. } => target,
            FirewallOperationView::RemoveRichRule { target, .. } => target,
            FirewallOperationView::AddInterface { target, .. } => target,
            FirewallOperationView::RemoveInterface { target, .. } => target,
            FirewallOperationView::AddSource { target, .. } => target,
            FirewallOperationView::RemoveSource { target, .. } => target,
            FirewallOperationView::AddIcmpBlock { target, .. } => target,
            FirewallOperationView::RemoveIcmpBlock { target, .. } => target,
            FirewallOperationView::CreateService { .. } => ConfigurationTarget::Permanent,
            FirewallOperationView::DeleteService { .. } => ConfigurationTarget::Permanent,
            FirewallOperationView::AddServicePort { .. } => ConfigurationTarget::Permanent,
            FirewallOperationView::RemoveServicePort { .. } => ConfigurationTarget::Permanent,
            FirewallOperationView::CreatePolicy { .. } => ConfigurationTarget::Permanent,
            FirewallOperationView::DeletePolicy { .. } => ConfigurationTarget::Permanent,
            FirewallOperationView::MigrateDirectRule { .. } => ConfigurationTarget::Permanent,
            FirewallOperationView::SetPolicyTarget { .. } => ConfigurationTarget::Permanent,
            FirewallOperationView::AddPolicyIngressZone { .. } => ConfigurationTarget::Permanent,
            FirewallOperationView::AddPolicyEgressZone { .. } => ConfigurationTarget::Permanent,
            FirewallOperationView::AddPolicyService { target, .. } => target,
            FirewallOperationView::RemovePolicyService { target, .. } => target,
            FirewallOperationView::SetPolicySetEnabled { target, .. } => target,
            FirewallOperationView::CreateIpSet { .. } => ConfigurationTarget::Permanent,
            FirewallOperationView::DeleteIpSet { .. } => ConfigurationTarget::Permanent,
            FirewallOperationView::AddIpSetEntry { target, .. } => target,
            FirewallOperationView::RemoveIpSetEntry { target, .. } => target,
            FirewallOperationView::CreateZone { .. } => ConfigurationTarget::Permanent,
            FirewallOperationView::DeleteZone { .. } => ConfigurationTarget::Permanent,
            FirewallOperationView::SetPanicMode { .. } => ConfigurationTarget::Runtime,
            FirewallOperationView::RuntimeToPermanent => ConfigurationTarget::Permanent,
            FirewallOperationView::SetLogDenied { .. } => ConfigurationTarget::RuntimeAndPermanent,
            FirewallOperationView::Reload => ConfigurationTarget::RuntimeAndPermanent,
        }
    }

    /// The zone that a runtime invocation would reference.
    pub open spec fn zone(self) -> Option<Seq<char>> {
        match self {
            FirewallOperationView::AddService { zone, .. } => Some(zone),
            FirewallOperationView::AddTemporaryService { zone, .. } => Some(zone),
            FirewallOperationView::RemoveService { zone, .. } => Some(zone),
            FirewallOperationView::AddPort { zone, .. } => Some(zone),
            FirewallOperationView::RemovePort { zone, .. } => Some(zone),
            FirewallOperationView::SetDefaultZone { zone } => Some(zone),
            FirewallOperationView::SetMasquerade { zone, .. } => Some(zone),
            FirewallOperationView::SetZoneTarget { zone, .. } => Some(zone),
            FirewallOperationView::AddSourcePort { zone, .. } => Some(zone),
            FirewallOperationView::RemoveSourcePort { zone, .. } => Some(zone),
            FirewallOperationView::AddProtocol { zone, .. } => Some(zone),
            FirewallOperationView::RemoveProtocol { zone, .. } => Some(zone),
            FirewallOperationView::SetForward { zone, .. } => Some(zone),
            FirewallOperationView::SetIcmpBlockInversion { zone, .. } => Some(zone),
            FirewallOperationView::AddForwardPort { zone, .. } => Some(zone),
            FirewallOperationView::RemoveForwardPort { zone, .. } => Some(zone),
            FirewallOperationView::AddRichRule { zone, .. } => Some(zone),
            FirewallOperationView::RemoveRichRule { zone, .. } => Some(zone),
            FirewallOperationView::AddInterface { zone, .. } => Some(zone),
            FirewallOperationView::RemoveInterface { zone, .. } => Some(zone),
            FirewallOperationView::AddSource { zone, .. } => Some(zone),
            FirewallOperationView::RemoveSource { zone, .. } => Some(zone),
            FirewallOperationView::AddIcmpBlock { zone, .. } => Some(zone),
            FirewallOperationView::RemoveIcmpBlock { zone, .. } => Some(zone),
            _ => None,
        }
    }

    /// The same operation for another target, where the target is not fixed.
    pub open spec fn retargeted(
        self,
        target: ConfigurationTarget,
    ) -> Option<FirewallOperationView> {
        match self {
            FirewallOperationView::AddService { zone, service, .. } => Some(
                FirewallOperationView::AddService { zone, service, target },
            ),
            FirewallOperationView::RemoveService { zone, service, .. } => Some(
                FirewallOperationView::RemoveService { zone, service, target },
            ),
            FirewallOperationView::AddPort { zone, port, .. } => Some(
                FirewallOperationView::AddPort { zone, port, target },
            ),
            FirewallOperationView::RemovePort { zone, port, .. } => Some(
                FirewallOperationView::RemovePort { zone, port, target },
            ),
            FirewallOperationView::SetMasquerade { zone, enabled, .. } => Some(
                FirewallOperationView::SetMasquerade { zone, enabled, target },
            ),
            FirewallOperationView::AddSourcePort { zone, port, .. } => Some(
                FirewallOperationView::AddSourcePort { zone, port, target },
            ),
            FirewallOperationView::RemoveSourcePort { zone, port, .. } => Some(
                FirewallOperationView::RemoveSourcePort { zone, port, target },
            ),
            FirewallOperationView::AddProtocol { zone, protocol, .. } => Some(
                FirewallOperationView::AddProtocol { zone, protocol, target },
            ),
            FirewallOperationView::RemoveProtocol { zone, protocol, .. } => Some(
                FirewallOperationView::RemoveProtocol { zone, protocol, target },
            ),
            FirewallOperationView::SetForward { zone, enabled, .. } => Some(
                FirewallOperationView::SetForward { zone, enabled, target },
            ),
            FirewallOperationView::SetIcmpBlockInversion { zone, enabled, .. } => Some(
                FirewallOperationView::SetIcmpBlockInversion { zone, enabled, target },
            ),
            FirewallOperationView::AddForwardPort { zone, forward, .. } => Some(
                FirewallOperationView::AddForwardPort { zone, forward, target },
            ),
            FirewallOperationView::RemoveForwardPort { zone, forward, .. } => Some(
                FirewallOperationView::RemoveForwardPort { zone, forward, target },
            ),
            FirewallOperationView::AddRichRule { zone, rule, .. } => Some(
                FirewallOperationView::AddRichRule { zone, rule, target },
            ),
            FirewallOperationView::RemoveRichRule { zone, rule, .. } => Some(
                FirewallOperationView::RemoveRichRule { zone, rule, target },
            ),
            FirewallOperationView::AddInterface { zone, interface, .. } => Some(
                FirewallOperationView::AddInterface { zone, interface, target },
            ),
            FirewallOperationView::RemoveInterface { zone, interface, .. } => Some(
                FirewallOperationView::RemoveInterface { zone, interface, target },
            ),
            FirewallOperationView::AddSource { zone, source, .. } => Some(
                FirewallOperationView::AddSource { zone, source, target },
            ),
            FirewallOperationView::RemoveSource { zone, source, .. } => Some(
                FirewallOperationView::RemoveSource { zone, source, target },
            ),
            FirewallOperationView::AddIcmpBlock { zone, icmp, .. } => Some(
                FirewallOperationView::AddIcmpBlock { zone, icmp, target },
            ),
            FirewallOperationView::RemoveIcmpBlock { zone, icmp, .. } => Some(
                FirewallOperationView::RemoveIcmpBlock { zone, icmp, target },
            ),
            FirewallOperationView::AddPolicyService { policy, service, .. } => Some(
                FirewallOperationView::AddPolicyService { policy, service, target },
            ),
            FirewallOperationView::RemovePolicyService { policy, service, .. } => Some(
                FirewallOperationView::RemovePolicyService { policy, service, target },
            ),
            FirewallOperationView::SetPolicySetEnabled { policy_set, enabled, .. } => Some(
                FirewallOperationView::SetPolicySetEnabled { policy_set, enabled, target },
            ),
            FirewallOperationView::AddIpSetEntry { name, entry, .. } => Some(
                FirewallOperationView::AddIpSetEntry { name, entry, target },
            ),
            FirewallOperationView::RemoveIpSetEntry { name, entry, .. } => Some(
                FirewallOperationView::RemoveIpSetEntry { name, entry, target },
            ),
            _ => None,
        }
    }

    /// The opposite operation in the given scope; nothing for operations
    /// without a clean inverse (lifecycle, reload, default zone).
    pub open spec fn inverted(self, target: ConfigurationTarget) -> Option<FirewallOperationView> {
        match self {
            FirewallOperationView::AddService { zone, service, .. } => Some(
                FirewallOperationView::RemoveService { zone, service, target },
            ),
            FirewallOperationView::AddTemporaryService { zone, service, .. } => Some(
                FirewallOperationView::RemoveService {
                    zone,
                    service,
                    target: ConfigurationTarget::Runtime,
                },
            ),
            FirewallOperationView::RemoveService { zone, service, .. } => Some(
                FirewallOperationView::AddService { zone, service, target },
            ),
            FirewallOperationView::AddPort { zone, port, .. } => Some(
                FirewallOperationView::RemovePort { zone, port, target },
            ),
            FirewallOperationView::RemovePort { zone, port, .. } => Some(
                FirewallOperationView::AddPort { zone, port, target },
            ),
            FirewallOperationView::SetMasquerade { zone, enabled, .. } => Some(
                FirewallOperationView::SetMasquerade { zone, enabled: !enabled, target },
            ),
            FirewallOperationView::AddSourcePort { zone, port, .. } => Some(
                FirewallOperationView::RemoveSourcePort { zone, port, target },
            ),
            FirewallOperationView::RemoveSourcePort { zone, port, .. } => Some(
                FirewallOperationView::AddSourcePort { zone, port, target },
            ),
            FirewallOperationView::AddProtocol { zone, protocol, .. } => Some(
                FirewallOperationView::RemoveProtocol { zone, protocol, target },
            ),
            FirewallOperationView::RemoveProtocol { zone, protocol, .. } => Some(
                FirewallOperationView::AddProtocol { zone, protocol, target },
            ),
            FirewallOperationView::SetForward { zone, enabled, .. } => Some(
                FirewallOperationView::SetForward { zone, enabled: !enabled, target },
            ),
            FirewallOperationView::SetIcmpBlockInversion { zone, enabled, .. } => Some(
                FirewallOperationView::SetIcmpBlockInversion { zone, enabled: !enabled, target },
            ),
            FirewallOperationView::AddForwardPort { zone, forward, .. } => Some(
                FirewallOperationView::RemoveForwardPort { zone, forward, target },
            ),
            FirewallOperationView::RemoveForwardPort { zone, forward, .. } => Some(
                FirewallOperationView::AddForwardPort { zone, forward, target },
            ),
            FirewallOperationView::AddRichRule { zone, rule, .. } => Some(
                FirewallOperationView::RemoveRichRule { zone, rule, target },
            ),
            FirewallOperationView::RemoveRichRule { zone, rule, .. } => Some(
                FirewallOperationView::AddRichRule { zone, rule, target },
            ),
            FirewallOperationView::AddInterface { zone, interface, .. } => Some(
                FirewallOperationView::RemoveInterface { zone, interface, target },
            ),
            FirewallOperationView::RemoveInterface { zone, interface, .. } => Some(
                FirewallOperationView::AddInterface { zone, interface, target },
            ),
            FirewallOperationView::AddSource { zone, source, .. } => Some(
                FirewallOperationView::RemoveSource { zone, source, target },
            ),
            FirewallOperationView::RemoveSource { zone, source, .. } => Some(
                FirewallOperationView::AddSource { zone, source, target },
            ),
            FirewallOperationView::AddIcmpBlock { zone, icmp, .. } => Some(
                FirewallOperationView::RemoveIcmpBlock { zone, icmp, target },
            ),
            FirewallOperationView::RemoveIcmpBlock { zone, icmp, .. } => Some(
                FirewallOperationView::AddIcmpBlock { zone, icmp, target },
            ),
            FirewallOperationView::AddServicePort { service, port } => Some(
                FirewallOperationView::RemoveServicePort { service, port },
            ),
            FirewallOperationView::RemoveServicePort { service, port } => Some(
                FirewallOperationView::AddServicePort { service, port },
            ),
            FirewallOperationView::AddPolicyService { policy, service, .. } => Some(
                FirewallOperationView::RemovePolicyService { policy, service, target },
            ),
            FirewallOperationView::RemovePolicyService { policy, service, .. } => Some(
                FirewallOperationView::AddPolicyService { policy, service, target },
            ),
            FirewallOperationView::AddIpSetEntry { name, entry, .. } => Some(
                FirewallOperationView::RemoveIpSetEntry { name, entry, target },
            ),
            FirewallOperationView::RemoveIpSetEntry { name, entry, .. } => Some(
                FirewallOperationView::AddIpSetEntry { name, entry, target },
            ),
            FirewallOperationView::SetPanicMode { enabled } => Some(
                FirewallOperationView::SetPanicMode { enabled: !enabled },
            ),
            _ => None,
        }
    }
}

impl FirewallOperation {
    /// The zone a runtime invocation would reference (`--zone=…` /
    /// `--set-default-zone=…`), if any. Zone/ipset lifecycle operations return
    /// `None` — they only touch config files.
    pub fn zone(&self) -> (r: Option<&ZoneName>)
        ensures
            match r {
                Some(z) => self.deep_view().zone() == Some(z.deep_view()),
                None => self.deep_view().zone() is None,
            },
    {
        match self {
            FirewallOperation::AddService { zone, .. } => Some(zone),
            FirewallOperation::AddTemporaryService { zone, .. } => Some(zone),
            FirewallOperation::RemoveService { zone, .. } => Some(zone),
            FirewallOperation::AddPort { zone, .. } => Some(zone),
            FirewallOperation::RemovePort { zone, .. } => Some(zone),
            FirewallOperation::SetDefaultZone { zone } => Some(zone),
            FirewallOperation::SetMasquerade { zone, .. } => Some(zone),
            FirewallOperation::SetZoneTarget { zone, .. } => Some(zone),
            FirewallOperation::AddSourcePort { zone, .. } => Some(zone),
            FirewallOperation::RemoveSourcePort { zone, .. } => Some(zone),
            FirewallOperation::AddProtocol { zone, .. } => Some(zone),
            FirewallOperation::RemoveProtocol { zone, .. } => Some(zone),
            FirewallOperation::SetForward { zone, .. } => Some(zone),
            FirewallOperation::SetIcmpBlockInversion { zone, .. } => Some(zone),
            FirewallOperation::AddForwardPort { zone, .. } => Some(zone),
            FirewallOperation::RemoveForwardPort { zone, .. } => Some(zone),
            FirewallOperation::AddRichRule { zone, .. } => Some(zone),
            FirewallOperation::RemoveRichRule { zone, .. } => Some(zone),
            FirewallOperation::AddInterface { zone, .. } => Some(zone),
            FirewallOperation::RemoveInterface { zone, .. } => Some(zone),
            FirewallOperation::AddSource { zone, .. } => Some(zone),
            FirewallOperation::RemoveSource { zone, .. } => Some(zone),
            FirewallOperation::AddIcmpBlock { zone, .. } => Some(zone),
            FirewallOperation::RemoveIcmpBlock { zone, .. } => Some(zone),
            _ => None,
        }
    }

    /// The same operation retargeted, for variants that carry a target.
    /// `None` when the variant's target is fixed (e.g. `SetDefaultZone`).
    #[verifier::rlimit(80)]
    pub fn with_target(&self, target: ConfigurationTarget) -> (r: Option<Self>)
        ensures
            r.deep_view() == self.deep_view().retargeted(target),
    {
        match self {
            FirewallOperation::AddService { zone, service, .. } => {
                return Some(
                    FirewallOperation::AddService {
                        zone: zone.dup(),
                        service: service.dup(),
                        target,
                    },
                );
            },
            FirewallOperation::RemoveService { zone, service, .. } => {
                return Some(
                    FirewallOperation::RemoveService {
                        zone: zone.dup(),
                        service: service.dup(),
                        target,
                    },
                );
            },
            FirewallOperation::AddPort { zone, port, .. } => {
                return Some(
                    FirewallOperation::AddPort { zone: zone.dup(), port: port.dup(), target },
                );
            },
            FirewallOperation::RemovePort { zone, port, .. } => {
                return Some(
                    FirewallOperation::RemovePort { zone: zone.dup(), port: port.dup(), target },
                );
            },
            FirewallOperation::SetMasquerade { zone, enabled, .. } => {
                return Some(
                    FirewallOperation::SetMasquerade {
                        zone: zone.dup(),
                        enabled: *enabled,
                        target,
                    },
                );
            },
            FirewallOperation::AddSourcePort { zone, port, .. } => {
                return Some(
                    FirewallOperation::AddSourcePort { zone: zone.dup(), port: port.dup(), target },
                );
            },
            FirewallOperation::RemoveSourcePort { zone, port, .. } => {
                return Some(
                    FirewallOperation::RemoveSourcePort {
                        zone: zone.dup(),
                        port: port.dup(),
                        target,
                    },
                );
            },
            FirewallOperation::AddProtocol { zone, protocol, .. } => {
                return Some(
                    FirewallOperation::AddProtocol {
                        zone: zone.dup(),
                        protocol: protocol.dup(),
                        target,
                    },
                );
            },
            FirewallOperation::RemoveProtocol { zone, protocol, .. } => {
                return Some(
                    FirewallOperation::RemoveProtocol {
                        zone: zone.dup(),
                        protocol: protocol.dup(),
                        target,
                    },
                );
            },
            FirewallOperation::SetForward { zone, enabled, .. } => {
                return Some(
                    FirewallOperation::SetForward { zone: zone.dup(), enabled: *enabled, target },
                );
            },
            FirewallOperation::SetIcmpBlockInversion { zone, enabled, .. } => {
                return Some(
                    FirewallOperation::SetIcmpBlockInversion {
                        zone: zone.dup(),
                        enabled: *enabled,
                        target,
                    },
                );
            },
            FirewallOperation::AddForwardPort { zone, forward, .. } => {
                return Some(
                    FirewallOperation::AddForwardPort {
                        zone: zone.dup(),
                        forward: forward.dup(),
                        target,
                    },
                );
            },
            FirewallOperation::RemoveForwardPort { zone, forward, .. } => {
                return Some(
                    FirewallOperation::RemoveForwardPort {
                        zone: zone.dup(),
                        forward: forward.dup(),
                        target,
                    },
                );
            },
            FirewallOperation::AddRichRule { zone, rule, .. } => {
                return Some(
                    FirewallOperation::AddRichRule { zone: zone.dup(), rule: rule.dup(), target },
                );
            },
            FirewallOperation::RemoveRichRule { zone, rule, .. } => {
                return Some(
                    FirewallOperation::RemoveRichRule {
                        zone: zone.dup(),
                        rule: rule.dup(),
                        target,
                    },
                );
            },
            FirewallOperation::AddInterface { zone, interface, .. } => {
                return Some(
                    FirewallOperation::AddInterface {
                        zone: zone.dup(),
                        interface: interface.dup(),
                        target,
                    },
                );
            },
            FirewallOperation::RemoveInterface { zone, interface, .. } => {
                return Some(
                    FirewallOperation::RemoveInterface {
                        zone: zone.dup(),
                        interface: interface.dup(),
                        target,
                    },
                );
            },
            FirewallOperation::AddSource { zone, source, .. } => {
                return Some(
                    FirewallOperation::AddSource { zone: zone.dup(), source: source.dup(), target },
                );
            },
            FirewallOperation::RemoveSource { zone, source, .. } => {
                return Some(
                    FirewallOperation::RemoveSource {
                        zone: zone.dup(),
                        source: source.dup(),
                        target,
                    },
                );
            },
            FirewallOperation::AddIcmpBlock { zone, icmp, .. } => {
                return Some(
                    FirewallOperation::AddIcmpBlock { zone: zone.dup(), icmp: icmp.dup(), target },
                );
            },
            FirewallOperation::RemoveIcmpBlock { zone, icmp, .. } => {
                return Some(
                    FirewallOperation::RemoveIcmpBlock {
                        zone: zone.dup(),
                        icmp: icmp.dup(),
                        target,
                    },
                );
            },
            FirewallOperation::AddPolicyService { policy, service, .. } => {
                return Some(
                    FirewallOperation::AddPolicyService {
                        policy: policy.dup(),
                        service: service.dup(),
                        target,
                    },
                );
            },
            FirewallOperation::RemovePolicyService { policy, service, .. } => {
                return Some(
                    FirewallOperation::RemovePolicyService {
                        policy: policy.dup(),
                        service: service.dup(),
                        target,
                    },
                );
            },
            FirewallOperation::SetPolicySetEnabled { policy_set, enabled, .. } => {
                return Some(
                    FirewallOperation::SetPolicySetEnabled {
                        policy_set: policy_set.dup(),
                        enabled: *enabled,
                        target,
                    },
                );
            },
            FirewallOperation::AddIpSetEntry { name, entry, .. } => {
                return Some(
                    FirewallOperation::AddIpSetEntry {
                        name: name.dup(),
                        entry: entry.dup(),
                        target,
                    },
                );
            },
            FirewallOperation::RemoveIpSetEntry { name, entry, .. } => {
                return Some(
                    FirewallOperation::RemoveIpSetEntry {
                        name: name.dup(),
                        entry: entry.dup(),
                        target,
                    },
                );
            },
            _ => {
                return None;
            },
        }
    }

    /// The configuration target this operation touches. Variants without a
    /// `target` field have a fixed answer: panic mode is runtime-only,
    /// lifecycle operations are permanent-only, global ones hit both.
    pub fn target(&self) -> (r: ConfigurationTarget)
        ensures
            r == self.deep_view().target(),
    {
        match self {
            FirewallOperation::AddService { target, .. } => *target,
            FirewallOperation::AddTemporaryService { .. } => ConfigurationTarget::Runtime,
            FirewallOperation::RemoveService { target, .. } => *target,
            FirewallOperation::AddPort { target, .. } => *target,
            FirewallOperation::RemovePort { target, .. } => *target,
            FirewallOperation::SetDefaultZone { .. } => ConfigurationTarget::RuntimeAndPermanent,
            FirewallOperation::SetMasquerade { target, .. } => *target,
            FirewallOperation::SetZoneTarget { .. } => ConfigurationTarget::Permanent,
            FirewallOperation::AddSourcePort { target, .. } => *target,
            FirewallOperation::RemoveSourcePort { target, .. } => *target,
            FirewallOperation::AddProtocol { target, .. } => *target,
            FirewallOperation::RemoveProtocol { target, .. } => *target,
            FirewallOperation::SetForward { target, .. } => *target,
            FirewallOperation::SetIcmpBlockInversion { target, .. } => *target,
            FirewallOperation::AddForwardPort { target, .. } => *target,
            FirewallOperation::RemoveForwardPort { target, .. } => *target,
            FirewallOperation::AddRichRule { target, .. } => *target,
            FirewallOperation::RemoveRichRule { target, .. } => *target,
            FirewallOperation::AddInterface { target, .. } => *target,
            FirewallOperation::RemoveInterface { target, .. } => *target,
            FirewallOperation::AddSource { target, .. } => *target,
            FirewallOperation::RemoveSource { target, .. } => *target,
            FirewallOperation::AddIcmpBlock { target, .. } => *target,
            FirewallOperation::RemoveIcmpBlock { target, .. } => *target,
            FirewallOperation::CreateService { .. } => ConfigurationTarget::Permanent,
            FirewallOperation::DeleteService { .. } => ConfigurationTarget::Permanent,
            FirewallOperation::AddServicePort { .. } => ConfigurationTarget::Permanent,
            FirewallOperation::RemoveServicePort { .. } => ConfigurationTarget::Permanent,
            FirewallOperation::CreatePolicy { .. } => ConfigurationTarget::Permanent,
            FirewallOperation::DeletePolicy { .. } => ConfigurationTarget::Permanent,
            FirewallOperation::MigrateDirectRule { .. } => ConfigurationTarget::Permanent,
            FirewallOperation::SetPolicyTarget { .. } => ConfigurationTarget::Permanent,
            FirewallOperation::AddPolicyIngressZone { .. } => ConfigurationTarget::Permanent,
            FirewallOperation::AddPolicyEgressZone { .. } => ConfigurationTarget::Permanent,
            FirewallOperation::AddPolicyService { target, .. } => *target,
            FirewallOperation::RemovePolicyService { target, .. } => *target,
            FirewallOperation::SetPolicySetEnabled { target, .. } => *target,
            FirewallOperation::CreateIpSet { .. } => ConfigurationTarget::Permanent,
            FirewallOperation::DeleteIpSet { .. } => ConfigurationTarget::Permanent,
            FirewallOperation::AddIpSetEntry { target, .. } => *target,
            FirewallOperation::RemoveIpSetEntry { target, .. } => *target,
            FirewallOperation::CreateZone { .. } => ConfigurationTarget::Permanent,
            FirewallOperation::DeleteZone { .. } => ConfigurationTarget::Permanent,
            FirewallOperation::SetPanicMode { .. } => ConfigurationTarget::Runtime,
            FirewallOperation::RuntimeToPermanent => ConfigurationTarget::Permanent,
            FirewallOperation::SetLogDenied { .. } => ConfigurationTarget::RuntimeAndPermanent,
            FirewallOperation::Reload => ConfigurationTarget::RuntimeAndPermanent,
        }
    }

    /// The runtime-scoped inverse, used as rollback metadata when the runtime
    /// step succeeded but the permanent step failed.
    pub fn inverse_runtime(&self) -> (r: Option<Self>)
        ensures
            r.deep_view() == self.deep_view().inverted(ConfigurationTarget::Runtime),
    {
        self.inverse_op(ConfigurationTarget::Runtime)
    }

    /// The same-target inverse, used by the timed-rollback dead-man's switch
    /// to undo a fully applied operation.
    pub fn inverse(&self) -> (r: Option<Self>)
        ensures
            r.deep_view() == self.deep_view().inverted(self.deep_view().target()),
    {
        self.inverse_op(self.target())
    }

    /// The opposite operation with the given target scope, or `None` for
    /// operations without a clean inverse (lifecycle, reload, default zone).
    /// The zone target has none either: the previous one is not recorded, so
    /// the operator restores it explicitly if needed.
    #[verifier::rlimit(80)]
    fn inverse_op(&self, target: ConfigurationTarget) -> (r: Option<Self>)
        ensures
            r.deep_view() == self.deep_view().inverted(target),
    {
        match self {
            FirewallOperation::AddService { zone, service, .. } => Some(
                FirewallOperation::RemoveService {
                    zone: zone.dup(),
                    service: service.dup(),
                    target,
                },
            ),
            FirewallOperation::AddTemporaryService { zone, service, .. } => Some(
                FirewallOperation::RemoveService {
                    zone: zone.dup(),
                    service: service.dup(),
                    target: ConfigurationTarget::Runtime,
                },
            ),
            FirewallOperation::RemoveService { zone, service, .. } => Some(
                FirewallOperation::AddService { zone: zone.dup(), service: service.dup(), target },
            ),
            FirewallOperation::AddPort { zone, port, .. } => Some(
                FirewallOperation::RemovePort { zone: zone.dup(), port: port.dup(), target },
            ),
            FirewallOperation::RemovePort { zone, port, .. } => Some(
                FirewallOperation::AddPort { zone: zone.dup(), port: port.dup(), target },
            ),
            FirewallOperation::SetMasquerade { zone, enabled, .. } => Some(
                FirewallOperation::SetMasquerade { zone: zone.dup(), enabled: !*enabled, target },
            ),
            FirewallOperation::AddSourcePort { zone, port, .. } => Some(
                FirewallOperation::RemoveSourcePort { zone: zone.dup(), port: port.dup(), target },
            ),
            FirewallOperation::RemoveSourcePort { zone, port, .. } => Some(
                FirewallOperation::AddSourcePort { zone: zone.dup(), port: port.dup(), target },
            ),
            FirewallOperation::AddProtocol { zone, protocol, .. } => Some(
                FirewallOperation::RemoveProtocol {
                    zone: zone.dup(),
                    protocol: protocol.dup(),
                    target,
                },
            ),
            FirewallOperation::RemoveProtocol { zone, protocol, .. } => Some(
                FirewallOperation::AddProtocol {
                    zone: zone.dup(),
                    protocol: protocol.dup(),
                    target,
                },
            ),
            FirewallOperation::SetForward { zone, enabled, .. } => Some(
                FirewallOperation::SetForward { zone: zone.dup(), enabled: !*enabled, target },
            ),
            FirewallOperation::SetIcmpBlockInversion { zone, enabled, .. } => Some(
                FirewallOperation::SetIcmpBlockInversion {
                    zone: zone.dup(),
                    enabled: !*enabled,
                    target,
                },
            ),
            FirewallOperation::AddForwardPort { zone, forward, .. } => Some(
                FirewallOperation::RemoveForwardPort {
                    zone: zone.dup(),
                    forward: forward.dup(),
                    target,
                },
            ),
            FirewallOperation::RemoveForwardPort { zone, forward, .. } => Some(
                FirewallOperation::AddForwardPort {
                    zone: zone.dup(),
                    forward: forward.dup(),
                    target,
                },
            ),
            FirewallOperation::AddRichRule { zone, rule, .. } => Some(
                FirewallOperation::RemoveRichRule { zone: zone.dup(), rule: rule.dup(), target },
            ),
            FirewallOperation::RemoveRichRule { zone, rule, .. } => Some(
                FirewallOperation::AddRichRule { zone: zone.dup(), rule: rule.dup(), target },
            ),
            FirewallOperation::AddInterface { zone, interface, .. } => Some(
                FirewallOperation::RemoveInterface {
                    zone: zone.dup(),
                    interface: interface.dup(),
                    target,
                },
            ),
            FirewallOperation::RemoveInterface { zone, interface, .. } => Some(
                FirewallOperation::AddInterface {
                    zone: zone.dup(),
                    interface: interface.dup(),
                    target,
                },
            ),
            FirewallOperation::AddSource { zone, source, .. } => Some(
                FirewallOperation::RemoveSource { zone: zone.dup(), source: source.dup(), target },
            ),
            FirewallOperation::RemoveSource { zone, source, .. } => Some(
                FirewallOperation::AddSource { zone: zone.dup(), source: source.dup(), target },
            ),
            FirewallOperation::AddIcmpBlock { zone, icmp, .. } => Some(
                FirewallOperation::RemoveIcmpBlock { zone: zone.dup(), icmp: icmp.dup(), target },
            ),
            FirewallOperation::RemoveIcmpBlock { zone, icmp, .. } => Some(
                FirewallOperation::AddIcmpBlock { zone: zone.dup(), icmp: icmp.dup(), target },
            ),
            FirewallOperation::AddServicePort { service, port } => Some(
                FirewallOperation::RemoveServicePort { service: service.dup(), port: port.dup() },
            ),
            FirewallOperation::RemoveServicePort { service, port } => Some(
                FirewallOperation::AddServicePort { service: service.dup(), port: port.dup() },
            ),
            FirewallOperation::AddPolicyService { policy, service, .. } => Some(
                FirewallOperation::RemovePolicyService {
                    policy: policy.dup(),
                    service: service.dup(),
                    target,
                },
            ),
            FirewallOperation::RemovePolicyService { policy, service, .. } => Some(
                FirewallOperation::AddPolicyService {
                    policy: policy.dup(),
                    service: service.dup(),
                    target,
                },
            ),
            FirewallOperation::AddIpSetEntry { name, entry, .. } => Some(
                FirewallOperation::RemoveIpSetEntry {
                    name: name.dup(),
                    entry: entry.dup(),
                    target,
                },
            ),
            FirewallOperation::RemoveIpSetEntry { name, entry, .. } => Some(
                FirewallOperation::AddIpSetEntry { name: name.dup(), entry: entry.dup(), target },
            ),
            FirewallOperation::SetPanicMode { enabled } => Some(
                FirewallOperation::SetPanicMode { enabled: !*enabled },
            ),
            _ => None,
        }
    }
}

} // verus!
