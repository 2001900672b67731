//! What operations are called in dialogs and toasts, and what they warn of.

use vstd::prelude::*;

use crate::number;
use crate::operation::{
    FirewallOperation,
    FirewallOperationView,
    OperationError,
    OperationErrorView,
};
use crate::text;
use crate::zone::ZoneTarget;

verus! {

impl FirewallOperationView {
    /// Short imperative summary.
    pub open spec fn described(self) -> Seq<char> {
        match self {
            FirewallOperationView::AddService { zone, service, .. } => "add service `"@ + service
                + "` to zone `"@ + zone + "`"@,
            FirewallOperationView::AddTemporaryService { zone, service, seconds } =>
                "temporarily allow service `"@
                + service + "` in zone `"@ + zone + "` for "@ + number::decimal_u32(seconds) + "s"@,
            FirewallOperationView::RemoveService { zone, service, .. } => "remove service `"@
                + service + "` from zone `"@ + zone + "`"@,
            FirewallOperationView::AddPort { zone, port, .. } => "open port "@ + port.spelled()
                + " in zone `"@ + zone + "`"@,
            FirewallOperationView::RemovePort { zone, port, .. } => "close port "@ + port.spelled()
                + " in zone `"@ + zone + "`"@,
            FirewallOperationView::SetDefaultZone { zone } => "set default zone to `"@ + zone
                + "`"@,
            FirewallOperationView::SetMasquerade { zone, enabled, .. } => if enabled {
                "enable masquerade in zone `"@ + zone + "`"@
            } else {
                "disable masquerade in zone `"@ + zone + "`"@
            },
            FirewallOperationView::SetZoneTarget { zone, zone_target } => "set target of zone `"@
                + zone + "` to "@ + zone_target.spelled(),
            FirewallOperationView::AddSourcePort { zone, port, .. } => "add source-port "@
                + port.spelled() + " to zone `"@ + zone + "`"@,
            FirewallOperationView::RemoveSourcePort { zone, port, .. } => "remove source-port "@
                + port.spelled() + " from zone `"@ + zone + "`"@,
            FirewallOperationView::AddProtocol { zone, protocol, .. } => "allow protocol `"@
                + protocol + "` in zone `"@ + zone + "`"@,
            FirewallOperationView::RemoveProtocol { zone, protocol, .. } =>
                "stop allowing protocol `"@
                + protocol + "` in zone `"@ + zone + "`"@,
            FirewallOperationView::SetForward { zone, enabled, .. } => if enabled {
                "enable intra-zone forwarding in `"@ + zone + "`"@
            } else {
                "disable intra-zone forwarding in `"@ + zone + "`"@
            },
            FirewallOperationView::SetIcmpBlockInversion { zone, enabled, .. } => if enabled {
                "invert icmp-block set in zone `"@ + zone + "`"@
            } else {
                "clear icmp-block inversion in zone `"@ + zone + "`"@
            },
            FirewallOperationView::AddForwardPort { zone, forward, .. } => "add forward "@
                + forward.spelled() + " to zone `"@ + zone + "`"@,
            FirewallOperationView::RemoveForwardPort { zone, forward, .. } => "remove forward "@
                + forward.spelled() + " from zone `"@ + zone + "`"@,
            FirewallOperationView::AddRichRule { zone, rule, .. } => "add rich rule to zone `"@
                + zone + "`: "@ + rule,
            FirewallOperationView::RemoveRichRule { zone, rule, .. } =>
                "remove rich rule from zone `"@
                + zone + "`: "@ + rule,
            FirewallOperationView::AddInterface { zone, interface, .. } => "bind interface `"@
                + interface + "` to zone `"@ + zone + "`"@,
            FirewallOperationView::RemoveInterface { zone, interface, .. } => "unbind interface `"@
                + interface + "` from zone `"@ + zone + "`"@,
            FirewallOperationView::AddSource { zone, source, .. } => "bind source "@
                + source.spelled() + " to zone `"@ + zone + "`"@,
            FirewallOperationView::RemoveSource { zone, source, .. } => "unbind source "@
                + source.spelled() + " from zone `"@ + zone + "`"@,
            FirewallOperationView::AddIcmpBlock { zone, icmp, .. } => "block ICMP `"@ + icmp
                + "` in zone `"@ + zone + "`"@,
            FirewallOperationView::RemoveIcmpBlock { zone, icmp, .. } => "unblock ICMP `"@ + icmp
                + "` in zone `"@ + zone + "`"@,
            FirewallOperationView::CreateService { service } => "create service `"@ + service
                + "` (permanent)"@,
            FirewallOperationView::DeleteService { service } => "delete service `"@ + service
                + "` (permanent)"@,
            FirewallOperationView::AddServicePort { service, port } => "add port "@
                + port.spelled() + " to service `"@ + service + "` (permanent)"@,
            FirewallOperationView::RemoveServicePort { service, port } => "remove port "@
                + port.spelled() + " from service `"@ + service + "` (permanent)"@,
            FirewallOperationView::CreatePolicy { policy } => "create policy `"@ + policy
                + "` (permanent)"@,
            FirewallOperationView::DeletePolicy { policy } => "delete policy `"@ + policy
                + "` (permanent)"@,
            FirewallOperationView::MigrateDirectRule { migration } =>
                "migrate direct rule to policy `"@
                + migration.policy + "` (permanent)"@,
            FirewallOperationView::SetPolicyTarget { policy, policy_target } => "set policy `"@
                + policy + "` target to "@ + policy_target.spelled(),
            FirewallOperationView::AddPolicyIngressZone { policy, zone } => "add ingress zone `"@
                + zone + "` to policy `"@ + policy + "`"@,
            FirewallOperationView::AddPolicyEgressZone { policy, zone } => "add egress zone `"@
                + zone + "` to policy `"@ + policy + "`"@,
            FirewallOperationView::AddPolicyService { policy, service, .. } => "add service `"@
                + service + "` to policy `"@ + policy + "`"@,
            FirewallOperationView::RemovePolicyService { policy, service, .. } =>
                "remove service `"@
                + service + "` from policy `"@ + policy + "`"@,
            FirewallOperationView::SetPolicySetEnabled { policy_set, enabled, .. } => if enabled {
                "enable policy set `"@ + policy_set + "`"@
            } else {
                "disable policy set `"@ + policy_set + "`"@
            },
            FirewallOperationView::CreateIpSet { name, kind } => "create ipset `"@ + name
                + "` of type `"@ + kind + "` (permanent)"@,
            FirewallOperationView::DeleteIpSet { name } => "delete ipset `"@ + name
                + "` (permanent)"@,
            FirewallOperationView::AddIpSetEntry { name, entry, .. } => "add "@ + entry
                + " to ipset `"@ + name + "`"@,
            FirewallOperationView::RemoveIpSetEntry { name, entry, .. } => "remove "@ + entry
                + " from ipset `"@ + name + "`"@,
            FirewallOperationView::CreateZone { zone } => "create zone `"@ + zone
                + "` (permanent)"@,
            FirewallOperationView::DeleteZone { zone } => "delete zone `"@ + zone
                + "` (permanent)"@,
            FirewallOperationView::SetPanicMode { enabled } => if enabled {
                "enable PANIC MODE"@
            } else {
                "disable panic mode"@
            },
            FirewallOperationView::RuntimeToPermanent =>
                "persist runtime configuration to permanent"@,
            FirewallOperationView::SetLogDenied { value } => "set LogDenied to `"@
                + value.spelled() + "`"@,
            FirewallOperationView::Reload => "reload firewalld"@,
        }
    }

    /// Past-tense message that spells out the target.
    pub open spec fn reported(self) -> Seq<char> {
        match self {
            FirewallOperationView::AddService { zone, service, target } => "service `"@ + service
                + "` added to zone `"@ + zone + "` ("@ + target.labelled() + ")"@,
            FirewallOperationView::AddTemporaryService { zone, service, seconds } => "service `"@
                + service + "` temporarily allowed in zone `"@ + zone + "` — auto-removes in "@
                + number::decimal_u32(seconds) + "s"@,
            FirewallOperationView::RemoveService { zone, service, target } => "service `"@
                + service + "` removed from zone `"@ + zone + "` ("@ + target.labelled() + ")"@,
            FirewallOperationView::AddPort { zone, port, target } => "port "@ + port.spelled()
                + " opened in zone `"@ + zone + "` ("@ + target.labelled() + ")"@,
            FirewallOperationView::RemovePort { zone, port, target } => "port "@ + port.spelled()
                + " closed in zone `"@ + zone + "` ("@ + target.labelled() + ")"@,
            FirewallOperationView::SetDefaultZone { zone } => "default zone set to `"@ + zone
                + "`"@,
            FirewallOperationView::SetMasquerade { zone, enabled, target } => if enabled {
                "masquerade enabled in zone `"@ + zone + "` ("@ + target.labelled() + ")"@
            } else {
                "masquerade disabled in zone `"@ + zone + "` ("@ + target.labelled() + ")"@
            },
            FirewallOperationView::SetZoneTarget { zone, zone_target } => "target of zone `"@
                + zone + "` set to "@ + zone_target.spelled() + " (permanent; reload to activate)"@,
            FirewallOperationView::AddSourcePort { zone, port, target } => "source-port "@
                + port.spelled() + " added to zone `"@ + zone + "` ("@ + target.labelled() + ")"@,
            FirewallOperationView::RemoveSourcePort { zone, port, target } => "source-port "@
                + port.spelled() + " removed from zone `"@ + zone + "` ("@ + target.labelled()
                + ")"@,
            FirewallOperationView::AddProtocol { zone, protocol, target } => "protocol `"@
                + protocol + "` allowed in zone `"@ + zone + "` ("@ + target.labelled() + ")"@,
            FirewallOperationView::RemoveProtocol { zone, protocol, target } => "protocol `"@
                + protocol + "` removed from zone `"@ + zone + "` ("@ + target.labelled() + ")"@,
            FirewallOperationView::SetForward { zone, enabled, target } => if enabled {
                "intra-zone forwarding enabled in `"@ + zone + "` ("@ + target.labelled() + ")"@
            } else {
                "intra-zone forwarding disabled in `"@ + zone + "` ("@ + target.labelled() + ")"@
            },
            FirewallOperationView::SetIcmpBlockInversion { zone, enabled, target } => if enabled {
                "icmp-block inversion on in `"@ + zone + "` ("@ + target.labelled() + ")"@
            } else {
                "icmp-block inversion off in `"@ + zone + "` ("@ + target.labelled() + ")"@
            },
            FirewallOperationView::AddForwardPort { zone, forward, target } => "forward "@
                + forward.spelled() + " added to zone `"@ + zone + "` ("@ + target.labelled()
                + ")"@,
            FirewallOperationView::RemoveForwardPort { zone, forward, target } => "forward "@
                + forward.spelled() + " removed from zone `"@ + zone + "` ("@ + target.labelled()
                + ")"@,
            FirewallOperationView::AddRichRule { zone, target, .. } => "rich rule added to zone `"@
                + zone + "` ("@ + target.labelled() + ")"@,
            FirewallOperationView::RemoveRichRule { zone, target, .. } =>
                "rich rule removed from zone `"@
                + zone + "` ("@ + target.labelled() + ")"@,
            FirewallOperationView::AddInterface { zone, interface, target } => "interface `"@
                + interface + "` bound to zone `"@ + zone + "` ("@ + target.labelled() + ")"@,
            FirewallOperationView::RemoveInterface { zone, interface, target } => "interface `"@
                + interface + "` unbound from zone `"@ + zone + "` ("@ + target.labelled() + ")"@,
            FirewallOperationView::AddSource { zone, source, target } => "source "@
                + source.spelled() + " bound to zone `"@ + zone + "` ("@ + target.labelled() + ")"@,
            FirewallOperationView::RemoveSource { zone, source, target } => "source "@
                + source.spelled() + " unbound from zone `"@ + zone + "` ("@ + target.labelled()
                + ")"@,
            FirewallOperationView::AddIcmpBlock { zone, icmp, target } => "ICMP `"@ + icmp
                + "` blocked in zone `"@ + zone + "` ("@ + target.labelled() + ")"@,
            FirewallOperationView::RemoveIcmpBlock { zone, icmp, target } => "ICMP `"@ + icmp
                + "` unblocked in zone `"@ + zone + "` ("@ + target.labelled() + ")"@,
            FirewallOperationView::CreateService { service } => "service `"@ + service
                + "` created (permanent) — reload (ctrl-r) to activate"@,
            FirewallOperationView::DeleteService { service } => "service `"@ + service
                + "` deleted (permanent) — reload (ctrl-r) to apply"@,
            FirewallOperationView::AddServicePort { service, port } => "port "@ + port.spelled()
                + " added to service `"@ + service + "` (permanent) — reload to apply"@,
            FirewallOperationView::RemoveServicePort { service, port } => "port "@ + port.spelled()
                + " removed from service `"@ + service + "` (permanent) — reload to apply"@,
            FirewallOperationView::CreatePolicy { policy } => "policy `"@ + policy
                + "` created (permanent) — reload (ctrl-r) to activate"@,
            FirewallOperationView::DeletePolicy { policy } => "policy `"@ + policy
                + "` deleted (permanent) — reload (ctrl-r) to apply"@,
            FirewallOperationView::MigrateDirectRule { migration } =>
                "direct rule migrated to policy `"@
                + migration.policy + "` (permanent) — reload (ctrl-r) to activate"@,
            FirewallOperationView::SetPolicyTarget { policy, policy_target } => "policy `"@
                + policy + "` target set to "@ + policy_target.spelled(),
            FirewallOperationView::AddPolicyIngressZone { policy, zone } => "ingress zone `"@
                + zone + "` added to policy `"@ + policy + "` (permanent)"@,
            FirewallOperationView::AddPolicyEgressZone { policy, zone } => "egress zone `"@ + zone
                + "` added to policy `"@ + policy + "` (permanent)"@,
            FirewallOperationView::AddPolicyService { policy, service, target } => "service `"@
                + service + "` added to policy `"@ + policy + "` ("@ + target.labelled() + ")"@,
            FirewallOperationView::RemovePolicyService { policy, service, target } => "service `"@
                + service + "` removed from policy `"@ + policy + "` ("@ + target.labelled() + ")"@,
            FirewallOperationView::SetPolicySetEnabled {
                policy_set,
                enabled,
                target,
            } => if enabled {
                "policy set `"@ + policy_set + "` enabled ("@ + target.labelled() + ")"@
            } else {
                "policy set `"@ + policy_set + "` disabled ("@ + target.labelled() + ")"@
            },
            FirewallOperationView::CreateIpSet { name, .. } => "ipset `"@ + name
                + "` created (permanent) — reload (ctrl-r) to activate"@,
            FirewallOperationView::DeleteIpSet { name } => "ipset `"@ + name
                + "` deleted (permanent) — reload (ctrl-r) to apply"@,
            FirewallOperationView::AddIpSetEntry { name, entry, target } => entry
                + " added to ipset `"@ + name + "` ("@ + target.labelled() + ")"@,
            FirewallOperationView::RemoveIpSetEntry { name, entry, target } => entry
                + " removed from ipset `"@ + name + "` ("@ + target.labelled() + ")"@,
            FirewallOperationView::CreateZone { zone } => "zone `"@ + zone
                + "` created (permanent) — reload (ctrl-r) to activate"@,
            FirewallOperationView::DeleteZone { zone } => "zone `"@ + zone
                + "` deleted (permanent) — reload (ctrl-r) to apply"@,
            FirewallOperationView::SetPanicMode { enabled } => if enabled {
                "PANIC MODE ENABLED — all packets are dropped"@
            } else {
                "panic mode disabled"@
            },
            FirewallOperationView::RuntimeToPermanent =>
                "runtime configuration persisted to permanent"@,
            FirewallOperationView::SetLogDenied { value } => "LogDenied set to `"@
                + value.spelled() + "`"@,
            FirewallOperationView::Reload => "firewalld reloaded — runtime reset to permanent"@,
        }
    }

    /// What the operation can break.
    pub open spec fn warning(self) -> Option<Seq<char>> {
        match self {
            FirewallOperationView::RemoveService { .. } => Some(
                "may cut existing connections using this rule"@,
            ),
            FirewallOperationView::RemovePort { .. } => Some(
                "may cut existing connections using this rule"@,
            ),
            FirewallOperationView::RemoveForwardPort { .. } => Some(
                "may cut existing connections using this rule"@,
            ),
            FirewallOperationView::RemoveSourcePort { .. } => Some(
                "may cut existing connections using this rule"@,
            ),
            FirewallOperationView::RemoveProtocol { .. } => Some(
                "may cut existing connections using this rule"@,
            ),
            FirewallOperationView::RemoveRichRule { .. } => Some(
                "may cut existing connections using this rule"@,
            ),
            FirewallOperationView::SetMasquerade { enabled, .. } => if !enabled {
                Some("disabling masquerade may break NAT'd clients"@)
            } else {
                None
            },
            FirewallOperationView::SetForward { enabled, .. } => if !enabled {
                Some(
                    "disabling forwarding may break routed traffic between this zone's interfaces"@,
                )
            } else {
                None
            },
            FirewallOperationView::SetIcmpBlockInversion { enabled, .. } => if enabled {
                Some("inverting icmp-block blocks all ICMP except the listed types"@)
            } else {
                None
            },
            FirewallOperationView::SetZoneTarget { zone_target, .. } =>
                if zone_target == ZoneTarget::Drop || zone_target
                == ZoneTarget::Reject {
                Some("a DROP/REJECT target blocks everything not explicitly allowed"@)
            } else {
                None
            },
            FirewallOperationView::RemoveInterface { .. } => Some(
                "traffic on this interface falls back to the default zone"@,
            ),
            FirewallOperationView::RemoveSource { .. } => Some(
                "traffic from this source falls back to the default zone"@,
            ),
            FirewallOperationView::DeleteZone { .. } => Some(
                "zone bindings fall back to the default zone after the next reload"@,
            ),
            FirewallOperationView::DeleteService { .. } => Some(
                "zones using this service lose it after the next reload"@,
            ),
            FirewallOperationView::DeletePolicy { .. } => Some(
                "traffic governed by this policy falls back to zone rules"@,
            ),
            FirewallOperationView::DeleteIpSet { .. } => Some(
                "zones referencing this ipset lose those sources after the next reload"@,
            ),
            FirewallOperationView::RemoveIpSetEntry { .. } => Some(
                "rules matching this entry stop applying to it"@,
            ),
            FirewallOperationView::SetPanicMode { enabled } => if enabled {
                Some("DROPS ALL PACKETS — remote sessions WILL be cut"@)
            } else {
                None
            },
            FirewallOperationView::Reload => Some("runtime-only changes will be lost"@),
            FirewallOperationView::SetDefaultZone { .. } => Some(
                "re-homes every unbound interface and source — a restrictive default can cut your session"@,
            ),
            FirewallOperationView::AddInterface { .. } => Some(
                "moves this interface's traffic under a new zone's rules — may cut sessions on it"@,
            ),
            FirewallOperationView::AddSource { .. } => Some(
                "source bindings match at the highest precedence — binding your own client's address into a restrictive zone cuts you off"@,
            ),
            _ => None,
        }
    }
}

impl FirewallOperation {
    /// Short imperative summary for the confirmation modal.
    #[verifier::rlimit(80)]
    pub fn describe(&self) -> (r: String)
        ensures
            r@ == self.deep_view().described(),
    {
        match self {
            FirewallOperation::AddService { zone, service, .. } => text::cat5(
                "add service `",
                service.as_str(),
                "` to zone `",
                zone.as_str(),
                "`",
            ),
            FirewallOperation::AddTemporaryService { zone, service, seconds } => {
                let shown = number::show_u32(*seconds);
                text::cat7(
                    "temporarily allow service `",
                    service.as_str(),
                    "` in zone `",
                    zone.as_str(),
                    "` for ",
                    shown.as_str(),
                    "s",
                )
            },
            FirewallOperation::RemoveService { zone, service, .. } => text::cat5(
                "remove service `",
                service.as_str(),
                "` from zone `",
                zone.as_str(),
                "`",
            ),
            FirewallOperation::AddPort { zone, port, .. } => {
                let shown = port.show();
                text::cat5("open port ", shown.as_str(), " in zone `", zone.as_str(), "`")
            },
            FirewallOperation::RemovePort { zone, port, .. } => {
                let shown = port.show();
                text::cat5("close port ", shown.as_str(), " in zone `", zone.as_str(), "`")
            },
            FirewallOperation::SetDefaultZone { zone } => text::cat3(
                "set default zone to `",
                zone.as_str(),
                "`",
            ),
            FirewallOperation::SetMasquerade { zone, enabled, .. } => if *enabled {
                text::cat3("enable masquerade in zone `", zone.as_str(), "`")
            } else {
                text::cat3("disable masquerade in zone `", zone.as_str(), "`")
            },
            FirewallOperation::SetZoneTarget { zone, zone_target } => text::cat4(
                "set target of zone `",
                zone.as_str(),
                "` to ",
                zone_target.as_str(),
            ),
            FirewallOperation::AddSourcePort { zone, port, .. } => {
                let shown = port.show();
                text::cat5("add source-port ", shown.as_str(), " to zone `", zone.as_str(), "`")
            },
            FirewallOperation::RemoveSourcePort { zone, port, .. } => {
                let shown = port.show();
                text::cat5(
                    "remove source-port ",
                    shown.as_str(),
                    " from zone `",
                    zone.as_str(),
                    "`",
                )
            },
            FirewallOperation::AddProtocol { zone, protocol, .. } => text::cat5(
                "allow protocol `",
                protocol.as_str(),
                "` in zone `",
                zone.as_str(),
                "`",
            ),
            FirewallOperation::RemoveProtocol { zone, protocol, .. } => text::cat5(
                "stop allowing protocol `",
                protocol.as_str(),
                "` in zone `",
                zone.as_str(),
                "`",
            ),
            FirewallOperation::SetForward { zone, enabled, .. } => if *enabled {
                text::cat3("enable intra-zone forwarding in `", zone.as_str(), "`")
            } else {
                text::cat3("disable intra-zone forwarding in `", zone.as_str(), "`")
            },
            FirewallOperation::SetIcmpBlockInversion { zone, enabled, .. } => if *enabled {
                text::cat3("invert icmp-block set in zone `", zone.as_str(), "`")
            } else {
                text::cat3("clear icmp-block inversion in zone `", zone.as_str(), "`")
            },
            FirewallOperation::AddForwardPort { zone, forward, .. } => {
                let shown = forward.spec_string();
                text::cat5("add forward ", shown.as_str(), " to zone `", zone.as_str(), "`")
            },
            FirewallOperation::RemoveForwardPort { zone, forward, .. } => {
                let shown = forward.spec_string();
                text::cat5("remove forward ", shown.as_str(), " from zone `", zone.as_str(), "`")
            },
            FirewallOperation::AddRichRule { zone, rule, .. } => text::cat4(
                "add rich rule to zone `",
                zone.as_str(),
                "`: ",
                rule.as_str(),
            ),
            FirewallOperation::RemoveRichRule { zone, rule, .. } => text::cat4(
                "remove rich rule from zone `",
                zone.as_str(),
                "`: ",
                rule.as_str(),
            ),
            FirewallOperation::AddInterface { zone, interface, .. } => text::cat5(
                "bind interface `",
                interface.as_str(),
                "` to zone `",
                zone.as_str(),
                "`",
            ),
            FirewallOperation::RemoveInterface { zone, interface, .. } => text::cat5(
                "unbind interface `",
                interface.as_str(),
                "` from zone `",
                zone.as_str(),
                "`",
            ),
            FirewallOperation::AddSource { zone, source, .. } => {
                let shown = source.show();
                text::cat5("bind source ", shown.as_str(), " to zone `", zone.as_str(), "`")
            },
            FirewallOperation::RemoveSource { zone, source, .. } => {
                let shown = source.show();
                text::cat5("unbind source ", shown.as_str(), " from zone `", zone.as_str(), "`")
            },
            FirewallOperation::AddIcmpBlock { zone, icmp, .. } => text::cat5(
                "block ICMP `",
                icmp.as_str(),
                "` in zone `",
                zone.as_str(),
                "`",
            ),
            FirewallOperation::RemoveIcmpBlock { zone, icmp, .. } => text::cat5(
                "unblock ICMP `",
                icmp.as_str(),
                "` in zone `",
                zone.as_str(),
                "`",
            ),
            FirewallOperation::CreateService { service } => text::cat3(
                "create service `",
                service.as_str(),
                "` (permanent)",
            ),
            FirewallOperation::DeleteService { service } => text::cat3(
                "delete service `",
                service.as_str(),
                "` (permanent)",
            ),
            FirewallOperation::AddServicePort { service, port } => {
                let shown = port.show();
                text::cat5(
                    "add port ",
                    shown.as_str(),
                    " to service `",
                    service.as_str(),
                    "` (permanent)",
                )
            },
            FirewallOperation::RemoveServicePort { service, port } => {
                let shown = port.show();
                text::cat5(
                    "remove port ",
                    shown.as_str(),
                    " from service `",
                    service.as_str(),
                    "` (permanent)",
                )
            },
            FirewallOperation::CreatePolicy { policy } => text::cat3(
                "create policy `",
                policy.as_str(),
                "` (permanent)",
            ),
            FirewallOperation::DeletePolicy { policy } => text::cat3(
                "delete policy `",
                policy.as_str(),
                "` (permanent)",
            ),
            FirewallOperation::MigrateDirectRule { migration } => text::cat3(
                "migrate direct rule to policy `",
                migration.policy().as_str(),
                "` (permanent)",
            ),
            FirewallOperation::SetPolicyTarget { policy, policy_target } => text::cat4(
                "set policy `",
                policy.as_str(),
                "` target to ",
                policy_target.as_str(),
            ),
            FirewallOperation::AddPolicyIngressZone { policy, zone } => text::cat5(
                "add ingress zone `",
                zone.as_str(),
                "` to policy `",
                policy.as_str(),
                "`",
            ),
            FirewallOperation::AddPolicyEgressZone { policy, zone } => text::cat5(
                "add egress zone `",
                zone.as_str(),
                "` to policy `",
                policy.as_str(),
                "`",
            ),
            FirewallOperation::AddPolicyService { policy, service, .. } => text::cat5(
                "add service `",
                service.as_str(),
                "` to policy `",
                policy.as_str(),
                "`",
            ),
            FirewallOperation::RemovePolicyService { policy, service, .. } => text::cat5(
                "remove service `",
                service.as_str(),
                "` from policy `",
                policy.as_str(),
                "`",
            ),
            FirewallOperation::SetPolicySetEnabled { policy_set, enabled, .. } => if *enabled {
                text::cat3("enable policy set `", policy_set.as_str(), "`")
            } else {
                text::cat3("disable policy set `", policy_set.as_str(), "`")
            },
            FirewallOperation::CreateIpSet { name, kind } => text::cat5(
                "create ipset `",
                name.as_str(),
                "` of type `",
                kind.as_str(),
                "` (permanent)",
            ),
            FirewallOperation::DeleteIpSet { name } => text::cat3(
                "delete ipset `",
                name.as_str(),
                "` (permanent)",
            ),
            FirewallOperation::AddIpSetEntry { name, entry, .. } => text::cat5(
                "add ",
                entry.as_str(),
                " to ipset `",
                name.as_str(),
                "`",
            ),
            FirewallOperation::RemoveIpSetEntry { name, entry, .. } => text::cat5(
                "remove ",
                entry.as_str(),
                " from ipset `",
                name.as_str(),
                "`",
            ),
            FirewallOperation::CreateZone { zone } => text::cat3(
                "create zone `",
                zone.as_str(),
                "` (permanent)",
            ),
            FirewallOperation::DeleteZone { zone } => text::cat3(
                "delete zone `",
                zone.as_str(),
                "` (permanent)",
            ),
            FirewallOperation::SetPanicMode { enabled } => if *enabled {
                "enable PANIC MODE".to_owned()
            } else {
                "disable panic mode".to_owned()
            },
            FirewallOperation::RuntimeToPermanent =>
                "persist runtime configuration to permanent".to_owned(),
            FirewallOperation::SetLogDenied { value } => text::cat3(
                "set LogDenied to `",
                value.as_str(),
                "`",
            ),
            FirewallOperation::Reload => "reload firewalld".to_owned(),
        }
    }

    /// Past-tense message for the success toast, spelling out the target.
    #[verifier::rlimit(80)]
    pub fn success_message(&self) -> (r: String)
        ensures
            r@ == self.deep_view().reported(),
    {
        match self {
            FirewallOperation::AddService { zone, service, target } => text::cat7(
                "service `",
                service.as_str(),
                "` added to zone `",
                zone.as_str(),
                "` (",
                target.label(),
                ")",
            ),
            FirewallOperation::AddTemporaryService { zone, service, seconds } => {
                let shown = number::show_u32(*seconds);
                text::cat7(
                    "service `",
                    service.as_str(),
                    "` temporarily allowed in zone `",
                    zone.as_str(),
                    "` — auto-removes in ",
                    shown.as_str(),
                    "s",
                )
            },
            FirewallOperation::RemoveService { zone, service, target } => text::cat7(
                "service `",
                service.as_str(),
                "` removed from zone `",
                zone.as_str(),
                "` (",
                target.label(),
                ")",
            ),
            FirewallOperation::AddPort { zone, port, target } => {
                let shown = port.show();
                text::cat7(
                    "port ",
                    shown.as_str(),
                    " opened in zone `",
                    zone.as_str(),
                    "` (",
                    target.label(),
                    ")",
                )
            },
            FirewallOperation::RemovePort { zone, port, target } => {
                let shown = port.show();
                text::cat7(
                    "port ",
                    shown.as_str(),
                    " closed in zone `",
                    zone.as_str(),
                    "` (",
                    target.label(),
                    ")",
                )
            },
            FirewallOperation::SetDefaultZone { zone } => text::cat3(
                "default zone set to `",
                zone.as_str(),
                "`",
            ),
            FirewallOperation::SetMasquerade { zone, enabled, target } => if *enabled {
                text::cat5(
                    "masquerade enabled in zone `",
                    zone.as_str(),
                    "` (",
                    target.label(),
                    ")",
                )
            } else {
                text::cat5(
                    "masquerade disabled in zone `",
                    zone.as_str(),
                    "` (",
                    target.label(),
                    ")",
                )
            },
            FirewallOperation::SetZoneTarget { zone, zone_target } => text::cat5(
                "target of zone `",
                zone.as_str(),
                "` set to ",
                zone_target.as_str(),
                " (permanent; reload to activate)",
            ),
            FirewallOperation::AddSourcePort { zone, port, target } => {
                let shown = port.show();
                text::cat7(
                    "source-port ",
                    shown.as_str(),
                    " added to zone `",
                    zone.as_str(),
                    "` (",
                    target.label(),
                    ")",
                )
            },
            FirewallOperation::RemoveSourcePort { zone, port, target } => {
                let shown = port.show();
                text::cat7(
                    "source-port ",
                    shown.as_str(),
                    " removed from zone `",
                    zone.as_str(),
                    "` (",
                    target.label(),
                    ")",
                )
            },
            FirewallOperation::AddProtocol { zone, protocol, target } => text::cat7(
                "protocol `",
                protocol.as_str(),
                "` allowed in zone `",
                zone.as_str(),
                "` (",
                target.label(),
                ")",
            ),
            FirewallOperation::RemoveProtocol { zone, protocol, target } => text::cat7(
                "protocol `",
                protocol.as_str(),
                "` removed from zone `",
                zone.as_str(),
                "` (",
                target.label(),
                ")",
            ),
            FirewallOperation::SetForward { zone, enabled, target } => if *enabled {
                text::cat5(
                    "intra-zone forwarding enabled in `",
                    zone.as_str(),
                    "` (",
                    target.label(),
                    ")",
                )
            } else {
                text::cat5(
                    "intra-zone forwarding disabled in `",
                    zone.as_str(),
                    "` (",
                    target.label(),
                    ")",
                )
            },
            FirewallOperation::SetIcmpBlockInversion { zone, enabled, target } => if *enabled {
                text::cat5(
                    "icmp-block inversion on in `",
                    zone.as_str(),
                    "` (",
                    target.label(),
                    ")",
                )
            } else {
                text::cat5(
                    "icmp-block inversion off in `",
                    zone.as_str(),
                    "` (",
                    target.label(),
                    ")",
                )
            },
            FirewallOperation::AddForwardPort { zone, forward, target } => {
                let shown = forward.spec_string();
                text::cat7(
                    "forward ",
                    shown.as_str(),
                    " added to zone `",
                    zone.as_str(),
                    "` (",
                    target.label(),
                    ")",
                )
            },
            FirewallOperation::RemoveForwardPort { zone, forward, target } => {
                let shown = forward.spec_string();
                text::cat7(
                    "forward ",
                    shown.as_str(),
                    " removed from zone `",
                    zone.as_str(),
                    "` (",
                    target.label(),
                    ")",
                )
            },
            FirewallOperation::AddRichRule { zone, target, .. } => text::cat5(
                "rich rule added to zone `",
                zone.as_str(),
                "` (",
                target.label(),
                ")",
            ),
            FirewallOperation::RemoveRichRule { zone, target, .. } => text::cat5(
                "rich rule removed from zone `",
                zone.as_str(),
                "` (",
                target.label(),
                ")",
            ),
            FirewallOperation::AddInterface { zone, interface, target } => text::cat7(
                "interface `",
                interface.as_str(),
                "` bound to zone `",
                zone.as_str(),
                "` (",
                target.label(),
                ")",
            ),
            FirewallOperation::RemoveInterface { zone, interface, target } => text::cat7(
                "interface `",
                interface.as_str(),
                "` unbound from zone `",
                zone.as_str(),
                "` (",
                target.label(),
                ")",
            ),
            FirewallOperation::AddSource { zone, source, target } => {
                let shown = source.show();
                text::cat7(
                    "source ",
                    shown.as_str(),
                    " bound to zone `",
                    zone.as_str(),
                    "` (",
                    target.label(),
                    ")",
                )
            },
            FirewallOperation::RemoveSource { zone, source, target } => {
                let shown = source.show();
                text::cat7(
                    "source ",
                    shown.as_str(),
                    " unbound from zone `",
                    zone.as_str(),
                    "` (",
                    target.label(),
                    ")",
                )
            },
            FirewallOperation::AddIcmpBlock { zone, icmp, target } => text::cat7(
                "ICMP `",
                icmp.as_str(),
                "` blocked in zone `",
                zone.as_str(),
                "` (",
                target.label(),
                ")",
            ),
            FirewallOperation::RemoveIcmpBlock { zone, icmp, target } => text::cat7(
                "ICMP `",
                icmp.as_str(),
                "` unblocked in zone `",
                zone.as_str(),
                "` (",
                target.label(),
                ")",
            ),
            FirewallOperation::CreateService { service } => text::cat3(
                "service `",
                service.as_str(),
                "` created (permanent) — reload (ctrl-r) to activate",
            ),
            FirewallOperation::DeleteService { service } => text::cat3(
                "service `",
                service.as_str(),
                "` deleted (permanent) — reload (ctrl-r) to apply",
            ),
            FirewallOperation::AddServicePort { service, port } => {
                let shown = port.show();
                text::cat5(
                    "port ",
                    shown.as_str(),
                    " added to service `",
                    service.as_str(),
                    "` (permanent) — reload to apply",
                )
            },
            FirewallOperation::RemoveServicePort { service, port } => {
                let shown = port.show();
                text::cat5(
                    "port ",
                    shown.as_str(),
                    " removed from service `",
                    service.as_str(),
                    "` (permanent) — reload to apply",
                )
            },
            FirewallOperation::CreatePolicy { policy } => text::cat3(
                "policy `",
                policy.as_str(),
                "` created (permanent) — reload (ctrl-r) to activate",
            ),
            FirewallOperation::DeletePolicy { policy } => text::cat3(
                "policy `",
                policy.as_str(),
                "` deleted (permanent) — reload (ctrl-r) to apply",
            ),
            FirewallOperation::MigrateDirectRule { migration } => text::cat3(
                "direct rule migrated to policy `",
                migration.policy().as_str(),
                "` (permanent) — reload (ctrl-r) to activate",
            ),
            FirewallOperation::SetPolicyTarget { policy, policy_target } => text::cat4(
                "policy `",
                policy.as_str(),
                "` target set to ",
                policy_target.as_str(),
            ),
            FirewallOperation::AddPolicyIngressZone { policy, zone } => text::cat5(
                "ingress zone `",
                zone.as_str(),
                "` added to policy `",
                policy.as_str(),
                "` (permanent)",
            ),
            FirewallOperation::AddPolicyEgressZone { policy, zone } => text::cat5(
                "egress zone `",
                zone.as_str(),
                "` added to policy `",
                policy.as_str(),
                "` (permanent)",
            ),
            FirewallOperation::AddPolicyService { policy, service, target } => text::cat7(
                "service `",
                service.as_str(),
                "` added to policy `",
                policy.as_str(),
                "` (",
                target.label(),
                ")",
            ),
            FirewallOperation::RemovePolicyService { policy, service, target } => text::cat7(
                "service `",
                service.as_str(),
                "` removed from policy `",
                policy.as_str(),
                "` (",
                target.label(),
                ")",
            ),
            FirewallOperation::SetPolicySetEnabled { policy_set, enabled, target } => if *enabled {
                text::cat5("policy set `", policy_set.as_str(), "` enabled (", target.label(), ")")
            } else {
                text::cat5("policy set `", policy_set.as_str(), "` disabled (", target.label(), ")")
            },
            FirewallOperation::CreateIpSet { name, .. } => text::cat3(
                "ipset `",
                name.as_str(),
                "` created (permanent) — reload (ctrl-r) to activate",
            ),
            FirewallOperation::DeleteIpSet { name } => text::cat3(
                "ipset `",
                name.as_str(),
                "` deleted (permanent) — reload (ctrl-r) to apply",
            ),
            FirewallOperation::AddIpSetEntry { name, entry, target } => text::cat6(
                entry.as_str(),
                " added to ipset `",
                name.as_str(),
                "` (",
                target.label(),
                ")",
            ),
            FirewallOperation::RemoveIpSetEntry { name, entry, target } => text::cat6(
                entry.as_str(),
                " removed from ipset `",
                name.as_str(),
                "` (",
                target.label(),
                ")",
            ),
            FirewallOperation::CreateZone { zone } => text::cat3(
                "zone `",
                zone.as_str(),
                "` created (permanent) — reload (ctrl-r) to activate",
            ),
            FirewallOperation::DeleteZone { zone } => text::cat3(
                "zone `",
                zone.as_str(),
                "` deleted (permanent) — reload (ctrl-r) to apply",
            ),
            FirewallOperation::SetPanicMode { enabled } => if *enabled {
                "PANIC MODE ENABLED — all packets are dropped".to_owned()
            } else {
                "panic mode disabled".to_owned()
            },
            FirewallOperation::RuntimeToPermanent =>
                "runtime configuration persisted to permanent".to_owned(),
            FirewallOperation::SetLogDenied { value } => text::cat3(
                "LogDenied set to `",
                value.as_str(),
                "`",
            ),
            FirewallOperation::Reload =>
                "firewalld reloaded — runtime reset to permanent".to_owned(),
        }
    }

    /// Warning line for the confirmation modal, when the operation can break
    /// existing connectivity.
    pub fn connectivity_warning(&self) -> (r: Option<&'static str>)
        ensures
            match r {
                Some(w) => self.deep_view().warning() == Some(w@),
                None => self.deep_view().warning() is None,
            },
    {
        match self {
            FirewallOperation::RemoveService { .. } => Some(
                "may cut existing connections using this rule",
            ),
            FirewallOperation::RemovePort { .. } => Some(
                "may cut existing connections using this rule",
            ),
            FirewallOperation::RemoveForwardPort { .. } => Some(
                "may cut existing connections using this rule",
            ),
            FirewallOperation::RemoveSourcePort { .. } => Some(
                "may cut existing connections using this rule",
            ),
            FirewallOperation::RemoveProtocol { .. } => Some(
                "may cut existing connections using this rule",
            ),
            FirewallOperation::RemoveRichRule { .. } => Some(
                "may cut existing connections using this rule",
            ),
            FirewallOperation::SetMasquerade { enabled, .. } => if !*enabled {
                Some("disabling masquerade may break NAT'd clients")
            } else {
                None
            },
            FirewallOperation::SetForward { enabled, .. } => if !*enabled {
                Some("disabling forwarding may break routed traffic between this zone's interfaces")
            } else {
                None
            },
            FirewallOperation::SetIcmpBlockInversion { enabled, .. } => if *enabled {
                Some("inverting icmp-block blocks all ICMP except the listed types")
            } else {
                None
            },
            FirewallOperation::SetZoneTarget { zone_target, .. } =>
                if *zone_target == ZoneTarget::Drop || *zone_target
                == ZoneTarget::Reject {
                Some("a DROP/REJECT target blocks everything not explicitly allowed")
            } else {
                None
            },
            FirewallOperation::RemoveInterface { .. } => Some(
                "traffic on this interface falls back to the default zone",
            ),
            FirewallOperation::RemoveSource { .. } => Some(
                "traffic from this source falls back to the default zone",
            ),
            FirewallOperation::DeleteZone { .. } => Some(
                "zone bindings fall back to the default zone after the next reload",
            ),
            FirewallOperation::DeleteService { .. } => Some(
                "zones using this service lose it after the next reload",
            ),
            FirewallOperation::DeletePolicy { .. } => Some(
                "traffic governed by this policy falls back to zone rules",
            ),
            FirewallOperation::DeleteIpSet { .. } => Some(
                "zones referencing this ipset lose those sources after the next reload",
            ),
            FirewallOperation::RemoveIpSetEntry { .. } => Some(
                "rules matching this entry stop applying to it",
            ),
            FirewallOperation::SetPanicMode { enabled } => if *enabled {
                Some("DROPS ALL PACKETS — remote sessions WILL be cut")
            } else {
                None
            },
            FirewallOperation::Reload => Some("runtime-only changes will be lost"),
            FirewallOperation::SetDefaultZone { .. } => Some(
                "re-homes every unbound interface and source — a restrictive default can cut your session",
            ),
            FirewallOperation::AddInterface { .. } => Some(
                "moves this interface's traffic under a new zone's rules — may cut sessions on it",
            ),
            FirewallOperation::AddSource { .. } => Some(
                "source bindings match at the highest precedence — binding your own client's address into a restrictive zone cuts you off",
            ),
            _ => None,
        }
    }
}

impl OperationErrorView {
    /// The sentence that describes the failure.
    pub open spec fn message(self) -> Seq<char> {
        match self {
            OperationErrorView::UnknownZone(zone) => "zone `"@ + zone + "` not found"@,
            OperationErrorView::NothingToDo(reason) => reason,
            OperationErrorView::Invalid(reason) => reason,
        }
    }
}

impl OperationError {
    /// The sentence that describes the failure.
    pub fn message(&self) -> (r: String)
        ensures
            r@ == self.deep_view().message(),
    {
        match self {
            OperationError::UnknownZone(zone) => text::cat3("zone `", zone.as_str(), "` not found"),
            OperationError::NothingToDo(reason) => reason.clone(),
            OperationError::Invalid(reason) => reason.clone(),
        }
    }
}

/// What a description of the operation tells: it opens with what is done, and
/// names the item and what it is done to.
pub open spec fn tells(op: FirewallOperationView, text: Seq<char>) -> bool {
    match op {
        FirewallOperationView::AddService { zone, service, .. } =>
            exists|m1: Seq<char>, m2: Seq<char>|
            text == #[trigger] ("add service `"@ + service + m1 + zone + m2),
        FirewallOperationView::AddTemporaryService { zone, service, seconds } =>
            exists|m1: Seq<char>, m2: Seq<char>, m3: Seq<char>|
            text == #[trigger] ("temporarily allow service `"@ + service + m1 + zone + m2
                + number::decimal_u32(seconds) + m3),
        FirewallOperationView::RemoveService { zone, service, .. } =>
            exists|m1: Seq<char>, m2: Seq<char>|
            text == #[trigger] ("remove service `"@ + service + m1 + zone + m2),
        FirewallOperationView::AddPort { zone, port, .. } => exists|m1: Seq<char>, m2: Seq<char>|
            text == #[trigger] ("open port "@ + port.spelled() + m1 + zone + m2),
        FirewallOperationView::RemovePort { zone, port, .. } => exists|m1: Seq<char>, m2: Seq<char>|
            text == #[trigger] ("close port "@ + port.spelled() + m1 + zone + m2),
        FirewallOperationView::SetDefaultZone { zone } => exists|m1: Seq<char>|
            text == #[trigger] ("set default zone to `"@ + zone + m1),
        FirewallOperationView::SetMasquerade { zone, enabled, .. } => if enabled {
            exists|m1: Seq<char>| text == #[trigger] ("enable masquerade in zone `"@ + zone + m1)
        } else {
            exists|m1: Seq<char>| text == #[trigger] ("disable masquerade in zone `"@ + zone + m1)
        },
        FirewallOperationView::SetZoneTarget { zone, zone_target } => exists|m1: Seq<char>|
            text == #[trigger] ("set target of zone `"@ + zone + m1 + zone_target.spelled()),
        FirewallOperationView::AddSourcePort { zone, port, .. } =>
            exists|m1: Seq<char>, m2: Seq<char>|
            text == #[trigger] ("add source-port "@ + port.spelled() + m1 + zone + m2),
        FirewallOperationView::RemoveSourcePort { zone, port, .. } =>
            exists|m1: Seq<char>, m2: Seq<char>|
            text == #[trigger] ("remove source-port "@ + port.spelled() + m1 + zone + m2),
        FirewallOperationView::AddProtocol { zone, protocol, .. } =>
            exists|m1: Seq<char>, m2: Seq<char>|
            text == #[trigger] ("allow protocol `"@ + protocol + m1 + zone + m2),
        FirewallOperationView::RemoveProtocol { zone, protocol, .. } =>
            exists|m1: Seq<char>, m2: Seq<char>|
            text == #[trigger] ("stop allowing protocol `"@ + protocol + m1 + zone + m2),
        FirewallOperationView::SetForward { zone, enabled, .. } => if enabled {
            exists|m1: Seq<char>|
                text == #[trigger] ("enable intra-zone forwarding in `"@ + zone + m1)
        } else {
            exists|m1: Seq<char>|
                text == #[trigger] ("disable intra-zone forwarding in `"@ + zone + m1)
        },
        FirewallOperationView::SetIcmpBlockInversion { zone, enabled, .. } => if enabled {
            exists|m1: Seq<char>|
                text == #[trigger] ("invert icmp-block set in zone `"@ + zone + m1)
        } else {
            exists|m1: Seq<char>|
                text == #[trigger] ("clear icmp-block inversion in zone `"@ + zone + m1)
        },
        FirewallOperationView::AddForwardPort { zone, forward, .. } =>
            exists|m1: Seq<char>, m2: Seq<char>|
            text == #[trigger] ("add forward "@ + forward.spelled() + m1 + zone + m2),
        FirewallOperationView::RemoveForwardPort { zone, forward, .. } =>
            exists|m1: Seq<char>, m2: Seq<char>|
            text == #[trigger] ("remove forward "@ + forward.spelled() + m1 + zone + m2),
        FirewallOperationView::AddRichRule { zone, rule, .. } => exists|m1: Seq<char>|
            text == #[trigger] ("add rich rule to zone `"@ + zone + m1 + rule),
        FirewallOperationView::RemoveRichRule { zone, rule, .. } => exists|m1: Seq<char>|
            text == #[trigger] ("remove rich rule from zone `"@ + zone + m1 + rule),
        FirewallOperationView::AddInterface { zone, interface, .. } =>
            exists|m1: Seq<char>, m2: Seq<char>|
            text == #[trigger] ("bind interface `"@ + interface + m1 + zone + m2),
        FirewallOperationView::RemoveInterface { zone, interface, .. } =>
            exists|m1: Seq<char>, m2: Seq<char>|
            text == #[trigger] ("unbind interface `"@ + interface + m1 + zone + m2),
        FirewallOperationView::AddSource { zone, source, .. } =>
            exists|m1: Seq<char>, m2: Seq<char>|
            text == #[trigger] ("bind source "@ + source.spelled() + m1 + zone + m2),
        FirewallOperationView::RemoveSource { zone, source, .. } =>
            exists|m1: Seq<char>, m2: Seq<char>|
            text == #[trigger] ("unbind source "@ + source.spelled() + m1 + zone + m2),
        FirewallOperationView::AddIcmpBlock { zone, icmp, .. } =>
            exists|m1: Seq<char>, m2: Seq<char>|
            text == #[trigger] ("block ICMP `"@ + icmp + m1 + zone + m2),
        FirewallOperationView::RemoveIcmpBlock { zone, icmp, .. } =>
            exists|m1: Seq<char>, m2: Seq<char>|
            text == #[trigger] ("unblock ICMP `"@ + icmp + m1 + zone + m2),
        FirewallOperationView::CreateService { service } => exists|m1: Seq<char>|
            text == #[trigger] ("create service `"@ + service + m1),
        FirewallOperationView::DeleteService { service } => exists|m1: Seq<char>|
            text == #[trigger] ("delete service `"@ + service + m1),
        FirewallOperationView::AddServicePort { service, port } =>
            exists|m1: Seq<char>, m2: Seq<char>|
            text == #[trigger] ("add port "@ + port.spelled() + m1 + service + m2),
        FirewallOperationView::RemoveServicePort { service, port } =>
            exists|m1: Seq<char>, m2: Seq<char>|
            text == #[trigger] ("remove port "@ + port.spelled() + m1 + service + m2),
        FirewallOperationView::CreatePolicy { policy } => exists|m1: Seq<char>|
            text == #[trigger] ("create policy `"@ + policy + m1),
        FirewallOperationView::DeletePolicy { policy } => exists|m1: Seq<char>|
            text == #[trigger] ("delete policy `"@ + policy + m1),
        FirewallOperationView::MigrateDirectRule { migration } => exists|m1: Seq<char>|
            text == #[trigger] ("migrate direct rule to policy `"@ + migration.policy + m1),
        FirewallOperationView::SetPolicyTarget { policy, policy_target } => exists|m1: Seq<char>|
            text == #[trigger] ("set policy `"@ + policy + m1 + policy_target.spelled()),
        FirewallOperationView::AddPolicyIngressZone { policy, zone } =>
            exists|m1: Seq<char>, m2: Seq<char>|
            text == #[trigger] ("add ingress zone `"@ + zone + m1 + policy + m2),
        FirewallOperationView::AddPolicyEgressZone { policy, zone } =>
            exists|m1: Seq<char>, m2: Seq<char>|
            text == #[trigger] ("add egress zone `"@ + zone + m1 + policy + m2),
        FirewallOperationView::AddPolicyService { policy, service, .. } =>
            exists|m1: Seq<char>, m2: Seq<char>|
            text == #[trigger] ("add service `"@ + service + m1 + policy + m2),
        FirewallOperationView::RemovePolicyService { policy, service, .. } =>
            exists|m1: Seq<char>, m2: Seq<char>|
            text == #[trigger] ("remove service `"@ + service + m1 + policy + m2),
        FirewallOperationView::SetPolicySetEnabled { policy_set, enabled, .. } => if enabled {
            exists|m1: Seq<char>| text == #[trigger] ("enable policy set `"@ + policy_set + m1)
        } else {
            exists|m1: Seq<char>| text == #[trigger] ("disable policy set `"@ + policy_set + m1)
        },
        FirewallOperationView::CreateIpSet { name, kind } => exists|m1: Seq<char>, m2: Seq<char>|
            text == #[trigger] ("create ipset `"@ + name + m1 + kind + m2),
        FirewallOperationView::DeleteIpSet { name } => exists|m1: Seq<char>|
            text == #[trigger] ("delete ipset `"@ + name + m1),
        FirewallOperationView::AddIpSetEntry { name, entry, .. } =>
            exists|m1: Seq<char>, m2: Seq<char>|
            text == #[trigger] ("add "@ + entry + m1 + name + m2),
        FirewallOperationView::RemoveIpSetEntry { name, entry, .. } =>
            exists|m1: Seq<char>, m2: Seq<char>|
            text == #[trigger] ("remove "@ + entry + m1 + name + m2),
        FirewallOperationView::CreateZone { zone } => exists|m1: Seq<char>|
            text == #[trigger] ("create zone `"@ + zone + m1),
        FirewallOperationView::DeleteZone { zone } => exists|m1: Seq<char>|
            text == #[trigger] ("delete zone `"@ + zone + m1),
        FirewallOperationView::SetPanicMode { enabled } => if enabled {
            text == "enable PANIC MODE"@
        } else {
            text == "disable panic mode"@
        },
        FirewallOperationView::RuntimeToPermanent => text == "persist runtime configuration to permanent"@,
        FirewallOperationView::SetLogDenied { value } => exists|m1: Seq<char>|
            text == #[trigger] ("set LogDenied to `"@ + value.spelled() + m1),
        FirewallOperationView::Reload => text == "reload firewalld"@,
    }
}

#[verifier::opaque]
spec fn told(op: FirewallOperationView) -> bool {
    tells(op, op.described())
}

/// A description tells what is done, to which item, and where.
pub proof fn descriptions_tell_what_is_done(op: FirewallOperationView)
    ensures
        tells(op, op.described()),
{
    if op is AddService || op is AddTemporaryService || op is RemoveService || op is AddPort
        || op is RemovePort || op is SetDefaultZone || op is SetMasquerade || op is SetZoneTarget {
        assert(told(op)) by {
            reveal(told);
        }
    } else if op is AddSourcePort || op is RemoveSourcePort || op is AddProtocol
        || op is RemoveProtocol || op is SetForward || op is SetIcmpBlockInversion
        || op is AddForwardPort || op is RemoveForwardPort {
        assert(told(op)) by {
            reveal(told);
        }
    } else if op is AddRichRule || op is RemoveRichRule || op is AddInterface
        || op is RemoveInterface || op is AddSource || op is RemoveSource
        || op is AddIcmpBlock || op is RemoveIcmpBlock {
        assert(told(op)) by {
            reveal(told);
        }
    } else if op is CreateService || op is DeleteService || op is AddServicePort
        || op is RemoveServicePort || op is CreatePolicy || op is DeletePolicy
        || op is MigrateDirectRule || op is SetPolicyTarget {
        assert(told(op)) by {
            reveal(told);
        }
    } else if op is AddPolicyIngressZone || op is AddPolicyEgressZone
        || op is AddPolicyService || op is RemovePolicyService || op is SetPolicySetEnabled
        || op is CreateIpSet || op is DeleteIpSet || op is AddIpSetEntry {
        assert(told(op)) by {
            reveal(told);
        }
    } else {
        assert(told(op)) by {
            reveal(told);
        }
    }
    reveal(told);
}

} // verus!
