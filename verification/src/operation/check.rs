//! Checking operations against a snapshot: what makes one pointless or
//! impossible, which scopes it still has to change, and whether its effect is
//! visible.

use vstd::prelude::*;

use crate::ids::{IpSetName, PolicyName, ServiceName, ZoneName};
use crate::address::IpSetEntry;
use crate::lists;
use crate::model;
use crate::model::Value;
use crate::name_map;
use crate::name_map::NameMap;
use crate::operation::{
    FirewallOperation,
    FirewallOperationView,
    OperationError,
    OperationErrorView,
};
use crate::policy::{PolicyDetails, PolicyDetailsView};
use crate::snapshot::{
    ConfigurationTarget, FirewallSnapshot, FirewallSnapshotView, IpSetInfo, IpSetInfoView,
    SnapshotSection,
};
use crate::text;
use crate::zone::{ZoneDetails, ZoneDetailsView};

verus! {

/// The ipset types firewalld supports (`--get-ipset-types`); checked before
/// the type string can reach an argument vector.
pub open spec fn ipset_type(kind: Seq<char>) -> bool {
    ||| kind == "hash:ip"@
    ||| kind == "hash:ip,mark"@
    ||| kind == "hash:ip,port"@
    ||| kind == "hash:ip,port,ip"@
    ||| kind == "hash:ip,port,net"@
    ||| kind == "hash:mac"@
    ||| kind == "hash:net"@
    ||| kind == "hash:net,iface"@
    ||| kind == "hash:net,net"@
    ||| kind == "hash:net,port"@
    ||| kind == "hash:net,port,net"@
}

/// The ipset types firewalld supports (`--get-ipset-types`).
pub const IPSET_TYPES: [&'static str; 11] = [
    "hash:ip",
    "hash:ip,mark",
    "hash:ip,port",
    "hash:ip,port,ip",
    "hash:ip,port,net",
    "hash:mac",
    "hash:net",
    "hash:net,iface",
    "hash:net,net",
    "hash:net,port",
    "hash:net,port,net",
];

/// Whether firewalld supports an ipset type.
pub fn is_ipset_type(kind: &str) -> (r: bool)
    ensures
        r == ipset_type(kind@),
{
    text::same(kind, "hash:ip") || text::same(kind, "hash:ip,mark")
        || text::same(kind, "hash:ip,port") || text::same(kind, "hash:ip,port,ip")
        || text::same(kind, "hash:ip,port,net") || text::same(kind, "hash:mac")
        || text::same(kind, "hash:net") || text::same(kind, "hash:net,iface")
        || text::same(kind, "hash:net,net") || text::same(kind, "hash:net,port")
        || text::same(kind, "hash:net,port,net")
}

/// The listed types are the supported ones.
pub proof fn listed_types_are_supported(kind: Seq<char>)
    ensures
        ipset_type(kind) == (exists|i: int|
            0 <= i < IPSET_TYPES@.len() && (#[trigger] IPSET_TYPES@[i])@ == kind),
{
    let t = IPSET_TYPES@;
    assert(t.len() == 11);
    assert(t[0]@ == "hash:ip"@);
    assert(t[1]@ == "hash:ip,mark"@);
    assert(t[2]@ == "hash:ip,port"@);
    assert(t[3]@ == "hash:ip,port,ip"@);
    assert(t[4]@ == "hash:ip,port,net"@);
    assert(t[5]@ == "hash:mac"@);
    assert(t[6]@ == "hash:net"@);
    assert(t[7]@ == "hash:net,iface"@);
    assert(t[8]@ == "hash:net,net"@);
    assert(t[9]@ == "hash:net,port"@);
    assert(t[10]@ == "hash:net,port,net"@);
}

/// A fact that has to hold in every scope of a target.
pub open spec fn in_scopes(target: ConfigurationTarget, runtime: bool, permanent: bool) -> bool {
    match target {
        ConfigurationTarget::Runtime => runtime,
        ConfigurationTarget::Permanent => permanent,
        ConfigurationTarget::RuntimeAndPermanent => runtime && permanent,
    }
}

fn holds_in_scopes(target: ConfigurationTarget, runtime: bool, permanent: bool) -> (r: bool)
    ensures
        r == in_scopes(target, runtime, permanent),
{
    match target {
        ConfigurationTarget::Runtime => runtime,
        ConfigurationTarget::Permanent => permanent,
        ConfigurationTarget::RuntimeAndPermanent => runtime && permanent,
    }
}

/// An observation for a target, made of the observations of its scopes. A
/// scope without one leaves the whole open, unless the runtime already fails.
pub open spec fn scoped_outcome(
    target: ConfigurationTarget,
    runtime: Option<bool>,
    permanent: Option<bool>,
) -> Option<bool> {
    match target {
        ConfigurationTarget::Runtime => runtime,
        ConfigurationTarget::Permanent => permanent,
        ConfigurationTarget::RuntimeAndPermanent => match runtime {
            None => None,
            Some(false) => Some(false),
            Some(true) => permanent,
        },
    }
}

fn scoped_postcondition(
    target: ConfigurationTarget,
    runtime: Option<bool>,
    permanent: Option<bool>,
) -> (r: Option<bool>)
    ensures
        r == scoped_outcome(target, runtime, permanent),
{
    match target {
        ConfigurationTarget::Runtime => runtime,
        ConfigurationTarget::Permanent => permanent,
        ConfigurationTarget::RuntimeAndPermanent => match runtime {
            None => None,
            Some(false) => Some(false),
            Some(true) => permanent,
        },
    }
}

/// What the scopes of a target show of a zone: the effect has to be there in
/// every targeted scope that has the zone. Nothing, where none of them has it.
pub open spec fn visible_outcome(
    target: ConfigurationTarget,
    runtime: Option<bool>,
    permanent: Option<bool>,
) -> Option<bool> {
    match target {
        ConfigurationTarget::Runtime => runtime,
        ConfigurationTarget::Permanent => permanent,
        ConfigurationTarget::RuntimeAndPermanent => match (runtime, permanent) {
            (Some(r), Some(p)) => Some(r && p),
            (Some(r), None) => Some(r),
            (None, p) => p,
        },
    }
}

fn visible_postcondition(
    target: ConfigurationTarget,
    runtime: Option<bool>,
    permanent: Option<bool>,
) -> (r: Option<bool>)
    ensures
        r == visible_outcome(target, runtime, permanent),
{
    match target {
        ConfigurationTarget::Runtime => runtime,
        ConfigurationTarget::Permanent => permanent,
        ConfigurationTarget::RuntimeAndPermanent => match (runtime, permanent) {
            (Some(r), Some(p)) => Some(r && p),
            (Some(r), None) => Some(r),
            (None, p) => p,
        },
    }
}

/// The outcome of looking for an operation's effect among one kind of object.
#[derive(Debug, Clone, Copy, PartialEq, Eq, Structural)]
pub enum PostconditionProbe {
    /// The operation edits another kind of object.
    NotApplicable,
    /// The snapshot does not tell.
    Unknown,
    /// The desired state holds or not.
    Holds(bool),
}

impl PostconditionProbe {
    /// An observation as a probe.
    pub open spec fn of(value: Option<bool>) -> PostconditionProbe {
        match value {
            Some(b) => PostconditionProbe::Holds(b),
            None => PostconditionProbe::Unknown,
        }
    }

    fn from_option(value: Option<bool>) -> (r: Self)
        ensures
            r == Self::of(value),
    {
        match value {
            Some(b) => PostconditionProbe::Holds(b),
            None => PostconditionProbe::Unknown,
        }
    }
}

impl FirewallOperationView {
    /// The desired item or setting is there in the zone; for a removal, the
    /// item that is to go.
    pub open spec fn item_in(self, z: ZoneDetailsView) -> bool {
        match self {
            FirewallOperationView::AddService { service, .. } => z.services.contains(service),
            FirewallOperationView::AddTemporaryService { service, .. } => z.services.contains(
                service,
            ),
            FirewallOperationView::RemoveService { service, .. } => z.services.contains(service),
            FirewallOperationView::AddPort { port, .. } => z.ports.contains(port),
            FirewallOperationView::RemovePort { port, .. } => z.ports.contains(port),
            FirewallOperationView::SetMasquerade { enabled, .. } => z.masquerade == enabled,
            FirewallOperationView::SetZoneTarget { zone_target, .. } => z.target == zone_target,
            FirewallOperationView::AddSourcePort { port, .. } => z.source_ports.contains(port),
            FirewallOperationView::RemoveSourcePort { port, .. } => z.source_ports.contains(port),
            FirewallOperationView::AddProtocol { protocol, .. } => z.protocols.contains(protocol),
            FirewallOperationView::RemoveProtocol { protocol, .. } => z.protocols.contains(
                protocol,
            ),
            FirewallOperationView::SetForward { enabled, .. } => z.forward == enabled,
            FirewallOperationView::SetIcmpBlockInversion { enabled, .. } =>
                z.icmp_block_inversion == enabled,
            FirewallOperationView::AddForwardPort { forward, .. } => z.forward_ports.contains(
                forward,
            ),
            FirewallOperationView::RemoveForwardPort { forward, .. } => z.forward_ports.contains(
                forward,
            ),
            FirewallOperationView::AddRichRule { rule, .. } => z.rich_rules.contains(rule),
            FirewallOperationView::RemoveRichRule { rule, .. } => z.rich_rules.contains(rule),
            FirewallOperationView::AddInterface { interface, .. } => z.interfaces.contains(
                interface,
            ),
            FirewallOperationView::RemoveInterface { interface, .. } => z.interfaces.contains(
                interface,
            ),
            FirewallOperationView::AddSource { source, .. } => z.sources.contains(source),
            FirewallOperationView::RemoveSource { source, .. } => z.sources.contains(source),
            FirewallOperationView::AddIcmpBlock { icmp, .. } => z.icmp_blocks.contains(icmp),
            FirewallOperationView::RemoveIcmpBlock { icmp, .. } => z.icmp_blocks.contains(icmp),
            _ => false,
        }
    }

    /// For edits whose effect shows in a zone's details: whether the item has
    /// to be there afterwards.
    pub open spec fn probe(self) -> Option<bool> {
        match self {
            FirewallOperationView::AddService { .. } => Some(true),
            FirewallOperationView::RemoveService { .. } => Some(false),
            FirewallOperationView::AddPort { .. } => Some(true),
            FirewallOperationView::RemovePort { .. } => Some(false),
            FirewallOperationView::SetMasquerade { .. } => Some(true),
            FirewallOperationView::SetZoneTarget { .. } => Some(true),
            FirewallOperationView::AddSourcePort { .. } => Some(true),
            FirewallOperationView::RemoveSourcePort { .. } => Some(false),
            FirewallOperationView::AddProtocol { .. } => Some(true),
            FirewallOperationView::RemoveProtocol { .. } => Some(false),
            FirewallOperationView::SetForward { .. } => Some(true),
            FirewallOperationView::SetIcmpBlockInversion { .. } => Some(true),
            FirewallOperationView::AddForwardPort { .. } => Some(true),
            FirewallOperationView::RemoveForwardPort { .. } => Some(false),
            FirewallOperationView::AddRichRule { .. } => Some(true),
            FirewallOperationView::RemoveRichRule { .. } => Some(false),
            FirewallOperationView::AddInterface { .. } => Some(true),
            FirewallOperationView::RemoveInterface { .. } => Some(false),
            FirewallOperationView::AddSource { .. } => Some(true),
            FirewallOperationView::RemoveSource { .. } => Some(false),
            FirewallOperationView::AddIcmpBlock { .. } => Some(true),
            FirewallOperationView::RemoveIcmpBlock { .. } => Some(false),
            _ => None,
        }
    }

    /// For edits of a zone's collections and switches: the zone, and whether
    /// the edit adds.
    pub open spec fn zone_edit(self) -> Option<(Seq<char>, bool)> {
        match self {
            FirewallOperationView::AddService { zone, .. } => Some((zone, true)),
            FirewallOperationView::AddTemporaryService { zone, .. } => Some((zone, true)),
            FirewallOperationView::RemoveService { zone, .. } => Some((zone, false)),
            FirewallOperationView::AddPort { zone, .. } => Some((zone, true)),
            FirewallOperationView::RemovePort { zone, .. } => Some((zone, false)),
            FirewallOperationView::SetMasquerade { zone, .. } => Some((zone, true)),
            FirewallOperationView::AddSourcePort { zone, .. } => Some((zone, true)),
            FirewallOperationView::RemoveSourcePort { zone, .. } => Some((zone, false)),
            FirewallOperationView::AddProtocol { zone, .. } => Some((zone, true)),
            FirewallOperationView::RemoveProtocol { zone, .. } => Some((zone, false)),
            FirewallOperationView::SetForward { zone, .. } => Some((zone, true)),
            FirewallOperationView::SetIcmpBlockInversion { zone, .. } => Some((zone, true)),
            FirewallOperationView::AddForwardPort { zone, .. } => Some((zone, true)),
            FirewallOperationView::RemoveForwardPort { zone, .. } => Some((zone, false)),
            FirewallOperationView::AddRichRule { zone, .. } => Some((zone, true)),
            FirewallOperationView::RemoveRichRule { zone, .. } => Some((zone, false)),
            FirewallOperationView::AddInterface { zone, .. } => Some((zone, true)),
            FirewallOperationView::RemoveInterface { zone, .. } => Some((zone, false)),
            FirewallOperationView::AddSource { zone, .. } => Some((zone, true)),
            FirewallOperationView::RemoveSource { zone, .. } => Some((zone, false)),
            FirewallOperationView::AddIcmpBlock { zone, .. } => Some((zone, true)),
            FirewallOperationView::RemoveIcmpBlock { zone, .. } => Some((zone, false)),
            _ => None,
        }
    }

    /// Why an edit of a zone's collections or switches would change nothing.
    pub open spec fn redundant(self) -> Seq<char> {
        match self {
            FirewallOperationView::AddService { service, .. } => "service `"@ + service
                + "` is already enabled in runtime and permanent"@,
            FirewallOperationView::AddTemporaryService { service, .. } => "service `"@ + service
                + "` is already enabled in runtime and permanent"@,
            FirewallOperationView::RemoveService { zone, service, .. } => "service `"@ + service
                + "` is not enabled in zone `"@ + zone + "`"@,
            FirewallOperationView::AddPort { port, .. } => "port "@ + port.spelled()
                + " is already open in runtime and permanent"@,
            FirewallOperationView::RemovePort { zone, port, .. } => "port "@ + port.spelled()
                + " is not open in zone `"@ + zone + "`"@,
            FirewallOperationView::SetMasquerade { zone, enabled, .. } => if enabled {
                "masquerade is already enabled in zone `"@ + zone + "`"@
            } else {
                "masquerade is already disabled in zone `"@ + zone + "`"@
            },
            FirewallOperationView::AddSourcePort { port, .. } => "source-port "@ + port.spelled()
                + " is already set in runtime and permanent"@,
            FirewallOperationView::RemoveSourcePort { zone, port, .. } => "source-port "@
                + port.spelled() + " is not set in zone `"@ + zone + "`"@,
            FirewallOperationView::AddProtocol { protocol, .. } => "protocol `"@ + protocol
                + "` is already allowed in runtime and permanent"@,
            FirewallOperationView::RemoveProtocol { zone, protocol, .. } => "protocol `"@
                + protocol + "` is not allowed in zone `"@ + zone + "`"@,
            FirewallOperationView::SetForward { zone, enabled, .. } => if enabled {
                "intra-zone forwarding is already enabled in zone `"@ + zone + "`"@
            } else {
                "intra-zone forwarding is already disabled in zone `"@ + zone + "`"@
            },
            FirewallOperationView::SetIcmpBlockInversion { zone, enabled, .. } => if enabled {
                "icmp-block inversion is already on in zone `"@ + zone + "`"@
            } else {
                "icmp-block inversion is already off in zone `"@ + zone + "`"@
            },
            FirewallOperationView::AddForwardPort { .. } =>
                "this forward port already exists in runtime and permanent"@,
            FirewallOperationView::RemoveForwardPort { zone, forward, .. } => "forward "@
                + forward.spelled() + " does not exist in zone `"@ + zone + "`"@,
            FirewallOperationView::AddRichRule { .. } =>
                "this rich rule already exists in runtime and permanent"@,
            FirewallOperationView::RemoveRichRule { zone, .. } =>
                "this rich rule does not exist in zone `"@
                + zone + "`"@,
            FirewallOperationView::AddInterface { zone, interface, .. } => "interface `"@
                + interface + "` is already bound to zone `"@ + zone + "`"@,
            FirewallOperationView::RemoveInterface { zone, interface, .. } => "interface `"@
                + interface + "` is not bound to zone `"@ + zone + "`"@,
            FirewallOperationView::AddSource { zone, source, .. } => "source "@ + source.spelled()
                + " is already bound to zone `"@ + zone + "`"@,
            FirewallOperationView::RemoveSource { zone, source, .. } => "source "@
                + source.spelled() + " is not bound to zone `"@ + zone + "`"@,
            FirewallOperationView::AddIcmpBlock { zone, icmp, .. } => "ICMP `"@ + icmp
                + "` is already blocked in zone `"@ + zone + "`"@,
            FirewallOperationView::RemoveIcmpBlock { zone, icmp, .. } => "ICMP `"@ + icmp
                + "` is not blocked in zone `"@ + zone + "`"@,
            _ => Seq::empty(),
        }
    }

    /// The part of a snapshot that has to be known before the operation can be
    /// judged.
    pub open spec fn required_section(self) -> Option<SnapshotSection> {
        match self {
            FirewallOperationView::AddService { .. } => Some(SnapshotSection::Zones),
            FirewallOperationView::AddTemporaryService { .. } => Some(SnapshotSection::Zones),
            FirewallOperationView::RemoveService { .. } => Some(SnapshotSection::Zones),
            FirewallOperationView::AddPort { .. } => Some(SnapshotSection::Zones),
            FirewallOperationView::RemovePort { .. } => Some(SnapshotSection::Zones),
            FirewallOperationView::SetDefaultZone { .. } => Some(SnapshotSection::Zones),
            FirewallOperationView::SetMasquerade { .. } => Some(SnapshotSection::Zones),
            FirewallOperationView::SetZoneTarget { .. } => Some(SnapshotSection::Zones),
            FirewallOperationView::AddSourcePort { .. } => Some(SnapshotSection::Zones),
            FirewallOperationView::RemoveSourcePort { .. } => Some(SnapshotSection::Zones),
            FirewallOperationView::AddProtocol { .. } => Some(SnapshotSection::Zones),
            FirewallOperationView::RemoveProtocol { .. } => Some(SnapshotSection::Zones),
            FirewallOperationView::SetForward { .. } => Some(SnapshotSection::Zones),
            FirewallOperationView::SetIcmpBlockInversion { .. } => Some(SnapshotSection::Zones),
            FirewallOperationView::AddForwardPort { .. } => Some(SnapshotSection::Zones),
            FirewallOperationView::RemoveForwardPort { .. } => Some(SnapshotSection::Zones),
            FirewallOperationView::AddRichRule { .. } => Some(SnapshotSection::Zones),
            FirewallOperationView::RemoveRichRule { .. } => Some(SnapshotSection::Zones),
            FirewallOperationView::AddInterface { .. } => Some(SnapshotSection::Zones),
            FirewallOperationView::RemoveInterface { .. } => Some(SnapshotSection::Zones),
            FirewallOperationView::AddSource { .. } => Some(SnapshotSection::Zones),
            FirewallOperationView::RemoveSource { .. } => Some(SnapshotSection::Zones),
            FirewallOperationView::AddIcmpBlock { .. } => Some(SnapshotSection::Zones),
            FirewallOperationView::RemoveIcmpBlock { .. } => Some(SnapshotSection::Zones),
            FirewallOperationView::CreateService { .. } => Some(SnapshotSection::Services),
            FirewallOperationView::DeleteService { .. } => Some(SnapshotSection::Services),
            FirewallOperationView::AddServicePort { .. } => Some(SnapshotSection::Services),
            FirewallOperationView::RemoveServicePort { .. } => Some(SnapshotSection::Services),
            FirewallOperationView::CreatePolicy { .. } => Some(SnapshotSection::Policies),
            FirewallOperationView::DeletePolicy { .. } => Some(SnapshotSection::Policies),
            FirewallOperationView::MigrateDirectRule { .. } => Some(SnapshotSection::Policies),
            FirewallOperationView::SetPolicyTarget { .. } => Some(SnapshotSection::Policies),
            FirewallOperationView::AddPolicyIngressZone { .. } => Some(SnapshotSection::Policies),
            FirewallOperationView::AddPolicyEgressZone { .. } => Some(SnapshotSection::Policies),
            FirewallOperationView::AddPolicyService { .. } => Some(SnapshotSection::Policies),
            FirewallOperationView::RemovePolicyService { .. } => Some(SnapshotSection::Policies),
            FirewallOperationView::SetPolicySetEnabled { .. } => Some(SnapshotSection::Policies),
            FirewallOperationView::CreateIpSet { .. } => Some(SnapshotSection::IpSets),
            FirewallOperationView::DeleteIpSet { .. } => Some(SnapshotSection::IpSets),
            FirewallOperationView::AddIpSetEntry { .. } => Some(SnapshotSection::IpSets),
            FirewallOperationView::RemoveIpSetEntry { .. } => Some(SnapshotSection::IpSets),
            FirewallOperationView::CreateZone { .. } => Some(SnapshotSection::Zones),
            FirewallOperationView::DeleteZone { .. } => Some(SnapshotSection::Zones),
            FirewallOperationView::SetPanicMode { .. } => None,
            FirewallOperationView::RuntimeToPermanent => None,
            FirewallOperationView::SetLogDenied { .. } => None,
            FirewallOperationView::Reload => None,
        }
    }

    /// The desired item is there in the zone of that name.
    pub open spec fn item_at(
        self,
        zones: Seq<(Seq<char>, ZoneDetailsView)>,
        zone: Seq<char>,
    ) -> bool {
        match name_map::lookup(zones, zone) {
            Some(z) => self.item_in(z),
            None => false,
        }
    }

    /// An edit of a zone needs the zone in every targeted scope, and has to
    /// change something in one of them.
    pub open spec fn zone_edit_checked(
        self,
        zone: Seq<char>,
        adding: bool,
        s: FirewallSnapshotView,
    ) -> Result<(), OperationErrorView> {
        let target = self.target();
        let runtime = self.item_at(s.runtime, zone);
        let permanent = self.item_at(s.permanent, zone);
        if !in_scopes(
            target,
            name_map::lookup(s.runtime, zone) is Some,
            name_map::lookup(s.permanent, zone) is Some,
        ) {
            Err(
                OperationErrorView::Invalid(
                    "zone `"@ + zone + "` does not exist in the "@ + target.labelled()
                        + " configuration"@,
                ),
            )
        } else if adding && in_scopes(target, runtime, permanent) {
            Err(OperationErrorView::NothingToDo(self.redundant()))
        } else if !adding && in_scopes(target, !runtime, !permanent) {
            Err(OperationErrorView::NothingToDo(self.redundant()))
        } else {
            Ok(())
        }
    }
}

/// The policy of that name has the service.
pub open spec fn policy_serves(
    policies: Seq<(Seq<char>, PolicyDetailsView)>,
    policy: Seq<char>,
    service: Seq<char>,
) -> Option<bool> {
    match name_map::lookup(policies, policy) {
        Some(p) => Some(p.services.contains(service)),
        None => None,
    }
}

/// The ipset of that name has the entry.
pub open spec fn ipset_holds(
    ipsets: Seq<(Seq<char>, IpSetInfoView)>,
    name: Seq<char>,
    entry: Seq<char>,
) -> Option<bool> {
    match name_map::lookup(ipsets, name) {
        Some(info) => Some(info.entries.contains(entry)),
        None => None,
    }
}

/// A membership edit of an object: the object must be there in every targeted
/// scope, and the membership must not be as desired in all of them.
pub open spec fn membership_checked(
    target: ConfigurationTarget,
    adding: bool,
    runtime: Option<bool>,
    permanent: Option<bool>,
    missing: Seq<char>,
    redundant: Seq<char>,
) -> Result<(), OperationErrorView> {
    if !in_scopes(target, runtime is Some, permanent is Some) {
        Err(OperationErrorView::Invalid(missing))
    } else if in_scopes(target, runtime == Some(adding), permanent == Some(adding)) {
        Err(OperationErrorView::NothingToDo(redundant))
    } else {
        Ok(())
    }
}

fn check_membership(
    target: ConfigurationTarget,
    adding: bool,
    runtime: Option<bool>,
    permanent: Option<bool>,
    missing: String,
    redundant: String,
) -> (r: Result<(), OperationError>)
    ensures
        model::unit_outcome(r) == membership_checked(
            target,
            adding,
            runtime,
            permanent,
            missing@,
            redundant@,
        ),
{
    if !holds_in_scopes(target, runtime.is_some(), permanent.is_some()) {
        return Err(OperationError::Invalid(missing));
    }
    let in_runtime = match runtime {
        Some(b) => b == adding,
        None => false,
    };
    let in_permanent = match permanent {
        Some(b) => b == adding,
        None => false,
    };
    if holds_in_scopes(target, in_runtime, in_permanent) {
        return Err(OperationError::NothingToDo(redundant));
    }
    Ok(())
}

impl FirewallOperationView {
    /// The checks on policies.
    pub open spec fn policy_checked(self, s: FirewallSnapshotView) -> Result<
        (),
        OperationErrorView,
    > {
        let target = self.target();
        match self {
            FirewallOperationView::CreatePolicy { policy } => match name_map::lookup(
                s.policies.permanent,
                policy,
            ) {
                Some(_) => Err(
                    OperationErrorView::Invalid("policy `"@ + policy + "` already exists"@),
                ),
                None => Ok(()),
            },
            FirewallOperationView::DeletePolicy { policy } => match name_map::lookup(
                s.policies.permanent,
                policy,
            ) {
                Some(_) => Ok(()),
                None => Err(
                    OperationErrorView::NothingToDo(
                        "policy `"@ + policy + "` does not exist in permanent configuration"@,
                    ),
                ),
            },
            FirewallOperationView::SetPolicyTarget { policy, policy_target } => match name_map::lookup(
                s.policies.permanent,
                policy,
            ) {
                None => Err(
                    OperationErrorView::Invalid(
                        "policy `"@ + policy + "` does not exist in permanent configuration"@,
                    ),
                ),
                Some(details) => if details.target == policy_target {
                    Err(
                        OperationErrorView::NothingToDo(
                            "policy `"@ + policy + "` already targets "@ + policy_target.spelled(),
                        ),
                    )
                } else {
                    Ok(())
                },
            },
            FirewallOperationView::AddPolicyIngressZone { policy, zone } => match name_map::lookup(
                s.policies.permanent,
                policy,
            ) {
                None => Err(
                    OperationErrorView::Invalid(
                        "policy `"@ + policy + "` does not exist in permanent configuration"@,
                    ),
                ),
                Some(details) => if details.ingress_zones.contains(zone) {
                    Err(
                        OperationErrorView::NothingToDo(
                            "zone `"@ + zone + "` is already an ingress zone for policy `"@
                                + policy + "`"@,
                        ),
                    )
                } else {
                    Ok(())
                },
            },
            FirewallOperationView::AddPolicyEgressZone { policy, zone } => match name_map::lookup(
                s.policies.permanent,
                policy,
            ) {
                None => Err(
                    OperationErrorView::Invalid(
                        "policy `"@ + policy + "` does not exist in permanent configuration"@,
                    ),
                ),
                Some(details) => if details.egress_zones.contains(zone) {
                    Err(
                        OperationErrorView::NothingToDo(
                            "zone `"@ + zone + "` is already an egress zone for policy `"@ + policy
                                + "`"@,
                        ),
                    )
                } else {
                    Ok(())
                },
            },
            FirewallOperationView::AddPolicyService { policy, service, .. } => membership_checked(
                target,
                true,
                policy_serves(s.policies.runtime, policy, service),
                policy_serves(s.policies.permanent, policy, service),
                "policy `"@ + policy + "` does not exist in "@ + target.labelled()
                    + " configuration"@,
                "service `"@ + service + "` is already in policy `"@ + policy + "`"@,
            ),
            FirewallOperationView::RemovePolicyService { policy, service, .. } => membership_checked(
                target,
                false,
                policy_serves(s.policies.runtime, policy, service),
                policy_serves(s.policies.permanent, policy, service),
                "policy `"@ + policy + "` does not exist in "@ + target.labelled()
                    + " configuration"@,
                "service `"@ + service + "` is not in policy `"@ + policy + "`"@,
            ),
            _ => Ok(()),
        }
    }

    /// The checks on ipsets.
    pub open spec fn ipset_checked(self, s: FirewallSnapshotView) -> Result<
        (),
        OperationErrorView,
    > {
        let target = self.target();
        match self {
            FirewallOperationView::CreateIpSet { name, kind } => if !ipset_type(kind) {
                Err(
                    OperationErrorView::Invalid(
                        "unknown ipset type `"@ + kind + "` (e.g. hash:ip, hash:net)"@,
                    ),
                )
            } else if name_map::lookup(s.ipsets.permanent, name) is Some {
                Err(OperationErrorView::Invalid("ipset `"@ + name + "` already exists"@))
            } else {
                Ok(())
            },
            FirewallOperationView::DeleteIpSet { name } => match name_map::lookup(
                s.ipsets.permanent,
                name,
            ) {
                Some(_) => Ok(()),
                None => Err(
                    OperationErrorView::NothingToDo(
                        "ipset `"@ + name + "` does not exist in permanent configuration"@,
                    ),
                ),
            },
            FirewallOperationView::AddIpSetEntry { name, entry, .. } => membership_checked(
                target,
                true,
                ipset_holds(s.ipsets.runtime, name, entry),
                ipset_holds(s.ipsets.permanent, name, entry),
                "ipset `"@ + name + "` does not exist in "@ + target.labelled() + " configuration"@,
                entry + " is already in ipset `"@ + name + "`"@,
            ),
            FirewallOperationView::RemoveIpSetEntry { name, entry, .. } => membership_checked(
                target,
                false,
                ipset_holds(s.ipsets.runtime, name, entry),
                ipset_holds(s.ipsets.permanent, name, entry),
                "ipset `"@ + name + "` does not exist in "@ + target.labelled() + " configuration"@,
                entry + " is not in ipset `"@ + name + "`"@,
            ),
            _ => Ok(()),
        }
    }

    /// The checks on zones as a whole.
    pub open spec fn zone_checked(self, s: FirewallSnapshotView) -> Result<
        (),
        OperationErrorView,
    > {
        match self {
            FirewallOperationView::SetDefaultZone { zone } => if name_map::lookup(
                s.runtime,
                zone,
            ) is None
                && name_map::lookup(s.permanent, zone) is None {
                Err(OperationErrorView::UnknownZone(zone))
            } else if zone == s.default_zone {
                Err(OperationErrorView::NothingToDo("`"@ + zone + "` is already the default zone"@))
            } else {
                Ok(())
            },
            FirewallOperationView::SetZoneTarget { zone, zone_target } => match name_map::lookup(
                s.permanent,
                zone,
            ) {
                None => Err(
                    OperationErrorView::Invalid(
                        "zone `"@ + zone + "` does not exist in permanent configuration"@,
                    ),
                ),
                Some(z) => if z.target == zone_target {
                    Err(
                        OperationErrorView::NothingToDo(
                            "zone `"@ + zone + "` already targets "@ + zone_target.spelled(),
                        ),
                    )
                } else {
                    Ok(())
                },
            },
            FirewallOperationView::CreateZone { zone } => if name_map::lookup(
                s.runtime,
                zone,
            ) is Some
                || name_map::lookup(s.permanent, zone) is Some {
                Err(OperationErrorView::Invalid("zone `"@ + zone + "` already exists"@))
            } else {
                Ok(())
            },
            FirewallOperationView::DeleteZone { zone } => if name_map::lookup(
                s.permanent,
                zone,
            ) is None {
                Err(
                    OperationErrorView::Invalid(
                        "zone `"@ + zone + "` does not exist in permanent configuration"@,
                    ),
                )
            } else if zone == s.default_zone {
                Err(
                    OperationErrorView::Invalid(
                        "`"@ + zone + "` is the default zone — set another default first"@,
                    ),
                )
            } else {
                Ok(())
            },
            _ => match self.zone_edit() {
                Some((zone, adding)) => self.zone_edit_checked(zone, adding, s),
                None => Ok(()),
            },
        }
    }

    /// The checks on services and on the daemon. Service definition details
    /// are fetched only for referenced services, so firewalld gives the final
    /// word for service internals.
    pub open spec fn global_checked(self, s: FirewallSnapshotView) -> Result<
        (),
        OperationErrorView,
    > {
        match self {
            FirewallOperationView::CreateService { service } => if s.available_services.contains(
                service,
            ) {
                Err(OperationErrorView::Invalid("service `"@ + service + "` already exists"@))
            } else {
                Ok(())
            },
            FirewallOperationView::SetPanicMode { enabled } => if s.status.panic_mode == enabled {
                Err(
                    OperationErrorView::NothingToDo(
                        "panic mode is already "@ + if enabled {
                            "on"@
                        } else {
                            "off"@
                        },
                    ),
                )
            } else {
                Ok(())
            },
            FirewallOperationView::RuntimeToPermanent => if s.synced() {
                Err(OperationErrorView::NothingToDo("runtime and permanent are already in sync"@))
            } else {
                Ok(())
            },
            FirewallOperationView::SetLogDenied { value } => if s.status.log_denied == value {
                Err(
                    OperationErrorView::NothingToDo(
                        "LogDenied is already `"@ + value.spelled() + "`"@,
                    ),
                )
            } else {
                Ok(())
            },
            _ => Ok(()),
        }
    }

    /// The verdict on an operation whose part of the snapshot is known.
    pub open spec fn checked(self, s: FirewallSnapshotView) -> Result<(), OperationErrorView> {
        match self.required_section() {
            Some(SnapshotSection::Policies) => self.policy_checked(s),
            Some(SnapshotSection::IpSets) => self.ipset_checked(s),
            Some(SnapshotSection::Zones) => self.zone_checked(s),
            _ => self.global_checked(s),
        }
    }

    /// The verdict on an operation. What it rests on has to be known.
    pub open spec fn validated(self, s: FirewallSnapshotView) -> Result<(), OperationErrorView> {
        let target = self.target();
        match self.required_section() {
            Some(section) => if !s.complete(section, target) {
                Err(
                    OperationErrorView::Invalid(
                        "cannot safely validate "@ + target.labelled() + " "@ + section.labelled()
                            + " state because the latest snapshot is incomplete"@,
                    ),
                )
            } else {
                self.checked(s)
            },
            None => self.checked(s),
        }
    }

    /// Whether each scope still lacks the desired state, for operations on a
    /// collection of an object that the scope has.
    pub open spec fn needs(self, s: FirewallSnapshotView) -> Option<(bool, bool)> {
        match self {
            FirewallOperationView::AddIpSetEntry { name, entry, .. } => Some(
                (
                    ipset_holds(s.ipsets.runtime, name, entry) == Some(false),
                    ipset_holds(s.ipsets.permanent, name, entry) == Some(false),
                ),
            ),
            FirewallOperationView::RemoveIpSetEntry { name, entry, .. } => Some(
                (
                    ipset_holds(s.ipsets.runtime, name, entry) == Some(true),
                    ipset_holds(s.ipsets.permanent, name, entry) == Some(true),
                ),
            ),
            FirewallOperationView::AddPolicyService { policy, service, .. } => Some(
                (
                    policy_serves(s.policies.runtime, policy, service) == Some(false),
                    policy_serves(s.policies.permanent, policy, service) == Some(false),
                ),
            ),
            FirewallOperationView::RemovePolicyService { policy, service, .. } => Some(
                (
                    policy_serves(s.policies.runtime, policy, service) == Some(true),
                    policy_serves(s.policies.permanent, policy, service) == Some(true),
                ),
            ),
            _ => match (self.zone(), self.probe()) {
                (Some(zone), Some(adding)) => Some(
                    (
                        self.zone_state(s.runtime, zone) == Some(!adding),
                        self.zone_state(s.permanent, zone) == Some(!adding),
                    ),
                ),
                _ => None,
            },
        }
    }

    /// Whether the item is there in the zone, where the zone exists.
    pub open spec fn zone_state(
        self,
        zones: Seq<(Seq<char>, ZoneDetailsView)>,
        zone: Seq<char>,
    ) -> Option<bool> {
        match name_map::lookup(zones, zone) {
            Some(z) => Some(self.item_in(z)),
            None => None,
        }
    }

    /// The part of a snapshot that narrowing looks at.
    pub open spec fn narrowing_section(self) -> Option<SnapshotSection> {
        match self {
            FirewallOperationView::AddIpSetEntry { .. } => Some(SnapshotSection::IpSets),
            FirewallOperationView::RemoveIpSetEntry { .. } => Some(SnapshotSection::IpSets),
            FirewallOperationView::AddPolicyService { .. } => Some(SnapshotSection::Policies),
            FirewallOperationView::RemovePolicyService { .. } => Some(SnapshotSection::Policies),
            _ => if self.probe() is Some {
                Some(SnapshotSection::Zones)
            } else {
                None
            },
        }
    }

    /// The operation for the only scope that still needs it, where it is for
    /// both scopes and exactly one of them does. Unknown state is never
    /// narrowed away.
    pub open spec fn narrowed(self, s: FirewallSnapshotView) -> FirewallOperationView {
        if self.target() != ConfigurationTarget::RuntimeAndPermanent {
            self
        } else if self.narrowing_section() is Some && !s.complete(
            self.narrowing_section()->0,
            ConfigurationTarget::RuntimeAndPermanent,
        ) {
            self
        } else {
            match self.needs(s) {
                Some((true, false)) => match self.retargeted(ConfigurationTarget::Runtime) {
                    Some(op) => op,
                    None => self,
                },
                Some((false, true)) => match self.retargeted(ConfigurationTarget::Permanent) {
                    Some(op) => op,
                    None => self,
                },
                _ => self,
            }
        }
    }

    /// Whether the effect of an ipset operation is visible.
    pub open spec fn ipset_probed(self, s: FirewallSnapshotView) -> PostconditionProbe {
        let target = self.target();
        let complete = s.complete(SnapshotSection::IpSets, target);
        match self {
            FirewallOperationView::CreateIpSet { name, .. } => if complete {
                PostconditionProbe::Holds(name_map::lookup(s.ipsets.permanent, name) is Some)
            } else {
                PostconditionProbe::Unknown
            },
            FirewallOperationView::DeleteIpSet { name } => if complete {
                PostconditionProbe::Holds(name_map::lookup(s.ipsets.permanent, name) is None)
            } else {
                PostconditionProbe::Unknown
            },
            FirewallOperationView::AddIpSetEntry { name, entry, .. } => if complete {
                PostconditionProbe::of(
                    scoped_outcome(
                        target,
                        agreeing(ipset_holds(s.ipsets.runtime, name, entry), true),
                        agreeing(ipset_holds(s.ipsets.permanent, name, entry), true),
                    ),
                )
            } else {
                PostconditionProbe::Unknown
            },
            FirewallOperationView::RemoveIpSetEntry { name, entry, .. } => if complete {
                PostconditionProbe::of(
                    scoped_outcome(
                        target,
                        agreeing(ipset_holds(s.ipsets.runtime, name, entry), false),
                        agreeing(ipset_holds(s.ipsets.permanent, name, entry), false),
                    ),
                )
            } else {
                PostconditionProbe::Unknown
            },
            _ => PostconditionProbe::NotApplicable,
        }
    }

    /// Whether the effect of a policy operation is visible.
    pub open spec fn policy_probed(self, s: FirewallSnapshotView) -> PostconditionProbe {
        let target = self.target();
        let complete = s.complete(SnapshotSection::Policies, target);
        match self {
            FirewallOperationView::CreatePolicy { policy } => if complete {
                PostconditionProbe::Holds(name_map::lookup(s.policies.permanent, policy) is Some)
            } else {
                PostconditionProbe::Unknown
            },
            FirewallOperationView::DeletePolicy { policy } => if complete {
                PostconditionProbe::Holds(name_map::lookup(s.policies.permanent, policy) is None)
            } else {
                PostconditionProbe::Unknown
            },
            FirewallOperationView::SetPolicyTarget { policy, policy_target } => if complete {
                PostconditionProbe::Holds(
                    match name_map::lookup(s.policies.permanent, policy) {
                        Some(p) => p.target == policy_target,
                        None => false,
                    },
                )
            } else {
                PostconditionProbe::Unknown
            },
            FirewallOperationView::AddPolicyIngressZone { policy, zone } => if complete {
                PostconditionProbe::Holds(
                    match name_map::lookup(s.policies.permanent, policy) {
                        Some(p) => p.ingress_zones.contains(zone),
                        None => false,
                    },
                )
            } else {
                PostconditionProbe::Unknown
            },
            FirewallOperationView::AddPolicyEgressZone { policy, zone } => if complete {
                PostconditionProbe::Holds(
                    match name_map::lookup(s.policies.permanent, policy) {
                        Some(p) => p.egress_zones.contains(zone),
                        None => false,
                    },
                )
            } else {
                PostconditionProbe::Unknown
            },
            FirewallOperationView::AddPolicyService { policy, service, .. } => if complete {
                PostconditionProbe::of(
                    scoped_outcome(
                        target,
                        agreeing(policy_serves(s.policies.runtime, policy, service), true),
                        agreeing(policy_serves(s.policies.permanent, policy, service), true),
                    ),
                )
            } else {
                PostconditionProbe::Unknown
            },
            FirewallOperationView::RemovePolicyService { policy, service, .. } => if complete {
                PostconditionProbe::of(
                    scoped_outcome(
                        target,
                        agreeing(policy_serves(s.policies.runtime, policy, service), false),
                        agreeing(policy_serves(s.policies.permanent, policy, service), false),
                    ),
                )
            } else {
                PostconditionProbe::Unknown
            },
            _ => PostconditionProbe::NotApplicable,
        }
    }

    /// Whether the desired state is visible in the snapshot, where it can be
    /// told.
    pub open spec fn achieved(self, s: FirewallSnapshotView) -> Option<bool> {
        match self.ipset_probed(s) {
            PostconditionProbe::Holds(b) => Some(b),
            PostconditionProbe::Unknown => None,
            PostconditionProbe::NotApplicable => match self.policy_probed(s) {
                PostconditionProbe::Holds(b) => Some(b),
                PostconditionProbe::Unknown => None,
                PostconditionProbe::NotApplicable => if !s.complete(
                    SnapshotSection::Zones,
                    self.target(),
                ) {
                    None
                } else {
                    match (self.zone(), self.probe()) {
                        (Some(zone), Some(adding)) => visible_outcome(
                            self.target(),
                            agreeing(self.zone_state(s.runtime, zone), adding),
                            agreeing(self.zone_state(s.permanent, zone), adding),
                        ),
                        _ => None,
                    }
                },
            },
        }
    }
}

/// Whether an observation is the desired one.
pub open spec fn agreeing(observed: Option<bool>, desired: bool) -> Option<bool> {
    match observed {
        Some(b) => Some(b == desired),
        None => None,
    }
}

fn agrees(observed: Option<bool>, desired: bool) -> (r: Option<bool>)
    ensures
        r == agreeing(observed, desired),
{
    match observed {
        Some(b) => Some(b == desired),
        None => None,
    }
}

fn policy_state(
    policies: &NameMap<PolicyName, PolicyDetails>,
    policy: &PolicyName,
    service: &ServiceName,
) -> (r: Option<bool>)
    ensures
        r == policy_serves(policies.deep_view(), policy.deep_view(), service.deep_view()),
{
    match policies.get(policy) {
        Some(p) => Some(lists::contains(&p.services, service)),
        None => None,
    }
}

fn ipset_state(
    ipsets: &NameMap<IpSetName, IpSetInfo>,
    name: &IpSetName,
    entry: &IpSetEntry,
) -> (r: Option<bool>)
    ensures
        r == ipset_holds(ipsets.deep_view(), name.deep_view(), entry.deep_view()),
{
    match ipsets.get(name) {
        Some(info) => {
            let text = entry.as_str().to_owned();
            Some(lists::contains(&info.entries, &text))
        },
        None => None,
    }
}

fn no_permanent_policy(policy: &PolicyName) -> (r: String)
    ensures
        r@ == "policy `"@ + policy.deep_view() + "` does not exist in permanent configuration"@,
{
    text::cat3("policy `", policy.as_str(), "` does not exist in permanent configuration")
}

impl FirewallOperation {
    /// Whether the desired item or setting is there in the zone; for a
    /// removal, the item that is to go.
    fn item_present(&self, z: &ZoneDetails) -> (r: bool)
        ensures
            r == self.deep_view().item_in(z.deep_view()),
    {
        match self {
            FirewallOperation::AddService { service, .. } => lists::contains(&z.services, service),
            FirewallOperation::AddTemporaryService { service, .. } => lists::contains(
                &z.services,
                service,
            ),
            FirewallOperation::RemoveService { service, .. } => lists::contains(
                &z.services,
                service,
            ),
            FirewallOperation::AddPort { port, .. } => lists::contains(&z.ports, port),
            FirewallOperation::RemovePort { port, .. } => lists::contains(&z.ports, port),
            FirewallOperation::SetMasquerade { enabled, .. } => z.masquerade == *enabled,
            FirewallOperation::SetZoneTarget { zone_target, .. } => z.target == *zone_target,
            FirewallOperation::AddSourcePort { port, .. } => lists::contains(&z.source_ports, port),
            FirewallOperation::RemoveSourcePort { port, .. } => lists::contains(
                &z.source_ports,
                port,
            ),
            FirewallOperation::AddProtocol { protocol, .. } => lists::contains(
                &z.protocols,
                protocol,
            ),
            FirewallOperation::RemoveProtocol { protocol, .. } => lists::contains(
                &z.protocols,
                protocol,
            ),
            FirewallOperation::SetForward { enabled, .. } => z.forward == *enabled,
            FirewallOperation::SetIcmpBlockInversion { enabled, .. } =>
                z.icmp_block_inversion == *enabled,
            FirewallOperation::AddForwardPort { forward, .. } => lists::contains(
                &z.forward_ports,
                forward,
            ),
            FirewallOperation::RemoveForwardPort { forward, .. } => lists::contains(
                &z.forward_ports,
                forward,
            ),
            FirewallOperation::AddRichRule { rule, .. } => lists::contains(&z.rich_rules, rule),
            FirewallOperation::RemoveRichRule { rule, .. } => lists::contains(&z.rich_rules, rule),
            FirewallOperation::AddInterface { interface, .. } => lists::contains(
                &z.interfaces,
                interface,
            ),
            FirewallOperation::RemoveInterface { interface, .. } => lists::contains(
                &z.interfaces,
                interface,
            ),
            FirewallOperation::AddSource { source, .. } => lists::contains(&z.sources, source),
            FirewallOperation::RemoveSource { source, .. } => lists::contains(&z.sources, source),
            FirewallOperation::AddIcmpBlock { icmp, .. } => lists::contains(&z.icmp_blocks, icmp),
            FirewallOperation::RemoveIcmpBlock { icmp, .. } => lists::contains(
                &z.icmp_blocks,
                icmp,
            ),
            _ => false,
        }
    }

    /// The membership probe for zone-scoped edits: whether the operation adds
    /// (`true`) or removes (`false`). `None` for operations that are not
    /// simple zone-collection edits.
    fn zone_probe(&self) -> (r: Option<bool>)
        ensures
            r == self.deep_view().probe(),
    {
        match self {
            FirewallOperation::AddService { .. } => Some(true),
            FirewallOperation::RemoveService { .. } => Some(false),
            FirewallOperation::AddPort { .. } => Some(true),
            FirewallOperation::RemovePort { .. } => Some(false),
            FirewallOperation::SetMasquerade { .. } => Some(true),
            FirewallOperation::SetZoneTarget { .. } => Some(true),
            FirewallOperation::AddSourcePort { .. } => Some(true),
            FirewallOperation::RemoveSourcePort { .. } => Some(false),
            FirewallOperation::AddProtocol { .. } => Some(true),
            FirewallOperation::RemoveProtocol { .. } => Some(false),
            FirewallOperation::SetForward { .. } => Some(true),
            FirewallOperation::SetIcmpBlockInversion { .. } => Some(true),
            FirewallOperation::AddForwardPort { .. } => Some(true),
            FirewallOperation::RemoveForwardPort { .. } => Some(false),
            FirewallOperation::AddRichRule { .. } => Some(true),
            FirewallOperation::RemoveRichRule { .. } => Some(false),
            FirewallOperation::AddInterface { .. } => Some(true),
            FirewallOperation::RemoveInterface { .. } => Some(false),
            FirewallOperation::AddSource { .. } => Some(true),
            FirewallOperation::RemoveSource { .. } => Some(false),
            FirewallOperation::AddIcmpBlock { .. } => Some(true),
            FirewallOperation::RemoveIcmpBlock { .. } => Some(false),
            _ => None,
        }
    }

    fn edited_zone(&self) -> (r: Option<(&ZoneName, bool)>)
        ensures
            match r {
                Some((zone, adding)) => self.deep_view().zone_edit() == Some(
                    (zone.deep_view(), adding),
                ),
                None => self.deep_view().zone_edit() is None,
            },
    {
        match self {
            FirewallOperation::AddService { zone, .. } => Some((zone, true)),
            FirewallOperation::AddTemporaryService { zone, .. } => Some((zone, true)),
            FirewallOperation::RemoveService { zone, .. } => Some((zone, false)),
            FirewallOperation::AddPort { zone, .. } => Some((zone, true)),
            FirewallOperation::RemovePort { zone, .. } => Some((zone, false)),
            FirewallOperation::SetMasquerade { zone, .. } => Some((zone, true)),
            FirewallOperation::AddSourcePort { zone, .. } => Some((zone, true)),
            FirewallOperation::RemoveSourcePort { zone, .. } => Some((zone, false)),
            FirewallOperation::AddProtocol { zone, .. } => Some((zone, true)),
            FirewallOperation::RemoveProtocol { zone, .. } => Some((zone, false)),
            FirewallOperation::SetForward { zone, .. } => Some((zone, true)),
            FirewallOperation::SetIcmpBlockInversion { zone, .. } => Some((zone, true)),
            FirewallOperation::AddForwardPort { zone, .. } => Some((zone, true)),
            FirewallOperation::RemoveForwardPort { zone, .. } => Some((zone, false)),
            FirewallOperation::AddRichRule { zone, .. } => Some((zone, true)),
            FirewallOperation::RemoveRichRule { zone, .. } => Some((zone, false)),
            FirewallOperation::AddInterface { zone, .. } => Some((zone, true)),
            FirewallOperation::RemoveInterface { zone, .. } => Some((zone, false)),
            FirewallOperation::AddSource { zone, .. } => Some((zone, true)),
            FirewallOperation::RemoveSource { zone, .. } => Some((zone, false)),
            FirewallOperation::AddIcmpBlock { zone, .. } => Some((zone, true)),
            FirewallOperation::RemoveIcmpBlock { zone, .. } => Some((zone, false)),
            _ => None,
        }
    }

    fn redundant_message(&self) -> (r: String)
        ensures
            r@ == self.deep_view().redundant(),
    {
        match self {
            FirewallOperation::AddService { service, .. } => text::cat3(
                "service `",
                service.as_str(),
                "` is already enabled in runtime and permanent",
            ),
            FirewallOperation::AddTemporaryService { service, .. } => text::cat3(
                "service `",
                service.as_str(),
                "` is already enabled in runtime and permanent",
            ),
            FirewallOperation::RemoveService { zone, service, .. } => text::cat5(
                "service `",
                service.as_str(),
                "` is not enabled in zone `",
                zone.as_str(),
                "`",
            ),
            FirewallOperation::AddPort { port, .. } => {
                let shown = port.show();
                text::cat3("port ", shown.as_str(), " is already open in runtime and permanent")
            },
            FirewallOperation::RemovePort { zone, port, .. } => {
                let shown = port.show();
                text::cat5("port ", shown.as_str(), " is not open in zone `", zone.as_str(), "`")
            },
            FirewallOperation::SetMasquerade { zone, enabled, .. } => if *enabled {
                text::cat3("masquerade is already enabled in zone `", zone.as_str(), "`")
            } else {
                text::cat3("masquerade is already disabled in zone `", zone.as_str(), "`")
            },
            FirewallOperation::AddSourcePort { port, .. } => {
                let shown = port.show();
                text::cat3(
                    "source-port ",
                    shown.as_str(),
                    " is already set in runtime and permanent",
                )
            },
            FirewallOperation::RemoveSourcePort { zone, port, .. } => {
                let shown = port.show();
                text::cat5(
                    "source-port ",
                    shown.as_str(),
                    " is not set in zone `",
                    zone.as_str(),
                    "`",
                )
            },
            FirewallOperation::AddProtocol { protocol, .. } => text::cat3(
                "protocol `",
                protocol.as_str(),
                "` is already allowed in runtime and permanent",
            ),
            FirewallOperation::RemoveProtocol { zone, protocol, .. } => text::cat5(
                "protocol `",
                protocol.as_str(),
                "` is not allowed in zone `",
                zone.as_str(),
                "`",
            ),
            FirewallOperation::SetForward { zone, enabled, .. } => if *enabled {
                text::cat3("intra-zone forwarding is already enabled in zone `", zone.as_str(), "`")
            } else {
                text::cat3(
                    "intra-zone forwarding is already disabled in zone `",
                    zone.as_str(),
                    "`",
                )
            },
            FirewallOperation::SetIcmpBlockInversion { zone, enabled, .. } => if *enabled {
                text::cat3("icmp-block inversion is already on in zone `", zone.as_str(), "`")
            } else {
                text::cat3("icmp-block inversion is already off in zone `", zone.as_str(), "`")
            },
            FirewallOperation::AddForwardPort { .. } =>
                "this forward port already exists in runtime and permanent".to_owned(),
            FirewallOperation::RemoveForwardPort { zone, forward, .. } => {
                let shown = forward.spec_string();
                text::cat5(
                    "forward ",
                    shown.as_str(),
                    " does not exist in zone `",
                    zone.as_str(),
                    "`",
                )
            },
            FirewallOperation::AddRichRule { .. } =>
                "this rich rule already exists in runtime and permanent".to_owned(),
            FirewallOperation::RemoveRichRule { zone, .. } => text::cat3(
                "this rich rule does not exist in zone `",
                zone.as_str(),
                "`",
            ),
            FirewallOperation::AddInterface { zone, interface, .. } => text::cat5(
                "interface `",
                interface.as_str(),
                "` is already bound to zone `",
                zone.as_str(),
                "`",
            ),
            FirewallOperation::RemoveInterface { zone, interface, .. } => text::cat5(
                "interface `",
                interface.as_str(),
                "` is not bound to zone `",
                zone.as_str(),
                "`",
            ),
            FirewallOperation::AddSource { zone, source, .. } => {
                let shown = source.show();
                text::cat5(
                    "source ",
                    shown.as_str(),
                    " is already bound to zone `",
                    zone.as_str(),
                    "`",
                )
            },
            FirewallOperation::RemoveSource { zone, source, .. } => {
                let shown = source.show();
                text::cat5("source ", shown.as_str(), " is not bound to zone `", zone.as_str(), "`")
            },
            FirewallOperation::AddIcmpBlock { zone, icmp, .. } => text::cat5(
                "ICMP `",
                icmp.as_str(),
                "` is already blocked in zone `",
                zone.as_str(),
                "`",
            ),
            FirewallOperation::RemoveIcmpBlock { zone, icmp, .. } => text::cat5(
                "ICMP `",
                icmp.as_str(),
                "` is not blocked in zone `",
                zone.as_str(),
                "`",
            ),
            _ => String::new(),
        }
    }

    fn needed_section(&self) -> (r: Option<SnapshotSection>)
        ensures
            r == self.deep_view().required_section(),
    {
        match self {
            FirewallOperation::AddService { .. } => Some(SnapshotSection::Zones),
            FirewallOperation::AddTemporaryService { .. } => Some(SnapshotSection::Zones),
            FirewallOperation::RemoveService { .. } => Some(SnapshotSection::Zones),
            FirewallOperation::AddPort { .. } => Some(SnapshotSection::Zones),
            FirewallOperation::RemovePort { .. } => Some(SnapshotSection::Zones),
            FirewallOperation::SetDefaultZone { .. } => Some(SnapshotSection::Zones),
            FirewallOperation::SetMasquerade { .. } => Some(SnapshotSection::Zones),
            FirewallOperation::SetZoneTarget { .. } => Some(SnapshotSection::Zones),
            FirewallOperation::AddSourcePort { .. } => Some(SnapshotSection::Zones),
            FirewallOperation::RemoveSourcePort { .. } => Some(SnapshotSection::Zones),
            FirewallOperation::AddProtocol { .. } => Some(SnapshotSection::Zones),
            FirewallOperation::RemoveProtocol { .. } => Some(SnapshotSection::Zones),
            FirewallOperation::SetForward { .. } => Some(SnapshotSection::Zones),
            FirewallOperation::SetIcmpBlockInversion { .. } => Some(SnapshotSection::Zones),
            FirewallOperation::AddForwardPort { .. } => Some(SnapshotSection::Zones),
            FirewallOperation::RemoveForwardPort { .. } => Some(SnapshotSection::Zones),
            FirewallOperation::AddRichRule { .. } => Some(SnapshotSection::Zones),
            FirewallOperation::RemoveRichRule { .. } => Some(SnapshotSection::Zones),
            FirewallOperation::AddInterface { .. } => Some(SnapshotSection::Zones),
            FirewallOperation::RemoveInterface { .. } => Some(SnapshotSection::Zones),
            FirewallOperation::AddSource { .. } => Some(SnapshotSection::Zones),
            FirewallOperation::RemoveSource { .. } => Some(SnapshotSection::Zones),
            FirewallOperation::AddIcmpBlock { .. } => Some(SnapshotSection::Zones),
            FirewallOperation::RemoveIcmpBlock { .. } => Some(SnapshotSection::Zones),
            FirewallOperation::CreateService { .. } => Some(SnapshotSection::Services),
            FirewallOperation::DeleteService { .. } => Some(SnapshotSection::Services),
            FirewallOperation::AddServicePort { .. } => Some(SnapshotSection::Services),
            FirewallOperation::RemoveServicePort { .. } => Some(SnapshotSection::Services),
            FirewallOperation::CreatePolicy { .. } => Some(SnapshotSection::Policies),
            FirewallOperation::DeletePolicy { .. } => Some(SnapshotSection::Policies),
            FirewallOperation::MigrateDirectRule { .. } => Some(SnapshotSection::Policies),
            FirewallOperation::SetPolicyTarget { .. } => Some(SnapshotSection::Policies),
            FirewallOperation::AddPolicyIngressZone { .. } => Some(SnapshotSection::Policies),
            FirewallOperation::AddPolicyEgressZone { .. } => Some(SnapshotSection::Policies),
            FirewallOperation::AddPolicyService { .. } => Some(SnapshotSection::Policies),
            FirewallOperation::RemovePolicyService { .. } => Some(SnapshotSection::Policies),
            FirewallOperation::SetPolicySetEnabled { .. } => Some(SnapshotSection::Policies),
            FirewallOperation::CreateIpSet { .. } => Some(SnapshotSection::IpSets),
            FirewallOperation::DeleteIpSet { .. } => Some(SnapshotSection::IpSets),
            FirewallOperation::AddIpSetEntry { .. } => Some(SnapshotSection::IpSets),
            FirewallOperation::RemoveIpSetEntry { .. } => Some(SnapshotSection::IpSets),
            FirewallOperation::CreateZone { .. } => Some(SnapshotSection::Zones),
            FirewallOperation::DeleteZone { .. } => Some(SnapshotSection::Zones),
            FirewallOperation::SetPanicMode { .. } => None,
            FirewallOperation::RuntimeToPermanent => None,
            FirewallOperation::SetLogDenied { .. } => None,
            FirewallOperation::Reload => None,
        }
    }

    fn zone_observed(&self, zones: &NameMap<ZoneName, ZoneDetails>, zone: &ZoneName) -> (r: Option<
        bool,
    >)
        ensures
            r == self.deep_view().zone_state(zones.deep_view(), zone.deep_view()),
    {
        match zones.get(zone) {
            Some(z) => Some(self.item_present(z)),
            None => None,
        }
    }

    /// The shared body of every zone-collection add/remove check: the zone
    /// must exist, and adding an item present in every targeted scope (or
    /// removing one present in none) is a no-op the modal should never offer.
    fn check_zone_edit(&self, zone: &ZoneName, adding: bool, snapshot: &FirewallSnapshot) -> (r:
        Result<(), OperationError>)
        ensures
            model::unit_outcome(r) == self.deep_view().zone_edit_checked(
                zone.deep_view(),
                adding,
                snapshot.deep_view(),
            ),
    {
        let target = self.target();
        let in_runtime = snapshot.runtime.contains_key(zone);
        let in_permanent = snapshot.permanent.contains_key(zone);
        if !holds_in_scopes(target, in_runtime, in_permanent) {
            return Err(
                OperationError::Invalid(
                    text::cat5(
                        "zone `",
                        zone.as_str(),
                        "` does not exist in the ",
                        target.label(),
                        " configuration",
                    ),
                ),
            );
        }
        let runtime = match self.zone_observed(&snapshot.runtime, zone) {
            Some(b) => b,
            None => false,
        };
        let permanent = match self.zone_observed(&snapshot.permanent, zone) {
            Some(b) => b,
            None => false,
        };
        if adding && holds_in_scopes(target, runtime, permanent) {
            return Err(OperationError::NothingToDo(self.redundant_message()));
        }
        if !adding && holds_in_scopes(target, !runtime, !permanent) {
            return Err(OperationError::NothingToDo(self.redundant_message()));
        }
        Ok(())
    }

    fn check_policy(&self, snapshot: &FirewallSnapshot) -> (r: Result<(), OperationError>)
        ensures
            model::unit_outcome(r) == self.deep_view().policy_checked(snapshot.deep_view()),
    {
        let target = self.target();
        match self {
            FirewallOperation::CreatePolicy { policy } => {
                if snapshot.policies.permanent.contains_key(policy) {
                    return Err(
                        OperationError::Invalid(
                            text::cat3("policy `", policy.as_str(), "` already exists"),
                        ),
                    );
                }
                Ok(())
            },
            FirewallOperation::DeletePolicy { policy } => {
                if !snapshot.policies.permanent.contains_key(policy) {
                    return Err(OperationError::NothingToDo(no_permanent_policy(policy)));
                }
                Ok(())
            },
            FirewallOperation::SetPolicyTarget { policy, policy_target } => {
                match snapshot.policies.permanent.get(policy) {
                    None => Err(OperationError::Invalid(no_permanent_policy(policy))),
                    Some(details) => {
                        if details.target == *policy_target {
                            return Err(
                                OperationError::NothingToDo(
                                    text::cat4(
                                        "policy `",
                                        policy.as_str(),
                                        "` already targets ",
                                        policy_target.as_str(),
                                    ),
                                ),
                            );
                        }
                        Ok(())
                    },
                }
            },
            FirewallOperation::AddPolicyIngressZone { policy, zone } => {
                match snapshot.policies.permanent.get(policy) {
                    None => Err(OperationError::Invalid(no_permanent_policy(policy))),
                    Some(details) => {
                        if lists::contains(&details.ingress_zones, zone) {
                            return Err(
                                OperationError::NothingToDo(
                                    text::cat5(
                                        "zone `",
                                        zone.as_str(),
                                        "` is already an ingress zone for policy `",
                                        policy.as_str(),
                                        "`",
                                    ),
                                ),
                            );
                        }
                        Ok(())
                    },
                }
            },
            FirewallOperation::AddPolicyEgressZone { policy, zone } => {
                match snapshot.policies.permanent.get(policy) {
                    None => Err(OperationError::Invalid(no_permanent_policy(policy))),
                    Some(details) => {
                        if lists::contains(&details.egress_zones, zone) {
                            return Err(
                                OperationError::NothingToDo(
                                    text::cat5(
                                        "zone `",
                                        zone.as_str(),
                                        "` is already an egress zone for policy `",
                                        policy.as_str(),
                                        "`",
                                    ),
                                ),
                            );
                        }
                        Ok(())
                    },
                }
            },
            FirewallOperation::AddPolicyService { policy, service, .. } => check_membership(
                target,
                true,
                policy_state(&snapshot.policies.runtime, policy, service),
                policy_state(&snapshot.policies.permanent, policy, service),
                text::cat5(
                    "policy `",
                    policy.as_str(),
                    "` does not exist in ",
                    target.label(),
                    " configuration",
                ),
                text::cat5(
                    "service `",
                    service.as_str(),
                    "` is already in policy `",
                    policy.as_str(),
                    "`",
                ),
            ),
            FirewallOperation::RemovePolicyService { policy, service, .. } => check_membership(
                target,
                false,
                policy_state(&snapshot.policies.runtime, policy, service),
                policy_state(&snapshot.policies.permanent, policy, service),
                text::cat5(
                    "policy `",
                    policy.as_str(),
                    "` does not exist in ",
                    target.label(),
                    " configuration",
                ),
                text::cat5(
                    "service `",
                    service.as_str(),
                    "` is not in policy `",
                    policy.as_str(),
                    "`",
                ),
            ),
            _ => Ok(()),
        }
    }

    fn check_ipset(&self, snapshot: &FirewallSnapshot) -> (r: Result<(), OperationError>)
        ensures
            model::unit_outcome(r) == self.deep_view().ipset_checked(snapshot.deep_view()),
    {
        let target = self.target();
        match self {
            FirewallOperation::CreateIpSet { name, kind } => {
                if !is_ipset_type(kind.as_str()) {
                    return Err(
                        OperationError::Invalid(
                            text::cat3(
                                "unknown ipset type `",
                                kind.as_str(),
                                "` (e.g. hash:ip, hash:net)",
                            ),
                        ),
                    );
                }
                if snapshot.ipsets.permanent.contains_key(name) {
                    return Err(
                        OperationError::Invalid(
                            text::cat3("ipset `", name.as_str(), "` already exists"),
                        ),
                    );
                }
                Ok(())
            },
            FirewallOperation::DeleteIpSet { name } => {
                if !snapshot.ipsets.permanent.contains_key(name) {
                    return Err(
                        OperationError::NothingToDo(
                            text::cat3(
                                "ipset `",
                                name.as_str(),
                                "` does not exist in permanent configuration",
                            ),
                        ),
                    );
                }
                Ok(())
            },
            FirewallOperation::AddIpSetEntry { name, entry, .. } => check_membership(
                target,
                true,
                ipset_state(&snapshot.ipsets.runtime, name, entry),
                ipset_state(&snapshot.ipsets.permanent, name, entry),
                text::cat5(
                    "ipset `",
                    name.as_str(),
                    "` does not exist in ",
                    target.label(),
                    " configuration",
                ),
                text::cat4(entry.as_str(), " is already in ipset `", name.as_str(), "`"),
            ),
            FirewallOperation::RemoveIpSetEntry { name, entry, .. } => check_membership(
                target,
                false,
                ipset_state(&snapshot.ipsets.runtime, name, entry),
                ipset_state(&snapshot.ipsets.permanent, name, entry),
                text::cat5(
                    "ipset `",
                    name.as_str(),
                    "` does not exist in ",
                    target.label(),
                    " configuration",
                ),
                text::cat4(entry.as_str(), " is not in ipset `", name.as_str(), "`"),
            ),
            _ => Ok(()),
        }
    }

    fn check_zone(&self, snapshot: &FirewallSnapshot) -> (r: Result<(), OperationError>)
        ensures
            model::unit_outcome(r) == self.deep_view().zone_checked(snapshot.deep_view()),
    {
        match self {
            FirewallOperation::SetDefaultZone { zone } => {
                if !snapshot.runtime.contains_key(zone) && !snapshot.permanent.contains_key(zone) {
                    return Err(OperationError::UnknownZone(zone.as_str().to_owned()));
                }
                if zone.same(&snapshot.default_zone) {
                    return Err(
                        OperationError::NothingToDo(
                            text::cat3("`", zone.as_str(), "` is already the default zone"),
                        ),
                    );
                }
                Ok(())
            },
            FirewallOperation::SetZoneTarget { zone, zone_target } => {
                match snapshot.permanent.get(zone) {
                    None => Err(
                        OperationError::Invalid(
                            text::cat3(
                                "zone `",
                                zone.as_str(),
                                "` does not exist in permanent configuration",
                            ),
                        ),
                    ),
                    Some(z) => {
                        if z.target == *zone_target {
                            return Err(
                                OperationError::NothingToDo(
                                    text::cat4(
                                        "zone `",
                                        zone.as_str(),
                                        "` already targets ",
                                        zone_target.as_str(),
                                    ),
                                ),
                            );
                        }
                        Ok(())
                    },
                }
            },
            FirewallOperation::CreateZone { zone } => {
                if snapshot.runtime.contains_key(zone) || snapshot.permanent.contains_key(zone) {
                    return Err(
                        OperationError::Invalid(
                            text::cat3("zone `", zone.as_str(), "` already exists"),
                        ),
                    );
                }
                Ok(())
            },
            FirewallOperation::DeleteZone { zone } => {
                if !snapshot.permanent.contains_key(zone) {
                    return Err(
                        OperationError::Invalid(
                            text::cat3(
                                "zone `",
                                zone.as_str(),
                                "` does not exist in permanent configuration",
                            ),
                        ),
                    );
                }
                if zone.same(&snapshot.default_zone) {
                    return Err(
                        OperationError::Invalid(
                            text::cat3(
                                "`",
                                zone.as_str(),
                                "` is the default zone — set another default first",
                            ),
                        ),
                    );
                }
                Ok(())
            },
            _ => match self.edited_zone() {
                Some((zone, adding)) => self.check_zone_edit(zone, adding, snapshot),
                None => Ok(()),
            },
        }
    }

    fn check_global(&self, snapshot: &FirewallSnapshot) -> (r: Result<(), OperationError>)
        ensures
            model::unit_outcome(r) == self.deep_view().global_checked(snapshot.deep_view()),
    {
        match self {
            FirewallOperation::CreateService { service } => {
                if lists::contains(&snapshot.available_services, service) {
                    return Err(
                        OperationError::Invalid(
                            text::cat3("service `", service.as_str(), "` already exists"),
                        ),
                    );
                }
                Ok(())
            },
            FirewallOperation::SetPanicMode { enabled } => {
                if snapshot.status.panic_mode == *enabled {
                    let state = if *enabled {
                        "on"
                    } else {
                        "off"
                    };
                    return Err(
                        OperationError::NothingToDo(text::cat2("panic mode is already ", state)),
                    );
                }
                Ok(())
            },
            FirewallOperation::RuntimeToPermanent => {
                if snapshot.all_synced() {
                    return Err(
                        OperationError::NothingToDo(
                            "runtime and permanent are already in sync".to_owned(),
                        ),
                    );
                }
                Ok(())
            },
            FirewallOperation::SetLogDenied { value } => {
                if snapshot.status.log_denied == *value {
                    return Err(
                        OperationError::NothingToDo(
                            text::cat3("LogDenied is already `", value.as_str(), "`"),
                        ),
                    );
                }
                Ok(())
            },
            _ => Ok(()),
        }
    }

    /// Checks the operation makes sense against the current snapshot. This is
    /// a UX guard, not a race-free guarantee — firewalld revalidates anyway.
    pub fn validate(&self, snapshot: &FirewallSnapshot) -> (r: Result<(), OperationError>)
        ensures
            model::unit_outcome(r) == self.deep_view().validated(snapshot.deep_view()),
    {
        let target = self.target();
        let section = self.needed_section();
        if let Some(section) = section {
            if !snapshot.section_is_complete(section, target) {
                return Err(
                    OperationError::Invalid(
                        text::cat5(
                            "cannot safely validate ",
                            target.label(),
                            " ",
                            section.label(),
                            " state because the latest snapshot is incomplete",
                        ),
                    ),
                );
            }
        }
        match section {
            Some(SnapshotSection::Policies) => self.check_policy(snapshot),
            Some(SnapshotSection::IpSets) => self.check_ipset(snapshot),
            Some(SnapshotSection::Zones) => self.check_zone(snapshot),
            _ => self.check_global(snapshot),
        }
    }

    fn scope_needs(&self, snapshot: &FirewallSnapshot) -> (r: Option<(bool, bool)>)
        ensures
            r == self.deep_view().needs(snapshot.deep_view()),
    {
        match self {
            FirewallOperation::AddIpSetEntry { name, entry, .. } => Some(
                (
                    is_known(ipset_state(&snapshot.ipsets.runtime, name, entry), false),
                    is_known(ipset_state(&snapshot.ipsets.permanent, name, entry), false),
                ),
            ),
            FirewallOperation::RemoveIpSetEntry { name, entry, .. } => Some(
                (
                    is_known(ipset_state(&snapshot.ipsets.runtime, name, entry), true),
                    is_known(ipset_state(&snapshot.ipsets.permanent, name, entry), true),
                ),
            ),
            FirewallOperation::AddPolicyService { policy, service, .. } => Some(
                (
                    is_known(policy_state(&snapshot.policies.runtime, policy, service), false),
                    is_known(policy_state(&snapshot.policies.permanent, policy, service), false),
                ),
            ),
            FirewallOperation::RemovePolicyService { policy, service, .. } => Some(
                (
                    is_known(policy_state(&snapshot.policies.runtime, policy, service), true),
                    is_known(policy_state(&snapshot.policies.permanent, policy, service), true),
                ),
            ),
            _ => match (self.zone(), self.zone_probe()) {
                (Some(zone), Some(adding)) => Some(
                    (
                        is_known(self.zone_observed(&snapshot.runtime, zone), !adding),
                        is_known(self.zone_observed(&snapshot.permanent, zone), !adding),
                    ),
                ),
                _ => None,
            },
        }
    }

    fn observed_section(&self) -> (r: Option<SnapshotSection>)
        ensures
            r == self.deep_view().narrowing_section(),
    {
        match self {
            FirewallOperation::AddIpSetEntry { .. } => Some(SnapshotSection::IpSets),
            FirewallOperation::RemoveIpSetEntry { .. } => Some(SnapshotSection::IpSets),
            FirewallOperation::AddPolicyService { .. } => Some(SnapshotSection::Policies),
            FirewallOperation::RemovePolicyService { .. } => Some(SnapshotSection::Policies),
            _ => if self.zone_probe().is_some() {
                Some(SnapshotSection::Zones)
            } else {
                None
            },
        }
    }

    /// Desired-state narrowing: shrinks a `RuntimeAndPermanent` target to only
    /// the scope(s) that actually need the change. Adding a service that
    /// runtime already has but permanent lacks becomes a permanent-only
    /// operation (drift repair), and removing an item that exists only in
    /// runtime never issues a doomed permanent command. Single-scope targets
    /// and non-zone operations are returned unchanged; so is an operation
    /// where both or neither scope needs work (`validate()` reports the
    /// nothing-to-do case).
    pub fn narrowed_for(&self, snapshot: &FirewallSnapshot) -> (r: Self)
        ensures
            r.deep_view() == self.deep_view().narrowed(snapshot.deep_view()),
    {
        let both = ConfigurationTarget::RuntimeAndPermanent;
        if self.target() != both {
            return self.clone();
        }
        if let Some(section) = self.observed_section() {
            if !snapshot.section_is_complete(section, both) {
                return self.clone();
            }
        }
        let narrowed = match self.scope_needs(snapshot) {
            Some((true, false)) => self.with_target(ConfigurationTarget::Runtime),
            Some((false, true)) => self.with_target(ConfigurationTarget::Permanent),
            _ => None,
        };
        match narrowed {
            Some(op) => op,
            None => self.clone(),
        }
    }

    fn ipset_postcondition(&self, snapshot: &FirewallSnapshot) -> (r: PostconditionProbe)
        ensures
            r == self.deep_view().ipset_probed(snapshot.deep_view()),
    {
        let target = self.target();
        let complete = snapshot.section_is_complete(SnapshotSection::IpSets, target);
        let desired = match self {
            FirewallOperation::CreateIpSet { name, .. } => Some(
                snapshot.ipsets.permanent.contains_key(name),
            ),
            FirewallOperation::DeleteIpSet { name } => Some(
                !snapshot.ipsets.permanent.contains_key(name),
            ),
            FirewallOperation::AddIpSetEntry { name, entry, .. } => scoped_postcondition(
                target,
                agrees(ipset_state(&snapshot.ipsets.runtime, name, entry), true),
                agrees(ipset_state(&snapshot.ipsets.permanent, name, entry), true),
            ),
            FirewallOperation::RemoveIpSetEntry { name, entry, .. } => scoped_postcondition(
                target,
                agrees(ipset_state(&snapshot.ipsets.runtime, name, entry), false),
                agrees(ipset_state(&snapshot.ipsets.permanent, name, entry), false),
            ),
            _ => {
                return PostconditionProbe::NotApplicable;
            },
        };
        if complete {
            PostconditionProbe::from_option(desired)
        } else {
            PostconditionProbe::Unknown
        }
    }

    fn policy_postcondition(&self, snapshot: &FirewallSnapshot) -> (r: PostconditionProbe)
        ensures
            r == self.deep_view().policy_probed(snapshot.deep_view()),
    {
        let target = self.target();
        let complete = snapshot.section_is_complete(SnapshotSection::Policies, target);
        let permanent = &snapshot.policies.permanent;
        let desired = match self {
            FirewallOperation::CreatePolicy { policy } => Some(permanent.contains_key(policy)),
            FirewallOperation::DeletePolicy { policy } => Some(!permanent.contains_key(policy)),
            FirewallOperation::SetPolicyTarget { policy, policy_target } => Some(
                match permanent.get(policy) {
                    Some(p) => p.target == *policy_target,
                    None => false,
                },
            ),
            FirewallOperation::AddPolicyIngressZone { policy, zone } => Some(
                match permanent.get(policy) {
                    Some(p) => lists::contains(&p.ingress_zones, zone),
                    None => false,
                },
            ),
            FirewallOperation::AddPolicyEgressZone { policy, zone } => Some(
                match permanent.get(policy) {
                    Some(p) => lists::contains(&p.egress_zones, zone),
                    None => false,
                },
            ),
            FirewallOperation::AddPolicyService { policy, service, .. } => scoped_postcondition(
                target,
                agrees(policy_state(&snapshot.policies.runtime, policy, service), true),
                agrees(policy_state(permanent, policy, service), true),
            ),
            FirewallOperation::RemovePolicyService { policy, service, .. } => scoped_postcondition(
                target,
                agrees(policy_state(&snapshot.policies.runtime, policy, service), false),
                agrees(policy_state(permanent, policy, service), false),
            ),
            _ => {
                return PostconditionProbe::NotApplicable;
            },
        };
        if complete {
            PostconditionProbe::from_option(desired)
        } else {
            PostconditionProbe::Unknown
        }
    }

    /// Whether this operation's desired state is visible in `snapshot`:
    /// an add's item present (a remove's absent) in every targeted scope
    /// whose zone exists. `None` when the operation has no checkable
    /// zone-collection postcondition.
    pub fn postcondition_holds(&self, snapshot: &FirewallSnapshot) -> (r: Option<bool>)
        ensures
            r == self.deep_view().achieved(snapshot.deep_view()),
    {
        match self.ipset_postcondition(snapshot) {
            PostconditionProbe::Holds(holds) => {
                return Some(holds);
            },
            PostconditionProbe::Unknown => {
                return None;
            },
            PostconditionProbe::NotApplicable => {},
        }
        match self.policy_postcondition(snapshot) {
            PostconditionProbe::Holds(holds) => {
                return Some(holds);
            },
            PostconditionProbe::Unknown => {
                return None;
            },
            PostconditionProbe::NotApplicable => {},
        }
        let target = self.target();
        if !snapshot.section_is_complete(SnapshotSection::Zones, target) {
            return None;
        }
        match (self.zone(), self.zone_probe()) {
            (Some(zone), Some(adding)) => visible_postcondition(
                target,
                agrees(self.zone_observed(&snapshot.runtime, zone), adding),
                agrees(self.zone_observed(&snapshot.permanent, zone), adding),
            ),
            _ => None,
        }
    }
}

fn is_known(observed: Option<bool>, value: bool) -> (r: bool)
    ensures
        r == (observed == Some(value)),
{
    match observed {
        Some(b) => b == value,
        None => false,
    }
}

} // verus!
