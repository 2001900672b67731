//! What the operations do to zones, policies and ipsets, item by item, and
//! how judging an operation follows from what it would change.

use vstd::prelude::*;

use crate::lists;
use crate::name_map;
use crate::operation::check;
use crate::operation::laws;
use crate::operation::{FirewallOperationView, OperationErrorView};
use crate::policy::PolicyDetailsView;
use crate::snapshot::{
    ConfigurationTarget, FirewallSnapshotView, IpSetInfoView, LogDenied, SnapshotSection,
};
use crate::zone::ZoneDetailsView;

verus! {

/// The list holds the item, behind all that it held before and only once more.
pub open spec fn gains<A>(before: Seq<A>, after: Seq<A>, x: A) -> bool {
    &&& after.contains(x)
    &&& before.is_prefix_of(after)
    &&& after.len() == before.len() + if before.contains(x) {
        0int
    } else {
        1int
    }
}

/// The list holds all that it held before but the item, in the same order.
pub open spec fn loses<A>(before: Seq<A>, after: Seq<A>, x: A) -> bool {
    &&& !after.contains(x)
    &&& after == before.filter(|y: A| y != x)
}

/// An item that is added is gained.
pub proof fn list_gains<A>(s: Seq<A>, x: A)
    ensures
        gains(s, lists::with(s, x), x),
{
    let t = lists::with(s, x);
    lists::with_contains(s, x, x);
    assert(s =~= t.subrange(0, s.len() as int));
}

/// An item that is removed is lost.
pub proof fn list_loses<A>(s: Seq<A>, x: A)
    ensures
        loses(s, lists::without(s, x), x),
    decreases s.len(),
{
    reveal(Seq::filter);
    lists::without_contains(s, x, x);
    if s.len() > 0 {
        list_loses(s.drop_last(), x);
    }
}

proof fn list_idle<A>(s: Seq<A>, x: A)
    ensures
        (lists::with(s, x) == s) == s.contains(x),
        (lists::without(s, x) == s) == !s.contains(x),
{
    lists::with_contains(s, x, x);
    lists::without_contains(s, x, x);
    if !s.contains(x) {
        lists::without_of_absent(s, x);
    }
}

// ---------------------------------------------------------------------------
// Edits of a zone
// ---------------------------------------------------------------------------
/// The difference that an operation makes to a zone: the list that it is about
/// gains or loses its item, or the setting that it is about takes its value.
/// Nothing else changes.
pub open spec fn zone_difference(
    op: FirewallOperationView,
    before: ZoneDetailsView,
    after: ZoneDetailsView,
) -> bool {
    match op {
        FirewallOperationView::AddTemporaryService { service, .. } => {
            &&& gains(before.services, after.services, service)
            &&& after == ZoneDetailsView { services: after.services, ..before }
        },
        FirewallOperationView::AddService { service, .. } => {
            &&& gains(before.services, after.services, service)
            &&& after == ZoneDetailsView { services: after.services, ..before }
        },
        FirewallOperationView::RemoveService { service, .. } => {
            &&& loses(before.services, after.services, service)
            &&& after == ZoneDetailsView { services: after.services, ..before }
        },
        FirewallOperationView::AddPort { port, .. } => {
            &&& gains(before.ports, after.ports, port)
            &&& after == ZoneDetailsView { ports: after.ports, ..before }
        },
        FirewallOperationView::RemovePort { port, .. } => {
            &&& loses(before.ports, after.ports, port)
            &&& after == ZoneDetailsView { ports: after.ports, ..before }
        },
        FirewallOperationView::AddSourcePort { port, .. } => {
            &&& gains(before.source_ports, after.source_ports, port)
            &&& after == ZoneDetailsView { source_ports: after.source_ports, ..before }
        },
        FirewallOperationView::RemoveSourcePort { port, .. } => {
            &&& loses(before.source_ports, after.source_ports, port)
            &&& after == ZoneDetailsView { source_ports: after.source_ports, ..before }
        },
        FirewallOperationView::AddProtocol { protocol, .. } => {
            &&& gains(before.protocols, after.protocols, protocol)
            &&& after == ZoneDetailsView { protocols: after.protocols, ..before }
        },
        FirewallOperationView::RemoveProtocol { protocol, .. } => {
            &&& loses(before.protocols, after.protocols, protocol)
            &&& after == ZoneDetailsView { protocols: after.protocols, ..before }
        },
        FirewallOperationView::AddForwardPort { forward, .. } => {
            &&& gains(before.forward_ports, after.forward_ports, forward)
            &&& after == ZoneDetailsView { forward_ports: after.forward_ports, ..before }
        },
        FirewallOperationView::RemoveForwardPort { forward, .. } => {
            &&& loses(before.forward_ports, after.forward_ports, forward)
            &&& after == ZoneDetailsView { forward_ports: after.forward_ports, ..before }
        },
        FirewallOperationView::AddRichRule { rule, .. } => {
            &&& gains(before.rich_rules, after.rich_rules, rule)
            &&& after == ZoneDetailsView { rich_rules: after.rich_rules, ..before }
        },
        FirewallOperationView::RemoveRichRule { rule, .. } => {
            &&& loses(before.rich_rules, after.rich_rules, rule)
            &&& after == ZoneDetailsView { rich_rules: after.rich_rules, ..before }
        },
        FirewallOperationView::AddInterface { interface, .. } => {
            &&& gains(before.interfaces, after.interfaces, interface)
            &&& after == ZoneDetailsView { interfaces: after.interfaces, ..before }
        },
        FirewallOperationView::RemoveInterface { interface, .. } => {
            &&& loses(before.interfaces, after.interfaces, interface)
            &&& after == ZoneDetailsView { interfaces: after.interfaces, ..before }
        },
        FirewallOperationView::AddSource { source, .. } => {
            &&& gains(before.sources, after.sources, source)
            &&& after == ZoneDetailsView { sources: after.sources, ..before }
        },
        FirewallOperationView::RemoveSource { source, .. } => {
            &&& loses(before.sources, after.sources, source)
            &&& after == ZoneDetailsView { sources: after.sources, ..before }
        },
        FirewallOperationView::AddIcmpBlock { icmp, .. } => {
            &&& gains(before.icmp_blocks, after.icmp_blocks, icmp)
            &&& after == ZoneDetailsView { icmp_blocks: after.icmp_blocks, ..before }
        },
        FirewallOperationView::RemoveIcmpBlock { icmp, .. } => {
            &&& loses(before.icmp_blocks, after.icmp_blocks, icmp)
            &&& after == ZoneDetailsView { icmp_blocks: after.icmp_blocks, ..before }
        },
        FirewallOperationView::SetMasquerade { enabled, .. } => {
            &&& after.masquerade == enabled
            &&& after == ZoneDetailsView { masquerade: after.masquerade, ..before }
        },
        FirewallOperationView::SetForward { enabled, .. } => {
            &&& after.forward == enabled
            &&& after == ZoneDetailsView { forward: after.forward, ..before }
        },
        FirewallOperationView::SetIcmpBlockInversion { enabled, .. } => {
            &&& after.icmp_block_inversion == enabled
            &&& after == ZoneDetailsView { icmp_block_inversion: after.icmp_block_inversion, ..before }
        },
        FirewallOperationView::SetZoneTarget { zone_target, .. } => {
            &&& after.target == zone_target
            &&& after == ZoneDetailsView { target: after.target, ..before }
        },
        _ => after == before,
    }
}

#[verifier::opaque]
spec fn zone_edit_named(op: FirewallOperationView, z: ZoneDetailsView) -> bool {
    zone_difference(op, z, op.zone_edited(z))
}

/// Every edit of a zone makes the difference that its name says, and no other.
pub proof fn zone_edits_make_their_difference(op: FirewallOperationView, z: ZoneDetailsView)
    ensures
        zone_difference(op, z, op.zone_edited(z)),
{
    match op {
        FirewallOperationView::AddService { service, .. } => {
            list_gains(z.services, service);
        },
        FirewallOperationView::RemoveService { service, .. } => {
            list_loses(z.services, service);
        },
        FirewallOperationView::AddPort { port, .. } => {
            list_gains(z.ports, port);
        },
        FirewallOperationView::RemovePort { port, .. } => {
            list_loses(z.ports, port);
        },
        FirewallOperationView::AddSourcePort { port, .. } => {
            list_gains(z.source_ports, port);
        },
        FirewallOperationView::RemoveSourcePort { port, .. } => {
            list_loses(z.source_ports, port);
        },
        FirewallOperationView::AddProtocol { protocol, .. } => {
            list_gains(z.protocols, protocol);
        },
        FirewallOperationView::RemoveProtocol { protocol, .. } => {
            list_loses(z.protocols, protocol);
        },
        FirewallOperationView::AddForwardPort { forward, .. } => {
            list_gains(z.forward_ports, forward);
        },
        FirewallOperationView::RemoveForwardPort { forward, .. } => {
            list_loses(z.forward_ports, forward);
        },
        FirewallOperationView::AddRichRule { rule, .. } => {
            list_gains(z.rich_rules, rule);
        },
        FirewallOperationView::RemoveRichRule { rule, .. } => {
            list_loses(z.rich_rules, rule);
        },
        FirewallOperationView::AddInterface { interface, .. } => {
            list_gains(z.interfaces, interface);
        },
        FirewallOperationView::RemoveInterface { interface, .. } => {
            list_loses(z.interfaces, interface);
        },
        FirewallOperationView::AddSource { source, .. } => {
            list_gains(z.sources, source);
        },
        FirewallOperationView::RemoveSource { source, .. } => {
            list_loses(z.sources, source);
        },
        FirewallOperationView::AddIcmpBlock { icmp, .. } => {
            list_gains(z.icmp_blocks, icmp);
        },
        FirewallOperationView::RemoveIcmpBlock { icmp, .. } => {
            list_loses(z.icmp_blocks, icmp);
        },
        FirewallOperationView::AddTemporaryService { service, .. } => {
            list_gains(z.services, service);
        },
        _ => {},
    }
    if op is AddService || op is AddTemporaryService || op is RemoveService || op is AddPort
        || op is RemovePort || op is SetDefaultZone || op is SetMasquerade || op is SetZoneTarget {
        assert(zone_edit_named(op, z)) by {
            reveal(zone_edit_named);
        }
    } else if op is AddSourcePort || op is RemoveSourcePort || op is AddProtocol
        || op is RemoveProtocol || op is SetForward || op is SetIcmpBlockInversion
        || op is AddForwardPort || op is RemoveForwardPort {
        assert(zone_edit_named(op, z)) by {
            reveal(zone_edit_named);
        }
    } else if op is AddRichRule || op is RemoveRichRule || op is AddInterface
        || op is RemoveInterface || op is AddSource || op is RemoveSource
        || op is AddIcmpBlock || op is RemoveIcmpBlock {
        assert(zone_edit_named(op, z)) by {
            reveal(zone_edit_named);
        }
    } else if op is CreateService || op is DeleteService || op is AddServicePort
        || op is RemoveServicePort || op is CreatePolicy || op is DeletePolicy
        || op is MigrateDirectRule || op is SetPolicyTarget {
        assert(zone_edit_named(op, z)) by {
            reveal(zone_edit_named);
        }
    } else if op is AddPolicyIngressZone || op is AddPolicyEgressZone
        || op is AddPolicyService || op is RemovePolicyService || op is SetPolicySetEnabled
        || op is CreateIpSet || op is DeleteIpSet || op is AddIpSetEntry {
        assert(zone_edit_named(op, z)) by {
            reveal(zone_edit_named);
        }
    } else {
        assert(zone_edit_named(op, z)) by {
            reveal(zone_edit_named);
        }
    }
    reveal(zone_edit_named);
}

/// The scope that an operation edits: each edit of a zone goes to the zone and
/// the scopes that it names. A temporary service exists in the runtime only, a
/// zone target in the permanent configuration only.
pub open spec fn zone_scope_named(op: FirewallOperationView) -> bool {
    match op {
        FirewallOperationView::AddService { zone, target, .. } => op.zone_scope() == Some((zone, target)),
        FirewallOperationView::RemoveService { zone, target, .. } => op.zone_scope() == Some((zone, target)),
        FirewallOperationView::AddPort { zone, target, .. } => op.zone_scope() == Some((zone, target)),
        FirewallOperationView::RemovePort { zone, target, .. } => op.zone_scope() == Some((zone, target)),
        FirewallOperationView::AddSourcePort { zone, target, .. } => op.zone_scope() == Some((zone, target)),
        FirewallOperationView::RemoveSourcePort { zone, target, .. } => op.zone_scope() == Some((zone, target)),
        FirewallOperationView::AddProtocol { zone, target, .. } => op.zone_scope() == Some((zone, target)),
        FirewallOperationView::RemoveProtocol { zone, target, .. } => op.zone_scope() == Some((zone, target)),
        FirewallOperationView::AddForwardPort { zone, target, .. } => op.zone_scope() == Some((zone, target)),
        FirewallOperationView::RemoveForwardPort { zone, target, .. } => op.zone_scope() == Some((zone, target)),
        FirewallOperationView::AddRichRule { zone, target, .. } => op.zone_scope() == Some((zone, target)),
        FirewallOperationView::RemoveRichRule { zone, target, .. } => op.zone_scope() == Some((zone, target)),
        FirewallOperationView::AddInterface { zone, target, .. } => op.zone_scope() == Some((zone, target)),
        FirewallOperationView::RemoveInterface { zone, target, .. } => op.zone_scope() == Some((zone, target)),
        FirewallOperationView::AddSource { zone, target, .. } => op.zone_scope() == Some((zone, target)),
        FirewallOperationView::RemoveSource { zone, target, .. } => op.zone_scope() == Some((zone, target)),
        FirewallOperationView::AddIcmpBlock { zone, target, .. } => op.zone_scope() == Some((zone, target)),
        FirewallOperationView::RemoveIcmpBlock { zone, target, .. } => op.zone_scope() == Some((zone, target)),
        FirewallOperationView::SetMasquerade { zone, target, .. } => op.zone_scope() == Some((zone, target)),
        FirewallOperationView::SetForward { zone, target, .. } => op.zone_scope() == Some((zone, target)),
        FirewallOperationView::SetIcmpBlockInversion { zone, target, .. } => op.zone_scope() == Some((zone, target)),
        FirewallOperationView::AddTemporaryService { zone, .. } => op.zone_scope() == Some(
            (zone, ConfigurationTarget::Runtime),
        ),
        FirewallOperationView::SetZoneTarget { zone, .. } => op.zone_scope() == Some(
            (zone, ConfigurationTarget::Permanent),
        ),
        _ => op.zone_scope() is None,
    }
}

#[verifier::opaque]
spec fn scope_named(op: FirewallOperationView) -> bool {
    zone_scope_named(op) && (op.zone_scope() matches Some((_, target)) ==> op.target() == target)
}

/// An edit of a zone goes where it says.
pub proof fn zone_edits_go_where_they_say(op: FirewallOperationView)
    ensures
        zone_scope_named(op),
        op.zone_scope() matches Some((_, target)) ==> op.target() == target,
{
    if op is AddService || op is AddTemporaryService || op is RemoveService || op is AddPort
        || op is RemovePort || op is SetDefaultZone || op is SetMasquerade || op is SetZoneTarget {
        assert(scope_named(op)) by {
            reveal(scope_named);
        }
    } else if op is AddSourcePort || op is RemoveSourcePort || op is AddProtocol
        || op is RemoveProtocol || op is SetForward || op is SetIcmpBlockInversion
        || op is AddForwardPort || op is RemoveForwardPort {
        assert(scope_named(op)) by {
            reveal(scope_named);
        }
    } else if op is AddRichRule || op is RemoveRichRule || op is AddInterface
        || op is RemoveInterface || op is AddSource || op is RemoveSource
        || op is AddIcmpBlock || op is RemoveIcmpBlock {
        assert(scope_named(op)) by {
            reveal(scope_named);
        }
    } else if op is CreateService || op is DeleteService || op is AddServicePort
        || op is RemoveServicePort || op is CreatePolicy || op is DeletePolicy
        || op is MigrateDirectRule || op is SetPolicyTarget {
        assert(scope_named(op)) by {
            reveal(scope_named);
        }
    } else if op is AddPolicyIngressZone || op is AddPolicyEgressZone
        || op is AddPolicyService || op is RemovePolicyService || op is SetPolicySetEnabled
        || op is CreateIpSet || op is DeleteIpSet || op is AddIpSetEntry {
        assert(scope_named(op)) by {
            reveal(scope_named);
        }
    } else {
        assert(scope_named(op)) by {
            reveal(scope_named);
        }
    }
    reveal(scope_named);
}

/// Whether the operation leaves the zone of that name as it is, where the
/// configuration has the zone.
pub open spec fn zone_unchanged(
    op: FirewallOperationView,
    zones: Seq<(Seq<char>, ZoneDetailsView)>,
    zone: Seq<char>,
) -> Option<bool> {
    match name_map::lookup(zones, zone) {
        Some(z) => Some(op.zone_edited(z) == z),
        None => None,
    }
}

#[verifier::opaque]
spec fn idle_if_found(op: FirewallOperationView, z: ZoneDetailsView) -> bool {
    &&& op.zone_scope() is Some && op.zone() is Some
    &&& (op.zone_scope()->0).0 == op.zone()->0
    &&& op.probe() matches Some(adding) ==> (op.zone_edited(z) == z) == (op.item_in(z) == adding)
    &&& op.probe() is None ==> op is AddTemporaryService && (op.zone_edited(z) == z) == op.item_in(
        z,
    )
    &&& op.zone_edit() matches Some((zone, adding)) ==> zone == op.zone()->0 && (op.probe()
        matches Some(b) ==> b == adding) && (op is AddTemporaryService ==> adding)
    &&& op.zone_edit() is None ==> op is SetZoneTarget
    &&& op.required_section() == Some(SnapshotSection::Zones)
}

proof fn idle_exactly_if_found(op: FirewallOperationView, z: ZoneDetailsView)
    requires
        op.zone_scope() is Some,
    ensures
        idle_if_found(op, z),
{
    match op {
        FirewallOperationView::AddService { service, .. } => {
            list_idle(z.services, service);
        },
        FirewallOperationView::RemoveService { service, .. } => {
            list_idle(z.services, service);
        },
        FirewallOperationView::AddPort { port, .. } => {
            list_idle(z.ports, port);
        },
        FirewallOperationView::RemovePort { port, .. } => {
            list_idle(z.ports, port);
        },
        FirewallOperationView::AddSourcePort { port, .. } => {
            list_idle(z.source_ports, port);
        },
        FirewallOperationView::RemoveSourcePort { port, .. } => {
            list_idle(z.source_ports, port);
        },
        FirewallOperationView::AddProtocol { protocol, .. } => {
            list_idle(z.protocols, protocol);
        },
        FirewallOperationView::RemoveProtocol { protocol, .. } => {
            list_idle(z.protocols, protocol);
        },
        FirewallOperationView::AddForwardPort { forward, .. } => {
            list_idle(z.forward_ports, forward);
        },
        FirewallOperationView::RemoveForwardPort { forward, .. } => {
            list_idle(z.forward_ports, forward);
        },
        FirewallOperationView::AddRichRule { rule, .. } => {
            list_idle(z.rich_rules, rule);
        },
        FirewallOperationView::RemoveRichRule { rule, .. } => {
            list_idle(z.rich_rules, rule);
        },
        FirewallOperationView::AddInterface { interface, .. } => {
            list_idle(z.interfaces, interface);
        },
        FirewallOperationView::RemoveInterface { interface, .. } => {
            list_idle(z.interfaces, interface);
        },
        FirewallOperationView::AddSource { source, .. } => {
            list_idle(z.sources, source);
        },
        FirewallOperationView::RemoveSource { source, .. } => {
            list_idle(z.sources, source);
        },
        FirewallOperationView::AddIcmpBlock { icmp, .. } => {
            list_idle(z.icmp_blocks, icmp);
        },
        FirewallOperationView::RemoveIcmpBlock { icmp, .. } => {
            list_idle(z.icmp_blocks, icmp);
        },
        FirewallOperationView::AddTemporaryService { service, .. } => {
            list_idle(z.services, service);
        },
        _ => {},
    }
    if op is AddService || op is AddTemporaryService || op is RemoveService || op is AddPort
        || op is RemovePort || op is SetDefaultZone || op is SetMasquerade || op is SetZoneTarget {
        assert(idle_if_found(op, z)) by {
            reveal(idle_if_found);
        }
    } else if op is AddSourcePort || op is RemoveSourcePort || op is AddProtocol
        || op is RemoveProtocol || op is SetForward || op is SetIcmpBlockInversion
        || op is AddForwardPort || op is RemoveForwardPort {
        assert(idle_if_found(op, z)) by {
            reveal(idle_if_found);
        }
    } else if op is AddRichRule || op is RemoveRichRule || op is AddInterface
        || op is RemoveInterface || op is AddSource || op is RemoveSource
        || op is AddIcmpBlock || op is RemoveIcmpBlock {
        assert(idle_if_found(op, z)) by {
            reveal(idle_if_found);
        }
    } else if op is CreateService || op is DeleteService || op is AddServicePort
        || op is RemoveServicePort || op is CreatePolicy || op is DeletePolicy
        || op is MigrateDirectRule || op is SetPolicyTarget {
        assert(idle_if_found(op, z)) by {
            reveal(idle_if_found);
        }
    } else if op is AddPolicyIngressZone || op is AddPolicyEgressZone
        || op is AddPolicyService || op is RemovePolicyService || op is SetPolicySetEnabled
        || op is CreateIpSet || op is DeleteIpSet || op is AddIpSetEntry {
        assert(idle_if_found(op, z)) by {
            reveal(idle_if_found);
        }
    } else {
        assert(idle_if_found(op, z)) by {
            reveal(idle_if_found);
        }
    }
}

/// The desired state of an edit of a zone is visible exactly where the edit
/// would change nothing: in each targeted configuration that has the zone. It
/// cannot be told where the zones were not read or no targeted configuration
/// has the zone.
pub proof fn achieved_edits_change_nothing(op: FirewallOperationView, s: FirewallSnapshotView)
    requires
        op.zone_scope() is Some,
        !(op is AddTemporaryService),
    ensures
        op.zone_scope() matches Some((zone, target)) ==> ({
            let runtime = zone_unchanged(op, s.runtime, zone);
            let permanent = zone_unchanged(op, s.permanent, zone);
            op.achieved(s) == if !s.complete(SnapshotSection::Zones, target) {
                None
            } else {
                match target {
                    ConfigurationTarget::Runtime => runtime,
                    ConfigurationTarget::Permanent => permanent,
                    ConfigurationTarget::RuntimeAndPermanent => if runtime is None {
                        permanent
                    } else if permanent is None {
                        runtime
                    } else {
                        Some(runtime == Some(true) && permanent == Some(true))
                    },
                }
            }
        }),
{
    zone_edits_go_where_they_say(op);
    let zone = (op.zone_scope()->0).0;
    if let Some(z) = name_map::lookup(s.runtime, zone) {
        idle_exactly_if_found(op, z);
    }
    if let Some(z) = name_map::lookup(s.permanent, zone) {
        idle_exactly_if_found(op, z);
    }
    idle_exactly_if_found(op, ZoneDetailsView::empty(zone));
    reveal(idle_if_found);
}

/// How an edit is judged, given whether the part of the snapshot that it is
/// about was read, and what it would leave unchanged in each configuration
/// that has its object: it needs the object in every targeted configuration,
/// and has to change something in one of them.
pub open spec fn judged(
    verdict: Result<(), OperationErrorView>,
    read: bool,
    target: ConfigurationTarget,
    runtime: Option<bool>,
    permanent: Option<bool>,
) -> bool {
    let in_runtime = target != ConfigurationTarget::Permanent;
    let in_permanent = target != ConfigurationTarget::Runtime;
    if !read || (in_runtime && runtime is None) || (in_permanent && permanent is None) {
        verdict matches Err(OperationErrorView::Invalid(_))
    } else if (in_runtime && runtime == Some(false)) || (in_permanent && permanent == Some(false)) {
        verdict is Ok
    } else {
        verdict matches Err(OperationErrorView::NothingToDo(_))
    }
}

/// An edit of a zone is refused as nothing to do exactly if it would change
/// nothing in any targeted configuration, and as invalid exactly if the zones
/// were not read or a targeted configuration lacks the zone.
pub proof fn zone_edits_are_judged_by_their_change(
    op: FirewallOperationView,
    s: FirewallSnapshotView,
)
    requires
        op.zone_scope() is Some,
    ensures
        op.zone_scope() matches Some((zone, target)) ==> judged(
            op.validated(s),
            s.complete(SnapshotSection::Zones, target),
            target,
            zone_unchanged(op, s.runtime, zone),
            zone_unchanged(op, s.permanent, zone),
        ),
{
    zone_edits_go_where_they_say(op);
    let zone = (op.zone_scope()->0).0;
    if let Some(z) = name_map::lookup(s.runtime, zone) {
        idle_exactly_if_found(op, z);
    }
    if let Some(z) = name_map::lookup(s.permanent, zone) {
        idle_exactly_if_found(op, z);
    }
    idle_exactly_if_found(op, ZoneDetailsView::empty(zone));
    reveal(idle_if_found);
}

/// How an operation on both configurations is narrowed, given what it would
/// leave unchanged in each: to the only one in which it would change something.
/// Where it would in both or in none, or where that is not known, it stays.
pub open spec fn narrowing(
    op: FirewallOperationView,
    narrowed: FirewallOperationView,
    read: bool,
    runtime: Option<bool>,
    permanent: Option<bool>,
) -> bool {
    if !read || (runtime == Some(false)) == (permanent == Some(false)) {
        narrowed == op
    } else {
        &&& narrowed.target() == if runtime == Some(false) {
            ConfigurationTarget::Runtime
        } else {
            ConfigurationTarget::Permanent
        }
        &&& narrowed.retargeted(op.target()) == Some(op)
    }
}

#[verifier::opaque]
spec fn retargetable(op: FirewallOperationView) -> bool {
    op.target() == ConfigurationTarget::RuntimeAndPermanent && (op.zone_scope() is Some
        || op is AddPolicyService || op is RemovePolicyService || op is AddIpSetEntry
        || op is RemoveIpSetEntry) ==> op.retargeted(ConfigurationTarget::Runtime) is Some
        && op.retargeted(ConfigurationTarget::Permanent) is Some
}

proof fn edits_of_both_can_be_retargeted(op: FirewallOperationView)
    ensures
        retargetable(op),
{
    if op is AddService || op is AddTemporaryService || op is RemoveService || op is AddPort
        || op is RemovePort || op is SetDefaultZone || op is SetMasquerade || op is SetZoneTarget {
        assert(retargetable(op)) by {
            reveal(retargetable);
        }
    } else if op is AddSourcePort || op is RemoveSourcePort || op is AddProtocol
        || op is RemoveProtocol || op is SetForward || op is SetIcmpBlockInversion
        || op is AddForwardPort || op is RemoveForwardPort {
        assert(retargetable(op)) by {
            reveal(retargetable);
        }
    } else if op is AddRichRule || op is RemoveRichRule || op is AddInterface
        || op is RemoveInterface || op is AddSource || op is RemoveSource
        || op is AddIcmpBlock || op is RemoveIcmpBlock {
        assert(retargetable(op)) by {
            reveal(retargetable);
        }
    } else if op is CreateService || op is DeleteService || op is AddServicePort
        || op is RemoveServicePort || op is CreatePolicy || op is DeletePolicy
        || op is MigrateDirectRule || op is SetPolicyTarget {
        assert(retargetable(op)) by {
            reveal(retargetable);
        }
    } else if op is AddPolicyIngressZone || op is AddPolicyEgressZone
        || op is AddPolicyService || op is RemovePolicyService || op is SetPolicySetEnabled
        || op is CreateIpSet || op is DeleteIpSet || op is AddIpSetEntry {
        assert(retargetable(op)) by {
            reveal(retargetable);
        }
    } else {
        assert(retargetable(op)) by {
            reveal(retargetable);
        }
    }
}

/// An edit of a zone in both configurations is narrowed to the one in which it
/// would change something.
pub proof fn zone_edits_are_narrowed_by_their_change(
    op: FirewallOperationView,
    s: FirewallSnapshotView,
)
    requires
        op.zone_scope() is Some,
        op.target() == ConfigurationTarget::RuntimeAndPermanent,
    ensures
        op.zone_scope() matches Some((zone, _)) ==> narrowing(
            op,
            op.narrowed(s),
            s.complete(SnapshotSection::Zones, ConfigurationTarget::RuntimeAndPermanent),
            zone_unchanged(op, s.runtime, zone),
            zone_unchanged(op, s.permanent, zone),
        ),
{
    zone_edits_go_where_they_say(op);
    let zone = (op.zone_scope()->0).0;
    if let Some(z) = name_map::lookup(s.runtime, zone) {
        idle_exactly_if_found(op, z);
    }
    if let Some(z) = name_map::lookup(s.permanent, zone) {
        idle_exactly_if_found(op, z);
    }
    idle_exactly_if_found(op, ZoneDetailsView::empty(zone));
    reveal(idle_if_found);
    edits_of_both_can_be_retargeted(op);
    reveal(retargetable);
    laws::retargeting_changes_only_the_target(op, ConfigurationTarget::Runtime, op.target());
    laws::retargeting_changes_only_the_target(op, ConfigurationTarget::Permanent, op.target());
}

// ---------------------------------------------------------------------------
// Edits of a policy
// ---------------------------------------------------------------------------
/// The difference that an operation makes to a policy: the list that it is
/// about gains or loses its item, or the target takes its value. Nothing else
/// changes.
pub open spec fn policy_difference(
    op: FirewallOperationView,
    before: PolicyDetailsView,
    after: PolicyDetailsView,
) -> bool {
    match op {
        FirewallOperationView::SetPolicyTarget { policy_target, .. } => {
            &&& after.target == policy_target
            &&& after == PolicyDetailsView { target: after.target, ..before }
        },
        FirewallOperationView::AddPolicyIngressZone { zone, .. } => {
            &&& gains(before.ingress_zones, after.ingress_zones, zone)
            &&& after == PolicyDetailsView { ingress_zones: after.ingress_zones, ..before }
        },
        FirewallOperationView::AddPolicyEgressZone { zone, .. } => {
            &&& gains(before.egress_zones, after.egress_zones, zone)
            &&& after == PolicyDetailsView { egress_zones: after.egress_zones, ..before }
        },
        FirewallOperationView::AddPolicyService { service, .. } => {
            &&& gains(before.services, after.services, service)
            &&& after == PolicyDetailsView { services: after.services, ..before }
        },
        FirewallOperationView::RemovePolicyService { service, .. } => {
            &&& loses(before.services, after.services, service)
            &&& after == PolicyDetailsView { services: after.services, ..before }
        },
        _ => after == before,
    }
}

/// Every edit of a policy makes the difference that its name says, and no
/// other.
pub proof fn policy_edits_make_their_difference(op: FirewallOperationView, p: PolicyDetailsView)
    ensures
        policy_difference(op, p, op.policy_edited(p)),
{
    match op {
        FirewallOperationView::AddPolicyIngressZone { zone, .. } => {
            list_gains(p.ingress_zones, zone);
        },
        FirewallOperationView::AddPolicyEgressZone { zone, .. } => {
            list_gains(p.egress_zones, zone);
        },
        FirewallOperationView::AddPolicyService { service, .. } => {
            list_gains(p.services, service);
        },
        FirewallOperationView::RemovePolicyService { service, .. } => {
            list_loses(p.services, service);
        },
        _ => {},
    }
}

/// An edit of a policy goes to the policy and the scopes that it names. Targets
/// and zones of a policy are edited in the permanent configuration only.
pub proof fn policy_edits_go_where_they_say(op: FirewallOperationView)
    ensures
        op.policy_scope() == match op {
            FirewallOperationView::SetPolicyTarget { policy, .. }
            | FirewallOperationView::AddPolicyIngressZone { policy, .. }
            | FirewallOperationView::AddPolicyEgressZone { policy, .. } => Some(
                (policy, ConfigurationTarget::Permanent),
            ),
            FirewallOperationView::AddPolicyService { policy, target, .. }
            | FirewallOperationView::RemovePolicyService { policy, target, .. } => Some(
                (policy, target),
            ),
            _ => None,
        },
        op.policy_scope() matches Some((_, target)) ==> op.target() == target,
{
}

/// Whether the operation leaves the policy of that name as it is, where the
/// configuration has the policy.
pub open spec fn policy_unchanged(
    op: FirewallOperationView,
    policies: Seq<(Seq<char>, PolicyDetailsView)>,
    policy: Seq<char>,
) -> Option<bool> {
    match name_map::lookup(policies, policy) {
        Some(p) => Some(op.policy_edited(p) == p),
        None => None,
    }
}

proof fn policy_idle(op: FirewallOperationView, p: PolicyDetailsView)
    ensures
        match op {
            FirewallOperationView::SetPolicyTarget { policy_target, .. } => (op.policy_edited(p) == p)
                == (p.target == policy_target),
            FirewallOperationView::AddPolicyIngressZone { zone, .. } => (op.policy_edited(p) == p)
                == p.ingress_zones.contains(zone),
            FirewallOperationView::AddPolicyEgressZone { zone, .. } => (op.policy_edited(p) == p)
                == p.egress_zones.contains(zone),
            FirewallOperationView::AddPolicyService { service, .. } => (op.policy_edited(p) == p)
                == p.services.contains(service),
            FirewallOperationView::RemovePolicyService { service, .. } => (op.policy_edited(p) == p)
                == !p.services.contains(service),
            _ => true,
        },
{
    match op {
        FirewallOperationView::AddPolicyIngressZone { zone, .. } => {
            list_idle(p.ingress_zones, zone);
        },
        FirewallOperationView::AddPolicyEgressZone { zone, .. } => {
            list_idle(p.egress_zones, zone);
        },
        FirewallOperationView::AddPolicyService { service, .. } => {
            list_idle(p.services, service);
        },
        FirewallOperationView::RemovePolicyService { service, .. } => {
            list_idle(p.services, service);
        },
        _ => {},
    }
}

/// An edit of a policy is refused as nothing to do exactly if it would change
/// nothing in any targeted configuration, and as invalid exactly if the
/// policies were not read or a targeted configuration lacks the policy.
pub proof fn policy_edits_are_judged_by_their_change(
    op: FirewallOperationView,
    s: FirewallSnapshotView,
)
    requires
        op.policy_scope() is Some,
    ensures
        op.policy_scope() matches Some((policy, target)) ==> judged(
            op.validated(s),
            s.complete(SnapshotSection::Policies, target),
            target,
            policy_unchanged(op, s.policies.runtime, policy),
            policy_unchanged(op, s.policies.permanent, policy),
        ),
{
    let policy = (op.policy_scope()->0).0;
    if let Some(p) = name_map::lookup(s.policies.runtime, policy) {
        policy_idle(op, p);
    }
    if let Some(p) = name_map::lookup(s.policies.permanent, policy) {
        policy_idle(op, p);
    }
}

/// The desired state of an edit of a policy is visible exactly where the edit
/// would change nothing: in each targeted configuration. An edit of the
/// permanent configuration alone is not achieved where the policy is missing;
/// for the services of a policy that cannot be told, unless the runtime shows
/// otherwise.
pub proof fn achieved_policy_edits_change_nothing(
    op: FirewallOperationView,
    s: FirewallSnapshotView,
)
    requires
        op.policy_scope() is Some,
    ensures
        op.policy_scope() matches Some((policy, target)) ==> ({
            let runtime = policy_unchanged(op, s.policies.runtime, policy);
            let permanent = policy_unchanged(op, s.policies.permanent, policy);
            op.achieved(s) == if !s.complete(SnapshotSection::Policies, target) {
                None
            } else if !(op is AddPolicyService) && !(op is RemovePolicyService) {
                Some(permanent == Some(true))
            } else {
                match target {
                    ConfigurationTarget::Runtime => runtime,
                    ConfigurationTarget::Permanent => permanent,
                    ConfigurationTarget::RuntimeAndPermanent => if runtime == Some(true) {
                        permanent
                    } else {
                        runtime
                    },
                }
            }
        }),
{
    let policy = (op.policy_scope()->0).0;
    if let Some(p) = name_map::lookup(s.policies.runtime, policy) {
        policy_idle(op, p);
    }
    if let Some(p) = name_map::lookup(s.policies.permanent, policy) {
        policy_idle(op, p);
    }
}

/// An edit of a policy's services in both configurations is narrowed to the
/// one in which it would change something.
pub proof fn policy_edits_are_narrowed_by_their_change(
    op: FirewallOperationView,
    s: FirewallSnapshotView,
)
    requires
        op.policy_scope() is Some,
        op.target() == ConfigurationTarget::RuntimeAndPermanent,
    ensures
        op.policy_scope() matches Some((policy, _)) ==> narrowing(
            op,
            op.narrowed(s),
            s.complete(SnapshotSection::Policies, ConfigurationTarget::RuntimeAndPermanent),
            policy_unchanged(op, s.policies.runtime, policy),
            policy_unchanged(op, s.policies.permanent, policy),
        ),
{
    let policy = (op.policy_scope()->0).0;
    if let Some(p) = name_map::lookup(s.policies.runtime, policy) {
        policy_idle(op, p);
    }
    if let Some(p) = name_map::lookup(s.policies.permanent, policy) {
        policy_idle(op, p);
    }
    edits_of_both_can_be_retargeted(op);
    reveal(retargetable);
    laws::retargeting_changes_only_the_target(op, ConfigurationTarget::Runtime, op.target());
    laws::retargeting_changes_only_the_target(op, ConfigurationTarget::Permanent, op.target());
}

// ---------------------------------------------------------------------------
// Entries of an ipset
// ---------------------------------------------------------------------------
/// Whether the ipset of that name has its entry as wanted, where the
/// configuration has the ipset.
pub open spec fn entry_settled(
    ipsets: Seq<(Seq<char>, IpSetInfoView)>,
    name: Seq<char>,
    entry: Seq<char>,
    wanted: bool,
) -> Option<bool> {
    match name_map::lookup(ipsets, name) {
        Some(set) => Some(set.entries.contains(entry) == wanted),
        None => None,
    }
}

/// Adding an entry to an ipset is nothing to do exactly if every targeted
/// configuration has it, removing it exactly if none has it. The ipsets must
/// have been read, and every targeted configuration must have the ipset.
pub proof fn entries_are_judged_by_membership(
    op: FirewallOperationView,
    s: FirewallSnapshotView,
    name: Seq<char>,
    entry: Seq<char>,
    target: ConfigurationTarget,
    wanted: bool,
)
    requires
        op == if wanted {
            FirewallOperationView::AddIpSetEntry { name, entry, target }
        } else {
            FirewallOperationView::RemoveIpSetEntry { name, entry, target }
        },
    ensures
        ({
            let read = s.complete(SnapshotSection::IpSets, target);
            let runtime = entry_settled(s.ipsets.runtime, name, entry, wanted);
            let permanent = entry_settled(s.ipsets.permanent, name, entry, wanted);
            &&& op.target() == target
            &&& judged(op.validated(s), read, target, runtime, permanent)
            &&& target == ConfigurationTarget::RuntimeAndPermanent ==> narrowing(
                op,
                op.narrowed(s),
                read,
                runtime,
                permanent,
            )
            &&& op.achieved(s) == if !read {
                None
            } else {
                match target {
                    ConfigurationTarget::Runtime => runtime,
                    ConfigurationTarget::Permanent => permanent,
                    ConfigurationTarget::RuntimeAndPermanent => if runtime == Some(true) {
                        permanent
                    } else {
                        runtime
                    },
                }
            }
        }),
{
    edits_of_both_can_be_retargeted(op);
    reveal(retargetable);
    laws::retargeting_changes_only_the_target(op, ConfigurationTarget::Runtime, op.target());
    laws::retargeting_changes_only_the_target(op, ConfigurationTarget::Permanent, op.target());
}

// ---------------------------------------------------------------------------
// Objects and the firewall as a whole
// ---------------------------------------------------------------------------
/// A new object must not be there yet. Policies, ipsets and zones are created
/// in the permanent configuration, a zone must be new to the runtime too, and
/// a service must be none that firewalld offers.
pub proof fn new_objects_must_be_new(s: FirewallSnapshotView, name: Seq<char>, kind: Seq<char>)
    ensures
        ({
            let op = FirewallOperationView::CreatePolicy { policy: name };
            let fits = s.complete(SnapshotSection::Policies, ConfigurationTarget::Permanent)
                && name_map::lookup(s.policies.permanent, name) is None;
            op.validated(s) is Ok == fits && (!fits ==> op.validated(s) matches Err(
                OperationErrorView::Invalid(_),
            ))
        }),
        ({
            let op = FirewallOperationView::CreateIpSet { name, kind };
            let known = exists|i: int|
                0 <= i < check::IPSET_TYPES@.len() && (#[trigger] check::IPSET_TYPES@[i])@ == kind;
            let fits = s.complete(SnapshotSection::IpSets, ConfigurationTarget::Permanent) && known
                && name_map::lookup(s.ipsets.permanent, name) is None;
            op.validated(s) is Ok == fits && (!fits ==> op.validated(s) matches Err(
                OperationErrorView::Invalid(_),
            ))
        }),
        ({
            let op = FirewallOperationView::CreateZone { zone: name };
            let fits = s.complete(SnapshotSection::Zones, ConfigurationTarget::Permanent)
                && name_map::lookup(s.runtime, name) is None && name_map::lookup(s.permanent, name)
                is None;
            op.validated(s) is Ok == fits && (!fits ==> op.validated(s) matches Err(
                OperationErrorView::Invalid(_),
            ))
        }),
        ({
            let op = FirewallOperationView::CreateService { service: name };
            let fits = s.complete(SnapshotSection::Services, ConfigurationTarget::Permanent)
                && !s.available_services.contains(name);
            op.validated(s) is Ok == fits && (!fits ==> op.validated(s) matches Err(
                OperationErrorView::Invalid(_),
            ))
        }),
{
    check::listed_types_are_supported(kind);
}

/// An object to delete must be there in the permanent configuration. A missing
/// policy or ipset is nothing to do, a missing zone is invalid, and so is the
/// default zone.
pub proof fn deleted_objects_must_exist(s: FirewallSnapshotView, name: Seq<char>)
    ensures
        ({
            let op = FirewallOperationView::DeletePolicy { policy: name };
            let read = s.complete(SnapshotSection::Policies, ConfigurationTarget::Permanent);
            let there = name_map::lookup(s.policies.permanent, name) is Some;
            &&& op.validated(s) is Ok == (read && there)
            &&& (op.validated(s) matches Err(OperationErrorView::NothingToDo(_))) == (read && !there)
            &&& (op.validated(s) matches Err(OperationErrorView::Invalid(_))) == !read
        }),
        ({
            let op = FirewallOperationView::DeleteIpSet { name };
            let read = s.complete(SnapshotSection::IpSets, ConfigurationTarget::Permanent);
            let there = name_map::lookup(s.ipsets.permanent, name) is Some;
            &&& op.validated(s) is Ok == (read && there)
            &&& (op.validated(s) matches Err(OperationErrorView::NothingToDo(_))) == (read && !there)
            &&& (op.validated(s) matches Err(OperationErrorView::Invalid(_))) == !read
        }),
        ({
            let op = FirewallOperationView::DeleteZone { zone: name };
            let fits = s.complete(SnapshotSection::Zones, ConfigurationTarget::Permanent)
                && name_map::lookup(s.permanent, name) is Some && name != s.default_zone;
            op.validated(s) is Ok == fits && (!fits ==> op.validated(s) matches Err(
                OperationErrorView::Invalid(_),
            ))
        }),
{
}

/// Creating and deleting are achieved exactly if the permanent configuration
/// has the object, or does not have it. Where it was not read, that cannot be
/// told.
pub proof fn objects_are_achieved_by_existence(
    s: FirewallSnapshotView,
    name: Seq<char>,
    kind: Seq<char>,
)
    ensures
        ({
            let there = name_map::lookup(s.policies.permanent, name) is Some;
            let read = s.complete(SnapshotSection::Policies, ConfigurationTarget::Permanent);
            let create = FirewallOperationView::CreatePolicy { policy: name };
            let delete = FirewallOperationView::DeletePolicy { policy: name };
            if read {
                create.achieved(s) == Some(there) && delete.achieved(s) == Some(!there)
            } else {
                create.achieved(s) is None && delete.achieved(s) is None
            }
        }),
        ({
            let there = name_map::lookup(s.ipsets.permanent, name) is Some;
            let read = s.complete(SnapshotSection::IpSets, ConfigurationTarget::Permanent);
            let create = FirewallOperationView::CreateIpSet { name, kind };
            let delete = FirewallOperationView::DeleteIpSet { name };
            if read {
                create.achieved(s) == Some(there) && delete.achieved(s) == Some(!there)
            } else {
                create.achieved(s) is None && delete.achieved(s) is None
            }
        }),
{
}

/// The default zone must be a zone of either configuration, and another than
/// it is.
pub proof fn default_zone_must_be_another(s: FirewallSnapshotView, zone: Seq<char>)
    ensures
        ({
            let op = FirewallOperationView::SetDefaultZone { zone };
            let read = s.complete(SnapshotSection::Zones, ConfigurationTarget::RuntimeAndPermanent);
            let known = name_map::lookup(s.runtime, zone) is Some || name_map::lookup(
                s.permanent,
                zone,
            ) is Some;
            &&& op.validated(s) is Ok == (read && known && zone != s.default_zone)
            &&& (op.validated(s) matches Err(OperationErrorView::NothingToDo(_))) == (read && known
                && zone == s.default_zone)
            &&& read && !known ==> op.validated(s) == Err::<(), OperationErrorView>(
                OperationErrorView::UnknownZone(zone),
            )
            &&& (op.validated(s) matches Err(OperationErrorView::Invalid(_))) == !read
        }),
{
}

/// A setting of the whole firewall is nothing to do exactly if it already is
/// as wanted. Storing the runtime is nothing to do exactly if nothing drifted,
/// and a reload always goes ahead.
pub proof fn settings_must_change(s: FirewallSnapshotView, enabled: bool, value: LogDenied)
    ensures
        ({
            let op = FirewallOperationView::SetPanicMode { enabled };
            if s.status.panic_mode == enabled {
                op.validated(s) matches Err(OperationErrorView::NothingToDo(_))
            } else {
                op.validated(s) is Ok
            }
        }),
        ({
            let op = FirewallOperationView::SetLogDenied { value };
            if s.status.log_denied == value {
                op.validated(s) matches Err(OperationErrorView::NothingToDo(_))
            } else {
                op.validated(s) is Ok
            }
        }),
        ({
            let op = FirewallOperationView::RuntimeToPermanent;
            if s.synced() {
                op.validated(s) matches Err(OperationErrorView::NothingToDo(_))
            } else {
                op.validated(s) is Ok
            }
        }),
        FirewallOperationView::Reload.validated(s) is Ok,
{
}

/// What firewalld itself has the last word on goes ahead wherever its part of
/// the snapshot was read: the inside of a service definition, a policy set, a
/// translated direct rule.
pub proof fn left_to_firewalld(op: FirewallOperationView, s: FirewallSnapshotView)
    requires
        op is DeleteService || op is AddServicePort || op is RemoveServicePort
            || op is MigrateDirectRule || op is SetPolicySetEnabled,
    ensures
        ({
            let section = if op is MigrateDirectRule || op is SetPolicySetEnabled {
                SnapshotSection::Policies
            } else {
                SnapshotSection::Services
            };
            if s.complete(section, op.target()) {
                op.validated(s) is Ok
            } else {
                op.validated(s) matches Err(OperationErrorView::Invalid(_))
            }
        }),
{
}

/// What an operation leaves to no choice of its own: panic mode and temporary
/// services belong to the runtime; objects, targets and zones of policies,
/// targets of zones, service definitions and storing the runtime to the
/// permanent configuration; the default zone, logging and a reload to both.
pub proof fn fixed_targets(op: FirewallOperationView)
    ensures
        op is SetPanicMode || op is AddTemporaryService ==> op.target()
            == ConfigurationTarget::Runtime,
        op is CreateZone || op is DeleteZone || op is CreatePolicy || op is DeletePolicy
            || op is CreateIpSet || op is DeleteIpSet || op is CreateService || op is DeleteService
            || op is AddServicePort || op is RemoveServicePort || op is SetZoneTarget
            || op is SetPolicyTarget || op is AddPolicyIngressZone || op is AddPolicyEgressZone
            || op is MigrateDirectRule || op is RuntimeToPermanent ==> op.target()
            == ConfigurationTarget::Permanent,
        op is SetDefaultZone || op is SetLogDenied || op is Reload ==> op.target()
            == ConfigurationTarget::RuntimeAndPermanent,
        op matches FirewallOperationView::SetPolicySetEnabled { target, .. } ==> op.target()
            == target,
{
}

} // verus!
