//! What holds of all operations: retargeting, inverting, narrowing, judging.

use vstd::prelude::*;

use crate::lists;
use crate::name_map;
use crate::operation::check;
use crate::operation::{FirewallOperationView, OperationErrorView};
use crate::policy::PolicyDetailsView;
use crate::snapshot::{ConfigurationTarget, FirewallSnapshotView};
use crate::zone::ZoneDetailsView;

verus! {

#[verifier::opaque]
spec fn retargets_cleanly(
    op: FirewallOperationView,
    target: ConfigurationTarget,
    other: ConfigurationTarget,
) -> bool {
    &&& op.retargeted(target) is Some == op.retargeted(other) is Some
    &&& op.retargeted(target) matches Some(changed) ==> changed.target() == target
        && changed.retargeted(op.target()) == Some(op)
}

/// Retargeting an operation changes its target and nothing else: the result
/// has the target, and retargeting it back gives the operation again. Whether
/// an operation can be retargeted does not depend on the target.
pub proof fn retargeting_changes_only_the_target(
    op: FirewallOperationView,
    target: ConfigurationTarget,
    other: ConfigurationTarget,
)
    ensures
        op.retargeted(target) is Some == op.retargeted(other) is Some,
        op.retargeted(target) matches Some(changed) ==> changed.target() == target
            && changed.retargeted(op.target()) == Some(op),
{
    if op is AddService || op is AddTemporaryService || op is RemoveService || op is AddPort
        || op is RemovePort || op is SetDefaultZone || op is SetMasquerade
        || op is SetZoneTarget {
        assert(retargets_cleanly(op, target, other)) by {
            reveal(retargets_cleanly);
        }
    } else if op is AddSourcePort || op is RemoveSourcePort || op is AddProtocol
        || op is RemoveProtocol || op is SetForward || op is SetIcmpBlockInversion
        || op is AddForwardPort || op is RemoveForwardPort {
        assert(retargets_cleanly(op, target, other)) by {
            reveal(retargets_cleanly);
        }
    } else if op is AddRichRule || op is RemoveRichRule || op is AddInterface
        || op is RemoveInterface || op is AddSource || op is RemoveSource || op is AddIcmpBlock
        || op is RemoveIcmpBlock {
        assert(retargets_cleanly(op, target, other)) by {
            reveal(retargets_cleanly);
        }
    } else if op is CreateService || op is DeleteService || op is AddServicePort
        || op is RemoveServicePort || op is CreatePolicy || op is DeletePolicy
        || op is MigrateDirectRule || op is SetPolicyTarget {
        assert(retargets_cleanly(op, target, other)) by {
            reveal(retargets_cleanly);
        }
    } else if op is AddPolicyIngressZone || op is AddPolicyEgressZone || op is AddPolicyService
        || op is RemovePolicyService || op is SetPolicySetEnabled || op is CreateIpSet
        || op is DeleteIpSet || op is AddIpSetEntry {
        assert(retargets_cleanly(op, target, other)) by {
            reveal(retargets_cleanly);
        }
    } else {
        assert(retargets_cleanly(op, target, other)) by {
            reveal(retargets_cleanly);
        }
    }
    reveal(retargets_cleanly);
}

/// The inverse of an operation has the operation's target.
pub proof fn inverse_keeps_the_target(op: FirewallOperationView)
    ensures
        op.inverted(op.target()) matches Some(inverse) ==> inverse.target() == op.target(),
{
}

#[verifier::opaque]
spec fn inverts_cleanly(op: FirewallOperationView) -> bool {
    op.inverted(op.target()) matches Some(inverse) ==> inverse.inverted(inverse.target()) == Some(
        op,
    )
}

/// Inverting twice gives the operation back. A temporary service is the
/// exception: removing it leaves no trace of its timeout.
pub proof fn inverse_of_inverse(op: FirewallOperationView)
    requires
        !(op is AddTemporaryService),
    ensures
        op.inverted(op.target()) matches Some(inverse) ==> inverse.inverted(inverse.target())
            == Some(op),
{
    if op is AddService || op is AddTemporaryService || op is RemoveService || op is AddPort
        || op is RemovePort || op is SetDefaultZone || op is SetMasquerade
        || op is SetZoneTarget {
        assert(inverts_cleanly(op)) by {
            reveal(inverts_cleanly);
        }
    } else if op is AddSourcePort || op is RemoveSourcePort || op is AddProtocol
        || op is RemoveProtocol || op is SetForward || op is SetIcmpBlockInversion
        || op is AddForwardPort || op is RemoveForwardPort {
        assert(inverts_cleanly(op)) by {
            reveal(inverts_cleanly);
        }
    } else if op is AddRichRule || op is RemoveRichRule || op is AddInterface
        || op is RemoveInterface || op is AddSource || op is RemoveSource || op is AddIcmpBlock
        || op is RemoveIcmpBlock {
        assert(inverts_cleanly(op)) by {
            reveal(inverts_cleanly);
        }
    } else if op is CreateService || op is DeleteService || op is AddServicePort
        || op is RemoveServicePort || op is CreatePolicy || op is DeletePolicy
        || op is MigrateDirectRule || op is SetPolicyTarget {
        assert(inverts_cleanly(op)) by {
            reveal(inverts_cleanly);
        }
    } else if op is AddPolicyIngressZone || op is AddPolicyEgressZone || op is AddPolicyService
        || op is RemovePolicyService || op is SetPolicySetEnabled || op is CreateIpSet
        || op is DeleteIpSet || op is AddIpSetEntry {
        assert(inverts_cleanly(op)) by {
            reveal(inverts_cleanly);
        }
    } else {
        assert(inverts_cleanly(op)) by {
            reveal(inverts_cleanly);
        }
    }
    reveal(inverts_cleanly);
}

/// The runtime-scoped inverse touches the runtime alone, except for service
/// definitions, which exist in the permanent scope only.
pub proof fn runtime_inverse_touches_the_runtime(op: FirewallOperationView)
    ensures
        op.inverted(ConfigurationTarget::Runtime) matches Some(inverse) ==> if op is AddServicePort
            || op is RemoveServicePort {
            inverse.target() == ConfigurationTarget::Permanent
        } else {
            inverse.target() == ConfigurationTarget::Runtime
        },
{
}

/// Every operation that moves traffic under another zone carries a
/// connectivity warning.
pub proof fn rezoning_warns(op: FirewallOperationView)
    requires
        op is AddInterface || op is RemoveInterface || op is AddSource || op is RemoveSource
            || op is SetDefaultZone,
    ensures
        op.warning() is Some,
{
}

/// Narrowing leaves an operation as it is, or takes away the one scope that
/// already is as desired. It never touches an operation for a single scope,
/// and never one whose part of the snapshot is not known.
pub proof fn narrowing_drops_satisfied_scopes_only(
    op: FirewallOperationView,
    s: FirewallSnapshotView,
)
    ensures
        op.target() != ConfigurationTarget::RuntimeAndPermanent ==> op.narrowed(s) == op,
        op.narrowing_section() matches Some(section) && !s.complete(
            section,
            ConfigurationTarget::RuntimeAndPermanent,
        ) ==> op.narrowed(s) == op,
        op.narrowed(s) != op ==> {
            ||| op.needs(s) == Some((true, false)) && op.retargeted(ConfigurationTarget::Runtime)
                == Some(op.narrowed(s))
            ||| op.needs(s) == Some((false, true)) && op.retargeted(ConfigurationTarget::Permanent)
                == Some(op.narrowed(s))
        },
        op.narrowed(s).narrowed(s) == op.narrowed(s),
{
    retargeting_changes_only_the_target(op, ConfigurationTarget::Runtime, op.target());
    retargeting_changes_only_the_target(op, ConfigurationTarget::Permanent, op.target());
}

/// An edit of a zone is refused as redundant exactly if its postcondition
/// already holds and every targeted scope has the zone.
pub proof fn redundant_exactly_if_achieved(op: FirewallOperationView, s: FirewallSnapshotView)
    requires
        op.zone_edit() is Some,
        op.probe() is Some,
    ensures
        op.zone_edit() matches Some((zone, _)) ==> (op.validated(s) matches Err(
            OperationErrorView::NothingToDo(_),
        )) == (op.achieved(s) == Some(true) && check::in_scopes(
            op.target(),
            name_map::lookup(s.runtime, zone) is Some,
            name_map::lookup(s.permanent, zone) is Some,
        )),
{
}

// ---------------------------------------------------------------------------
// Edits of a zone
// ---------------------------------------------------------------------------
/// Both lists hold the same items.
pub open spec fn same_items<A>(a: Seq<A>, b: Seq<A>) -> bool {
    forall|x: A| #[trigger] a.contains(x) == b.contains(x)
}

/// The zones differ at most in the order and repetition of the items in their
/// lists.
pub open spec fn alike(a: ZoneDetailsView, b: ZoneDetailsView) -> bool {
    &&& a.name == b.name
    &&& a.target == b.target
    &&& a.ingress_priority == b.ingress_priority
    &&& a.masquerade == b.masquerade
    &&& a.forward == b.forward
    &&& a.icmp_block_inversion == b.icmp_block_inversion
    &&& same_items(a.services, b.services)
    &&& same_items(a.ports, b.ports)
    &&& same_items(a.source_ports, b.source_ports)
    &&& same_items(a.protocols, b.protocols)
    &&& same_items(a.forward_ports, b.forward_ports)
    &&& same_items(a.rich_rules, b.rich_rules)
    &&& same_items(a.interfaces, b.interfaces)
    &&& same_items(a.sources, b.sources)
    &&& same_items(a.icmp_blocks, b.icmp_blocks)
}

/// After an edit the zone is as the edit wants it: an added item is there, a
/// removed one is not, a setting is set.
pub proof fn edit_meets_its_probe(op: FirewallOperationView, z: ZoneDetailsView)
    ensures
        op.probe() matches Some(adding) ==> op.item_in(op.zone_edited(z)) == adding,
{
    match op {
        FirewallOperationView::AddService { service, .. } => {
            lists::with_contains(z.services, service, service);
        },
        FirewallOperationView::RemoveService { service, .. } => {
            lists::without_contains(z.services, service, service);
        },
        FirewallOperationView::AddPort { port, .. } => {
            lists::with_contains(z.ports, port, port);
        },
        FirewallOperationView::RemovePort { port, .. } => {
            lists::without_contains(z.ports, port, port);
        },
        FirewallOperationView::AddSourcePort { port, .. } => {
            lists::with_contains(z.source_ports, port, port);
        },
        FirewallOperationView::RemoveSourcePort { port, .. } => {
            lists::without_contains(z.source_ports, port, port);
        },
        FirewallOperationView::AddProtocol { protocol, .. } => {
            lists::with_contains(z.protocols, protocol, protocol);
        },
        FirewallOperationView::RemoveProtocol { protocol, .. } => {
            lists::without_contains(z.protocols, protocol, protocol);
        },
        FirewallOperationView::AddForwardPort { forward, .. } => {
            lists::with_contains(z.forward_ports, forward, forward);
        },
        FirewallOperationView::RemoveForwardPort { forward, .. } => {
            lists::without_contains(z.forward_ports, forward, forward);
        },
        FirewallOperationView::AddRichRule { rule, .. } => {
            lists::with_contains(z.rich_rules, rule, rule);
        },
        FirewallOperationView::RemoveRichRule { rule, .. } => {
            lists::without_contains(z.rich_rules, rule, rule);
        },
        FirewallOperationView::AddInterface { interface, .. } => {
            lists::with_contains(z.interfaces, interface, interface);
        },
        FirewallOperationView::RemoveInterface { interface, .. } => {
            lists::without_contains(z.interfaces, interface, interface);
        },
        FirewallOperationView::AddSource { source, .. } => {
            lists::with_contains(z.sources, source, source);
        },
        FirewallOperationView::RemoveSource { source, .. } => {
            lists::without_contains(z.sources, source, source);
        },
        FirewallOperationView::AddIcmpBlock { icmp, .. } => {
            lists::with_contains(z.icmp_blocks, icmp, icmp);
        },
        FirewallOperationView::RemoveIcmpBlock { icmp, .. } => {
            lists::without_contains(z.icmp_blocks, icmp, icmp);
        },
        _ => {},
    }
}

/// An edit that finds the zone as it wants it leaves the zone as it is.
pub proof fn redundant_edit_changes_nothing(op: FirewallOperationView, z: ZoneDetailsView)
    requires
        op.probe() == Some(op.item_in(z)),
    ensures
        op.zone_edited(z) == z,
{
    match op {
        FirewallOperationView::RemoveService { service, .. } => {
            lists::without_of_absent(z.services, service);
        },
        FirewallOperationView::RemovePort { port, .. } => {
            lists::without_of_absent(z.ports, port);
        },
        FirewallOperationView::RemoveSourcePort { port, .. } => {
            lists::without_of_absent(z.source_ports, port);
        },
        FirewallOperationView::RemoveProtocol { protocol, .. } => {
            lists::without_of_absent(z.protocols, protocol);
        },
        FirewallOperationView::RemoveForwardPort { forward, .. } => {
            lists::without_of_absent(z.forward_ports, forward);
        },
        FirewallOperationView::RemoveRichRule { rule, .. } => {
            lists::without_of_absent(z.rich_rules, rule);
        },
        FirewallOperationView::RemoveInterface { interface, .. } => {
            lists::without_of_absent(z.interfaces, interface);
        },
        FirewallOperationView::RemoveSource { source, .. } => {
            lists::without_of_absent(z.sources, source);
        },
        FirewallOperationView::RemoveIcmpBlock { icmp, .. } => {
            lists::without_of_absent(z.icmp_blocks, icmp);
        },
        _ => {},
    }
}

/// The inverse of an edit that added something or changed a setting gives the
/// zone back exactly as it was.
pub proof fn inverse_undoes_an_addition(
    op: FirewallOperationView,
    target: ConfigurationTarget,
    z: ZoneDetailsView,
)
    requires
        op.zone_edit() matches Some(edit) && edit.1,
        !op.item_in(z),
    ensures
        op.inverted(target) matches Some(inverse) && inverse.zone_edited(op.zone_edited(z)) == z,
{
    match op {
        FirewallOperationView::AddTemporaryService { service, .. } => {
            lists::without_undoes_with(z.services, service);
        },
        FirewallOperationView::AddService { service, .. } => {
            lists::without_undoes_with(z.services, service);
        },
        FirewallOperationView::AddPort { port, .. } => {
            lists::without_undoes_with(z.ports, port);
        },
        FirewallOperationView::AddSourcePort { port, .. } => {
            lists::without_undoes_with(z.source_ports, port);
        },
        FirewallOperationView::AddProtocol { protocol, .. } => {
            lists::without_undoes_with(z.protocols, protocol);
        },
        FirewallOperationView::AddForwardPort { forward, .. } => {
            lists::without_undoes_with(z.forward_ports, forward);
        },
        FirewallOperationView::AddRichRule { rule, .. } => {
            lists::without_undoes_with(z.rich_rules, rule);
        },
        FirewallOperationView::AddInterface { interface, .. } => {
            lists::without_undoes_with(z.interfaces, interface);
        },
        FirewallOperationView::AddSource { source, .. } => {
            lists::without_undoes_with(z.sources, source);
        },
        FirewallOperationView::AddIcmpBlock { icmp, .. } => {
            lists::without_undoes_with(z.icmp_blocks, icmp);
        },
        _ => {},
    }
}

/// An item that is removed and added again leaves the same items.
pub proof fn items_return<A>(s: Seq<A>, x: A)
    requires
        s.contains(x),
    ensures
        same_items(lists::with(lists::without(s, x), x), s),
{
    assert forall|y: A| #[trigger] lists::with(lists::without(s, x), x).contains(y) == s.contains(
        y,
    ) by {
        lists::without_contains(s, x, y);
        lists::with_contains(lists::without(s, x), x, y);
    }
}

/// The inverse of an edit that removed something brings it back. It then
/// stands at the end of its list.
pub proof fn inverse_undoes_a_removal(
    op: FirewallOperationView,
    target: ConfigurationTarget,
    z: ZoneDetailsView,
)
    requires
        op.zone_edit() matches Some(edit) && !edit.1,
        op.item_in(z),
    ensures
        op.inverted(target) matches Some(inverse) && alike(
            inverse.zone_edited(op.zone_edited(z)),
            z,
        ),
{
    match op {
        FirewallOperationView::RemoveService { service, .. } => {
            items_return(z.services, service);
        },
        FirewallOperationView::RemovePort { port, .. } => {
            items_return(z.ports, port);
        },
        FirewallOperationView::RemoveSourcePort { port, .. } => {
            items_return(z.source_ports, port);
        },
        FirewallOperationView::RemoveProtocol { protocol, .. } => {
            items_return(z.protocols, protocol);
        },
        FirewallOperationView::RemoveForwardPort { forward, .. } => {
            items_return(z.forward_ports, forward);
        },
        FirewallOperationView::RemoveRichRule { rule, .. } => {
            items_return(z.rich_rules, rule);
        },
        FirewallOperationView::RemoveInterface { interface, .. } => {
            items_return(z.interfaces, interface);
        },
        FirewallOperationView::RemoveSource { source, .. } => {
            items_return(z.sources, source);
        },
        FirewallOperationView::RemoveIcmpBlock { icmp, .. } => {
            items_return(z.icmp_blocks, icmp);
        },
        _ => {},
    }
}

// ---------------------------------------------------------------------------
// Edits of a policy
// ---------------------------------------------------------------------------
/// The policies differ at most in the order and repetition of their services.
pub open spec fn policies_alike(a: PolicyDetailsView, b: PolicyDetailsView) -> bool {
    &&& a == PolicyDetailsView { services: a.services, ..b }
    &&& same_items(a.services, b.services)
}

/// The inverse of an edit that added a service to a policy gives the policy
/// back exactly as it was.
pub proof fn inverse_undoes_a_policy_addition(
    op: FirewallOperationView,
    target: ConfigurationTarget,
    p: PolicyDetailsView,
)
    requires
        op matches FirewallOperationView::AddPolicyService { service, .. } && !p.services.contains(
            service,
        ),
    ensures
        op.inverted(target) matches Some(inverse) && inverse.policy_edited(op.policy_edited(p))
            == p,
{
    if let FirewallOperationView::AddPolicyService { service, .. } = op {
        lists::without_undoes_with(p.services, service);
    }
}

/// The inverse of an edit that removed a service from a policy brings it back.
/// It then stands at the end of the list.
pub proof fn inverse_undoes_a_policy_removal(
    op: FirewallOperationView,
    target: ConfigurationTarget,
    p: PolicyDetailsView,
)
    requires
        op matches FirewallOperationView::RemovePolicyService { service, .. }
            && p.services.contains(service),
    ensures
        op.inverted(target) matches Some(inverse) && policies_alike(
            inverse.policy_edited(op.policy_edited(p)),
            p,
        ),
{
    if let FirewallOperationView::RemovePolicyService { service, .. } = op {
        items_return(p.services, service);
    }
}

#[verifier::opaque]
spec fn opposed(op: FirewallOperationView, s: FirewallSnapshotView) -> bool {
    op.inverted(op.target()) matches Some(inverse) ==> match op.achieved(s) {
        Some(b) => inverse.achieved(s) == Some(!b),
        None => inverse.achieved(s) is None,
    }
}

/// In a single scope an operation and its inverse want opposite things: where
/// the desired state of one is visible, that of the other is not, and where
/// one cannot be told, neither can the other. A temporary service is the
/// exception: its inverse can be told, it cannot.
pub proof fn inverse_wants_the_opposite(op: FirewallOperationView, s: FirewallSnapshotView)
    requires
        op.target() != ConfigurationTarget::RuntimeAndPermanent,
        !(op is AddTemporaryService),
    ensures
        op.inverted(op.target()) matches Some(inverse) ==> match op.achieved(s) {
            Some(b) => inverse.achieved(s) == Some(!b),
            None => inverse.achieved(s) is None,
        },
{
    if op is AddService || op is RemoveService || op is AddPort || op is RemovePort
        || op is SetMasquerade {
        assert(opposed(op, s)) by {
            reveal(opposed);
        }
    } else if op is AddSourcePort || op is RemoveSourcePort || op is AddProtocol
        || op is RemoveProtocol || op is SetForward || op is SetIcmpBlockInversion
        || op is AddForwardPort || op is RemoveForwardPort {
        assert(opposed(op, s)) by {
            reveal(opposed);
        }
    } else if op is AddRichRule || op is RemoveRichRule || op is AddInterface
        || op is RemoveInterface || op is AddSource || op is RemoveSource || op is AddIcmpBlock
        || op is RemoveIcmpBlock {
        assert(opposed(op, s)) by {
            reveal(opposed);
        }
    } else {
        assert(opposed(op, s)) by {
            reveal(opposed);
        }
    }
    reveal(opposed);
}

/// Only edits of zones, of a policy's services, of a service's ports, of an
/// ipset's entries, and panic mode can be inverted. What creates, deletes,
/// targets, stores or reloads cannot.
pub proof fn only_edits_can_be_inverted(op: FirewallOperationView, target: ConfigurationTarget)
    ensures
        op.inverted(target) is Some == (op.zone_edit() is Some || op is AddPolicyService
            || op is RemovePolicyService || op is AddServicePort || op is RemoveServicePort
            || op is AddIpSetEntry || op is RemoveIpSetEntry || op is SetPanicMode),
{
}

/// The inverse of an edit of an ipset takes the same entry of the same ipset
/// out or in.
pub proof fn inverse_of_an_entry(name: Seq<char>, entry: Seq<char>, target: ConfigurationTarget)
    ensures
        (FirewallOperationView::AddIpSetEntry { name, entry, target }).inverted(target) == Some(
            FirewallOperationView::RemoveIpSetEntry { name, entry, target },
        ),
        (FirewallOperationView::RemoveIpSetEntry { name, entry, target }).inverted(target) == Some(
            FirewallOperationView::AddIpSetEntry { name, entry, target },
        ),
{
}

} // verus!
