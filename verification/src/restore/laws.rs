//! What a restore plan achieves.

use vstd::prelude::*;

use crate::address::SourceAddress;
use crate::ids::{IcmpType, IpProtocol, ServiceName};
use crate::lists;
use crate::model::Value;
use crate::name_map;
use crate::operation::laws;
use crate::operation::FirewallOperationView;
use crate::port::{ForwardPort, PortSpec};
use crate::restore;
use crate::restore::collection;
use crate::restore::collection::{
    Collection, ForwardPorts, IcmpBlocks, Ports, Protocols, RichRules, Services, SourcePorts,
    Sources,
};
use crate::rich_rule::RichRule;
use crate::snapshot::{ConfigurationTarget, FirewallSnapshotView};
use crate::zone::ZoneDetailsView;

verus! {

/// The details of a zone after the operations, one after the other.
#[verifier::opaque]
pub open spec fn edited_by(ops: Seq<FirewallOperationView>, z: ZoneDetailsView) -> ZoneDetailsView
    decreases ops.len(),
{
    if ops.len() == 0 {
        z
    } else {
        ops.last().zone_edited(edited_by(ops.drop_last(), z))
    }
}

proof fn edited_in_parts(
    a: Seq<FirewallOperationView>,
    b: Seq<FirewallOperationView>,
    z: ZoneDetailsView,
)
    ensures
        edited_by(a + b, z) == edited_by(b, edited_by(a, z)),
    decreases b.len(),
{
    reveal_with_fuel(edited_by, 2);
    if b.len() == 0 {
        assert(a + b =~= a);
    } else {
        assert((a + b).drop_last() =~= a + b.drop_last());
        edited_in_parts(a, b.drop_last(), z);
    }
}

/// The list without any of the items.
spec fn minus<A>(s: Seq<A>, items: Seq<A>) -> Seq<A>
    decreases items.len(),
{
    if items.len() == 0 {
        s
    } else {
        lists::without(minus(s, items.drop_last()), items.last())
    }
}

proof fn minus_contains<A>(s: Seq<A>, items: Seq<A>, y: A)
    ensures
        minus(s, items).contains(y) == (s.contains(y) && !items.contains(y)),
    decreases items.len(),
{
    if items.len() > 0 {
        let rest = items.drop_last();
        minus_contains(s, rest, y);
        lists::without_contains(minus(s, rest), items.last(), y);
        if items.contains(y) && y != items.last() {
            let i = choose|i: int| 0 <= i < items.len() && items[i] == y;
            assert(rest[i] == y);
        }
        if rest.contains(y) {
            let i = choose|i: int| 0 <= i < rest.len() && rest[i] == y;
            assert(items[i] == y);
        }
        assert(items[items.len() - 1] == items.last());
    }
}

/// The list that the edits of one collection leave.
spec fn reconciled<A>(current: Seq<A>, wanted: Seq<A>) -> Seq<A> {
    minus(lists::union(current, lists::lacking(wanted, current)), lists::lacking(current, wanted))
}

proof fn reconciled_items<A>(current: Seq<A>, wanted: Seq<A>)
    ensures
        laws::same_items(reconciled(current, wanted), wanted),
{
    assert forall|y: A| #[trigger] reconciled(
        current,
        wanted,
    ).contains(y) == wanted.contains(y) by {
        let added = lists::lacking(wanted, current);
        let gone = lists::lacking(current, wanted);
        lists::lacking_contains(wanted, current, y);
        lists::lacking_contains(current, wanted, y);
        lists::union_contains(current, added, y);
        minus_contains(lists::union(current, added), gone, y);
    }
}

proof fn adding_items<T: Value, C: Collection<T>>(
    zone: Seq<char>,
    items: Seq<T::V>,
    target: ConfigurationTarget,
    z: ZoneDetailsView,
)
    ensures
        edited_by(collection::additions::<T, C>(zone, items, target), z) == C::holding(
            z,
            lists::union(C::held(z), items),
        ),
    decreases items.len(),
{
    reveal_with_fuel(edited_by, 2);
    C::replacing_items(z, items, items);
    if items.len() > 0 {
        let ops = collection::additions::<T, C>(zone, items, target);
        let rest = items.drop_last();
        let fewer = lists::union(C::held(z), rest);
        assert(ops.drop_last() =~= collection::additions::<T, C>(zone, rest, target));
        adding_items::<T, C>(zone, rest, target, z);
        C::editing_items(zone, items.last(), target, C::holding(z, fewer));
        C::replacing_items(z, fewer, lists::with(fewer, items.last()));
    }
}

proof fn removing_items<T: Value, C: Collection<T>>(
    zone: Seq<char>,
    items: Seq<T::V>,
    target: ConfigurationTarget,
    z: ZoneDetailsView,
)
    ensures
        edited_by(collection::removals::<T, C>(zone, items, target), z) == C::holding(
            z,
            minus(C::held(z), items),
        ),
    decreases items.len(),
{
    reveal_with_fuel(edited_by, 2);
    C::replacing_items(z, items, items);
    if items.len() > 0 {
        let ops = collection::removals::<T, C>(zone, items, target);
        let rest = items.drop_last();
        let more = minus(C::held(z), rest);
        assert(ops.drop_last() =~= collection::removals::<T, C>(zone, rest, target));
        removing_items::<T, C>(zone, rest, target, z);
        C::editing_items(zone, items.last(), target, C::holding(z, more));
        C::replacing_items(z, more, lists::without(more, items.last()));
    }
}

proof fn reconciling_items<T: Value, C: Collection<T>>(
    zone: Seq<char>,
    current: ZoneDetailsView,
    wanted: ZoneDetailsView,
    target: ConfigurationTarget,
    z: ZoneDetailsView,
)
    requires
        C::held(z) == C::held(current),
    ensures
        edited_by(collection::edits::<T, C>(zone, current, wanted, target), z) == C::holding(
            z,
            reconciled(C::held(current), C::held(wanted)),
        ),
{
    let have = C::held(current);
    let want = C::held(wanted);
    let added = lists::lacking(want, have);
    let gone = lists::lacking(have, want);
    let all = lists::union(have, added);
    let adds = collection::additions::<T, C>(zone, added, target);
    let removes = collection::removals::<T, C>(zone, gone, target);
    edited_in_parts(adds, removes, z);
    adding_items::<T, C>(zone, added, target, z);
    removing_items::<T, C>(zone, gone, target, C::holding(z, all));
    C::replacing_items(z, all, reconciled(have, want));
}

proof fn reconciling_collections(
    zone: Seq<char>,
    current: ZoneDetailsView,
    wanted: ZoneDetailsView,
    target: ConfigurationTarget,
)
    ensures
        edited_by(restore::collection_edits(zone, current, wanted, target), current) == (
        ZoneDetailsView {
            services: reconciled(current.services, wanted.services),
            ports: reconciled(current.ports, wanted.ports),
            forward_ports: reconciled(current.forward_ports, wanted.forward_ports),
            rich_rules: reconciled(current.rich_rules, wanted.rich_rules),
            sources: reconciled(current.sources, wanted.sources),
            icmp_blocks: reconciled(current.icmp_blocks, wanted.icmp_blocks),
            source_ports: reconciled(current.source_ports, wanted.source_ports),
            protocols: reconciled(current.protocols, wanted.protocols),
            ..current
        }),
{
    let z0 = current;
    let e0 = Seq::<FirewallOperationView>::empty();
    let d0 = collection::edits::<ServiceName, Services>(zone, current, wanted, target);
    reconciling_items::<ServiceName, Services>(zone, current, wanted, target, z0);
    let z1 = edited_by(d0, z0);
    edited_in_parts(e0, d0, current);
    let e1 = e0 + d0;
    let d1 = collection::edits::<PortSpec, Ports>(zone, current, wanted, target);
    reconciling_items::<PortSpec, Ports>(zone, current, wanted, target, z1);
    let z2 = edited_by(d1, z1);
    edited_in_parts(e1, d1, current);
    let e2 = e1 + d1;
    let d2 = collection::edits::<ForwardPort, ForwardPorts>(zone, current, wanted, target);
    reconciling_items::<ForwardPort, ForwardPorts>(zone, current, wanted, target, z2);
    let z3 = edited_by(d2, z2);
    edited_in_parts(e2, d2, current);
    let e3 = e2 + d2;
    let d3 = collection::edits::<RichRule, RichRules>(zone, current, wanted, target);
    reconciling_items::<RichRule, RichRules>(zone, current, wanted, target, z3);
    let z4 = edited_by(d3, z3);
    edited_in_parts(e3, d3, current);
    let e4 = e3 + d3;
    let d4 = collection::edits::<SourceAddress, Sources>(zone, current, wanted, target);
    reconciling_items::<SourceAddress, Sources>(zone, current, wanted, target, z4);
    let z5 = edited_by(d4, z4);
    edited_in_parts(e4, d4, current);
    let e5 = e4 + d4;
    let d5 = collection::edits::<IcmpType, IcmpBlocks>(zone, current, wanted, target);
    reconciling_items::<IcmpType, IcmpBlocks>(zone, current, wanted, target, z5);
    let z6 = edited_by(d5, z5);
    edited_in_parts(e5, d5, current);
    let e6 = e5 + d5;
    let d6 = collection::edits::<PortSpec, SourcePorts>(zone, current, wanted, target);
    reconciling_items::<PortSpec, SourcePorts>(zone, current, wanted, target, z6);
    let z7 = edited_by(d6, z6);
    edited_in_parts(e6, d6, current);
    let e7 = e6 + d6;
    let d7 = collection::edits::<IpProtocol, Protocols>(zone, current, wanted, target);
    reconciling_items::<IpProtocol, Protocols>(zone, current, wanted, target, z7);
    let z8 = edited_by(d7, z7);
    edited_in_parts(e7, d7, current);
    let e8 = e7 + d7;
    assert(edited_by(e0, current) == current) by {
        reveal_with_fuel(edited_by, 1);
    }
    assert(e8 =~= restore::collection_edits(zone, current, wanted, target));
}

proof fn one_edit(op: FirewallOperationView, needed: bool, z: ZoneDetailsView)
    ensures
        edited_by(restore::only_if(needed, op), z) == (if needed {
            op.zone_edited(z)
        } else {
            z
        }),
{
    reveal_with_fuel(edited_by, 2);
    if needed {
        let ops = seq![op];
        assert(ops.drop_last() =~= Seq::<FirewallOperationView>::empty());
        assert(edited_by(ops.drop_last(), z) == z);
        assert(ops.last() == op);
    }
}

/// What a zone is after its part of a plan: the collections hold the wanted
/// items, the switches are as wanted, and in the permanent scope so is the
/// target. Its name, priority and interfaces stay.
pub open spec fn restored(
    zone: ZoneDetailsView,
    current: ZoneDetailsView,
    wanted: ZoneDetailsView,
    scope: ConfigurationTarget,
) -> bool {
    &&& zone.name == current.name
    &&& zone.ingress_priority == current.ingress_priority
    &&& zone.interfaces == current.interfaces
    &&& laws::same_items(zone.services, wanted.services)
    &&& laws::same_items(zone.ports, wanted.ports)
    &&& laws::same_items(zone.forward_ports, wanted.forward_ports)
    &&& laws::same_items(zone.rich_rules, wanted.rich_rules)
    &&& laws::same_items(zone.sources, wanted.sources)
    &&& laws::same_items(zone.icmp_blocks, wanted.icmp_blocks)
    &&& laws::same_items(zone.source_ports, wanted.source_ports)
    &&& laws::same_items(zone.protocols, wanted.protocols)
    &&& zone.masquerade == wanted.masquerade
    &&& zone.forward == wanted.forward
    &&& zone.icmp_block_inversion == wanted.icmp_block_inversion
    &&& zone.target == if scope == ConfigurationTarget::Permanent {
        wanted.target
    } else {
        current.target
    }
}

proof fn switching(
    zone: Seq<char>,
    current: ZoneDetailsView,
    wanted: ZoneDetailsView,
    scope: ConfigurationTarget,
    z: ZoneDetailsView,
)
    requires
        z.masquerade == current.masquerade,
        z.forward == current.forward,
        z.icmp_block_inversion == current.icmp_block_inversion,
        z.target == current.target,
    ensures
        edited_by(restore::switch_edits(zone, current, wanted, scope), z) == (ZoneDetailsView {
            masquerade: wanted.masquerade,
            forward: wanted.forward,
            icmp_block_inversion: wanted.icmp_block_inversion,
            target: if scope == ConfigurationTarget::Permanent {
                wanted.target
            } else {
                current.target
            },
            ..z
        }),
{
    let switches = restore::switch_edits(zone, current, wanted, scope);
    let a = FirewallOperationView::SetMasquerade {
        zone,
        enabled: wanted.masquerade,
        target: scope,
    };
    let b = FirewallOperationView::SetForward { zone, enabled: wanted.forward, target: scope };
    let c = FirewallOperationView::SetIcmpBlockInversion {
        zone,
        enabled: wanted.icmp_block_inversion,
        target: scope,
    };
    let d = FirewallOperationView::SetZoneTarget { zone, zone_target: wanted.target };
    let na = current.masquerade != wanted.masquerade;
    let nb = current.forward != wanted.forward;
    let nc = current.icmp_block_inversion != wanted.icmp_block_inversion;
    let nd = scope == ConfigurationTarget::Permanent && current.target != wanted.target;
    let ea = restore::only_if(na, a);
    let eb = restore::only_if(nb, b);
    let ec = restore::only_if(nc, c);
    let ed = restore::only_if(nd, d);
    let z1 = ZoneDetailsView { masquerade: wanted.masquerade, ..z };
    let z2 = ZoneDetailsView { forward: wanted.forward, ..z1 };
    let z3 = ZoneDetailsView { icmp_block_inversion: wanted.icmp_block_inversion, ..z2 };
    let z4 = if nd {
        ZoneDetailsView { target: wanted.target, ..z3 }
    } else {
        z3
    };
    assert(edited_by(ea, z) == z1) by {
        one_edit(a, na, z);
    }
    assert(edited_by(ea + eb, z) == z2) by {
        edited_in_parts(ea, eb, z);
        one_edit(b, nb, z1);
    }
    assert(edited_by(ea + eb + ec, z) == z3) by {
        edited_in_parts(ea + eb, ec, z);
        one_edit(c, nc, z2);
    }
    assert(edited_by(ea + eb + ec + ed, z) == z4) by {
        edited_in_parts(ea + eb + ec, ed, z);
        one_edit(d, nd, z3);
    }
    assert(switches == ea + eb + ec + ed);
}

/// The edits of one zone bring it to what is wanted.
pub proof fn zone_edits_restore(
    zone: Seq<char>,
    current: ZoneDetailsView,
    wanted: ZoneDetailsView,
    scope: ConfigurationTarget,
)
    ensures
        restored(
            edited_by(restore::zone_edits(zone, current, wanted, scope), current),
            current,
            wanted,
            scope,
        ),
{
    let collections = restore::collection_edits(zone, current, wanted, scope);
    let switches = restore::switch_edits(zone, current, wanted, scope);
    reconciling_collections(zone, current, wanted, scope);
    edited_in_parts(collections, switches, current);
    switching(zone, current, wanted, scope, edited_by(collections, current));
    reconciled_items(current.services, wanted.services);
    reconciled_items(current.ports, wanted.ports);
    reconciled_items(current.forward_ports, wanted.forward_ports);
    reconciled_items(current.rich_rules, wanted.rich_rules);
    reconciled_items(current.sources, wanted.sources);
    reconciled_items(current.icmp_blocks, wanted.icmp_blocks);
    reconciled_items(current.source_ports, wanted.source_ports);
    reconciled_items(current.protocols, wanted.protocols);
}

// ---------------------------------------------------------------------------
// All zones of a scope
// ---------------------------------------------------------------------------
/// The zones of a scope after one operation.
pub open spec fn stepped(
    zones: Seq<(Seq<char>, ZoneDetailsView)>,
    op: FirewallOperationView,
    scope: ConfigurationTarget,
) -> Seq<(Seq<char>, ZoneDetailsView)> {
    match op.zone_scope() {
        Some((zone, target)) => if target == scope {
            match name_map::lookup(zones, zone) {
                Some(details) => name_map::put(zones, zone, op.zone_edited(details)),
                None => zones,
            }
        } else {
            zones
        },
        None => zones,
    }
}

/// The zones of a scope after the operations, one after the other.
#[verifier::opaque]
pub open spec fn applied_to(
    zones: Seq<(Seq<char>, ZoneDetailsView)>,
    ops: Seq<FirewallOperationView>,
    scope: ConfigurationTarget,
) -> Seq<(Seq<char>, ZoneDetailsView)>
    decreases ops.len(),
{
    if ops.len() == 0 {
        zones
    } else {
        stepped(applied_to(zones, ops.drop_last(), scope), ops.last(), scope)
    }
}

proof fn applied_in_parts(
    zones: Seq<(Seq<char>, ZoneDetailsView)>,
    a: Seq<FirewallOperationView>,
    b: Seq<FirewallOperationView>,
    scope: ConfigurationTarget,
)
    ensures
        applied_to(zones, a + b, scope) == applied_to(applied_to(zones, a, scope), b, scope),
    decreases b.len(),
{
    reveal_with_fuel(applied_to, 2);
    if b.len() == 0 {
        assert(a + b =~= a);
    } else {
        assert((a + b).drop_last() =~= a + b.drop_last());
        applied_in_parts(zones, a, b.drop_last(), scope);
    }
}

/// An edit of this zone in this scope that binds no interface.
pub open spec fn edits(
    op: FirewallOperationView,
    zone: Seq<char>,
    scope: ConfigurationTarget,
) -> bool {
    &&& op.zone_scope() == Some((zone, scope))
    &&& !(op is AddInterface)
    &&& !(op is RemoveInterface)
}

/// All operations edit this zone in this scope.
#[verifier::opaque]
spec fn all_edit(
    ops: Seq<FirewallOperationView>,
    zone: Seq<char>,
    scope: ConfigurationTarget,
) -> bool {
    forall|i: int| 0 <= i < ops.len() ==> edits(#[trigger] ops[i], zone, scope)
}

/// No operation edits a zone in this scope.
spec fn none_edit(ops: Seq<FirewallOperationView>, scope: ConfigurationTarget) -> bool {
    forall|i: int|
        0 <= i < ops.len() ==> !((#[trigger] ops[i]).zone_scope() matches Some(s) && s.1 == scope)
}

proof fn all_edit_joined(
    a: Seq<FirewallOperationView>,
    b: Seq<FirewallOperationView>,
    zone: Seq<char>,
    scope: ConfigurationTarget,
)
    requires
        all_edit(a, zone, scope),
        all_edit(b, zone, scope),
    ensures
        all_edit(a + b, zone, scope),
{
    reveal(all_edit);
    let ops = a + b;
    assert forall|i: int| 0 <= i < ops.len() implies edits(#[trigger] ops[i], zone, scope) by {
        if i < a.len() {
            assert(ops[i] == a[i]);
        } else {
            assert(ops[i] == b[i - a.len()]);
        }
    }
}

proof fn none_edit_is_idle(
    zones: Seq<(Seq<char>, ZoneDetailsView)>,
    ops: Seq<FirewallOperationView>,
    scope: ConfigurationTarget,
)
    requires
        none_edit(ops, scope),
    ensures
        applied_to(zones, ops, scope) == zones,
    decreases ops.len(),
{
    reveal_with_fuel(applied_to, 2);
    if ops.len() > 0 {
        let rest = ops.drop_last();
        assert forall|i: int| 0 <= i < rest.len() implies !((#[trigger] rest[i]).zone_scope() matches Some(
            s,
        ) && s.1 == scope) by {
            assert(rest[i] == ops[i]);
        }
        none_edit_is_idle(zones, rest, scope);
        assert(ops.last() == ops[ops.len() - 1]);
    }
}

proof fn one_zone_edited(
    zones: Seq<(Seq<char>, ZoneDetailsView)>,
    ops: Seq<FirewallOperationView>,
    zone: Seq<char>,
    details: ZoneDetailsView,
    scope: ConfigurationTarget,
)
    requires
        name_map::sorted(zones),
        name_map::lookup(zones, zone) == Some(details),
        all_edit(ops, zone, scope),
    ensures
        name_map::sorted(applied_to(zones, ops, scope)),
        forall|j: Seq<char>| #[trigger]
            name_map::lookup(applied_to(zones, ops, scope), j) == (if j == zone {
                Some(edited_by(ops, details))
            } else {
                name_map::lookup(zones, j)
            }),
    decreases ops.len(),
{
    reveal(all_edit);
    reveal_with_fuel(applied_to, 2);
    reveal_with_fuel(edited_by, 2);
    if ops.len() > 0 {
        let rest = ops.drop_last();
        assert forall|i: int| 0 <= i < rest.len() implies edits(#[trigger] rest[i], zone, scope) by {
            assert(rest[i] == ops[i]);
        }
        one_zone_edited(zones, rest, zone, details, scope);
        let before = applied_to(zones, rest, scope);
        let op = ops.last();
        assert(op == ops[ops.len() - 1]);
        let edited = op.zone_edited(edited_by(rest, details));
        assert(applied_to(zones, ops, scope) == name_map::put(before, zone, edited));
        name_map::put_sorted(before, zone, edited);
        assert forall|j: Seq<char>| #[trigger]
            name_map::lookup(applied_to(zones, ops, scope), j) == (if j == zone {
                Some(edited_by(ops, details))
            } else {
                name_map::lookup(zones, j)
            }) by {
            name_map::lookup_of_put(before, zone, edited, j);
        }
    }
}

/// What a scope is after its part of a plan: of the first `n` wanted zones
/// those that are there are restored, all others are as they were.
pub open spec fn scope_restored(
    result: Seq<(Seq<char>, ZoneDetailsView)>,
    current: Seq<(Seq<char>, ZoneDetailsView)>,
    wanted: Seq<(Seq<char>, ZoneDetailsView)>,
    scope: ConfigurationTarget,
    n: int,
) -> bool {
    &&& forall|i: int|
        0 <= i < n ==> (name_map::lookup(current, (#[trigger] wanted[i]).0) matches Some(now) ==> (
        name_map::lookup(result, wanted[i].0) matches Some(zone) && restored(
            zone,
            now,
            wanted[i].1,
            scope,
        )))
    &&& forall|j: Seq<char>|
        name_map::lookup(current, j) is None ==> #[trigger] name_map::lookup(result, j) is None
    &&& forall|j: Seq<char>|
        (forall|i: int| 0 <= i < n ==> (#[trigger] wanted[i]).0 != j) ==> #[trigger]
            name_map::lookup(result, j) == name_map::lookup(current, j)
}

proof fn item_edits_stay_in_the_zone<T: Value, C: Collection<T>>(
    zone: Seq<char>,
    current: ZoneDetailsView,
    wanted: ZoneDetailsView,
    scope: ConfigurationTarget,
)
    ensures
        all_edit(collection::edits::<T, C>(zone, current, wanted, scope), zone, scope),
{
    let added = lists::lacking(C::held(wanted), C::held(current));
    let gone = lists::lacking(C::held(current), C::held(wanted));
    let adds = collection::additions::<T, C>(zone, added, scope);
    let removes = collection::removals::<T, C>(zone, gone, scope);
    assert(all_edit(adds, zone, scope)) by {
        reveal(all_edit);
        assert forall|i: int| 0 <= i < adds.len() implies edits(
            #[trigger] adds[i],
            zone,
            scope,
        ) by {
            C::editing_items(zone, added[i], scope, current);
        }
    }
    assert(all_edit(removes, zone, scope)) by {
        reveal(all_edit);
        assert forall|i: int| 0 <= i < removes.len() implies edits(
            #[trigger] removes[i],
            zone,
            scope,
        ) by {
            C::editing_items(zone, gone[i], scope, current);
        }
    }
    all_edit_joined(adds, removes, zone, scope);
}

proof fn switch_edits_stay_in_the_zone(
    zone: Seq<char>,
    current: ZoneDetailsView,
    wanted: ZoneDetailsView,
    scope: ConfigurationTarget,
)
    ensures
        all_edit(restore::switch_edits(zone, current, wanted, scope), zone, scope),
{
    reveal(all_edit);
}

proof fn zone_edits_stay_in_the_zone(
    zone: Seq<char>,
    current: ZoneDetailsView,
    wanted: ZoneDetailsView,
    scope: ConfigurationTarget,
)
    ensures
        all_edit(restore::zone_edits(zone, current, wanted, scope), zone, scope),
{
    let d0 = collection::edits::<ServiceName, Services>(zone, current, wanted, scope);
    item_edits_stay_in_the_zone::<ServiceName, Services>(zone, current, wanted, scope);
    let d1 = collection::edits::<PortSpec, Ports>(zone, current, wanted, scope);
    item_edits_stay_in_the_zone::<PortSpec, Ports>(zone, current, wanted, scope);
    let d2 = collection::edits::<ForwardPort, ForwardPorts>(zone, current, wanted, scope);
    item_edits_stay_in_the_zone::<ForwardPort, ForwardPorts>(zone, current, wanted, scope);
    let d3 = collection::edits::<RichRule, RichRules>(zone, current, wanted, scope);
    item_edits_stay_in_the_zone::<RichRule, RichRules>(zone, current, wanted, scope);
    let d4 = collection::edits::<SourceAddress, Sources>(zone, current, wanted, scope);
    item_edits_stay_in_the_zone::<SourceAddress, Sources>(zone, current, wanted, scope);
    let d5 = collection::edits::<IcmpType, IcmpBlocks>(zone, current, wanted, scope);
    item_edits_stay_in_the_zone::<IcmpType, IcmpBlocks>(zone, current, wanted, scope);
    let d6 = collection::edits::<PortSpec, SourcePorts>(zone, current, wanted, scope);
    item_edits_stay_in_the_zone::<PortSpec, SourcePorts>(zone, current, wanted, scope);
    let d7 = collection::edits::<IpProtocol, Protocols>(zone, current, wanted, scope);
    item_edits_stay_in_the_zone::<IpProtocol, Protocols>(zone, current, wanted, scope);
    all_edit_joined(d0, d1, zone, scope);
    all_edit_joined(d0 + d1, d2, zone, scope);
    all_edit_joined(d0 + d1 + d2, d3, zone, scope);
    all_edit_joined(d0 + d1 + d2 + d3, d4, zone, scope);
    all_edit_joined(d0 + d1 + d2 + d3 + d4, d5, zone, scope);
    all_edit_joined(d0 + d1 + d2 + d3 + d4 + d5, d6, zone, scope);
    all_edit_joined(d0 + d1 + d2 + d3 + d4 + d5 + d6, d7, zone, scope);
    let collections = restore::collection_edits(zone, current, wanted, scope);
    switch_edits_stay_in_the_zone(zone, current, wanted, scope);
    let switches = restore::switch_edits(zone, current, wanted, scope);
    all_edit_joined(collections, switches, zone, scope);
}

proof fn scope_comes_restored(
    current: Seq<(Seq<char>, ZoneDetailsView)>,
    wanted: Seq<(Seq<char>, ZoneDetailsView)>,
    scope: ConfigurationTarget,
    n: int,
)
    requires
        name_map::sorted(current),
        name_map::sorted(wanted),
        0 <= n <= wanted.len(),
    ensures
        ({
            let result = applied_to(
                current,
                restore::scope_edits(current, wanted, scope, n),
                scope,
            );
            name_map::sorted(result) && scope_restored(result, current, wanted, scope, n)
        }),
    decreases n,
{
    let ops = restore::scope_edits(current, wanted, scope, n);
    let result = applied_to(current, ops, scope);
    if n == 0 {
        none_edit_is_idle(current, ops, scope);
    } else {
        scope_comes_restored(current, wanted, scope, n - 1);
        let earlier = restore::scope_edits(current, wanted, scope, n - 1);
        let before = applied_to(current, earlier, scope);
        let (zone, want) = wanted[n - 1];
        assert forall|i: int| 0 <= i < n - 1 implies (#[trigger] wanted[i]).0 != zone by {
            assert(name_map::before(wanted[i].0, wanted[n - 1].0));
            name_map::before_irreflexive(zone);
        }
        assert(name_map::lookup(before, zone) == name_map::lookup(current, zone));
        match name_map::lookup(current, zone) {
            Some(now) => {
                let edits = restore::zone_edits(zone, now, want, scope);
                assert(ops == earlier + edits);
                applied_in_parts(current, earlier, edits, scope);
                zone_edits_stay_in_the_zone(zone, now, want, scope);
                one_zone_edited(before, edits, zone, now, scope);
                zone_edits_restore(zone, now, want, scope);
                assert forall|i: int| 0 <= i < n implies (name_map::lookup(
                    current,
                    (#[trigger] wanted[i]).0,
                ) matches Some(c) ==> (name_map::lookup(result, wanted[i].0) matches Some(z)
                    && restored(z, c, wanted[i].1, scope))) by {
                    if i < n - 1 {
                        assert(wanted[i].0 != zone);
                        assert(name_map::lookup(result, wanted[i].0) == name_map::lookup(
                            before,
                            wanted[i].0,
                        ));
                    }
                }
                assert forall|j: Seq<char>|
                    name_map::lookup(current, j) is None implies #[trigger] name_map::lookup(
                    result,
                    j,
                ) is None by {
                    assert(name_map::lookup(before, j) is None);
                }
                assert forall|j: Seq<char>|
                    (forall|i: int| 0 <= i < n ==> (#[trigger] wanted[i]).0 != j) implies #[trigger]
                    name_map::lookup(result, j) == name_map::lookup(current, j) by {
                    assert(wanted[n - 1].0 != j);
                    assert(name_map::lookup(before, j) == name_map::lookup(current, j));
                }
            },
            None => {
                assert(ops =~= earlier);
                assert forall|j: Seq<char>|
                    (forall|i: int| 0 <= i < n ==> (#[trigger] wanted[i]).0 != j) implies #[trigger]
                    name_map::lookup(result, j) == name_map::lookup(current, j) by {
                    assert forall|i: int| 0 <= i < n - 1 implies (#[trigger] wanted[i]).0 != j by {}
                }
            },
        }
    }
}

proof fn scope_edits_stay_in_the_scope(
    current: Seq<(Seq<char>, ZoneDetailsView)>,
    wanted: Seq<(Seq<char>, ZoneDetailsView)>,
    scope: ConfigurationTarget,
    other: ConfigurationTarget,
    n: int,
)
    requires
        scope != other,
        n <= wanted.len(),
    ensures
        none_edit(restore::scope_edits(current, wanted, scope, n), other),
    decreases n,
{
    if n > 0 {
        scope_edits_stay_in_the_scope(current, wanted, scope, other, n - 1);
        let (zone, want) = wanted[n - 1];
        let earlier = restore::scope_edits(current, wanted, scope, n - 1);
        let ops = restore::scope_edits(current, wanted, scope, n);
        match name_map::lookup(current, zone) {
            Some(now) => {
                let edits = restore::zone_edits(zone, now, want, scope);
                zone_edits_stay_in_the_zone(zone, now, want, scope);
                reveal(all_edit);
                assert forall|i: int| 0 <= i < ops.len() implies !((#[trigger] ops[i]).zone_scope() matches Some(
                    s,
                ) && s.1 == other) by {
                    if i < earlier.len() {
                        assert(ops[i] == earlier[i]);
                    } else {
                        assert(ops[i] == edits[i - earlier.len()]);
                    }
                }
            },
            None => {
                assert(ops =~= earlier);
            },
        }
    }
}

proof fn none_edit_joined(
    a: Seq<FirewallOperationView>,
    b: Seq<FirewallOperationView>,
    scope: ConfigurationTarget,
)
    requires
        none_edit(a, scope),
        none_edit(b, scope),
    ensures
        none_edit(a + b, scope),
{
    let ops = a + b;
    assert forall|i: int| 0 <= i < ops.len() implies !((#[trigger] ops[i]).zone_scope() matches Some(
        s,
    ) && s.1 == scope) by {
        if i < a.len() {
            assert(ops[i] == a[i]);
        } else {
            assert(ops[i] == b[i - a.len()]);
        }
    }
}

/// A plan restores each scope by itself: applied in order, it brings every
/// zone that is there and wanted to what is wanted, and leaves the other zones
/// of the scope as they are.
pub proof fn plan_restores(current: FirewallSnapshotView, target: FirewallSnapshotView)
    requires
        name_map::sorted(current.runtime),
        name_map::sorted(current.permanent),
        name_map::sorted(target.runtime),
        name_map::sorted(target.permanent),
    ensures
        scope_restored(
            applied_to(
                current.runtime,
                restore::planned(current, target),
                ConfigurationTarget::Runtime,
            ),
            current.runtime,
            target.runtime,
            ConfigurationTarget::Runtime,
            target.runtime.len() as int,
        ),
        scope_restored(
            applied_to(
                current.permanent,
                restore::planned(current, target),
                ConfigurationTarget::Permanent,
            ),
            current.permanent,
            target.permanent,
            ConfigurationTarget::Permanent,
            target.permanent.len() as int,
        ),
{
    let runtime = ConfigurationTarget::Runtime;
    let permanent = ConfigurationTarget::Permanent;
    let a = restore::only_if(
        current.default_zone != target.default_zone && name_map::lookup(
            current.runtime,
            target.default_zone,
        ) is Some,
        FirewallOperationView::SetDefaultZone { zone: target.default_zone },
    );
    let n = target.runtime.len() as int;
    let m = target.permanent.len() as int;
    let b = restore::scope_edits(current.runtime, target.runtime, runtime, n);
    let c = restore::scope_edits(current.permanent, target.permanent, permanent, m);
    let ops = restore::planned(current, target);
    assert(ops == a + b + c);
    scope_comes_restored(current.runtime, target.runtime, runtime, n);
    scope_comes_restored(current.permanent, target.permanent, permanent, m);
    scope_edits_stay_in_the_scope(current.runtime, target.runtime, runtime, permanent, n);
    scope_edits_stay_in_the_scope(current.permanent, target.permanent, permanent, runtime, m);
    assert(none_edit(a, runtime) && none_edit(a, permanent));
    applied_in_parts(current.runtime, a + b, c, runtime);
    applied_in_parts(current.runtime, a, b, runtime);
    none_edit_is_idle(current.runtime, a, runtime);
    none_edit_is_idle(applied_to(current.runtime, a + b, runtime), c, runtime);
    none_edit_joined(a, b, permanent);
    applied_in_parts(current.permanent, a + b, c, permanent);
    none_edit_is_idle(current.permanent, a + b, permanent);
}

proof fn nothing_to_edit(zone: Seq<char>, z: ZoneDetailsView, scope: ConfigurationTarget)
    ensures
        restore::zone_edits(zone, z, z, scope).len() == 0,
{
    lists::lacking_none(z.services, z.services);
    lists::lacking_none(z.ports, z.ports);
    lists::lacking_none(z.forward_ports, z.forward_ports);
    lists::lacking_none(z.rich_rules, z.rich_rules);
    lists::lacking_none(z.sources, z.sources);
    lists::lacking_none(z.icmp_blocks, z.icmp_blocks);
    lists::lacking_none(z.source_ports, z.source_ports);
    lists::lacking_none(z.protocols, z.protocols);
}

proof fn nothing_in_the_scope(
    zones: Seq<(Seq<char>, ZoneDetailsView)>,
    scope: ConfigurationTarget,
    n: int,
)
    requires
        name_map::sorted(zones),
        n <= zones.len(),
    ensures
        restore::scope_edits(zones, zones, scope, n).len() == 0,
    decreases n,
{
    if n > 0 {
        nothing_in_the_scope(zones, scope, n - 1);
        name_map::lookup_of_entry(zones, n - 1);
        nothing_to_edit(zones[n - 1].0, zones[n - 1].1, scope);
    }
}

/// A snapshot needs no operations to become itself.
pub proof fn identical_snapshots_need_nothing(s: FirewallSnapshotView)
    requires
        name_map::sorted(s.runtime),
        name_map::sorted(s.permanent),
    ensures
        restore::planned(s, s).len() == 0,
{
    nothing_in_the_scope(s.runtime, ConfigurationTarget::Runtime, s.runtime.len() as int);
    nothing_in_the_scope(s.permanent, ConfigurationTarget::Permanent, s.permanent.len() as int);
}

/// The operation edits a zone of the scope that is there and wanted.
pub open spec fn edits_known(
    op: FirewallOperationView,
    current: Seq<(Seq<char>, ZoneDetailsView)>,
    wanted: Seq<(Seq<char>, ZoneDetailsView)>,
    scope: ConfigurationTarget,
) -> bool {
    exists|i: int|
        0 <= i < wanted.len() && name_map::lookup(current, wanted[i].0) is Some && #[trigger] edits(
            op,
            wanted[i].0,
            scope,
        )
}

proof fn scope_edits_know_their_zones(
    current: Seq<(Seq<char>, ZoneDetailsView)>,
    wanted: Seq<(Seq<char>, ZoneDetailsView)>,
    scope: ConfigurationTarget,
    n: int,
    k: int,
)
    requires
        n <= wanted.len(),
        0 <= k < restore::scope_edits(current, wanted, scope, n).len(),
    ensures
        edits_known(restore::scope_edits(current, wanted, scope, n)[k], current, wanted, scope),
    decreases n,
{
    if n > 0 {
        let (zone, want) = wanted[n - 1];
        let earlier = restore::scope_edits(current, wanted, scope, n - 1);
        let ops = restore::scope_edits(current, wanted, scope, n);
        match name_map::lookup(current, zone) {
            Some(now) => {
                let own = restore::zone_edits(zone, now, want, scope);
                assert(ops == earlier + own);
                if k < earlier.len() {
                    scope_edits_know_their_zones(current, wanted, scope, n - 1, k);
                    assert(ops[k] == earlier[k]);
                } else {
                    zone_edits_stay_in_the_zone(zone, now, want, scope);
                    reveal(all_edit);
                    assert(ops[k] == own[k - earlier.len()]);
                    assert(edits(ops[k], wanted[n - 1].0, scope));
                }
            },
            None => {
                assert(ops =~= earlier);
                scope_edits_know_their_zones(current, wanted, scope, n - 1, k);
            },
        }
    }
}

/// A plan sets the default zone or edits zones that are there in the scope. It
/// binds no interface, and creates or deletes nothing.
pub proof fn plan_edits_known_zones_only(
    current: FirewallSnapshotView,
    target: FirewallSnapshotView,
    k: int,
)
    requires
        0 <= k < restore::planned(current, target).len(),
    ensures
        ({
            let op = restore::planned(current, target)[k];
            ||| op == FirewallOperationView::SetDefaultZone { zone: target.default_zone }
            ||| edits_known(op, current.runtime, target.runtime, ConfigurationTarget::Runtime)
            ||| edits_known(op, current.permanent, target.permanent, ConfigurationTarget::Permanent)
        }),
{
    let a = restore::only_if(
        current.default_zone != target.default_zone && name_map::lookup(
            current.runtime,
            target.default_zone,
        ) is Some,
        FirewallOperationView::SetDefaultZone { zone: target.default_zone },
    );
    let n = target.runtime.len() as int;
    let m = target.permanent.len() as int;
    let runtime = ConfigurationTarget::Runtime;
    let permanent = ConfigurationTarget::Permanent;
    let b = restore::scope_edits(current.runtime, target.runtime, runtime, n);
    let c = restore::scope_edits(current.permanent, target.permanent, permanent, m);
    let ops = restore::planned(current, target);
    assert(ops == a + b + c);
    if k < a.len() {
        assert(ops[k] == a[k]);
    } else if k < a.len() + b.len() {
        assert(ops[k] == b[k - a.len()]);
        scope_edits_know_their_zones(current.runtime, target.runtime, runtime, n, k - a.len());
    } else {
        let j = k - a.len() - b.len();
        assert(ops[k] == c[j]);
        scope_edits_know_their_zones(current.permanent, target.permanent, permanent, m, j);
    }
}

/// A plan sets the default zone, first of all, exactly if another one is wanted
/// that the runtime has; it sets no other.
pub proof fn plan_sets_the_default_zone(
    current: FirewallSnapshotView,
    target: FirewallSnapshotView,
    k: int,
)
    requires
        0 <= k < restore::planned(current, target).len(),
    ensures
        (restore::planned(current, target)[k] is SetDefaultZone) == (k == 0 && current.default_zone
            != target.default_zone && name_map::lookup(
            current.runtime,
            target.default_zone,
        ) is Some),
        restore::planned(current, target)[k] is SetDefaultZone
            ==> restore::planned(current, target)[k] == (FirewallOperationView::SetDefaultZone {
            zone: target.default_zone,
        }),
{
    let moved = current.default_zone != target.default_zone && name_map::lookup(
        current.runtime,
        target.default_zone,
    ) is Some;
    let a = restore::only_if(
        moved,
        FirewallOperationView::SetDefaultZone { zone: target.default_zone },
    );
    let n = target.runtime.len() as int;
    let m = target.permanent.len() as int;
    let runtime = ConfigurationTarget::Runtime;
    let permanent = ConfigurationTarget::Permanent;
    let b = restore::scope_edits(current.runtime, target.runtime, runtime, n);
    let c = restore::scope_edits(current.permanent, target.permanent, permanent, m);
    let ops = restore::planned(current, target);
    assert(ops == a + b + c);
    if k < a.len() {
        assert(ops[k] == a[k]);
    } else if k < a.len() + b.len() {
        assert(ops[k] == b[k - a.len()]);
        scope_edits_know_their_zones(current.runtime, target.runtime, runtime, n, k - a.len());
    } else {
        let j = k - a.len() - b.len();
        assert(ops[k] == c[j]);
        scope_edits_know_their_zones(current.permanent, target.permanent, permanent, m, j);
    }
}

/// Where another default zone is wanted that the runtime has, the plan starts
/// with setting it.
pub proof fn plan_starts_with_the_default_zone(
    current: FirewallSnapshotView,
    target: FirewallSnapshotView,
)
    requires
        current.default_zone != target.default_zone,
        name_map::lookup(current.runtime, target.default_zone) is Some,
    ensures
        restore::planned(current, target).len() > 0,
        restore::planned(current, target)[0] == (FirewallOperationView::SetDefaultZone {
            zone: target.default_zone,
        }),
{
}

} // verus!
