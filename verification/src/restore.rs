//! Computes the operations that transform the current firewall state into a
//! saved snapshot. The result is a *staged plan* the operator reviews and
//! applies deliberately — restore never runs automatically.
//!
//! Runtime and permanent are diffed **independently**: runtime differences
//! produce runtime-scoped operations and permanent differences produce
//! permanent-scoped ones, so a runtime-only rule is restored without touching
//! the permanent config and vice versa.
//!
//! Scope: per-zone attributes (services, ports, source-ports, protocols,
//! forward ports, rich rules, sources, icmp blocks, masquerade, intra-zone
//! forwarding, icmp-block inversion, and the permanent zone target) plus the
//! default zone. Zone/ipset/policy
//! lifecycle and interface bindings are intentionally not synthesized —
//! moving interfaces or deleting zones during a restore is far riskier than
//! the operator re-checking those by hand.

use vstd::prelude::*;

use crate::address::SourceAddress;
use crate::ids::{IcmpType, IpProtocol, ServiceName, ZoneName};
use crate::lists;
use crate::model::Value;
use crate::name_map;
use crate::name_map::NameMap;
use crate::operation::{FirewallOperation, FirewallOperationView};
use crate::port::{ForwardPort, PortSpec};
use crate::restore::collection::{
    ForwardPorts, IcmpBlocks, Ports, Protocols, RichRules, Services, SourcePorts, Sources,
};
use crate::rich_rule::RichRule;
use crate::snapshot::{ConfigurationTarget, FirewallSnapshot, FirewallSnapshotView};
use crate::zone::{ZoneDetails, ZoneDetailsView};

pub mod collection;
pub mod laws;

verus! {

/// One operation, where it is needed.
pub open spec fn only_if(needed: bool, op: FirewallOperationView) -> Seq<FirewallOperationView> {
    if needed {
        seq![op]
    } else {
        Seq::empty()
    }
}

/// The edits of a zone's collections.
pub open spec fn collection_edits(
    zone: Seq<char>,
    current: ZoneDetailsView,
    wanted: ZoneDetailsView,
    scope: ConfigurationTarget,
) -> Seq<FirewallOperationView> {
    collection::edits::<ServiceName, Services>(zone, current, wanted, scope)
        + collection::edits::<PortSpec, Ports>(zone, current, wanted, scope)
        + collection::edits::<ForwardPort, ForwardPorts>(zone, current, wanted, scope)
        + collection::edits::<RichRule, RichRules>(zone, current, wanted, scope)
        + collection::edits::<SourceAddress, Sources>(zone, current, wanted, scope)
        + collection::edits::<IcmpType, IcmpBlocks>(zone, current, wanted, scope)
        + collection::edits::<PortSpec, SourcePorts>(zone, current, wanted, scope)
        + collection::edits::<IpProtocol, Protocols>(zone, current, wanted, scope)
}

/// The edits of a zone's switches. The zone target is permanent-only in
/// firewalld, so it is only reconciled in the permanent scope.
pub open spec fn switch_edits(
    zone: Seq<char>,
    current: ZoneDetailsView,
    wanted: ZoneDetailsView,
    scope: ConfigurationTarget,
) -> Seq<FirewallOperationView> {
    only_if(
        current.masquerade != wanted.masquerade,
        FirewallOperationView::SetMasquerade { zone, enabled: wanted.masquerade, target: scope },
    ) + only_if(
        current.forward != wanted.forward,
        FirewallOperationView::SetForward { zone, enabled: wanted.forward, target: scope },
    ) + only_if(
        current.icmp_block_inversion != wanted.icmp_block_inversion,
        FirewallOperationView::SetIcmpBlockInversion {
            zone,
            enabled: wanted.icmp_block_inversion,
            target: scope,
        },
    ) + only_if(
        scope == ConfigurationTarget::Permanent && current.target != wanted.target,
        FirewallOperationView::SetZoneTarget { zone, zone_target: wanted.target },
    )
}

/// The edits that bring one zone's details to those wanted.
pub open spec fn zone_edits(
    zone: Seq<char>,
    current: ZoneDetailsView,
    wanted: ZoneDetailsView,
    scope: ConfigurationTarget,
) -> Seq<FirewallOperationView> {
    collection_edits(zone, current, wanted, scope) + switch_edits(zone, current, wanted, scope)
}

/// The edits of the first `n` wanted zones that exist now.
pub open spec fn scope_edits(
    current: Seq<(Seq<char>, ZoneDetailsView)>,
    wanted: Seq<(Seq<char>, ZoneDetailsView)>,
    scope: ConfigurationTarget,
    n: int,
) -> Seq<FirewallOperationView>
    decreases n,
{
    if n <= 0 {
        Seq::empty()
    } else {
        scope_edits(current, wanted, scope, n - 1) + match name_map::lookup(
            current,
            wanted[n - 1].0,
        ) {
            Some(details) => zone_edits(wanted[n - 1].0, details, wanted[n - 1].1, scope),
            None => Seq::empty(),
        }
    }
}

/// The operations that make `current` match `target`: the default zone first,
/// where the wanted one exists in the runtime, and after it the zones of each
/// scope. Zones are neither created nor deleted.
pub open spec fn planned(current: FirewallSnapshotView, target: FirewallSnapshotView) -> Seq<
    FirewallOperationView,
> {
    only_if(
        current.default_zone != target.default_zone && name_map::lookup(
            current.runtime,
            target.default_zone,
        ) is Some,
        FirewallOperationView::SetDefaultZone { zone: target.default_zone },
    ) + scope_edits(
        current.runtime,
        target.runtime,
        ConfigurationTarget::Runtime,
        target.runtime.len() as int,
    ) + scope_edits(
        current.permanent,
        target.permanent,
        ConfigurationTarget::Permanent,
        target.permanent.len() as int,
    )
}

fn push_if(ops: &mut Vec<FirewallOperation>, needed: bool, op: FirewallOperation)
    ensures
        final(ops).deep_view() == old(ops).deep_view() + only_if(needed, op.deep_view()),
{
    let ghost start = ops.deep_view();
    if needed {
        lists::push(ops, op);
        assert(ops.deep_view() =~= start + seq![op.deep_view()]);
    } else {
        assert(start + Seq::<FirewallOperationView>::empty() =~= start);
    }
}

fn diff_collections(
    zone: &ZoneName,
    current: &ZoneDetails,
    target: &ZoneDetails,
    scope: ConfigurationTarget,
    ops: &mut Vec<FirewallOperation>,
)
    ensures
        final(ops).deep_view() == old(ops).deep_view() + collection_edits(
            zone.deep_view(),
            current.deep_view(),
            target.deep_view(),
            scope,
        ),
{
    let ghost start = ops.deep_view();
    let ghost name = zone.deep_view();
    let ghost have = current.deep_view();
    let ghost want = target.deep_view();
    collection::diff::<ServiceName, Services>(zone, current, target, scope, ops);
    collection::diff::<PortSpec, Ports>(zone, current, target, scope, ops);
    collection::diff::<ForwardPort, ForwardPorts>(zone, current, target, scope, ops);
    collection::diff::<RichRule, RichRules>(zone, current, target, scope, ops);
    collection::diff::<SourceAddress, Sources>(zone, current, target, scope, ops);
    collection::diff::<IcmpType, IcmpBlocks>(zone, current, target, scope, ops);
    collection::diff::<PortSpec, SourcePorts>(zone, current, target, scope, ops);
    collection::diff::<IpProtocol, Protocols>(zone, current, target, scope, ops);
    proof {
        let e0 = collection::edits::<ServiceName, Services>(name, have, want, scope);
        let e1 = collection::edits::<PortSpec, Ports>(name, have, want, scope);
        let e2 = collection::edits::<ForwardPort, ForwardPorts>(name, have, want, scope);
        let e3 = collection::edits::<RichRule, RichRules>(name, have, want, scope);
        let e4 = collection::edits::<SourceAddress, Sources>(name, have, want, scope);
        let e5 = collection::edits::<IcmpType, IcmpBlocks>(name, have, want, scope);
        let e6 = collection::edits::<PortSpec, SourcePorts>(name, have, want, scope);
        let e7 = collection::edits::<IpProtocol, Protocols>(name, have, want, scope);
        appended(start, e0, e1);
        appended(start, e0 + e1, e2);
        appended(start, e0 + e1 + e2, e3);
        appended(start, e0 + e1 + e2 + e3, e4);
        appended(start, e0 + e1 + e2 + e3 + e4, e5);
        appended(start, e0 + e1 + e2 + e3 + e4 + e5, e6);
        appended(start, e0 + e1 + e2 + e3 + e4 + e5 + e6, e7);
    }
}

/// Emits the add/remove/set operations that bring one zone's `current`
/// details to `target`, all scoped to the given configuration target.
fn diff_zone(
    zone: &ZoneName,
    current: &ZoneDetails,
    target: &ZoneDetails,
    scope: ConfigurationTarget,
    ops: &mut Vec<FirewallOperation>,
)
    ensures
        final(ops).deep_view() == old(ops).deep_view() + zone_edits(
            zone.deep_view(),
            current.deep_view(),
            target.deep_view(),
            scope,
        ),
{
    let ghost start = ops.deep_view();
    let ghost name = zone.deep_view();
    let ghost have = current.deep_view();
    let ghost want = target.deep_view();
    diff_collections(zone, current, target, scope, ops);
    diff_switches(zone, current, target, scope, ops);
    proof {
        appended(
            start,
            collection_edits(name, have, want, scope),
            switch_edits(name, have, want, scope),
        );
    }
}

fn diff_switches(
    zone: &ZoneName,
    current: &ZoneDetails,
    target: &ZoneDetails,
    scope: ConfigurationTarget,
    ops: &mut Vec<FirewallOperation>,
)
    ensures
        final(ops).deep_view() == old(ops).deep_view() + switch_edits(
            zone.deep_view(),
            current.deep_view(),
            target.deep_view(),
            scope,
        ),
{
    let masquerade = FirewallOperation::SetMasquerade {
        zone: zone.dup(),
        enabled: target.masquerade,
        target: scope,
    };
    let forward = FirewallOperation::SetForward {
        zone: zone.dup(),
        enabled: target.forward,
        target: scope,
    };
    let inversion = FirewallOperation::SetIcmpBlockInversion {
        zone: zone.dup(),
        enabled: target.icmp_block_inversion,
        target: scope,
    };
    let fate = FirewallOperation::SetZoneTarget { zone: zone.dup(), zone_target: target.target };
    let ghost start = ops.deep_view();
    let ghost a = only_if(current.masquerade != target.masquerade, masquerade.deep_view());
    let ghost b = only_if(current.forward != target.forward, forward.deep_view());
    let ghost c = only_if(
        current.icmp_block_inversion != target.icmp_block_inversion,
        inversion.deep_view(),
    );
    let ghost d = only_if(
        scope == ConfigurationTarget::Permanent && current.target != target.target,
        fate.deep_view(),
    );
    push_if(ops, current.masquerade != target.masquerade, masquerade);
    push_if(ops, current.forward != target.forward, forward);
    push_if(ops, current.icmp_block_inversion != target.icmp_block_inversion, inversion);
    push_if(
        ops,
        scope == ConfigurationTarget::Permanent && current.target != target.target,
        fate,
    );
    proof {
        appended(start, a, b);
        appended(start, a + b, c);
        appended(start, a + b + c, d);
    }
}

/// Appending twice is appending the whole.
proof fn appended(
    start: Seq<FirewallOperationView>,
    a: Seq<FirewallOperationView>,
    b: Seq<FirewallOperationView>,
)
    ensures
        start + a + b == start + (a + b),
{
    assert(start + a + b =~= start + (a + b));
}

fn diff_scope(
    current: &NameMap<ZoneName, ZoneDetails>,
    target: &NameMap<ZoneName, ZoneDetails>,
    scope: ConfigurationTarget,
    ops: &mut Vec<FirewallOperation>,
)
    ensures
        final(ops).deep_view() == old(ops).deep_view() + scope_edits(
            current.deep_view(),
            target.deep_view(),
            scope,
            target.deep_view().len() as int,
        ),
{
    let ghost start = ops.deep_view();
    let ghost have = current.deep_view();
    let ghost want = target.deep_view();
    let mut i: usize = 0;
    assert(start + Seq::<FirewallOperationView>::empty() =~= start);
    while i < target.len()
        invariant
            have == current.deep_view(),
            want == target.deep_view(),
            i <= want.len(),
            ops.deep_view() == start + scope_edits(have, want, scope, i as int),
        decreases want.len() - i,
    {
        let zone = target.key(i);
        if let Some(details) = current.get(zone) {
            diff_zone(zone, details, target.value(i), scope, ops);
        }
        assert(ops.deep_view() =~= start + scope_edits(have, want, scope, i + 1));
        i = i + 1;
    }
}

/// Operations to make `current` match `target`. Empty when already equal.
pub fn plan(current: &FirewallSnapshot, target: &FirewallSnapshot) -> (r: Vec<FirewallOperation>)
    ensures
        r.deep_view() == planned(current.deep_view(), target.deep_view()),
{
    let mut ops: Vec<FirewallOperation> = lists::none();
    let moved = !current.default_zone.same(&target.default_zone)
        && current.runtime.contains_key(&target.default_zone);
    push_if(&mut ops, moved, FirewallOperation::SetDefaultZone { zone: target.default_zone.dup() });
    diff_scope(&current.runtime, &target.runtime, ConfigurationTarget::Runtime, &mut ops);
    diff_scope(&current.permanent, &target.permanent, ConfigurationTarget::Permanent, &mut ops);
    assert(ops.deep_view() =~= planned(current.deep_view(), target.deep_view()));
    ops
}

} // verus!
