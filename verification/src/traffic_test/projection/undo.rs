//! What undoing an operation gives back.

use vstd::prelude::*;

use crate::lists;
use crate::name_map;
use crate::operation::laws;
use crate::operation::FirewallOperationView;
use crate::operation_effect::OperationEffectView;
use crate::policy::PolicyDetailsView;
use crate::service::ServiceDefinitionView;
use crate::snapshot::{ConfigurationTarget, FirewallSnapshotView};
use crate::traffic_test::projection;
use crate::traffic_test::projection::ProjectionStateView;
use crate::zone::{ActiveZoneView, ZoneDetailsView};

verus! {

/// The names increase strictly in every map that an edit goes to.
pub open spec fn ordered(state: ProjectionStateView) -> bool {
    &&& name_map::sorted(state.snapshot.runtime)
    &&& name_map::sorted(state.snapshot.permanent)
    &&& name_map::sorted(state.snapshot.active)
    &&& name_map::sorted(state.snapshot.policies.runtime)
    &&& name_map::sorted(state.snapshot.policies.permanent)
    &&& name_map::sorted(state.service_definitions_permanent)
}

/// The zone counts as active with what the runtime binds to it.
pub open spec fn in_step(state: ProjectionStateView, zone: Seq<char>) -> bool {
    let s = state.snapshot;
    projection::synced(s.active, s.runtime, zone) == s.active
}

/// In every targeted scope the item of the operation is there, or in every one
/// it is not.
pub open spec fn finds(
    state: ProjectionStateView,
    op: FirewallOperationView,
    present: bool,
) -> bool {
    let s = state.snapshot;
    let runtime = projection::reaches_runtime(op.target());
    let permanent = projection::reaches_permanent(op.target());
    match op {
        FirewallOperationView::AddPolicyService { policy, service, .. }
        | FirewallOperationView::RemovePolicyService { policy, service, .. } => {
            &&& runtime ==> (name_map::lookup(s.policies.runtime, policy) matches Some(p)
                ==> p.services.contains(service) == present)
            &&& permanent ==> (name_map::lookup(s.policies.permanent, policy) matches Some(p)
                ==> p.services.contains(service) == present)
        },
        FirewallOperationView::AddServicePort { service, port }
        | FirewallOperationView::RemoveServicePort { service, port } => {
            name_map::lookup(state.service_definitions_permanent, service) matches Some(d)
                ==> d.ports.contains(port) == present
        },
        FirewallOperationView::SetPanicMode { enabled } => {
            (s.status.panic_mode == enabled) == present
        },
        _ => op.zone_edit() matches Some((zone, _)) ==> {
            &&& runtime ==> (name_map::lookup(s.runtime, zone) matches Some(z) ==> op.item_in(z)
                == present)
            &&& permanent ==> (name_map::lookup(s.permanent, zone) matches Some(z) ==> op.item_in(z)
                == present)
        },
    }
}

/// The operation takes an item away.
pub open spec fn removes(op: FirewallOperationView) -> bool {
    ||| op is RemovePolicyService
    ||| op is RemoveServicePort
    ||| op.zone_edit() matches Some((_, adding)) && !adding
}

/// Both maps have the same names, with values that are alike.
pub open spec fn maps_alike<W>(
    a: Seq<(Seq<char>, W)>,
    b: Seq<(Seq<char>, W)>,
    alike: spec_fn(W, W) -> bool,
) -> bool {
    forall|k: Seq<char>|
        match (#[trigger] name_map::lookup(a, k), name_map::lookup(b, k)) {
            (Some(x), Some(y)) => alike(x, y),
            (None, None) => true,
            _ => false,
        }
}

/// The bindings differ at most in the order and repetition of their items.
pub open spec fn bindings_alike(a: ActiveZoneView, b: ActiveZoneView) -> bool {
    laws::same_items(a.interfaces, b.interfaces) && laws::same_items(a.sources, b.sources)
}

/// The definitions differ at most in the order and repetition of their ports.
pub open spec fn definitions_alike(a: ServiceDefinitionView, b: ServiceDefinitionView) -> bool {
    a == (ServiceDefinitionView { ports: a.ports, ..b }) && laws::same_items(a.ports, b.ports)
}

/// The states differ at most in the order and repetition of the items in their
/// lists.
pub open spec fn states_alike(a: ProjectionStateView, b: ProjectionStateView) -> bool {
    let s = a.snapshot;
    let t = b.snapshot;
    &&& maps_alike(s.runtime, t.runtime, |x, y| laws::alike(x, y))
    &&& maps_alike(s.permanent, t.permanent, |x, y| laws::alike(x, y))
    &&& maps_alike(s.active, t.active, |x, y| bindings_alike(x, y))
    &&& maps_alike(
        s.policies.runtime,
        t.policies.runtime,
        |x, y| laws::policies_alike(x, y),
    )
    &&& maps_alike(
        s.policies.permanent,
        t.policies.permanent,
        |x, y| laws::policies_alike(x, y),
    )
    &&& maps_alike(
        a.service_definitions_permanent,
        b.service_definitions_permanent,
        |x, y| definitions_alike(x, y),
    )
    &&& a == ProjectionStateView {
        snapshot: FirewallSnapshotView {
            runtime: s.runtime,
            permanent: s.permanent,
            active: s.active,
            policies: s.policies,
            ..t
        },
        service_definitions_permanent: a.service_definitions_permanent,
        ..b
    }
}

proof fn maps_alike_to_themselves<W>(m: Seq<(Seq<char>, W)>, alike: spec_fn(W, W) -> bool)
    requires
        forall|x: W| #[trigger] alike(x, x),
    ensures
        maps_alike(m, m, alike),
{
}

proof fn maps_alike_after_put<W>(
    m: Seq<(Seq<char>, W)>,
    k: Seq<char>,
    v: W,
    alike: spec_fn(W, W) -> bool,
)
    requires
        name_map::sorted(m),
        forall|x: W| #[trigger] alike(x, x),
        name_map::lookup(m, k) matches Some(w) && alike(v, w),
    ensures
        maps_alike(name_map::put(m, k, v), m, alike),
{
    let r = name_map::put(m, k, v);
    assert forall|j: Seq<char>|
        match (#[trigger] name_map::lookup(r, j), name_map::lookup(m, j)) {
            (Some(x), Some(y)) => alike(x, y),
            (None, None) => true,
            _ => false,
        } by {
        name_map::lookup_of_put(m, k, v, j);
    }
}

/// The state with the zone's details replaced in the scopes of the target.
spec fn with_zone(
    state: ProjectionStateView,
    zone: Seq<char>,
    target: ConfigurationTarget,
    r: ZoneDetailsView,
    p: ZoneDetailsView,
) -> ProjectionStateView {
    let s = state.snapshot;
    let runtime = name_map::put(s.runtime, zone, r);
    let snapshot = FirewallSnapshotView {
        runtime: if projection::reaches_runtime(target) {
            runtime
        } else {
            s.runtime
        },
        permanent: if projection::reaches_permanent(target) {
            name_map::put(s.permanent, zone, p)
        } else {
            s.permanent
        },
        active: if projection::reaches_runtime(target) {
            projection::synced(s.active, runtime, zone)
        } else {
            s.active
        },
        ..s
    };
    ProjectionStateView { snapshot, ..state }
}

/// The state with the policy's details replaced in the scopes of the target.
spec fn with_policy(
    state: ProjectionStateView,
    policy: Seq<char>,
    target: ConfigurationTarget,
    r: PolicyDetailsView,
    p: PolicyDetailsView,
) -> ProjectionStateView {
    let policies = state.snapshot.policies;
    state.with_policies(
        if projection::reaches_runtime(target) {
            name_map::put(policies.runtime, policy, r)
        } else {
            policies.runtime
        },
        if projection::reaches_permanent(target) {
            name_map::put(policies.permanent, policy, p)
        } else {
            policies.permanent
        },
    )
}

/// Two edits of one zone, one after the other, leave what the second makes of
/// the outcome of the first.
proof fn zone_edited_twice(
    state: ProjectionStateView,
    op: FirewallOperationView,
    inverse: FirewallOperationView,
    zone: Seq<char>,
    target: ConfigurationTarget,
)
    requires
        ordered(state),
        state.zones_edited(op, zone, target) is Ok,
    ensures
        ({
            let s = state.snapshot;
            let next = state.zones_edited(op, zone, target)->Ok_0;
            let r = inverse.zone_edited(op.zone_edited(name_map::lookup(s.runtime, zone)->0));
            let p = inverse.zone_edited(op.zone_edited(name_map::lookup(s.permanent, zone)->0));
            next.zones_edited(inverse, zone, target) == Ok::<
                ProjectionStateView,
                projection::CandidateProjectionErrorView,
            >(with_zone(state, zone, target, r, p))
        }),
{
    let s = state.snapshot;
    let r1 = op.zone_edited(name_map::lookup(s.runtime, zone)->0);
    let p1 = op.zone_edited(name_map::lookup(s.permanent, zone)->0);
    let r2 = inverse.zone_edited(r1);
    let runtime = name_map::put(s.runtime, zone, r1);
    name_map::lookup_of_put(s.runtime, zone, r1, zone);
    name_map::lookup_of_put(s.permanent, zone, p1, zone);
    name_map::put_over_put(s.runtime, zone, r1, r2);
    name_map::put_over_put(s.permanent, zone, p1, inverse.zone_edited(p1));
    name_map::lookup_of_put(s.runtime, zone, r2, zone);
    if let Some(first) = projection::bound(r1) {
        name_map::cut_over_put(s.active, zone, first);
        if let Some(second) = projection::bound(r2) {
            name_map::put_over_put(s.active, zone, first, second);
        }
    } else {
        name_map::cut_over_cut(s.active, zone);
        if let Some(second) = projection::bound(r2) {
            name_map::put_over_cut(s.active, zone, second);
        }
    }
}

proof fn policy_edited_twice(
    state: ProjectionStateView,
    op: FirewallOperationView,
    inverse: FirewallOperationView,
    policy: Seq<char>,
    target: ConfigurationTarget,
)
    requires
        ordered(state),
        state.policies_edited(op, policy, target) is Ok,
    ensures
        ({
            let p = state.snapshot.policies;
            let next = state.policies_edited(op, policy, target)->Ok_0;
            let a = inverse.policy_edited(op.policy_edited(name_map::lookup(p.runtime, policy)->0));
            let b = inverse.policy_edited(
                op.policy_edited(name_map::lookup(p.permanent, policy)->0),
            );
            next.policies_edited(inverse, policy, target) == Ok::<
                ProjectionStateView,
                projection::CandidateProjectionErrorView,
            >(with_policy(state, policy, target, a, b))
        }),
{
    let p = state.snapshot.policies;
    let a1 = op.policy_edited(name_map::lookup(p.runtime, policy)->0);
    let b1 = op.policy_edited(name_map::lookup(p.permanent, policy)->0);
    name_map::lookup_of_put(p.runtime, policy, a1, policy);
    name_map::lookup_of_put(p.permanent, policy, b1, policy);
    name_map::put_over_put(p.runtime, policy, a1, inverse.policy_edited(a1));
    name_map::put_over_put(p.permanent, policy, b1, inverse.policy_edited(b1));
}

#[verifier::opaque]
spec fn stays_in_the_zone(op: FirewallOperationView) -> bool {
    op.zone_edit() matches Some((zone, _)) ==> op.zone_scope() == Some((zone, op.target())) && (
    op.inverted(op.target()) matches Some(inverse) && inverse.zone_scope() == op.zone_scope())
}

/// The inverse of an edit of a zone edits that zone in the same scopes.
proof fn inverse_edits_the_same_zone(op: FirewallOperationView)
    ensures
        op.zone_edit() matches Some((zone, _)) ==> op.zone_scope() == Some((zone, op.target())) && (
        op.inverted(op.target()) matches Some(inverse) && inverse.zone_scope() == op.zone_scope()),
{
    if op is AddService || op is AddTemporaryService || op is RemoveService || op is AddPort
        || op is RemovePort || op is SetMasquerade {
        assert(stays_in_the_zone(op)) by {
            reveal(stays_in_the_zone);
        }
    } else if op is AddSourcePort || op is RemoveSourcePort || op is AddProtocol
        || op is RemoveProtocol || op is SetForward || op is SetIcmpBlockInversion
        || op is AddForwardPort || op is RemoveForwardPort {
        assert(stays_in_the_zone(op)) by {
            reveal(stays_in_the_zone);
        }
    } else if op is AddRichRule || op is RemoveRichRule || op is AddInterface
        || op is RemoveInterface || op is AddSource || op is RemoveSource || op is AddIcmpBlock
        || op is RemoveIcmpBlock {
        assert(stays_in_the_zone(op)) by {
            reveal(stays_in_the_zone);
        }
    } else {
        assert(stays_in_the_zone(op)) by {
            reveal(stays_in_the_zone);
        }
    }
    reveal(stays_in_the_zone);
}

/// What undoing an addition owes.
#[verifier::opaque]
spec fn state_back(state: ProjectionStateView, op: FirewallOperationView) -> bool {
    op.inverted(op.target()) matches Some(inverse) && (state.exactly(op) matches Ok(next)
        && next.exactly(inverse) == Ok::<
        ProjectionStateView,
        projection::CandidateProjectionErrorView,
    >(state))
}

proof fn zone_state_back(state: ProjectionStateView, op: FirewallOperationView, zone: Seq<char>)
    requires
        ordered(state),
        in_step(state, zone),
        op.zone_edit() == Some((zone, true)),
        finds(state, op, false),
        state.exactly(op) is Ok,
    ensures
        state_back(state, op),
{
    let s = state.snapshot;
    let target = op.target();
    let inverse = op.inverted(target)->0;
    let r = name_map::lookup(s.runtime, zone);
    let p = name_map::lookup(s.permanent, zone);
    inverse_edits_the_same_zone(op);
    assert(state.exactly(op) == state.zones_edited(op, zone, target));
    zone_edited_twice(state, op, inverse, zone, target);
    if projection::reaches_runtime(target) {
        assert(!op.item_in(r->0));
        laws::inverse_undoes_an_addition(op, target, r->0);
        name_map::put_of_lookup(s.runtime, zone);
    }
    if projection::reaches_permanent(target) {
        assert(!op.item_in(p->0));
        laws::inverse_undoes_an_addition(op, target, p->0);
        name_map::put_of_lookup(s.permanent, zone);
    }
    let next = state.exactly(op)->Ok_0;
    assert(next.exactly(inverse) == next.zones_edited(inverse, zone, target));
    reveal(state_back);
}

proof fn policy_state_back(state: ProjectionStateView, op: FirewallOperationView)
    requires
        ordered(state),
        op is AddPolicyService,
        finds(state, op, false),
        state.exactly(op) is Ok,
    ensures
        state_back(state, op),
{
    if let FirewallOperationView::AddPolicyService { policy, .. } = op {
        let policies = state.snapshot.policies;
        let target = op.target();
        let r = name_map::lookup(policies.runtime, policy);
        let p = name_map::lookup(policies.permanent, policy);
        policy_edited_twice(state, op, op.inverted(target)->0, policy, target);
        if projection::reaches_runtime(target) {
            laws::inverse_undoes_a_policy_addition(op, target, r->0);
            name_map::put_of_lookup(policies.runtime, policy);
        }
        if projection::reaches_permanent(target) {
            laws::inverse_undoes_a_policy_addition(op, target, p->0);
            name_map::put_of_lookup(policies.permanent, policy);
        }
    }
    reveal(state_back);
}

proof fn service_port_gone(state: ProjectionStateView, op: FirewallOperationView)
    requires
        ordered(state),
        op is AddServicePort,
        finds(state, op, false),
        state.exactly(op) is Ok,
    ensures
        state_back(state, op),
{
    if let FirewallOperationView::AddServicePort { service, port } = op {
        let known = state.service_definitions_permanent;
        let d = name_map::lookup(known, service)->0;
        let more = ServiceDefinitionView { ports: lists::with(d.ports, port), ..d };
        lists::without_undoes_with(d.ports, port);
        name_map::lookup_of_put(known, service, more, service);
        name_map::put_over_put(known, service, more, d);
        name_map::put_of_lookup(known, service);
    }
    reveal(state_back);
}

/// Undoing an operation that added something or changed a setting gives the
/// state back exactly as it was. The item must not have been there before in
/// any targeted scope.
pub proof fn undoing_an_addition_gives_the_state_back(
    state: ProjectionStateView,
    op: FirewallOperationView,
)
    requires
        ordered(state),
        op.zone_edit() matches Some((zone, _)) ==> in_step(state, zone),
        OperationEffectView::of(op).transitions(),
        op.inverted(op.target()) is Some,
        !removes(op),
        finds(state, op, false),
        state.exactly(op) is Ok,
    ensures
        op.inverted(op.target()) matches Some(inverse) && (state.exactly(op) matches Ok(next)
            && next.exactly(inverse) == Ok::<
            ProjectionStateView,
            projection::CandidateProjectionErrorView,
        >(state)),
{
    assert(state_back(state, op)) by {
        if op is AddPolicyService {
            policy_state_back(state, op);
        } else if op is AddServicePort {
            service_port_gone(state, op);
        } else if let Some((zone, _)) = op.zone_edit() {
            zone_state_back(state, op, zone);
        } else {
            assert(op is SetPanicMode);
            reveal(state_back);
        }
    }
    reveal(state_back);
}

proof fn alike_to_itself(state: ProjectionStateView)
    ensures
        states_alike(state, state),
{
    let s = state.snapshot;
    maps_alike_to_themselves(s.runtime, |x, y| laws::alike(x, y));
    maps_alike_to_themselves(s.permanent, |x, y| laws::alike(x, y));
    maps_alike_to_themselves(s.active, |x, y| bindings_alike(x, y));
    maps_alike_to_themselves(s.policies.runtime, |x, y| laws::policies_alike(x, y));
    maps_alike_to_themselves(s.policies.permanent, |x, y| laws::policies_alike(x, y));
    maps_alike_to_themselves(
        state.service_definitions_permanent,
        |x, y| definitions_alike(x, y),
    );
}

/// A zone replaced by one that is alike leaves the state alike.
proof fn alike_after_zone(
    state: ProjectionStateView,
    zone: Seq<char>,
    target: ConfigurationTarget,
    r: ZoneDetailsView,
    p: ZoneDetailsView,
)
    requires
        ordered(state),
        in_step(state, zone),
        projection::reaches_runtime(target) ==> (name_map::lookup(
            state.snapshot.runtime,
            zone,
        ) matches Some(z) && laws::alike(r, z)),
        projection::reaches_permanent(target) ==> (name_map::lookup(
            state.snapshot.permanent,
            zone,
        ) matches Some(z) && laws::alike(p, z)),
    ensures
        states_alike(with_zone(state, zone, target, r, p), state),
{
    let s = state.snapshot;
    alike_to_itself(state);
    if projection::reaches_runtime(target) {
        maps_alike_after_put(s.runtime, zone, r, |x, y| laws::alike(x, y));
        active_comes_back(state, zone, name_map::lookup(s.runtime, zone)->0, r);
    }
    if projection::reaches_permanent(target) {
        maps_alike_after_put(s.permanent, zone, p, |x, y| laws::alike(x, y));
    }
}

/// A policy replaced by one that is alike leaves the state alike.
proof fn alike_after_policy(
    state: ProjectionStateView,
    policy: Seq<char>,
    target: ConfigurationTarget,
    r: PolicyDetailsView,
    p: PolicyDetailsView,
)
    requires
        ordered(state),
        projection::reaches_runtime(target) ==> (name_map::lookup(
            state.snapshot.policies.runtime,
            policy,
        ) matches Some(q) && laws::policies_alike(r, q)),
        projection::reaches_permanent(target) ==> (name_map::lookup(
            state.snapshot.policies.permanent,
            policy,
        ) matches Some(q) && laws::policies_alike(p, q)),
    ensures
        states_alike(with_policy(state, policy, target, r, p), state),
{
    let policies = state.snapshot.policies;
    alike_to_itself(state);
    if projection::reaches_runtime(target) {
        maps_alike_after_put(policies.runtime, policy, r, |x, y| laws::policies_alike(x, y));
    }
    if projection::reaches_permanent(target) {
        maps_alike_after_put(policies.permanent, policy, p, |x, y| laws::policies_alike(x, y));
    }
}

/// What undoing a removal owes.
#[verifier::opaque]
spec fn item_back(state: ProjectionStateView, op: FirewallOperationView) -> bool {
    op.inverted(op.target()) matches Some(inverse) && (state.exactly(op) matches Ok(next) && (
    next.exactly(inverse) matches Ok(back) && states_alike(back, state)))
}

proof fn zone_item_back(state: ProjectionStateView, op: FirewallOperationView, zone: Seq<char>)
    requires
        ordered(state),
        in_step(state, zone),
        op.zone_edit() == Some((zone, false)),
        finds(state, op, true),
        state.exactly(op) is Ok,
    ensures
        item_back(state, op),
{
    let s = state.snapshot;
    let target = op.target();
    let inverse = op.inverted(target)->0;
    let r = name_map::lookup(s.runtime, zone);
    let p = name_map::lookup(s.permanent, zone);
    let r2 = inverse.zone_edited(op.zone_edited(r->0));
    let p2 = inverse.zone_edited(op.zone_edited(p->0));
    inverse_edits_the_same_zone(op);
    assert(state.exactly(op) == state.zones_edited(op, zone, target));
    zone_edited_twice(state, op, inverse, zone, target);
    if projection::reaches_runtime(target) {
        assert(op.item_in(r->0));
        laws::inverse_undoes_a_removal(op, target, r->0);
    }
    if projection::reaches_permanent(target) {
        assert(op.item_in(p->0));
        laws::inverse_undoes_a_removal(op, target, p->0);
    }
    alike_after_zone(state, zone, target, r2, p2);
    let next = state.exactly(op)->Ok_0;
    assert(next.exactly(inverse) == next.zones_edited(inverse, zone, target));
    reveal(item_back);
}

proof fn policy_item_back(state: ProjectionStateView, op: FirewallOperationView)
    requires
        ordered(state),
        op is RemovePolicyService,
        finds(state, op, true),
        state.exactly(op) is Ok,
    ensures
        item_back(state, op),
{
    if let FirewallOperationView::RemovePolicyService { policy, .. } = op {
        let s = state.snapshot;
        let target = op.target();
        let inverse = op.inverted(target)->0;
        let r = name_map::lookup(s.policies.runtime, policy);
        let p = name_map::lookup(s.policies.permanent, policy);
        let r2 = inverse.policy_edited(op.policy_edited(r->0));
        let p2 = inverse.policy_edited(op.policy_edited(p->0));
        policy_edited_twice(state, op, inverse, policy, target);
        if projection::reaches_runtime(target) {
            laws::inverse_undoes_a_policy_removal(op, target, r->0);
        }
        if projection::reaches_permanent(target) {
            laws::inverse_undoes_a_policy_removal(op, target, p->0);
        }
        alike_after_policy(state, policy, target, r2, p2);
    }
    reveal(item_back);
}

proof fn service_port_back(state: ProjectionStateView, op: FirewallOperationView)
    requires
        ordered(state),
        op is RemoveServicePort,
        finds(state, op, true),
        state.exactly(op) is Ok,
    ensures
        item_back(state, op),
{
    if let FirewallOperationView::RemoveServicePort { service, port } = op {
        let known = state.service_definitions_permanent;
        let d = name_map::lookup(known, service)->0;
        let fewer = ServiceDefinitionView { ports: lists::without(d.ports, port), ..d };
        let back = ServiceDefinitionView { ports: lists::with(fewer.ports, port), ..d };
        alike_to_itself(state);
        laws::items_return(d.ports, port);
        name_map::lookup_of_put(known, service, fewer, service);
        name_map::put_over_put(known, service, fewer, back);
        maps_alike_after_put(known, service, back, |x, y| definitions_alike(x, y));
    }
    reveal(item_back);
}

/// Undoing an operation that removed something brings it back. It then stands
/// at the end of its list. The item must have been there before in every
/// targeted scope.
pub proof fn undoing_a_removal_brings_the_item_back(
    state: ProjectionStateView,
    op: FirewallOperationView,
)
    requires
        ordered(state),
        op.zone_edit() matches Some((zone, _)) ==> in_step(state, zone),
        OperationEffectView::of(op).transitions(),
        removes(op),
        finds(state, op, true),
        state.exactly(op) is Ok,
    ensures
        op.inverted(op.target()) matches Some(inverse) && (state.exactly(op) matches Ok(next) && (
        next.exactly(inverse) matches Ok(back) && states_alike(back, state))),
{
    assert(item_back(state, op)) by {
        if op is RemovePolicyService {
            policy_item_back(state, op);
        } else if op is RemoveServicePort {
            service_port_back(state, op);
        } else if let Some((zone, _)) = op.zone_edit() {
            zone_item_back(state, op, zone);
        }
    }
    reveal(item_back);
}

/// A zone that is alike leaves the active zones alike.
proof fn active_comes_back(
    state: ProjectionStateView,
    zone: Seq<char>,
    z: ZoneDetailsView,
    back: ZoneDetailsView,
)
    requires
        ordered(state),
        in_step(state, zone),
        name_map::lookup(state.snapshot.runtime, zone) == Some(z),
        laws::alike(back, z),
    ensures
        maps_alike(
            projection::synced(
                state.snapshot.active,
                name_map::put(state.snapshot.runtime, zone, back),
                zone,
            ),
            state.snapshot.active,
            |x: ActiveZoneView, y: ActiveZoneView| bindings_alike(x, y),
        ),
{
    let s = state.snapshot;
    let bindings = |x: ActiveZoneView, y: ActiveZoneView| bindings_alike(x, y);
    name_map::lookup_of_put(s.runtime, zone, back, zone);
    none_or_none(back.interfaces, z.interfaces);
    none_or_none(back.sources, z.sources);
    maps_alike_to_themselves(s.active, bindings);
    if let Some(binding) = projection::bound(z) {
        name_map::lookup_of_put(s.active, zone, binding, zone);
        maps_alike_after_put(s.active, zone, projection::bound(back)->0, bindings);
    }
}

proof fn none_or_none<A>(a: Seq<A>, b: Seq<A>)
    requires
        laws::same_items(a, b),
    ensures
        (a.len() == 0) == (b.len() == 0),
{
    if a.len() > 0 {
        assert(a.contains(a[0]));
    }
    if b.len() > 0 {
        assert(b.contains(b[0]));
        assert(a.contains(b[0]) == b.contains(b[0]));
    }
}

} // verus!
