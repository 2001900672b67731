//! What a projected operation shows in the candidate, name by name.

use vstd::prelude::*;

use crate::ids::ZoneName;
use crate::lists;
use crate::name_map;
use crate::operation::meaning;
use crate::operation::FirewallOperationView;
use crate::policy::PolicyDetailsView;
use crate::policy_set;
use crate::port::PortSpecView;
use crate::service::ServiceDefinitionView;
use crate::snapshot::{
    ConfigurationTarget, DegradedSectionView, FirewallSnapshotView, SnapshotSection,
};
use crate::traffic_test::projection;
use crate::traffic_test::projection::laws;
use crate::traffic_test::projection::{
    CandidateProjectionErrorView, CandidateProjectionView, EncodedOperationView,
    ProjectionStateView,
};
use crate::traffic_test::report;
use crate::traffic_test::report::EvaluationTarget;
use crate::zone::{ActiveZoneView, ZoneDetailsView};

verus! {

/// Both maps agree on every name but one, under which the first has the value.
pub open spec fn differs_at<W>(
    after: Seq<(Seq<char>, W)>,
    before: Seq<(Seq<char>, W)>,
    name: Seq<char>,
    value: Option<W>,
) -> bool {
    forall|k: Seq<char>| #[trigger]
        name_map::lookup(after, k) == if k == name {
            value
        } else {
            name_map::lookup(before, k)
        }
}

proof fn put_differs<W>(m: Seq<(Seq<char>, W)>, k: Seq<char>, v: W)
    requires
        name_map::sorted(m),
    ensures
        differs_at(name_map::put(m, k, v), m, k, Some(v)),
{
    assert forall|j: Seq<char>| #[trigger]
        name_map::lookup(name_map::put(m, k, v), j) == (if j == k {
            Some(v)
        } else {
            name_map::lookup(m, j)
        }) by {
        name_map::lookup_of_put(m, k, v, j);
    }
}

proof fn cut_differs<W>(m: Seq<(Seq<char>, W)>, k: Seq<char>)
    requires
        name_map::sorted(m),
    ensures
        differs_at(name_map::cut(m, k), m, k, None),
{
    assert forall|j: Seq<char>| #[trigger]
        name_map::lookup(name_map::cut(m, k), j) == (if j == k {
            None
        } else {
            name_map::lookup(m, j)
        }) by {
        name_map::lookup_of_cut(m, k, j);
    }
}

/// What a zone counts as active with: its interfaces and sources, if it has
/// any.
pub open spec fn binding_of(zone: ZoneDetailsView) -> Option<ActiveZoneView> {
    if zone.interfaces =~= Seq::empty() && zone.sources =~= Seq::empty() {
        None
    } else {
        Some(ActiveZoneView { interfaces: zone.interfaces, sources: zone.sources })
    }
}

/// An edit of a zone succeeds exactly if every targeted configuration has the
/// zone. Each then has the edited zone under its name, the runtime counts the
/// zone as active exactly with what is bound to it, and nothing else changes.
pub proof fn zone_edits_show_in_their_scopes(state: ProjectionStateView, op: FirewallOperationView)
    requires
        name_map::sorted(state.snapshot.runtime),
        name_map::sorted(state.snapshot.permanent),
        name_map::sorted(state.snapshot.active),
        op.zone_scope() is Some,
    ensures
        op.zone_scope() matches Some((zone, target)) ==> ({
            let s = state.snapshot;
            let r = name_map::lookup(s.runtime, zone);
            let p = name_map::lookup(s.permanent, zone);
            let in_runtime = target != ConfigurationTarget::Permanent;
            let in_permanent = target != ConfigurationTarget::Runtime;
            match state.exactly(op) {
                Ok(next) => {
                    let t = next.snapshot;
                    &&& in_runtime ==> r is Some && differs_at(
                        t.runtime,
                        s.runtime,
                        zone,
                        Some(op.zone_edited(r->0)),
                    ) && differs_at(t.active, s.active, zone, binding_of(op.zone_edited(r->0)))
                    &&& !in_runtime ==> t.runtime == s.runtime && t.active == s.active
                    &&& in_permanent ==> p is Some && differs_at(
                        t.permanent,
                        s.permanent,
                        zone,
                        Some(op.zone_edited(p->0)),
                    )
                    &&& !in_permanent ==> t.permanent == s.permanent
                    &&& next == ProjectionStateView {
                        snapshot: FirewallSnapshotView {
                            runtime: t.runtime,
                            permanent: t.permanent,
                            active: t.active,
                            ..s
                        },
                        ..state
                    }
                },
                Err(e) => e == CandidateProjectionErrorView::MissingZone {
                    target: if in_runtime && r is None {
                        "runtime"@
                    } else {
                        "permanent"@
                    },
                    zone,
                } && ((in_runtime && r is None) || (in_permanent && p is None)),
            }
        }),
{
    let s = state.snapshot;
    let zone = (op.zone_scope()->0).0;
    if let Some(z) = name_map::lookup(s.runtime, zone) {
        let edited = op.zone_edited(z);
        put_differs(s.runtime, zone, edited);
        name_map::lookup_of_put(s.runtime, zone, edited, zone);
        cut_differs(s.active, zone);
        if let Some(binding) = projection::bound(edited) {
            put_differs(s.active, zone, binding);
        }
    }
    if let Some(z) = name_map::lookup(s.permanent, zone) {
        put_differs(s.permanent, zone, op.zone_edited(z));
    }
}

/// An edit of a policy succeeds exactly if every targeted configuration has
/// the policy. Each then has the edited policy under its name, and nothing
/// else changes.
pub proof fn policy_edits_show_in_their_scopes(
    state: ProjectionStateView,
    op: FirewallOperationView,
)
    requires
        name_map::sorted(state.snapshot.policies.runtime),
        name_map::sorted(state.snapshot.policies.permanent),
        op.policy_scope() is Some,
    ensures
        op.policy_scope() matches Some((policy, target)) ==> ({
            let s = state.snapshot.policies;
            let r = name_map::lookup(s.runtime, policy);
            let p = name_map::lookup(s.permanent, policy);
            let in_runtime = target != ConfigurationTarget::Permanent;
            let in_permanent = target != ConfigurationTarget::Runtime;
            match state.exactly(op) {
                Ok(next) => {
                    let t = next.snapshot.policies;
                    &&& in_runtime ==> r is Some && differs_at(
                        t.runtime,
                        s.runtime,
                        policy,
                        Some(op.policy_edited(r->0)),
                    )
                    &&& !in_runtime ==> t.runtime == s.runtime
                    &&& in_permanent ==> p is Some && differs_at(
                        t.permanent,
                        s.permanent,
                        policy,
                        Some(op.policy_edited(p->0)),
                    )
                    &&& !in_permanent ==> t.permanent == s.permanent
                    &&& next == ProjectionStateView {
                        snapshot: FirewallSnapshotView { policies: t, ..state.snapshot },
                        ..state
                    }
                },
                Err(e) => e == CandidateProjectionErrorView::MissingPolicy {
                    target: if in_runtime && r is None {
                        "runtime"@
                    } else {
                        "permanent"@
                    },
                    policy,
                } && ((in_runtime && r is None) || (in_permanent && p is None)),
            }
        }),
{
    let s = state.snapshot.policies;
    let policy = (op.policy_scope()->0).0;
    if let Some(p) = name_map::lookup(s.runtime, policy) {
        put_differs(s.runtime, policy, op.policy_edited(p));
    }
    if let Some(p) = name_map::lookup(s.permanent, policy) {
        put_differs(s.permanent, policy, op.policy_edited(p));
    }
}

/// Only the stored service definitions, and with them what is on offer, differ.
pub open spec fn only_definitions(after: ProjectionStateView, before: ProjectionStateView) -> bool {
    after == ProjectionStateView {
        service_definitions_permanent: after.service_definitions_permanent,
        available_services_permanent: after.available_services_permanent,
        ..before
    }
}

/// A service definition is created empty and offered, must be new for that,
/// and is gone and offered no more once it is deleted. A port that is added to
/// it is there afterwards, a port that is removed is not, and all else about
/// it stays. All of that concerns what is stored.
pub proof fn definitions_show_what_was_done(
    state: ProjectionStateView,
    service: Seq<char>,
    port: PortSpecView,
)
    requires
        name_map::sorted(state.service_definitions_permanent),
    ensures
        ({
            let known = state.service_definitions_permanent;
            let offered = state.available_services_permanent;
            let d = name_map::lookup(known, service);
            let create = FirewallOperationView::CreateService { service };
            let delete = FirewallOperationView::DeleteService { service };
            let add = FirewallOperationView::AddServicePort { service, port };
            let remove = FirewallOperationView::RemoveServicePort { service, port };
            let missing = Err::<ProjectionStateView, CandidateProjectionErrorView>(
                CandidateProjectionErrorView::MissingServiceDefinition { service },
            );
            &&& match state.exactly(create) {
                Ok(next) => {
                    &&& d is None
                    &&& only_definitions(next, state)
                    &&& meaning::gains(offered, next.available_services_permanent, service)
                    &&& name_map::lookup(next.service_definitions_permanent, service) matches Some(
                        fresh,
                    ) && fresh.ports.len() == 0 && fresh.source_ports.len() == 0
                        && fresh.protocols.len() == 0 && fresh.includes.len() == 0
                        && fresh.destinations.len() == 0 && fresh.helpers.len() == 0
                        && fresh.modules.len() == 0 && differs_at(
                        next.service_definitions_permanent,
                        known,
                        service,
                        Some(fresh),
                    )
                },
                Err(e) => d is Some && e == CandidateProjectionErrorView::ObjectAlreadyExists {
                    kind: "service definition"@,
                    name: service,
                },
            }
            &&& d is None ==> state.exactly(delete) == missing && state.exactly(add) == missing
                && state.exactly(remove) == missing
            &&& d is Some ==> (state.exactly(delete) matches Ok(next) && only_definitions(
                next,
                state,
            ) && meaning::loses(offered, next.available_services_permanent, service) && differs_at(
                next.service_definitions_permanent,
                known,
                service,
                None,
            ))
            &&& d matches Some(old) ==> (state.exactly(add) matches Ok(next) && only_definitions(
                next,
                state,
            ) && next.available_services_permanent == offered && (name_map::lookup(
                next.service_definitions_permanent,
                service,
            ) matches Some(new) && meaning::gains(old.ports, new.ports, port) && new == (
            ServiceDefinitionView { ports: new.ports, ..old }) && differs_at(
                next.service_definitions_permanent,
                known,
                service,
                Some(new),
            )))
            &&& d matches Some(old) ==> (state.exactly(remove) matches Ok(next) && only_definitions(
                next,
                state,
            ) && next.available_services_permanent == offered && (name_map::lookup(
                next.service_definitions_permanent,
                service,
            ) matches Some(new) && meaning::loses(old.ports, new.ports, port) && new == (
            ServiceDefinitionView { ports: new.ports, ..old }) && differs_at(
                next.service_definitions_permanent,
                known,
                service,
                Some(new),
            )))
        }),
{
    let known = state.service_definitions_permanent;
    let offered = state.available_services_permanent;
    meaning::list_gains(offered, service);
    meaning::list_loses(offered, service);
    put_differs(known, service, ServiceDefinitionView::nothing());
    cut_differs(known, service);
    if let Some(d) = name_map::lookup(known, service) {
        meaning::list_gains(d.ports, port);
        meaning::list_loses(d.ports, port);
        put_differs(
            known,
            service,
            ServiceDefinitionView { ports: lists::with(d.ports, port), ..d },
        );
        put_differs(
            known,
            service,
            ServiceDefinitionView { ports: lists::without(d.ports, port), ..d },
        );
    }
}

/// A zone is created without any interface, source, service, port or rule, and
/// stored under its name; it must be new to what is stored. A deleted zone is
/// no longer stored. Nothing else changes.
pub proof fn zones_come_and_go(state: ProjectionStateView, zone: Seq<char>)
    requires
        name_map::sorted(state.snapshot.permanent),
    ensures
        ({
            let s = state.snapshot;
            let there = name_map::lookup(s.permanent, zone) is Some;
            let create = FirewallOperationView::CreateZone { zone };
            let delete = FirewallOperationView::DeleteZone { zone };
            &&& match state.exactly(create) {
                Ok(next) => {
                    &&& !there
                    &&& next == ProjectionStateView {
                        snapshot: FirewallSnapshotView { permanent: next.snapshot.permanent, ..s },
                        ..state
                    }
                    &&& name_map::lookup(next.snapshot.permanent, zone) matches Some(z) && z.name
                        == zone && z.interfaces.len() == 0 && z.sources.len() == 0
                        && z.services.len() == 0 && z.ports.len() == 0 && z.rich_rules.len() == 0
                        && z.forward_ports.len() == 0 && z.source_ports.len() == 0
                        && z.protocols.len() == 0 && z.icmp_blocks.len() == 0 && !z.masquerade
                        && differs_at(next.snapshot.permanent, s.permanent, zone, Some(z))
                },
                Err(e) => there && e == CandidateProjectionErrorView::ObjectAlreadyExists {
                    kind: "zone"@,
                    name: zone,
                },
            }
            &&& match state.exactly(delete) {
                Ok(next) => {
                    &&& there
                    &&& next == ProjectionStateView {
                        snapshot: FirewallSnapshotView { permanent: next.snapshot.permanent, ..s },
                        ..state
                    }
                    &&& differs_at(next.snapshot.permanent, s.permanent, zone, None)
                },
                Err(e) => !there && e == CandidateProjectionErrorView::MissingZone {
                    target: "permanent"@,
                    zone,
                },
            }
        }),
{
    put_differs(state.snapshot.permanent, zone, ZoneDetailsView::empty(zone));
    cut_differs(state.snapshot.permanent, zone);
}

/// A policy is created without any zone, service, port or rule, enabled and
/// not active, and stored under its name; it must be new to what is stored. A
/// deleted policy is no longer stored. Nothing else changes.
pub proof fn policies_come_and_go(state: ProjectionStateView, policy: Seq<char>)
    requires
        name_map::sorted(state.snapshot.policies.permanent),
    ensures
        ({
            let s = state.snapshot.policies;
            let there = name_map::lookup(s.permanent, policy) is Some;
            let create = FirewallOperationView::CreatePolicy { policy };
            let delete = FirewallOperationView::DeletePolicy { policy };
            &&& match state.exactly(create) {
                Ok(next) => {
                    let t = next.snapshot.policies;
                    &&& !there
                    &&& next == state.with_policies(s.runtime, t.permanent)
                    &&& name_map::lookup(t.permanent, policy) matches Some(p) && p.name == policy
                        && !p.active && !p.disabled && p.ingress_zones.len() == 0
                        && p.egress_zones.len() == 0 && p.services.len() == 0 && p.ports.len() == 0
                        && p.rich_rules.len() == 0 && p.forward_ports.len() == 0
                        && p.source_ports.len() == 0 && p.protocols.len() == 0
                        && p.icmp_blocks.len() == 0 && !p.masquerade && differs_at(
                        t.permanent,
                        s.permanent,
                        policy,
                        Some(p),
                    )
                },
                Err(e) => there && e == CandidateProjectionErrorView::ObjectAlreadyExists {
                    kind: "policy"@,
                    name: policy,
                },
            }
            &&& match state.exactly(delete) {
                Ok(next) => {
                    let t = next.snapshot.policies;
                    &&& there
                    &&& next == state.with_policies(s.runtime, t.permanent)
                    &&& differs_at(t.permanent, s.permanent, policy, None)
                },
                Err(e) => !there && e == CandidateProjectionErrorView::MissingPolicy {
                    target: "permanent"@,
                    policy,
                },
            }
        }),
{
    let s = state.snapshot.policies;
    put_differs(s.permanent, policy, PolicyDetailsView::empty(policy));
    cut_differs(s.permanent, policy);
}

/// The default zone and panic mode are what was asked for afterwards, and
/// nothing else changes.
pub proof fn settings_show_what_was_done(
    state: ProjectionStateView,
    zone: Seq<char>,
    enabled: bool,
)
    ensures
        state.exactly(FirewallOperationView::SetDefaultZone { zone }) matches Ok(next)
            && next.snapshot.default_zone == zone && next == (ProjectionStateView {
            snapshot: FirewallSnapshotView {
                default_zone: next.snapshot.default_zone,
                ..state.snapshot
            },
            ..state
        }),
        state.exactly(FirewallOperationView::SetPanicMode { enabled }) matches Ok(next)
            && next.snapshot.status.panic_mode == enabled && next == (ProjectionStateView {
            snapshot: FirewallSnapshotView {
                status: next.snapshot.status,
                ..state.snapshot
            },
            ..state
        }) && next.snapshot.status.daemon_running == state.snapshot.status.daemon_running
            && next.snapshot.status.version == state.snapshot.status.version
            && next.snapshot.status.backend == state.snapshot.status.backend
            && next.snapshot.status.log_denied == state.snapshot.status.log_denied,
{
}

// ---------------------------------------------------------------------------
// The candidate
// ---------------------------------------------------------------------------
/// The candidate shows the state of the projected scope, and in the default
/// zone that of both.
pub proof fn candidates_show_their_scope(state: ProjectionStateView, base: FirewallSnapshotView)
    ensures
        ({
            let c = state.candidate(base, EvaluationTarget::Runtime);
            &&& c.default_zone == state.snapshot.default_zone
            &&& c.runtime == state.snapshot.runtime
            &&& c.active == state.snapshot.active
            &&& c.policies.runtime == state.snapshot.policies.runtime
            &&& c.ipsets.runtime == state.snapshot.ipsets.runtime
            &&& c.status.panic_mode == state.snapshot.status.panic_mode
            &&& c.service_definitions == state.service_definitions_runtime
            &&& c.available_services == state.available_services_runtime
            &&& c.direct_rules == base.direct_rules
            &&& c.status.version == base.status.version
            &&& c.status.daemon_running == base.status.daemon_running
            &&& state.unknown(EvaluationTarget::Runtime) == state.unknown_runtime
        }),
        ({
            let c = state.candidate(base, EvaluationTarget::Permanent);
            &&& c.default_zone == state.snapshot.default_zone
            &&& c.permanent == state.snapshot.permanent
            &&& c.policies.permanent == state.snapshot.policies.permanent
            &&& c.ipsets.permanent == state.snapshot.ipsets.permanent
            &&& c.service_definitions == state.service_definitions_permanent
            &&& c.available_services == state.available_services_permanent
            &&& c.direct_rules == base.direct_rules
            &&& state.unknown(EvaluationTarget::Permanent) == state.unknown_permanent
        }),
{
}

/// The records of one scope are those of all that concern it.
proof fn degraded_keeps_what_affects(
    records: Seq<DegradedSectionView>,
    target: ConfigurationTarget,
    section: SnapshotSection,
)
    requires
        target != ConfigurationTarget::RuntimeAndPermanent,
        forall|i: int|
            0 <= i < records.len() && (#[trigger] records[i]).section is LegacySnapshot
                ==> records[i].target is None,
    ensures
        (exists|i: int|
            0 <= i < records.len() && (#[trigger] records[i]).affects(section, target)) == (
        exists|i: int|
            0 <= i < projection::degraded_of(records, target).len() && (
            #[trigger] projection::degraded_of(records, target)[i]).affects(section, target)),
    decreases records.len(),
{
    let kept = projection::degraded_of(records, target);
    if records.len() > 0 {
        let rest = records.drop_last();
        let before = projection::degraded_of(rest, target);
        assert forall|i: int|
            0 <= i < rest.len() && (
            #[trigger] rest[i]).section is LegacySnapshot implies rest[i].target is None by {
            assert(rest[i] == records[i]);
        }
        degraded_keeps_what_affects(rest, target, section);
        let last = records.last();
        assert(records[records.len() - 1] == last);
        if exists|i: int|
            0 <= i < records.len() && (#[trigger] records[i]).affects(section, target) {
            let i = choose|i: int|
                0 <= i < records.len() && (#[trigger] records[i]).affects(section, target);
            if i < rest.len() {
                assert(rest[i] == records[i]);
                let j = choose|j: int|
                    0 <= j < before.len() && (#[trigger] before[j]).affects(section, target);
                assert(kept[j] == before[j]);
            } else {
                assert(kept[kept.len() - 1] == last);
            }
        }
        if exists|j: int| 0 <= j < kept.len() && (#[trigger] kept[j]).affects(section, target) {
            let j = choose|j: int|
                0 <= j < kept.len() && (#[trigger] kept[j]).affects(section, target);
            if j < before.len() {
                assert(before[j] == kept[j]);
                let i = choose|i: int|
                    0 <= i < rest.len() && (#[trigger] rest[i]).affects(section, target);
                assert(records[i] == rest[i]);
            } else {
                assert(kept[j] == last);
            }
        }
    }
}

/// What was read of the base in one scope counts as read in the candidate for
/// that scope, and nothing more. A legacy record must not name a scope.
pub proof fn candidates_know_what_the_base_knows(
    base: FirewallSnapshotView,
    target: EvaluationTarget,
    section: SnapshotSection,
)
    requires
        forall|i: int|
            0 <= i < base.degraded.len() && (#[trigger] base.degraded[i]).section is LegacySnapshot
                ==> base.degraded[i].target is None,
    ensures
        ({
            let scope = match target {
                EvaluationTarget::Runtime => ConfigurationTarget::Runtime,
                EvaluationTarget::Permanent => ConfigurationTarget::Permanent,
            };
            ProjectionStateView::of(base).candidate(base, target).complete(section, scope)
                == base.complete(section, scope)
        }),
{
    let scope = match target {
        EvaluationTarget::Runtime => ConfigurationTarget::Runtime,
        EvaluationTarget::Permanent => ConfigurationTarget::Permanent,
    };
    let kept = projection::degraded_of(base.degraded, scope);
    let shown = ProjectionStateView::of(base).candidate(base, target).degraded;
    degraded_keeps_what_affects(base.degraded, scope, section);
    kept_for_scope(base.degraded, scope);
    assert(shown =~= projection::normalized(kept, scope));
    assert forall|i: int| 0 <= i < kept.len() implies (#[trigger] shown[i]).affects(section, scope)
        == kept[i].affects(section, scope) by {}
    if !base.complete(section, scope) {
        let j = choose|j: int| 0 <= j < kept.len() && (#[trigger] kept[j]).affects(section, scope);
        assert(shown[j].affects(section, scope));
    }
    if exists|j: int| 0 <= j < shown.len() && (#[trigger] shown[j]).affects(section, scope) {
        let j = choose|j: int|
            0 <= j < shown.len() && (#[trigger] shown[j]).affects(section, scope);
        assert(kept[j].affects(section, scope));
    }
}

proof fn kept_for_scope(records: Seq<DegradedSectionView>, target: ConfigurationTarget)
    ensures
        forall|i: int|
            0 <= i < projection::degraded_of(records, target).len() ==> {
                let r = #[trigger] projection::degraded_of(records, target)[i];
                r.target is None || r.target == Some(target) || r.target == Some(
                    ConfigurationTarget::RuntimeAndPermanent,
                )
            },
    decreases records.len(),
{
    if records.len() > 0 {
        kept_for_scope(records.drop_last(), target);
    }
}

/// A projection applies its operations in order, each to what those before it
/// left, and shows the outcome; the candidate carries the identity of what was
/// asked for.
pub proof fn projections_go_operation_by_operation(
    base: FirewallSnapshotView,
    snapshot: report::EvaluationSnapshotIdentityView,
    intent: u64,
    plan: Option<u64>,
    target: EvaluationTarget,
    ops: Seq<EncodedOperationView>,
    next: EncodedOperationView,
)
    requires
        forall|i: int| 0 <= i < ops.len() ==> (#[trigger] ops[i]).encoding is Some,
        next.encoding is Some,
        ops.len() < usize::MAX,
    ensures
        ({
            let longer = CandidateProjectionView::of(
                base,
                snapshot,
                intent,
                plan,
                target,
                ops.push(next),
            );
            match ProjectionStateView::of(base).after(projection::bare(ops), ops.len() as int) {
                Err(e) => longer == Err::<CandidateProjectionView, CandidateProjectionErrorView>(e),
                Ok(state) => match state.applied(ops.len() as usize, next.operation) {
                    Err(e) => longer == Err::<
                        CandidateProjectionView,
                        CandidateProjectionErrorView,
                    >(e),
                    Ok(end) => longer matches Ok(c) && c.snapshot == end.candidate(base, target)
                        && c.unknown_effects == end.unknown(target) && c.identity.base_snapshot
                        == snapshot && c.identity.mutation_intent_id == intent && c.identity.plan_id
                        == plan && c.identity.target == target,
                },
            }
        }),
{
    let all = ops.push(next);
    let plain = projection::bare(ops);
    let longer = projection::bare(all);
    let n = ops.len() as int;
    assert forall|i: int| 0 <= i < all.len() implies (#[trigger] all[i]).encoding is Some by {
        if i < ops.len() {
            assert(all[i] == ops[i]);
        }
    }
    none_unencoded(all, 0);
    assert(plain.take(n) =~= longer.take(n));
    laws::later_operations_do_not_matter(ProjectionStateView::of(base), plain, longer, n);
    assert(longer[n] == next.operation);
}

proof fn none_unencoded(ops: Seq<EncodedOperationView>, i: int)
    requires
        0 <= i <= ops.len(),
        forall|j: int| 0 <= j < ops.len() ==> (#[trigger] ops[j]).encoding is Some,
    ensures
        projection::unencoded_from(ops, i) is None,
    decreases ops.len() - i,
{
    if i < ops.len() {
        none_unencoded(ops, i + 1);
    }
}

// ---------------------------------------------------------------------------
// Activity
// ---------------------------------------------------------------------------
proof fn bound_zones_are_the_bound(zones: Seq<(Seq<char>, ZoneDetailsView)>)
    requires
        name_map::sorted(zones),
    ensures
        name_map::sorted(projection::bound_zones(zones)),
        forall|i: int|
            0 <= i < projection::bound_zones(zones).len() ==> exists|j: int|
                0 <= j < zones.len() && zones[j].0 == (#[trigger] projection::bound_zones(
                    zones,
                )[i]).0 && binding_of(#[trigger] zones[j].1) == Some(
                    projection::bound_zones(zones)[i].1,
                ),
        forall|j: int|
            0 <= j < zones.len() && binding_of((#[trigger] zones[j]).1) is Some ==> exists|i: int|
                0 <= i < projection::bound_zones(zones).len() && (
                #[trigger] projection::bound_zones(zones)[i]).0 == zones[j].0,
    decreases zones.len(),
{
    let all = projection::bound_zones(zones);
    if zones.len() > 0 {
        let rest = zones.drop_last();
        let before = projection::bound_zones(rest);
        bound_zones_are_the_bound(rest);
        let (name, last) = zones.last();
        assert(zones[zones.len() - 1] == zones.last());
        assert forall|i: int| 0 <= i < all.len() implies exists|j: int|
            0 <= j < zones.len() && zones[j].0 == (#[trigger] all[i]).0 && binding_of(
                #[trigger] zones[j].1,
            ) == Some(all[i].1) by {
            if i < before.len() {
                assert(all[i] == before[i]);
                let j = choose|j: int|
                    0 <= j < rest.len() && rest[j].0 == before[i].0 && binding_of(
                        #[trigger] rest[j].1,
                    ) == Some(before[i].1);
                assert(zones[j] == rest[j]);
                assert(binding_of(zones[j].1) == Some(all[i].1));
            } else {
                assert(binding_of(zones[zones.len() - 1].1) == Some(all[i].1));
            }
        }
        assert forall|j: int|
            0 <= j < zones.len() && binding_of((#[trigger] zones[j]).1) is Some implies exists|
            i: int,
        |
            0 <= i < all.len() && (#[trigger] all[i]).0 == zones[j].0 by {
            if j < rest.len() {
                assert(zones[j] == rest[j]);
                let i = choose|i: int| 0 <= i < before.len() && (#[trigger] before[i]).0 == rest[j].0;
                assert(all[i] == before[i]);
            } else {
                assert(all[all.len() - 1].0 == zones[j].0);
            }
        }
        assert forall|a: int, b: int| 0 <= a < b < all.len() implies name_map::before(
            #[trigger] all[a].0,
            #[trigger] all[b].0,
        ) by {
            assert(all[a] == before[a]);
            if b < before.len() {
                assert(all[b] == before[b]);
            } else {
                let j = choose|j: int|
                    0 <= j < rest.len() && rest[j].0 == before[a].0 && binding_of(
                        #[trigger] rest[j].1,
                    ) == Some(before[a].1);
                assert(zones[j] == rest[j]);
                assert(name_map::before(zones[j].0, zones[zones.len() - 1].0));
            }
        }
    }
}

/// After a reload a zone is active exactly if it is stored with an interface or
/// a source, and with these.
pub proof fn reloaded_zones_are_active_if_bound(state: ProjectionStateView, zone: Seq<char>)
    requires
        name_map::sorted(state.snapshot.permanent),
    ensures
        name_map::lookup(state.reloaded().snapshot.active, zone) == match name_map::lookup(
            state.snapshot.permanent,
            zone,
        ) {
            Some(z) => binding_of(z),
            None => None,
        },
{
    let zones = state.snapshot.permanent;
    let active = projection::bound_zones(zones);
    bound_zones_are_the_bound(zones);
    name_map::lookup_finds(active, zone);
    name_map::lookup_finds(zones, zone);
    if exists|i: int| 0 <= i < active.len() && (#[trigger] active[i]).0 == zone {
        let i = choose|i: int| 0 <= i < active.len() && (#[trigger] active[i]).0 == zone;
        let j = choose|j: int|
            0 <= j < zones.len() && zones[j].0 == active[i].0 && binding_of(#[trigger] zones[j].1)
                == Some(active[i].1);
        name_map::lookup_of_entry(active, i);
        name_map::lookup_of_entry(zones, j);
    } else if exists|j: int| 0 <= j < zones.len() && (#[trigger] zones[j]).0 == zone {
        let j = choose|j: int| 0 <= j < zones.len() && (#[trigger] zones[j]).0 == zone;
        name_map::lookup_of_entry(zones, j);
        assert(binding_of(zones[j].1) is Some ==> exists|i: int|
            0 <= i < active.len() && (#[trigger] active[i]).0 == zones[j].0);
    }
}

/// The host, any zone while some zone is active, or an active zone is among
/// the names.
pub open spec fn in_use(
    names: Seq<Seq<char>>,
    active: Seq<(Seq<char>, ActiveZoneView)>,
) -> bool {
    ||| names.contains("HOST"@)
    ||| names.contains("ANY"@) && active.len() > 0
    ||| exists|k: int| 0 <= k < active.len() && names.contains((#[trigger] active[k]).0)
}

/// After a reload the runtime has the stored policies, each active exactly if
/// something on either side of it is in use.
pub proof fn reloaded_policies_are_active_if_in_use(state: ProjectionStateView, i: int)
    requires
        name_map::sorted(state.snapshot.permanent),
        forall|j: int|
            0 <= j < state.snapshot.permanent.len() ==> ZoneName::parsed(
                (#[trigger] state.snapshot.permanent[j]).0,
            ) is Ok,
        0 <= i < state.snapshot.policies.permanent.len(),
    ensures
        ({
            let (name, stored) = state.snapshot.policies.permanent[i];
            let t = state.reloaded().snapshot;
            &&& t.policies.runtime.len() == state.snapshot.policies.permanent.len()
            &&& t.policies.runtime[i].0 == name
            &&& t.policies.runtime[i].1 == PolicyDetailsView {
                active: in_use(stored.ingress_zones, t.active) && in_use(
                    stored.egress_zones,
                    t.active,
                ),
                ..stored
            }
        }),
{
    let zones = state.snapshot.permanent;
    let (name, stored) = state.snapshot.policies.permanent[i];
    side_in_use(zones, stored.ingress_zones);
    side_in_use(zones, stored.egress_zones);
}

proof fn side_in_use(zones: Seq<(Seq<char>, ZoneDetailsView)>, names: Seq<Seq<char>>)
    requires
        name_map::sorted(zones),
        forall|j: int| 0 <= j < zones.len() ==> ZoneName::parsed((#[trigger] zones[j]).0) is Ok,
    ensures
        projection::side_active(names, projection::bound_zones(zones)) == in_use(
            names,
            projection::bound_zones(zones),
        ),
{
    let active = projection::bound_zones(zones);
    bound_zones_are_the_bound(zones);
    if projection::side_active(names, active) {
        let i = choose|i: int|
            0 <= i < names.len() && #[trigger] projection::names_active(names[i], active);
        assert(names.contains(names[i]));
        if name_map::lookup(active, names[i]) is Some {
            name_map::lookup_finds(active, names[i]);
            let k = choose|k: int| 0 <= k < active.len() && (#[trigger] active[k]).0 == names[i];
            assert(names.contains(active[k].0));
        }
    }
    if in_use(names, active) {
        if names.contains("HOST"@) {
            let i = choose|i: int| 0 <= i < names.len() && names[i] == "HOST"@;
            assert(projection::names_active(names[i], active));
        } else if names.contains("ANY"@) && active.len() > 0 {
            let i = choose|i: int| 0 <= i < names.len() && names[i] == "ANY"@;
            assert(projection::names_active(names[i], active));
        } else {
            let k = choose|k: int|
                0 <= k < active.len() && names.contains((#[trigger] active[k]).0);
            let i = choose|i: int| 0 <= i < names.len() && names[i] == active[k].0;
            let j = choose|j: int|
                0 <= j < zones.len() && zones[j].0 == active[k].0 && binding_of(
                    #[trigger] zones[j].1,
                ) == Some(active[k].1);
            assert(ZoneName::parsed(zones[j].0) is Ok);
            name_map::lookup_of_entry(active, k);
            assert(projection::names_active(names[i], active));
        }
    }
}

/// Storing the runtime stores its policies, none of them active.
pub proof fn saved_policies_are_not_active(state: ProjectionStateView, i: int)
    requires
        0 <= i < state.snapshot.policies.runtime.len(),
    ensures
        ({
            let (name, running) = state.snapshot.policies.runtime[i];
            let t = state.saved().snapshot.policies.permanent;
            &&& t.len() == state.snapshot.policies.runtime.len()
            &&& t[i].0 == name
            &&& t[i].1 == PolicyDetailsView { active: false, ..running }
        }),
{
}

/// The operations on everything: storing the runtime, and the two that reload.
pub proof fn global_operations_copy_a_scope(state: ProjectionStateView, op: FirewallOperationView)
    ensures
        op is RuntimeToPermanent ==> state.globally(op) == state.saved(),
        op is Reload || op is SetLogDenied ==> state.globally(op) == state.reloaded(),
{
}

/// Switching a policy set enables or disables exactly the policies whose name
/// starts with the set's name and a dash, in the targeted scopes, and changes
/// nothing else about any policy.
pub proof fn sets_switch_their_members(
    state: ProjectionStateView,
    set: Seq<char>,
    enabled: bool,
    target: ConfigurationTarget,
)
    ensures
        ({
            let op = FirewallOperationView::SetPolicySetEnabled { policy_set: set, enabled, target };
            let p = state.snapshot.policies;
            state.exactly(op) matches Ok(next) && next == state.with_policies(
                next.snapshot.policies.runtime,
                next.snapshot.policies.permanent,
            ) && switches(
                set,
                enabled,
                target != ConfigurationTarget::Permanent,
                p.runtime,
                next.snapshot.policies.runtime,
            ) && switches(
                set,
                enabled,
                target != ConfigurationTarget::Runtime,
                p.permanent,
                next.snapshot.policies.permanent,
            )
        }),
{
    let p = state.snapshot.policies;
    members_belong(set, p.runtime, p.runtime.len() as int);
    members_belong(set, p.permanent, p.permanent.len() as int);
    assert forall|name: Seq<char>| #[trigger] policy_set::belongs(set, name) == (set
        + "-"@).is_prefix_of(name) by {
        let start = set + "-"@;
        if start.len() <= name.len() {
            assert(policy_set::belongs(set, name) ==> start =~= name.subrange(
                0,
                start.len() as int,
            ));
        }
    }
}

/// The policies after a set was switched, or the same where it was not.
pub open spec fn switches(
    set: Seq<char>,
    enabled: bool,
    reached: bool,
    before: Seq<(Seq<char>, PolicyDetailsView)>,
    after: Seq<(Seq<char>, PolicyDetailsView)>,
) -> bool {
    &&& after.len() == before.len()
    &&& forall|i: int|
        0 <= i < before.len() ==> (#[trigger] after[i]).0 == before[i].0 && after[i].1
            == PolicyDetailsView {
            disabled: if reached && (set + "-"@).is_prefix_of(before[i].0) {
                !enabled
            } else {
                before[i].1.disabled
            },
            ..before[i].1
        }
}

proof fn members_belong(set: Seq<char>, policies: Seq<(Seq<char>, PolicyDetailsView)>, n: int)
    requires
        0 <= n <= policies.len(),
    ensures
        forall|k: Seq<char>| #[trigger]
            policy_set::members_of(set, policies, n).contains(k) ==> policy_set::belongs(set, k),
        forall|i: int|
            0 <= i < n && policy_set::belongs(set, (#[trigger] policies[i]).0)
                ==> policy_set::members_of(set, policies, n).contains(policies[i].0),
    decreases n,
{
    if n > 0 {
        members_belong(set, policies, n - 1);
        let before = policy_set::members_of(set, policies, n - 1);
        let all = policy_set::members_of(set, policies, n);
        if policy_set::belongs(set, policies[n - 1].0) {
            assert(all.last() == policies[n - 1].0);
            assert forall|k: Seq<char>| before.contains(k) implies all.contains(k) by {
                let j = choose|j: int| 0 <= j < before.len() && before[j] == k;
                assert(all[j] == k);
            }
            assert(all.contains(policies[n - 1].0)) by {
                assert(all[all.len() - 1] == policies[n - 1].0);
            }
            assert forall|k: Seq<char>| #[trigger] all.contains(k) implies policy_set::belongs(
                set,
                k,
            ) by {
                let j = choose|j: int| 0 <= j < all.len() && all[j] == k;
                if j < before.len() {
                    assert(before[j] == k);
                    assert(before.contains(k));
                }
            }
        }
    }
}

} // verus!
