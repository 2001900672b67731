//! What a projection keeps and what it leaves open.

use vstd::prelude::*;

use crate::operation::FirewallOperationView;
use crate::operation_effect;
use crate::operation_effect::OperationEffectView;
use crate::policy;
use crate::snapshot::{ConfigurationTarget, FirewallSnapshotView, SnapshotSection};
use crate::traffic_test::projection::ProjectionStateView;
use crate::traffic_test::report::EvaluationTarget;

verus! {

/// The runtime is the same in both states.
pub open spec fn same_runtime(a: ProjectionStateView, b: ProjectionStateView) -> bool {
    &&& a.snapshot.runtime == b.snapshot.runtime
    &&& a.snapshot.active == b.snapshot.active
    &&& a.snapshot.policies.runtime == b.snapshot.policies.runtime
    &&& a.snapshot.ipsets.runtime == b.snapshot.ipsets.runtime
    &&& a.snapshot.status == b.snapshot.status
    &&& a.service_definitions_runtime == b.service_definitions_runtime
    &&& a.available_services_runtime == b.available_services_runtime
    &&& a.unknown_runtime == b.unknown_runtime
    &&& a.degraded_runtime == b.degraded_runtime
}

/// What is stored is the same in both states.
pub open spec fn same_permanent(a: ProjectionStateView, b: ProjectionStateView) -> bool {
    &&& a.snapshot.permanent == b.snapshot.permanent
    &&& a.snapshot.policies.permanent == b.snapshot.policies.permanent
    &&& a.snapshot.ipsets.permanent == b.snapshot.ipsets.permanent
    &&& a.service_definitions_permanent == b.service_definitions_permanent
    &&& a.available_services_permanent == b.available_services_permanent
    &&& a.unknown_permanent == b.unknown_permanent
    &&& a.degraded_permanent == b.degraded_permanent
}

/// The scopes in which an operation edits are those that its effect names.
#[verifier::opaque]
spec fn scopes_agree(op: FirewallOperationView) -> bool {
    let targets = OperationEffectView::of(op).targets;
    &&& op.zone_scope() matches Some((_, target)) ==> target == op.target() && targets
        == operation_effect::sequence_of(target)
    &&& op.zone_scope() is None ==> (op.policy_scope() matches Some((_, target)) ==> target
        == op.target() && targets == operation_effect::sequence_of(target))
}

/// An operation that defines or switches objects names the scopes that it
/// changes.
#[verifier::opaque]
spec fn objects_agree(state: ProjectionStateView, op: FirewallOperationView) -> bool {
    let targets = OperationEffectView::of(op).targets;
    &&& state.definitions_edited(op) is Some ==> targets is Permanent
    &&& state.objects_edited(op) is Some ==> match op {
        FirewallOperationView::SetPanicMode { .. } => targets is Runtime,
        FirewallOperationView::SetPolicySetEnabled { target, .. } => targets
            == operation_effect::sequence_of(target),
        FirewallOperationView::SetDefaultZone { .. } => !(targets is Runtime) && !(
        targets is Permanent),
        _ => targets is Permanent,
    }
    &&& OperationEffectView::of(op).support is GlobalTransform ==> !(targets is Runtime) && !(
    targets is Permanent)
}

proof fn scopes_always_agree(op: FirewallOperationView)
    ensures
        scopes_agree(op),
{
    if op is AddService || op is AddTemporaryService || op is RemoveService || op is AddPort
        || op is RemovePort || op is SetDefaultZone || op is SetMasquerade
        || op is SetZoneTarget {
        assert(scopes_agree(op)) by {
            reveal(scopes_agree);
        }
    } else if op is AddSourcePort || op is RemoveSourcePort || op is AddProtocol
        || op is RemoveProtocol || op is SetForward || op is SetIcmpBlockInversion
        || op is AddForwardPort || op is RemoveForwardPort {
        assert(scopes_agree(op)) by {
            reveal(scopes_agree);
        }
    } else if op is AddRichRule || op is RemoveRichRule || op is AddInterface
        || op is RemoveInterface || op is AddSource || op is RemoveSource || op is AddIcmpBlock
        || op is RemoveIcmpBlock {
        assert(scopes_agree(op)) by {
            reveal(scopes_agree);
        }
    } else if op is CreateService || op is DeleteService || op is AddServicePort
        || op is RemoveServicePort || op is CreatePolicy || op is DeletePolicy
        || op is MigrateDirectRule || op is SetPolicyTarget {
        assert(scopes_agree(op)) by {
            reveal(scopes_agree);
        }
    } else if op is AddPolicyIngressZone || op is AddPolicyEgressZone || op is AddPolicyService
        || op is RemovePolicyService || op is SetPolicySetEnabled || op is CreateIpSet
        || op is DeleteIpSet || op is AddIpSetEntry {
        assert(scopes_agree(op)) by {
            reveal(scopes_agree);
        }
    } else {
        assert(scopes_agree(op)) by {
            reveal(scopes_agree);
        }
    }
}

proof fn objects_always_agree(state: ProjectionStateView, op: FirewallOperationView)
    ensures
        objects_agree(state, op),
{
    if op is AddService || op is AddTemporaryService || op is RemoveService || op is AddPort
        || op is RemovePort || op is SetDefaultZone || op is SetMasquerade
        || op is SetZoneTarget {
        assert(objects_agree(state, op)) by {
            reveal(objects_agree);
        }
    } else if op is AddSourcePort || op is RemoveSourcePort || op is AddProtocol
        || op is RemoveProtocol || op is SetForward || op is SetIcmpBlockInversion
        || op is AddForwardPort || op is RemoveForwardPort {
        assert(objects_agree(state, op)) by {
            reveal(objects_agree);
        }
    } else if op is AddRichRule || op is RemoveRichRule || op is AddInterface
        || op is RemoveInterface || op is AddSource || op is RemoveSource || op is AddIcmpBlock
        || op is RemoveIcmpBlock {
        assert(objects_agree(state, op)) by {
            reveal(objects_agree);
        }
    } else if op is CreateService || op is DeleteService || op is AddServicePort
        || op is RemoveServicePort || op is CreatePolicy || op is DeletePolicy
        || op is MigrateDirectRule || op is SetPolicyTarget {
        assert(objects_agree(state, op)) by {
            reveal(objects_agree);
        }
    } else if op is AddPolicyIngressZone || op is AddPolicyEgressZone || op is AddPolicyService
        || op is RemovePolicyService || op is SetPolicySetEnabled || op is CreateIpSet
        || op is DeleteIpSet || op is AddIpSetEntry {
        assert(objects_agree(state, op)) by {
            reveal(objects_agree);
        }
    } else {
        assert(objects_agree(state, op)) by {
            reveal(objects_agree);
        }
    }
}

/// An operation on the runtime leaves what is stored alone, and an operation
/// on what is stored leaves the runtime alone.
pub proof fn operations_stay_in_their_scope(
    state: ProjectionStateView,
    index: usize,
    op: FirewallOperationView,
)
    ensures
        state.applied(index, op) matches Ok(next) ==> (OperationEffectView::of(op).targets is Runtime
            ==> same_permanent(next, state)) && (OperationEffectView::of(op).targets is Permanent
            ==> same_runtime(next, state)),
{
    scopes_always_agree(op);
    objects_always_agree(state, op);
    reveal(scopes_agree);
    reveal(objects_agree);
}

/// An operation on a single scope that fails changes nothing at all. One on
/// both scopes leaves at least what is stored alone.
pub proof fn failed_operations_change_nothing(
    state: ProjectionStateView,
    index: usize,
    op: FirewallOperationView,
)
    requires
        state.applied(index, op) is Err,
    ensures
        op.target() != ConfigurationTarget::RuntimeAndPermanent ==> state.left(op) == state,
        same_permanent(state.left(op), state),
{
    scopes_always_agree(op);
    reveal(scopes_agree);
}

/// An operation with one exact transition and a single scope leaves the other
/// scope alone, whether it succeeds or fails.
pub proof fn exact_operations_stay_in_their_target(
    state: ProjectionStateView,
    op: FirewallOperationView,
)
    requires
        OperationEffectView::of(op).support is SupportedExact || OperationEffectView::of(
            op,
        ).support is SupportedAtEvaluationInstant,
    ensures
        op.target() == ConfigurationTarget::Permanent ==> (state.exactly(op) matches Ok(next)
            ==> same_runtime(next, state)),
        op.target() == ConfigurationTarget::Runtime ==> (state.exactly(op) matches Ok(next)
            ==> same_permanent(next, state)),
        op.target() != ConfigurationTarget::RuntimeAndPermanent ==> (state.exactly(op) is Err
            ==> state.left(op) == state),
{
    scopes_always_agree(op);
    reveal(scopes_agree);
}

/// Projecting on one scope leaves the other scope of the base as it is.
pub proof fn candidates_leave_the_other_scope(
    state: ProjectionStateView,
    base: FirewallSnapshotView,
)
    ensures
        ({
            let c = state.candidate(base, EvaluationTarget::Runtime);
            &&& c.permanent == base.permanent
            &&& c.policies.permanent == base.policies.permanent
            &&& c.ipsets.permanent == base.ipsets.permanent
        }),
        ({
            let c = state.candidate(base, EvaluationTarget::Permanent);
            &&& c.runtime == base.runtime
            &&& c.active == base.active
            &&& c.policies.runtime == base.policies.runtime
            &&& c.ipsets.runtime == base.ipsets.runtime
            &&& c.status == base.status
        }),
{
}

/// Without operations the candidate is the base itself; its degraded records
/// are those of the scope.
pub proof fn nothing_projects_to_the_base(base: FirewallSnapshotView, target: EvaluationTarget)
    ensures
        ({
            let c = ProjectionStateView::of(base).candidate(base, target);
            (FirewallSnapshotView { degraded: base.degraded, ..c }) == base
        }),
        ProjectionStateView::of(base).unknown(target).len() == 0,
{
}

/// The first operation that cannot be projected ends the projection: whatever
/// follows, the outcome is its error.
pub proof fn failure_ends_the_projection(
    state: ProjectionStateView,
    ops: Seq<FirewallOperationView>,
    n: int,
    m: int,
)
    requires
        0 <= n <= m <= ops.len(),
        state.after(ops, n) is Err,
    ensures
        state.after(ops, m) == state.after(ops, n),
    decreases m,
{
    if n < m {
        failure_ends_the_projection(state, ops, n, m - 1);
    }
}

/// What the first operations do does not depend on those that follow.
pub proof fn later_operations_do_not_matter(
    state: ProjectionStateView,
    a: Seq<FirewallOperationView>,
    b: Seq<FirewallOperationView>,
    n: int,
)
    requires
        0 <= n <= a.len(),
        n <= b.len(),
        a.take(n) == b.take(n),
    ensures
        state.after(a, n) == state.after(b, n),
    decreases n,
{
    if n > 0 {
        assert(a.take(n)[n - 1] == a[n - 1] && b.take(n)[n - 1] == b[n - 1]);
        assert(a.take(n - 1) =~= a.take(n).take(n - 1));
        assert(b.take(n - 1) =~= b.take(n).take(n - 1));
        later_operations_do_not_matter(state, a, b, n - 1);
    }
}

/// The effect of every one of the first `n` operations is modeled.
pub open spec fn modeled(ops: Seq<FirewallOperationView>, n: int) -> bool {
    forall|i: int|
        0 <= i < n ==> !(OperationEffectView::of(#[trigger] ops[i]).support is UnsupportedRelevant)
}

/// A projection is exact where every effect is modeled: nothing stays unknown
/// in either scope.
pub proof fn modeled_operations_leave_nothing_unknown(
    base: FirewallSnapshotView,
    ops: Seq<FirewallOperationView>,
    n: int,
)
    requires
        0 <= n <= ops.len(),
        modeled(ops, n),
    ensures
        ProjectionStateView::of(base).after(
            ops,
            n,
        ) matches Ok(state) ==> state.unknown_runtime.len()
            == 0 && state.unknown_permanent.len() == 0,
    decreases n,
{
    if n > 0 {
        modeled_operations_leave_nothing_unknown(base, ops, n - 1);
        assert(!(OperationEffectView::of(ops[n - 1]).support is UnsupportedRelevant));
    }
}

/// Every unknown effect names the operation that it comes from.
pub proof fn unknown_effects_name_an_operation(
    base: FirewallSnapshotView,
    ops: Seq<FirewallOperationView>,
    n: int,
)
    requires
        0 <= n <= ops.len(),
        ops.len() <= usize::MAX,
    ensures
        ProjectionStateView::of(base).after(ops, n) matches Ok(state) ==> (forall|i: int|
            0 <= i < state.unknown_runtime.len() ==> (
            #[trigger] state.unknown_runtime[i]).operation_index < n) && (forall|i: int|
            0 <= i < state.unknown_permanent.len() ==> (
            #[trigger] state.unknown_permanent[i]).operation_index < n),
    decreases n,
{
    if n > 0 {
        unknown_effects_name_an_operation(base, ops, n - 1);
    }
}

/// An effect that is not modeled is recorded in every scope that it touches,
/// and changes nothing else.
pub proof fn unmodeled_effects_are_recorded(
    state: ProjectionStateView,
    index: usize,
    op: FirewallOperationView,
)
    requires
        OperationEffectView::of(op).support is UnsupportedRelevant,
    ensures
        state.applied(index, op) matches Ok(next) && next.snapshot == state.snapshot && (
        OperationEffectView::of(op).targets is Runtime ==> next.unknown_runtime.len()
            == state.unknown_runtime.len() + 1) && (OperationEffectView::of(op).targets is Permanent
            ==> next.unknown_permanent.len() == state.unknown_permanent.len() + 1),
{
}

/// A reload makes the runtime what is stored, with all that is not known of
/// it; a second one changes nothing.
pub proof fn reload_replaces_the_runtime(state: ProjectionStateView)
    ensures
        state.reloaded().snapshot.runtime == state.snapshot.permanent,
        state.reloaded().snapshot.ipsets.runtime == state.snapshot.ipsets.permanent,
        state.reloaded().unknown_runtime == state.unknown_permanent,
        state.reloaded().degraded_runtime == state.degraded_permanent,
        same_permanent(state.reloaded(), state),
        state.reloaded().reloaded() == state.reloaded(),
{
}

/// Storing the runtime makes the two scopes agree, with all that is not known
/// of the runtime, and leaves the runtime alone.
pub proof fn saving_stores_the_runtime(state: ProjectionStateView)
    ensures
        state.saved().snapshot.permanent == state.snapshot.runtime,
        state.saved().snapshot.ipsets.permanent == state.snapshot.ipsets.runtime,
        state.saved().unknown_permanent == state.unknown_runtime,
        state.saved().degraded_permanent == state.degraded_runtime,
        same_runtime(state.saved(), state),
{
}

/// A reload after storing the runtime gives the runtime's zones, ip sets,
/// service definitions and unknown effects back.
pub proof fn saved_runtime_survives_a_reload(state: ProjectionStateView)
    ensures
        state.saved().reloaded().snapshot.runtime == state.snapshot.runtime,
        state.saved().reloaded().snapshot.ipsets.runtime == state.snapshot.ipsets.runtime,
        state.saved().reloaded().service_definitions_runtime == state.service_definitions_runtime,
        state.saved().reloaded().available_services_runtime == state.available_services_runtime,
        state.saved().reloaded().unknown_runtime == state.unknown_runtime,
{
}

/// After the runtime was stored, or replaced by what is stored, nothing has
/// drifted, as far as zones, ip sets and policies were read.
pub proof fn copying_a_scope_leaves_no_drift(state: ProjectionStateView)
    requires
        state.snapshot.complete(
            SnapshotSection::Zones,
            ConfigurationTarget::RuntimeAndPermanent,
        ),
        state.snapshot.complete(
            SnapshotSection::IpSets,
            ConfigurationTarget::RuntimeAndPermanent,
        ),
        state.snapshot.complete(
            SnapshotSection::Policies,
            ConfigurationTarget::RuntimeAndPermanent,
        ),
    ensures
        state.saved().snapshot.synced(),
        state.reloaded().snapshot.synced(),
{
    let saved = state.saved().snapshot;
    let reloaded = state.reloaded().snapshot;
    assert(saved.degraded == state.snapshot.degraded);
    assert(reloaded.degraded == state.snapshot.degraded);
    assert(policy::configurations(saved.policies.runtime) =~= policy::configurations(
        saved.policies.permanent,
    ));
    assert(policy::configurations(reloaded.policies.runtime) =~= policy::configurations(
        reloaded.policies.permanent,
    ));
}

} // verus!
