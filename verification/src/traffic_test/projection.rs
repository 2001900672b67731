//! Pure target-specific projection of reviewed firewall operations.

use vstd::prelude::*;

use std::sync::Arc;
use crate::ids::{PolicyName, PolicySetName, ServiceName, ZoneName};
use crate::lists;
use crate::model;
use crate::model::Value;
use crate::name_map;
use crate::name_map::NameMap;
use crate::number;
use crate::operation::{FirewallOperation, FirewallOperationView};
use crate::operation_effect::{
    AffectedObject, AffectedObjectView, OperationEffectSupport, OperationEffectView,
    OperationTargetSequence, TrafficDimension, UnsupportedOperationReason,
};
use crate::policy::{PolicyDetails, PolicyDetailsView};
use crate::policy_set;
use crate::policy_set::PolicySetDetails;
use crate::port::PortSpec;
use crate::service::{ServiceDefinition, ServiceDefinitionView};
use crate::snapshot::{
    ConfigurationTarget, DegradedSection, DegradedSectionView, FirewallSnapshot,
    FirewallSnapshotView, Scoped,
};
use crate::text;
use crate::traffic_test::index;
use crate::traffic_test::report;
use crate::traffic_test::report::{
    CandidateIdentity, CandidateIdentityView, EvaluationPlanId, EvaluationSnapshotIdentity,
    EvaluationTarget, MutationIntentId, OrderedOperationDigest,
};
use crate::zone::{ActiveZone, ActiveZoneView, ZoneDetails, ZoneDetailsView};

pub mod laws;
pub mod meaning;
pub mod undo;

verus! {

/// One traffic-relevant operation whose target state cannot be represented exactly.
#[derive(Debug, PartialEq, Eq)]
pub struct ProjectionUnknownEffect {
    operation_index: usize,
    reason: UnsupportedOperationReason,
    object: AffectedObject,
    dimensions: Vec<TrafficDimension>,
}

/// What a `ProjectionUnknownEffect` models.
#[verifier::ext_equal]
pub struct ProjectionUnknownEffectView {
    pub operation_index: usize,
    pub reason: UnsupportedOperationReason,
    pub object: AffectedObjectView,
    pub dimensions: Seq<TrafficDimension>,
}

impl DeepView for ProjectionUnknownEffect {
    type V = ProjectionUnknownEffectView;

    closed spec fn deep_view(&self) -> ProjectionUnknownEffectView {
        ProjectionUnknownEffectView {
            operation_index: self.operation_index.deep_view(),
            reason: self.reason.deep_view(),
            object: self.object.deep_view(),
            dimensions: self.dimensions.deep_view(),
        }
    }
}

impl Value for ProjectionUnknownEffect {
    fn same(&self, other: &Self) -> (r: bool) {
        self.operation_index == other.operation_index
            && self.reason == other.reason
            && self.object.same(&other.object)
            && self.dimensions.same(&other.dimensions)
    }

    fn dup(&self) -> (r: Self) {
        ProjectionUnknownEffect {
            operation_index: self.operation_index,
            reason: self.reason,
            object: self.object.dup(),
            dimensions: self.dimensions.dup(),
        }
    }
}

impl Clone for ProjectionUnknownEffect {
    fn clone(&self) -> (r: Self)
        ensures
            r.deep_view() == self.deep_view(),
    {
        self.dup()
    }
}

impl ProjectionUnknownEffect {
    /// Names an operation whose effect is not modeled.
    pub fn new(
        operation_index: usize,
        reason: UnsupportedOperationReason,
        object: AffectedObject,
        dimensions: Vec<TrafficDimension>,
    ) -> (r: Self)
        ensures
            r.deep_view() == (ProjectionUnknownEffectView {
                operation_index,
                reason,
                object: object.deep_view(),
                dimensions: dimensions.deep_view(),
            }),
    {
        ProjectionUnknownEffect { operation_index, reason, object, dimensions }
    }

    /// Returns the zero-based position in the reviewed operation sequence.
    pub fn operation_index(&self) -> (r: usize)
        ensures
            r == self.deep_view().operation_index,
    {
        self.operation_index
    }

    /// Returns why this operation cannot be projected exactly.
    pub fn reason(&self) -> (r: UnsupportedOperationReason)
        ensures
            r == self.deep_view().reason,
    {
        self.reason
    }

    /// Returns the affected firewall object.
    pub fn object(&self) -> (r: &AffectedObject)
        ensures
            r.deep_view() == self.deep_view().object,
    {
        &self.object
    }

    /// Returns the traffic dimensions that may have changed.
    pub fn dimensions(&self) -> (r: &Vec<TrafficDimension>)
        ensures
            r.deep_view() == self.deep_view().dimensions,
    {
        &self.dimensions
    }
}

/// One immutable target-specific candidate plus any typed uncertainty.
#[derive(Debug, PartialEq, Eq)]
pub struct CandidateProjection {
    identity: CandidateIdentity,
    snapshot: Arc<FirewallSnapshot>,
    unknown_effects: Vec<ProjectionUnknownEffect>,
}

/// What a `CandidateProjection` models.
#[verifier::ext_equal]
pub struct CandidateProjectionView {
    pub identity: CandidateIdentityView,
    pub snapshot: FirewallSnapshotView,
    pub unknown_effects: Seq<ProjectionUnknownEffectView>,
}

impl DeepView for CandidateProjection {
    type V = CandidateProjectionView;

    closed spec fn deep_view(&self) -> CandidateProjectionView {
        CandidateProjectionView {
            identity: self.identity.deep_view(),
            snapshot: self.snapshot.deep_view(),
            unknown_effects: self.unknown_effects.deep_view(),
        }
    }
}

impl Clone for CandidateProjection {
    fn clone(&self) -> (r: Self)
        ensures
            r.deep_view() == self.deep_view(),
    {
        CandidateProjection {
            identity: self.identity,
            snapshot: Arc::clone(&self.snapshot),
            unknown_effects: self.unknown_effects.dup(),
        }
    }
}

impl CandidateProjection {
    /// Returns the candidate correlation identity.
    pub fn identity(&self) -> (r: CandidateIdentity)
        ensures
            r.deep_view() == self.deep_view().identity,
    {
        self.identity
    }

    /// Returns the projected target-specific snapshot.
    pub fn snapshot(&self) -> (r: &FirewallSnapshot)
        ensures
            r.deep_view() == self.deep_view().snapshot,
    {
        &self.snapshot
    }

    /// Returns the immutable projected snapshot allocation.
    pub fn snapshot_arc(&self) -> (r: &Arc<FirewallSnapshot>)
        ensures
            r.deep_view() == self.deep_view().snapshot,
    {
        &self.snapshot
    }

    /// Returns operations that prevent an exact verdict for affected scenarios.
    pub fn unknown_effects(&self) -> (r: &Vec<ProjectionUnknownEffect>)
        ensures
            r.deep_view() == self.deep_view().unknown_effects,
    {
        &self.unknown_effects
    }

    /// Whether every traffic-relevant effect was represented exactly.
    pub fn is_exact(&self) -> (r: bool)
        ensures
            r == (self.deep_view().unknown_effects.len() == 0),
    {
        self.unknown_effects.len() == 0
    }
}

/// Candidate projection failed before a target snapshot could be produced.
#[derive(Debug, PartialEq, Eq)]
pub enum CandidateProjectionError {
    /// An operation sequence could not be encoded for identity correlation.
    OperationEncoding {
        /// Zero-based operation position.
        operation_index: usize,
    },
    /// A zone mutation referenced no object in one required scope.
    MissingZone {
        /// Required target.
        target: &'static str,
        /// Missing identity.
        zone: ZoneName,
    },
    /// A policy mutation referenced no object in one required scope.
    MissingPolicy {
        /// Required target.
        target: &'static str,
        /// Missing identity.
        policy: PolicyName,
    },
    /// A service-definition mutation referenced no permanent object.
    MissingServiceDefinition {
        /// Missing identity.
        service: ServiceName,
    },
    /// A lifecycle operation would overwrite an existing object.
    ObjectAlreadyExists {
        /// Object family.
        kind: &'static str,
        /// Stable object name.
        name: String,
    },
}

/// What a `CandidateProjectionError` models.
#[verifier::ext_equal]
pub enum CandidateProjectionErrorView {
    OperationEncoding { operation_index: usize },
    MissingZone { target: Seq<char>, zone: Seq<char> },
    MissingPolicy { target: Seq<char>, policy: Seq<char> },
    MissingServiceDefinition { service: Seq<char> },
    ObjectAlreadyExists { kind: Seq<char>, name: Seq<char> },
}

impl DeepView for CandidateProjectionError {
    type V = CandidateProjectionErrorView;

    open spec fn deep_view(&self) -> CandidateProjectionErrorView {
        match self {
            CandidateProjectionError::OperationEncoding { operation_index } =>
                CandidateProjectionErrorView::OperationEncoding {
                    operation_index: operation_index.deep_view()
                },
            CandidateProjectionError::MissingZone { target, zone } =>
                CandidateProjectionErrorView::MissingZone {
                    target: target@,
                    zone: zone.deep_view(),
                },
            CandidateProjectionError::MissingPolicy { target, policy } =>
                CandidateProjectionErrorView::MissingPolicy {
                    target: target@,
                    policy: policy.deep_view(),
                },
            CandidateProjectionError::MissingServiceDefinition { service } =>
                CandidateProjectionErrorView::MissingServiceDefinition {
                    service: service.deep_view()
                },
            CandidateProjectionError::ObjectAlreadyExists { kind, name } =>
                CandidateProjectionErrorView::ObjectAlreadyExists {
                    kind: kind@,
                    name: name.deep_view(),
                },
        }
    }
}

impl Value for CandidateProjectionError {
    fn same(&self, other: &Self) -> (r: bool) {
        match (self, other) {
            (
                CandidateProjectionError::OperationEncoding { operation_index },
                CandidateProjectionError::OperationEncoding {
                    operation_index: operation_index_other
                },
            ) => *operation_index == *operation_index_other,
            (
                CandidateProjectionError::MissingZone { target, zone },
                CandidateProjectionError::MissingZone { target: target_other, zone: zone_other },
            ) => text::same(target, target_other) && zone.same(zone_other),
            (
                CandidateProjectionError::MissingPolicy { target, policy },
                CandidateProjectionError::MissingPolicy {
                    target: target_other,
                    policy: policy_other,
                },
            ) => text::same(target, target_other) && policy.same(policy_other),
            (
                CandidateProjectionError::MissingServiceDefinition { service },
                CandidateProjectionError::MissingServiceDefinition { service: service_other },
            ) => service.same(service_other),
            (
                CandidateProjectionError::ObjectAlreadyExists { kind, name },
                CandidateProjectionError::ObjectAlreadyExists {
                    kind: kind_other,
                    name: name_other,
                },
            ) => text::same(kind, kind_other) && name.same(name_other),
            _ => false,
        }
    }

    fn dup(&self) -> (r: Self) {
        match self {
            CandidateProjectionError::OperationEncoding { operation_index } =>
                CandidateProjectionError::OperationEncoding { operation_index: *operation_index },
            CandidateProjectionError::MissingZone { target, zone } =>
                CandidateProjectionError::MissingZone { target: target, zone: zone.dup() },
            CandidateProjectionError::MissingPolicy { target, policy } =>
                CandidateProjectionError::MissingPolicy { target: target, policy: policy.dup() },
            CandidateProjectionError::MissingServiceDefinition { service } =>
                CandidateProjectionError::MissingServiceDefinition { service: service.dup() },
            CandidateProjectionError::ObjectAlreadyExists { kind, name } =>
                CandidateProjectionError::ObjectAlreadyExists { kind: kind, name: name.dup() },
        }
    }
}

impl Clone for CandidateProjectionError {
    fn clone(&self) -> (r: Self)
        ensures
            r.deep_view() == self.deep_view(),
    {
        self.dup()
    }
}

impl CandidateProjectionErrorView {
    /// The sentence that describes the failure.
    pub open spec fn message(self) -> Seq<char> {
        match self {
            CandidateProjectionErrorView::OperationEncoding { operation_index } =>
                "failed to encode operation "@
                + number::decimal(operation_index as nat) + " for candidate identity"@,
            CandidateProjectionErrorView::MissingZone { target, zone } => "zone `"@ + zone
                + "` is missing from the "@ + target + " candidate"@,
            CandidateProjectionErrorView::MissingPolicy { target, policy } => "policy `"@ + policy
                + "` is missing from the "@ + target + " candidate"@,
            CandidateProjectionErrorView::MissingServiceDefinition { service } =>
                "service definition `"@
                + service + "` is missing from the permanent candidate"@,
            CandidateProjectionErrorView::ObjectAlreadyExists { kind, name } => kind + " `"@ + name
                + "` already exists in the permanent candidate"@,
        }
    }
}

impl CandidateProjectionError {
    /// The sentence that describes the failure.
    pub fn message(&self) -> (r: String)
        ensures
            r@ == self.deep_view().message(),
    {
        match self {
            CandidateProjectionError::OperationEncoding { operation_index } => {
                let operation_index_text = number::show(*operation_index as u64);
                text::cat3(
                    "failed to encode operation ",
                    operation_index_text.as_str(),
                    " for candidate identity",
                )
            },
            CandidateProjectionError::MissingZone { target, zone } => text::cat5(
                "zone `",
                zone.as_str(),
                "` is missing from the ",
                target,
                " candidate",
            ),
            CandidateProjectionError::MissingPolicy { target, policy } => text::cat5(
                "policy `",
                policy.as_str(),
                "` is missing from the ",
                target,
                " candidate",
            ),
            CandidateProjectionError::MissingServiceDefinition { service } => text::cat3(
                "service definition `",
                service.as_str(),
                "` is missing from the permanent candidate",
            ),
            CandidateProjectionError::ObjectAlreadyExists { kind, name } => text::cat4(
                kind,
                " `",
                name.as_str(),
                "` already exists in the permanent candidate",
            ),
        }
    }
}

/// Both scopes while operations are applied to them, one after the other.
#[derive(Debug)]
pub struct ProjectionState {
    /// The configuration of both scopes.
    pub snapshot: FirewallSnapshot,
    /// Service definitions that the runtime uses.
    pub service_definitions_runtime: NameMap<ServiceName, ServiceDefinition>,
    /// Service definitions that are stored.
    pub service_definitions_permanent: NameMap<ServiceName, ServiceDefinition>,
    /// Services that the runtime knows.
    pub available_services_runtime: Vec<ServiceName>,
    /// Services that are stored.
    pub available_services_permanent: Vec<ServiceName>,
    /// Effects on the runtime that are not modeled.
    pub unknown_runtime: Vec<ProjectionUnknownEffect>,
    /// Effects on the permanent scope that are not modeled.
    pub unknown_permanent: Vec<ProjectionUnknownEffect>,
    /// Observations of the runtime that failed.
    pub degraded_runtime: Vec<DegradedSection>,
    /// Observations of the permanent scope that failed.
    pub degraded_permanent: Vec<DegradedSection>,
}

/// What a `ProjectionState` models.
#[verifier::ext_equal]
pub struct ProjectionStateView {
    pub snapshot: FirewallSnapshotView,
    pub service_definitions_runtime: Seq<(Seq<char>, ServiceDefinitionView)>,
    pub service_definitions_permanent: Seq<(Seq<char>, ServiceDefinitionView)>,
    pub available_services_runtime: Seq<Seq<char>>,
    pub available_services_permanent: Seq<Seq<char>>,
    pub unknown_runtime: Seq<ProjectionUnknownEffectView>,
    pub unknown_permanent: Seq<ProjectionUnknownEffectView>,
    pub degraded_runtime: Seq<DegradedSectionView>,
    pub degraded_permanent: Seq<DegradedSectionView>,
}

impl DeepView for ProjectionState {
    type V = ProjectionStateView;

    open spec fn deep_view(&self) -> ProjectionStateView {
        ProjectionStateView {
            snapshot: self.snapshot.deep_view(),
            service_definitions_runtime: self.service_definitions_runtime.deep_view(),
            service_definitions_permanent: self.service_definitions_permanent.deep_view(),
            available_services_runtime: self.available_services_runtime.deep_view(),
            available_services_permanent: self.available_services_permanent.deep_view(),
            unknown_runtime: self.unknown_runtime.deep_view(),
            unknown_permanent: self.unknown_permanent.deep_view(),
            degraded_runtime: self.degraded_runtime.deep_view(),
            degraded_permanent: self.degraded_permanent.deep_view(),
        }
    }
}

// ---------------------------------------------------------------------------
// What an operation does to the state
// ---------------------------------------------------------------------------
/// The failures that concern the target, or no target in particular.
pub open spec fn degraded_of(records: Seq<DegradedSectionView>, target: ConfigurationTarget) -> Seq<
    DegradedSectionView,
>
    decreases records.len(),
{
    if records.len() == 0 {
        Seq::empty()
    } else {
        let before = degraded_of(records.drop_last(), target);
        let record = records.last();
        if record.target is None || record.target == Some(target) || record.target == Some(
            ConfigurationTarget::RuntimeAndPermanent,
        ) {
            before.push(record)
        } else {
            before
        }
    }
}

/// The failures, each that names a target now naming this one.
pub open spec fn normalized(records: Seq<DegradedSectionView>, target: ConfigurationTarget) -> Seq<
    DegradedSectionView,
> {
    Seq::new(
        records.len(),
        |i: int|
            if records[i].target is Some {
                DegradedSectionView { target: Some(target), ..records[i] }
            } else {
                records[i]
            },
    )
}

/// What binds traffic to a zone, if anything does.
pub open spec fn bound(zone: ZoneDetailsView) -> Option<ActiveZoneView> {
    if zone.interfaces.len() == 0 && zone.sources.len() == 0 {
        None
    } else {
        Some(ActiveZoneView { interfaces: zone.interfaces, sources: zone.sources })
    }
}

/// The zones to which something binds traffic.
pub open spec fn bound_zones(zones: Seq<(Seq<char>, ZoneDetailsView)>) -> Seq<
    (Seq<char>, ActiveZoneView),
>
    decreases zones.len(),
{
    if zones.len() == 0 {
        Seq::empty()
    } else {
        let before = bound_zones(zones.drop_last());
        match bound(zones.last().1) {
            Some(binding) => before.push((zones.last().0, binding)),
            None => before,
        }
    }
}

/// The active zones with one of them as the runtime now has it.
pub open spec fn synced(
    active: Seq<(Seq<char>, ActiveZoneView)>,
    runtime: Seq<(Seq<char>, ZoneDetailsView)>,
    zone: Seq<char>,
) -> Seq<(Seq<char>, ActiveZoneView)> {
    match name_map::lookup(runtime, zone) {
        None => name_map::cut(active, zone),
        Some(details) => match bound(details) {
            None => name_map::cut(active, zone),
            Some(binding) => name_map::put(active, zone, binding),
        },
    }
}

/// One side of a policy is in use: it names the host, any zone while one is
/// active, or an active zone.
pub open spec fn side_active(
    zones: Seq<Seq<char>>,
    active: Seq<(Seq<char>, ActiveZoneView)>,
) -> bool {
    exists|i: int| 0 <= i < zones.len() && #[trigger] names_active(zones[i], active)
}

/// The name stands for the host, for any active zone, or for an active zone.
pub open spec fn names_active(
    zone: Seq<char>,
    active: Seq<(Seq<char>, ActiveZoneView)>,
) -> bool {
    ||| zone == "HOST"@
    ||| zone == "ANY"@ && active.len() > 0
    ||| ZoneName::parsed(zone) is Ok && name_map::lookup(active, zone) is Some
}

/// The policies, each active exactly if both its sides are in use.
pub open spec fn reactivated(
    policies: Seq<(Seq<char>, PolicyDetailsView)>,
    active: Seq<(Seq<char>, ActiveZoneView)>,
) -> Seq<(Seq<char>, PolicyDetailsView)> {
    Seq::new(
        policies.len(),
        |i: int|
            (
                policies[i].0,
                PolicyDetailsView {
                    active: side_active(policies[i].1.ingress_zones, active) && side_active(
                        policies[i].1.egress_zones,
                        active,
                    ),
                    ..policies[i].1
                },
            ),
    )
}

/// The policies, none of them active.
pub open spec fn deactivated(policies: Seq<(Seq<char>, PolicyDetailsView)>) -> Seq<
    (Seq<char>, PolicyDetailsView),
> {
    Seq::new(
        policies.len(),
        |i: int| (policies[i].0, PolicyDetailsView { active: false, ..policies[i].1 }),
    )
}

/// The policies, with the members of a set enabled or disabled.
pub open spec fn switched(
    policies: Seq<(Seq<char>, PolicyDetailsView)>,
    members: Seq<Seq<char>>,
    enabled: bool,
) -> Seq<(Seq<char>, PolicyDetailsView)> {
    Seq::new(
        policies.len(),
        |i: int|
            (
                policies[i].0,
                if members.contains(policies[i].0) {
                    PolicyDetailsView { disabled: !enabled, ..policies[i].1 }
                } else {
                    policies[i].1
                },
            ),
    )
}

/// The runtime is among the scopes of the target.
pub open spec fn reaches_runtime(target: ConfigurationTarget) -> bool {
    target != ConfigurationTarget::Permanent
}

/// The permanent scope is among the scopes of the target.
pub open spec fn reaches_permanent(target: ConfigurationTarget) -> bool {
    target != ConfigurationTarget::Runtime
}

impl ProjectionStateView {
    /// Both scopes as a snapshot shows them.
    pub open spec fn of(base: FirewallSnapshotView) -> ProjectionStateView {
        ProjectionStateView {
            snapshot: base,
            service_definitions_runtime: base.service_definitions,
            service_definitions_permanent: base.service_definitions,
            available_services_runtime: base.available_services,
            available_services_permanent: base.available_services,
            unknown_runtime: Seq::empty(),
            unknown_permanent: Seq::empty(),
            degraded_runtime: degraded_of(base.degraded, ConfigurationTarget::Runtime),
            degraded_permanent: degraded_of(base.degraded, ConfigurationTarget::Permanent),
        }
    }

    /// The state after an effect that is not modeled.
    pub open spec fn marked(
        self,
        targets: OperationTargetSequence,
        marker: ProjectionUnknownEffectView,
    ) -> ProjectionStateView {
        match targets {
            OperationTargetSequence::Runtime => ProjectionStateView {
                unknown_runtime: self.unknown_runtime.push(marker),
                ..self
            },
            OperationTargetSequence::Permanent => ProjectionStateView {
                unknown_permanent: self.unknown_permanent.push(marker),
                ..self
            },
            OperationTargetSequence::RuntimeThenPermanent => ProjectionStateView {
                unknown_runtime: self.unknown_runtime.push(marker),
                unknown_permanent: self.unknown_permanent.push(marker),
                ..self
            },
            OperationTargetSequence::RuntimeAndPermanent => ProjectionStateView {
                unknown_runtime: self.unknown_runtime.push(marker),
                unknown_permanent: self.unknown_permanent.push(marker),
                ..self
            },
            OperationTargetSequence::RuntimeFromPermanent => ProjectionStateView {
                unknown_runtime: self.unknown_permanent,
                ..self
            },
            OperationTargetSequence::PermanentFromRuntime => ProjectionStateView {
                unknown_permanent: self.unknown_runtime,
                ..self
            },
        }
    }

    /// The state after the zone's details were edited in the scopes of the
    /// target. The zone has to be there in each of them.
    pub open spec fn zones_edited(
        self,
        operation: FirewallOperationView,
        zone: Seq<char>,
        target: ConfigurationTarget,
    ) -> Result<ProjectionStateView, CandidateProjectionErrorView> {
        let s = self.snapshot;
        let in_runtime = name_map::lookup(s.runtime, zone);
        let in_permanent = name_map::lookup(s.permanent, zone);
        if reaches_runtime(target) && in_runtime is None {
            Err(CandidateProjectionErrorView::MissingZone { target: "runtime"@, zone })
        } else if reaches_permanent(target) && in_permanent is None {
            Err(CandidateProjectionErrorView::MissingZone { target: "permanent"@, zone })
        } else {
            let runtime = if reaches_runtime(target) {
                name_map::put(s.runtime, zone, operation.zone_edited(in_runtime->0))
            } else {
                s.runtime
            };
            let permanent = if reaches_permanent(target) {
                name_map::put(s.permanent, zone, operation.zone_edited(in_permanent->0))
            } else {
                s.permanent
            };
            let active = if reaches_runtime(target) {
                synced(s.active, runtime, zone)
            } else {
                s.active
            };
            Ok(
                ProjectionStateView {
                    snapshot: FirewallSnapshotView { runtime, permanent, active, ..s },
                    ..self
                },
            )
        }
    }

    /// The state that an edit of a zone leaves where it fails: an edit of both
    /// scopes has already changed the runtime when the stored zone is missing.
    pub open spec fn zones_left(
        self,
        operation: FirewallOperationView,
        zone: Seq<char>,
        target: ConfigurationTarget,
    ) -> ProjectionStateView {
        match (target, self.zones_edited(operation, zone, ConfigurationTarget::Runtime)) {
            (ConfigurationTarget::RuntimeAndPermanent, Ok(edited)) => edited,
            _ => self,
        }
    }

    /// The state with other policies.
    pub open spec fn with_policies(
        self,
        runtime: Seq<(Seq<char>, PolicyDetailsView)>,
        permanent: Seq<(Seq<char>, PolicyDetailsView)>,
    ) -> ProjectionStateView {
        ProjectionStateView {
            snapshot: FirewallSnapshotView {
                policies: Scoped { runtime, permanent },
                ..self.snapshot
            },
            ..self
        }
    }

    /// The state after the policy's details were edited in the scopes of the
    /// target. The policy has to be there in each of them.
    pub open spec fn policies_edited(
        self,
        operation: FirewallOperationView,
        policy: Seq<char>,
        target: ConfigurationTarget,
    ) -> Result<ProjectionStateView, CandidateProjectionErrorView> {
        let p = self.snapshot.policies;
        let in_runtime = name_map::lookup(p.runtime, policy);
        let in_permanent = name_map::lookup(p.permanent, policy);
        if reaches_runtime(target) && in_runtime is None {
            Err(CandidateProjectionErrorView::MissingPolicy { target: "runtime"@, policy })
        } else if reaches_permanent(target) && in_permanent is None {
            Err(CandidateProjectionErrorView::MissingPolicy { target: "permanent"@, policy })
        } else {
            Ok(
                self.with_policies(
                    if reaches_runtime(target) {
                        name_map::put(p.runtime, policy, operation.policy_edited(in_runtime->0))
                    } else {
                        p.runtime
                    },
                    if reaches_permanent(target) {
                        name_map::put(p.permanent, policy, operation.policy_edited(in_permanent->0))
                    } else {
                        p.permanent
                    },
                ),
            )
        }
    }

    /// The state that an edit of a policy leaves where it fails: an edit of
    /// both scopes has already changed the runtime when the stored policy is
    /// missing.
    pub open spec fn policies_left(
        self,
        operation: FirewallOperationView,
        policy: Seq<char>,
        target: ConfigurationTarget,
    ) -> ProjectionStateView {
        match (target, self.policies_edited(operation, policy, ConfigurationTarget::Runtime)) {
            (ConfigurationTarget::RuntimeAndPermanent, Ok(edited)) => edited,
            _ => self,
        }
    }

    /// The state after the members of a policy set were switched.
    pub open spec fn set_switched(
        self,
        set: Seq<char>,
        enabled: bool,
        target: ConfigurationTarget,
    ) -> ProjectionStateView {
        let p = self.snapshot.policies;
        self.with_policies(
            if reaches_runtime(target) {
                let members = policy_set::members_of(set, p.runtime, p.runtime.len() as int);
                switched(p.runtime, members, enabled)
            } else {
                p.runtime
            },
            if reaches_permanent(target) {
                let members = policy_set::members_of(set, p.permanent, p.permanent.len() as int);
                switched(p.permanent, members, enabled)
            } else {
                p.permanent
            },
        )
    }

    /// The state with other stored service definitions.
    pub open spec fn with_definitions(
        self,
        definitions: Seq<(Seq<char>, ServiceDefinitionView)>,
        available: Seq<Seq<char>>,
    ) -> ProjectionStateView {
        ProjectionStateView {
            service_definitions_permanent: definitions,
            available_services_permanent: available,
            ..self
        }
    }

    /// The state after a service definition was created, deleted or edited, for
    /// the operations that do so. Definitions are stored permanently.
    pub open spec fn definitions_edited(self, operation: FirewallOperationView) -> Option<
        Result<ProjectionStateView, CandidateProjectionErrorView>,
    > {
        let known = self.service_definitions_permanent;
        let available = self.available_services_permanent;
        match operation {
            FirewallOperationView::CreateService { service } => Some(
                if name_map::lookup(known, service) is Some {
                    Err(
                        CandidateProjectionErrorView::ObjectAlreadyExists {
                            kind: "service definition"@,
                            name: service,
                        },
                    )
                } else {
                    Ok(
                        self.with_definitions(
                            name_map::put(known, service, ServiceDefinitionView::nothing()),
                            lists::with(available, service),
                        ),
                    )
                },
            ),
            FirewallOperationView::DeleteService { service } => Some(
                if name_map::lookup(known, service) is None {
                    Err(CandidateProjectionErrorView::MissingServiceDefinition { service })
                } else {
                    Ok(
                        self.with_definitions(
                            name_map::cut(known, service),
                            lists::without(available, service),
                        ),
                    )
                },
            ),
            FirewallOperationView::AddServicePort { service, port } => Some(
                match name_map::lookup(known, service) {
                    None => Err(CandidateProjectionErrorView::MissingServiceDefinition { service }),
                    Some(d) => Ok(
                        self.with_definitions(
                            name_map::put(
                                known,
                                service,
                                ServiceDefinitionView { ports: lists::with(d.ports, port), ..d },
                            ),
                            available,
                        ),
                    ),
                },
            ),
            FirewallOperationView::RemoveServicePort { service, port } => Some(
                match name_map::lookup(known, service) {
                    None => Err(CandidateProjectionErrorView::MissingServiceDefinition { service }),
                    Some(d) => Ok(
                        self.with_definitions(
                            name_map::put(
                                known,
                                service,
                                ServiceDefinitionView { ports: lists::without(d.ports, port), ..d },
                            ),
                            available,
                        ),
                    ),
                },
            ),
            _ => None,
        }
    }

    /// The state after a zone or policy was created or deleted, a policy set
    /// was switched, or a setting of the whole firewall changed, for the
    /// operations that do so.
    pub open spec fn objects_edited(self, operation: FirewallOperationView) -> Option<
        Result<ProjectionStateView, CandidateProjectionErrorView>,
    > {
        let s = self.snapshot;
        match operation {
            FirewallOperationView::SetDefaultZone { zone } => Some(
                Ok(
                    ProjectionStateView {
                        snapshot: FirewallSnapshotView { default_zone: zone, ..s },
                        ..self
                    },
                ),
            ),
            FirewallOperationView::SetPanicMode { enabled } => Some(
                Ok(
                    ProjectionStateView {
                        snapshot: FirewallSnapshotView {
                            status: crate::snapshot::FirewallStatusView {
                                panic_mode: enabled,
                                ..s.status
                            },
                            ..s
                        },
                        ..self
                    },
                ),
            ),
            FirewallOperationView::SetPolicySetEnabled { policy_set, enabled, target } => Some(
                Ok(self.set_switched(policy_set, enabled, target)),
            ),
            FirewallOperationView::CreateZone { zone } => Some(
                if name_map::lookup(s.permanent, zone) is Some {
                    Err(
                        CandidateProjectionErrorView::ObjectAlreadyExists {
                            kind: "zone"@,
                            name: zone,
                        },
                    )
                } else {
                    Ok(
                        ProjectionStateView {
                            snapshot: FirewallSnapshotView {
                                permanent: name_map::put(
                                    s.permanent,
                                    zone,
                                    ZoneDetailsView::empty(zone),
                                ),
                                ..s
                            },
                            ..self
                        },
                    )
                },
            ),
            FirewallOperationView::DeleteZone { zone } => Some(
                if name_map::lookup(s.permanent, zone) is None {
                    Err(CandidateProjectionErrorView::MissingZone { target: "permanent"@, zone })
                } else {
                    Ok(
                        ProjectionStateView {
                            snapshot: FirewallSnapshotView {
                                permanent: name_map::cut(s.permanent, zone),
                                ..s
                            },
                            ..self
                        },
                    )
                },
            ),
            FirewallOperationView::CreatePolicy { policy } => Some(
                if name_map::lookup(s.policies.permanent, policy) is Some {
                    Err(
                        CandidateProjectionErrorView::ObjectAlreadyExists {
                            kind: "policy"@,
                            name: policy,
                        },
                    )
                } else {
                    Ok(
                        self.with_policies(
                            s.policies.runtime,
                            name_map::put(
                                s.policies.permanent,
                                policy,
                                PolicyDetailsView::empty(policy),
                            ),
                        ),
                    )
                },
            ),
            FirewallOperationView::DeletePolicy { policy } => Some(
                if name_map::lookup(s.policies.permanent, policy) is None {
                    Err(
                        CandidateProjectionErrorView::MissingPolicy {
                            target: "permanent"@,
                            policy,
                        },
                    )
                } else {
                    Ok(
                        self.with_policies(
                            s.policies.runtime,
                            name_map::cut(s.policies.permanent, policy),
                        ),
                    )
                },
            ),
            _ => None,
        }
    }

    /// The state after an operation with one exact transition.
    pub open spec fn exactly(self, operation: FirewallOperationView) -> Result<
        ProjectionStateView,
        CandidateProjectionErrorView,
    > {
        match operation.zone_scope() {
            Some((zone, target)) => self.zones_edited(operation, zone, target),
            None => match operation.policy_scope() {
                Some((policy, target)) => self.policies_edited(operation, policy, target),
                None => match self.definitions_edited(operation) {
                    Some(edited) => edited,
                    None => match self.objects_edited(operation) {
                        Some(edited) => edited,
                        None => Ok(self),
                    },
                },
            },
        }
    }

    /// The state that an operation leaves where it fails.
    pub open spec fn left(self, operation: FirewallOperationView) -> ProjectionStateView {
        match operation.zone_scope() {
            Some((zone, target)) => self.zones_left(operation, zone, target),
            None => match operation.policy_scope() {
                Some((policy, target)) => self.policies_left(operation, policy, target),
                None => self,
            },
        }
    }

    /// The state after the runtime was replaced by what is stored.
    pub open spec fn reloaded(self) -> ProjectionStateView {
        let s = self.snapshot;
        let active = bound_zones(s.permanent);
        ProjectionStateView {
            snapshot: FirewallSnapshotView {
                runtime: s.permanent,
                active,
                policies: Scoped {
                    runtime: reactivated(s.policies.permanent, active),
                    permanent: s.policies.permanent,
                },
                ipsets: Scoped { runtime: s.ipsets.permanent, permanent: s.ipsets.permanent },
                ..s
            },
            service_definitions_runtime: self.service_definitions_permanent,
            available_services_runtime: self.available_services_permanent,
            unknown_runtime: self.unknown_permanent,
            degraded_runtime: self.degraded_permanent,
            ..self
        }
    }

    /// The state after the runtime was stored.
    pub open spec fn saved(self) -> ProjectionStateView {
        let s = self.snapshot;
        ProjectionStateView {
            snapshot: FirewallSnapshotView {
                permanent: s.runtime,
                policies: Scoped {
                    runtime: s.policies.runtime,
                    permanent: deactivated(s.policies.runtime),
                },
                ipsets: Scoped { runtime: s.ipsets.runtime, permanent: s.ipsets.runtime },
                ..s
            },
            service_definitions_permanent: self.service_definitions_runtime,
            available_services_permanent: self.available_services_runtime,
            unknown_permanent: self.unknown_runtime,
            degraded_permanent: self.degraded_runtime,
            ..self
        }
    }

    /// The state after an operation on the whole configuration.
    pub open spec fn globally(self, operation: FirewallOperationView) -> ProjectionStateView {
        match operation {
            FirewallOperationView::RuntimeToPermanent => self.saved(),
            FirewallOperationView::Reload => self.reloaded(),
            FirewallOperationView::SetLogDenied { .. } => self.reloaded(),
            _ => self,
        }
    }

    /// The state after the `i`th operation.
    pub open spec fn applied(
        self,
        operation_index: usize,
        operation: FirewallOperationView,
    ) -> Result<
        ProjectionStateView,
        CandidateProjectionErrorView,
    > {
        let effect = OperationEffectView::of(operation);
        match effect.support {
            OperationEffectSupport::UnsupportedRelevant(reason) => Ok(
                self.marked(
                    effect.targets,
                    ProjectionUnknownEffectView {
                        operation_index,
                        reason,
                        object: effect.object,
                        dimensions: effect.dimensions,
                    },
                ),
            ),
            OperationEffectSupport::TrafficIrrelevant(_) => Ok(self),
            OperationEffectSupport::GlobalTransform => Ok(self.globally(operation)),
            _ => self.exactly(operation),
        }
    }

    /// The state after the first `n` operations, or the first failure.
    pub open spec fn after(self, operations: Seq<FirewallOperationView>, n: int) -> Result<
        ProjectionStateView,
        CandidateProjectionErrorView,
    >
        decreases n,
    {
        if n <= 0 {
            Ok(self)
        } else {
            match self.after(operations, n - 1) {
                Err(e) => Err(e),
                Ok(state) => state.applied((n - 1) as usize, operations[n - 1]),
            }
        }
    }

    /// The base with the target's scope as the state has it. The default zone
    /// belongs to both scopes.
    pub open spec fn candidate(
        self,
        base: FirewallSnapshotView,
        target: EvaluationTarget,
    ) -> FirewallSnapshotView {
        let s = self.snapshot;
        match target {
            EvaluationTarget::Runtime => FirewallSnapshotView {
                default_zone: s.default_zone,
                runtime: s.runtime,
                active: s.active,
                policies: Scoped {
                    runtime: s.policies.runtime,
                    permanent: base.policies.permanent,
                },
                ipsets: Scoped { runtime: s.ipsets.runtime, permanent: base.ipsets.permanent },
                status: crate::snapshot::FirewallStatusView {
                    panic_mode: s.status.panic_mode,
                    ..base.status
                },
                service_definitions: self.service_definitions_runtime,
                available_services: self.available_services_runtime,
                degraded: normalized(self.degraded_runtime, ConfigurationTarget::Runtime),
                ..base
            },
            EvaluationTarget::Permanent => FirewallSnapshotView {
                default_zone: s.default_zone,
                permanent: s.permanent,
                policies: Scoped {
                    runtime: base.policies.runtime,
                    permanent: s.policies.permanent,
                },
                ipsets: Scoped { runtime: base.ipsets.runtime, permanent: s.ipsets.permanent },
                service_definitions: self.service_definitions_permanent,
                available_services: self.available_services_permanent,
                degraded: normalized(self.degraded_permanent, ConfigurationTarget::Permanent),
                ..base
            },
        }
    }

    /// The effects on the target that are not modeled.
    pub open spec fn unknown(self, target: EvaluationTarget) -> Seq<ProjectionUnknownEffectView> {
        match target {
            EvaluationTarget::Runtime => self.unknown_runtime,
            EvaluationTarget::Permanent => self.unknown_permanent,
        }
    }
}

/// An operation with its canonical encoding, `None` where encoding failed.
#[derive(Debug)]
pub struct EncodedOperation {
    /// The reviewed operation.
    pub operation: FirewallOperation,
    /// Its canonical bytes.
    pub encoding: Option<Vec<u8>>,
}

/// What an `EncodedOperation` models.
pub struct EncodedOperationView {
    pub operation: FirewallOperationView,
    pub encoding: Option<Seq<u8>>,
}

impl DeepView for EncodedOperation {
    type V = EncodedOperationView;

    open spec fn deep_view(&self) -> EncodedOperationView {
        EncodedOperationView {
            operation: self.operation.deep_view(),
            encoding: self.encoding.deep_view(),
        }
    }
}

/// The first operation from the `i`th on whose encoding failed.
pub open spec fn unencoded_from(operations: Seq<EncodedOperationView>, i: int) -> Option<int>
    decreases operations.len() - i,
{
    if i < 0 || i >= operations.len() {
        None
    } else if operations[i].encoding is None {
        Some(i)
    } else {
        unencoded_from(operations, i + 1)
    }
}

/// The operations without their encodings.
pub open spec fn bare(operations: Seq<EncodedOperationView>) -> Seq<FirewallOperationView> {
    Seq::new(operations.len(), |i: int| operations[i].operation)
}

/// The encodings of the operations.
pub open spec fn encodings(operations: Seq<EncodedOperationView>) -> Seq<Seq<u8>> {
    Seq::new(operations.len(), |i: int| operations[i].encoding->0)
}

impl CandidateProjectionView {
    /// The candidate of one target after the operations, or why there is none.
    pub open spec fn of(
        base: FirewallSnapshotView,
        base_snapshot: report::EvaluationSnapshotIdentityView,
        mutation_intent_id: u64,
        plan_id: Option<u64>,
        target: EvaluationTarget,
        operations: Seq<EncodedOperationView>,
    ) -> Result<CandidateProjectionView, CandidateProjectionErrorView> {
        match unencoded_from(operations, 0) {
            Some(i) => Err(
                CandidateProjectionErrorView::OperationEncoding { operation_index: i as usize },
            ),
            None => match ProjectionStateView::of(base).after(
                bare(operations),
                operations.len() as int,
            ) {
                Err(e) => Err(e),
                Ok(state) => Ok(
                    CandidateProjectionView {
                        identity: CandidateIdentityView {
                            base_snapshot,
                            mutation_intent_id,
                            plan_id,
                            target,
                            ordered_operation_digest: report::digest_of(encodings(operations)),
                        },
                        snapshot: state.candidate(base, target),
                        unknown_effects: state.unknown(target),
                    },
                ),
            },
        }
    }
}

// ---------------------------------------------------------------------------
// Applying operations
// ---------------------------------------------------------------------------
fn degraded_for(
    snapshot: &FirewallSnapshot,
    target: ConfigurationTarget,
) -> (r: Vec<DegradedSection>)
    ensures
        r.deep_view() == degraded_of(snapshot.deep_view().degraded, target),
{
    let ghost all = snapshot.deep_view().degraded;
    let mut out: Vec<DegradedSection> = lists::none();
    let mut i: usize = 0;
    assert(all.take(0).len() == 0);
    while i < snapshot.degraded.len()
        invariant
            i <= snapshot.degraded@.len(),
            all == snapshot.deep_view().degraded,
            out.deep_view() == degraded_of(all.take(i as int), target),
        decreases snapshot.degraded.len() - i,
    {
        assert(all.take(i + 1).drop_last() =~= all.take(i as int));
        assert(all.take(i + 1).last() == snapshot.degraded@[i as int].deep_view());
        let record = &snapshot.degraded[i];
        let concerned = match record.target {
            None => true,
            Some(t) => t == target || t == ConfigurationTarget::RuntimeAndPermanent,
        };
        if concerned {
            lists::push(&mut out, record.dup());
        }
        i = i + 1;
    }
    assert(all.take(i as int) =~= all);
    out
}

fn normalize_degraded(records: &Vec<DegradedSection>, target: EvaluationTarget) -> (r: Vec<
    DegradedSection,
>)
    ensures
        r.deep_view() == normalized(records.deep_view(), index::target_of(target)),
{
    let target = index::configuration_target(target);
    let ghost all = records.deep_view();
    let mut out: Vec<DegradedSection> = lists::none();
    let mut i: usize = 0;
    while i < records.len()
        invariant
            i <= records@.len(),
            all == records.deep_view(),
            out.deep_view() =~= normalized(all, target).take(i as int),
        decreases records.len() - i,
    {
        let mut record = records[i].dup();
        assert(all[i as int] == records@[i as int].deep_view());
        if record.target.is_some() {
            record.target = Some(target);
        }
        lists::push(&mut out, record);
        i = i + 1;
    }
    assert(normalized(all, target).take(i as int) =~= normalized(all, target));
    out
}

fn binding_of(zone: &ZoneDetails) -> (r: Option<ActiveZone>)
    ensures
        r.deep_view() == bound(zone.deep_view()),
{
    if zone.interfaces.len() == 0 && zone.sources.len() == 0 {
        None
    } else {
        Some(ActiveZone { interfaces: zone.interfaces.dup(), sources: zone.sources.dup() })
    }
}

/// The names that are bound are names of zones.
proof fn bound_names(zones: Seq<(Seq<char>, ZoneDetailsView)>)
    requires
        name_map::sorted(zones),
    ensures
        bound_zones(zones).len() > 0 ==> zones.len() > 0 && (bound_zones(zones).last().0
            == zones.last().0 || name_map::before(bound_zones(zones).last().0, zones.last().0)),
    decreases zones.len(),
{
    if zones.len() > 0 {
        let rest = zones.drop_last();
        assert(name_map::sorted(rest));
        bound_names(rest);
        if bound(zones.last().1) is None && bound_zones(rest).len() > 0 {
            let last = bound_zones(rest).last().0;
            assert(name_map::before(rest.last().0, zones.last().0)) by {
                assert(rest.last() == zones[zones.len() - 2]);
                assert(zones.last() == zones[zones.len() - 1]);
            }
            if last != rest.last().0 {
                name_map::before_transitive(last, rest.last().0, zones.last().0);
            }
        }
    }
}

fn bind_active(zones: &NameMap<ZoneName, ZoneDetails>) -> (r: NameMap<ZoneName, ActiveZone>)
    ensures
        r.deep_view() == bound_zones(zones.deep_view()),
{
    let ghost all = zones.deep_view();
    let mut out: NameMap<ZoneName, ActiveZone> = NameMap::new();
    let mut i: usize = 0;
    proof {
        use_type_invariant(zones);
    }
    assert(all.take(0).len() == 0);
    while i < zones.len()
        invariant
            i <= all.len(),
            all == zones.deep_view(),
            name_map::sorted(all),
            out.deep_view() == bound_zones(all.take(i as int)),
        decreases all.len() - i,
    {
        let ghost done = all.take(i as int);
        proof {
            assert(all.take(i + 1).drop_last() =~= done);
            assert(name_map::sorted(done));
            bound_names(done);
            if done.len() > 0 && bound_zones(done).len() > 0 {
                let last = bound_zones(done).last().0;
                assert(done.last() == all[i - 1]);
                assert(name_map::before(done.last().0, all[i as int].0));
                if last != done.last().0 {
                    name_map::before_transitive(last, done.last().0, all[i as int].0);
                }
            }
        }
        if let Some(binding) = binding_of(zones.value(i)) {
            out.append(zones.key(i).dup(), binding);
        }
        i = i + 1;
    }
    assert(all.take(i as int) =~= all);
    out
}

fn is_side_active(zones: &Vec<String>, active: &NameMap<ZoneName, ActiveZone>) -> (r: bool)
    ensures
        r == side_active(zones.deep_view(), active.deep_view()),
{
    let ghost all = zones.deep_view();
    let mut i: usize = 0;
    while i < zones.len()
        invariant
            i <= zones@.len(),
            all == zones.deep_view(),
            forall|j: int| 0 <= j < i ==> !(#[trigger] names_active(all[j], active.deep_view())),
        decreases zones.len() - i,
    {
        let name = zones[i].as_str();
        assert(all[i as int] == name@);
        let named = match ZoneName::parse(name) {
            Ok(zone) => active.contains_key(&zone),
            Err(_) => false,
        };
        if text::same(name, "HOST") || (text::same(name, "ANY") && !active.is_empty()) || named {
            assert(names_active(all[i as int], active.deep_view()));
            return true;
        }
        i = i + 1;
    }
    false
}

fn reactivate(
    policies: &NameMap<PolicyName, PolicyDetails>,
    active: &NameMap<ZoneName, ActiveZone>,
) -> (r: NameMap<PolicyName, PolicyDetails>)
    ensures
        r.deep_view() == reactivated(policies.deep_view(), active.deep_view()),
{
    let ghost all = policies.deep_view();
    let ghost wanted = reactivated(all, active.deep_view());
    let mut out: NameMap<PolicyName, PolicyDetails> = NameMap::new();
    let mut i: usize = 0;
    proof {
        use_type_invariant(policies);
    }
    while i < policies.len()
        invariant
            i <= all.len(),
            all == policies.deep_view(),
            wanted == reactivated(all, active.deep_view()),
            name_map::sorted(all),
            out.deep_view() =~= wanted.take(i as int),
        decreases all.len() - i,
    {
        let mut details = policies.value(i).dup();
        details.active = is_side_active(&details.ingress_zones, active) && is_side_active(
            &details.egress_zones,
            active,
        );
        assert(i > 0 ==> name_map::before(all[i - 1].0, all[i as int].0));
        out.append(policies.key(i).dup(), details);
        i = i + 1;
    }
    assert(wanted.take(i as int) =~= wanted);
    out
}

fn deactivate(policies: &NameMap<PolicyName, PolicyDetails>) -> (r: NameMap<
    PolicyName,
    PolicyDetails,
>)
    ensures
        r.deep_view() == deactivated(policies.deep_view()),
{
    let ghost all = policies.deep_view();
    let ghost wanted = deactivated(all);
    let mut out: NameMap<PolicyName, PolicyDetails> = NameMap::new();
    let mut i: usize = 0;
    proof {
        use_type_invariant(policies);
    }
    while i < policies.len()
        invariant
            i <= all.len(),
            all == policies.deep_view(),
            wanted == deactivated(all),
            name_map::sorted(all),
            out.deep_view() =~= wanted.take(i as int),
        decreases all.len() - i,
    {
        let mut details = policies.value(i).dup();
        details.active = false;
        assert(i > 0 ==> name_map::before(all[i - 1].0, all[i as int].0));
        out.append(policies.key(i).dup(), details);
        i = i + 1;
    }
    assert(wanted.take(i as int) =~= wanted);
    out
}

fn switch_members(
    policies: &NameMap<PolicyName, PolicyDetails>,
    members: &Vec<PolicyName>,
    enabled: bool,
) -> (r: NameMap<PolicyName, PolicyDetails>)
    ensures
        r.deep_view() == switched(policies.deep_view(), members.deep_view(), enabled),
{
    let ghost all = policies.deep_view();
    let ghost wanted = switched(all, members.deep_view(), enabled);
    let mut out: NameMap<PolicyName, PolicyDetails> = NameMap::new();
    let mut i: usize = 0;
    proof {
        use_type_invariant(policies);
    }
    while i < policies.len()
        invariant
            i <= all.len(),
            all == policies.deep_view(),
            wanted == switched(all, members.deep_view(), enabled),
            name_map::sorted(all),
            out.deep_view() =~= wanted.take(i as int),
        decreases all.len() - i,
    {
        let mut details = policies.value(i).dup();
        if lists::contains(members, policies.key(i)) {
            details.disabled = !enabled;
        }
        assert(i > 0 ==> name_map::before(all[i - 1].0, all[i as int].0));
        out.append(policies.key(i).dup(), details);
        i = i + 1;
    }
    assert(wanted.take(i as int) =~= wanted);
    out
}

impl ProjectionState {
    /// Both scopes as a snapshot shows them.
    pub fn new(base: &FirewallSnapshot) -> (r: Self)
        ensures
            r.deep_view() == ProjectionStateView::of(base.deep_view()),
    {
        ProjectionState {
            snapshot: base.dup(),
            service_definitions_runtime: base.service_definitions.dup(),
            service_definitions_permanent: base.service_definitions.dup(),
            available_services_runtime: base.available_services.dup(),
            available_services_permanent: base.available_services.dup(),
            unknown_runtime: lists::none(),
            unknown_permanent: lists::none(),
            degraded_runtime: degraded_for(base, ConfigurationTarget::Runtime),
            degraded_permanent: degraded_for(base, ConfigurationTarget::Permanent),
        }
    }

    /// Records an effect that is not modeled in the scopes that it concerns.
    pub fn mark_unknown(
        &mut self,
        targets: OperationTargetSequence,
        marker: ProjectionUnknownEffect,
    )
        ensures
            final(self).deep_view() == old(self).deep_view().marked(targets, marker.deep_view()),
    {
        match targets {
            OperationTargetSequence::Runtime => {
                lists::push(&mut self.unknown_runtime, marker);
            },
            OperationTargetSequence::Permanent => {
                lists::push(&mut self.unknown_permanent, marker);
            },
            OperationTargetSequence::RuntimeThenPermanent => {
                lists::push(&mut self.unknown_runtime, marker.dup());
                lists::push(&mut self.unknown_permanent, marker);
            },
            OperationTargetSequence::RuntimeAndPermanent => {
                lists::push(&mut self.unknown_runtime, marker.dup());
                lists::push(&mut self.unknown_permanent, marker);
            },
            OperationTargetSequence::RuntimeFromPermanent => {
                self.unknown_runtime = self.unknown_permanent.dup();
            },
            OperationTargetSequence::PermanentFromRuntime => {
                self.unknown_permanent = self.unknown_runtime.dup();
            },
        }
    }

    /// Brings one active zone in line with the runtime.
    pub fn sync_active_zone(&mut self, zone: &ZoneName)
        ensures
            final(self).deep_view() == (ProjectionStateView {
                snapshot: FirewallSnapshotView {
                    active: synced(
                        old(self).deep_view().snapshot.active,
                        old(self).deep_view().snapshot.runtime,
                        zone.deep_view(),
                    ),
                    ..old(self).deep_view().snapshot
                },
                ..old(self).deep_view()
            }),
    {
        let binding = match self.snapshot.runtime.get(zone) {
            Some(details) => binding_of(details),
            None => None,
        };
        match binding {
            Some(binding) => {
                self.snapshot.active.insert(zone.dup(), binding);
            },
            None => {
                self.snapshot.active.remove(zone);
            },
        }
    }

    /// Fails unless the zone is there in every scope of the target.
    pub fn require_zone(&self, target: ConfigurationTarget, zone: &ZoneName) -> (r: Result<
        (),
        CandidateProjectionError,
    >)
        ensures
            ({
                let s = self.deep_view().snapshot;
                let there = (reaches_runtime(target) ==> name_map::lookup(
                    s.runtime,
                    zone.deep_view(),
                ) is Some) && (reaches_permanent(target) ==> name_map::lookup(
                    s.permanent,
                    zone.deep_view(),
                ) is Some);
                model::unit_outcome(r) == (if there {
                    Ok(())
                } else {
                    Err(
                        CandidateProjectionErrorView::MissingZone {
                            target: target.labelled(),
                            zone: zone.deep_view(),
                        },
                    )
                })
            }),
    {
        let there = match target {
            ConfigurationTarget::Runtime => self.snapshot.runtime.contains_key(zone),
            ConfigurationTarget::Permanent => self.snapshot.permanent.contains_key(zone),
            ConfigurationTarget::RuntimeAndPermanent => self.snapshot.runtime.contains_key(zone)
                && self.snapshot.permanent.contains_key(zone),
        };
        if there {
            Ok(())
        } else {
            Err(CandidateProjectionError::MissingZone { target: target.label(), zone: zone.dup() })
        }
    }

    /// Fails unless the policy is there in every scope of the target.
    pub fn require_policy(&self, target: ConfigurationTarget, policy: &PolicyName) -> (r: Result<
        (),
        CandidateProjectionError,
    >)
        ensures
            ({
                let p = self.deep_view().snapshot.policies;
                let there = (reaches_runtime(target) ==> name_map::lookup(
                    p.runtime,
                    policy.deep_view(),
                ) is Some) && (reaches_permanent(target) ==> name_map::lookup(
                    p.permanent,
                    policy.deep_view(),
                ) is Some);
                model::unit_outcome(r) == (if there {
                    Ok(())
                } else {
                    Err(
                        CandidateProjectionErrorView::MissingPolicy {
                            target: target.labelled(),
                            policy: policy.deep_view(),
                        },
                    )
                })
            }),
    {
        let there = match target {
            ConfigurationTarget::Runtime => self.snapshot.policies.runtime.contains_key(policy),
            ConfigurationTarget::Permanent => self.snapshot.policies.permanent.contains_key(policy),
            ConfigurationTarget::RuntimeAndPermanent => self.snapshot.policies.runtime.contains_key(
                policy,
            ) && self.snapshot.policies.permanent.contains_key(policy),
        };
        if there {
            Ok(())
        } else {
            Err(
                CandidateProjectionError::MissingPolicy {
                    target: target.label(),
                    policy: policy.dup(),
                },
            )
        }
    }

    fn edit_zones(
        &mut self,
        operation: &FirewallOperation,
        zone: &ZoneName,
        target: ConfigurationTarget,
    ) -> (r: Result<(), CandidateProjectionError>)
        ensures
            ({
                let edited = old(self).deep_view().zones_edited(
                    operation.deep_view(),
                    zone.deep_view(),
                    target,
                );
                match r {
                    Ok(_) => edited == Ok::<ProjectionStateView, CandidateProjectionErrorView>(
                        final(self).deep_view(),
                    ),
                    Err(e) => edited == Err::<ProjectionStateView, CandidateProjectionErrorView>(
                        e.deep_view(),
                    ),
                }
            }),
            r is Err ==> final(self).deep_view() == old(self).deep_view().zones_left(
                operation.deep_view(),
                zone.deep_view(),
                target,
            ),
    {
        if target != ConfigurationTarget::Permanent {
            let mut details = match self.snapshot.runtime.get(zone) {
                Some(details) => details.dup(),
                None => {
                    return Err(
                        CandidateProjectionError::MissingZone {
                            target: "runtime",
                            zone: zone.dup(),
                        },
                    );
                },
            };
            operation.edit_zone(&mut details);
            self.snapshot.runtime.insert(zone.dup(), details);
            self.sync_active_zone(zone);
        }
        if target != ConfigurationTarget::Runtime {
            let mut details = match self.snapshot.permanent.get(zone) {
                Some(details) => details.dup(),
                None => {
                    return Err(
                        CandidateProjectionError::MissingZone {
                            target: "permanent",
                            zone: zone.dup(),
                        },
                    );
                },
            };
            operation.edit_zone(&mut details);
            self.snapshot.permanent.insert(zone.dup(), details);
        }
        Ok(())
    }

    fn edit_policies(
        &mut self,
        operation: &FirewallOperation,
        policy: &PolicyName,
        target: ConfigurationTarget,
    ) -> (r: Result<(), CandidateProjectionError>)
        ensures
            ({
                let edited = old(self).deep_view().policies_edited(
                    operation.deep_view(),
                    policy.deep_view(),
                    target,
                );
                match r {
                    Ok(_) => edited == Ok::<ProjectionStateView, CandidateProjectionErrorView>(
                        final(self).deep_view(),
                    ),
                    Err(e) => edited == Err::<ProjectionStateView, CandidateProjectionErrorView>(
                        e.deep_view(),
                    ),
                }
            }),
            r is Err ==> final(self).deep_view() == old(self).deep_view().policies_left(
                operation.deep_view(),
                policy.deep_view(),
                target,
            ),
    {
        if target != ConfigurationTarget::Permanent {
            let mut details = match self.snapshot.policies.runtime.get(policy) {
                Some(details) => details.dup(),
                None => {
                    return Err(
                        CandidateProjectionError::MissingPolicy {
                            target: "runtime",
                            policy: policy.dup(),
                        },
                    );
                },
            };
            operation.edit_policy(&mut details);
            self.snapshot.policies.runtime.insert(policy.dup(), details);
        }
        if target != ConfigurationTarget::Runtime {
            let mut details = match self.snapshot.policies.permanent.get(policy) {
                Some(details) => details.dup(),
                None => {
                    return Err(
                        CandidateProjectionError::MissingPolicy {
                            target: "permanent",
                            policy: policy.dup(),
                        },
                    );
                },
            };
            operation.edit_policy(&mut details);
            self.snapshot.policies.permanent.insert(policy.dup(), details);
        }
        Ok(())
    }

    fn edit_policy_set(
        &mut self,
        target: ConfigurationTarget,
        policy_set: &PolicySetName,
        enabled: bool,
    )
        ensures
            final(self).deep_view() == old(self).deep_view().set_switched(
                policy_set.deep_view(),
                enabled,
                target,
            ),
    {
        let set = PolicySetDetails::from_snapshot(&self.snapshot, policy_set.dup());
        if target != ConfigurationTarget::Permanent {
            self.snapshot.policies.runtime = switch_members(
                &self.snapshot.policies.runtime,
                &set.runtime.members,
                enabled,
            );
        }
        if target != ConfigurationTarget::Runtime {
            self.snapshot.policies.permanent = switch_members(
                &self.snapshot.policies.permanent,
                &set.permanent.members,
                enabled,
            );
        }
    }

    fn create_service(&mut self, service: &ServiceName) -> (r: Result<(), CandidateProjectionError>)
        ensures
            old(self).deep_view().definitions_edited(
                FirewallOperationView::CreateService { service: service.deep_view() },
            ) == Some(
                match r {
                    Ok(_) => Ok::<ProjectionStateView, CandidateProjectionErrorView>(
                        final(self).deep_view(),
                    ),
                    Err(e) => Err(e.deep_view()),
                },
            ),            r is Err ==> final(self).deep_view() == old(self).deep_view(),
    {
        if self.service_definitions_permanent.contains_key(service) {
            return Err(
                CandidateProjectionError::ObjectAlreadyExists {
                    kind: "service definition",
                    name: service.as_str().to_owned(),
                },
            );
        }
        self.service_definitions_permanent.insert(service.dup(), ServiceDefinition::default());
        lists::push_unique(&mut self.available_services_permanent, service.dup());
        Ok(())
    }

    fn delete_service(&mut self, service: &ServiceName) -> (r: Result<(), CandidateProjectionError>)
        ensures
            old(self).deep_view().definitions_edited(
                FirewallOperationView::DeleteService { service: service.deep_view() },
            ) == Some(
                match r {
                    Ok(_) => Ok::<ProjectionStateView, CandidateProjectionErrorView>(
                        final(self).deep_view(),
                    ),
                    Err(e) => Err(e.deep_view()),
                },
            ),            r is Err ==> final(self).deep_view() == old(self).deep_view(),
    {
        if !self.service_definitions_permanent.contains_key(service) {
            return Err(
                CandidateProjectionError::MissingServiceDefinition { service: service.dup() },
            );
        }
        self.service_definitions_permanent.remove(service);
        lists::remove_all(&mut self.available_services_permanent, service);
        Ok(())
    }

    fn edit_service_port(
        &mut self,
        service: &ServiceName,
        port: &PortSpec,
        adding: bool,
    ) -> (r: Result<(), CandidateProjectionError>)
        ensures
            old(self).deep_view().definitions_edited(
                if adding {
                    FirewallOperationView::AddServicePort {
                        service: service.deep_view(),
                        port: port.deep_view(),
                    }
                } else {
                    FirewallOperationView::RemoveServicePort {
                        service: service.deep_view(),
                        port: port.deep_view(),
                    }
                },
            ) == Some(
                match r {
                    Ok(_) => Ok::<ProjectionStateView, CandidateProjectionErrorView>(
                        final(self).deep_view(),
                    ),
                    Err(e) => Err(e.deep_view()),
                },
            ),            r is Err ==> final(self).deep_view() == old(self).deep_view(),
    {
        let mut definition = match self.service_definitions_permanent.get(service) {
            Some(definition) => definition.dup(),
            None => {
                return Err(
                    CandidateProjectionError::MissingServiceDefinition { service: service.dup() },
                );
            },
        };
        if adding {
            lists::push_unique(&mut definition.ports, port.dup());
        } else {
            lists::remove_all(&mut definition.ports, port);
        }
        self.service_definitions_permanent.insert(service.dup(), definition);
        Ok(())
    }

    fn edit_definitions(&mut self, operation: &FirewallOperation) -> (r: Option<
        Result<(), CandidateProjectionError>,
    >)
        ensures
            old(self).deep_view().definitions_edited(operation.deep_view()) == (match r {
                Some(Ok(_)) => Some(
                    Ok::<ProjectionStateView, CandidateProjectionErrorView>(
                        final(self).deep_view(),
                    ),
                ),
                Some(Err(e)) => Some(Err(e.deep_view())),
                None => None,
            }),
            !(r matches Some(Ok(_))) ==> final(self).deep_view() == old(self).deep_view(),
    {
        match operation {
            FirewallOperation::CreateService { service } => Some(self.create_service(service)),
            FirewallOperation::DeleteService { service } => Some(self.delete_service(service)),
            FirewallOperation::AddServicePort { service, port } => {
                Some(self.edit_service_port(service, port, true))
            },
            FirewallOperation::RemoveServicePort { service, port } => {
                Some(self.edit_service_port(service, port, false))
            },
            _ => None,
        }
    }

    fn edit_objects(&mut self, operation: &FirewallOperation) -> (r: Option<
        Result<(), CandidateProjectionError>,
    >)
        ensures
            old(self).deep_view().objects_edited(operation.deep_view()) == (match r {
                Some(Ok(_)) => Some(
                    Ok::<ProjectionStateView, CandidateProjectionErrorView>(
                        final(self).deep_view(),
                    ),
                ),
                Some(Err(e)) => Some(Err(e.deep_view())),
                None => None,
            }),
            !(r matches Some(Ok(_))) ==> final(self).deep_view() == old(self).deep_view(),
    {
        match operation {
            FirewallOperation::SetDefaultZone { zone } => {
                self.snapshot.default_zone = zone.dup();
                Some(Ok(()))
            },
            FirewallOperation::SetPanicMode { enabled } => {
                self.snapshot.status.panic_mode = *enabled;
                Some(Ok(()))
            },
            FirewallOperation::SetPolicySetEnabled { policy_set, enabled, target } => {
                self.edit_policy_set(*target, policy_set, *enabled);
                Some(Ok(()))
            },
            FirewallOperation::CreateZone { zone } => {
                if self.snapshot.permanent.contains_key(zone) {
                    return Some(
                        Err(
                            CandidateProjectionError::ObjectAlreadyExists {
                                kind: "zone",
                                name: zone.as_str().to_owned(),
                            },
                        ),
                    );
                }
                self.snapshot.permanent.insert(zone.dup(), ZoneDetails::empty(zone.dup()));
                Some(Ok(()))
            },
            FirewallOperation::DeleteZone { zone } => {
                if let Err(e) = self.require_zone(ConfigurationTarget::Permanent, zone) {
                    return Some(Err(e));
                }
                self.snapshot.permanent.remove(zone);
                Some(Ok(()))
            },
            FirewallOperation::CreatePolicy { policy } => {
                if self.snapshot.policies.permanent.contains_key(policy) {
                    return Some(
                        Err(
                            CandidateProjectionError::ObjectAlreadyExists {
                                kind: "policy",
                                name: policy.as_str().to_owned(),
                            },
                        ),
                    );
                }
                self.snapshot.policies.permanent.insert(
                    policy.dup(),
                    PolicyDetails::empty(policy.dup()),
                );
                Some(Ok(()))
            },
            FirewallOperation::DeletePolicy { policy } => {
                if let Err(e) = self.require_policy(ConfigurationTarget::Permanent, policy) {
                    return Some(Err(e));
                }
                self.snapshot.policies.permanent.remove(policy);
                Some(Ok(()))
            },
            _ => None,
        }
    }

    fn apply_exact(&mut self, operation: &FirewallOperation) -> (r: Result<
        (),
        CandidateProjectionError,
    >)
        requires
            OperationEffectView::of(operation.deep_view()).transitions(),
        ensures
            old(self).deep_view().exactly(operation.deep_view()) == (match r {
                Ok(_) => Ok::<ProjectionStateView, CandidateProjectionErrorView>(
                    final(self).deep_view(),
                ),
                Err(e) => Err(e.deep_view()),
            }),
            r is Err ==> final(self).deep_view() == old(self).deep_view().left(
                operation.deep_view(),
            ),
    {
        if let Some((zone, target)) = operation.zone_scope() {
            return self.edit_zones(operation, zone, target);
        }
        if let Some((policy, target)) = operation.policy_scope() {
            return self.edit_policies(operation, policy, target);
        }
        if let Some(edited) = self.edit_definitions(operation) {
            return edited;
        }
        match self.edit_objects(operation) {
            Some(edited) => edited,
            None => Ok(()),
        }
    }

    fn reload(&mut self)
        ensures
            final(self).deep_view() == old(self).deep_view().reloaded(),
    {
        self.snapshot.runtime = self.snapshot.permanent.dup();
        self.snapshot.ipsets.runtime = self.snapshot.ipsets.permanent.dup();
        self.service_definitions_runtime = self.service_definitions_permanent.dup();
        self.available_services_runtime = self.available_services_permanent.dup();
        self.unknown_runtime = self.unknown_permanent.dup();
        self.degraded_runtime = self.degraded_permanent.dup();
        self.snapshot.active = bind_active(&self.snapshot.runtime);
        self.snapshot.policies.runtime = reactivate(
            &self.snapshot.policies.permanent,
            &self.snapshot.active,
        );
    }

    fn save(&mut self)
        ensures
            final(self).deep_view() == old(self).deep_view().saved(),
    {
        self.snapshot.permanent = self.snapshot.runtime.dup();
        self.snapshot.policies.permanent = deactivate(&self.snapshot.policies.runtime);
        self.snapshot.ipsets.permanent = self.snapshot.ipsets.runtime.dup();
        self.service_definitions_permanent = self.service_definitions_runtime.dup();
        self.available_services_permanent = self.available_services_runtime.dup();
        self.unknown_permanent = self.unknown_runtime.dup();
        self.degraded_permanent = self.degraded_runtime.dup();
    }

    fn apply_global(&mut self, operation: &FirewallOperation)
        requires
            OperationEffectView::of(operation.deep_view()).support is GlobalTransform,
        ensures
            final(self).deep_view() == old(self).deep_view().globally(operation.deep_view()),
    {
        match operation {
            FirewallOperation::RuntimeToPermanent => {
                self.save();
            },
            FirewallOperation::Reload => {
                self.reload();
            },
            FirewallOperation::SetLogDenied { .. } => {
                self.reload();
            },
            _ => {},
        }
    }

    fn apply(&mut self, operation_index: usize, operation: &FirewallOperation) -> (r: Result<
        (),
        CandidateProjectionError,
    >)
        ensures
            old(self).deep_view().applied(operation_index, operation.deep_view()) == (match r {
                Ok(_) => Ok::<ProjectionStateView, CandidateProjectionErrorView>(
                    final(self).deep_view(),
                ),
                Err(e) => Err(e.deep_view()),
            }),
            r is Err ==> final(self).deep_view() == old(self).deep_view().left(
                operation.deep_view(),
            ),
    {
        let effect = operation.effect();
        match effect.support {
            OperationEffectSupport::UnsupportedRelevant(reason) => {
                let marker = ProjectionUnknownEffect {
                    operation_index,
                    reason,
                    object: effect.object,
                    dimensions: effect.dimensions,
                };
                self.mark_unknown(effect.targets, marker);
                Ok(())
            },
            OperationEffectSupport::TrafficIrrelevant(_) => Ok(()),
            OperationEffectSupport::GlobalTransform => {
                self.apply_global(operation);
                Ok(())
            },
            _ => self.apply_exact(operation),
        }
    }

    fn finish(self, base: &FirewallSnapshot, target: EvaluationTarget) -> (r: (
        FirewallSnapshot,
        Vec<ProjectionUnknownEffect>,
    ))
        ensures
            r.0.deep_view() == self.deep_view().candidate(base.deep_view(), target),
            r.1.deep_view() == self.deep_view().unknown(target),
    {
        let mut candidate = base.dup();
        candidate.default_zone = self.snapshot.default_zone;
        match target {
            EvaluationTarget::Runtime => {
                candidate.runtime = self.snapshot.runtime;
                candidate.active = self.snapshot.active;
                candidate.policies.runtime = self.snapshot.policies.runtime;
                candidate.ipsets.runtime = self.snapshot.ipsets.runtime;
                candidate.status.panic_mode = self.snapshot.status.panic_mode;
                candidate.service_definitions = self.service_definitions_runtime;
                candidate.available_services = self.available_services_runtime;
                candidate.degraded = normalize_degraded(&self.degraded_runtime, target);
                (candidate, self.unknown_runtime)
            },
            EvaluationTarget::Permanent => {
                candidate.permanent = self.snapshot.permanent;
                candidate.policies.permanent = self.snapshot.policies.permanent;
                candidate.ipsets.permanent = self.snapshot.ipsets.permanent;
                candidate.service_definitions = self.service_definitions_permanent;
                candidate.available_services = self.available_services_permanent;
                candidate.degraded = normalize_degraded(&self.degraded_permanent, target);
                (candidate, self.unknown_permanent)
            },
        }
    }
}

/// Pure candidate projection entry point.
#[derive(Debug)]
pub struct CandidateProjector;

impl CandidateProjector {
    /// Applies ordered operations to a private clone and emits one exact target view.
    pub fn project(
        base: &Arc<FirewallSnapshot>,
        base_snapshot_identity: EvaluationSnapshotIdentity,
        mutation_intent_id: MutationIntentId,
        plan_id: Option<EvaluationPlanId>,
        target: EvaluationTarget,
        operations: &Vec<EncodedOperation>,
    ) -> (r: Result<CandidateProjection, CandidateProjectionError>)
        ensures
            model::outcome(r) == CandidateProjectionView::of(
                base.deep_view(),
                base_snapshot_identity.deep_view(),
                mutation_intent_id.deep_view(),
                plan_id.deep_view(),
                target,
                operations.deep_view(),
            ),
    {
        let digest = match ordered_encodings(operations) {
            Ok(bytes) => OrderedOperationDigest::from_ordered_bytes(&bytes),
            Err(e) => return Err(e),
        };
        let identity = CandidateIdentity::new(
            base_snapshot_identity,
            mutation_intent_id,
            plan_id,
            target,
            digest,
        );
        match state_after(base, operations) {
            Ok(state) => {
                let (snapshot, unknown_effects) = state.finish(base, target);
                Ok(CandidateProjection { identity, snapshot: Arc::new(snapshot), unknown_effects })
            },
            Err(e) => Err(e),
        }
    }
}

/// The encodings in order, or the first operation that has none.
fn ordered_encodings(operations: &Vec<EncodedOperation>) -> (r: Result<
    Vec<Vec<u8>>,
    CandidateProjectionError,
>)
    ensures
        model::outcome(r) == (match unencoded_from(operations.deep_view(), 0) {
            Some(i) => Err(
                CandidateProjectionErrorView::OperationEncoding { operation_index: i as usize },
            ),
            None => Ok(encodings(operations.deep_view())),
        }),
{
    let ghost all = operations.deep_view();
    let mut bytes: Vec<Vec<u8>> = lists::none();
    let mut i: usize = 0;
    while i < operations.len()
        invariant
            i <= operations@.len(),
            all == operations.deep_view(),
            unencoded_from(all, 0) == unencoded_from(all, i as int),
            bytes.deep_view() =~= encodings(all).take(i as int),
        decreases operations.len() - i,
    {
        assert(all[i as int] == operations@[i as int].deep_view());
        match &operations[i].encoding {
            Some(encoding) => {
                lists::push(&mut bytes, encoding.dup());
            },
            None => {
                return Err(CandidateProjectionError::OperationEncoding { operation_index: i });
            },
        }
        i = i + 1;
    }
    assert(encodings(all).take(i as int) =~= encodings(all));
    Ok(bytes)
}

/// The state after all operations, or the first failure.
fn state_after(base: &FirewallSnapshot, operations: &Vec<EncodedOperation>) -> (r: Result<
    ProjectionState,
    CandidateProjectionError,
>)
    ensures
        model::outcome(r) == ProjectionStateView::of(base.deep_view()).after(
            bare(operations.deep_view()),
            operations.deep_view().len() as int,
        ),
{
    let ghost start = ProjectionStateView::of(base.deep_view());
    let ghost plain = bare(operations.deep_view());
    let mut state = ProjectionState::new(base);
    let mut j: usize = 0;
    while j < operations.len()
        invariant
            j <= operations@.len(),
            start == ProjectionStateView::of(base.deep_view()),
            plain == bare(operations.deep_view()),
            start.after(plain, j as int) == Ok::<ProjectionStateView, CandidateProjectionErrorView>(
                state.deep_view(),
            ),
        decreases operations.len() - j,
    {
        assert(plain[j as int] == operations@[j as int].deep_view().operation);
        if let Err(e) = state.apply(j, &operations[j].operation) {
            proof {
                failure_stays(start, plain, j + 1, plain.len() as int);
            }
            return Err(e);
        }
        j = j + 1;
    }
    Ok(state)
}

/// The first failure is the outcome of the whole sequence.
proof fn failure_stays(
    start: ProjectionStateView,
    operations: Seq<FirewallOperationView>,
    m: int,
    n: int,
)
    requires
        0 <= m <= n,
        start.after(operations, m) is Err,
    ensures
        start.after(operations, n) == start.after(operations, m),
    decreases n - m,
{
    if m < n {
        failure_stays(start, operations, m, n - 1);
    }
}

} // verus!
