//! Truth and trace contracts shared by native traffic-test phases.

use std::cmp::Ordering;

use vstd::prelude::*;
use vstd::std_specs::cmp::{PartialOrdIs, PartialOrdSpecImpl};

pub mod evaluator;
pub mod index;
pub mod projection;
pub mod report;
pub mod scenario;

use crate::ids::{PolicyName, ServiceName, ZoneName};
use crate::model;
use crate::model::Value;
use crate::number;
use crate::snapshot::SnapshotSection;
use crate::text;

verus! {

/// Maximum ordered trace steps retained for one scenario result.
pub const MAX_TRACE_STEPS: usize = 128;

/// Proven firewall decision for the modeled configuration path.
#[derive(Debug, Clone, Copy, PartialEq, Eq, Structural)]
pub enum FirewallDecision {
    /// The complete supported path proves that traffic is allowed.
    Allow,
    /// A terminal supported rule or target proves that traffic is blocked.
    Block,
    /// The available evidence cannot prove either terminal decision.
    Unknown,
}

impl DeepView for FirewallDecision {
    type V = FirewallDecision;

    open spec fn deep_view(&self) -> FirewallDecision {
        *self
    }
}

impl Value for FirewallDecision {
    fn same(&self, other: &Self) -> (r: bool) {
        *self == *other
    }

    fn dup(&self) -> (r: Self) {
        *self
    }
}

/// Operator-declared result expected from a traffic scenario.
#[derive(Debug, Clone, Copy, PartialEq, Eq, Structural)]
pub enum TrafficExpectation {
    /// The scenario is expected to be allowed.
    Allow,
    /// The scenario is expected to be blocked.
    Block,
}

impl DeepView for TrafficExpectation {
    type V = TrafficExpectation;

    open spec fn deep_view(&self) -> TrafficExpectation {
        *self
    }
}

impl Value for TrafficExpectation {
    fn same(&self, other: &Self) -> (r: bool) {
        *self == *other
    }

    fn dup(&self) -> (r: Self) {
        *self
    }
}

/// Comparison status between a proven decision and an operator expectation.
#[derive(Debug, Clone, Copy, PartialEq, Eq, Structural)]
pub enum TrafficTestStatus {
    /// The proven decision matches the expectation.
    Pass,
    /// The proven decision contradicts the expectation.
    Fail,
    /// The decision is unknown and cannot be compared honestly.
    Indeterminate,
    /// No matching evaluation has completed.
    NotRun,
    /// Historical evidence no longer matches the active context.
    Stale,
}

impl DeepView for TrafficTestStatus {
    type V = TrafficTestStatus;

    open spec fn deep_view(&self) -> TrafficTestStatus {
        *self
    }
}

impl Value for TrafficTestStatus {
    fn same(&self, other: &Self) -> (r: bool) {
        *self == *other
    }

    fn dup(&self) -> (r: Self) {
        *self
    }
}

impl TrafficTestStatus {
    /// The status of a decision: indeterminate where it is unknown, else
    /// whether it agrees with the expectation.
    pub open spec fn of(decision: FirewallDecision, expectation: TrafficExpectation) -> Self {
        match decision {
            FirewallDecision::Unknown => TrafficTestStatus::Indeterminate,
            FirewallDecision::Allow => if expectation == TrafficExpectation::Allow {
                TrafficTestStatus::Pass
            } else {
                TrafficTestStatus::Fail
            },
            FirewallDecision::Block => if expectation == TrafficExpectation::Block {
                TrafficTestStatus::Pass
            } else {
                TrafficTestStatus::Fail
            },
        }
    }

    /// Derives a status without converting unknown evidence into pass or fail.
    pub fn from_decision(decision: FirewallDecision, expectation: TrafficExpectation) -> (r: Self)
        ensures
            r == Self::of(decision, expectation),
    {
        match (decision, expectation) {
            (FirewallDecision::Unknown, _) => TrafficTestStatus::Indeterminate,
            (FirewallDecision::Allow, TrafficExpectation::Allow) => TrafficTestStatus::Pass,
            (FirewallDecision::Block, TrafficExpectation::Block) => TrafficTestStatus::Pass,
            (FirewallDecision::Allow, TrafficExpectation::Block) => TrafficTestStatus::Fail,
            (FirewallDecision::Block, TrafficExpectation::Allow) => TrafficTestStatus::Fail,
        }
    }
}

/// Typed reason that prevents a definitive allow or block decision.
#[derive(Debug, Clone, Copy, PartialEq, Eq, Hash, Structural)]
pub enum UnknownReason {
    /// A required snapshot section or object was not observed completely.
    IncompleteSnapshot,
    /// A relevant rich rule falls outside the supported AST subset.
    UnsupportedRichRule,
    /// A relevant policy construct is not modeled.
    UnsupportedPolicyFeature,
    /// The ingress zone cannot be selected uniquely.
    AmbiguousIngressZone,
    /// The egress zone cannot be selected uniquely.
    AmbiguousEgressZone,
    /// A direction-dependent route could not be observed.
    MissingRouteData,
    /// A staged operation has no exact relevant projection.
    UnsupportedStagedOperation,
    /// A potentially intersecting direct rule cannot be classified safely.
    RelevantDirectRuleUnsupported,
    /// The authoritative snapshot identity no longer matches.
    StaleSnapshot,
    /// The staged plan identity no longer matches.
    StalePlan,
    /// Required semantic capability evidence is unavailable.
    CapabilityUnavailable,
    /// The observed firewalld version predates required behavior.
    VersionUnsupported,
    /// Conflicting equal-priority rules have no proven deterministic order.
    ConflictingEqualPriorityRules,
    /// A referenced service definition is incomplete.
    IncompleteServiceDefinition,
    /// A relevant service field is not modeled.
    UnsupportedServiceFeature,
    /// The requested connection state has no supported model.
    UnsupportedConnectionState,
    /// The requested traffic direction has no supported model.
    UnsupportedDirection,
    /// A relevant mutation effect cannot be represented exactly.
    UnsupportedOperationEffect,
    /// Potentially intersecting rules exist outside the firewalld model.
    ExternalRulesOutsideModel,
    /// The required post-apply rollback guarantee cannot be provided.
    RollbackGuaranteeUnavailable,
}

impl DeepView for UnknownReason {
    type V = UnknownReason;

    open spec fn deep_view(&self) -> UnknownReason {
        *self
    }
}

impl Value for UnknownReason {
    fn same(&self, other: &Self) -> (r: bool) {
        *self == *other
    }

    fn dup(&self) -> (r: Self) {
        *self
    }
}

/// Validated firewalld rule priority. Lower numbers run first.
#[derive(Debug, Clone, Copy, PartialEq, Eq, Ord, Hash, Structural)]
pub struct RulePriority {
    value: i16,
}

impl DeepView for RulePriority {
    type V = i16;

    closed spec fn deep_view(&self) -> i16 {
        self.value
    }
}

impl PartialOrd for RulePriority {
    fn partial_cmp(&self, other: &Self) -> (r: Option<Ordering>) {
        if self.value < other.value {
            Some(Ordering::Less)
        } else if self.value == other.value {
            Some(Ordering::Equal)
        } else {
            Some(Ordering::Greater)
        }
    }
}

impl PartialOrdSpecImpl for RulePriority {
    open spec fn obeys_partial_cmp_spec() -> bool {
        true
    }

    open spec fn partial_cmp_spec(&self, other: &Self) -> Option<Ordering> {
        if self.deep_view() < other.deep_view() {
            Some(Ordering::Less)
        } else if self.deep_view() == other.deep_view() {
            Some(Ordering::Equal)
        } else {
            Some(Ordering::Greater)
        }
    }
}

impl Value for RulePriority {
    fn same(&self, other: &Self) -> (r: bool) {
        self.value == other.value
    }

    fn dup(&self) -> (r: Self) {
        *self
    }
}

/// Invalid priority input.
#[derive(Debug, PartialEq, Eq)]
pub enum RulePriorityError {
    /// A numeric value is outside firewalld's signed 16-bit range.
    OutOfRange(i32),
    /// Text is not a decimal integer.
    Invalid(String),
}

/// What a `RulePriorityError` models.
#[verifier::ext_equal]
pub enum RulePriorityErrorView {
    OutOfRange(i32),
    Invalid(Seq<char>),
}

impl DeepView for RulePriorityError {
    type V = RulePriorityErrorView;

    open spec fn deep_view(&self) -> RulePriorityErrorView {
        match self {
            RulePriorityError::OutOfRange(x0) => RulePriorityErrorView::OutOfRange(x0.deep_view()),
            RulePriorityError::Invalid(x0) => RulePriorityErrorView::Invalid(x0.deep_view()),
        }
    }
}

impl Value for RulePriorityError {
    fn same(&self, other: &Self) -> (r: bool) {
        match (self, other) {
            (RulePriorityError::OutOfRange(x0), RulePriorityError::OutOfRange(x0_other)) =>
                *x0 == *x0_other,
            (RulePriorityError::Invalid(x0), RulePriorityError::Invalid(x0_other)) => x0.same(
                x0_other,
            ),
            _ => false,
        }
    }

    fn dup(&self) -> (r: Self) {
        match self {
            RulePriorityError::OutOfRange(x0) => RulePriorityError::OutOfRange(*x0),
            RulePriorityError::Invalid(x0) => RulePriorityError::Invalid(x0.dup()),
        }
    }
}

impl Clone for RulePriorityError {
    fn clone(&self) -> (r: Self)
        ensures
            r.deep_view() == self.deep_view(),
    {
        self.dup()
    }
}

impl RulePriorityErrorView {
    /// The sentence that describes the failure.
    pub open spec fn message(self) -> Seq<char> {
        match self {
            RulePriorityErrorView::OutOfRange(n) => "priority "@ + number::signed_decimal(n as int)
                + " is outside -32768..=32767"@,
            RulePriorityErrorView::Invalid(raw) => "invalid priority `"@ + raw + "`"@,
        }
    }
}

impl RulePriorityError {
    /// The sentence that describes the failure.
    pub fn message(&self) -> (r: String)
        ensures
            r@ == self.deep_view().message(),
    {
        match self {
            RulePriorityError::OutOfRange(n) => {
                let shown = number::show_signed(*n as i64);
                text::cat3("priority ", shown.as_str(), " is outside -32768..=32767")
            },
            RulePriorityError::Invalid(raw) => text::cat3("invalid priority `", raw.as_str(), "`"),
        }
    }
}

impl RulePriority {
    /// The priority of a number, if it fits in sixteen bits.
    pub open spec fn of(value: i32) -> Result<i16, RulePriorityErrorView> {
        if -32768 <= value <= 32767 {
            Ok(value as i16)
        } else {
            Err(RulePriorityErrorView::OutOfRange(value))
        }
    }

    /// The priority that a text spells.
    pub open spec fn parsed(raw: Seq<char>) -> Result<i16, RulePriorityErrorView> {
        match number::signed(raw, 0x7fff_ffff) {
            None => Err(RulePriorityErrorView::Invalid(raw)),
            Some(n) => Self::of(n as i32),
        }
    }

    /// Validates firewalld's signed 16-bit priority range.
    pub fn new(value: i32) -> (r: Result<Self, RulePriorityError>)
        ensures
            model::outcome(r) == Self::of(value),
    {
        if -32768 <= value && value <= 32767 {
            Ok(RulePriority { value: value as i16 })
        } else {
            Err(RulePriorityError::OutOfRange(value))
        }
    }

    /// Returns the validated numeric priority.
    pub fn get(self) -> (r: i16)
        ensures
            r == self.deep_view(),
    {
        self.value
    }

    /// Reads a decimal priority.
    pub fn parse(raw: &str) -> (r: Result<Self, RulePriorityError>)
        ensures
            model::outcome(r) == Self::parsed(raw@),
    {
        match number::parse_signed(raw, 0x7fff_ffff) {
            None => Err(RulePriorityError::Invalid(raw.to_owned())),
            Some(n) => RulePriority::new(n as i32),
        }
    }
}

impl Default for RulePriority {
    fn default() -> (r: Self)
        ensures
            r.deep_view() == 0,
    {
        RulePriority { value: 0 }
    }
}

impl std::str::FromStr for RulePriority {
    type Err = RulePriorityError;

    fn from_str(raw: &str) -> (r: Result<Self, RulePriorityError>)
        ensures
            model::outcome(r) == RulePriority::parsed(raw@),
    {
        RulePriority::parse(raw)
    }
}

/// Stable stage in the ordered reasoning trace.
#[derive(Debug, Clone, Copy, PartialEq, Eq, Structural)]
pub enum TrafficTraceStage {
    /// Scenario fields were normalized and validated.
    ScenarioNormalization,
    /// Snapshot, plan, suite, or run identities were checked.
    IdentityCheck,
    /// Required semantic capability was checked.
    CapabilityCheck,
    /// Snapshot section or object completeness was checked.
    CompletenessCheck,
    /// Ingress classification was resolved.
    IngressResolution,
    /// Egress classification was resolved.
    EgressResolution,
    /// The direction-specific traffic path was resolved.
    PathResolution,
    /// A referenced service was expanded.
    ServiceExpansion,
    /// An applicable policy was evaluated.
    PolicyEvaluation,
    /// An applicable rich rule was evaluated.
    RichRuleEvaluation,
    /// An ordinary zone primitive was evaluated.
    ZoneEvaluation,
    /// A terminal or continuing target was applied.
    TargetEvaluation,
    /// The firewall decision was reached.
    Decision,
    /// The decision was compared with the expectation.
    ExpectationComparison,
    /// Final status was assigned.
    Status,
}

impl DeepView for TrafficTraceStage {
    type V = TrafficTraceStage;

    open spec fn deep_view(&self) -> TrafficTraceStage {
        *self
    }
}

impl Value for TrafficTraceStage {
    fn same(&self, other: &Self) -> (r: bool) {
        *self == *other
    }

    fn dup(&self) -> (r: Self) {
        *self
    }
}

/// Typed reference to evidence contributing to one trace step.
#[derive(Debug, PartialEq, Eq)]
pub enum TraceObjectRef {
    /// One authoritative snapshot section.
    SnapshotSection(SnapshotSection),
    /// A zone object.
    Zone(ZoneName),
    /// A policy object.
    Policy(PolicyName),
    /// A service object.
    Service(ServiceName),
    /// A rich rule by owning zone and stable snapshot index.
    RichRule {
        /// Owning zone.
        zone: ZoneName,
        /// Position in the immutable observed rule list.
        index: u32,
    },
    /// A direct rule by stable snapshot index.
    DirectRule {
        /// Position in the immutable observed rule list.
        index: u32,
    },
}

/// What a `TraceObjectRef` models.
#[verifier::ext_equal]
pub enum TraceObjectRefView {
    SnapshotSection(SnapshotSection),
    Zone(Seq<char>),
    Policy(Seq<char>),
    Service(Seq<char>),
    RichRule { zone: Seq<char>, index: u32 },
    DirectRule { index: u32 },
}

impl DeepView for TraceObjectRef {
    type V = TraceObjectRefView;

    open spec fn deep_view(&self) -> TraceObjectRefView {
        match self {
            TraceObjectRef::SnapshotSection(x0) => TraceObjectRefView::SnapshotSection(
                x0.deep_view(),
            ),
            TraceObjectRef::Zone(x0) => TraceObjectRefView::Zone(x0.deep_view()),
            TraceObjectRef::Policy(x0) => TraceObjectRefView::Policy(x0.deep_view()),
            TraceObjectRef::Service(x0) => TraceObjectRefView::Service(x0.deep_view()),
            TraceObjectRef::RichRule { zone, index } => TraceObjectRefView::RichRule {
                zone: zone.deep_view(),
                index: index.deep_view(),
            },
            TraceObjectRef::DirectRule { index } => TraceObjectRefView::DirectRule {
                index: index.deep_view()
            },
        }
    }
}

impl Value for TraceObjectRef {
    fn same(&self, other: &Self) -> (r: bool) {
        match (self, other) {
            (TraceObjectRef::SnapshotSection(x0), TraceObjectRef::SnapshotSection(x0_other)) =>
                *x0 == *x0_other,
            (TraceObjectRef::Zone(x0), TraceObjectRef::Zone(x0_other)) => x0.same(x0_other),
            (TraceObjectRef::Policy(x0), TraceObjectRef::Policy(x0_other)) => x0.same(x0_other),
            (TraceObjectRef::Service(x0), TraceObjectRef::Service(x0_other)) => x0.same(x0_other),
            (
                TraceObjectRef::RichRule { zone, index },
                TraceObjectRef::RichRule { zone: zone_other, index: index_other },
            ) => zone.same(zone_other) && *index == *index_other,
            (
                TraceObjectRef::DirectRule { index },
                TraceObjectRef::DirectRule { index: index_other },
            ) => *index == *index_other,
            _ => false,
        }
    }

    fn dup(&self) -> (r: Self) {
        match self {
            TraceObjectRef::SnapshotSection(x0) => TraceObjectRef::SnapshotSection(*x0),
            TraceObjectRef::Zone(x0) => TraceObjectRef::Zone(x0.dup()),
            TraceObjectRef::Policy(x0) => TraceObjectRef::Policy(x0.dup()),
            TraceObjectRef::Service(x0) => TraceObjectRef::Service(x0.dup()),
            TraceObjectRef::RichRule { zone, index } => TraceObjectRef::RichRule {
                zone: zone.dup(),
                index: *index,
            },
            TraceObjectRef::DirectRule { index } => TraceObjectRef::DirectRule { index: *index },
        }
    }
}

impl Clone for TraceObjectRef {
    fn clone(&self) -> (r: Self)
        ensures
            r.deep_view() == self.deep_view(),
    {
        self.dup()
    }
}

/// Typed result of one reasoning stage.
#[derive(Debug, Clone, Copy, PartialEq, Eq, Structural)]
pub enum TrafficTraceOutcome {
    /// The referenced input matched.
    Matched,
    /// The referenced input did not match.
    NotMatched,
    /// The referenced object was selected for the path.
    Selected,
    /// The referenced object was expanded into concrete semantics.
    Expanded,
    /// Evaluation continues after a non-terminal construct.
    Continued,
    /// A proven firewall decision was reached.
    Decision(FirewallDecision),
    /// A final comparison status was assigned.
    Status(TrafficTestStatus),
    /// Evaluation stopped with a typed unknown reason.
    Unknown(UnknownReason),
}

impl DeepView for TrafficTraceOutcome {
    type V = TrafficTraceOutcome;

    open spec fn deep_view(&self) -> TrafficTraceOutcome {
        *self
    }
}

impl Value for TrafficTraceOutcome {
    fn same(&self, other: &Self) -> (r: bool) {
        *self == *other
    }

    fn dup(&self) -> (r: Self) {
        *self
    }
}

/// One bounded, typed, ordered reasoning step.
#[derive(Debug, PartialEq, Eq)]
pub struct TrafficTraceStep {
    stage: TrafficTraceStage,
    object: Option<TraceObjectRef>,
    outcome: TrafficTraceOutcome,
}

/// What a `TrafficTraceStep` models.
#[verifier::ext_equal]
pub struct TrafficTraceStepView {
    pub stage: TrafficTraceStage,
    pub object: Option<TraceObjectRefView>,
    pub outcome: TrafficTraceOutcome,
}

impl DeepView for TrafficTraceStep {
    type V = TrafficTraceStepView;

    closed spec fn deep_view(&self) -> TrafficTraceStepView {
        TrafficTraceStepView {
            stage: self.stage.deep_view(),
            object: self.object.deep_view(),
            outcome: self.outcome.deep_view(),
        }
    }
}

impl Value for TrafficTraceStep {
    fn same(&self, other: &Self) -> (r: bool) {
        self.stage == other.stage
            && self.object.same(&other.object)
            && self.outcome == other.outcome
    }

    fn dup(&self) -> (r: Self) {
        TrafficTraceStep {
            stage: self.stage,
            object: self.object.dup(),
            outcome: self.outcome,
        }
    }
}

impl Clone for TrafficTraceStep {
    fn clone(&self) -> (r: Self)
        ensures
            r.deep_view() == self.deep_view(),
    {
        self.dup()
    }
}

impl TrafficTraceStep {
    /// Creates a step without an object reference.
    pub fn new(stage: TrafficTraceStage, outcome: TrafficTraceOutcome) -> (r: Self)
        ensures
            r.deep_view() == (TrafficTraceStepView { stage, object: None, outcome }),
    {
        TrafficTraceStep { stage, object: None, outcome }
    }

    /// Attaches the exact evidence object used by this step.
    pub fn with_object(self, object: TraceObjectRef) -> (r: Self)
        ensures
            r.deep_view() == (TrafficTraceStepView {
                object: Some(object.deep_view()),
                ..self.deep_view()
            }),
    {
        TrafficTraceStep { stage: self.stage, object: Some(object), outcome: self.outcome }
    }

    /// Returns the trace stage.
    pub fn stage(&self) -> (r: TrafficTraceStage)
        ensures
            r == self.deep_view().stage,
    {
        self.stage
    }

    /// Returns the referenced evidence object, when applicable.
    pub fn object(&self) -> (r: Option<&TraceObjectRef>)
        ensures
            match r {
                Some(o) => self.deep_view().object == Some(o.deep_view()),
                None => self.deep_view().object is None,
            },
    {
        match &self.object {
            Some(object) => Some(object),
            None => None,
        }
    }

    /// Returns the typed stage outcome.
    pub fn outcome(&self) -> (r: TrafficTraceOutcome)
        ensures
            r == self.deep_view().outcome,
    {
        self.outcome
    }
}

/// An unknown decision never becomes a pass or a failure, and a proven one
/// always does.
pub proof fn unknown_is_neither_pass_nor_fail(
    decision: FirewallDecision,
    expectation: TrafficExpectation,
)
    ensures
        (TrafficTestStatus::of(decision, expectation) is Indeterminate) == (decision is Unknown),
        (TrafficTestStatus::of(decision, expectation) is Pass
            || TrafficTestStatus::of(decision, expectation) is Fail) == !(decision is Unknown),
{
}

/// A proven decision passes exactly one of the two expectations.
pub proof fn proven_decision_passes_one_expectation(decision: FirewallDecision)
    requires
        !(decision is Unknown),
    ensures
        (TrafficTestStatus::of(decision, TrafficExpectation::Allow) is Pass) != (
        TrafficTestStatus::of(decision, TrafficExpectation::Block) is Pass),
{
}

/// The text of a priority reads back as that priority.
pub proof fn priority_reads_back(p: i16)
    ensures
        RulePriority::parsed(
            number::signed_decimal(p as int),
        ) == Ok::<i16, RulePriorityErrorView>(p),
{
    number::signed_reads_back(p as int, 0x7fff_ffff);
}

/// Priorities compare as their numbers: the lower number comes first, and equal
/// numbers are equal priorities.
pub proof fn priorities_compare_as_numbers(a: RulePriority, b: RulePriority)
    ensures
        a.is_lt(&b) == (a.deep_view() < b.deep_view()),
        a.is_le(&b) == (a.deep_view() <= b.deep_view()),
        (a == b) == (a.deep_view() == b.deep_view()),
{
}

} // verus!
