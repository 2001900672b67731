//! Verified domain types for firewalld state. No I/O, no async, no UI
//! dependencies.
//!
//! Every type has a mathematical model, its deep view, and the contracts speak
//! of these models: what a text parses to, what an operation changes, what a
//! snapshot implies, how traffic is judged. `model` says what all types share;
//! `text`, `number`, `lists`, `order`, `name_map`, `ip` and `cidr` hold the
//! ground that the rest is built on.

pub mod address;
pub mod capability;
pub mod cidr;
pub mod dependency;
pub mod direct_migration;
pub mod explain;
pub mod ids;
pub mod ip;
pub mod lists;
pub mod model;
pub mod name_map;
pub mod number;
pub mod observation;
pub mod operation;
pub mod operation_effect;
pub mod order;
pub mod policy;
pub mod policy_set;
pub mod port;
pub mod proposal;
pub mod restore;
pub mod rich_rule;
pub mod service;
pub mod snapshot;
pub mod text;
pub mod traffic_test;
pub mod zone;

pub use address::{AddressFamily, IpSetEntry, SourceAddress};
pub use capability::{
    FeatureSupport, FirewalldFeature, SemanticCapabilityKind, SemanticCapabilityMatrix,
};
pub use dependency::{PolicyDependency, PolicyDependencyGraph, PolicyDependencyResource};
pub use direct_migration::{
    translate_direct_rule, DirectChain, DirectMigrationError, DirectPolicyMigration,
    DirectRuleTranslation,
};
pub use ids::{
    IcmpType, InterfaceName, IpProtocol, IpSetName, PolicyName, PolicySetName, ServiceName,
    ValidationError, ZoneName,
};
pub use ip::IpAddr;
pub use name_map::NameMap;
pub use observation::{
    ChainCounter, LogAction, LogEntry, RefreshObservation, RefreshSection,
    RefreshSectionObservation,
};
pub use operation::{FirewallOperation, OperationError};
pub use operation_effect::{
    AffectedObject, OperationEffect, OperationEffectSupport, OperationTargetSequence,
    PartialApplicationPolicy, PolicyZoneDirection, TemporalBehavior, TrafficDimension,
    TrafficIrrelevanceProof, UnsupportedOperationReason,
};
pub use policy::{PolicyDetails, PolicyTarget};
pub use policy_set::{PolicySetDetails, PolicySetScope, PolicySetState};
pub use port::{ForwardPort, PortNumber, PortRange, PortSelector, PortSpec, Protocol};
pub use proposal::{DeniedFlow, ProposalError};
pub use rich_rule::{
    RichRule, RichRuleAction, RichRuleAddressMatch, RichRuleAnalysis, RichRuleExpression,
    RichRuleMalformed, RichRuleUnsupported,
};
pub use service::{
    resolve_service_includes, ServiceDefinition, ServiceDestination, ServiceModuleName,
    ServiceResolution, ServiceResolutionFailure, MAX_SERVICE_INCLUDE_DEPTH,
};
pub use snapshot::{
    ConfigurationTarget, DegradedSection, FirewallSnapshot, FirewallStatus, IpSetInfo, LogDenied,
    NetfilterBackend, Scoped, SnapshotSection,
};
pub use traffic_test::evaluator::{evaluate_scenario, TrafficEvaluationError};
pub use traffic_test::index::{
    IndexedZoneBinding, IndexedZoneBindingKind, TrafficEvaluationIndex,
};
pub use traffic_test::projection::{
    CandidateProjection, CandidateProjectionError, CandidateProjector, EncodedOperation,
    ProjectionUnknownEffect,
};
pub use traffic_test::report::{
    CandidateIdentity, EvaluationContext, EvaluationPhase, EvaluationPlanId,
    EvaluationSnapshotIdentity, EvaluationTarget, MutationIntentId, OrderedOperationDigest,
    TrafficReportError, TrafficTestReport, TrafficTestResult, TrafficTestRunId,
    TrafficTestSummary, MAX_TRAFFIC_REPORT_BYTES,
};
pub use traffic_test::scenario::{
    TrafficConnectionState, TrafficDestination, TrafficDirection, TrafficScenario,
    TrafficScenarioId, TrafficSeverity, TrafficSuite, TrafficSuiteId, TrafficSuiteRevision,
    TrafficTransport, TrafficValidationError, MAX_SCENARIOS_PER_SUITE, MAX_TRAFFIC_NAME_BYTES,
    MAX_TRAFFIC_NOTE_BYTES,
};
pub use traffic_test::{
    FirewallDecision, RulePriority, RulePriorityError, TraceObjectRef, TrafficExpectation,
    TrafficTestStatus, TrafficTraceOutcome, TrafficTraceStage, TrafficTraceStep, UnknownReason,
    MAX_TRACE_STEPS,
};
pub use zone::{ActiveZone, ZoneDetails, ZoneTarget};
