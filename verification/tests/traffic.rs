//! Traffic scenarios, their evaluation, reports and candidate projections.

use fwdeck::name_map::Name;
use fwdeck::model::Value;
use fwdeck::traffic_test::evaluator::{
    cidr_contains, evaluate_selected_zone, scenario_protocol, source_binding_specificity,
    transport_protocol,
};
use fwdeck::traffic_test::projection::ProjectionState;
use fwdeck::{
    ActiveZone, AffectedObject, CandidateIdentity, ConfigurationTarget, EvaluationContext,
    EvaluationPhase, EvaluationPlanId, EvaluationSnapshotIdentity, EvaluationTarget,
    FirewallDecision, FirewallSnapshot, FirewallStatus, IcmpType, InterfaceName, IpAddr,
    IpProtocol, LogDenied, MutationIntentId, NameMap, NetfilterBackend, OperationTargetSequence,
    OrderedOperationDigest, PolicyDetails, PolicyName, PolicyTarget, PortSelector,
    ProjectionUnknownEffect, RulePriority, RulePriorityError, Scoped, ServiceName,
    SnapshotSection, SourceAddress, TraceObjectRef, TrafficConnectionState, TrafficDestination,
    TrafficDimension, TrafficDirection,
    TrafficEvaluationIndex, TrafficExpectation, TrafficReportError, TrafficScenario,
    TrafficScenarioId, TrafficSeverity, TrafficSuite, TrafficSuiteId, TrafficSuiteRevision,
    TrafficTestReport, TrafficTestResult, TrafficTestRunId, TrafficTestStatus,
    TrafficTraceOutcome, TrafficTraceStage, TrafficTraceStep, TrafficTransport,
    TrafficValidationError, UnknownReason, UnsupportedOperationReason, ZoneDetails, ZoneName,
    ZoneTarget, MAX_SCENARIOS_PER_SUITE, MAX_TRACE_STEPS, MAX_TRAFFIC_NAME_BYTES,
    MAX_TRAFFIC_NOTE_BYTES, MAX_TRAFFIC_REPORT_BYTES,
};

fn ip(raw: &str) -> IpAddr {
    IpAddr::parse(raw).unwrap()
}

fn one<K: Name, V: Value>(key: K, value: V) -> NameMap<K, V> {
    let mut out = NameMap::new();
    out.insert(key, value);
    out
}

#[test]
fn decision_and_expectation_derive_only_proven_statuses() {
    let cases = [
        (
            FirewallDecision::Allow,
            TrafficExpectation::Allow,
            TrafficTestStatus::Pass,
        ),
        (
            FirewallDecision::Allow,
            TrafficExpectation::Block,
            TrafficTestStatus::Fail,
        ),
        (
            FirewallDecision::Block,
            TrafficExpectation::Allow,
            TrafficTestStatus::Fail,
        ),
        (
            FirewallDecision::Block,
            TrafficExpectation::Block,
            TrafficTestStatus::Pass,
        ),
        (
            FirewallDecision::Unknown,
            TrafficExpectation::Allow,
            TrafficTestStatus::Indeterminate,
        ),
        (
            FirewallDecision::Unknown,
            TrafficExpectation::Block,
            TrafficTestStatus::Indeterminate,
        ),
    ];

    for (decision, expectation, expected) in cases {
        assert_eq!(
            TrafficTestStatus::from_decision(decision, expectation),
            expected
        );
    }
}

#[test]
fn priority_validates_firewalld_bounds_and_sorts_lowest_first() {
    assert_eq!(RulePriority::new(-32_768).unwrap().get(), -32_768);
    assert_eq!(RulePriority::new(32_767).unwrap().get(), 32_767);
    assert_eq!(
        RulePriority::new(-32_769),
        Err(RulePriorityError::OutOfRange(-32_769))
    );
    assert_eq!(
        RulePriority::new(32_768),
        Err(RulePriorityError::OutOfRange(32_768))
    );

    let mut priorities = [
        RulePriority::new(100).unwrap(),
        RulePriority::new(-100).unwrap(),
        RulePriority::new(0).unwrap(),
    ];
    priorities.sort();
    assert_eq!(priorities.map(RulePriority::get), [-100, 0, 100]);
}

fn scenario() -> TrafficScenario {
    TrafficScenario {
        id: TrafficScenarioId::parse("keep-ssh").unwrap(),
        name: "Keep SSH access".to_owned(),
        enabled: true,
        direction: TrafficDirection::ToHost,
        source: SourceAddress::parse("192.0.2.0/24").unwrap(),
        ingress_interface: Some(InterfaceName::parse("eth0").unwrap()),
        ingress_zone: None,
        destination: TrafficDestination::LocalHost,
        egress_interface: None,
        egress_zone: None,
        transport: TrafficTransport::Tcp,
        destination_port: Some("22".parse::<PortSelector>().unwrap()),
        source_port: None,
        connection_state: TrafficConnectionState::New,
        expectation: fwdeck::TrafficExpectation::Allow,
        severity: TrafficSeverity::Critical,
        required_safety_gate: true,
        note: Some("Remote administration path".to_owned()),
    }
}

fn suite(scenarios: Vec<TrafficScenario>) -> TrafficSuite {
    TrafficSuite {
        id: TrafficSuiteId::parse("default").unwrap(),
        name: "Default host checks".to_owned(),
        revision: TrafficSuiteRevision::new(1).unwrap(),
        scenarios,
    }
}

#[test]
fn ids_and_revision_are_stable_validated_values() {
    assert_eq!(
        TrafficScenarioId::parse("keep-ssh").unwrap().as_str(),
        "keep-ssh"
    );
    assert_eq!(
        TrafficSuiteId::parse("prod.host_v1").unwrap().as_str(),
        "prod.host_v1"
    );
    assert!(TrafficScenarioId::parse("").is_err());
    assert!(TrafficSuiteId::parse("contains whitespace").is_err());
    assert!(TrafficSuiteRevision::new(0).is_err());
    assert_eq!(TrafficSuiteRevision::new(4).unwrap().get(), 4);
}

#[test]
fn valid_host_ingress_scenario_and_suite_pass_validation() {
    let scenario = scenario();
    assert_eq!(scenario.validate(), Ok(()));
    assert_eq!(suite(vec![scenario]).validate(), Ok(()));
}

#[test]
fn suite_rejects_name_limits_count_and_duplicate_ids() {
    let mut invalid_name = scenario();
    invalid_name.name = " ".to_owned();
    assert_eq!(
        invalid_name.validate(),
        Err(TrafficValidationError::EmptyName { kind: "scenario" })
    );

    let mut oversized_name = scenario();
    oversized_name.name = "é".repeat(MAX_TRAFFIC_NAME_BYTES / 2 + 1);
    assert!(matches!(
        oversized_name.validate(),
        Err(TrafficValidationError::TextTooLong {
            kind: "scenario",
            actual,
            max: MAX_TRAFFIC_NAME_BYTES,
        }) if actual == MAX_TRAFFIC_NAME_BYTES + 2
    ));

    let mut oversized_note = scenario();
    oversized_note.note = Some("x".repeat(MAX_TRAFFIC_NOTE_BYTES + 1));
    assert!(matches!(
        oversized_note.validate(),
        Err(TrafficValidationError::TextTooLong {
            kind: "scenario note",
            ..
        })
    ));

    let original = scenario();
    assert_eq!(
        suite(vec![original.clone(), original]).validate(),
        Err(TrafficValidationError::DuplicateScenarioId(
            TrafficScenarioId::parse("keep-ssh").unwrap()
        ))
    );

    let mut too_many = Vec::with_capacity(MAX_SCENARIOS_PER_SUITE + 1);
    for index in 0..=MAX_SCENARIOS_PER_SUITE {
        let mut item = scenario();
        item.id = TrafficScenarioId::parse(&format!("scenario-{index}")).unwrap();
        too_many.push(item);
    }
    assert!(matches!(
        suite(too_many).validate(),
        Err(TrafficValidationError::TooManyScenarios { .. })
    ));
}

#[test]
fn transport_and_port_shapes_are_checked() {
    let mut missing_destination_port = scenario();
    missing_destination_port.destination_port = None;
    assert_eq!(
        missing_destination_port.validate(),
        Err(TrafficValidationError::DestinationPortRequired)
    );

    let mut icmp_with_port = scenario();
    icmp_with_port.transport = TrafficTransport::Icmp {
        icmp_type: IcmpType::parse("echo-request").unwrap(),
    };
    assert_eq!(
        icmp_with_port.validate(),
        Err(TrafficValidationError::PortsNotAllowed { transport: "icmp" })
    );

    let mut raw_with_port = scenario();
    raw_with_port.transport = TrafficTransport::RawProtocol {
        protocol: IpProtocol::parse("gre").unwrap(),
    };
    assert_eq!(
        raw_with_port.validate(),
        Err(TrafficValidationError::PortsNotAllowed {
            transport: "raw_protocol"
        })
    );
}

#[test]
fn address_family_and_zone_interface_hints_cannot_conflict() {
    let mut mixed_family = scenario();
    mixed_family.destination =
        TrafficDestination::Address(SourceAddress::parse("2001:db8::10").unwrap());
    assert_eq!(
        mixed_family.validate(),
        Err(TrafficValidationError::AddressFamilyMismatch)
    );

    let mut ingress_conflict = scenario();
    ingress_conflict.ingress_zone = Some(ZoneName::parse("public").unwrap());
    assert_eq!(
        ingress_conflict.validate(),
        Err(TrafficValidationError::ConflictingIngressHints)
    );

    let mut egress_conflict = scenario();
    egress_conflict.egress_interface = Some(InterfaceName::parse("eth1").unwrap());
    egress_conflict.egress_zone = Some(ZoneName::parse("external").unwrap());
    assert_eq!(
        egress_conflict.validate(),
        Err(TrafficValidationError::ConflictingEgressHints)
    );
}

fn identity(refresh: u64, generation: u64) -> EvaluationSnapshotIdentity {
    EvaluationSnapshotIdentity::new(refresh, generation).unwrap()
}

fn current_context(target: EvaluationTarget) -> EvaluationContext {
    EvaluationContext {
        run_id: TrafficTestRunId::new(1).unwrap(),
        suite_id: fwdeck::TrafficSuiteId::parse("default").unwrap(),
        suite_revision: fwdeck::TrafficSuiteRevision::new(3).unwrap(),
        phase: EvaluationPhase::Current,
        target,
        authoritative_snapshot: identity(10, 4),
        base_snapshot: None,
        mutation_intent_id: None,
        plan_id: None,
        candidate_identity: None,
    }
}

fn result(id: &str, decision: FirewallDecision) -> TrafficTestResult {
    TrafficTestResult::new(
        TrafficScenarioId::parse(id).unwrap(),
        TrafficExpectation::Allow,
        decision,
        (decision == FirewallDecision::Unknown).then_some(UnknownReason::IncompleteSnapshot),
        vec![TrafficTraceStep::new(
            TrafficTraceStage::Decision,
            TrafficTraceOutcome::Decision(decision),
        )],
    )
    .unwrap()
}

#[test]
fn ordered_operation_digest_is_deterministic_and_order_sensitive() {
    let first = OrderedOperationDigest::from_ordered_bytes(&vec![
        b"add ssh".to_vec(),
        b"drop 9".to_vec(),
    ]);
    let same = OrderedOperationDigest::from_ordered_bytes(&vec![
        b"add ssh".to_vec(),
        b"drop 9".to_vec(),
    ]);
    let reversed = OrderedOperationDigest::from_ordered_bytes(&vec![
        b"drop 9".to_vec(),
        b"add ssh".to_vec(),
    ]);
    assert_eq!(first, same);
    assert_ne!(first, reversed);
    assert_eq!(first.as_hex().len(), 16);
}

#[test]
fn candidate_context_must_bind_every_identity_and_target() {
    let base = identity(10, 4);
    let mutation = MutationIntentId::new(7).unwrap();
    let plan = Some(EvaluationPlanId::new(9));
    let digest = OrderedOperationDigest::from_ordered_bytes(&vec![b"operation".to_vec()]);
    let candidate =
        CandidateIdentity::new(base, mutation, plan, EvaluationTarget::Permanent, digest);
    let context = EvaluationContext {
        run_id: TrafficTestRunId::new(2).unwrap(),
        suite_id: fwdeck::TrafficSuiteId::parse("default").unwrap(),
        suite_revision: fwdeck::TrafficSuiteRevision::new(3).unwrap(),
        phase: EvaluationPhase::StagedCandidate,
        target: EvaluationTarget::Permanent,
        authoritative_snapshot: base,
        base_snapshot: Some(base),
        mutation_intent_id: Some(mutation),
        plan_id: plan,
        candidate_identity: Some(candidate),
    };
    assert_eq!(context.validate(), Ok(()));

    let mut wrong_target = context.clone();
    wrong_target.target = EvaluationTarget::Runtime;
    assert_eq!(
        wrong_target.validate(),
        Err(TrafficReportError::CandidateIdentityMismatch)
    );
}

#[test]
fn current_and_post_apply_contexts_reject_incoherent_mutation_state() {
    let mut current = current_context(EvaluationTarget::Runtime);
    current.mutation_intent_id = Some(MutationIntentId::new(2).unwrap());
    assert_eq!(
        current.validate(),
        Err(TrafficReportError::UnexpectedMutationIdentity {
            phase: EvaluationPhase::Current
        })
    );

    let mut post_apply = current_context(EvaluationTarget::Runtime);
    post_apply.phase = EvaluationPhase::PostApply;
    assert_eq!(
        post_apply.validate(),
        Err(TrafficReportError::MissingMutationIdentity {
            phase: EvaluationPhase::PostApply
        })
    );
}

#[test]
fn exact_context_equality_rejects_stale_suite_snapshot_and_target() {
    let context = current_context(EvaluationTarget::Runtime);
    assert!(context.matches_active(&context));

    let mut stale_suite = context.clone();
    stale_suite.suite_revision = fwdeck::TrafficSuiteRevision::new(4).unwrap();
    assert!(!context.matches_active(&stale_suite));

    let mut stale_snapshot = context.clone();
    stale_snapshot.authoritative_snapshot = identity(11, 5);
    assert!(!context.matches_active(&stale_snapshot));

    let mut other_target = context.clone();
    other_target.target = EvaluationTarget::Permanent;
    assert!(!context.matches_active(&other_target));
}

#[test]
fn result_constructor_keeps_decision_status_reason_and_trace_consistent() {
    let allowed = result("allowed", FirewallDecision::Allow);
    assert_eq!(allowed.status(), TrafficTestStatus::Pass);
    assert_eq!(allowed.unknown_reason(), None);

    assert_eq!(
        TrafficTestResult::new(
            TrafficScenarioId::parse("bad").unwrap(),
            TrafficExpectation::Block,
            FirewallDecision::Unknown,
            None,
            Vec::new(),
        ),
        Err(TrafficReportError::MissingUnknownReason)
    );
    assert_eq!(
        TrafficTestResult::new(
            TrafficScenarioId::parse("bad").unwrap(),
            TrafficExpectation::Block,
            FirewallDecision::Block,
            Some(UnknownReason::IncompleteSnapshot),
            Vec::new(),
        ),
        Err(TrafficReportError::UnexpectedUnknownReason)
    );
}

#[test]
fn report_enforces_trace_result_and_duplicate_bounds() {
    let context = current_context(EvaluationTarget::Runtime);
    let mut oversized_trace = vec![
        TrafficTraceStep::new(
            TrafficTraceStage::Decision,
            TrafficTraceOutcome::Decision(FirewallDecision::Allow),
        );
        fwdeck::MAX_TRACE_STEPS + 1
    ];
    assert!(matches!(
        TrafficTestResult::new(
            TrafficScenarioId::parse("trace").unwrap(),
            TrafficExpectation::Allow,
            FirewallDecision::Allow,
            None,
            std::mem::take(&mut oversized_trace),
        ),
        Err(TrafficReportError::TraceTooLong { .. })
    ));

    let duplicate = result("same", FirewallDecision::Allow);
    assert!(matches!(
        TrafficTestReport::new(context.clone(), vec![duplicate.clone(), duplicate], Some(0)),
        Err(TrafficReportError::DuplicateResult(_))
    ));

    let many = (0..=fwdeck::MAX_SCENARIOS_PER_SUITE)
        .map(|index| result(&format!("scenario-{index}"), FirewallDecision::Allow))
        .collect();
    assert!(matches!(
        TrafficTestReport::new(context, many, Some(0)),
        Err(TrafficReportError::TooManyResults { .. })
    ));
}

fn flow(source: &str, transport: TrafficTransport) -> TrafficScenario {
    TrafficScenario {
        id: TrafficScenarioId::parse("private-helper").unwrap(),
        name: "Private helper scenario".to_owned(),
        enabled: true,
        direction: fwdeck::TrafficDirection::ToHost,
        source: SourceAddress::parse(source).unwrap(),
        ingress_interface: None,
        ingress_zone: None,
        destination: fwdeck::TrafficDestination::LocalHost,
        egress_interface: None,
        egress_zone: None,
        transport,
        destination_port: None,
        source_port: None,
        connection_state: TrafficConnectionState::New,
        expectation: TrafficExpectation::Allow,
        severity: TrafficSeverity::Critical,
        required_safety_gate: true,
        note: None,
    }
}

#[test]
fn protocol_helpers_cover_every_supported_transport_family() {
    let udp = flow("192.0.2.1", TrafficTransport::Udp);
    assert_eq!(scenario_protocol(&udp), Some("udp"));
    let icmp4 = flow(
        "192.0.2.1",
        TrafficTransport::Icmp {
            icmp_type: IcmpType::parse("echo-request").unwrap(),
        },
    );
    assert_eq!(scenario_protocol(&icmp4), Some("icmp"));
    assert!(transport_protocol(&icmp4.transport).is_none());
    let icmp6 = flow(
        "2001:db8::1",
        TrafficTransport::Icmp {
            icmp_type: IcmpType::parse("echo-request").unwrap(),
        },
    );
    assert_eq!(scenario_protocol(&icmp6), Some("ipv6-icmp"));
    let raw = TrafficTransport::RawProtocol {
        protocol: fwdeck::IpProtocol::parse("gre").unwrap(),
    };
    assert!(transport_protocol(&raw).is_none());
}

#[test]
fn cidr_helpers_cover_ipv6_partial_masks_and_cross_family_rejection() {
    let network = ip("2001:db8::");
    let inside = ip("2001:db8:0:1::1");
    let outside = ip("2001:db9::1");
    assert!(cidr_contains(network, 47, inside));
    assert!(!cidr_contains(network, 47, outside));
    assert!(!cidr_contains(
        ip("192.0.2.0"),
        24,
        inside
    ));
    assert!(
        source_binding_specificity(
            &SourceAddress::parse("aa:bb:cc:dd:ee:ff").unwrap(),
            &SourceAddress::parse("192.0.2.1").unwrap()
        )
        .is_none()
    );
}

#[test]
fn selected_zone_missing_from_index_returns_typed_unknown() {
    let observed = fwdeck::FirewallSnapshot {
        status: fwdeck::FirewallStatus {
            daemon_running: true,
            version: Some("2.4.0".to_owned()),
            backend: fwdeck::NetfilterBackend::Nftables,
            log_denied: fwdeck::LogDenied::Off,
            panic_mode: false,
        },
        default_zone: ZoneName::parse("public").unwrap(),
        active: NameMap::default(),
        runtime: NameMap::default(),
        permanent: NameMap::default(),
        ipsets: Scoped::default(),
        service_definitions: NameMap::default(),
        available_services: Vec::new(),
        policies: Scoped::default(),
        direct_rules: Vec::new(),
        degraded: Vec::new(),
    };
    let index =
        TrafficEvaluationIndex::new(std::sync::Arc::new(observed), EvaluationTarget::Runtime);
    let result = evaluate_selected_zone(
        &index,
        &flow("192.0.2.1", TrafficTransport::Tcp),
        ZoneName::parse("absent").unwrap(),
        Vec::new(),
    )
    .unwrap();
    assert_eq!(
        result.unknown_reason(),
        Some(UnknownReason::IncompleteSnapshot)
    );
}

fn zone() -> ZoneName {
    ZoneName::parse("public").unwrap()
}

fn policy() -> PolicyName {
    PolicyName::parse("policy").unwrap()
}

fn observed() -> FirewallSnapshot {
    let mut zone_details = ZoneDetails::empty(zone());
    zone_details.target = ZoneTarget::Accept;
    let mut policy_details = PolicyDetails::empty(policy());
    policy_details.target = PolicyTarget::Continue;
    FirewallSnapshot {
        status: FirewallStatus {
            daemon_running: true,
            version: Some("2.4.0".to_owned()),
            backend: NetfilterBackend::Nftables,
            log_denied: LogDenied::Off,
            panic_mode: false,
        },
        default_zone: zone(),
        active: NameMap::new(),
        runtime: one(zone(), zone_details.clone()),
        permanent: one(zone(), zone_details),
        ipsets: Scoped::default(),
        service_definitions: NameMap::new(),
        available_services: Vec::new(),
        policies: Scoped {
            runtime: one(policy(), policy_details.clone()),
            permanent: one(policy(), policy_details),
        },
        direct_rules: Vec::new(),
        degraded: Vec::new(),
    }
}

fn marker() -> ProjectionUnknownEffect {
    ProjectionUnknownEffect::new(
        0,
        UnsupportedOperationReason::IpSetSemantics,
        AffectedObject::Global,
        vec![TrafficDimension::IpSet],
    )
}

#[test]
fn private_target_copy_and_requirement_invariants_are_explicit() {
    let mut state = ProjectionState::new(&observed());
    state.unknown_permanent.push(marker());
    state.mark_unknown(OperationTargetSequence::RuntimeFromPermanent, marker());
    assert_eq!(state.unknown_runtime, state.unknown_permanent);
    state.unknown_runtime.push(marker());
    state.mark_unknown(OperationTargetSequence::PermanentFromRuntime, marker());
    assert_eq!(state.unknown_permanent, state.unknown_runtime);

    for target in [
        ConfigurationTarget::Runtime,
        ConfigurationTarget::Permanent,
        ConfigurationTarget::RuntimeAndPermanent,
    ] {
        assert!(state.require_zone(target, &zone()).is_ok());
        assert!(state.require_policy(target, &policy()).is_ok());
    }
    let missing_zone = ZoneName::parse("missing-zone").unwrap();
    let missing_policy = PolicyName::parse("missing-policy").unwrap();
    assert!(
        state
            .require_zone(ConfigurationTarget::RuntimeAndPermanent, &missing_zone)
            .is_err()
    );
    assert!(
        state
            .require_policy(ConfigurationTarget::RuntimeAndPermanent, &missing_policy)
            .is_err()
    );
}

#[test]
fn private_active_zone_cleanup_handles_a_removed_runtime_object() {
    let mut state = ProjectionState::new(&observed());
    state.snapshot.active.insert(
        zone(),
        ActiveZone {
            interfaces: Vec::new(),
            sources: Vec::new(),
        },
    );
    state.snapshot.runtime.remove(&zone());
    state.sync_active_zone(&zone());
    assert!(!state.snapshot.active.contains_key(&zone()));
}

#[test]
fn schema_preserves_future_directions_and_states_without_normalizing_them() {
    let mut from_host = scenario();
    from_host.direction = TrafficDirection::FromHost;
    assert_eq!(from_host.validate(), Ok(()));

    let mut established = scenario();
    established.connection_state = TrafficConnectionState::Established;
    assert_eq!(established.validate(), Ok(()));

    let kept = suite(vec![from_host, established]);
    assert_eq!(kept.scenarios[0].direction, TrafficDirection::FromHost);
    assert_eq!(
        kept.scenarios[1].connection_state,
        TrafficConnectionState::Established
    );
}

#[test]
fn trace_steps_require_typed_stages_outcomes_and_object_references() {
    let zone = ZoneName::parse("public").unwrap();
    let service = ServiceName::parse("ssh").unwrap();
    let steps = [
        TrafficTraceStep::new(
            TrafficTraceStage::IngressResolution,
            TrafficTraceOutcome::Selected,
        )
        .with_object(TraceObjectRef::Zone(zone)),
        TrafficTraceStep::new(
            TrafficTraceStage::ServiceExpansion,
            TrafficTraceOutcome::Expanded,
        )
        .with_object(TraceObjectRef::Service(service)),
        TrafficTraceStep::new(
            TrafficTraceStage::CompletenessCheck,
            TrafficTraceOutcome::Unknown(UnknownReason::IncompleteSnapshot),
        )
        .with_object(TraceObjectRef::SnapshotSection(SnapshotSection::Policies)),
    ];

    assert_eq!(steps.len(), 3);
    assert_eq!(MAX_TRACE_STEPS, 128);
    assert!(steps.iter().all(|step| step.object().is_some()));
    assert_eq!(steps[2].stage(), TrafficTraceStage::CompletenessCheck);
    assert_eq!(
        steps[2].object(),
        Some(&TraceObjectRef::SnapshotSection(SnapshotSection::Policies))
    );
    assert_eq!(
        steps[2].outcome(),
        TrafficTraceOutcome::Unknown(UnknownReason::IncompleteSnapshot)
    );
}

#[test]
fn report_summary_and_serialized_budget_are_deterministic() {
    let build = |encoded: Option<usize>| {
        TrafficTestReport::new(
            current_context(EvaluationTarget::Runtime),
            vec![
                result("pass", FirewallDecision::Allow),
                result("fail", FirewallDecision::Block),
                result("unknown", FirewallDecision::Unknown),
            ],
            encoded,
        )
    };
    let report = build(Some(MAX_TRAFFIC_REPORT_BYTES)).unwrap();
    assert_eq!(report.summary().passed, 1);
    assert_eq!(report.summary().failed, 1);
    assert_eq!(report.summary().indeterminate, 1);
    assert_eq!(report.summary().total, 3);
    assert!(build(Some(MAX_TRAFFIC_REPORT_BYTES + 1)).is_err());
}

#[test]
fn identities_are_non_zero_and_round_trip_stably() {
    assert!(TrafficTestRunId::new(0).is_err());
    assert!(MutationIntentId::new(0).is_err());
    assert!(EvaluationSnapshotIdentity::new(1, 0).is_err());

    let context = current_context(EvaluationTarget::Runtime);
    assert_eq!(context.clone(), context);
}
