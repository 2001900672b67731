//! Evaluation of scenarios, projection of operations and assembly of reports.

use std::sync::Arc;

use fwdeck::model::Value;
use fwdeck::name_map::Name;
use fwdeck::{
    evaluate_scenario, CandidateProjection, CandidateProjectionError, CandidateProjector,
    ConfigurationTarget, DegradedSection, EncodedOperation, EvaluationContext, EvaluationPhase,
    EvaluationPlanId, EvaluationSnapshotIdentity, EvaluationTarget, FirewallDecision,
    FirewallOperation, FirewallSnapshot, FirewallStatus, IpSetName, LogDenied, MutationIntentId,
    NameMap, NetfilterBackend, OrderedOperationDigest, PolicyDetails, PolicyName, PortSelector,
    RichRule, Scoped, ServiceDefinition, ServiceName, SnapshotSection, SourceAddress,
    TrafficConnectionState, TrafficDestination, TrafficDirection, TrafficEvaluationError,
    TrafficEvaluationIndex, TrafficExpectation, TrafficReportError, TrafficScenario,
    TrafficScenarioId, TrafficSeverity, TrafficSuiteId, TrafficSuiteRevision, TrafficTestReport,
    TrafficTestResult, TrafficTestStatus, TrafficTransport, TrafficTraceStage, UnknownReason,
    UnsupportedOperationReason, ZoneDetails, ZoneName, ZoneTarget, MAX_TRAFFIC_REPORT_BYTES,
    TrafficTestRunId,
};

fn zone(raw: &str) -> ZoneName {
    ZoneName::parse(raw).unwrap()
}

fn service(raw: &str) -> ServiceName {
    ServiceName::parse(raw).unwrap()
}

fn map<K: Name, V: Value>(entries: Vec<(K, V)>) -> NameMap<K, V> {
    let mut out = NameMap::new();
    for (key, value) in entries {
        out.insert(key, value);
    }
    out
}

fn public() -> ZoneDetails {
    let mut details = ZoneDetails::empty(zone("public"));
    details.services = vec![service("ssh")];
    details
}

fn snapshot(runtime: ZoneDetails) -> FirewallSnapshot {
    let mut ssh = ServiceDefinition::default();
    ssh.ports = vec!["22/tcp".parse().unwrap()];
    FirewallSnapshot {
        status: FirewallStatus {
            daemon_running: true,
            version: Some("2.3.0".to_owned()),
            backend: NetfilterBackend::Nftables,
            log_denied: LogDenied::Off,
            panic_mode: false,
        },
        default_zone: zone("public"),
        active: NameMap::new(),
        runtime: map(vec![(zone("public"), runtime.clone())]),
        permanent: map(vec![(zone("public"), runtime)]),
        ipsets: Scoped::default(),
        service_definitions: map(vec![(service("ssh"), ssh)]),
        available_services: vec![service("ssh")],
        policies: Scoped::default(),
        direct_rules: Vec::new(),
        degraded: Vec::new(),
    }
}

fn scenario(port: &str) -> TrafficScenario {
    TrafficScenario {
        id: TrafficScenarioId::parse("case").unwrap(),
        name: "One case".to_owned(),
        enabled: true,
        direction: TrafficDirection::ToHost,
        source: SourceAddress::parse("192.0.2.7").unwrap(),
        ingress_interface: None,
        ingress_zone: Some(zone("public")),
        destination: TrafficDestination::LocalHost,
        egress_interface: None,
        egress_zone: None,
        transport: TrafficTransport::Tcp,
        destination_port: Some(PortSelector::parse(port).unwrap()),
        source_port: None,
        connection_state: TrafficConnectionState::New,
        expectation: TrafficExpectation::Allow,
        severity: TrafficSeverity::Critical,
        required_safety_gate: true,
        note: None,
    }
}

fn context(target: EvaluationTarget) -> EvaluationContext {
    EvaluationContext {
        run_id: TrafficTestRunId::new(1).unwrap(),
        suite_id: TrafficSuiteId::parse("suite").unwrap(),
        suite_revision: TrafficSuiteRevision::new(1).unwrap(),
        authoritative_snapshot: EvaluationSnapshotIdentity::new(1, 1).unwrap(),
        base_snapshot: None,
        mutation_intent_id: None,
        plan_id: None,
        candidate_identity: None,
        target,
        phase: EvaluationPhase::Current,
    }
}

fn judged(observed: FirewallSnapshot, case: &TrafficScenario) -> TrafficTestResult {
    let index = TrafficEvaluationIndex::new(Arc::new(observed), EvaluationTarget::Runtime);
    evaluate_scenario(&index, case, &context(EvaluationTarget::Runtime)).unwrap()
}

#[test]
fn an_open_service_allows_and_a_closed_port_blocks() {
    let open = judged(snapshot(public()), &scenario("22"));
    assert_eq!(open.decision(), FirewallDecision::Allow);
    assert_eq!(open.status(), TrafficTestStatus::Pass);
    assert_eq!(open.unknown_reason(), None);
    let closed = judged(snapshot(public()), &scenario("23"));
    assert_eq!(closed.decision(), FirewallDecision::Block);
    assert_eq!(closed.status(), TrafficTestStatus::Fail);
    let mut accepting = public();
    accepting.target = ZoneTarget::Accept;
    let fallen = judged(snapshot(accepting), &scenario("23"));
    assert_eq!(fallen.decision(), FirewallDecision::Allow);
}

#[test]
fn panic_mode_blocks_everything() {
    let mut observed = snapshot(public());
    observed.status.panic_mode = true;
    let result = judged(observed, &scenario("22"));
    assert_eq!(result.decision(), FirewallDecision::Block);
}

#[test]
fn unread_zones_leave_the_decision_open() {
    let mut observed = snapshot(public());
    observed.degraded.push(DegradedSection::new(
        SnapshotSection::Zones,
        Some(ConfigurationTarget::Runtime),
        "denied",
    ));
    let result = judged(observed, &scenario("22"));
    assert_eq!(result.decision(), FirewallDecision::Unknown);
    assert_eq!(result.status(), TrafficTestStatus::Indeterminate);
    assert_eq!(
        result.unknown_reason(),
        Some(UnknownReason::IncompleteSnapshot)
    );
}

#[test]
fn direct_rules_leave_the_decision_open() {
    let mut observed = snapshot(public());
    observed
        .direct_rules
        .push("ipv4 filter INPUT 0 -j DROP".to_owned());
    let result = judged(observed, &scenario("22"));
    assert_eq!(result.decision(), FirewallDecision::Unknown);
    assert_eq!(
        result.unknown_reason(),
        Some(UnknownReason::ExternalRulesOutsideModel)
    );
}

#[test]
fn rich_rules_leave_the_decision_open() {
    let mut ruled = public();
    ruled.rich_rules = vec![RichRule::parse(r#"rule service name="ssh" accept"#).unwrap()];
    let result = judged(snapshot(ruled), &scenario("22"));
    assert_eq!(result.decision(), FirewallDecision::Unknown);
    assert_eq!(
        result.unknown_reason(),
        Some(UnknownReason::UnsupportedRichRule)
    );
    let stages: Vec<TrafficTraceStage> = result.trace().iter().map(|s| s.stage()).collect();
    assert!(stages.contains(&TrafficTraceStage::RichRuleEvaluation));
}

#[test]
fn the_target_of_context_and_index_must_agree() {
    let index = TrafficEvaluationIndex::new(
        Arc::new(snapshot(public())),
        EvaluationTarget::Permanent,
    );
    let result =
        evaluate_scenario(&index, &scenario("22"), &context(EvaluationTarget::Runtime)).unwrap();
    assert_eq!(result.decision(), FirewallDecision::Unknown);
    assert_eq!(
        result.trace().last().unwrap().stage(),
        TrafficTraceStage::Status
    );
    assert_eq!(result.status(), TrafficTestStatus::Indeterminate);
}

#[test]
fn an_invalid_scenario_is_refused() {
    let index =
        TrafficEvaluationIndex::new(Arc::new(snapshot(public())), EvaluationTarget::Runtime);
    let mut case = scenario("22");
    case.destination_port = None;
    let refused = evaluate_scenario(&index, &case, &context(EvaluationTarget::Runtime));
    assert!(matches!(
        refused,
        Err(TrafficEvaluationError::InvalidScenario(_))
    ));
}

fn project(
    base: &FirewallSnapshot,
    target: EvaluationTarget,
    operations: Vec<FirewallOperation>,
) -> Result<CandidateProjection, CandidateProjectionError> {
    let encoded: Vec<EncodedOperation> = operations
        .into_iter()
        .enumerate()
        .map(|(i, operation)| EncodedOperation {
            operation,
            encoding: Some(vec![u8::try_from(i).unwrap()]),
        })
        .collect();
    CandidateProjector::project(
        &Arc::new(base.clone()),
        EvaluationSnapshotIdentity::new(3, 4).unwrap(),
        MutationIntentId::new(5).unwrap(),
        Some(EvaluationPlanId::new(6)),
        target,
        &encoded,
    )
}

fn add_http(target: ConfigurationTarget) -> FirewallOperation {
    FirewallOperation::AddService {
        zone: zone("public"),
        service: service("http"),
        target,
    }
}

#[test]
fn nothing_projects_to_the_base() {
    let base = snapshot(public());
    let projection = project(&base, EvaluationTarget::Runtime, Vec::new()).unwrap();
    assert!(projection.is_exact());
    assert_eq!(projection.snapshot(), &base);
    let identity = projection.identity();
    assert_eq!(identity.base_snapshot().generation(), 4);
    assert_eq!(identity.mutation_intent_id().get(), 5);
    assert_eq!(identity.plan_id(), Some(EvaluationPlanId::new(6)));
    assert_eq!(
        identity.ordered_operation_digest().get(),
        0xcbf2_9ce4_8422_2325
    );
}

#[test]
fn an_edit_stays_in_its_scope() {
    let base = snapshot(public());
    let operations = vec![add_http(ConfigurationTarget::Runtime)];
    let live = project(&base, EvaluationTarget::Runtime, operations.clone()).unwrap();
    let services = &live.snapshot().runtime.get(&zone("public")).unwrap().services;
    assert_eq!(services, &vec![service("ssh"), service("http")]);
    assert_eq!(live.snapshot().permanent, base.permanent);
    let stored = project(&base, EvaluationTarget::Permanent, operations).unwrap();
    assert_eq!(stored.snapshot().permanent, base.permanent);
    assert_eq!(stored.snapshot().runtime, base.runtime);
}

#[test]
fn a_reload_brings_what_is_stored() {
    let base = snapshot(public());
    let operations = vec![
        add_http(ConfigurationTarget::Permanent),
        FirewallOperation::Reload,
    ];
    let live = project(&base, EvaluationTarget::Runtime, operations).unwrap();
    let services = &live.snapshot().runtime.get(&zone("public")).unwrap().services;
    assert_eq!(services.len(), 2);
    assert!(live.is_exact());

    let lost = project(
        &base,
        EvaluationTarget::Runtime,
        vec![
            add_http(ConfigurationTarget::Runtime),
            FirewallOperation::Reload,
        ],
    )
    .unwrap();
    assert_eq!(lost.snapshot().runtime, base.runtime);

    let kept = project(
        &base,
        EvaluationTarget::Permanent,
        vec![
            add_http(ConfigurationTarget::Runtime),
            FirewallOperation::RuntimeToPermanent,
        ],
    )
    .unwrap();
    let services = &kept.snapshot().permanent.get(&zone("public")).unwrap().services;
    assert_eq!(services.len(), 2);
}

#[test]
fn effects_that_are_not_modeled_are_recorded() {
    let base = snapshot(public());
    let operation = FirewallOperation::DeleteIpSet {
        name: IpSetName::parse("blocklist").unwrap(),
    };
    let operations = vec![add_http(ConfigurationTarget::Permanent), operation];
    let stored = project(&base, EvaluationTarget::Permanent, operations).unwrap();
    assert!(!stored.is_exact());
    let effect = &stored.unknown_effects()[0];
    assert_eq!(effect.operation_index(), 1);
    assert_eq!(effect.reason(), UnsupportedOperationReason::IpSetSemantics);
}

#[test]
fn projection_fails_on_what_is_not_there() {
    let base = snapshot(public());
    let missing = FirewallOperation::AddService {
        zone: zone("absent"),
        service: service("http"),
        target: ConfigurationTarget::RuntimeAndPermanent,
    };
    assert_eq!(
        project(&base, EvaluationTarget::Runtime, vec![missing]).unwrap_err(),
        CandidateProjectionError::MissingZone {
            target: "runtime",
            zone: zone("absent"),
        }
    );
    let policy = PolicyName::parse("guest").unwrap();
    assert_eq!(
        project(
            &base,
            EvaluationTarget::Permanent,
            vec![FirewallOperation::DeletePolicy {
                policy: policy.clone()
            }]
        )
        .unwrap_err(),
        CandidateProjectionError::MissingPolicy {
            target: "permanent",
            policy: policy.clone(),
        }
    );
    let twice = vec![
        FirewallOperation::CreatePolicy {
            policy: policy.clone(),
        },
        FirewallOperation::CreatePolicy {
            policy: policy.clone(),
        },
    ];
    assert_eq!(
        project(&base, EvaluationTarget::Permanent, twice).unwrap_err(),
        CandidateProjectionError::ObjectAlreadyExists {
            kind: "policy",
            name: "guest".to_owned(),
        }
    );
    assert_eq!(
        project(
            &base,
            EvaluationTarget::Permanent,
            vec![FirewallOperation::DeleteService {
                service: service("http")
            }]
        )
        .unwrap_err(),
        CandidateProjectionError::MissingServiceDefinition {
            service: service("http")
        }
    );
    let unencoded = vec![EncodedOperation {
        operation: FirewallOperation::Reload,
        encoding: None,
    }];
    assert_eq!(
        CandidateProjector::project(
            &Arc::new(base),
            EvaluationSnapshotIdentity::new(3, 4).unwrap(),
            MutationIntentId::new(5).unwrap(),
            None,
            EvaluationTarget::Runtime,
            &unencoded,
        )
        .unwrap_err(),
        CandidateProjectionError::OperationEncoding { operation_index: 0 }
    );
}

#[test]
fn created_policies_are_empty_and_stored() {
    let base = snapshot(public());
    let policy = PolicyName::parse("guest").unwrap();
    let stored = project(
        &base,
        EvaluationTarget::Permanent,
        vec![FirewallOperation::CreatePolicy {
            policy: policy.clone(),
        }],
    )
    .unwrap();
    assert_eq!(
        stored.snapshot().policies.permanent.get(&policy),
        Some(&PolicyDetails::empty(policy.clone()))
    );
    assert!(stored.snapshot().policies.runtime.is_empty());
}

#[test]
fn digests_have_fixed_values() {
    let digest = |operations: &[&[u8]]| {
        let owned: Vec<Vec<u8>> = operations.iter().map(|o| o.to_vec()).collect();
        OrderedOperationDigest::from_ordered_bytes(&owned)
    };
    assert_eq!(digest(&[]).get(), 0xcbf2_9ce4_8422_2325);
    assert_eq!(
        digest(&[b"add ssh", b"drop 9"]).as_hex(),
        "68763e30340f99bf"
    );
    assert_eq!(digest(&[b""]).as_hex(), "a8c7f832281a39c5");
    for value in [0, 1, 0xab, u64::MAX] {
        let shown = OrderedOperationDigest::recorded(value).as_hex();
        assert_eq!(u64::from_str_radix(&shown, 16), Ok(value));
        assert_eq!(shown, shown.to_lowercase());
    }
    assert_ne!(digest(&[b"ab", b"c"]), digest(&[b"a", b"bc"]));
}

fn outcome(id: &str, decision: FirewallDecision) -> TrafficTestResult {
    let unknown = decision == FirewallDecision::Unknown;
    TrafficTestResult::new(
        TrafficScenarioId::parse(id).unwrap(),
        TrafficExpectation::Allow,
        decision,
        if unknown {
            Some(UnknownReason::IncompleteSnapshot)
        } else {
            None
        },
        Vec::new(),
    )
    .unwrap()
}

#[test]
fn a_report_counts_every_status() {
    let results = vec![
        outcome("pass", FirewallDecision::Allow),
        outcome("fail", FirewallDecision::Block),
        outcome("unknown", FirewallDecision::Unknown),
    ];
    let active = context(EvaluationTarget::Runtime);
    let report = TrafficTestReport::new(active.clone(), results.clone(), Some(100)).unwrap();
    assert_eq!(report.summary().passed, 1);
    assert_eq!(report.summary().failed, 1);
    assert_eq!(report.summary().indeterminate, 1);
    assert_eq!(report.summary().not_run, 0);
    assert_eq!(report.summary().stale, 0);
    assert_eq!(report.summary().total, 3);
    assert_eq!(report.results(), &results);
    assert!(report.matches_active(&active));
    assert!(!report.matches_active(&context(EvaluationTarget::Permanent)));
}

#[test]
fn a_report_stays_within_its_budget() {
    let results = vec![outcome("pass", FirewallDecision::Allow)];
    let active = context(EvaluationTarget::Runtime);
    let exact = Some(MAX_TRAFFIC_REPORT_BYTES);
    assert!(TrafficTestReport::new(active.clone(), results.clone(), exact).is_ok());
    assert_eq!(
        TrafficTestReport::new(
            active.clone(),
            results.clone(),
            Some(MAX_TRAFFIC_REPORT_BYTES + 1)
        ),
        Err(TrafficReportError::ReportTooLarge {
            bytes: MAX_TRAFFIC_REPORT_BYTES + 1,
            max: MAX_TRAFFIC_REPORT_BYTES,
        })
    );
    assert_eq!(
        TrafficTestReport::new(active, results, None),
        Err(TrafficReportError::SerializationFailed)
    );
}

#[test]
fn phases_ask_for_their_identities() {
    let mut candidate = context(EvaluationTarget::Runtime);
    candidate.phase = EvaluationPhase::StagedCandidate;
    assert_eq!(
        candidate.validate(),
        Err(TrafficReportError::MissingMutationIdentity {
            phase: EvaluationPhase::StagedCandidate
        })
    );
    candidate.mutation_intent_id = Some(MutationIntentId::new(1).unwrap());
    assert_eq!(
        candidate.validate(),
        Err(TrafficReportError::MissingCandidateIdentity)
    );
    let mut current = context(EvaluationTarget::Runtime);
    current.mutation_intent_id = Some(MutationIntentId::new(1).unwrap());
    assert_eq!(
        current.validate(),
        Err(TrafficReportError::UnexpectedMutationIdentity {
            phase: EvaluationPhase::Current
        })
    );
}

#[test]
fn an_operation_on_one_scope_leaves_the_other() {
    let base = snapshot(public());
    let open = |target: ConfigurationTarget| FirewallOperation::AddPort {
        zone: zone("public"),
        port: "8080/tcp".parse().unwrap(),
        target,
    };
    let now = project(
        &base,
        EvaluationTarget::Runtime,
        vec![open(ConfigurationTarget::Runtime)],
    )
    .unwrap();
    assert_ne!(now.snapshot().runtime, base.runtime);
    assert_eq!(now.snapshot().permanent, base.permanent);
    let later = project(
        &base,
        EvaluationTarget::Permanent,
        vec![open(ConfigurationTarget::Permanent)],
    )
    .unwrap();
    assert_eq!(later.snapshot().runtime, base.runtime);
    assert_ne!(later.snapshot().permanent, base.permanent);
}

#[test]
fn undoing_gives_back_what_was_there() {
    let mut base = snapshot(public());
    let policy = PolicyName::parse("guest").unwrap();
    let mut details = PolicyDetails::empty(policy.clone());
    details.services = vec![service("http"), service("ssh")];
    base.policies.runtime.insert(policy.clone(), details.clone());
    base.policies.permanent.insert(policy.clone(), details);
    let both = ConfigurationTarget::RuntimeAndPermanent;
    let new = [
        FirewallOperation::AddPolicyService {
            policy: policy.clone(),
            service: service("dns"),
            target: both,
        },
        FirewallOperation::AddServicePort {
            service: service("ssh"),
            port: "2222/tcp".parse().unwrap(),
        },
        FirewallOperation::SetPanicMode { enabled: true },
        FirewallOperation::SetMasquerade {
            zone: zone("public"),
            enabled: true,
            target: both,
        },
    ];
    for operation in new {
        let undo = operation.inverse().unwrap();
        for target in [EvaluationTarget::Runtime, EvaluationTarget::Permanent] {
            let done = project(&base, target, vec![operation.clone(), undo.clone()]).unwrap();
            assert_eq!(done.snapshot(), &base);
        }
    }
    let gone = FirewallOperation::RemovePolicyService {
        policy: policy.clone(),
        service: service("http"),
        target: both,
    };
    let undo = gone.inverse().unwrap();
    let back = project(&base, EvaluationTarget::Runtime, vec![gone, undo]).unwrap();
    assert_eq!(
        back.snapshot().policies.runtime.get(&policy).unwrap().services,
        [service("ssh"), service("http")]
    );
}

#[test]
fn single_scopes_want_opposite_things() {
    let base = snapshot(public());
    let open = FirewallOperation::AddPort {
        zone: zone("public"),
        port: "8080/tcp".parse().unwrap(),
        target: ConfigurationTarget::Runtime,
    };
    assert_eq!(open.postcondition_holds(&base), Some(false));
    let close = open.inverse().unwrap();
    assert_eq!(close.postcondition_holds(&base), Some(true));
}
