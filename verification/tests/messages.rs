//! Every kind of failure, the input that gives it, and how it reads.

use fwdeck::{
    translate_direct_rule, CandidateProjectionError, DegradedSection, DeniedFlow, EvaluationPhase,
    EvaluationSnapshotIdentity, FirewallDecision, ForwardPort, IpSetEntry, IpSetName, LogDenied,
    MutationIntentId, OperationError, PolicyName, PortNumber, PortRange, PortSelector, PortSpec,
    ProposalError, Protocol, RichRule, RulePriority, RulePriorityError, ServiceModuleName,
    ServiceName, ServiceResolutionFailure, SnapshotSection, SourceAddress, TrafficExpectation,
    TrafficReportError, TrafficScenarioId, TrafficSuiteId, TrafficSuiteRevision,
    TrafficTestResult, TrafficTestRunId, TrafficValidationError, UnknownReason, ValidationError,
    ZoneName, ZoneTarget, ConfigurationTarget,
};

#[test]
fn validation_failures_name_what_was_rejected() {
    let cases: [(ValidationError, &str); 13] = [
        (
            ZoneName::parse("").unwrap_err(),
            "zone name must not be empty",
        ),
        (
            ZoneName::parse("a-zone-name-that-is-long").unwrap_err(),
            "zone name `a-zone-name-that-is-long` exceeds 17 characters",
        ),
        (
            ServiceName::parse("ssh;rm").unwrap_err(),
            "service name `ssh;rm` contains invalid character `;`",
        ),
        (
            RichRule::parse("drop everything").unwrap_err(),
            "rich rule must start with `rule`",
        ),
        (
            PortNumber::parse("70000").unwrap_err(),
            "invalid port `70000`: expected a number between 1 and 65535",
        ),
        (
            PortSelector::parse("90-80").unwrap_err(),
            "invalid port range `90-80`: start must not exceed end",
        ),
        (
            Protocol::parse("icmp").unwrap_err(),
            "invalid protocol `icmp`: expected tcp, udp, sctp or dccp",
        ),
        (
            PortSpec::parse("80").unwrap_err(),
            "invalid port spec `80`: expected <port>[-<port>]/<protocol>",
        ),
        (
            SourceAddress::parse("nonsense").unwrap_err(),
            "invalid source `nonsense`: expected an IP address, CIDR, MAC or ipset:<name>",
        ),
        (
            ZoneTarget::parse("accept").unwrap_err(),
            "invalid zone target `accept`: expected default, ACCEPT, DROP or %%REJECT%%",
        ),
        (
            LogDenied::parse("some").unwrap_err(),
            "invalid LogDenied value `some`",
        ),
        (
            ForwardPort::parse("port=1").unwrap_err(),
            "invalid forward port `port=1`: expected port=<p>:proto=<proto>[:toport=<p>][:toaddr=<ip>]",
        ),
        (
            IpSetEntry::parse("two words").unwrap_err(),
            "invalid ipset entry `two words`: expected a single token with no spaces",
        ),
    ];
    for (error, text) in cases {
        assert_eq!(error.message(), text);
    }
}

#[test]
fn zero_is_no_port_and_ranges_do_not_turn_back() {
    assert_eq!(
        PortNumber::new(0),
        Err(ValidationError::InvalidPort("0".to_owned()))
    );
    let low = PortNumber::new(80).unwrap();
    let high = PortNumber::new(90).unwrap();
    assert!(PortRange::new(high, low).is_err());
    let range = PortRange::new(low, high).unwrap();
    assert_eq!((range.start().get(), range.end().get()), (80, 90));
}

#[test]
fn a_module_name_is_trimmed_and_its_error_shows_the_whole_text() {
    assert_eq!(
        ServiceModuleName::parse(" nf_conntrack_ftp ").unwrap().as_str(),
        "nf_conntrack_ftp"
    );
    assert_eq!(
        ServiceModuleName::parse(" a b ").unwrap_err(),
        ValidationError::InvalidChar {
            kind: "service module name",
            value: " a b ".to_owned(),
            ch: ' ',
        }
    );
    assert_eq!(
        ServiceModuleName::parse("  ").unwrap_err(),
        ValidationError::Empty {
            kind: "service module name"
        }
    );
}

#[test]
fn user_created_policies_have_short_names() {
    let long = "a-shipped-policy-name";
    let policy = PolicyName::parse(long).unwrap();
    assert!(!policy.is_user_creatable());
    assert_eq!(
        PolicyName::parse_user_created(long),
        Err(ValidationError::TooLong {
            kind: "policy name",
            value: long.to_owned(),
            max: 17,
        })
    );
    assert!(IpSetName::parse("blocklist").is_ok());
}

#[test]
fn operation_failures_read_as_their_reason() {
    assert_eq!(
        OperationError::UnknownZone("lan".to_owned()).message(),
        "zone `lan` not found"
    );
    assert_eq!(
        OperationError::NothingToDo("already so".to_owned()).message(),
        "already so"
    );
    assert_eq!(
        OperationError::Invalid("no such type".to_owned()).message(),
        "no such type"
    );
}

#[test]
fn priority_failures_tell_range_from_text() {
    assert_eq!(RulePriority::parse("-42").unwrap().get(), -42);
    let far = RulePriority::parse("-32769").unwrap_err();
    assert_eq!(far, RulePriorityError::OutOfRange(-32769));
    assert_eq!(far.message(), "priority -32769 is outside -32768..=32767");
    let bad = RulePriority::parse("high").unwrap_err();
    assert_eq!(bad, RulePriorityError::Invalid("high".to_owned()));
    assert_eq!(bad.message(), "invalid priority `high`");
}

#[test]
fn denied_flows_are_refused_for_a_reason() {
    let refused = |src: &str, dport: &str, proto: &str| {
        DeniedFlow::parse(src, dport, proto, "eth0")
            .unwrap_err()
            .message()
    };
    assert_eq!(
        refused("host", "22", "tcp"),
        "no usable source address on this log line"
    );
    assert_eq!(
        refused("192.0.2.1", "", "tcp"),
        "no destination port on this log line (portless protocol?)"
    );
    assert_eq!(
        refused("192.0.2.1", "22", "icmp"),
        "no port-scoped rule for this protocol (e.g. ICMP)"
    );
    assert_eq!(
        ProposalError::NotDenied.message(),
        "select a denied (DROP/REJECT) row to propose an allow rule"
    );
}

#[test]
fn scenario_failures_read_with_their_numbers() {
    let long = "x".repeat(129);
    let too_long = TrafficScenarioId::parse(&long).unwrap_err();
    assert!(matches!(
        too_long,
        TrafficValidationError::IdTooLong { actual: 129, max: 128, .. }
    ));
    assert!(too_long.message().ends_with("is 129 bytes; maximum is 128"));
    let wrong = TrafficSuiteId::parse("a/b").unwrap_err();
    assert!(wrong.message().ends_with("contains invalid character `/`"));
    assert!(TrafficSuiteId::parse("")
        .unwrap_err()
        .message()
        .ends_with("cannot be empty"));
    assert_eq!(
        TrafficSuiteRevision::new(0).unwrap_err().message(),
        "suite revision must be non-zero"
    );
}

#[test]
fn identities_are_never_zero() {
    assert_eq!(
        TrafficTestRunId::new(0).unwrap_err().message(),
        "traffic-test run ID must be non-zero"
    );
    assert_eq!(
        MutationIntentId::new(0).unwrap_err().message(),
        "mutation intent ID must be non-zero"
    );
    assert_eq!(
        EvaluationSnapshotIdentity::new(1, 0).unwrap_err().message(),
        "snapshot publication generation must be non-zero"
    );
    assert_eq!(MutationIntentId::new(7).unwrap().get(), 7);
}

#[test]
fn report_failures_read_with_their_phase() {
    assert_eq!(
        TrafficReportError::MissingMutationIdentity {
            phase: EvaluationPhase::StagedCandidate
        }
        .message(),
        "StagedCandidate evaluation requires a mutation identity"
    );
    assert_eq!(
        TrafficReportError::ReportTooLarge { bytes: 5, max: 4 }.message(),
        "serialized report is 5 bytes; maximum is 4"
    );
    let id = TrafficScenarioId::parse("a").unwrap();
    assert_eq!(
        TrafficReportError::DuplicateResult(id.clone()).message(),
        "duplicate result for scenario `a`"
    );
    assert_eq!(
        TrafficTestResult::new(
            id.clone(),
            TrafficExpectation::Allow,
            FirewallDecision::Unknown,
            None,
            Vec::new()
        ),
        Err(TrafficReportError::MissingUnknownReason)
    );
    assert_eq!(
        TrafficTestResult::new(
            id,
            TrafficExpectation::Allow,
            FirewallDecision::Allow,
            Some(UnknownReason::StaleSnapshot),
            Vec::new()
        ),
        Err(TrafficReportError::UnexpectedUnknownReason)
    );
}

#[test]
fn projection_failures_name_the_object() {
    let zone = ZoneName::parse("lan").unwrap();
    assert_eq!(
        CandidateProjectionError::MissingZone {
            target: "runtime",
            zone
        }
        .message(),
        "zone `lan` is missing from the runtime candidate"
    );
    assert_eq!(
        CandidateProjectionError::OperationEncoding { operation_index: 3 }.message(),
        "failed to encode operation 3 for candidate identity"
    );
}

#[test]
fn resolution_failures_show_the_path() {
    let name = |raw: &str| ServiceName::parse(raw).unwrap();
    assert_eq!(
        ServiceResolutionFailure::MissingInclude {
            referenced_by: name("web"),
            service: name("tls"),
        }
        .message(),
        "service `web` includes missing definition `tls`"
    );
    assert_eq!(
        ServiceResolutionFailure::Cycle {
            path: vec![name("a"), name("b"), name("a")]
        }
        .message(),
        "service include cycle: a -> b -> a"
    );
    assert_eq!(
        ServiceResolutionFailure::DepthLimit {
            limit: 16,
            path: vec![name("a"), name("b")]
        }
        .message(),
        "service include depth exceeds 16: a -> b"
    );
}

#[test]
fn direct_rules_are_refused_for_a_reason() {
    let refused = |raw: &str| translate_direct_rule(raw).unwrap_err().message().to_owned();
    assert_eq!(
        refused("ipv4 filter INPUT 0"),
        "malformed direct rule: expected family table chain priority and arguments"
    );
    assert_eq!(
        refused("ipv4 filter INPUT 0 -p \"tcp\" -j ACCEPT"),
        "quoted, escaped, or control-character arguments require manual migration"
    );
    assert_eq!(
        refused("ipv4 filter INPUT 0 -p udp -m tcp -j ACCEPT"),
        "match module `tcp` is not redundant with the protocol"
    );
    assert_eq!(
        refused("ipv4 filter INPUT 0 -p tcp -j DROP --reject-with icmp-port-unreachable"),
        "`--reject-with` is only valid with REJECT"
    );
}

#[test]
fn degraded_records_show_section_scope_and_object() {
    let record = DegradedSection::new(
        SnapshotSection::Policies,
        Some(ConfigurationTarget::Permanent),
        "denied",
    );
    assert_eq!(record.show(), "policies [permanent]: denied");
    let named = record.with_object("gateway");
    assert_eq!(named.show(), "policies [permanent] `gateway`: denied");

    let legacy = DegradedSection::from_legacy("Runtime ipset listing failed".to_owned());
    assert_eq!(legacy.section, SnapshotSection::IpSets);
    assert_eq!(legacy.target, Some(ConfigurationTarget::Runtime));
    let plain = DegradedSection::from_legacy("something odd".to_owned());
    assert_eq!(plain.section, SnapshotSection::Zones);
    assert_eq!(plain.target, None);
}
