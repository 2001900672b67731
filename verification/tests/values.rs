//! Parsing and spelling of the single values.

use std::time::Duration;

use fwdeck::{
    translate_direct_rule, AddressFamily, ConfigurationTarget, DeniedFlow, DirectChain,
    FeatureSupport, FirewallOperation, FirewalldFeature, ForwardPort, InterfaceName, IpSetEntry,
    LogAction, LogEntry, PolicyDetails, PolicyName, PortSelector, PortSpec, ProposalError, Protocol,
    RefreshObservation, RefreshSection, RefreshSectionObservation, RichRule,
    SemanticCapabilityKind, SemanticCapabilityMatrix, ServiceName, SourceAddress, ValidationError,
    ZoneName,
};

#[test]
fn parses_ipv4_cidr() {
    let src = SourceAddress::parse("192.168.1.0/24").unwrap();
    assert_eq!(src.show(), "192.168.1.0/24");
    assert_eq!(src.family(), Some(AddressFamily::Ipv4));
}

#[test]
fn parses_ipv6() {
    let src = SourceAddress::parse("2001:db8::/32").unwrap();
    assert_eq!(src.family(), Some(AddressFamily::Ipv6));
}

#[test]
fn parses_mac() {
    let src = SourceAddress::parse("00:11:22:33:44:55").unwrap();
    assert!(matches!(src, SourceAddress::Mac(_)));
    assert_eq!(src.family(), None);
}

#[test]
fn parses_ipset_reference() {
    let src = SourceAddress::parse("ipset:blocklist").unwrap();
    assert_eq!(src.show(), "ipset:blocklist");
}

#[test]
fn rejects_garbage_and_oversized_prefixes() {
    assert!(SourceAddress::parse("not-an-address").is_err());
    assert!(SourceAddress::parse("192.168.1.0/33").is_err());
    assert!(SourceAddress::parse("2001:db8::/129").is_err());
}

#[test]
fn ipset_entry_accepts_simple_and_compound_forms() {
    for entry in [
        "203.0.113.9",             // hash:ip
        "10.0.0.0/8",              // hash:net
        "1.2.3.4,tcp:80",          // hash:ip,port
        "10.0.0.0/8,eth0",         // hash:net,iface
        "aa:bb:cc:dd:ee:ff",       // hash:mac
        "192.168.0.0/16,udp:5353", // hash:net,port
    ] {
        assert!(IpSetEntry::parse(entry).is_ok(), "should accept `{entry}`");
        assert_eq!(IpSetEntry::parse(entry).unwrap().as_str(), entry);
    }
}

#[test]
fn ipset_entry_rejects_unsafe_tokens() {
    assert!(IpSetEntry::parse("").is_err());
    assert!(IpSetEntry::parse("   ").is_err());
    assert!(
        IpSetEntry::parse("1.2.3.4 tcp:80").is_err(),
        "no whitespace"
    );
    assert!(
        IpSetEntry::parse("1.2.3.4\ntcp:80").is_err(),
        "no internal newline"
    );
    assert!(
        IpSetEntry::parse(&"a".repeat(256)).is_err(),
        "bounded length"
    );
    // Surrounding whitespace is trimmed, not rejected.
    assert_eq!(
        IpSetEntry::parse("  1.2.3.4  ").unwrap().as_str(),
        "1.2.3.4"
    );
}

#[test]
fn accepts_valid_names() {
    assert_eq!(ZoneName::parse("public").unwrap().as_str(), "public");
    assert_eq!(
        ServiceName::parse("dhcpv6-client").unwrap().as_str(),
        "dhcpv6-client"
    );
    assert_eq!(
        InterfaceName::parse("eth0.100").unwrap().as_str(),
        "eth0.100"
    );
    assert_eq!(
        PolicyName::parse("gateway-lan-to-world").unwrap().as_str(),
        "gateway-lan-to-world"
    );
}

#[test]
fn rejects_empty() {
    assert!(matches!(
        ZoneName::parse(""),
        Err(ValidationError::Empty { .. })
    ));
}

#[test]
fn rejects_too_long_zone_name() {
    assert!(matches!(
        ZoneName::parse("a-very-long-zone-name"),
        Err(ValidationError::TooLong { max: 17, .. })
    ));
}

#[test]
fn user_policy_creation_keeps_firewalld_seventeen_character_limit() {
    assert!(PolicyName::parse_user_created("direct-web-input").is_ok());
    assert!(PolicyName::parse_user_created("gateway-lan-to-world").is_err());
    assert!(
        PolicyName::parse("gateway-lan-to-world").is_ok(),
        "shipped policies still need to be observable"
    );
}

#[test]
fn rejects_shell_metacharacters() {
    for bad in ["pub;lic", "zone$(id)", "a b", "x'y", "x\"y", "a|b"] {
        assert!(
            matches!(
                ZoneName::parse(bad),
                Err(ValidationError::InvalidChar { .. })
            ),
            "expected `{bad}` to be rejected"
        );
    }
}

#[test]
fn parses_single_port_spec() {
    let spec: PortSpec = "8080/tcp".parse().unwrap();
    assert_eq!(spec.show(), "8080/tcp");
    assert_eq!(spec.protocol, Protocol::Tcp);
}

#[test]
fn parses_port_range_spec() {
    let spec: PortSpec = "5000-5010/udp".parse().unwrap();
    assert_eq!(spec.show(), "5000-5010/udp");
}

#[test]
fn rejects_port_zero() {
    assert!(matches!(
        "0/tcp".parse::<PortSpec>(),
        Err(ValidationError::InvalidPort(_))
    ));
}

#[test]
fn rejects_inverted_range() {
    assert!(matches!(
        "10-5/tcp".parse::<PortSpec>(),
        Err(ValidationError::InvalidRange(_))
    ));
}

#[test]
fn rejects_missing_protocol() {
    assert!(matches!(
        "80".parse::<PortSpec>(),
        Err(ValidationError::InvalidPortSpec(_))
    ));
}

#[test]
fn forward_port_round_trips_through_spec_string() {
    for spec in [
        "port=8080:proto=tcp:toport=80:toaddr=10.0.0.5",
        "port=443:proto=tcp:toport=8443:toaddr=2001:db8::1",
        "port=53:proto=udp",
    ] {
        let parsed: ForwardPort = spec.parse().unwrap();
        assert_eq!(parsed.spec_string(), spec);
    }
}

#[test]
fn forward_port_rejects_garbage() {
    assert!("proto=tcp".parse::<ForwardPort>().is_err());
    assert!("port=eighty:proto=tcp".parse::<ForwardPort>().is_err());
    assert!(
        "port=80:proto=tcp:toaddr=nope"
            .parse::<ForwardPort>()
            .is_err()
    );
}

#[test]
fn rejects_unknown_protocol() {
    assert!(matches!(
        "80/icmp".parse::<PortSpec>(),
        Err(ValidationError::InvalidProtocol(_))
    ));
}

const RULE: &str = r#"rule family="ipv4" source address="203.0.113.0/24" reject"#;

#[test]
fn keeps_raw_text_verbatim() {
    let rule = RichRule::parse(RULE).unwrap();
    assert_eq!(rule.as_str(), RULE);
}

#[test]
fn extracts_family_and_action() {
    let rule = RichRule::parse(RULE).unwrap();
    assert_eq!(rule.family(), Some("ipv4"));
    assert_eq!(rule.action(), Some("reject"));
}

#[test]
fn rejects_non_rule_text() {
    assert!(RichRule::parse("drop everything").is_err());
}

#[test]
fn requires_rule_as_a_whole_word() {
    assert!(
        RichRule::parse("ruleset foo").is_err(),
        "prefix is not a word"
    );
    assert!(RichRule::parse("rulefoo bar").is_err());
    assert!(
        RichRule::parse("rule").is_err(),
        "a bare `rule` has no body"
    );
}

#[test]
fn rejects_control_characters() {
    // A newline could smuggle a second line into the audit trail / display.
    assert!(RichRule::parse("rule family=\"ipv4\"\ndrop").is_err());
    assert!(RichRule::parse("rule\taccept").is_err());
    assert!(RichRule::parse("rule accept\0").is_err());
}

#[test]
fn translates_fixture_rule_to_input_policy() {
    let translated =
        translate_direct_rule("ipv4 filter INPUT 9 -p tcp --dport 12345 -j ACCEPT").unwrap();
    assert_eq!(translated.chain, DirectChain::Input);
    assert_eq!(translated.chain.ingress_zone(), "ANY");
    assert_eq!(translated.chain.egress_zone(), "HOST");
    assert_eq!(
        translated.rich_rule.as_str(),
        r#"rule priority="9" family="ipv4" port port="12345" protocol="tcp" accept"#
    );
}

#[test]
fn translates_forward_source_drop() {
    let translated =
        translate_direct_rule("ipv6 filter FORWARD -10 -s 2001:db8::/32 -j DROP").unwrap();
    assert_eq!(translated.chain.ingress_zone(), "ANY");
    assert_eq!(translated.chain.egress_zone(), "ANY");
    assert!(translated.rich_rule.as_str().contains("source address="));
    assert!(translated.rich_rule.as_str().ends_with("drop"));
}

#[test]
fn rejects_semantically_ambiguous_rules() {
    for rule in [
        "ipv4 nat PREROUTING 0 -p tcp --dport 80 -j DNAT",
        "ipv4 filter CUSTOM 0 -p tcp --dport 80 -j ACCEPT",
        "ipv4 filter INPUT 0 -m conntrack --ctstate NEW -j ACCEPT",
        "ipv4 filter INPUT 0 -p tcp --sport 10 --dport 20 -j ACCEPT",
        "ipv4 filter INPUT 0 -p tcp -p udp --dport 53 -j ACCEPT",
        "eb filter INPUT 0 -j ACCEPT",
    ] {
        assert!(translate_direct_rule(rule).is_err(), "must reject `{rule}`");
    }
}

#[test]
fn rejects_address_family_mismatch() {
    let result = translate_direct_rule(
        "ipv4 filter OUTPUT 0 -d 2001:db8::1 -p tcp --dport 443 -j ACCEPT",
    );
    assert!(result.is_err());
}

fn public() -> ZoneName {
    ZoneName::parse("public").unwrap()
}

#[test]
fn tcp_flow_yields_source_scoped_accept() {
    let flow = DeniedFlow::parse("203.0.113.7", "5432", "TCP", "eth0").unwrap();
    assert_eq!(flow.family, AddressFamily::Ipv4);
    assert_eq!(flow.iface.as_deref(), Some("eth0"));
    let op = flow
        .propose_allow(public(), ConfigurationTarget::RuntimeAndPermanent)
        .unwrap();
    let FirewallOperation::AddRichRule { zone, rule, .. } = op else {
        panic!("expected AddRichRule");
    };
    assert_eq!(zone.as_str(), "public");
    let s = rule.as_str();
    assert!(s.contains(r#"family="ipv4""#), "{s}");
    assert!(s.contains(r#"source address="203.0.113.7/32""#), "{s}");
    assert!(s.contains(r#"port port="5432""#), "{s}");
    assert!(s.contains(r#"protocol="tcp""#), "{s}");
    assert!(s.ends_with("accept"), "{s}");
}

#[test]
fn ipv6_flow_uses_128_and_ipv6_family() {
    let flow = DeniedFlow::parse("2001:db8::1", "22", "tcp", "").unwrap();
    assert_eq!(flow.family, AddressFamily::Ipv6);
    assert_eq!(flow.iface, None);
    let op = flow
        .propose_allow(public(), ConfigurationTarget::Runtime)
        .unwrap();
    let FirewallOperation::AddRichRule { rule, .. } = op else {
        panic!("expected AddRichRule");
    };
    assert!(rule.as_str().contains(r#"family="ipv6""#));
    assert!(
        rule.as_str()
            .contains(r#"source address="2001:db8::1/128""#)
    );
}

#[test]
fn portless_unsupported_and_bad_source_are_rejected() {
    assert_eq!(
        DeniedFlow::parse("10.0.0.5", "", "ICMP", "eth0"),
        Err(ProposalError::UnsupportedProtocol)
    );
    assert_eq!(
        DeniedFlow::parse("10.0.0.5", "", "tcp", "eth0"),
        Err(ProposalError::NoPort)
    );
    assert_eq!(
        DeniedFlow::parse("not-an-ip", "80", "tcp", "eth0"),
        Err(ProposalError::BadSource)
    );
}

#[test]
fn accept_entry_is_not_denied_but_reject_converts() {
    let base = LogEntry {
        time: "00:00:00".to_owned(),
        action: LogAction::Accept,
        src: "192.0.2.9".to_owned(),
        dst: "192.0.2.1".to_owned(),
        dport: "443".to_owned(),
        proto: "TCP".to_owned(),
        iface: "ens3".to_owned(),
    };
    assert_eq!(DeniedFlow::try_from(&base), Err(ProposalError::NotDenied));
    let denied = LogEntry {
        action: LogAction::Reject,
        ..base
    };
    let flow = DeniedFlow::try_from(&denied).unwrap();
    assert_eq!(flow.dport.get(), 443);
    assert_eq!(flow.iface.as_deref(), Some("ens3"));
}

#[test]
fn every_threshold_is_exactly_version_gated() {
    let cases = [
        (FirewalldFeature::PolicyObjects, "0.8.99", "0.9.0", "0.9.1"),
        (FirewalldFeature::ZonePriorities, "1.3.99", "2.0.0", "2.0.1"),
        (
            FirewalldFeature::RichRulePriorities,
            "0.6.99",
            "0.7.0",
            "0.7.1",
        ),
        (
            FirewalldFeature::IntraZoneForwarding,
            "0.8.99",
            "0.9.0",
            "0.9.1",
        ),
        (
            FirewalldFeature::IntraZoneForwardingDefaultEnabled,
            "0.9.99",
            "1.0.0",
            "1.0.1",
        ),
        (
            FirewalldFeature::DefaultTargetRejectSemantics,
            "0.9.99",
            "1.0.0",
            "1.0.1",
        ),
        (
            FirewalldFeature::IcmpBlocksInputOnly,
            "0.9.99",
            "1.0.0",
            "1.0.1",
        ),
        (
            FirewalldFeature::PositivePolicyPriorityBeforeZoneTarget,
            "0.9.99",
            "1.0.0",
            "1.0.1",
        ),
        (FirewalldFeature::PolicySets, "2.3.99", "2.4.0", "2.4.1"),
    ];

    for (feature, before, at, after) in cases {
        assert_eq!(
            feature.support_for(Some(before)),
            FeatureSupport::Unsupported
        );
        assert_eq!(feature.support_for(Some(at)), FeatureSupport::Supported);
        assert_eq!(feature.support_for(Some(after)), FeatureSupport::Supported);
    }
}

#[test]
fn syntax_and_behavior_capabilities_are_explicit() {
    assert_eq!(
        FirewalldFeature::PolicyObjects.kind(),
        SemanticCapabilityKind::Syntax
    );
    assert_eq!(
        FirewalldFeature::ZonePriorities.kind(),
        SemanticCapabilityKind::Syntax
    );
    assert_eq!(
        FirewalldFeature::RichRulePriorities.kind(),
        SemanticCapabilityKind::Syntax
    );
    assert_eq!(
        FirewalldFeature::IntraZoneForwarding.kind(),
        SemanticCapabilityKind::Syntax
    );
    assert_eq!(
        FirewalldFeature::PolicySets.kind(),
        SemanticCapabilityKind::Syntax
    );
    assert_eq!(
        FirewalldFeature::DefaultTargetRejectSemantics.kind(),
        SemanticCapabilityKind::Behavior
    );
    assert_eq!(
        FirewalldFeature::IcmpBlocksInputOnly.kind(),
        SemanticCapabilityKind::Behavior
    );
}

#[test]
fn supported_distro_suffixes_and_documented_patch_default_parse() {
    let feature = FirewalldFeature::PolicySets;
    for version in [
        "2.4",
        "v2.4.0",
        "2.4.0-1.fc42",
        "2.4.0-1.el9",
        "2.4.0+deb12u1",
    ] {
        assert_eq!(
            feature.support_for(Some(version)),
            FeatureSupport::Supported
        );
    }
}

#[test]
fn missing_malformed_and_prerelease_versions_stay_unknown() {
    for feature in FirewalldFeature::ALL {
        assert_eq!(feature.support_for(None), FeatureSupport::Unknown);
        for version in [
            "",
            "unknown",
            "2",
            "2.",
            ".4.0",
            "2.4x",
            "2.4.0.1",
            "2.4.0-",
            "2.4.0-rc1",
            "2.4.0-0.rc1",
        ] {
            assert_eq!(
                feature.support_for(Some(version)),
                FeatureSupport::Unknown,
                "{feature:?} accepted malformed version {version:?}"
            );
        }
    }
}

#[test]
fn one_matrix_reuses_the_parsed_version_for_every_query() {
    let matrix = SemanticCapabilityMatrix::from_reported_version(Some("1.0.0-1.el9"));

    assert_eq!(
        matrix.support(FirewalldFeature::PolicyObjects),
        FeatureSupport::Supported
    );
    assert_eq!(
        matrix.support(FirewalldFeature::ZonePriorities),
        FeatureSupport::Unsupported
    );
    assert_eq!(
        matrix.support(FirewalldFeature::DefaultTargetRejectSemantics),
        FeatureSupport::Supported
    );
    assert_eq!(
        matrix.support(FirewalldFeature::PolicySets),
        FeatureSupport::Unsupported
    );
}

#[test]
fn refresh_observation_sorts_sections_and_preserves_totals() {
    let observation = RefreshObservation::new(
        Duration::from_millis(42),
        7,
        vec![
            RefreshSectionObservation {
                section: RefreshSection::Services,
                elapsed: Duration::from_millis(9),
                process_count: 3,
            },
            RefreshSectionObservation {
                section: RefreshSection::Status,
                elapsed: Duration::from_millis(4),
                process_count: 4,
            },
        ],
    );

    assert_eq!(observation.elapsed, Duration::from_millis(42));
    assert_eq!(observation.process_count, Some(7));
    assert_eq!(
        observation
            .sections
            .iter()
            .map(|section| section.section)
            .collect::<Vec<_>>(),
        vec![RefreshSection::Status, RefreshSection::Services]
    );
}

#[test]
fn active_status_does_not_create_configuration_drift() {
    let mut runtime = PolicyDetails::empty(PolicyName::parse("example").unwrap());
    let permanent = runtime.clone();
    runtime.active = true;

    assert_ne!(runtime, permanent);
    assert!(runtime.configuration_eq(&permanent));
}

#[test]
fn port_selector_uses_one_validated_string_representation() {
    let selector: PortSelector = "8000-8080".parse().unwrap();
    let shown = selector.show();
    assert_eq!(shown, "8000-8080");
    assert_eq!(shown.parse::<PortSelector>().unwrap(), selector);
    assert!("0".parse::<PortSelector>().is_err());
}
