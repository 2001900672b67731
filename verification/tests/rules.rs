//! The analysis of rich rules, one rule per kind of outcome.

use fwdeck::{
    AddressFamily, ConfigurationTarget, DeniedFlow, FirewallOperation, RichRule, RichRuleAction,
    RichRuleAnalysis, RichRuleExpression, RichRuleMalformed, RichRuleUnsupported, ZoneName,
};

const SUPPORTED: [(&str, &str); 8] = [
    ("simple", r#"rule family="ipv4" drop"#),
    (
        "all-fields",
        r#"rule priority="-100" family="ipv4" source address="203.0.113.0/24" destination address="192.0.2.10" service name="ssh" accept"#,
    ),
    (
        "destination-port",
        r#"rule port port="443-445" protocol="tcp" accept"#,
    ),
    (
        "source-port",
        r#"rule source-port port="1024-65535" protocol="udp" reject"#,
    ),
    ("raw-protocol", r#"rule protocol value="gre" accept"#),
    (
        "inverted-source",
        r#"rule family="ipv4" source NOT address="198.51.100.7" drop"#,
    ),
    (
        "inverted-destination",
        r#"rule family="ipv6" destination invert="true" address="2001:db8::/32" reject"#,
    ),
    (
        "explicitly-plain",
        r#"rule source invert="no" address="198.51.100.7" accept"#,
    ),
];

const UNSUPPORTED: [(&str, &str); 11] = [
    ("rate-limit", r#"rule accept limit value="2/m""#),
    (
        "mac-source",
        r#"rule source mac="00:11:22:33:44:55" accept"#,
    ),
    ("helper", r#"rule helper name="ftp" accept"#),
    ("mark", r#"rule mark set="1""#),
    ("tcp-mss-clamp", r#"rule tcp-mss-clamp value="pmtu" accept"#),
    ("log-only", r#"rule log prefix="seen ""#),
    ("audit-only", r#"rule audit"#),
    ("ipset", r#"rule source ipset="blocklist" drop"#),
    ("unknown", r#"rule masquerade accept"#),
    (
        "duplicate",
        r#"rule service name="ssh" service name="http" accept"#,
    ),
    (
        "conflicting",
        r#"rule service name="ssh" port port="22" protocol="tcp" accept"#,
    ),
];

const MALFORMED: [(&str, &str); 6] = [
    ("unterminated-quote", r#"rule family="ipv4 accept"#),
    (
        "invalid-cidr",
        r#"rule family="ipv4" source address="192.0.2.0/33" accept"#,
    ),
    ("invalid-priority", r#"rule priority="40000" accept"#),
    (
        "invalid-invert",
        r#"rule source invert="maybe" address="192.0.2.1" accept"#,
    ),
    ("missing-action", r#"rule family="ipv4""#),
    ("dangling-source", r#"rule source"#),
];

fn expression(raw: &str) -> RichRuleExpression {
    match RichRule::parse(raw).unwrap().analyze() {
        RichRuleAnalysis::Supported(expression) => *expression,
        other => panic!("`{raw}` was not supported: {other:?}"),
    }
}

fn unsupported(raw: &str) -> RichRuleUnsupported {
    match RichRule::parse(raw).unwrap().analyze() {
        RichRuleAnalysis::Unsupported(reason) => reason,
        other => panic!("`{raw}` was not refused: {other:?}"),
    }
}

fn malformed(raw: &str) -> RichRuleMalformed {
    match RichRule::parse(raw).unwrap().analyze() {
        RichRuleAnalysis::Malformed(reason) => reason,
        other => panic!("`{raw}` was not malformed: {other:?}"),
    }
}

#[test]
fn supported_fixtures_produce_typed_traffic_expressions() {
    for (label, raw) in SUPPORTED {
        let rule = RichRule::parse(raw).unwrap();
        let RichRuleAnalysis::Supported(expression) = rule.analyze() else {
            panic!("supported fixture `{label}` was not supported");
        };
        assert_eq!(
            rule.as_str(),
            raw,
            "raw mutation text changed for `{label}`"
        );
        assert!(matches!(
            expression.action,
            RichRuleAction::Accept | RichRuleAction::Reject | RichRuleAction::Drop
        ));
    }
}

#[test]
fn supported_fixture_fields_are_preserved_exactly() {
    let analyze = |label: &str| {
        let row = SUPPORTED.iter().find(|row| row.0 == label).unwrap();
        expression(row.1)
    };

    let all = analyze("all-fields");
    assert_eq!(all.family, Some(AddressFamily::Ipv4));
    assert_eq!(all.priority.get(), -100);
    assert_eq!(all.service.unwrap().as_str(), "ssh");
    assert_eq!(all.source.unwrap().address.show(), "203.0.113.0/24");
    assert_eq!(all.destination.unwrap().address.show(), "192.0.2.10");

    let port = analyze("destination-port").destination_port.unwrap();
    assert_eq!(port.show(), "443-445/tcp");
    let source_port = analyze("source-port").source_port.unwrap();
    assert_eq!(source_port.show(), "1024-65535/udp");
    assert_eq!(analyze("raw-protocol").protocol.unwrap().as_str(), "gre");
    assert!(analyze("inverted-source").source.unwrap().inverted);
    assert!(
        analyze("inverted-destination")
            .destination
            .unwrap()
            .inverted
    );
    assert!(!analyze("explicitly-plain").source.unwrap().inverted);
}

#[test]
fn unsupported_fixtures_return_typed_reasons() {
    for (label, raw) in UNSUPPORTED {
        let reason = unsupported(raw);
        let exact = match label {
            "rate-limit" => matches!(reason, RichRuleUnsupported::RateLimit),
            "mac-source" => matches!(reason, RichRuleUnsupported::MacAddress),
            "helper" => matches!(reason, RichRuleUnsupported::Helper),
            "mark" => matches!(reason, RichRuleUnsupported::Mark),
            "tcp-mss-clamp" => matches!(reason, RichRuleUnsupported::TcpMssClamp),
            "log-only" => matches!(reason, RichRuleUnsupported::Log),
            "audit-only" => matches!(reason, RichRuleUnsupported::Audit),
            "ipset" => matches!(reason, RichRuleUnsupported::IpSet),
            "unknown" => matches!(reason, RichRuleUnsupported::UnknownElement(_)),
            "duplicate" => matches!(reason, RichRuleUnsupported::DuplicateElement(_)),
            "conflicting" => matches!(reason, RichRuleUnsupported::ConflictingElements { .. }),
            _ => false,
        };
        assert!(exact, "wrong unsupported reason for `{label}`: {reason:?}");
    }
}

#[test]
fn malformed_fixtures_fail_closed() {
    for (label, raw) in MALFORMED {
        let reason = malformed(raw);
        let exact = match label {
            "unterminated-quote" => matches!(reason, RichRuleMalformed::UnterminatedQuote),
            "invalid-cidr" | "invalid-priority" | "invalid-invert" => {
                matches!(reason, RichRuleMalformed::InvalidValue { .. })
            }
            "missing-action" => matches!(reason, RichRuleMalformed::MissingAction),
            "dangling-source" => matches!(reason, RichRuleMalformed::MissingAttribute { .. }),
            _ => false,
        };
        assert!(exact, "wrong malformed reason for `{label}`: {reason:?}");
    }
}

#[test]
fn unsupported_reasons_name_their_elements() {
    assert_eq!(
        unsupported(r#"rule masquerade accept"#),
        RichRuleUnsupported::UnknownElement("masquerade".to_owned())
    );
    assert_eq!(
        unsupported(r#"rule accept drop"#),
        RichRuleUnsupported::DuplicateElement("action".to_owned())
    );
    assert_eq!(
        unsupported(r#"rule protocol value="gre" port port="1" protocol="tcp" accept"#),
        RichRuleUnsupported::ConflictingElements {
            left: "protocol".to_owned(),
            right: "port".to_owned(),
        }
    );
    let long = format!("rule {}", "x ".repeat(70));
    assert_eq!(
        unsupported(&long),
        RichRuleUnsupported::TooManyTokens { limit: 64 }
    );
}

#[test]
fn malformed_reasons_name_element_and_value() {
    assert_eq!(
        malformed(r#"rule family="ipv5" accept"#),
        RichRuleMalformed::InvalidValue {
            element: "family".to_owned(),
            value: "ipv5".to_owned(),
        }
    );
    assert_eq!(
        malformed(r#"rule family="ipv4" source address="2001:db8::1" accept"#),
        RichRuleMalformed::InvalidValue {
            element: "source".to_owned(),
            value: "2001:db8::1".to_owned(),
        }
    );
    assert_eq!(
        malformed(r#"rule port port="22" accept"#),
        RichRuleMalformed::MissingAttribute {
            element: "port".to_owned(),
            attribute: "protocol".to_owned(),
        }
    );
}

#[test]
fn quotes_join_and_white_space_separates() {
    let spaced = expression("rule   family=\"ipv4\"\u{a0}accept");
    assert_eq!(spaced.family, Some(AddressFamily::Ipv4));
    assert_eq!(spaced.priority.get(), 0);
    let unquoted = expression("rule family=ipv6 accept");
    assert_eq!(unquoted.family, Some(AddressFamily::Ipv6));
}

#[test]
fn family_and_action_are_read_off_the_text() {
    let rule = RichRule::parse("  rule family=\"ipv6 accept  ").unwrap();
    assert_eq!(rule.as_str(), "rule family=\"ipv6 accept");
    assert_eq!(rule.family(), Some("ipv6 accept"));
    assert_eq!(rule.action(), Some("accept"));
    let bare = RichRule::parse("rule masquerade").unwrap();
    assert_eq!(bare.family(), None);
    assert_eq!(bare.action(), None);
    let both = RichRule::parse("rule drop accept").unwrap();
    assert_eq!(both.action(), Some("accept"));
}

/// The proposed rule allows one host, one port and one protocol, and nothing
/// else.
#[test]
fn proposed_rules_allow_one_flow_only() {
    for (src, port, proto, family, host) in [
        ("198.51.100.7", "22", "TCP", AddressFamily::Ipv4, "198.51.100.7/32"),
        ("2001:db8::7", "443", "udp", AddressFamily::Ipv6, "2001:db8::7/128"),
        ("::ffff:192.0.2.1", "1", "SCTP", AddressFamily::Ipv6, "::ffff:192.0.2.1/128"),
    ] {
        let flow = DeniedFlow::parse(src, port, proto, "").unwrap();
        let zone = ZoneName::parse("public").unwrap();
        let proposed = flow.propose_allow(zone, ConfigurationTarget::Runtime);
        let Some(FirewallOperation::AddRichRule { rule, .. }) = proposed else {
            panic!("no rule was proposed");
        };
        let allowed = expression(rule.as_str());
        assert_eq!(allowed.family, Some(family));
        let source = allowed.source.unwrap();
        assert_eq!(source.address.show(), host);
        assert!(!source.inverted);
        let spec = allowed.destination_port.unwrap();
        assert_eq!(spec.show(), format!("{port}/{}", proto.to_lowercase()));
        assert_eq!(allowed.action, RichRuleAction::Accept);
        assert!(allowed.destination.is_none());
        assert!(allowed.service.is_none());
        assert!(allowed.source_port.is_none());
        assert!(allowed.protocol.is_none());
        assert_eq!(allowed.priority.get(), 0);
    }
}
