//! Snapshots and what is computed from them: validation, drift, restore plans,
//! policy sets, dependencies and explanations.

use fwdeck::explain::{cidr_contains, explain};
use fwdeck::policy_set::GATEWAY_POLICY_MEMBERS;
use fwdeck::restore::plan;
use fwdeck::{
    ActiveZone, ConfigurationTarget, DegradedSection, FirewallOperation, FirewallSnapshot,
    FirewallStatus, ForwardPort, IcmpType, InterfaceName, IpAddr, IpProtocol, IpSetEntry,
    IpSetInfo, IpSetName, LogDenied, NameMap, NetfilterBackend, OperationError, PolicyDependencyGraph,
    PolicyDependencyResource, PolicyDetails, PolicyName, PolicySetDetails, PolicySetName,
    PolicySetState, PolicyTarget, Protocol, RichRule, Scoped, ServiceDefinition, ServiceName,
    SnapshotSection, SourceAddress, ValidationError, ZoneDetails, ZoneName, ZoneTarget,
};

fn services(names: &[&str]) -> Result<Vec<ServiceName>, ValidationError> {
    names.iter().map(|n| ServiceName::parse(n)).collect()
}

/// A hand-written snapshot with realistic drift between runtime and
/// permanent, plus ipsets, policies, and direct rules.
fn sample() -> Result<FirewallSnapshot, ValidationError> {
    let mut runtime: NameMap<ZoneName, ZoneDetails> = NameMap::new();
    let mut active: NameMap<ZoneName, ActiveZone> = NameMap::new();

    let public = ZoneName::parse("public")?;
    let mut zone = ZoneDetails::empty(public.clone());
    zone.interfaces = vec![InterfaceName::parse("eth0")?];
    zone.services = services(&["ssh", "http", "https", "dhcpv6-client"])?;
    zone.ports = vec!["8080/tcp".parse()?, "5000-5010/udp".parse()?];
    zone.source_ports = vec!["68/udp".parse()?];
    zone.protocols = vec![IpProtocol::parse("gre")?];
    zone.forward = true;
    zone.forward_ports = vec![ForwardPort {
        port: "8080".parse()?,
        protocol: Protocol::Tcp,
        to_port: Some("80".parse()?),
        to_addr: IpAddr::parse("10.0.0.5"),
    }];
    zone.rich_rules = vec![
        RichRule::parse(r#"rule family="ipv4" source address="203.0.113.0/24" reject"#)?,
        RichRule::parse(
            r#"rule family="ipv4" source address="198.51.100.7" port port="22" protocol="tcp" accept"#,
        )?,
    ];
    runtime.insert(public.clone(), zone);
    active.insert(
        public.clone(),
        ActiveZone {
            interfaces: vec![InterfaceName::parse("eth0")?],
            sources: Vec::new(),
        },
    );

    let home = ZoneName::parse("home")?;
    let mut zone = ZoneDetails::empty(home.clone());
    zone.services = services(&["ssh", "mdns", "samba-client", "dhcpv6-client"])?;
    zone.sources = vec![SourceAddress::parse("192.168.1.0/24")?];
    runtime.insert(home.clone(), zone);
    active.insert(
        home,
        ActiveZone {
            interfaces: Vec::new(),
            sources: vec![SourceAddress::parse("192.168.1.0/24")?],
        },
    );

    let dmz = ZoneName::parse("dmz")?;
    let mut zone = ZoneDetails::empty(dmz.clone());
    zone.interfaces = vec![InterfaceName::parse("eth1")?];
    zone.services = services(&["ssh"])?;
    zone.icmp_blocks = vec![IcmpType::parse("echo-request")?];
    runtime.insert(dmz.clone(), zone);
    active.insert(
        dmz,
        ActiveZone {
            interfaces: vec![InterfaceName::parse("eth1")?],
            sources: Vec::new(),
        },
    );

    let external = ZoneName::parse("external")?;
    let mut zone = ZoneDetails::empty(external.clone());
    zone.services = services(&["ssh"])?;
    zone.masquerade = true;
    runtime.insert(external, zone);

    let work = ZoneName::parse("work")?;
    let mut zone = ZoneDetails::empty(work.clone());
    zone.services = services(&["ssh", "dhcpv6-client"])?;
    runtime.insert(work, zone);

    let internal = ZoneName::parse("internal")?;
    let mut zone = ZoneDetails::empty(internal.clone());
    zone.services = services(&["ssh", "mdns", "samba-client", "dhcpv6-client"])?;
    runtime.insert(internal, zone);

    let trusted = ZoneName::parse("trusted")?;
    let mut zone = ZoneDetails::empty(trusted.clone());
    zone.target = ZoneTarget::Accept;
    runtime.insert(trusted, zone);

    let block = ZoneName::parse("block")?;
    let mut zone = ZoneDetails::empty(block.clone());
    zone.target = ZoneTarget::Reject;
    runtime.insert(block, zone);

    let drop_zone = ZoneName::parse("drop")?;
    let mut zone = ZoneDetails::empty(drop_zone.clone());
    zone.target = ZoneTarget::Drop;
    runtime.insert(drop_zone, zone);

    // Permanent config drifts from runtime in `public`: http and 8080/tcp are
    // runtime-only, so the "different" indicator has something to show.
    let mut permanent = runtime.clone();
    edit_zone(&mut permanent, "public", |zone| {
        zone.services.retain(|s| s.as_str() != "http");
        zone.ports.retain(|p| p.show() != "8080/tcp");
    });

    let mut service_definitions = NameMap::new();
    for (name, ports) in [
        ("ssh", "22/tcp"),
        ("http", "80/tcp"),
        ("https", "443/tcp"),
        ("dhcpv6-client", "546/udp"),
        ("mdns", "5353/udp"),
    ] {
        service_definitions.insert(
            ServiceName::parse(name)?,
            ServiceDefinition {
                ports: vec![ports.parse()?],
                ..ServiceDefinition::default()
            },
        );
    }

    let mut ipsets = NameMap::new();
    ipsets.insert(
        IpSetName::parse("blocklist")?,
        IpSetInfo {
            kind: "hash:ip".to_owned(),
            entries: vec!["203.0.113.9".to_owned()],
        },
    );

    let mut policies = NameMap::new();
    let name = PolicyName::parse("mypolicy")?;
    let mut policy = PolicyDetails::empty(name.clone());
    policy.target = PolicyTarget::Drop;
    policy.ingress_zones = vec!["public".to_owned()];
    policy.egress_zones = vec!["ANY".to_owned()];
    policy.services = services(&["http"])?;
    policies.insert(name, policy);

    Ok(FirewallSnapshot {
        status: FirewallStatus {
            daemon_running: true,
            version: Some("2.3.1".to_owned()),
            backend: NetfilterBackend::Nftables,
            log_denied: LogDenied::Off,
            panic_mode: false,
        },
        default_zone: public,
        active,
        runtime,
        permanent,
        ipsets: Scoped {
            runtime: ipsets.clone(),
            permanent: ipsets,
        },
        service_definitions,
        available_services: services(&["ssh", "http", "https", "dns", "mysql"])?,
        policies: Scoped {
            runtime: policies.clone(),
            permanent: policies,
        },
        degraded: Vec::new(),
        direct_rules: vec!["ipv4 filter INPUT 9 -p tcp --dport 12345 -j ACCEPT".to_owned()],
    })
}

/// Edits one zone of a map in place.
fn edit_zone(
    zones: &mut NameMap<ZoneName, ZoneDetails>,
    name: &str,
    edit: impl FnOnce(&mut ZoneDetails),
) {
    let name = ZoneName::parse(name).unwrap();
    let mut zone = zones.get(&name).unwrap().clone();
    edit(&mut zone);
    zones.insert(name, zone);
}

fn ip(raw: &str) -> IpAddr {
    IpAddr::parse(raw).unwrap()
}

#[test]
fn sample_snapshot_is_valid_and_drifted() {
    let snap = sample().unwrap();
    assert_eq!(snap.default_zone.as_str(), "public");
    assert!(snap.is_active(&snap.default_zone.clone()));
    assert!(!snap.all_synced());
    assert!(snap.zone_names().len() >= 9);
}

#[test]
fn graph_indexes_policy_zone_and_service_edges() {
    let snapshot = sample().unwrap();
    let graph = PolicyDependencyGraph::from_snapshot(&snapshot, ConfigurationTarget::Permanent);
    let service = ServiceName::parse("http").unwrap();

    assert!(
        graph
            .references_zone("public")
            .iter()
            .any(|edge| edge.policy.as_str() == "mypolicy")
    );
    assert!(
        graph
            .references_service(&service)
            .iter()
            .any(|edge| edge.policy.as_str() == "mypolicy")
    );
    assert!(graph.dependencies().iter().any(|edge| matches!(
        &edge.resource,
        PolicyDependencyResource::EgressZone(zone) if zone == "ANY"
    )));
}

#[test]
fn both_target_deduplicates_identical_edges() {
    let snapshot = sample().unwrap();
    let graph = PolicyDependencyGraph::from_snapshot(
        &snapshot,
        ConfigurationTarget::RuntimeAndPermanent,
    );

    assert_eq!(graph.dependencies().len(), 3);
}

fn run(source: &str, port: &str) -> Vec<(String, String)> {
    let snapshot = sample().unwrap();
    explain(&snapshot, source, port.parse().unwrap())
}

fn value_of<'a>(lines: &'a [(String, String)], key: &str) -> &'a str {
    &lines.iter().find(|(k, _)| k == key).unwrap().1
}

#[test]
fn source_cidr_selects_the_home_zone() {
    let lines = run("192.168.1.7", "443/tcp");
    let zone = value_of(&lines, "zone");
    assert!(zone.contains("`home`"), "zone line: {zone}");
    assert!(zone.contains("192.168.1.0/24"));
    // home opens neither 443/tcp nor a matching service → target decides.
    assert!(value_of(&lines, "verdict").contains("rejected"));
}

#[test]
fn service_allows_port_in_the_default_zone() {
    // 10.1.2.3 matches no source binding → default zone `public`,
    // where the https service (443/tcp) is enabled.
    let lines = run("10.1.2.3", "443/tcp");
    assert!(value_of(&lines, "zone").contains("no source binding"));
    assert!(value_of(&lines, "services").contains("`https`"));
    assert!(value_of(&lines, "verdict").contains("allowed by service `https`"));
}

#[test]
fn explicit_port_allows_traffic() {
    let lines = run("10.1.2.3", "8080/tcp");
    assert!(value_of(&lines, "ports").contains("8080/tcp"));
    assert!(value_of(&lines, "verdict").contains("allowed by open port"));
}

#[test]
fn port_range_containment_allows_traffic() {
    // public opens 5000-5010/udp; 5005/udp falls inside.
    let lines = run("10.1.2.3", "5005/udp");
    assert!(value_of(&lines, "verdict").contains("5000-5010/udp"));
}

#[test]
fn unmatched_port_falls_through_to_the_zone_target() {
    let lines = run("10.1.2.3", "12345/tcp");
    assert!(value_of(&lines, "rich rules").contains("no match"));
    assert!(value_of(&lines, "services").contains("no match"));
    assert!(value_of(&lines, "ports").contains("no match"));
    assert!(value_of(&lines, "target").contains("`default`"));
    assert!(value_of(&lines, "verdict").contains("reject"));
}

#[test]
fn rich_rule_matches_first_and_decides() {
    // public carries `source address="203.0.113.0/24" … reject`.
    let lines = run("203.0.113.7", "443/tcp");
    assert!(value_of(&lines, "rich rules").contains("203.0.113.0/24"));
    assert!(value_of(&lines, "verdict").starts_with("reject"));
}

#[test]
fn cidr_containment_v4_boundaries() {
    let net = ip("192.168.1.0");
    assert!(cidr_contains(net, 24, ip("192.168.1.1")));
    assert!(cidr_contains(net, 24, ip("192.168.1.255")));
    assert!(!cidr_contains(net, 24, ip("192.168.2.0")));
    // Non-octet-aligned prefix: /25 splits the last octet.
    assert!(cidr_contains(net, 25, ip("192.168.1.127")));
    assert!(!cidr_contains(net, 25, ip("192.168.1.128")));
}

#[test]
fn cidr_containment_v6() {
    let net = ip("2001:db8::");
    assert!(cidr_contains(net, 32, ip("2001:db8::1")));
    assert!(cidr_contains(net, 32, ip("2001:db8:ffff::1")));
    assert!(!cidr_contains(net, 32, ip("2001:db9::1")));
    // Families never mix.
    assert!(!cidr_contains(net, 32, ip("192.168.1.1")));
}

fn zone(name: &str) -> ZoneName {
    ZoneName::parse(name).unwrap()
}

fn service(name: &str) -> ServiceName {
    ServiceName::parse(name).unwrap()
}

#[test]
fn add_existing_service_is_nothing_to_do() {
    let snapshot = sample().unwrap();
    // `https` is in runtime AND permanent in the mock.
    let op = FirewallOperation::AddService {
        zone: zone("public"),
        service: service("https"),
        target: ConfigurationTarget::RuntimeAndPermanent,
    };
    assert!(matches!(
        op.validate(&snapshot),
        Err(OperationError::NothingToDo(_))
    ));
    // `http` is runtime-only, so adding it (to sync permanent) is fine.
    let op = FirewallOperation::AddService {
        zone: zone("public"),
        service: service("http"),
        target: ConfigurationTarget::RuntimeAndPermanent,
    };
    assert!(op.validate(&snapshot).is_ok());
}

#[test]
fn remove_absent_service_is_nothing_to_do() {
    let snapshot = sample().unwrap();
    let op = FirewallOperation::RemoveService {
        zone: zone("public"),
        service: service("telnet"),
        target: ConfigurationTarget::RuntimeAndPermanent,
    };
    assert!(matches!(
        op.validate(&snapshot),
        Err(OperationError::NothingToDo(_))
    ));
}

#[test]
fn unknown_zone_is_rejected() {
    let snapshot = sample().unwrap();
    let op = FirewallOperation::SetDefaultZone { zone: zone("nope") };
    assert!(matches!(
        op.validate(&snapshot),
        Err(OperationError::UnknownZone(_))
    ));
}

#[test]
fn current_default_zone_is_nothing_to_do() {
    let snapshot = sample().unwrap();
    let op = FirewallOperation::SetDefaultZone {
        zone: zone("public"),
    };
    assert!(matches!(
        op.validate(&snapshot),
        Err(OperationError::NothingToDo(_))
    ));
    let op = FirewallOperation::SetDefaultZone { zone: zone("home") };
    assert!(op.validate(&snapshot).is_ok());
}

#[test]
fn same_target_inverse_preserves_the_target() {
    let op = FirewallOperation::RemoveService {
        zone: zone("public"),
        service: service("http"),
        target: ConfigurationTarget::RuntimeAndPermanent,
    };
    match op.inverse().unwrap() {
        FirewallOperation::AddService { target, .. } => {
            assert_eq!(target, ConfigurationTarget::RuntimeAndPermanent);
        }
        other => panic!("unexpected inverse: {other:?}"),
    }
}

#[test]
fn inverse_maps_add_to_remove_runtime_scoped() {
    let op = FirewallOperation::AddService {
        zone: zone("public"),
        service: service("http"),
        target: ConfigurationTarget::RuntimeAndPermanent,
    };
    match op.inverse_runtime().unwrap() {
        FirewallOperation::RemoveService { target, .. } => {
            assert_eq!(target, ConfigurationTarget::Runtime);
        }
        other => panic!("unexpected inverse: {other:?}"),
    }
    assert!(FirewallOperation::Reload.inverse_runtime().is_none());
}

#[test]
fn parity_operations_invert_and_target_correctly() {
    let z = zone("public");

    // Toggles invert to their opposite, runtime-scoped.
    match (FirewallOperation::SetForward {
        zone: z.clone(),
        enabled: true,
        target: ConfigurationTarget::RuntimeAndPermanent,
    })
    .inverse()
    .unwrap()
    {
        FirewallOperation::SetForward { enabled, .. } => assert!(!enabled),
        other => panic!("unexpected inverse: {other:?}"),
    }

    // Source-port add ↔ remove.
    match (FirewallOperation::AddSourcePort {
        zone: z.clone(),
        port: "68/udp".parse().unwrap(),
        target: ConfigurationTarget::Runtime,
    })
    .inverse()
    .unwrap()
    {
        FirewallOperation::RemoveSourcePort { .. } => {}
        other => panic!("unexpected inverse: {other:?}"),
    }

    // Protocol add ↔ remove.
    assert!(matches!(
        (FirewallOperation::AddProtocol {
            zone: z.clone(),
            protocol: IpProtocol::parse("gre").unwrap(),
            target: ConfigurationTarget::Runtime,
        })
        .inverse(),
        Some(FirewallOperation::RemoveProtocol { .. })
    ));

    // Zone target is permanent-only and has no clean inverse.
    let set_target = FirewallOperation::SetZoneTarget {
        zone: z,
        zone_target: ZoneTarget::Drop,
    };
    assert_eq!(set_target.target(), ConfigurationTarget::Permanent);
    assert!(set_target.inverse().is_none());
}

#[test]
fn rezoning_ops_warn_and_are_reversible() {
    // Regression guard: re-zoning is the classic self-lockout vector, so all
    // three ops must carry a connectivity warning — that is what makes the
    // SSH notice fire AND arms the dead-man's switch (both key off it).
    let z = zone("public");
    let iface = FirewallOperation::AddInterface {
        zone: z.clone(),
        interface: InterfaceName::parse("eth0").unwrap(),
        target: ConfigurationTarget::RuntimeAndPermanent,
    };
    let src = FirewallOperation::AddSource {
        zone: z.clone(),
        source: SourceAddress::parse("203.0.113.0/24").unwrap(),
        target: ConfigurationTarget::RuntimeAndPermanent,
    };
    let def = FirewallOperation::SetDefaultZone { zone: z };

    for op in [&iface, &src, &def] {
        assert!(
            op.connectivity_warning().is_some(),
            "missing connectivity warning for {op:?}"
        );
    }
    // AddInterface / AddSource have clean inverses, so rollback can revert
    // them; SetDefaultZone captures no prior default, so it warns but (like
    // Reload) cannot auto-revert.
    assert!(matches!(
        iface.inverse(),
        Some(FirewallOperation::RemoveInterface { .. })
    ));
    assert!(matches!(
        src.inverse(),
        Some(FirewallOperation::RemoveSource { .. })
    ));
    assert!(def.inverse().is_none());
}

#[test]
fn panic_and_sync_validations_check_current_state() {
    let snapshot = sample().unwrap();
    // panic is off in the mock
    assert!(matches!(
        FirewallOperation::SetPanicMode { enabled: false }.validate(&snapshot),
        Err(OperationError::NothingToDo(_))
    ));
    assert!(
        FirewallOperation::SetPanicMode { enabled: true }
            .validate(&snapshot)
            .is_ok()
    );
    // mock has drift → runtime-to-permanent makes sense
    assert!(
        FirewallOperation::RuntimeToPermanent
            .validate(&snapshot)
            .is_ok()
    );
    // LogDenied is off in the mock
    assert!(matches!(
        FirewallOperation::SetLogDenied {
            value: fwdeck::LogDenied::Off
        }
        .validate(&snapshot),
        Err(OperationError::NothingToDo(_))
    ));
}

#[test]
fn ipset_validations() {
    let snapshot = sample().unwrap();
    let blocklist = IpSetName::parse("blocklist").unwrap();
    // unknown type rejected before it can reach argv
    assert!(matches!(
        FirewallOperation::CreateIpSet {
            name: IpSetName::parse("x").unwrap(),
            kind: "hash:$(bad)".to_owned(),
        }
        .validate(&snapshot),
        Err(OperationError::Invalid(_))
    ));
    // duplicate entry is nothing-to-do
    assert!(matches!(
        FirewallOperation::AddIpSetEntry {
            name: blocklist.clone(),
            entry: IpSetEntry::parse("203.0.113.9").unwrap(),
            target: ConfigurationTarget::RuntimeAndPermanent,
        }
        .validate(&snapshot),
        Err(OperationError::NothingToDo(_))
    ));
    assert!(
        FirewallOperation::AddIpSetEntry {
            name: blocklist,
            entry: IpSetEntry::parse("198.51.100.44").unwrap(),
            target: ConfigurationTarget::RuntimeAndPermanent,
        }
        .validate(&snapshot)
        .is_ok()
    );
}

#[test]
fn policy_validations_and_inverse() {
    let snapshot = sample().unwrap();
    let policy = PolicyName::parse("mypolicy").unwrap();
    // exists in the mock
    assert!(matches!(
        FirewallOperation::CreatePolicy {
            policy: policy.clone()
        }
        .validate(&snapshot),
        Err(OperationError::Invalid(_))
    ));
    // http already in the policy
    assert!(matches!(
        FirewallOperation::AddPolicyService {
            policy: policy.clone(),
            service: service("http"),
            target: ConfigurationTarget::RuntimeAndPermanent,
        }
        .validate(&snapshot),
        Err(OperationError::NothingToDo(_))
    ));
    // adding a new service is fine and has a runtime-scoped inverse
    let add = FirewallOperation::AddPolicyService {
        policy,
        service: service("https"),
        target: ConfigurationTarget::RuntimeAndPermanent,
    };
    assert!(add.validate(&snapshot).is_ok());
    assert!(matches!(
        add.inverse().unwrap(),
        FirewallOperation::RemovePolicyService { .. }
    ));
}

#[test]
fn service_lifecycle_validations_and_inverse() {
    let snapshot = sample().unwrap();
    // ssh already exists in the mock catalog
    assert!(matches!(
        FirewallOperation::CreateService {
            service: service("ssh")
        }
        .validate(&snapshot),
        Err(OperationError::Invalid(_))
    ));
    assert!(
        FirewallOperation::CreateService {
            service: service("myapp")
        }
        .validate(&snapshot)
        .is_ok()
    );
    // add-port has a same-target permanent inverse
    let add = FirewallOperation::AddServicePort {
        service: service("myapp"),
        port: "9200/tcp".parse().unwrap(),
    };
    match add.inverse().unwrap() {
        FirewallOperation::RemoveServicePort { port, .. } => {
            assert_eq!(port.show(), "9200/tcp");
        }
        other => panic!("unexpected inverse: {other:?}"),
    }
}

#[test]
fn zone_lifecycle_validations() {
    let snapshot = sample().unwrap();
    // create: name must be new
    assert!(matches!(
        FirewallOperation::CreateZone {
            zone: zone("public")
        }
        .validate(&snapshot),
        Err(OperationError::Invalid(_))
    ));
    assert!(
        FirewallOperation::CreateZone {
            zone: zone("staging")
        }
        .validate(&snapshot)
        .is_ok()
    );
    // delete: default zone is protected
    assert!(matches!(
        FirewallOperation::DeleteZone {
            zone: zone("public")
        }
        .validate(&snapshot),
        Err(OperationError::Invalid(_))
    ));
    assert!(
        FirewallOperation::DeleteZone { zone: zone("home") }
            .validate(&snapshot)
            .is_ok()
    );
}

#[test]
fn narrowing_repairs_drift_scope() {
    let snapshot = sample().unwrap();
    // `http` is runtime-only in the mock: adding with Both must narrow to
    // Permanent (the missing half), removing must narrow to Runtime.
    let add = FirewallOperation::AddService {
        zone: zone("public"),
        service: service("http"),
        target: ConfigurationTarget::RuntimeAndPermanent,
    };
    assert_eq!(
        add.narrowed_for(&snapshot).target(),
        ConfigurationTarget::Permanent
    );
    let remove = FirewallOperation::RemoveService {
        zone: zone("public"),
        service: service("http"),
        target: ConfigurationTarget::RuntimeAndPermanent,
    };
    assert_eq!(
        remove.narrowed_for(&snapshot).target(),
        ConfigurationTarget::Runtime
    );
    // `https` exists in both: removing keeps Both; explicit single-scope
    // targets are never rewritten.
    let remove_both = FirewallOperation::RemoveService {
        zone: zone("public"),
        service: service("https"),
        target: ConfigurationTarget::RuntimeAndPermanent,
    };
    assert_eq!(
        remove_both.narrowed_for(&snapshot).target(),
        ConfigurationTarget::RuntimeAndPermanent
    );
    let explicit = FirewallOperation::AddService {
        zone: zone("public"),
        service: service("http"),
        target: ConfigurationTarget::Runtime,
    };
    assert_eq!(
        explicit.narrowed_for(&snapshot).target(),
        ConfigurationTarget::Runtime
    );
}

#[test]
fn validation_honors_an_explicit_zone_target() {
    let snapshot = sample().unwrap();
    // `http` is runtime-only in the mock. Runtime is already satisfied,
    // while permanent is a valid drift-repair target.
    let runtime = FirewallOperation::AddService {
        zone: zone("public"),
        service: service("http"),
        target: ConfigurationTarget::Runtime,
    };
    assert!(matches!(
        runtime.validate(&snapshot),
        Err(OperationError::NothingToDo(_))
    ));
    let permanent = runtime.with_target(ConfigurationTarget::Permanent).unwrap();
    assert!(permanent.validate(&snapshot).is_ok());
}

#[test]
fn ipset_validation_narrowing_and_postconditions_are_scoped() {
    let mut snapshot = sample().unwrap();
    let name = IpSetName::parse("blocklist").unwrap();
    let entry = IpSetEntry::parse("203.0.113.9").unwrap();
    let mut drifted = snapshot.ipsets.permanent.get(&name).unwrap().clone();
    drifted.entries.clear();
    snapshot.ipsets.permanent.insert(name.clone(), drifted);
    assert!(!snapshot.all_synced(), "ipset drift is configuration drift");

    let add = FirewallOperation::AddIpSetEntry {
        name,
        entry,
        target: ConfigurationTarget::RuntimeAndPermanent,
    };
    assert_eq!(
        add.narrowed_for(&snapshot).target(),
        ConfigurationTarget::Permanent
    );
    assert_eq!(add.postcondition_holds(&snapshot), Some(false));
    assert!(matches!(
        add.with_target(ConfigurationTarget::Runtime)
            .unwrap()
            .validate(&snapshot),
        Err(OperationError::NothingToDo(_))
    ));
    assert!(
        add.with_target(ConfigurationTarget::Permanent)
            .unwrap()
            .validate(&snapshot)
            .is_ok()
    );
}

#[test]
fn incomplete_scope_blocks_only_dependent_mutations() {
    let mut snapshot = sample().unwrap();
    snapshot
        .degraded
        .push(DegradedSection::new(
            SnapshotSection::IpSets,
            Some(ConfigurationTarget::Permanent),
            "permission denied",
        ));
    let name = IpSetName::parse("blocklist").unwrap();
    let entry = IpSetEntry::parse("198.51.100.2").unwrap();
    let permanent = FirewallOperation::AddIpSetEntry {
        name: name.clone(),
        entry: entry.clone(),
        target: ConfigurationTarget::Permanent,
    };
    assert!(matches!(
        permanent.validate(&snapshot),
        Err(OperationError::Invalid(_))
    ));
    let both = permanent
        .with_target(ConfigurationTarget::RuntimeAndPermanent)
        .unwrap();
    assert_eq!(
        both.narrowed_for(&snapshot).target(),
        ConfigurationTarget::RuntimeAndPermanent,
        "unknown permanent state must never be narrowed away"
    );
    let runtime = FirewallOperation::AddIpSetEntry {
        name,
        entry,
        target: ConfigurationTarget::Runtime,
    };
    assert!(runtime.validate(&snapshot).is_ok());
    assert_eq!(permanent.postcondition_holds(&snapshot), None);
}

#[test]
fn descriptions_are_specific() {
    let op = FirewallOperation::AddService {
        zone: zone("public"),
        service: service("https"),
        target: ConfigurationTarget::RuntimeAndPermanent,
    };
    assert_eq!(op.describe(), "add service `https` to zone `public`");
    assert_eq!(
        op.success_message(),
        "service `https` added to zone `public` (runtime + permanent)"
    );
    assert!(FirewallOperation::Reload.connectivity_warning().is_some());
}

#[test]
fn derives_scoped_gateway_members_and_mixed_state() {
    let mut snapshot = sample().unwrap();
    for (index, name) in GATEWAY_POLICY_MEMBERS.iter().enumerate() {
        let name = PolicyName::parse(name).unwrap();
        let mut policy = PolicyDetails::empty(name.clone());
        policy.disabled = index == 0;
        snapshot
            .policies
            .runtime
            .insert(name.clone(), policy.clone());
        snapshot.policies.permanent.insert(name, policy);
    }

    let set =
        PolicySetDetails::from_snapshot(&snapshot, PolicySetName::parse("gateway").unwrap());
    assert_eq!(set.runtime.members.len(), GATEWAY_POLICY_MEMBERS.len());
    assert_eq!(set.runtime.state, PolicySetState::Mixed);
    assert_eq!(set.permanent.state, PolicySetState::Mixed);
}

#[test]
fn partial_manifest_is_not_treated_as_safe_state() {
    let mut snapshot = sample().unwrap();
    let name = PolicyName::parse(GATEWAY_POLICY_MEMBERS[0]).unwrap();
    let policy = PolicyDetails::empty(name.clone());
    snapshot.policies.runtime.insert(name, policy);

    let set =
        PolicySetDetails::from_snapshot(&snapshot, PolicySetName::parse("gateway").unwrap());
    assert_eq!(set.runtime.state, PolicySetState::Partial);
    assert_eq!(set.runtime.state.matches(true), None);
}

#[test]
fn unexpected_prefixed_member_requires_a_manifest_update() {
    let mut snapshot = sample().unwrap();
    for member in GATEWAY_POLICY_MEMBERS
        .iter()
        .copied()
        .chain(["gateway-new-upstream-member"])
    {
        let name = PolicyName::parse(member).unwrap();
        snapshot
            .policies
            .runtime
            .insert(name.clone(), PolicyDetails::empty(name));
    }

    let set =
        PolicySetDetails::from_snapshot(&snapshot, PolicySetName::parse("gateway").unwrap());
    assert_eq!(set.runtime.state, PolicySetState::Partial);
    assert!(
        set.runtime
            .members
            .iter()
            .any(|member| member.as_str() == "gateway-new-upstream-member")
    );
}

#[test]
fn identical_snapshots_produce_no_operations() {
    let snap = sample().unwrap();
    assert!(plan(&snap, &snap).is_empty());
}

#[test]
fn diff_adds_and_removes_to_reach_target() {
    let current = sample().unwrap();
    let mut target = current.clone();
    // Target removes `https` (present in permanent) and adds `ftp`.
    let ftp = ServiceName::parse("ftp").unwrap();
    edit_zone(&mut target.permanent, "public", |z| {
        z.services.retain(|s| s.as_str() != "https");
        z.services.push(ftp.clone());
    });

    // The diff drives off the permanent config.
    let ops = plan(&current, &target);
    assert!(ops.iter().any(|op| matches!(
        op,
        FirewallOperation::AddService { service, .. } if service.as_str() == "ftp"
    )));
    assert!(ops.iter().any(|op| matches!(
        op,
        FirewallOperation::RemoveService { service, .. } if service.as_str() == "https"
    )));
}

#[test]
fn diff_reconciles_the_parity_attributes() {
    let current = sample().unwrap();
    let mut target = current.clone();
    edit_zone(&mut target.permanent, "public", |z| {
        z.protocols.push(IpProtocol::parse("esp").unwrap());
        z.source_ports.push("546/udp".parse().unwrap());
        z.forward = !z.forward;
        z.icmp_block_inversion = !z.icmp_block_inversion;
        z.target = ZoneTarget::Drop;
    });

    let ops = plan(&current, &target);
    assert!(
        ops.iter()
            .any(|op| matches!(op, FirewallOperation::AddProtocol { .. }))
    );
    assert!(
        ops.iter()
            .any(|op| matches!(op, FirewallOperation::AddSourcePort { .. }))
    );
    assert!(
        ops.iter()
            .any(|op| matches!(op, FirewallOperation::SetForward { .. }))
    );
    assert!(
        ops.iter()
            .any(|op| matches!(op, FirewallOperation::SetIcmpBlockInversion { .. }))
    );
    // Zone target is emitted permanent-only.
    assert!(ops.iter().any(|op| matches!(
        op,
        FirewallOperation::SetZoneTarget {
            zone_target: ZoneTarget::Drop,
            ..
        }
    )));
}

#[test]
fn zone_absent_from_runtime_narrows_to_permanent() {
    let current = sample().unwrap();
    let mut target = current.clone();
    // A permanent-only zone (created, not reloaded) gains a service.
    let fresh = ZoneName::parse("staging").unwrap();
    let mut cur2 = current.clone();
    cur2.permanent
        .insert(fresh.clone(), ZoneDetails::empty(fresh.clone()));
    let mut z = ZoneDetails::empty(fresh.clone());
    z.services.push(ServiceName::parse("ssh").unwrap());
    target.permanent.insert(fresh.clone(), z);

    let ops = plan(&cur2, &target);
    let op = ops
        .iter()
        .find(|op| matches!(op, FirewallOperation::AddService { zone, .. } if *zone == fresh))
        .unwrap();
    assert!(
        matches!(op, FirewallOperation::AddService { target, .. }
            if *target == ConfigurationTarget::Permanent),
        "runtime step would hit INVALID_ZONE: {op:?}"
    );
}

#[test]
fn default_zone_change_requires_runtime_presence() {
    let current = sample().unwrap();
    let mut target = current.clone();
    // Point the default at a zone that exists only in permanent.
    let fresh = ZoneName::parse("staging").unwrap();
    let mut cur2 = current.clone();
    cur2.permanent.insert(
        fresh.clone(),
        ZoneDetails::empty(fresh.clone()),
    );
    target.permanent.insert(
        fresh.clone(),
        ZoneDetails::empty(fresh.clone()),
    );
    target.default_zone = fresh;
    let ops = plan(&cur2, &target);
    assert!(
        !ops.iter()
            .any(|op| matches!(op, FirewallOperation::SetDefaultZone { .. })),
        "set-default-zone on a permanent-only zone fails with INVALID_ZONE"
    );
}

#[test]
fn default_zone_change_is_emitted_first() {
    let current = sample().unwrap();
    let mut target = current.clone();
    target.default_zone = ZoneName::parse("home").unwrap();
    let ops = plan(&current, &target);
    assert!(matches!(
        ops.first(),
        Some(FirewallOperation::SetDefaultZone { .. })
    ));
}

#[test]
fn legacy_degraded_strings_become_typed_records() {
    let mut snapshot = sample().unwrap();
    snapshot.degraded = vec![DegradedSection::from_legacy(
        "ipsets: access denied".to_owned(),
    )];
    assert_eq!(snapshot.degraded[0].section, SnapshotSection::IpSets);
    assert_eq!(snapshot.degraded[0].reason, "ipsets: access denied");
    assert!(
        !snapshot.all_synced(),
        "unknown state cannot be called synced"
    );
}

#[test]
fn an_active_policy_is_no_drift() {
    let mut snapshot = sample().unwrap();
    snapshot.permanent = snapshot.runtime.clone();
    snapshot.ipsets.permanent = snapshot.ipsets.runtime.clone();
    let name = PolicyName::parse("example").unwrap();
    let stored = PolicyDetails::empty(name.clone());
    let mut running = stored.clone();
    running.active = true;
    snapshot.policies.runtime = NameMap::new();
    snapshot.policies.runtime.insert(name.clone(), running);
    snapshot.policies.permanent = NameMap::new();
    snapshot.policies.permanent.insert(name.clone(), stored.clone());
    assert_ne!(snapshot.policies.runtime, snapshot.policies.permanent);
    assert!(snapshot.all_synced());
    assert!(matches!(
        FirewallOperation::RuntimeToPermanent.validate(&snapshot),
        Err(OperationError::NothingToDo(_))
    ));

    let mut other = stored;
    other.priority = 7;
    snapshot.policies.permanent.insert(name, other);
    assert!(!snapshot.all_synced());
    assert!(FirewallOperation::RuntimeToPermanent
        .validate(&snapshot)
        .is_ok());
    snapshot.policies.permanent = NameMap::new();
    assert!(!snapshot.all_synced());
}
