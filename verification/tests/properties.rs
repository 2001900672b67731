//! The properties that the library states, on concrete values.

use std::time::Duration;

use fwdeck::cidr::leading_bits_agree;
use fwdeck::explain::{cidr_contains, explain, selector_covers, zone_for_source_ip};
use fwdeck::name_map::Name;
use fwdeck::model::Value;
use fwdeck::restore::plan;
use fwdeck::{
    resolve_service_includes, translate_direct_rule, ConfigurationTarget, DegradedSection,
    DirectChain, FeatureSupport, FirewallOperation, FirewallSnapshot, FirewallStatus,
    FirewalldFeature, ForwardPort, IcmpType, InterfaceName, IpAddr, IpProtocol, IpSetEntry,
    IpSetInfo, IpSetName, LogDenied, NameMap, NetfilterBackend, PolicyDependencyGraph,
    PolicyDetails, PolicyName, PolicySetDetails, PolicySetName, PolicySetState, PolicyTarget,
    PortSelector, PortSpec, RefreshObservation, RefreshSection, RefreshSectionObservation,
    RichRule, RulePriority, Scoped, SemanticCapabilityMatrix, ServiceDefinition,
    ServiceModuleName, ServiceName, ServiceResolutionFailure, SnapshotSection, SourceAddress, ZoneDetails, ZoneName, ZoneTarget,
};

fn zone(raw: &str) -> ZoneName {
    ZoneName::parse(raw).unwrap()
}

fn service(raw: &str) -> ServiceName {
    ServiceName::parse(raw).unwrap()
}

fn ip(raw: &str) -> IpAddr {
    IpAddr::parse(raw).unwrap()
}

fn map<K: Name, V: Value>(entries: Vec<(K, V)>) -> NameMap<K, V> {
    let mut out = NameMap::new();
    for (key, value) in entries {
        out.insert(key, value);
    }
    out
}

fn snapshot(runtime: Vec<ZoneDetails>, permanent: Vec<ZoneDetails>) -> FirewallSnapshot {
    let named = |zones: Vec<ZoneDetails>| {
        map(zones.into_iter().map(|z| (z.name.clone(), z)).collect())
    };
    FirewallSnapshot {
        status: FirewallStatus {
            daemon_running: true,
            version: Some("2.1.0".to_owned()),
            backend: NetfilterBackend::Nftables,
            log_denied: LogDenied::Off,
            panic_mode: false,
        },
        default_zone: zone("public"),
        active: NameMap::new(),
        runtime: named(runtime),
        permanent: named(permanent),
        ipsets: Scoped::default(),
        service_definitions: NameMap::new(),
        available_services: Vec::new(),
        policies: Scoped::default(),
        direct_rules: Vec::new(),
        degraded: Vec::new(),
    }
}

#[test]
fn keywords_read_back() {
    for target in [
        ZoneTarget::Default,
        ZoneTarget::Accept,
        ZoneTarget::Drop,
        ZoneTarget::Reject,
    ] {
        assert_eq!(ZoneTarget::parse(target.as_str()), Ok(target));
    }
    assert_eq!(ZoneTarget::parse("REJECT"), Ok(ZoneTarget::Reject));
    for target in [
        PolicyTarget::Continue,
        PolicyTarget::Accept,
        PolicyTarget::Reject,
        PolicyTarget::Drop,
    ] {
        assert_eq!(PolicyTarget::parse(target.as_str()), Some(target));
    }
    assert_eq!(PolicyTarget::parse("default"), None);
    for setting in [
        LogDenied::Off,
        LogDenied::All,
        LogDenied::Unicast,
        LogDenied::Broadcast,
        LogDenied::Multicast,
    ] {
        assert_eq!(LogDenied::parse(setting.as_str()), Ok(setting));
    }
}

#[test]
fn addresses_read_back_from_their_shortest_form() {
    for (raw, shown) in [
        ("192.0.2.1", "192.0.2.1"),
        ("0.0.0.0", "0.0.0.0"),
        ("::", "::"),
        ("::1", "::1"),
        ("2001:0DB8:0:0:0:0:0:1", "2001:db8::1"),
        ("2001:db8:0:1:1:1:1:1", "2001:db8:0:1:1:1:1:1"),
        ("1:0:0:2:0:0:0:3", "1:0:0:2::3"),
        ("::ffff:192.0.2.1", "::ffff:192.0.2.1"),
        ("::ffff:c000:201", "::ffff:192.0.2.1"),
        ("64:ff9b::192.0.2.33", "64:ff9b::c000:221"),
        ("fe80::1:0:0", "fe80::1:0:0"),
    ] {
        let address = ip(raw);
        assert_eq!(address.show(), shown);
        assert_eq!(IpAddr::parse(&address.show()), Some(address));
    }
    for raw in [
        "", "1.2.3", "1.2.3.4.5", "256.0.0.1", "01.2.3.4", ":", ":::", "1::2::3", "12345::",
        "1:2:3:4:5:6:7", "1:2:3:4:5:6:7:8:9", "::1.2.3", "fe80::1%eth0", " 1.2.3.4",
    ] {
        assert_eq!(IpAddr::parse(raw), None, "{raw}");
    }
}

#[test]
fn sources_and_ports_read_back() {
    for raw in [
        "192.0.2.0/24",
        "2001:db8::/32",
        "198.51.100.7",
        "AA:BB:CC:DD:EE:FF",
        "ipset:blocklist",
    ] {
        let source = SourceAddress::parse(raw).unwrap();
        assert_eq!(SourceAddress::parse(&source.show()).unwrap(), source);
    }
    for raw in ["1/tcp", "8000-8080/udp", "65535/sctp", "7-7/dccp"] {
        let spec = PortSpec::parse(raw).unwrap();
        assert_eq!(spec.show(), raw);
        assert_eq!(PortSpec::parse(&spec.show()).unwrap(), spec);
    }
    for raw in [
        "port=80:proto=tcp:toport=8080:toaddr=",
        "port=80-90:proto=udp:toport=:toaddr=2001:db8::5",
        "port=53:proto=udp:toport=5353:toaddr=10.0.0.5",
    ] {
        let forward = ForwardPort::parse(raw).unwrap();
        assert_eq!(ForwardPort::parse(&forward.spec_string()).unwrap(), forward);
    }
}

#[test]
fn entries_keep_their_text() {
    let entry = IpSetEntry::parse("192.0.2.1,tcp:80").unwrap();
    assert_eq!(entry.as_str(), "192.0.2.1,tcp:80");
}

#[test]
fn a_longer_prefix_holds_fewer_addresses() {
    let network = ip("10.1.0.0");
    let near = ip("10.1.0.200");
    let far = ip("10.1.128.1");
    assert!(leading_bits_agree(network, near, 24));
    assert!(leading_bits_agree(network, near, 16));
    assert!(!leading_bits_agree(network, far, 17));
    assert!(leading_bits_agree(network, far, 16));
    assert!(leading_bits_agree(network, ip("255.0.0.1"), 0));
    assert!(!leading_bits_agree(network, ip("::1"), 0));
    assert!(cidr_contains(near, 32, near));
    assert!(!cidr_contains(network, 32, near));
}

#[test]
fn a_selector_covers_what_lies_within_it() {
    let wide = PortSelector::parse("80-90").unwrap();
    let narrow = PortSelector::parse("82-85").unwrap();
    let single = PortSelector::parse("90").unwrap();
    assert!(selector_covers(&wide, &narrow));
    assert!(!selector_covers(&narrow, &wide));
    assert!(selector_covers(&wide, &single));
    assert!(selector_covers(&single, &single));
    assert_eq!(wide.bounds(), (80, 90));
    assert_eq!(single.bounds(), (90, 90));
}

#[test]
fn names_are_kept_in_order_and_once() {
    let mut names: NameMap<ZoneName, u64> = NameMap::new();
    names.insert(zone("work"), 1);
    names.insert(zone("dmz"), 2);
    names.insert(zone("work"), 3);
    assert_eq!(names.len(), 2);
    assert_eq!(names.key(0).as_str(), "dmz");
    assert_eq!(names.get(&zone("work")), Some(&3));
    names.remove(&zone("dmz"));
    assert_eq!(names.get(&zone("dmz")), None);
    assert!(!names.is_empty());
}

#[test]
fn resolution_merges_each_definition_once() {
    let mut base = ServiceDefinition::default();
    base.ports = vec!["80/tcp".parse().unwrap()];
    base.includes = vec![service("tls"), service("tls")];
    let mut tls = ServiceDefinition::default();
    tls.ports = vec!["80/tcp".parse().unwrap(), "443/tcp".parse().unwrap()];
    tls.protocols = vec![IpProtocol::parse("gre").unwrap()];
    let table = map(vec![(service("web"), base), (service("tls"), tls)]);
    let resolved = resolve_service_includes(&service("web"), &table);
    assert_eq!(resolved.services, vec![service("web"), service("tls")]);
    assert!(resolved.failures.is_empty());
    let ports: Vec<String> = resolved.effective.ports.iter().map(|p| p.show()).collect();
    assert_eq!(ports, ["80/tcp", "443/tcp"]);
    assert_eq!(resolved.effective.protocols.len(), 1);
    assert!(resolved.effective.includes.is_empty());

    let unknown = resolve_service_includes(&service("ftp"), &table);
    assert!(unknown.services.is_empty());
    assert_eq!(
        unknown.failures,
        vec![ServiceResolutionFailure::MissingInclude {
            referenced_by: service("ftp"),
            service: service("ftp"),
        }]
    );
}

#[test]
fn sections_come_in_order_and_keep_their_own() {
    let at = |section: RefreshSection, millis: u64| RefreshSectionObservation {
        section,
        elapsed: Duration::from_millis(millis),
        process_count: 1,
    };
    let observed = RefreshObservation::new(
        Duration::from_millis(9),
        5,
        vec![
            at(RefreshSection::Policies, 1),
            at(RefreshSection::Zones, 2),
            at(RefreshSection::Policies, 3),
            at(RefreshSection::Status, 4),
        ],
    );
    let order: Vec<u128> = observed.sections.iter().map(|s| s.elapsed.as_millis()).collect();
    assert_eq!(order, [4, 2, 1, 3]);
}

#[test]
fn completeness_splits_by_scope_and_section() {
    let mut s = snapshot(Vec::new(), Vec::new());
    assert!(s.all_synced());
    s.degraded.push(DegradedSection::new(
        SnapshotSection::IpSets,
        Some(ConfigurationTarget::Runtime),
        "denied",
    ));
    assert!(!s.section_is_complete(SnapshotSection::IpSets, ConfigurationTarget::Runtime));
    assert!(s.section_is_complete(SnapshotSection::IpSets, ConfigurationTarget::Permanent));
    assert!(!s.section_is_complete(
        SnapshotSection::IpSets,
        ConfigurationTarget::RuntimeAndPermanent
    ));
    assert!(s.section_is_complete(
        SnapshotSection::Zones,
        ConfigurationTarget::RuntimeAndPermanent
    ));
    assert!(!s.all_synced());

    let mut legacy = snapshot(Vec::new(), Vec::new());
    legacy.degraded.push(DegradedSection::new(
        SnapshotSection::LegacySnapshot,
        Some(ConfigurationTarget::Runtime),
        "old format",
    ));
    assert!(!legacy.section_is_complete(SnapshotSection::Policies, ConfigurationTarget::Permanent));
    assert!(legacy.section_is_complete(SnapshotSection::Zones, ConfigurationTarget::Runtime));
}

#[test]
fn drift_is_seen_per_zone() {
    let mut public = ZoneDetails::empty(zone("public"));
    let stored = public.clone();
    public.services.push(service("ssh"));
    let s = snapshot(
        vec![public, ZoneDetails::empty(zone("work"))],
        vec![stored, ZoneDetails::empty(zone("work"))],
    );
    assert!(!s.is_zone_synced(&zone("public")));
    assert!(s.is_zone_synced(&zone("work")));
    assert!(s.is_zone_synced(&zone("absent")));
    assert!(!s.all_synced());
    let names: Vec<&str> = s.zone_names().iter().map(|n| n.as_str()).collect();
    assert_eq!(names, ["public", "work"]);
    assert_eq!(s.referenced_services(), vec![service("ssh")]);
    assert!(!s.is_active(&zone("work")));
}

/// Applies the operations of one scope to the zones of that scope.
fn applied(
    zones: &NameMap<ZoneName, ZoneDetails>,
    operations: &[FirewallOperation],
    scope: ConfigurationTarget,
) -> NameMap<ZoneName, ZoneDetails> {
    let mut out = zones.clone();
    for operation in operations {
        let Some((name, target)) = operation.zone_scope() else {
            continue;
        };
        if target != scope {
            continue;
        }
        if let Some(found) = out.get(name) {
            let mut details = found.clone();
            operation.edit_zone(&mut details);
            out.insert(name.clone(), details);
        }
    }
    out
}

#[test]
fn a_plan_restores_both_scopes() {
    let mut now = ZoneDetails::empty(zone("public"));
    now.services = vec![service("ssh"), service("http")];
    now.masquerade = true;
    now.sources = vec![SourceAddress::parse("192.0.2.0/24").unwrap()];
    let mut wanted = ZoneDetails::empty(zone("public"));
    wanted.services = vec![service("ssh"), service("https")];
    wanted.ports = vec!["8080/tcp".parse().unwrap()];
    wanted.rich_rules = vec![RichRule::parse("rule drop").unwrap()];
    wanted.icmp_blocks = vec![IcmpType::parse("echo-request").unwrap()];
    wanted.forward = true;
    let mut stored = wanted.clone();
    stored.target = ZoneTarget::Drop;
    let other = ZoneDetails::empty(zone("work"));
    let current = snapshot(vec![now.clone(), other.clone()], vec![now, other.clone()]);
    let target = snapshot(vec![wanted.clone()], vec![stored.clone()]);

    let operations = plan(&current, &target);
    let runtime = applied(&current.runtime, &operations, ConfigurationTarget::Runtime);
    let permanent = applied(&current.permanent, &operations, ConfigurationTarget::Permanent);
    assert_eq!(runtime.get(&zone("public")), Some(&wanted));
    assert_eq!(permanent.get(&zone("public")), Some(&stored));
    assert_eq!(runtime.get(&zone("work")), Some(&other));

    let mut reached = current.clone();
    reached.runtime = runtime;
    reached.permanent = permanent;
    assert!(plan(&reached, &target).is_empty());
}

#[test]
fn an_inverse_undoes_what_was_new() {
    let mut details = ZoneDetails::empty(zone("public"));
    details.services = vec![service("ssh")];
    let before = details.clone();
    let operation = FirewallOperation::AddService {
        zone: zone("public"),
        service: service("http"),
        target: ConfigurationTarget::Permanent,
    };
    operation.edit_zone(&mut details);
    assert_eq!(details.services.len(), 2);
    let inverse = operation.inverse().unwrap();
    assert_eq!(inverse.target(), ConfigurationTarget::Permanent);
    inverse.edit_zone(&mut details);
    assert_eq!(details, before);
    assert_eq!(inverse.inverse(), Some(operation.clone()));
    let runtime = operation.inverse_runtime().unwrap();
    assert_eq!(runtime.target(), ConfigurationTarget::Runtime);
}

#[test]
fn retargeting_changes_the_scope_only() {
    let operation = FirewallOperation::AddPort {
        zone: zone("public"),
        port: "80/tcp".parse().unwrap(),
        target: ConfigurationTarget::Runtime,
    };
    let moved = operation.with_target(ConfigurationTarget::Permanent).unwrap();
    assert_eq!(
        moved,
        FirewallOperation::AddPort {
            zone: zone("public"),
            port: "80/tcp".parse().unwrap(),
            target: ConfigurationTarget::Permanent,
        }
    );
}

#[test]
fn narrowing_leaves_satisfied_scopes_out() {
    let mut open = ZoneDetails::empty(zone("public"));
    open.services = vec![service("ssh")];
    let s = snapshot(vec![open], vec![ZoneDetails::empty(zone("public"))]);
    let operation = FirewallOperation::AddService {
        zone: zone("public"),
        service: service("ssh"),
        target: ConfigurationTarget::RuntimeAndPermanent,
    };
    assert_eq!(operation.postcondition_holds(&s), Some(false));
    let narrowed = operation.narrowed_for(&s);
    assert_eq!(narrowed.target(), ConfigurationTarget::Permanent);
}

#[test]
fn postconditions_look_at_the_scopes_that_have_the_zone() {
    let mut open = ZoneDetails::empty(zone("public"));
    open.services = vec![service("ssh")];
    let s = snapshot(vec![open], Vec::new());
    let add = |name: &str, target: ConfigurationTarget| FirewallOperation::AddService {
        zone: zone("public"),
        service: service(name),
        target,
    };
    let both = ConfigurationTarget::RuntimeAndPermanent;
    assert_eq!(add("ssh", both).postcondition_holds(&s), Some(true));
    assert_eq!(add("http", both).postcondition_holds(&s), Some(false));
    let stored = ConfigurationTarget::Permanent;
    assert_eq!(add("ssh", stored).postcondition_holds(&s), None);
    let nowhere = snapshot(Vec::new(), Vec::new());
    assert_eq!(add("ssh", both).postcondition_holds(&nowhere), None);
    assert_eq!(FirewallOperation::Reload.postcondition_holds(&s), None);
}

#[test]
fn a_plan_edits_known_zones_and_binds_no_interface() {
    let mut wanted = ZoneDetails::empty(zone("public"));
    wanted.interfaces = vec![InterfaceName::parse("eth0").unwrap()];
    wanted.masquerade = true;
    let current = snapshot(vec![ZoneDetails::empty(zone("public"))], Vec::new());
    let mut target = snapshot(
        vec![wanted, ZoneDetails::empty(zone("absent"))],
        vec![ZoneDetails::empty(zone("absent"))],
    );
    target.default_zone = zone("absent");
    assert_eq!(
        plan(&current, &target),
        vec![FirewallOperation::SetMasquerade {
            zone: zone("public"),
            enabled: true,
            target: ConfigurationTarget::Runtime,
        }]
    );
}

#[test]
fn support_grows_with_the_version() {
    let old = SemanticCapabilityMatrix::from_reported_version(Some("1.0.0"));
    let new = SemanticCapabilityMatrix::from_reported_version(Some("2.3.0"));
    let none = SemanticCapabilityMatrix::from_reported_version(None);
    let feature = FirewalldFeature::ZonePriorities;
    assert_eq!(new.support(feature), FeatureSupport::Supported);
    assert_eq!(old.support(feature), FeatureSupport::Unsupported);
    assert_eq!(none.support(feature), FeatureSupport::Unknown);
}

#[test]
fn a_feature_is_there_from_its_first_release_on() {
    for feature in FirewalldFeature::ALL {
        assert_eq!(
            feature.support_for(Some(feature.minimum_version())),
            FeatureSupport::Supported
        );
        assert_eq!(
            feature.support_for(Some("18446744073709551615.0.0")),
            FeatureSupport::Supported
        );
        assert_eq!(
            feature.support_for(Some("0.0.18446744073709551615")),
            FeatureSupport::Unsupported
        );
        assert_eq!(
            feature.support_for(Some("18446744073709551616.0.0")),
            FeatureSupport::Unknown
        );
    }
}

#[test]
fn priorities_compare_as_their_numbers() {
    let at = |value: i32| RulePriority::new(value).unwrap();
    assert!(at(-32_768) < at(-1));
    assert!(at(-1) < at(0));
    assert!(at(10) > at(9));
    assert!(at(7) <= at(7) && at(7) >= at(7));
    assert_eq!(at(7), at(7));
    assert_ne!(at(7), at(-7));
    assert_eq!(at(3).max(at(-3)), at(3));
}

#[test]
fn only_services_brought_along_are_visited() {
    let with = |names: &[&str]| {
        let mut definition = ServiceDefinition::default();
        definition.includes = names.iter().map(|raw| service(raw)).collect();
        definition
    };
    let table = map(vec![
        (service("web"), with(&["tls"])),
        (service("tls"), with(&["core"])),
        (service("core"), with(&[])),
        (service("mail"), with(&["tls"])),
    ]);
    let visited = |root: &str| resolve_service_includes(&service(root), &table).services;
    assert_eq!(
        visited("web"),
        [service("web"), service("tls"), service("core")]
    );
    assert_eq!(visited("tls"), [service("tls"), service("core")]);
    assert_eq!(visited("core"), [service("core")]);
}

fn gateway(disabled: [bool; 5]) -> FirewallSnapshot {
    let mut s = snapshot(Vec::new(), Vec::new());
    let names = [
        "gateway-dmz-to-HOST",
        "gateway-lan-to-work",
        "gateway-lan-to-world",
        "gateway-lan-to-HOST",
        "gateway-world-to-HOST",
    ];
    for (raw, off) in names.iter().zip(disabled) {
        let name = PolicyName::parse(raw).unwrap();
        let mut policy = PolicyDetails::empty(name.clone());
        policy.disabled = off;
        s.policies.runtime.insert(name, policy);
    }
    s
}

#[test]
fn a_set_is_what_its_members_are() {
    let state = |s: &FirewallSnapshot| {
        let name = PolicySetName::parse("gateway").unwrap();
        PolicySetDetails::from_snapshot(s, name).runtime.state
    };
    assert_eq!(state(&gateway([false; 5])), PolicySetState::Enabled);
    assert_eq!(state(&gateway([true; 5])), PolicySetState::Disabled);
    assert_eq!(
        state(&gateway([true, false, false, false, false])),
        PolicySetState::Mixed
    );
    assert_eq!(
        state(&snapshot(Vec::new(), Vec::new())),
        PolicySetState::Absent
    );
    assert_eq!(PolicySetState::Enabled.matches(true), Some(true));
    assert_eq!(PolicySetState::Disabled.matches(true), Some(false));
    assert_eq!(PolicySetState::Mixed.matches(false), Some(false));
    assert_eq!(PolicySetState::Partial.matches(true), None);
}

#[test]
fn edges_come_from_the_selected_scope() {
    let mut s = snapshot(Vec::new(), Vec::new());
    let name = PolicyName::parse("guest").unwrap();
    let mut live = PolicyDetails::empty(name.clone());
    live.ingress_zones = vec!["public".to_owned()];
    live.services = vec![service("dns")];
    let mut stored = live.clone();
    stored.egress_zones = vec!["work".to_owned()];
    s.policies.runtime.insert(name.clone(), live);
    s.policies.permanent.insert(name, stored);
    let count = |target: ConfigurationTarget| {
        PolicyDependencyGraph::from_snapshot(&s, target).dependencies().len()
    };
    assert_eq!(count(ConfigurationTarget::Runtime), 2);
    assert_eq!(count(ConfigurationTarget::Permanent), 3);
    assert_eq!(count(ConfigurationTarget::RuntimeAndPermanent), 3);
    let graph =
        PolicyDependencyGraph::from_snapshot(&s, ConfigurationTarget::RuntimeAndPermanent);
    assert_eq!(graph.references_zone("work").len(), 1);
    assert_eq!(graph.references_zone("dmz").len(), 0);
    assert_eq!(graph.references_service(&service("dns")).len(), 1);
}

#[test]
fn a_translation_keeps_its_source_and_takes_zones_from_the_chain() {
    let raw = "ipv4 filter OUTPUT -5 -d 192.0.2.0/24 -p udp --dport 53 -j REJECT";
    let translation = translate_direct_rule(raw).unwrap();
    let policy = PolicyName::parse("migrated").unwrap();
    let migration = translation.into_migration(policy);
    assert_eq!(migration.source_rule(), raw);
    assert_eq!(migration.ingress_zone(), DirectChain::Output.ingress_zone());
    assert_eq!(migration.ingress_zone(), "HOST");
    assert_eq!(migration.egress_zone(), "ANY");
    assert_eq!(
        migration.rich_rule().as_str(),
        r#"rule priority="-5" family="ipv4" destination address="192.0.2.0/24" port port="53" protocol="udp" reject"#
    );
}

#[test]
fn sources_select_zones_by_binding() {
    let mut home = ZoneDetails::empty(zone("home"));
    home.sources = vec![SourceAddress::parse("192.0.2.0/24").unwrap()];
    let s = snapshot(vec![ZoneDetails::empty(zone("public")), home], Vec::new());
    assert_eq!(zone_for_source_ip(&s, ip("192.0.2.9")), Some(zone("home")));
    assert_eq!(zone_for_source_ip(&s, ip("192.0.3.9")), None);
}

#[test]
fn accounts_end_with_a_verdict_or_an_error() {
    let mut public = ZoneDetails::empty(zone("public"));
    public.target = ZoneTarget::Drop;
    let s = snapshot(vec![public], Vec::new());
    let query: PortSpec = "22/tcp".parse().unwrap();
    let failed = explain(&s, "192.0.2.0/24", query.clone());
    assert_eq!(
        failed,
        vec![
            (
                String::new(),
                "approximation of firewalld's zone dispatch — not an nft simulation".to_owned()
            ),
            (
                "error".to_owned(),
                "`192.0.2.0/24` is not a plain IP address".to_owned()
            ),
        ]
    );
    let decided = explain(&s, "198.51.100.1", query);
    assert_eq!(
        decided.last().unwrap(),
        &(
            "verdict".to_owned(),
            "silently dropped — no reply is sent".to_owned()
        )
    );
}

#[test]
fn entries_of_sets_stand_in_their_scope() {
    let name = IpSetName::parse("blocklist").unwrap();
    let mut s = snapshot(Vec::new(), Vec::new());
    s.ipsets.runtime.insert(
        name.clone(),
        IpSetInfo {
            kind: "hash:ip".to_owned(),
            entries: vec!["192.0.2.1".to_owned()],
        },
    );
    let operation = FirewallOperation::AddIpSetEntry {
        name,
        entry: IpSetEntry::parse("192.0.2.1").unwrap(),
        target: ConfigurationTarget::Runtime,
    };
    assert_eq!(operation.postcondition_holds(&s), Some(true));
    assert!(operation.validate(&s).is_err());
}

#[test]
fn an_interface_name_is_one_token() {
    assert!(InterfaceName::parse("eth0.100").is_ok());
    assert!(InterfaceName::parse("eth0 down").is_err());
    assert!(ZoneName::parse("zone-with-18-chars").is_err());
    assert!(ZoneName::parse("zone-with-17-char").is_ok());
}

#[test]
fn kept_texts_read_back() {
    let rule = RichRule::parse("  rule family=\"ipv4\" accept\u{a0}").unwrap();
    assert_eq!(rule.as_str(), "rule family=\"ipv4\" accept");
    assert_eq!(RichRule::parse(rule.as_str()).unwrap(), rule);
    let entry = IpSetEntry::parse(" 10.0.0.0/8 ").unwrap();
    assert_eq!(IpSetEntry::parse(entry.as_str()).unwrap(), entry);
    let module = ServiceModuleName::parse(" nf_conntrack_ftp ").unwrap();
    assert_eq!(module.as_str(), "nf_conntrack_ftp");
    assert_eq!(ServiceModuleName::parse(module.as_str()).unwrap(), module);
}
