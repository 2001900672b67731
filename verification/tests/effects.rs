//! Effect metadata of every operation.

use fwdeck::{
    translate_direct_rule, AffectedObject, ConfigurationTarget, FirewallOperation, IcmpType,
    InterfaceName, IpProtocol, IpSetEntry, IpSetName, LogDenied, OperationEffectSupport,
    OperationTargetSequence, PartialApplicationPolicy, PolicyName, PolicySetName, PolicyTarget,
    PortSpec, RichRule, ServiceName, SourceAddress, TemporalBehavior, TrafficDimension,
    UnsupportedOperationReason, ZoneName, ZoneTarget,
};

fn zone() -> ZoneName {
    ZoneName::parse("public").unwrap()
}

fn service() -> ServiceName {
    ServiceName::parse("ssh").unwrap()
}

fn policy() -> PolicyName {
    PolicyName::parse("allow-ssh").unwrap()
}

fn all_operations() -> Vec<(FirewallOperation, OperationEffectSupport)> {
    let zone = zone();
    let service = service();
    let port: PortSpec = "22/tcp".parse().unwrap();
    let target = ConfigurationTarget::RuntimeAndPermanent;
    let supported_rule = RichRule::parse(
        r#"rule family="ipv4" source address="192.0.2.0/24" service name="ssh" accept"#,
    )
    .unwrap();
    let unsupported_rule = RichRule::parse(
        r#"rule family="ipv4" source ipset="trusted" service name="ssh" accept"#,
    )
    .unwrap();
    let migration = translate_direct_rule("ipv4 filter INPUT 9 -p tcp --dport 12345 -j ACCEPT")
        .unwrap()
        .into_migration(policy());

    vec![
        (
            FirewallOperation::AddService {
                zone: zone.clone(),
                service: service.clone(),
                target,
            },
            OperationEffectSupport::SupportedExact,
        ),
        (
            FirewallOperation::AddTemporaryService {
                zone: zone.clone(),
                service: service.clone(),
                seconds: 60,
            },
            OperationEffectSupport::SupportedAtEvaluationInstant,
        ),
        (
            FirewallOperation::RemoveService {
                zone: zone.clone(),
                service: service.clone(),
                target,
            },
            OperationEffectSupport::SupportedExact,
        ),
        (
            FirewallOperation::AddPort {
                zone: zone.clone(),
                port,
                target,
            },
            OperationEffectSupport::SupportedExact,
        ),
        (
            FirewallOperation::RemovePort {
                zone: zone.clone(),
                port,
                target,
            },
            OperationEffectSupport::SupportedExact,
        ),
        (
            FirewallOperation::SetDefaultZone { zone: zone.clone() },
            OperationEffectSupport::SupportedExact,
        ),
        (
            FirewallOperation::SetMasquerade {
                zone: zone.clone(),
                enabled: true,
                target,
            },
            OperationEffectSupport::SupportedExact,
        ),
        (
            FirewallOperation::SetZoneTarget {
                zone: zone.clone(),
                zone_target: ZoneTarget::Drop,
            },
            OperationEffectSupport::SupportedExact,
        ),
        (
            FirewallOperation::AddSourcePort {
                zone: zone.clone(),
                port,
                target,
            },
            OperationEffectSupport::SupportedExact,
        ),
        (
            FirewallOperation::RemoveSourcePort {
                zone: zone.clone(),
                port,
                target,
            },
            OperationEffectSupport::SupportedExact,
        ),
        (
            FirewallOperation::AddProtocol {
                zone: zone.clone(),
                protocol: IpProtocol::parse("gre").unwrap(),
                target,
            },
            OperationEffectSupport::SupportedExact,
        ),
        (
            FirewallOperation::RemoveProtocol {
                zone: zone.clone(),
                protocol: IpProtocol::parse("gre").unwrap(),
                target,
            },
            OperationEffectSupport::SupportedExact,
        ),
        (
            FirewallOperation::SetForward {
                zone: zone.clone(),
                enabled: true,
                target,
            },
            OperationEffectSupport::SupportedExact,
        ),
        (
            FirewallOperation::SetIcmpBlockInversion {
                zone: zone.clone(),
                enabled: true,
                target,
            },
            OperationEffectSupport::SupportedExact,
        ),
        (
            FirewallOperation::AddForwardPort {
                zone: zone.clone(),
                forward: "port=8080:proto=tcp:toport=80".parse().unwrap(),
                target,
            },
            OperationEffectSupport::SupportedExact,
        ),
        (
            FirewallOperation::RemoveForwardPort {
                zone: zone.clone(),
                forward: "port=8080:proto=tcp:toport=80".parse().unwrap(),
                target,
            },
            OperationEffectSupport::SupportedExact,
        ),
        (
            FirewallOperation::AddRichRule {
                zone: zone.clone(),
                rule: supported_rule,
                target,
            },
            OperationEffectSupport::SupportedExact,
        ),
        (
            FirewallOperation::RemoveRichRule {
                zone: zone.clone(),
                rule: unsupported_rule,
                target,
            },
            OperationEffectSupport::UnsupportedRelevant(
                UnsupportedOperationReason::RichRuleSemantics,
            ),
        ),
        (
            FirewallOperation::AddInterface {
                zone: zone.clone(),
                interface: InterfaceName::parse("eth0").unwrap(),
                target,
            },
            OperationEffectSupport::SupportedExact,
        ),
        (
            FirewallOperation::RemoveInterface {
                zone: zone.clone(),
                interface: InterfaceName::parse("eth0").unwrap(),
                target,
            },
            OperationEffectSupport::SupportedExact,
        ),
        (
            FirewallOperation::AddSource {
                zone: zone.clone(),
                source: SourceAddress::parse("192.0.2.0/24").unwrap(),
                target,
            },
            OperationEffectSupport::SupportedExact,
        ),
        (
            FirewallOperation::RemoveSource {
                zone: zone.clone(),
                source: SourceAddress::parse("aa:bb:cc:dd:ee:ff").unwrap(),
                target,
            },
            OperationEffectSupport::UnsupportedRelevant(
                UnsupportedOperationReason::MacSourceBinding,
            ),
        ),
        (
            FirewallOperation::AddIcmpBlock {
                zone: zone.clone(),
                icmp: IcmpType::parse("echo-request").unwrap(),
                target,
            },
            OperationEffectSupport::SupportedExact,
        ),
        (
            FirewallOperation::RemoveIcmpBlock {
                zone: zone.clone(),
                icmp: IcmpType::parse("echo-request").unwrap(),
                target,
            },
            OperationEffectSupport::SupportedExact,
        ),
        (
            FirewallOperation::CreateService {
                service: service.clone(),
            },
            OperationEffectSupport::SupportedExact,
        ),
        (
            FirewallOperation::DeleteService {
                service: service.clone(),
            },
            OperationEffectSupport::SupportedExact,
        ),
        (
            FirewallOperation::AddServicePort {
                service: service.clone(),
                port,
            },
            OperationEffectSupport::SupportedExact,
        ),
        (
            FirewallOperation::RemoveServicePort {
                service: service.clone(),
                port,
            },
            OperationEffectSupport::SupportedExact,
        ),
        (
            FirewallOperation::CreatePolicy { policy: policy() },
            OperationEffectSupport::SupportedExact,
        ),
        (
            FirewallOperation::MigrateDirectRule { migration },
            OperationEffectSupport::UnsupportedRelevant(
                UnsupportedOperationReason::DirectRuleMigration,
            ),
        ),
        (
            FirewallOperation::DeletePolicy { policy: policy() },
            OperationEffectSupport::SupportedExact,
        ),
        (
            FirewallOperation::SetPolicyTarget {
                policy: policy(),
                policy_target: PolicyTarget::Drop,
            },
            OperationEffectSupport::SupportedExact,
        ),
        (
            FirewallOperation::AddPolicyIngressZone {
                policy: policy(),
                zone: "ANY".to_owned(),
            },
            OperationEffectSupport::SupportedExact,
        ),
        (
            FirewallOperation::AddPolicyEgressZone {
                policy: policy(),
                zone: "HOST".to_owned(),
            },
            OperationEffectSupport::SupportedExact,
        ),
        (
            FirewallOperation::AddPolicyService {
                policy: policy(),
                service: service.clone(),
                target,
            },
            OperationEffectSupport::SupportedExact,
        ),
        (
            FirewallOperation::RemovePolicyService {
                policy: policy(),
                service: service.clone(),
                target,
            },
            OperationEffectSupport::SupportedExact,
        ),
        (
            FirewallOperation::SetPolicySetEnabled {
                policy_set: PolicySetName::parse("gateway").unwrap(),
                enabled: true,
                target,
            },
            OperationEffectSupport::SupportedExact,
        ),
        (
            FirewallOperation::CreateIpSet {
                name: IpSetName::parse("trusted").unwrap(),
                kind: "hash:ip".to_owned(),
            },
            OperationEffectSupport::UnsupportedRelevant(
                UnsupportedOperationReason::IpSetSemantics,
            ),
        ),
        (
            FirewallOperation::DeleteIpSet {
                name: IpSetName::parse("trusted").unwrap(),
            },
            OperationEffectSupport::UnsupportedRelevant(
                UnsupportedOperationReason::IpSetSemantics,
            ),
        ),
        (
            FirewallOperation::AddIpSetEntry {
                name: IpSetName::parse("trusted").unwrap(),
                entry: IpSetEntry::parse("192.0.2.10").unwrap(),
                target,
            },
            OperationEffectSupport::UnsupportedRelevant(
                UnsupportedOperationReason::IpSetSemantics,
            ),
        ),
        (
            FirewallOperation::RemoveIpSetEntry {
                name: IpSetName::parse("trusted").unwrap(),
                entry: IpSetEntry::parse("192.0.2.10").unwrap(),
                target,
            },
            OperationEffectSupport::UnsupportedRelevant(
                UnsupportedOperationReason::IpSetSemantics,
            ),
        ),
        (
            FirewallOperation::CreateZone { zone: zone.clone() },
            OperationEffectSupport::SupportedExact,
        ),
        (
            FirewallOperation::DeleteZone { zone: zone.clone() },
            OperationEffectSupport::SupportedExact,
        ),
        (
            FirewallOperation::SetPanicMode { enabled: true },
            OperationEffectSupport::SupportedExact,
        ),
        (
            FirewallOperation::RuntimeToPermanent,
            OperationEffectSupport::GlobalTransform,
        ),
        (
            FirewallOperation::SetLogDenied {
                value: LogDenied::All,
            },
            OperationEffectSupport::GlobalTransform,
        ),
        (
            FirewallOperation::Reload,
            OperationEffectSupport::GlobalTransform,
        ),
    ]
}

#[test]
fn every_firewall_operation_has_an_explicit_effect_classification() {
    let operations = all_operations();
    assert_eq!(
        operations.len(),
        47,
        "fixture must cover every current variant"
    );

    for (operation, expected_support) in operations {
        let effect = operation.effect();
        assert_eq!(
            effect.support, expected_support,
            "unexpected effect classification for {operation:?}"
        );
        assert!(!effect.dimensions.is_empty());
    }
}

#[test]
fn target_sequence_preserves_runtime_permanent_execution_order() {
    for (target, expected) in [
        (
            ConfigurationTarget::Runtime,
            OperationTargetSequence::Runtime,
        ),
        (
            ConfigurationTarget::Permanent,
            OperationTargetSequence::Permanent,
        ),
        (
            ConfigurationTarget::RuntimeAndPermanent,
            OperationTargetSequence::RuntimeThenPermanent,
        ),
    ] {
        let effect = FirewallOperation::AddService {
            zone: zone(),
            service: service(),
            target,
        }
        .effect();
        assert_eq!(effect.targets, expected);
    }
}

#[test]
fn effect_keeps_identity_dimensions_temporal_and_partial_semantics() {
    let temporary = FirewallOperation::AddTemporaryService {
        zone: zone(),
        service: service(),
        seconds: 90,
    }
    .effect();
    assert_eq!(
        temporary.object,
        AffectedObject::ZoneService {
            zone: zone(),
            service: service(),
        }
    );
    assert_eq!(temporary.dimensions, vec![TrafficDimension::Service]);
    assert_eq!(
        temporary.temporal,
        TemporalBehavior::ExpiresAfterSeconds(90)
    );
    assert_eq!(
        temporary.partial_application,
        PartialApplicationPolicy::SingleStep
    );

    let both = FirewallOperation::AddPort {
        zone: zone(),
        port: "443/tcp".parse().unwrap(),
        target: ConfigurationTarget::RuntimeAndPermanent,
    }
    .effect();
    assert_eq!(
        both.partial_application,
        PartialApplicationPolicy::ReconcileExecutedSteps
    );

    let reload = FirewallOperation::Reload.effect();
    assert_eq!(
        reload.targets,
        OperationTargetSequence::RuntimeFromPermanent
    );
    assert_eq!(reload.temporal, TemporalBehavior::GlobalReplacement);

    let default_zone = FirewallOperation::SetDefaultZone { zone: zone() }.effect();
    assert_eq!(
        default_zone.targets,
        OperationTargetSequence::RuntimeAndPermanent
    );
    assert_eq!(
        default_zone.partial_application,
        PartialApplicationPolicy::SingleStep
    );
}

#[test]
fn an_inverse_has_the_effect_of_its_operation() {
    let mut inverted = 0;
    for (operation, _) in all_operations() {
        let lasts = !matches!(operation, FirewallOperation::AddTemporaryService { .. });
        if let (true, Some(inverse)) = (lasts, operation.inverse()) {
            assert_eq!(inverse.effect(), operation.effect());
            assert!(!inverse.effect().dimensions.is_empty());
            inverted += 1;
        }
    }
    assert!(inverted > 20);
}

#[test]
fn a_temporary_service_is_in_its_zone() {
    let temporary = FirewallOperation::AddTemporaryService {
        zone: zone(),
        service: service(),
        seconds: 60,
    };
    assert_eq!(temporary.zone(), Some(&zone()));
    assert_eq!(FirewallOperation::Reload.zone(), None);
}
