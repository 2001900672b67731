//! Resolution of the services that a service brings along.

use fwdeck::{
    resolve_service_includes, NameMap, PortSpec, ServiceDefinition, ServiceName,
    ServiceResolutionFailure, MAX_SERVICE_INCLUDE_DEPTH,
};

fn table<const N: usize>(
    entries: [(ServiceName, ServiceDefinition); N],
) -> NameMap<ServiceName, ServiceDefinition> {
    let mut out = NameMap::new();
    for (name, definition) in entries {
        out.insert(name, definition);
    }
    out
}

fn name(raw: &str) -> ServiceName {
    ServiceName::parse(raw).unwrap()
}

fn definition(includes: &[&str], port: &str) -> ServiceDefinition {
    ServiceDefinition {
        ports: vec![port.parse::<PortSpec>().unwrap()],
        includes: includes.iter().map(|raw| name(raw)).collect(),
        ..ServiceDefinition::default()
    }
}

#[test]
fn include_chain_resolves_in_deterministic_preorder() {
    let definitions = table([
        (name("root"), definition(&["middle"], "1000/tcp")),
        (name("middle"), definition(&["leaf"], "2000/tcp")),
        (name("leaf"), definition(&[], "3000/tcp")),
    ]);

    let resolved = resolve_service_includes(&name("root"), &definitions);

    assert_eq!(
        resolved.services,
        vec![name("root"), name("middle"), name("leaf")]
    );
    assert_eq!(resolved.effective.ports.len(), 3);
    assert!(resolved.failures.is_empty());
}

#[test]
fn diamond_dependency_is_visited_once_in_stable_order() {
    let definitions = table([
        (name("root"), definition(&["left", "right"], "1000/tcp")),
        (name("left"), definition(&["shared"], "2000/tcp")),
        (name("right"), definition(&["shared"], "3000/tcp")),
        (name("shared"), definition(&[], "4000/tcp")),
    ]);

    let resolved = resolve_service_includes(&name("root"), &definitions);

    assert_eq!(
        resolved.services,
        vec![name("root"), name("left"), name("shared"), name("right")]
    );
    assert_eq!(resolved.effective.ports.len(), 4);
    assert!(resolved.failures.is_empty());
}

#[test]
fn missing_include_keeps_typed_parent_and_child_identity() {
    let definitions = table([(name("root"), definition(&["missing"], "1000/tcp"))]);

    let resolved = resolve_service_includes(&name("root"), &definitions);

    assert!(matches!(
        resolved.failures.as_slice(),
        [ServiceResolutionFailure::MissingInclude {
            referenced_by,
            service,
        }] if referenced_by == &name("root") && service == &name("missing")
    ));
}

#[test]
fn include_cycle_reports_the_exact_path() {
    let definitions = table([
        (name("alpha"), definition(&["bravo"], "1000/tcp")),
        (name("bravo"), definition(&["alpha"], "2000/tcp")),
    ]);

    let resolved = resolve_service_includes(&name("alpha"), &definitions);

    assert!(matches!(
        resolved.failures.as_slice(),
        [ServiceResolutionFailure::Cycle { path }]
            if path == &vec![name("alpha"), name("bravo"), name("alpha")]
    ));
}

#[test]
fn include_depth_limit_fails_closed_with_the_path() {
    let mut definitions = NameMap::new();
    for index in 0..=MAX_SERVICE_INCLUDE_DEPTH {
        let current = name(&format!("service-{index}"));
        let next = format!("service-{}", index + 1);
        definitions.insert(current, definition(&[&next], "1000/tcp"));
    }
    definitions.insert(
        name(&format!("service-{}", MAX_SERVICE_INCLUDE_DEPTH + 1)),
        definition(&[], "2000/tcp"),
    );

    let resolved = resolve_service_includes(&name("service-0"), &definitions);

    assert!(matches!(
        resolved.failures.as_slice(),
        [ServiceResolutionFailure::DepthLimit { limit, path }]
            if *limit == MAX_SERVICE_INCLUDE_DEPTH
                && path.first() == Some(&name("service-0"))
                && path.last() == Some(&name(&format!(
                    "service-{}",
                    MAX_SERVICE_INCLUDE_DEPTH + 1
                )))
    ));
}
