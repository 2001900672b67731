//! Firewalld service definitions and deterministic resolution of the services
//! that they bring along.

use vstd::prelude::*;

use crate::address::{AddressFamily, SourceAddress, SourceAddressView};
use crate::ids;
use crate::ids::{IpProtocol, ServiceName, ValidationError, ValidationErrorView};
use crate::lists;
use crate::model;
use crate::model::Value;
use crate::name_map;
use crate::name_map::NameMap;
use crate::number;
use crate::port::{PortSpec, PortSpecView};
use crate::text;

verus! {

/// Maximum supported nesting below a root service.
pub const MAX_SERVICE_INCLUDE_DEPTH: usize = 16;

/// A validated legacy service module name.
#[derive(Debug, PartialEq, Eq, PartialOrd, Ord)]
pub struct ServiceModuleName {
    name: String,
}

impl DeepView for ServiceModuleName {
    type V = Seq<char>;

    closed spec fn deep_view(&self) -> Seq<char> {
        self.name@
    }
}

/// Why a trimmed module name is rejected; the error shows the untrimmed text.
pub open spec fn module_objection(trimmed: Seq<char>, raw: Seq<char>) -> Option<
    ValidationErrorView,
> {
    ids::objection(trimmed, raw, "service module name"@, 64, seq!['_', '-', '.'])
}

impl ServiceModuleName {
    /// The module name that `raw` spells, without the white space around it.
    pub open spec fn parsed(raw: Seq<char>) -> Result<Seq<char>, ValidationErrorView> {
        match module_objection(text::trimmed(raw), raw) {
            Some(e) => Err(e),
            None => Ok(text::trimmed(raw)),
        }
    }

    /// The name is a single safe token.
    #[verifier::type_invariant]
    pub open spec fn valid(self) -> bool {
        module_objection(self.deep_view(), self.deep_view()) is None
    }

    /// Validates a module as one safe firewalld token.
    pub fn parse(raw: &str) -> (r: Result<Self, ValidationError>)
        ensures
            model::outcome(r) == Self::parsed(raw@),
    {
        let trimmed = text::trim(raw);
        let extra = ['_', '-', '.'];
        assert(extra@ =~= seq!['_', '-', '.']);
        match ids::validate(trimmed, raw, "service module name", 64, &extra) {
            Ok(_) => Ok(ServiceModuleName { name: trimmed.to_owned() }),
            Err(e) => Err(e),
        }
    }

    /// The validated module name.
    pub fn as_str(&self) -> (r: &str)
        ensures
            r@ == self.deep_view(),
            module_objection(r@, r@) is None,
            Self::parsed(r@) == Ok::<Seq<char>, ValidationErrorView>(r@),
    {
        proof {
            use_type_invariant(self);
            module_names_are_tokens(self.deep_view());
        }
        self.name.as_str()
    }
}

impl Value for ServiceModuleName {
    fn same(&self, other: &Self) -> (r: bool) {
        self.name == other.name
    }

    fn dup(&self) -> (r: Self) {
        proof {
            use_type_invariant(self);
        }
        ServiceModuleName { name: self.name.clone() }
    }
}

impl Clone for ServiceModuleName {
    fn clone(&self) -> (r: Self)
        ensures
            r.deep_view() == self.deep_view(),
    {
        self.dup()
    }
}

/// One family-specific service destination.
#[derive(Debug, PartialEq, Eq)]
pub struct ServiceDestination {
    /// Address family declared by firewalld.
    pub family: AddressFamily,
    /// Validated IP address or CIDR.
    pub address: SourceAddress,
}

/// What a `ServiceDestination` models.
#[verifier::ext_equal]
pub struct ServiceDestinationView {
    pub family: AddressFamily,
    pub address: SourceAddressView,
}

impl DeepView for ServiceDestination {
    type V = ServiceDestinationView;

    open spec fn deep_view(&self) -> ServiceDestinationView {
        ServiceDestinationView {
            family: self.family.deep_view(),
            address: self.address.deep_view(),
        }
    }
}

impl Value for ServiceDestination {
    fn same(&self, other: &Self) -> (r: bool) {
        self.family == other.family && self.address.same(&other.address)
    }

    fn dup(&self) -> (r: Self) {
        ServiceDestination {
            family: self.family,
            address: self.address.dup(),
        }
    }
}

impl Clone for ServiceDestination {
    fn clone(&self) -> (r: Self)
        ensures
            r.deep_view() == self.deep_view(),
    {
        self.dup()
    }
}

/// Complete static definition returned by `--info-service`.
#[derive(Debug, PartialEq, Eq)]
pub struct ServiceDefinition {
    /// Destination ports opened by the service.
    pub ports: Vec<PortSpec>,
    /// Raw IP protocols beyond port-based rules.
    pub protocols: Vec<IpProtocol>,
    /// Source ports constrained by the service.
    pub source_ports: Vec<PortSpec>,
    /// Family-specific destination restrictions.
    pub destinations: Vec<ServiceDestination>,
    /// Other service definitions that this service brings along.
    pub includes: Vec<ServiceName>,
    /// Connection-tracking helpers requested by the service.
    pub helpers: Vec<ServiceName>,
    /// Deprecated kernel modules retained as evidence.
    pub modules: Vec<ServiceModuleName>,
}

/// What a `ServiceDefinition` models.
#[verifier::ext_equal]
pub struct ServiceDefinitionView {
    pub ports: Seq<PortSpecView>,
    pub protocols: Seq<Seq<char>>,
    pub source_ports: Seq<PortSpecView>,
    pub destinations: Seq<ServiceDestinationView>,
    pub includes: Seq<Seq<char>>,
    pub helpers: Seq<Seq<char>>,
    pub modules: Seq<Seq<char>>,
}

impl DeepView for ServiceDefinition {
    type V = ServiceDefinitionView;

    open spec fn deep_view(&self) -> ServiceDefinitionView {
        ServiceDefinitionView {
            ports: self.ports.deep_view(),
            protocols: self.protocols.deep_view(),
            source_ports: self.source_ports.deep_view(),
            destinations: self.destinations.deep_view(),
            includes: self.includes.deep_view(),
            helpers: self.helpers.deep_view(),
            modules: self.modules.deep_view(),
        }
    }
}

impl Value for ServiceDefinition {
    fn same(&self, other: &Self) -> (r: bool) {
        self.ports.same(&other.ports)
            && self.protocols.same(&other.protocols)
            && self.source_ports.same(&other.source_ports)
            && self.destinations.same(&other.destinations)
            && self.includes.same(&other.includes)
            && self.helpers.same(&other.helpers)
            && self.modules.same(&other.modules)
    }

    fn dup(&self) -> (r: Self) {
        ServiceDefinition {
            ports: self.ports.dup(),
            protocols: self.protocols.dup(),
            source_ports: self.source_ports.dup(),
            destinations: self.destinations.dup(),
            includes: self.includes.dup(),
            helpers: self.helpers.dup(),
            modules: self.modules.dup(),
        }
    }
}

impl Clone for ServiceDefinition {
    fn clone(&self) -> (r: Self)
        ensures
            r.deep_view() == self.deep_view(),
    {
        self.dup()
    }
}

impl ServiceDefinitionView {
    /// A definition that states nothing.
    pub open spec fn nothing() -> ServiceDefinitionView {
        ServiceDefinitionView {
            ports: Seq::empty(),
            protocols: Seq::empty(),
            source_ports: Seq::empty(),
            destinations: Seq::empty(),
            includes: Seq::empty(),
            helpers: Seq::empty(),
            modules: Seq::empty(),
        }
    }

    /// The definition with the fields of `source` that it lacks. What the
    /// source brings along is not merged: its services are visited themselves.
    pub open spec fn merged(self, source: ServiceDefinitionView) -> ServiceDefinitionView {
        ServiceDefinitionView {
            ports: lists::union(self.ports, source.ports),
            protocols: lists::union(self.protocols, source.protocols),
            source_ports: lists::union(self.source_ports, source.source_ports),
            destinations: lists::union(self.destinations, source.destinations),
            includes: self.includes,
            helpers: lists::union(self.helpers, source.helpers),
            modules: lists::union(self.modules, source.modules),
        }
    }
}

impl Default for ServiceDefinition {
    fn default() -> (r: Self)
        ensures
            r.deep_view() == ServiceDefinitionView::nothing(),
    {
        ServiceDefinition {
            ports: lists::none(),
            protocols: lists::none(),
            source_ports: lists::none(),
            destinations: lists::none(),
            includes: lists::none(),
            helpers: lists::none(),
            modules: lists::none(),
        }
    }
}

/// A deterministic, typed failure while expanding a service.
#[derive(Debug, PartialEq, Eq)]
pub enum ServiceResolutionFailure {
    /// The definition of a service that is brought along was absent.
    MissingInclude {
        /// Definition that referenced the missing service.
        referenced_by: ServiceName,
        /// Missing service identity.
        service: ServiceName,
    },
    /// The graph revisited an active path.
    Cycle {
        /// Exact path with the repeated service at its end.
        path: Vec<ServiceName>,
    },
    /// Nesting exceeded the documented finite limit.
    DepthLimit {
        /// Configured maximum depth.
        limit: usize,
        /// Exact path that exceeded the limit.
        path: Vec<ServiceName>,
    },
}

/// What a `ServiceResolutionFailure` models.
#[verifier::ext_equal]
pub enum ServiceResolutionFailureView {
    MissingInclude { referenced_by: Seq<char>, service: Seq<char> },
    Cycle { path: Seq<Seq<char>> },
    DepthLimit { limit: usize, path: Seq<Seq<char>> },
}

impl DeepView for ServiceResolutionFailure {
    type V = ServiceResolutionFailureView;

    open spec fn deep_view(&self) -> ServiceResolutionFailureView {
        match self {
            ServiceResolutionFailure::MissingInclude { referenced_by, service } =>
                ServiceResolutionFailureView::MissingInclude {
                    referenced_by: referenced_by.deep_view(),
                    service: service.deep_view(),
                },
            ServiceResolutionFailure::Cycle { path } => ServiceResolutionFailureView::Cycle {
                path: path.deep_view()
            },
            ServiceResolutionFailure::DepthLimit { limit, path } =>
                ServiceResolutionFailureView::DepthLimit {
                    limit: limit.deep_view(),
                    path: path.deep_view(),
                },
        }
    }
}

impl Value for ServiceResolutionFailure {
    fn same(&self, other: &Self) -> (r: bool) {
        match (self, other) {
            (
                ServiceResolutionFailure::MissingInclude { referenced_by, service },
                ServiceResolutionFailure::MissingInclude {
                    referenced_by: referenced_by_other,
                    service: service_other,
                },
            ) => referenced_by.same(referenced_by_other) && service.same(service_other),
            (
                ServiceResolutionFailure::Cycle { path },
                ServiceResolutionFailure::Cycle { path: path_other },
            ) => path.same(path_other),
            (
                ServiceResolutionFailure::DepthLimit { limit, path },
                ServiceResolutionFailure::DepthLimit { limit: limit_other, path: path_other },
            ) => *limit == *limit_other && path.same(path_other),
            _ => false,
        }
    }

    fn dup(&self) -> (r: Self) {
        match self {
            ServiceResolutionFailure::MissingInclude { referenced_by, service } =>
                ServiceResolutionFailure::MissingInclude {
                    referenced_by: referenced_by.dup(),
                    service: service.dup(),
                },
            ServiceResolutionFailure::Cycle { path } => ServiceResolutionFailure::Cycle {
                path: path.dup()
            },
            ServiceResolutionFailure::DepthLimit { limit, path } =>
                ServiceResolutionFailure::DepthLimit { limit: *limit, path: path.dup() },
        }
    }
}

impl Clone for ServiceResolutionFailure {
    fn clone(&self) -> (r: Self)
        ensures
            r.deep_view() == self.deep_view(),
    {
        self.dup()
    }
}

impl ServiceResolutionFailureView {
    /// The sentence that describes the failure.
    pub open spec fn message(self) -> Seq<char> {
        match self {
            ServiceResolutionFailureView::MissingInclude { referenced_by, service } => "service `"@
                + referenced_by + "` includes missing definition `"@ + service + "`"@,
            ServiceResolutionFailureView::Cycle { path } => "service include cycle: "@
                + text::joined(path, " -> "@),
            ServiceResolutionFailureView::DepthLimit { limit, path } =>
                "service include depth exceeds "@ + number::decimal(limit as nat) + ": "@
                + text::joined(path, " -> "@),
        }
    }
}

fn format_path(path: &Vec<ServiceName>) -> (r: String)
    ensures
        r@ == text::joined(path.deep_view(), " -> "@),
{
    let mut parts: Vec<String> = Vec::new();
    let mut i: usize = 0;
    while i < path.len()
        invariant
            i <= path@.len(),
            parts@.len() == i,
            forall|j: int| 0 <= j < i ==> parts@[j]@ == #[trigger] path.deep_view()[j],
        decreases path.len() - i,
    {
        parts.push(path[i].as_str().to_owned());
        i = i + 1;
    }
    assert(parts.deep_view() =~= path.deep_view());
    text::join(&parts, " -> ")
}

impl ServiceResolutionFailure {
    /// The sentence that describes the failure.
    pub fn message(&self) -> (r: String)
        ensures
            r@ == self.deep_view().message(),
    {
        match self {
            ServiceResolutionFailure::MissingInclude { referenced_by, service } => text::cat5(
                "service `",
                referenced_by.as_str(),
                "` includes missing definition `",
                service.as_str(),
                "`",
            ),
            ServiceResolutionFailure::Cycle { path } => {
                let shown = format_path(path);
                text::cat2("service include cycle: ", shown.as_str())
            },
            ServiceResolutionFailure::DepthLimit { limit, path } => {
                let bound = number::show(*limit as u64);
                let shown = format_path(path);
                text::cat4("service include depth exceeds ", bound.as_str(), ": ", shown.as_str())
            },
        }
    }
}

/// Expanded evidence for one root service.
#[derive(Debug, PartialEq, Eq)]
pub struct ServiceResolution {
    /// Definitions visited in deterministic preorder.
    pub services: Vec<ServiceName>,
    /// Unique effective fields from the visited definitions.
    pub effective: ServiceDefinition,
    /// Typed resolution failures. Any entry makes the result incomplete.
    pub failures: Vec<ServiceResolutionFailure>,
}

/// What a `ServiceResolution` models.
#[verifier::ext_equal]
pub struct ServiceResolutionView {
    pub services: Seq<Seq<char>>,
    pub effective: ServiceDefinitionView,
    pub failures: Seq<ServiceResolutionFailureView>,
}

impl DeepView for ServiceResolution {
    type V = ServiceResolutionView;

    open spec fn deep_view(&self) -> ServiceResolutionView {
        ServiceResolutionView {
            services: self.services.deep_view(),
            effective: self.effective.deep_view(),
            failures: self.failures.deep_view(),
        }
    }
}

impl Value for ServiceResolution {
    fn same(&self, other: &Self) -> (r: bool) {
        self.services.same(&other.services)
            && self.effective.same(&other.effective)
            && self.failures.same(&other.failures)
    }

    fn dup(&self) -> (r: Self) {
        ServiceResolution {
            services: self.services.dup(),
            effective: self.effective.dup(),
            failures: self.failures.dup(),
        }
    }
}

impl Clone for ServiceResolution {
    fn clone(&self) -> (r: Self)
        ensures
            r.deep_view() == self.deep_view(),
    {
        self.dup()
    }
}

impl ServiceResolutionView {
    /// Nothing visited yet.
    pub open spec fn nothing() -> ServiceResolutionView {
        ServiceResolutionView {
            services: Seq::empty(),
            effective: ServiceDefinitionView::nothing(),
            failures: Seq::empty(),
        }
    }

    /// The resolution with one more failure.
    pub open spec fn failing(self, failure: ServiceResolutionFailureView) -> ServiceResolutionView {
        ServiceResolutionView { failures: self.failures.push(failure), ..self }
    }

    /// The resolution with one more definition visited.
    pub open spec fn entering(self, name: Seq<char>, definition: ServiceDefinitionView) -> Self {
        ServiceResolutionView {
            services: self.services.push(name),
            effective: self.effective.merged(definition),
            ..self
        }
    }
}

/// How far a depth is from where the walk stops.
pub open spec fn headroom(depth: int) -> nat {
    if depth > MAX_SERVICE_INCLUDE_DEPTH + 1 {
        0
    } else {
        (MAX_SERVICE_INCLUDE_DEPTH + 2 - depth) as nat
    }
}

/// The resolution `acc` after visiting `name`, which stands `depth` levels
/// below the root and is reached along `active`. A service on the active path
/// is a cycle; a depth beyond the limit ends the walk; a visited service is
/// not visited again; an unknown one is missing. Else its fields are merged
/// and the services that it brings along are visited in their order.
pub open spec fn visited(
    name: Seq<char>,
    referenced_by: Seq<char>,
    depth: int,
    definitions: Seq<(Seq<char>, ServiceDefinitionView)>,
    active: Seq<Seq<char>>,
    acc: ServiceResolutionView,
) -> ServiceResolutionView
    decreases headroom(depth), 0nat,
{
    if active.contains(name) {
        let path = active.skip(active.index_of_first(name)->0).push(name);
        acc.failing(ServiceResolutionFailureView::Cycle { path })
    } else if depth > MAX_SERVICE_INCLUDE_DEPTH {
        acc.failing(
            ServiceResolutionFailureView::DepthLimit {
                limit: MAX_SERVICE_INCLUDE_DEPTH,
                path: active.push(name),
            },
        )
    } else if acc.services.contains(name) {
        acc
    } else {
        match name_map::lookup(definitions, name) {
            None => acc.failing(
                ServiceResolutionFailureView::MissingInclude { referenced_by, service: name },
            ),
            Some(definition) => visited_all(
                definition.includes,
                0,
                name,
                depth + 1,
                definitions,
                active.push(name),
                acc.entering(name, definition),
            ),
        }
    }
}

/// The resolution `acc` after visiting the names from position `i` on.
pub open spec fn visited_all(
    names: Seq<Seq<char>>,
    i: int,
    referenced_by: Seq<char>,
    depth: int,
    definitions: Seq<(Seq<char>, ServiceDefinitionView)>,
    active: Seq<Seq<char>>,
    acc: ServiceResolutionView,
) -> ServiceResolutionView
    decreases headroom(depth), 1 + names.len() - i,
{
    if i < 0 || i >= names.len() {
        acc
    } else {
        visited_all(
            names,
            i + 1,
            referenced_by,
            depth,
            definitions,
            active,
            visited(names[i], referenced_by, depth, definitions, active, acc),
        )
    }
}

/// The resolution of one root service.
pub open spec fn resolved(
    root: Seq<char>,
    definitions: Seq<(Seq<char>, ServiceDefinitionView)>,
) -> ServiceResolutionView {
    visited(root, root, 0, definitions, Seq::empty(), ServiceResolutionView::nothing())
}

fn merge_definition(target: &mut ServiceDefinition, source: &ServiceDefinition)
    ensures
        final(target).deep_view() == old(target).deep_view().merged(source.deep_view()),
{
    lists::extend_unique(&mut target.ports, &source.ports);
    lists::extend_unique(&mut target.protocols, &source.protocols);
    lists::extend_unique(&mut target.source_ports, &source.source_ports);
    lists::extend_unique(&mut target.destinations, &source.destinations);
    lists::extend_unique(&mut target.helpers, &source.helpers);
    lists::extend_unique(&mut target.modules, &source.modules);
}

/// The first position of `name` in `path`, and the path from there on.
fn repeated(path: &Vec<ServiceName>, name: &ServiceName) -> (r: Option<Vec<ServiceName>>)
    ensures
        match r {
            Some(tail) => path.deep_view().contains(name.deep_view()) && tail.deep_view()
                == path.deep_view().skip(path.deep_view().index_of_first(name.deep_view())->0),
            None => !path.deep_view().contains(name.deep_view()),
        },
{
    let mut i: usize = 0;
    while i < path.len()
        invariant
            i <= path@.len(),
            forall|j: int| 0 <= j < i ==> path.deep_view()[j] != name.deep_view(),
        decreases path.len() - i,
    {
        if path[i].same(name) {
            proof {
                let p = path.deep_view();
                assert(p[i as int] == name.deep_view());
                p.index_of_first_ensures(name.deep_view());
                assert(p.index_of_first(name.deep_view()) == Some(i as int));
            }
            let mut tail: Vec<ServiceName> = Vec::new();
            let mut j: usize = i;
            while j < path.len()
                invariant
                    i <= j <= path@.len(),
                    tail@.len() == j - i,
                    forall|k: int|
                        0 <= k < j - i ==> #[trigger] tail@[k].deep_view() == path.deep_view()[i
                            + k],
                decreases path.len() - j,
            {
                tail.push(path[j].dup());
                j = j + 1;
            }
            assert(tail.deep_view() =~= path.deep_view().skip(i as int));
            return Some(tail);
        }
        i = i + 1;
    }
    None
}

fn visit_service(
    name: &ServiceName,
    referenced_by: &ServiceName,
    depth: usize,
    definitions: &NameMap<ServiceName, ServiceDefinition>,
    active: &Vec<ServiceName>,
    result: &mut ServiceResolution,
)
    requires
        depth <= MAX_SERVICE_INCLUDE_DEPTH + 1,
    ensures
        final(result).deep_view() == visited(
            name.deep_view(),
            referenced_by.deep_view(),
            depth as int,
            definitions.deep_view(),
            active.deep_view(),
            old(result).deep_view(),
        ),
    decreases headroom(depth as int), 0nat,
{
    if let Some(tail) = repeated(active, name) {
        let mut path = tail;
        lists::push(&mut path, name.dup());
        lists::push(&mut result.failures, ServiceResolutionFailure::Cycle { path });
        return;
    }
    if depth > MAX_SERVICE_INCLUDE_DEPTH {
        let mut path = active.dup();
        lists::push(&mut path, name.dup());
        lists::push(
            &mut result.failures,
            ServiceResolutionFailure::DepthLimit { limit: MAX_SERVICE_INCLUDE_DEPTH, path },
        );
        return;
    }
    if lists::contains(&result.services, name) {
        return;
    }
    match definitions.get(name) {
        None => {
            lists::push(
                &mut result.failures,
                ServiceResolutionFailure::MissingInclude {
                    referenced_by: referenced_by.dup(),
                    service: name.dup(),
                },
            );
        },
        Some(definition) => {
            let mut path = active.dup();
            lists::push(&mut path, name.dup());
            lists::push(&mut result.services, name.dup());
            merge_definition(&mut result.effective, definition);
            visit_all(&definition.includes, 0, name, depth + 1, definitions, &path, result);
        },
    }
}

fn visit_all(
    names: &Vec<ServiceName>,
    i: usize,
    referenced_by: &ServiceName,
    depth: usize,
    definitions: &NameMap<ServiceName, ServiceDefinition>,
    active: &Vec<ServiceName>,
    result: &mut ServiceResolution,
)
    requires
        depth <= MAX_SERVICE_INCLUDE_DEPTH + 1,
        i <= names.len(),
    ensures
        final(result).deep_view() == visited_all(
            names.deep_view(),
            i as int,
            referenced_by.deep_view(),
            depth as int,
            definitions.deep_view(),
            active.deep_view(),
            old(result).deep_view(),
        ),
    decreases headroom(depth as int), 1 + names.len() - i,
{
    if i < names.len() {
        visit_service(&names[i], referenced_by, depth, definitions, active, result);
        visit_all(names, i + 1, referenced_by, depth, definitions, active, result);
    }
}

/// Resolves the graph of services that one service brings along, in stable
/// declaration order.
pub fn resolve_service_includes(
    root: &ServiceName,
    definitions: &NameMap<ServiceName, ServiceDefinition>,
) -> (r: ServiceResolution)
    ensures
        r.deep_view() == resolved(root.deep_view(), definitions.deep_view()),
{
    let mut result = ServiceResolution {
        services: lists::none(),
        effective: ServiceDefinition::default(),
        failures: lists::none(),
    };
    let active: Vec<ServiceName> = lists::none();
    visit_service(root, root, 0, definitions, &active, &mut result);
    result
}

// ---------------------------------------------------------------------------
// What a resolution holds
// ---------------------------------------------------------------------------
/// The fields of the definitions of some services, merged in their order.
pub open spec fn gathered(
    definitions: Seq<(Seq<char>, ServiceDefinitionView)>,
    services: Seq<Seq<char>>,
) -> ServiceDefinitionView
    decreases services.len(),
{
    if services.len() == 0 {
        ServiceDefinitionView::nothing()
    } else {
        let rest = gathered(definitions, services.drop_last());
        match name_map::lookup(definitions, services.last()) {
            Some(definition) => rest.merged(definition),
            None => rest,
        }
    }
}

/// Each service was visited once, has a definition, and the effective fields
/// are those of the visited definitions.
pub open spec fn sound(
    definitions: Seq<(Seq<char>, ServiceDefinitionView)>,
    r: ServiceResolutionView,
) -> bool {
    &&& r.services.no_duplicates()
    &&& forall|i: int|
        0 <= i < r.services.len() ==> name_map::lookup(
            definitions,
            #[trigger] r.services[i],
        ) is Some
    &&& r.effective == gathered(definitions, r.services)
}

/// Whatever the visited service `s` brings along was visited too.
pub open spec fn settled(
    definitions: Seq<(Seq<char>, ServiceDefinitionView)>,
    services: Seq<Seq<char>>,
    s: Seq<char>,
) -> bool {
    name_map::lookup(definitions, s) matches Some(definition) ==> forall|i: int|
        0 <= i < definition.includes.len() ==> services.contains(#[trigger] definition.includes[i])
}

spec fn settled_off_path(
    definitions: Seq<(Seq<char>, ServiceDefinitionView)>,
    services: Seq<Seq<char>>,
    active: Seq<Seq<char>>,
) -> bool {
    forall|s: Seq<char>|
        services.contains(s) && !active.contains(s) ==> #[trigger] settled(definitions, services, s)
}

spec fn extends(r: ServiceResolutionView, acc: ServiceResolutionView) -> bool {
    &&& acc.services.is_prefix_of(r.services)
    &&& acc.failures.is_prefix_of(r.failures)
}

proof fn entering_stays_sound(
    definitions: Seq<(Seq<char>, ServiceDefinitionView)>,
    name: Seq<char>,
    definition: ServiceDefinitionView,
    acc: ServiceResolutionView,
)
    requires
        sound(definitions, acc),
        !acc.services.contains(name),
        name_map::lookup(definitions, name) == Some(definition),
    ensures
        sound(definitions, acc.entering(name, definition)),
        extends(acc.entering(name, definition), acc),
{
    let r = acc.entering(name, definition);
    assert(r.services.drop_last() =~= acc.services);
    assert forall|i: int, j: int|
        0 <= i < r.services.len() && 0 <= j < r.services.len() && i != j implies r.services[i]
        != r.services[j] by {
        if i < acc.services.len() {
            assert(acc.services.contains(acc.services[i]));
        }
        if j < acc.services.len() {
            assert(acc.services.contains(acc.services[j]));
        }
    }
}

proof fn visiting_extends(
    name: Seq<char>,
    referenced_by: Seq<char>,
    depth: int,
    definitions: Seq<(Seq<char>, ServiceDefinitionView)>,
    active: Seq<Seq<char>>,
    acc: ServiceResolutionView,
)
    requires
        sound(definitions, acc),
    ensures
        sound(definitions, visited(name, referenced_by, depth, definitions, active, acc)),
        extends(visited(name, referenced_by, depth, definitions, active, acc), acc),
    decreases headroom(depth), 0nat,
{
    if !active.contains(
        name,
    ) && depth <= MAX_SERVICE_INCLUDE_DEPTH && !acc.services.contains(name) {
        if let Some(definition) = name_map::lookup(definitions, name) {
            entering_stays_sound(definitions, name, definition, acc);
            visiting_all_extends(
                definition.includes,
                0,
                name,
                depth + 1,
                definitions,
                active.push(name),
                acc.entering(name, definition),
            );
        }
    }
}

proof fn visiting_all_extends(
    names: Seq<Seq<char>>,
    i: int,
    referenced_by: Seq<char>,
    depth: int,
    definitions: Seq<(Seq<char>, ServiceDefinitionView)>,
    active: Seq<Seq<char>>,
    acc: ServiceResolutionView,
)
    requires
        sound(definitions, acc),
    ensures
        sound(definitions, visited_all(names, i, referenced_by, depth, definitions, active, acc)),
        extends(visited_all(names, i, referenced_by, depth, definitions, active, acc), acc),
    decreases headroom(depth), 1 + names.len() - i,
{
    if 0 <= i < names.len() {
        visiting_extends(names[i], referenced_by, depth, definitions, active, acc);
        let next = visited(names[i], referenced_by, depth, definitions, active, acc);
        visiting_all_extends(names, i + 1, referenced_by, depth, definitions, active, next);
        let r = visited_all(names, i + 1, referenced_by, depth, definitions, active, next);
        assert(acc.services =~= r.services.subrange(0, acc.services.len() as int));
        assert(acc.failures =~= r.failures.subrange(0, acc.failures.len() as int));
    }
}

proof fn prefix_is_held(a: Seq<Seq<char>>, b: Seq<Seq<char>>, s: Seq<char>)
    requires
        a.is_prefix_of(b),
        a.contains(s),
    ensures
        b.contains(s),
{
    let k = choose|k: int| 0 <= k < a.len() && a[k] == s;
    assert(b.subrange(0, a.len() as int)[k] == b[k]);
    assert(b[k] == s);
}

proof fn visiting_settles(
    name: Seq<char>,
    referenced_by: Seq<char>,
    depth: int,
    definitions: Seq<(Seq<char>, ServiceDefinitionView)>,
    active: Seq<Seq<char>>,
    acc: ServiceResolutionView,
)
    requires
        sound(definitions, acc),
        settled_off_path(definitions, acc.services, active),
        visited(name, referenced_by, depth, definitions, active, acc).failures == acc.failures,
    ensures
        ({
            let r = visited(name, referenced_by, depth, definitions, active, acc);
            r.services.contains(name) && settled_off_path(definitions, r.services, active)
        }),
    decreases headroom(depth), 0nat,
{
    let r = visited(name, referenced_by, depth, definitions, active, acc);
    assert(r.failures.len() == acc.failures.len());
    if !active.contains(
        name,
    ) && depth <= MAX_SERVICE_INCLUDE_DEPTH && !acc.services.contains(name) {
        if let Some(definition) = name_map::lookup(definitions, name) {
            let path = active.push(name);
            let entered = acc.entering(name, definition);
            entering_stays_sound(definitions, name, definition, acc);
            assert(path.last() == name);
            assert(path.contains(name));
            assert forall|s: Seq<char>|
                entered.services.contains(s) && !path.contains(s) implies #[trigger] settled(
                definitions,
                entered.services,
                s,
            ) by {
                let k = choose|k: int| 0 <= k < entered.services.len() && entered.services[k] == s;
                assert(k < acc.services.len());
                assert(acc.services[k] == s);
                if active.contains(s) {
                    let m = choose|m: int| 0 <= m < active.len() && active[m] == s;
                    assert(path[m] == s);
                }
                assert(settled(definitions, acc.services, s));
                if let Some(d) = name_map::lookup(definitions, s) {
                    assert forall|i: int| 0 <= i < d.includes.len() implies entered.services.contains(
                        #[trigger] d.includes[i],
                    ) by {
                        prefix_is_held(acc.services, entered.services, d.includes[i]);
                    }
                }
            }
            visiting_all_settles(
                definition.includes,
                0,
                name,
                depth + 1,
                definitions,
                path,
                entered,
            );
            visiting_all_extends(
                definition.includes,
                0,
                name,
                depth + 1,
                definitions,
                path,
                entered,
            );
            assert(entered.services.last() == name);
            prefix_is_held(entered.services, r.services, name);
            assert forall|s: Seq<char>|
                r.services.contains(s) && !active.contains(s) implies #[trigger] settled(
                definitions,
                r.services,
                s,
            ) by {
                if s != name {
                    if path.contains(s) {
                        let m = choose|m: int| 0 <= m < path.len() && path[m] == s;
                        assert(active[m] == s);
                    }
                }
            }
        }
    }
}

proof fn visiting_all_settles(
    names: Seq<Seq<char>>,
    i: int,
    referenced_by: Seq<char>,
    depth: int,
    definitions: Seq<(Seq<char>, ServiceDefinitionView)>,
    active: Seq<Seq<char>>,
    acc: ServiceResolutionView,
)
    requires
        0 <= i <= names.len(),
        sound(definitions, acc),
        settled_off_path(definitions, acc.services, active),
        visited_all(names, i, referenced_by, depth, definitions, active, acc).failures
            == acc.failures,
    ensures
        ({
            let r = visited_all(names, i, referenced_by, depth, definitions, active, acc);
            &&& forall|j: int| i <= j < names.len() ==> r.services.contains(#[trigger] names[j])
            &&& settled_off_path(definitions, r.services, active)
        }),
    decreases headroom(depth), 1 + names.len() - i,
{
    if i < names.len() {
        let next = visited(names[i], referenced_by, depth, definitions, active, acc);
        let r = visited_all(names, i + 1, referenced_by, depth, definitions, active, next);
        visiting_extends(names[i], referenced_by, depth, definitions, active, acc);
        visiting_all_extends(names, i + 1, referenced_by, depth, definitions, active, next);
        assert(next.failures =~= acc.failures);
        visiting_settles(names[i], referenced_by, depth, definitions, active, acc);
        visiting_all_settles(names, i + 1, referenced_by, depth, definitions, active, next);
        prefix_is_held(next.services, r.services, names[i]);
    }
}

/// A resolution visits no service twice, visits only services that have a
/// definition, and its effective fields are those of the visited definitions,
/// merged in the order of the visits.
pub proof fn resolution_is_sound(
    root: Seq<char>,
    definitions: Seq<(Seq<char>, ServiceDefinitionView)>,
)
    ensures
        sound(definitions, resolved(root, definitions)),
{
    visiting_extends(root, root, 0, definitions, Seq::empty(), ServiceResolutionView::nothing());
}

/// A defined root is visited first.
pub proof fn root_comes_first(root: Seq<char>, definitions: Seq<(Seq<char>, ServiceDefinitionView)>)
    requires
        name_map::lookup(definitions, root) is Some,
    ensures
        resolved(root, definitions).services.len() > 0,
        resolved(root, definitions).services[0] == root,
{
    let start = ServiceResolutionView::nothing();
    if let Some(definition) = name_map::lookup(definitions, root) {
        entering_stays_sound(definitions, root, definition, start);
        let entered = start.entering(root, definition);
        let path = Seq::<Seq<char>>::empty().push(root);
        visiting_all_extends(definition.includes, 0, root, 1, definitions, path, entered);
        let r = resolved(root, definitions);
        assert(entered.services[0] == root);
        assert(r.services.subrange(0, 1)[0] == r.services[0]);
    }
}

/// An unknown root is the one failure, and nothing is visited.
pub proof fn unknown_root_resolves_to_nothing(
    root: Seq<char>,
    definitions: Seq<(Seq<char>, ServiceDefinitionView)>,
)
    requires
        name_map::lookup(definitions, root) is None,
    ensures
        resolved(root, definitions) == ServiceResolutionView::nothing().failing(
            ServiceResolutionFailureView::MissingInclude { referenced_by: root, service: root },
        ),
{
}

/// A resolution without failures is complete: it visited the root and, of
/// every visited service, all the services that it brings along.
pub proof fn resolution_without_failures_is_complete(
    root: Seq<char>,
    definitions: Seq<(Seq<char>, ServiceDefinitionView)>,
)
    requires
        resolved(root, definitions).failures.len() == 0,
    ensures
        resolved(root, definitions).services.contains(root),
        forall|s: Seq<char>|
            resolved(root, definitions).services.contains(s) ==> #[trigger] settled(
                definitions,
                resolved(root, definitions).services,
                s,
            ),
{
    let start = ServiceResolutionView::nothing();
    let nowhere = Seq::<Seq<char>>::empty();
    assert(resolved(root, definitions).failures =~= start.failures);
    visiting_settles(root, root, 0, definitions, nowhere, start);
    let r = resolved(root, definitions);
    assert forall|s: Seq<char>| r.services.contains(s) implies #[trigger] settled(
        definitions,
        r.services,
        s,
    ) by {
        assert(!nowhere.contains(s));
    }
}

/// A way from one service to another: each step goes to a service that the one
/// before it brings along.
pub open spec fn leads(
    definitions: Seq<(Seq<char>, ServiceDefinitionView)>,
    way: Seq<Seq<char>>,
) -> bool {
    forall|i: int|
        0 <= i < way.len() - 1 ==> (name_map::lookup(definitions, #[trigger] way[i]) matches Some(
            definition,
        ) && definition.includes.contains(way[i + 1]))
}

/// The service is the root or is brought along by it, directly or not.
pub open spec fn reachable(
    definitions: Seq<(Seq<char>, ServiceDefinitionView)>,
    root: Seq<char>,
    service: Seq<char>,
) -> bool {
    exists|way: Seq<Seq<char>>|
        way.len() > 0 && way[0] == root && way.last() == service && #[trigger] leads(
            definitions,
            way,
        )
}

spec fn all_reachable(
    definitions: Seq<(Seq<char>, ServiceDefinitionView)>,
    root: Seq<char>,
    services: Seq<Seq<char>>,
) -> bool {
    forall|i: int| 0 <= i < services.len() ==> reachable(definitions, root, #[trigger] services[i])
}

proof fn one_step_further(
    definitions: Seq<(Seq<char>, ServiceDefinitionView)>,
    root: Seq<char>,
    service: Seq<char>,
    definition: ServiceDefinitionView,
    i: int,
)
    requires
        reachable(definitions, root, service),
        name_map::lookup(definitions, service) == Some(definition),
        0 <= i < definition.includes.len(),
    ensures
        reachable(definitions, root, definition.includes[i]),
{
    let way = choose|way: Seq<Seq<char>>|
        way.len() > 0 && way[0] == root && way.last() == service && #[trigger] leads(
            definitions,
            way,
        );
    let next = definition.includes[i];
    let further = way.push(next);
    assert forall|k: int| 0 <= k < further.len() - 1 implies (name_map::lookup(
        definitions,
        #[trigger] further[k],
    ) matches Some(d) && d.includes.contains(further[k + 1])) by {
        assert(further[k] == way[k]);
        if k < way.len() - 1 {
            assert(further[k + 1] == way[k + 1]);
        } else {
            assert(further[k + 1] == next);
            assert(definition.includes.contains(next));
        }
    }
    assert(leads(definitions, further));
    assert(further[0] == root && further.last() == next);
}

proof fn visiting_reaches(
    root: Seq<char>,
    name: Seq<char>,
    referenced_by: Seq<char>,
    depth: int,
    definitions: Seq<(Seq<char>, ServiceDefinitionView)>,
    active: Seq<Seq<char>>,
    acc: ServiceResolutionView,
)
    requires
        reachable(definitions, root, name),
        all_reachable(definitions, root, acc.services),
    ensures
        all_reachable(
            definitions,
            root,
            visited(name, referenced_by, depth, definitions, active, acc).services,
        ),
    decreases headroom(depth), 0nat,
{
    if !active.contains(name) && depth <= MAX_SERVICE_INCLUDE_DEPTH && !acc.services.contains(
        name,
    ) {
        if let Some(definition) = name_map::lookup(definitions, name) {
            assert forall|i: int| 0 <= i < definition.includes.len() implies reachable(
                definitions,
                root,
                #[trigger] definition.includes[i],
            ) by {
                one_step_further(definitions, root, name, definition, i);
            }
            visiting_all_reaches(
                root,
                definition.includes,
                0,
                name,
                depth + 1,
                definitions,
                active.push(name),
                acc.entering(name, definition),
            );
        }
    }
}

proof fn visiting_all_reaches(
    root: Seq<char>,
    names: Seq<Seq<char>>,
    i: int,
    referenced_by: Seq<char>,
    depth: int,
    definitions: Seq<(Seq<char>, ServiceDefinitionView)>,
    active: Seq<Seq<char>>,
    acc: ServiceResolutionView,
)
    requires
        all_reachable(definitions, root, names),
        all_reachable(definitions, root, acc.services),
    ensures
        all_reachable(
            definitions,
            root,
            visited_all(names, i, referenced_by, depth, definitions, active, acc).services,
        ),
    decreases headroom(depth), 1 + names.len() - i,
{
    if 0 <= i < names.len() {
        visiting_reaches(root, names[i], referenced_by, depth, definitions, active, acc);
        let next = visited(names[i], referenced_by, depth, definitions, active, acc);
        visiting_all_reaches(root, names, i + 1, referenced_by, depth, definitions, active, next);
    }
}

/// Every service that a resolution visits is the root or is brought along by
/// it, directly or not.
pub proof fn visited_services_are_reachable(
    root: Seq<char>,
    definitions: Seq<(Seq<char>, ServiceDefinitionView)>,
    i: int,
)
    requires
        0 <= i < resolved(root, definitions).services.len(),
    ensures
        reachable(definitions, root, resolved(root, definitions).services[i]),
{
    let here = seq![root];
    assert(leads(definitions, here));
    assert(here[0] == root && here.last() == root);
    let start = ServiceResolutionView::nothing();
    visiting_reaches(root, root, root, 0, definitions, Seq::empty(), start);
}

/// A module name has no white space to trim.
proof fn module_names_are_tokens(name: Seq<char>)
    requires
        module_objection(name, name) is None,
    ensures
        text::trimmed(name) == name,
{
    let extra = seq!['_', '-', '.'];
    ids::identifiers_are_safe_tokens(name, "service module name"@, 64, extra);
    text::tokens_stay_whole(name);
}

/// One of the services has a definition with the item in its list.
pub open spec fn some_lists<A>(
    definitions: Seq<(Seq<char>, ServiceDefinitionView)>,
    services: Seq<Seq<char>>,
    list: spec_fn(ServiceDefinitionView) -> Seq<A>,
    item: A,
) -> bool {
    exists|i: int|
        0 <= i < services.len() && (name_map::lookup(
            definitions,
            #[trigger] services[i],
        ) matches Some(d) && list(d).contains(item))
}

proof fn one_more_lists<A>(
    definitions: Seq<(Seq<char>, ServiceDefinitionView)>,
    services: Seq<Seq<char>>,
    list: spec_fn(ServiceDefinitionView) -> Seq<A>,
    item: A,
)
    requires
        services.len() > 0,
    ensures
        some_lists(definitions, services, list, item) == (some_lists(
            definitions,
            services.drop_last(),
            list,
            item,
        ) || (name_map::lookup(definitions, services.last()) matches Some(d) && list(d).contains(
            item,
        ))),
{
    let rest = services.drop_last();
    let hit = |s: Seq<char>|
        name_map::lookup(definitions, s) matches Some(d) && list(d).contains(item);
    assert(services[services.len() - 1] == services.last());
    if some_lists(definitions, services, list, item) {
        let i = choose|i: int|
            0 <= i < services.len() && (name_map::lookup(
                definitions,
                #[trigger] services[i],
            ) matches Some(d) && list(d).contains(item));
        if i < rest.len() {
            assert(rest[i] == services[i]);
        }
    }
    if some_lists(definitions, rest, list, item) {
        let i = choose|i: int|
            0 <= i < rest.len() && (name_map::lookup(
                definitions,
                #[trigger] rest[i],
            ) matches Some(d) && list(d).contains(item));
        assert(services[i] == rest[i]);
    }
}

proof fn gathered_ports(
    definitions: Seq<(Seq<char>, ServiceDefinitionView)>,
    services: Seq<Seq<char>>,
    item: PortSpecView,
)
    ensures
        gathered(definitions, services).ports.contains(item) == some_lists(
            definitions,
            services,
            |d: ServiceDefinitionView| d.ports,
            item,
        ),
    decreases services.len(),
{
    if services.len() > 0 {
        let rest = services.drop_last();
        gathered_ports(definitions, rest, item);
        one_more_lists(definitions, services, |d: ServiceDefinitionView| d.ports, item);
        if let Some(d) = name_map::lookup(definitions, services.last()) {
            lists::union_contains(gathered(definitions, rest).ports, d.ports, item);
        }
    }
}

proof fn gathered_protocols(
    definitions: Seq<(Seq<char>, ServiceDefinitionView)>,
    services: Seq<Seq<char>>,
    item: Seq<char>,
)
    ensures
        gathered(definitions, services).protocols.contains(item) == some_lists(
            definitions,
            services,
            |d: ServiceDefinitionView| d.protocols,
            item,
        ),
    decreases services.len(),
{
    if services.len() > 0 {
        let rest = services.drop_last();
        gathered_protocols(definitions, rest, item);
        one_more_lists(definitions, services, |d: ServiceDefinitionView| d.protocols, item);
        if let Some(d) = name_map::lookup(definitions, services.last()) {
            lists::union_contains(gathered(definitions, rest).protocols, d.protocols, item);
        }
    }
}

proof fn gathered_source_ports(
    definitions: Seq<(Seq<char>, ServiceDefinitionView)>,
    services: Seq<Seq<char>>,
    item: PortSpecView,
)
    ensures
        gathered(definitions, services).source_ports.contains(item) == some_lists(
            definitions,
            services,
            |d: ServiceDefinitionView| d.source_ports,
            item,
        ),
    decreases services.len(),
{
    if services.len() > 0 {
        let rest = services.drop_last();
        gathered_source_ports(definitions, rest, item);
        one_more_lists(definitions, services, |d: ServiceDefinitionView| d.source_ports, item);
        if let Some(d) = name_map::lookup(definitions, services.last()) {
            lists::union_contains(gathered(definitions, rest).source_ports, d.source_ports, item);
        }
    }
}

proof fn gathered_destinations(
    definitions: Seq<(Seq<char>, ServiceDefinitionView)>,
    services: Seq<Seq<char>>,
    item: ServiceDestinationView,
)
    ensures
        gathered(definitions, services).destinations.contains(item) == some_lists(
            definitions,
            services,
            |d: ServiceDefinitionView| d.destinations,
            item,
        ),
    decreases services.len(),
{
    if services.len() > 0 {
        let rest = services.drop_last();
        gathered_destinations(definitions, rest, item);
        one_more_lists(definitions, services, |d: ServiceDefinitionView| d.destinations, item);
        if let Some(d) = name_map::lookup(definitions, services.last()) {
            lists::union_contains(gathered(definitions, rest).destinations, d.destinations, item);
        }
    }
}

proof fn gathered_helpers(
    definitions: Seq<(Seq<char>, ServiceDefinitionView)>,
    services: Seq<Seq<char>>,
    item: Seq<char>,
)
    ensures
        gathered(definitions, services).helpers.contains(item) == some_lists(
            definitions,
            services,
            |d: ServiceDefinitionView| d.helpers,
            item,
        ),
    decreases services.len(),
{
    if services.len() > 0 {
        let rest = services.drop_last();
        gathered_helpers(definitions, rest, item);
        one_more_lists(definitions, services, |d: ServiceDefinitionView| d.helpers, item);
        if let Some(d) = name_map::lookup(definitions, services.last()) {
            lists::union_contains(gathered(definitions, rest).helpers, d.helpers, item);
        }
    }
}

proof fn gathered_modules(
    definitions: Seq<(Seq<char>, ServiceDefinitionView)>,
    services: Seq<Seq<char>>,
    item: Seq<char>,
)
    ensures
        gathered(definitions, services).modules.contains(item) == some_lists(
            definitions,
            services,
            |d: ServiceDefinitionView| d.modules,
            item,
        ),
    decreases services.len(),
{
    if services.len() > 0 {
        let rest = services.drop_last();
        gathered_modules(definitions, rest, item);
        one_more_lists(definitions, services, |d: ServiceDefinitionView| d.modules, item);
        if let Some(d) = name_map::lookup(definitions, services.last()) {
            lists::union_contains(gathered(definitions, rest).modules, d.modules, item);
        }
    }
}

/// A resolution opens exactly what the visited services open, each kind of
/// item by its own kind: ports by ports, source ports by source ports,
/// protocols, destinations, helpers and modules alike. What they bring along
/// is visited, not merged.
pub proof fn resolutions_open_what_their_services_open(
    root: Seq<char>,
    definitions: Seq<(Seq<char>, ServiceDefinitionView)>,
    port: PortSpecView,
    name: Seq<char>,
    destination: ServiceDestinationView,
)
    ensures
        ({
            let r = resolved(root, definitions);
            &&& r.effective.ports.contains(port) == some_lists(
                definitions,
                r.services,
                |d: ServiceDefinitionView| d.ports,
                port,
            )
            &&& r.effective.source_ports.contains(port) == some_lists(
                definitions,
                r.services,
                |d: ServiceDefinitionView| d.source_ports,
                port,
            )
            &&& r.effective.protocols.contains(name) == some_lists(
                definitions,
                r.services,
                |d: ServiceDefinitionView| d.protocols,
                name,
            )
            &&& r.effective.destinations.contains(destination) == some_lists(
                definitions,
                r.services,
                |d: ServiceDefinitionView| d.destinations,
                destination,
            )
            &&& r.effective.helpers.contains(name) == some_lists(
                definitions,
                r.services,
                |d: ServiceDefinitionView| d.helpers,
                name,
            )
            &&& r.effective.modules.contains(name) == some_lists(
                definitions,
                r.services,
                |d: ServiceDefinitionView| d.modules,
                name,
            )
            &&& r.effective.includes.len() == 0
        }),
{
    let r = resolved(root, definitions);
    resolution_is_sound(root, definitions);
    gathered_ports(definitions, r.services, port);
    gathered_source_ports(definitions, r.services, port);
    gathered_protocols(definitions, r.services, name);
    gathered_destinations(definitions, r.services, destination);
    gathered_helpers(definitions, r.services, name);
    gathered_modules(definitions, r.services, name);
    gathered_brings_nothing(definitions, r.services);
}

proof fn gathered_brings_nothing(
    definitions: Seq<(Seq<char>, ServiceDefinitionView)>,
    services: Seq<Seq<char>>,
)
    ensures
        gathered(definitions, services).includes.len() == 0,
    decreases services.len(),
{
    if services.len() > 0 {
        gathered_brings_nothing(definitions, services.drop_last());
    }
}

/// A failure is what it says: a missing service has no definition and is the
/// root or brought along by the service that it names; a cycle is a way from a
/// service back to itself; a way that is too long starts at the root and has
/// one step more than the limit allows.
pub open spec fn truthful(
    definitions: Seq<(Seq<char>, ServiceDefinitionView)>,
    root: Seq<char>,
    failure: ServiceResolutionFailureView,
) -> bool {
    match failure {
        ServiceResolutionFailureView::MissingInclude { referenced_by, service } => {
            &&& name_map::lookup(definitions, service) is None
            &&& (referenced_by == root && service == root) || (name_map::lookup(
                definitions,
                referenced_by,
            ) matches Some(d) && d.includes.contains(service))
        },
        ServiceResolutionFailureView::Cycle { path } => {
            &&& path.len() >= 2
            &&& path[0] == path.last()
            &&& leads(definitions, path)
        },
        ServiceResolutionFailureView::DepthLimit { limit, path } => {
            &&& limit == MAX_SERVICE_INCLUDE_DEPTH
            &&& path.len() == MAX_SERVICE_INCLUDE_DEPTH + 2
            &&& path[0] == root
            &&& leads(definitions, path)
        },
    }
}

spec fn all_truthful(
    definitions: Seq<(Seq<char>, ServiceDefinitionView)>,
    root: Seq<char>,
    failures: Seq<ServiceResolutionFailureView>,
) -> bool {
    forall|i: int| 0 <= i < failures.len() ==> truthful(definitions, root, #[trigger] failures[i])
}

/// The way walked so far, with the next service: it starts at the root, is as
/// long as the depth says, and each step is one that the service before brings
/// along.
spec fn on_course(
    definitions: Seq<(Seq<char>, ServiceDefinitionView)>,
    root: Seq<char>,
    active: Seq<Seq<char>>,
    name: Seq<char>,
    referenced_by: Seq<char>,
    depth: int,
) -> bool {
    &&& active.len() == depth
    &&& leads(definitions, active.push(name))
    &&& active.push(name)[0] == root
    &&& depth == 0 ==> referenced_by == root && name == root
    &&& depth > 0 ==> active.last() == referenced_by
}

proof fn visiting_fails_truthfully(
    root: Seq<char>,
    name: Seq<char>,
    referenced_by: Seq<char>,
    depth: int,
    definitions: Seq<(Seq<char>, ServiceDefinitionView)>,
    active: Seq<Seq<char>>,
    acc: ServiceResolutionView,
)
    requires
        0 <= depth <= MAX_SERVICE_INCLUDE_DEPTH + 1,
        on_course(definitions, root, active, name, referenced_by, depth),
        all_truthful(definitions, root, acc.failures),
    ensures
        all_truthful(
            definitions,
            root,
            visited(name, referenced_by, depth, definitions, active, acc).failures,
        ),
    decreases headroom(depth), 0nat,
{
    let way = active.push(name);
    if active.contains(name) {
        let k = active.index_of_first(name)->0;
        active.index_of_first_ensures(name);
        let path = active.skip(k).push(name);
        assert(path[0] == active[k]);
        assert forall|i: int| 0 <= i < path.len() - 1 implies (name_map::lookup(
            definitions,
            #[trigger] path[i],
        ) matches Some(d) && d.includes.contains(path[i + 1])) by {
            assert(path[i] == way[k + i]);
            assert(path[i + 1] == way[k + i + 1]);
        }
    } else if depth <= MAX_SERVICE_INCLUDE_DEPTH && !acc.services.contains(name) {
        if let Some(definition) = name_map::lookup(definitions, name) {
            visiting_all_fails_truthfully(
                root,
                definition.includes,
                0,
                name,
                depth + 1,
                definitions,
                way,
                acc.entering(name, definition),
            );
        } else if depth > 0 {
            assert(way[depth - 1] == referenced_by && way[depth] == name);
        }
    }
}

proof fn visiting_all_fails_truthfully(
    root: Seq<char>,
    names: Seq<Seq<char>>,
    i: int,
    referenced_by: Seq<char>,
    depth: int,
    definitions: Seq<(Seq<char>, ServiceDefinitionView)>,
    active: Seq<Seq<char>>,
    acc: ServiceResolutionView,
)
    requires
        0 < depth <= MAX_SERVICE_INCLUDE_DEPTH + 1,
        0 <= i,
        active.len() == depth,
        leads(definitions, active),
        active[0] == root,
        active.last() == referenced_by,
        name_map::lookup(definitions, referenced_by) matches Some(d) && d.includes == names,
        all_truthful(definitions, root, acc.failures),
    ensures
        all_truthful(
            definitions,
            root,
            visited_all(names, i, referenced_by, depth, definitions, active, acc).failures,
        ),
    decreases headroom(depth), 1 + names.len() - i,
{
    if i < names.len() {
        let way = active.push(names[i]);
        assert forall|k: int| 0 <= k < way.len() - 1 implies (name_map::lookup(
            definitions,
            #[trigger] way[k],
        ) matches Some(d) && d.includes.contains(way[k + 1])) by {
            if k < active.len() - 1 {
                assert(way[k] == active[k] && way[k + 1] == active[k + 1]);
            } else {
                assert(way[k] == referenced_by);
                assert(names.contains(names[i]));
            }
        }
        visiting_fails_truthfully(
            root,
            names[i],
            referenced_by,
            depth,
            definitions,
            active,
            acc,
        );
        let next = visited(names[i], referenced_by, depth, definitions, active, acc);
        visiting_all_fails_truthfully(
            root,
            names,
            i + 1,
            referenced_by,
            depth,
            definitions,
            active,
            next,
        );
    }
}

/// Every failure of a resolution is what it says.
pub proof fn failures_are_truthful(
    root: Seq<char>,
    definitions: Seq<(Seq<char>, ServiceDefinitionView)>,
    i: int,
)
    requires
        0 <= i < resolved(root, definitions).failures.len(),
    ensures
        truthful(definitions, root, resolved(root, definitions).failures[i]),
{
    let start = ServiceResolutionView::nothing();
    let none = Seq::<Seq<char>>::empty();
    assert(leads(definitions, none.push(root)));
    visiting_fails_truthfully(root, root, root, 0, definitions, none, start);
}

} // verus!
