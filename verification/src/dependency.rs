//! Typed dependency edges from policy objects to zones and services.
//! Consumers use this graph for impact previews and fail-closed validation.

use vstd::prelude::*;

use crate::ids::{PolicyName, ServiceName};
use crate::lists;
use crate::model::Value;
use crate::name_map;
use crate::name_map::NameMap;
use crate::policy::{PolicyDetails, PolicyDetailsView};
use crate::snapshot::{ConfigurationTarget, FirewallSnapshot, FirewallSnapshotView};
use crate::text;

verus! {

/// The resource and direction referenced by one policy edge.
#[derive(Debug, PartialEq, Eq, PartialOrd, Ord)]
pub enum PolicyDependencyResource {
    /// Traffic entering the policy from this zone.
    IngressZone(String),
    /// Traffic leaving the policy toward this zone.
    EgressZone(String),
    /// A service allowed by the policy.
    Service(ServiceName),
}

/// What a `PolicyDependencyResource` models.
#[verifier::ext_equal]
pub enum PolicyDependencyResourceView {
    IngressZone(Seq<char>),
    EgressZone(Seq<char>),
    Service(Seq<char>),
}

impl DeepView for PolicyDependencyResource {
    type V = PolicyDependencyResourceView;

    open spec fn deep_view(&self) -> PolicyDependencyResourceView {
        match self {
            PolicyDependencyResource::IngressZone(x0) => PolicyDependencyResourceView::IngressZone(
                x0.deep_view(),
            ),
            PolicyDependencyResource::EgressZone(x0) => PolicyDependencyResourceView::EgressZone(
                x0.deep_view(),
            ),
            PolicyDependencyResource::Service(x0) => PolicyDependencyResourceView::Service(
                x0.deep_view(),
            ),
        }
    }
}

impl Value for PolicyDependencyResource {
    fn same(&self, other: &Self) -> (r: bool) {
        match (self, other) {
            (
                PolicyDependencyResource::IngressZone(x0),
                PolicyDependencyResource::IngressZone(x0_other),
            ) => x0.same(x0_other),
            (
                PolicyDependencyResource::EgressZone(x0),
                PolicyDependencyResource::EgressZone(x0_other),
            ) => x0.same(x0_other),
            (PolicyDependencyResource::Service(x0), PolicyDependencyResource::Service(x0_other)) =>
                x0.same(x0_other),
            _ => false,
        }
    }

    fn dup(&self) -> (r: Self) {
        match self {
            PolicyDependencyResource::IngressZone(x0) => PolicyDependencyResource::IngressZone(
                x0.dup(),
            ),
            PolicyDependencyResource::EgressZone(x0) => PolicyDependencyResource::EgressZone(
                x0.dup(),
            ),
            PolicyDependencyResource::Service(x0) => PolicyDependencyResource::Service(x0.dup()),
        }
    }
}

impl Clone for PolicyDependencyResource {
    fn clone(&self) -> (r: Self)
        ensures
            r.deep_view() == self.deep_view(),
    {
        self.dup()
    }
}

/// One typed policy dependency edge.
#[derive(Debug, PartialEq, Eq, PartialOrd, Ord)]
pub struct PolicyDependency {
    /// Policy that owns the reference.
    pub policy: PolicyName,
    /// Referenced resource and its role.
    pub resource: PolicyDependencyResource,
}

/// What a `PolicyDependency` models.
#[verifier::ext_equal]
pub struct PolicyDependencyView {
    pub policy: Seq<char>,
    pub resource: PolicyDependencyResourceView,
}

impl DeepView for PolicyDependency {
    type V = PolicyDependencyView;

    open spec fn deep_view(&self) -> PolicyDependencyView {
        PolicyDependencyView {
            policy: self.policy.deep_view(),
            resource: self.resource.deep_view(),
        }
    }
}

impl Value for PolicyDependency {
    fn same(&self, other: &Self) -> (r: bool) {
        self.policy.same(&other.policy) && self.resource.same(&other.resource)
    }

    fn dup(&self) -> (r: Self) {
        PolicyDependency {
            policy: self.policy.dup(),
            resource: self.resource.dup(),
        }
    }
}

impl Clone for PolicyDependency {
    fn clone(&self) -> (r: Self)
        ensures
            r.deep_view() == self.deep_view(),
    {
        self.dup()
    }
}

impl PolicyDependencyResourceView {
    /// The place of the role in the order of edges.
    pub open spec fn role(self) -> int {
        match self {
            PolicyDependencyResourceView::IngressZone(_) => 0,
            PolicyDependencyResourceView::EgressZone(_) => 1,
            PolicyDependencyResourceView::Service(_) => 2,
        }
    }

    /// The name of the resource.
    pub open spec fn name(self) -> Seq<char> {
        match self {
            PolicyDependencyResourceView::IngressZone(n) => n,
            PolicyDependencyResourceView::EgressZone(n) => n,
            PolicyDependencyResourceView::Service(n) => n,
        }
    }
}

impl PolicyDependencyView {
    /// This edge comes before the other: by policy, by role, by name.
    pub open spec fn precedes(self, other: PolicyDependencyView) -> bool {
        if self.policy != other.policy {
            name_map::before(self.policy, other.policy)
        } else if self.resource.role() != other.resource.role() {
            self.resource.role() < other.resource.role()
        } else {
            name_map::before(self.resource.name(), other.resource.name())
        }
    }

    /// The edge is one of a policy's.
    pub open spec fn of(self, p: PolicyDetailsView) -> bool {
        self.policy == p.name && match self.resource {
            PolicyDependencyResourceView::IngressZone(n) => p.ingress_zones.contains(n),
            PolicyDependencyResourceView::EgressZone(n) => p.egress_zones.contains(n),
            PolicyDependencyResourceView::Service(n) => p.services.contains(n),
        }
    }

    /// The edge references the zone.
    pub open spec fn to_zone(self, zone: Seq<char>) -> bool {
        match self.resource {
            PolicyDependencyResourceView::IngressZone(n) => n == zone,
            PolicyDependencyResourceView::EgressZone(n) => n == zone,
            PolicyDependencyResourceView::Service(_) => false,
        }
    }

    /// The edge references the service.
    pub open spec fn to_service(self, service: Seq<char>) -> bool {
        self.resource == PolicyDependencyResourceView::Service(service)
    }
}

proof fn precedes_total(a: PolicyDependencyView, b: PolicyDependencyView)
    ensures
        a == b || a.precedes(b) || b.precedes(a),
{
    name_map::before_total(a.policy, b.policy);
    name_map::before_total(a.resource.name(), b.resource.name());
}

proof fn precedes_transitive(
    a: PolicyDependencyView,
    b: PolicyDependencyView,
    c: PolicyDependencyView,
)
    requires
        a.precedes(b),
        b.precedes(c),
    ensures
        a.precedes(c),
{
    if a.policy != b.policy && b.policy != c.policy {
        name_map::before_transitive(a.policy, b.policy, c.policy);
        name_map::before_irreflexive(a.policy);
    }
    if a.policy == b.policy && b.policy == c.policy && a.resource.role() == b.resource.role()
        && b.resource.role() == c.resource.role() {
        name_map::before_transitive(a.resource.name(), b.resource.name(), c.resource.name());
    }
}

/// The edges increase strictly, so none occurs twice.
pub open spec fn edges_ascending(s: Seq<PolicyDependencyView>) -> bool {
    forall|i: int, j: int| 0 <= i < j < s.len() ==> (#[trigger] s[i]).precedes(#[trigger] s[j])
}

impl PolicyDependencyResource {
    fn role_of(&self) -> (r: u8)
        ensures
            r == self.deep_view().role(),
    {
        match self {
            PolicyDependencyResource::IngressZone(_) => 0,
            PolicyDependencyResource::EgressZone(_) => 1,
            PolicyDependencyResource::Service(_) => 2,
        }
    }

    fn name_of(&self) -> (r: &str)
        ensures
            r@ == self.deep_view().name(),
    {
        match self {
            PolicyDependencyResource::IngressZone(n) => n.as_str(),
            PolicyDependencyResource::EgressZone(n) => n.as_str(),
            PolicyDependencyResource::Service(n) => n.as_str(),
        }
    }
}

impl PolicyDependency {
    fn comes_before(&self, other: &PolicyDependency) -> (r: bool)
        ensures
            r == self.deep_view().precedes(other.deep_view()),
    {
        if !self.policy.same(&other.policy) {
            return name_map::precedes(self.policy.as_str(), other.policy.as_str());
        }
        let a: u8 = self.resource.role_of();
        let b: u8 = other.resource.role_of();
        if a != b {
            return a < b;
        }
        name_map::precedes(self.resource.name_of(), other.resource.name_of())
    }
}

/// Deduplicated policy dependency graph for one configuration target.
#[derive(Debug, PartialEq, Eq)]
pub struct PolicyDependencyGraph {
    dependencies: Vec<PolicyDependency>,
}

impl DeepView for PolicyDependencyGraph {
    type V = Seq<PolicyDependencyView>;

    closed spec fn deep_view(&self) -> Seq<PolicyDependencyView> {
        self.dependencies.deep_view()
    }
}

/// The edge is one of the first `n` policies'.
pub open spec fn edge_within(
    e: PolicyDependencyView,
    policies: Seq<(Seq<char>, PolicyDetailsView)>,
    n: int,
) -> bool {
    exists|i: int| 0 <= i < n && #[trigger] e.of(policies[i].1)
}

/// The edge is one of the policies'.
pub open spec fn edge_in(
    e: PolicyDependencyView,
    policies: Seq<(Seq<char>, PolicyDetailsView)>,
) -> bool {
    edge_within(e, policies, policies.len() as int)
}

/// The edge is one of the policies' in the selected configuration; selecting
/// both selects the union.
pub open spec fn edge_selected(
    e: PolicyDependencyView,
    s: FirewallSnapshotView,
    target: ConfigurationTarget,
) -> bool {
    match target {
        ConfigurationTarget::Runtime => edge_in(e, s.policies.runtime),
        ConfigurationTarget::Permanent => edge_in(e, s.policies.permanent),
        ConfigurationTarget::RuntimeAndPermanent => edge_in(e, s.policies.runtime) || edge_in(
            e,
            s.policies.permanent,
        ),
    }
}

/// The edges that reference the zone, in order.
pub open spec fn zone_edges(s: Seq<PolicyDependencyView>, zone: Seq<char>) -> Seq<
    PolicyDependencyView,
>
    decreases s.len(),
{
    if s.len() == 0 {
        s
    } else if s.last().to_zone(zone) {
        zone_edges(s.drop_last(), zone).push(s.last())
    } else {
        zone_edges(s.drop_last(), zone)
    }
}

/// The edges that reference the service, in order.
pub open spec fn service_edges(s: Seq<PolicyDependencyView>, service: Seq<char>) -> Seq<
    PolicyDependencyView,
>
    decreases s.len(),
{
    if s.len() == 0 {
        s
    } else if s.last().to_service(service) {
        service_edges(s.drop_last(), service).push(s.last())
    } else {
        service_edges(s.drop_last(), service)
    }
}

/// Puts an edge in its place, unless it is there already.
fn insert_edge(edges: &mut Vec<PolicyDependency>, edge: PolicyDependency)
    requires
        edges_ascending(old(edges).deep_view()),
    ensures
        edges_ascending(final(edges).deep_view()),
        forall|e: PolicyDependencyView| #[trigger]
            final(edges).deep_view().contains(e) == (old(edges).deep_view().contains(e) || e
                == edge.deep_view()),
{
    let ghost start = edges.deep_view();
    let ghost k = edge.deep_view();
    let mut p: usize = 0;
    while p < edges.len() && edges[p].comes_before(&edge)
        invariant
            p <= edges@.len(),
            start == edges.deep_view(),
            k == edge.deep_view(),
            forall|i: int| 0 <= i < p ==> (#[trigger] start[i]).precedes(k),
        decreases edges.len() - p,
    {
        assert(start[p as int].precedes(k));
        p = p + 1;
    }
    if p < edges.len() && edges[p].same(&edge) {
        assert(start[p as int] == k);
        assert forall|e: PolicyDependencyView| #[trigger] start.contains(e) == (start.contains(e)
            || e == k) by {
            if e == k {
                assert(start[p as int] == e);
            }
        }
        return;
    }
    edges.insert(p, edge);
    let ghost after = edges.deep_view();
    assert(after =~= start.insert(p as int, k));
    proof {
        if p < start.len() {
            precedes_total(start[p as int], k);
        }
        assert forall|i: int, j: int| 0 <= i < j < after.len() implies (
        #[trigger] after[i]).precedes(#[trigger] after[j]) by {
            if j < p {
                assert(after[i] == start[i] && after[j] == start[j]);
            } else if j == p {
                assert(after[i] == start[i] && start[i].precedes(k));
            } else if i > p {
                assert(after[i] == start[i - 1] && after[j] == start[j - 1]);
            } else if i == p {
                assert(after[j] == start[j - 1]);
                if j - 1 > p {
                    precedes_transitive(k, start[p as int], start[j - 1]);
                }
            } else {
                assert(after[i] == start[i] && after[j] == start[j - 1]);
            }
        }
        assert forall|e: PolicyDependencyView| #[trigger] after.contains(e) == (start.contains(e)
            || e == k) by {
            assert(after[p as int] == k);
            if start.contains(e) {
                let i = choose|i: int| 0 <= i < start.len() && start[i] == e;
                if i < p {
                    assert(after[i] == e);
                } else {
                    assert(after[i + 1] == e);
                }
            }
            if after.contains(e) && e != k {
                let i = choose|i: int| 0 <= i < after.len() && after[i] == e;
                if i < p {
                    assert(start[i] == e);
                } else {
                    assert(start[i - 1] == e);
                }
            }
        }
    }
}

/// Adds the edges of one policy.
fn insert_policy(edges: &mut Vec<PolicyDependency>, policy: &PolicyDetails)
    requires
        edges_ascending(old(edges).deep_view()),
    ensures
        edges_ascending(final(edges).deep_view()),
        forall|e: PolicyDependencyView| #[trigger]
            final(edges).deep_view().contains(e) == (old(edges).deep_view().contains(e) || e.of(
                policy.deep_view(),
            )),
{
    let ghost start = edges.deep_view();
    let ghost p = policy.deep_view();
    let ghost base = edges.deep_view();
    let mut i: usize = 0;
    while i < policy.ingress_zones.len()
        invariant
            i <= policy.ingress_zones@.len(),
            p == policy.deep_view(),
            edges_ascending(edges.deep_view()),
            forall|e: PolicyDependencyView| #[trigger]
                edges.deep_view().contains(e) == (base.contains(e) || (e.policy == p.name && (
                e.resource matches PolicyDependencyResourceView::IngressZone(n)
                    && p.ingress_zones.take(i as int).contains(n)))),
        decreases policy.ingress_zones.len() - i,
    {
        insert_edge(
            edges,
            PolicyDependency {
                policy: policy.name.dup(),
                resource: PolicyDependencyResource::IngressZone(policy.ingress_zones[i].dup()),
            },
        );
        proof {
            taken_contains(p.ingress_zones, i as int);
        }
        i = i + 1;
    }
    assert(p.ingress_zones.take(i as int) =~= p.ingress_zones);
    let ghost base = edges.deep_view();
    let mut i: usize = 0;
    while i < policy.egress_zones.len()
        invariant
            i <= policy.egress_zones@.len(),
            p == policy.deep_view(),
            edges_ascending(edges.deep_view()),
            forall|e: PolicyDependencyView| #[trigger]
                edges.deep_view().contains(e) == (base.contains(e) || (e.policy == p.name && (
                e.resource matches PolicyDependencyResourceView::EgressZone(n)
                    && p.egress_zones.take(i as int).contains(n)))),
        decreases policy.egress_zones.len() - i,
    {
        insert_edge(
            edges,
            PolicyDependency {
                policy: policy.name.dup(),
                resource: PolicyDependencyResource::EgressZone(policy.egress_zones[i].dup()),
            },
        );
        proof {
            taken_contains(p.egress_zones, i as int);
        }
        i = i + 1;
    }
    assert(p.egress_zones.take(i as int) =~= p.egress_zones);
    let ghost base = edges.deep_view();
    let mut i: usize = 0;
    while i < policy.services.len()
        invariant
            i <= policy.services@.len(),
            p == policy.deep_view(),
            edges_ascending(edges.deep_view()),
            forall|e: PolicyDependencyView| #[trigger]
                edges.deep_view().contains(e) == (base.contains(e) || (e.policy == p.name && (
                e.resource matches PolicyDependencyResourceView::Service(n)
                    && p.services.take(i as int).contains(n)))),
        decreases policy.services.len() - i,
    {
        insert_edge(
            edges,
            PolicyDependency {
                policy: policy.name.dup(),
                resource: PolicyDependencyResource::Service(policy.services[i].dup()),
            },
        );
        proof {
            taken_contains(p.services, i as int);
        }
        i = i + 1;
    }
    assert(p.services.take(i as int) =~= p.services);
}

/// One more item is taken, and nothing else.
proof fn taken_contains(s: Seq<Seq<char>>, i: int)
    requires
        0 <= i < s.len(),
    ensures
        forall|n: Seq<char>| #[trigger]
            s.take(i + 1).contains(n) == (s.take(i).contains(n) || n == s[i]),
{
    assert forall|n: Seq<char>| #[trigger] s.take(i + 1).contains(n) == (s.take(i).contains(n) || n
        == s[i]) by {
        if s.take(i).contains(n) {
            let k = choose|k: int| 0 <= k < i && s.take(i)[k] == n;
            assert(s.take(i + 1)[k] == n);
        }
        if n == s[i] {
            assert(s.take(i + 1)[i] == n);
        }
        if s.take(i + 1).contains(n) && n != s[i] {
            let t = s.take(i + 1);
            let k = choose|k: int| 0 <= k < t.len() && t[k] == n;
            assert(s.take(i)[k] == n);
        }
    }
}

/// Adds the edges of all policies of one scope.
fn insert_policies(
    edges: &mut Vec<PolicyDependency>,
    policies: &NameMap<PolicyName, PolicyDetails>,
)
    requires
        edges_ascending(old(edges).deep_view()),
    ensures
        edges_ascending(final(edges).deep_view()),
        forall|e: PolicyDependencyView| #[trigger]
            final(edges).deep_view().contains(e) == (old(edges).deep_view().contains(e) || edge_in(
                e,
                policies.deep_view(),
            )),
{
    let ghost start = edges.deep_view();
    let ghost shown = policies.deep_view();
    let mut i: usize = 0;
    while i < policies.len()
        invariant
            shown == policies.deep_view(),
            i <= shown.len(),
            edges_ascending(edges.deep_view()),
            forall|e: PolicyDependencyView| #[trigger]
                edges.deep_view().contains(e) == (start.contains(e) || edge_within(
                    e,
                    shown,
                    i as int,
                )),
        decreases shown.len() - i,
    {
        insert_policy(edges, policies.value(i));
        proof {
            assert forall|e: PolicyDependencyView| #[trigger] edge_within(e, shown, i + 1) == (
            edge_within(e, shown, i as int) || e.of(shown[i as int].1)) by {
                if edge_within(e, shown, i as int) {
                    let k = choose|k: int| 0 <= k < i && #[trigger] e.of(shown[k].1);
                    assert(e.of(shown[k].1));
                }
            }
        }
        i = i + 1;
    }
}

impl PolicyDependencyGraph {
    /// The edges stand in order and none occurs twice.
    #[verifier::type_invariant]
    pub open spec fn ordered(self) -> bool {
        edges_ascending(self.deep_view())
    }

    /// Builds the graph from the selected snapshot configuration. Selecting
    /// both configurations returns the union, deduplicated by typed edge.
    pub fn from_snapshot(snapshot: &FirewallSnapshot, target: ConfigurationTarget) -> (r: Self)
        ensures
            edges_ascending(r.deep_view()),
            forall|e: PolicyDependencyView| #[trigger]
                r.deep_view().contains(e) == edge_selected(e, snapshot.deep_view(), target),
    {
        let mut edges: Vec<PolicyDependency> = lists::none();
        match target {
            ConfigurationTarget::Runtime => {
                insert_policies(&mut edges, &snapshot.policies.runtime);
            },
            ConfigurationTarget::Permanent => {
                insert_policies(&mut edges, &snapshot.policies.permanent);
            },
            ConfigurationTarget::RuntimeAndPermanent => {
                insert_policies(&mut edges, &snapshot.policies.runtime);
                insert_policies(&mut edges, &snapshot.policies.permanent);
            },
        }
        PolicyDependencyGraph { dependencies: edges }
    }

    /// All dependency edges in deterministic order.
    pub fn dependencies(&self) -> (r: &Vec<PolicyDependency>)
        ensures
            r.deep_view() == self.deep_view(),
            edges_ascending(r.deep_view()),
    {
        proof {
            use_type_invariant(self);
        }
        &self.dependencies
    }

    /// Edges that reference a concrete zone as ingress or egress.
    pub fn references_zone(&self, zone: &str) -> (r: Vec<&PolicyDependency>)
        ensures
            r.deep_view() == zone_edges(self.deep_view(), zone@),
    {
        let ghost shown = self.deep_view();
        let mut out: Vec<&PolicyDependency> = Vec::new();
        let mut i: usize = 0;
        assert(out.deep_view() =~= shown.take(0));
        while i < self.dependencies.len()
            invariant
                shown == self.dependencies.deep_view(),
                i <= shown.len(),
                out.deep_view() == zone_edges(shown.take(i as int), zone@),
            decreases self.dependencies.len() - i,
        {
            let edge = &self.dependencies[i];
            let hit = match &edge.resource {
                PolicyDependencyResource::IngressZone(n) => text::same(n.as_str(), zone),
                PolicyDependencyResource::EgressZone(n) => text::same(n.as_str(), zone),
                PolicyDependencyResource::Service(_) => false,
            };
            assert(shown.take(i + 1).drop_last() =~= shown.take(i as int));
            if hit {
                let ghost before = out.deep_view();
                out.push(edge);
                assert(out.deep_view() =~= before.push(edge.deep_view()));
            }
            i = i + 1;
        }
        assert(shown.take(i as int) =~= shown);
        out
    }

    /// Edges that reference a service.
    pub fn references_service(&self, service: &ServiceName) -> (r: Vec<&PolicyDependency>)
        ensures
            r.deep_view() == service_edges(self.deep_view(), service.deep_view()),
    {
        let ghost shown = self.deep_view();
        let mut out: Vec<&PolicyDependency> = Vec::new();
        let mut i: usize = 0;
        assert(out.deep_view() =~= shown.take(0));
        while i < self.dependencies.len()
            invariant
                shown == self.dependencies.deep_view(),
                i <= shown.len(),
                out.deep_view() == service_edges(shown.take(i as int), service.deep_view()),
            decreases self.dependencies.len() - i,
        {
            let edge = &self.dependencies[i];
            let hit = match &edge.resource {
                PolicyDependencyResource::Service(n) => n.same(service),
                _ => false,
            };
            assert(shown.take(i + 1).drop_last() =~= shown.take(i as int));
            if hit {
                let ghost before = out.deep_view();
                out.push(edge);
                assert(out.deep_view() =~= before.push(edge.deep_view()));
            }
            i = i + 1;
        }
        assert(shown.take(i as int) =~= shown);
        out
    }
}

/// The edges to a zone are those edges of the graph that name it.
pub proof fn zone_edges_are_complete(
    s: Seq<PolicyDependencyView>,
    zone: Seq<char>,
    e: PolicyDependencyView,
)
    ensures
        zone_edges(s, zone).contains(e) == (s.contains(e) && e.to_zone(zone)),
    decreases s.len(),
{
    if s.len() > 0 {
        let rest = s.drop_last();
        zone_edges_are_complete(rest, zone, e);
        pushed_contains(rest, s.last(), e);
        pushed_contains(zone_edges(rest, zone), s.last(), e);
        assert(s =~= rest.push(s.last()));
    }
}

/// The edges to a service are those edges of the graph that name it.
pub proof fn service_edges_are_complete(
    s: Seq<PolicyDependencyView>,
    service: Seq<char>,
    e: PolicyDependencyView,
)
    ensures
        service_edges(s, service).contains(e) == (s.contains(e) && e.to_service(service)),
    decreases s.len(),
{
    if s.len() > 0 {
        let rest = s.drop_last();
        service_edges_are_complete(rest, service, e);
        pushed_contains(rest, s.last(), e);
        pushed_contains(service_edges(rest, service), s.last(), e);
        assert(s =~= rest.push(s.last()));
    }
}

proof fn pushed_contains(
    s: Seq<PolicyDependencyView>,
    x: PolicyDependencyView,
    e: PolicyDependencyView,
)
    ensures
        s.push(x).contains(e) == (s.contains(e) || e == x),
{
    if s.contains(e) {
        let k = choose|k: int| 0 <= k < s.len() && s[k] == e;
        assert(s.push(x)[k] == e);
    }
    assert(s.push(x)[s.len() as int] == x);
}

/// Selecting both configurations selects the union of their edges.
pub proof fn both_configurations_select_the_union(e: PolicyDependencyView, s: FirewallSnapshotView)
    ensures
        edge_selected(e, s, ConfigurationTarget::RuntimeAndPermanent) == (edge_selected(
            e,
            s,
            ConfigurationTarget::Runtime,
        ) || edge_selected(e, s, ConfigurationTarget::Permanent)),
{
}

/// Some policy of that name among the entries has the resource in the role.
pub open spec fn some_policy_uses(
    policies: Seq<(Seq<char>, PolicyDetailsView)>,
    e: PolicyDependencyView,
) -> bool {
    exists|i: int|
        0 <= i < policies.len() && (#[trigger] policies[i]).1.name == e.policy && ((e.resource
            matches PolicyDependencyResourceView::IngressZone(n)
            && policies[i].1.ingress_zones.contains(n)) || (e.resource
            matches PolicyDependencyResourceView::EgressZone(n)
            && policies[i].1.egress_zones.contains(n)) || (e.resource
            matches PolicyDependencyResourceView::Service(n) && policies[i].1.services.contains(n)))
}

proof fn edges_are_uses(
    policies: Seq<(Seq<char>, PolicyDetailsView)>,
    e: PolicyDependencyView,
)
    ensures
        edge_in(e, policies) == some_policy_uses(policies, e),
{
    if edge_in(e, policies) {
        let i = choose|i: int| 0 <= i < policies.len() && #[trigger] e.of(policies[i].1);
        assert(policies[i].1.name == e.policy);
    }
    if some_policy_uses(policies, e) {
        let i = choose|i: int|
            0 <= i < policies.len() && (#[trigger] policies[i]).1.name == e.policy && ((e.resource
                matches PolicyDependencyResourceView::IngressZone(n)
                && policies[i].1.ingress_zones.contains(n)) || (e.resource
                matches PolicyDependencyResourceView::EgressZone(n)
                && policies[i].1.egress_zones.contains(n)) || (e.resource
                matches PolicyDependencyResourceView::Service(n)
                && policies[i].1.services.contains(n)));
        assert(e.of(policies[i].1));
    }
}

/// An edge is selected exactly if a policy of a selected configuration uses the
/// resource in the role that the edge names: as a zone that traffic comes from,
/// as one that it goes to, or as a service.
pub proof fn edges_come_from_uses(
    e: PolicyDependencyView,
    s: FirewallSnapshotView,
    target: ConfigurationTarget,
)
    ensures
        edge_selected(e, s, target) == ((target != ConfigurationTarget::Permanent
            && some_policy_uses(s.policies.runtime, e)) || (target != ConfigurationTarget::Runtime
            && some_policy_uses(s.policies.permanent, e))),
{
    edges_are_uses(s.policies.runtime, e);
    edges_are_uses(s.policies.permanent, e);
}

/// An edge leads to a zone exactly if it names the zone on either side, and to
/// a service exactly if it names the service.
pub proof fn edges_lead_to_what_they_name(e: PolicyDependencyView, name: Seq<char>)
    ensures
        e.to_zone(name) == (e.resource == PolicyDependencyResourceView::IngressZone(name)
            || e.resource == PolicyDependencyResourceView::EgressZone(name)),
        e.to_service(name) == (e.resource == PolicyDependencyResourceView::Service(name)),
{
}

} // verus!
