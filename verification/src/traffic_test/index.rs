//! Immutable, target-specific lookup structure for native traffic evaluation.

use vstd::prelude::*;

use std::sync::Arc;
use crate::address::{SourceAddress, SourceAddressView};
use crate::ids::{InterfaceName, PolicyName, ServiceName, ZoneName};
use crate::ip::IpAddr;
use crate::lists;
use crate::model::Value;
use crate::name_map;
use crate::name_map::{Name, NameMap};
use crate::order;
use crate::order::{Ordered, Prioritized};
use crate::policy::{PolicyDetails, PolicyDetailsView};
use crate::service;
use crate::service::{
    ServiceDefinition,
    ServiceDefinitionView,
    ServiceResolution,
    ServiceResolutionView,
};
use crate::snapshot::{
    ConfigurationTarget, FirewallSnapshot, FirewallSnapshotView, SnapshotSection,
};
use crate::traffic_test::report::EvaluationTarget;
use crate::traffic_test::RulePriority;
use crate::zone::{ZoneDetails, ZoneDetailsView};

verus! {

/// Exact binding evidence used to classify ingress traffic.
#[derive(Debug, PartialEq, Eq)]
pub enum IndexedZoneBindingKind {
    /// Source address or CIDR binding.
    Source(SourceAddress),
    /// Network-interface binding.
    Interface(InterfaceName),
}

/// What a `IndexedZoneBindingKind` models.
#[verifier::ext_equal]
pub enum IndexedZoneBindingKindView {
    Source(SourceAddressView),
    Interface(Seq<char>),
}

impl DeepView for IndexedZoneBindingKind {
    type V = IndexedZoneBindingKindView;

    open spec fn deep_view(&self) -> IndexedZoneBindingKindView {
        match self {
            IndexedZoneBindingKind::Source(x0) => IndexedZoneBindingKindView::Source(
                x0.deep_view(),
            ),
            IndexedZoneBindingKind::Interface(x0) => IndexedZoneBindingKindView::Interface(
                x0.deep_view(),
            ),
        }
    }
}

impl Value for IndexedZoneBindingKind {
    fn same(&self, other: &Self) -> (r: bool) {
        match (self, other) {
            (IndexedZoneBindingKind::Source(x0), IndexedZoneBindingKind::Source(x0_other)) =>
                x0.same(x0_other),
            (IndexedZoneBindingKind::Interface(x0), IndexedZoneBindingKind::Interface(x0_other)) =>
                x0.same(x0_other),
            _ => false,
        }
    }

    fn dup(&self) -> (r: Self) {
        match self {
            IndexedZoneBindingKind::Source(x0) => IndexedZoneBindingKind::Source(x0.dup()),
            IndexedZoneBindingKind::Interface(x0) => IndexedZoneBindingKind::Interface(x0.dup()),
        }
    }
}

impl Clone for IndexedZoneBindingKind {
    fn clone(&self) -> (r: Self)
        ensures
            r.deep_view() == self.deep_view(),
    {
        self.dup()
    }
}

/// One target-specific zone binding with its classification priority.
#[derive(Debug, PartialEq, Eq)]
pub struct IndexedZoneBinding {
    ingress_priority: RulePriority,
    zone: ZoneName,
    kind: IndexedZoneBindingKind,
}

/// What a `IndexedZoneBinding` models.
#[verifier::ext_equal]
pub struct IndexedZoneBindingView {
    pub ingress_priority: i16,
    pub zone: Seq<char>,
    pub kind: IndexedZoneBindingKindView,
}

impl DeepView for IndexedZoneBinding {
    type V = IndexedZoneBindingView;

    closed spec fn deep_view(&self) -> IndexedZoneBindingView {
        IndexedZoneBindingView {
            ingress_priority: self.ingress_priority.deep_view(),
            zone: self.zone.deep_view(),
            kind: self.kind.deep_view(),
        }
    }
}

impl Value for IndexedZoneBinding {
    fn same(&self, other: &Self) -> (r: bool) {
        self.ingress_priority.same(&other.ingress_priority)
            && self.zone.same(&other.zone)
            && self.kind.same(&other.kind)
    }

    fn dup(&self) -> (r: Self) {
        IndexedZoneBinding {
            ingress_priority: self.ingress_priority,
            zone: self.zone.dup(),
            kind: self.kind.dup(),
        }
    }
}

impl Clone for IndexedZoneBinding {
    fn clone(&self) -> (r: Self)
        ensures
            r.deep_view() == self.deep_view(),
    {
        self.dup()
    }
}

impl IndexedZoneBinding {
    /// Returns the zone's signed ingress priority.
    pub fn ingress_priority(&self) -> (r: RulePriority)
        ensures
            r.deep_view() == self.deep_view().ingress_priority,
    {
        self.ingress_priority
    }

    /// Returns the bound zone.
    pub fn zone(&self) -> (r: &ZoneName)
        ensures
            r.deep_view() == self.deep_view().zone,
    {
        &self.zone
    }

    /// Returns source or interface binding evidence.
    pub fn kind(&self) -> (r: &IndexedZoneBindingKind)
        ensures
            r.deep_view() == self.deep_view().kind,
    {
        &self.kind
    }
}

// ---------------------------------------------------------------------------
// The order of bindings
// ---------------------------------------------------------------------------
/// IPv4 addresses before IPv6 addresses, each family by number.
pub open spec fn address_before(a: IpAddr, b: IpAddr) -> bool {
    match (a, b) {
        (IpAddr::V4(m), IpAddr::V4(n)) => m < n,
        (IpAddr::V6(m), IpAddr::V6(n)) => m < n,
        (IpAddr::V4(_), IpAddr::V6(_)) => true,
        (IpAddr::V6(_), IpAddr::V4(_)) => false,
    }
}

/// No prefix before any prefix, then by length.
pub open spec fn prefix_before(a: Option<u8>, b: Option<u8>) -> bool {
    match (a, b) {
        (None, Some(_)) => true,
        (Some(m), Some(n)) => m < n,
        _ => false,
    }
}

/// Addresses before MAC addresses before ipsets, each kind by its contents.
pub open spec fn source_before(a: SourceAddressView, b: SourceAddressView) -> bool {
    match (a, b) {
        (
            SourceAddressView::Ip { addr: x, prefix: p },
            SourceAddressView::Ip { addr: y, prefix: q },
        ) => address_before(x, y) || (x == y && prefix_before(p, q)),
        (SourceAddressView::Ip { .. }, _) => true,
        (SourceAddressView::Mac(_), SourceAddressView::Ip { .. }) => false,
        (SourceAddressView::Mac(s), SourceAddressView::Mac(t)) => name_map::before(s, t),
        (SourceAddressView::Mac(_), SourceAddressView::IpSet(_)) => true,
        (SourceAddressView::IpSet(s), SourceAddressView::IpSet(t)) => name_map::before(s, t),
        (SourceAddressView::IpSet(_), _) => false,
    }
}

impl IndexedZoneBindingKindView {
    /// Sources before interfaces, each kind by its contents.
    pub open spec fn precedes(self, other: Self) -> bool {
        match (self, other) {
            (
                IndexedZoneBindingKindView::Source(a),
                IndexedZoneBindingKindView::Source(b),
            ) => source_before(a, b),
            (
                IndexedZoneBindingKindView::Source(_),
                IndexedZoneBindingKindView::Interface(_),
            ) => true,
            (
                IndexedZoneBindingKindView::Interface(a),
                IndexedZoneBindingKindView::Interface(b),
            ) => name_map::before(a, b),
            (
                IndexedZoneBindingKindView::Interface(_),
                IndexedZoneBindingKindView::Source(_),
            ) => false,
        }
    }
}

impl IndexedZoneBindingView {
    /// By priority, then by zone, then by kind.
    pub open spec fn precedes(self, other: Self) -> bool {
        if self.ingress_priority != other.ingress_priority {
            self.ingress_priority < other.ingress_priority
        } else if self.zone != other.zone {
            name_map::before(self.zone, other.zone)
        } else {
            self.kind.precedes(other.kind)
        }
    }
}

/// The order of bindings as a relation.
pub open spec fn binding_order() -> spec_fn(
    IndexedZoneBindingView,
    IndexedZoneBindingView,
) -> bool {
    |a: IndexedZoneBindingView, b: IndexedZoneBindingView| a == b || a.precedes(b)
}

proof fn name_order(a: Seq<char>, b: Seq<char>, c: Seq<char>)
    ensures
        !name_map::before(a, a),
        a == b || name_map::before(a, b) || name_map::before(b, a),
        name_map::before(a, b) && name_map::before(b, c) ==> name_map::before(a, c),
{
    name_map::before_irreflexive(a);
    name_map::before_total(a, b);
    if name_map::before(a, b) && name_map::before(b, c) {
        name_map::before_transitive(a, b, c);
    }
}

proof fn source_order(a: SourceAddressView, b: SourceAddressView, c: SourceAddressView)
    ensures
        !source_before(a, a),
        a == b || source_before(a, b) || source_before(b, a),
        source_before(a, b) && source_before(b, c) ==> source_before(a, c),
{
    match (a, b, c) {
        (SourceAddressView::Mac(x), SourceAddressView::Mac(y), SourceAddressView::Mac(z)) => {
            name_order(x, y, z);
        },
        (SourceAddressView::IpSet(x), SourceAddressView::IpSet(y), SourceAddressView::IpSet(z)) => {
            name_order(x, y, z);
        },
        (SourceAddressView::Mac(x), SourceAddressView::Mac(y), _) => {
            name_order(x, y, x);
        },
        (SourceAddressView::IpSet(x), SourceAddressView::IpSet(y), _) => {
            name_order(x, y, x);
        },
        (SourceAddressView::Mac(x), _, _) => {
            name_order(x, x, x);
        },
        (SourceAddressView::IpSet(x), _, _) => {
            name_order(x, x, x);
        },
        _ => {},
    }
}

proof fn kind_order(
    a: IndexedZoneBindingKindView,
    b: IndexedZoneBindingKindView,
    c: IndexedZoneBindingKindView,
)
    ensures
        !a.precedes(a),
        a == b || a.precedes(b) || b.precedes(a),
        a.precedes(b) && b.precedes(c) ==> a.precedes(c),
{
    let text = |k: IndexedZoneBindingKindView| k->Interface_0;
    let source = |k: IndexedZoneBindingKindView| k->Source_0;
    source_order(source(a), source(b), source(c));
    name_order(text(a), text(b), text(c));
}

proof fn binding_order_facts(
    a: IndexedZoneBindingView,
    b: IndexedZoneBindingView,
    c: IndexedZoneBindingView,
)
    ensures
        !a.precedes(a),
        a == b || a.precedes(b) || b.precedes(a),
        a.precedes(b) && b.precedes(c) ==> a.precedes(c),
{
    name_order(a.zone, b.zone, c.zone);
    name_order(b.zone, a.zone, b.zone);
    kind_order(a.kind, b.kind, c.kind);
}

fn address_is_before(a: &IpAddr, b: &IpAddr) -> (r: bool)
    ensures
        r == address_before(*a, *b),
{
    match (a, b) {
        (IpAddr::V4(m), IpAddr::V4(n)) => *m < *n,
        (IpAddr::V6(m), IpAddr::V6(n)) => *m < *n,
        (IpAddr::V4(_), IpAddr::V6(_)) => true,
        (IpAddr::V6(_), IpAddr::V4(_)) => false,
    }
}

fn prefix_is_before(a: &Option<u8>, b: &Option<u8>) -> (r: bool)
    ensures
        r == prefix_before(*a, *b),
{
    match (a, b) {
        (None, Some(_)) => true,
        (Some(m), Some(n)) => *m < *n,
        _ => false,
    }
}

fn source_is_before(a: &SourceAddress, b: &SourceAddress) -> (r: bool)
    ensures
        r == source_before(a.deep_view(), b.deep_view()),
{
    match (a, b) {
        (SourceAddress::Ip { addr: x, prefix: p }, SourceAddress::Ip { addr: y, prefix: q }) => {
            address_is_before(x, y) || (*x == *y && prefix_is_before(p, q))
        },
        (SourceAddress::Ip { .. }, _) => true,
        (SourceAddress::Mac(_), SourceAddress::Ip { .. }) => false,
        (SourceAddress::Mac(s), SourceAddress::Mac(t)) => {
            name_map::precedes(s.as_str(), t.as_str())
        },
        (SourceAddress::Mac(_), SourceAddress::IpSet(_)) => true,
        (SourceAddress::IpSet(s), SourceAddress::IpSet(t)) => {
            name_map::precedes(s.as_str(), t.as_str())
        },
        (SourceAddress::IpSet(_), _) => false,
    }
}

impl Ordered for IndexedZoneBinding {
    open spec fn order() -> spec_fn(IndexedZoneBindingView, IndexedZoneBindingView) -> bool {
        binding_order()
    }

    proof fn order_is_total() {
        let leq = Self::order();
        assert forall|a: IndexedZoneBindingView, b: IndexedZoneBindingView|
            #[trigger] leq(a, b) && #[trigger] leq(b, a) implies a == b by {
            binding_order_facts(a, b, a);
        }
        assert forall|
            a: IndexedZoneBindingView,
            b: IndexedZoneBindingView,
            c: IndexedZoneBindingView,
        | #[trigger] leq(a, b) && #[trigger] leq(b, c) implies leq(a, c) by {
            binding_order_facts(a, b, c);
        }
        assert forall|a: IndexedZoneBindingView, b: IndexedZoneBindingView|
            #[trigger] leq(a, b) || #[trigger] leq(b, a) by {
            binding_order_facts(a, b, a);
        }
    }

    fn is_up_to(&self, other: &Self) -> (r: bool) {
        let a: i16 = self.ingress_priority.get();
        let b: i16 = other.ingress_priority.get();
        if a != b {
            return a < b;
        }
        if !self.zone.same(&other.zone) {
            return name_map::precedes(self.zone.as_str(), other.zone.as_str());
        }
        match (&self.kind, &other.kind) {
            (IndexedZoneBindingKind::Source(s), IndexedZoneBindingKind::Source(t)) => {
                s.same(t) || source_is_before(s, t)
            },
            (IndexedZoneBindingKind::Source(_), IndexedZoneBindingKind::Interface(_)) => true,
            (IndexedZoneBindingKind::Interface(s), IndexedZoneBindingKind::Interface(t)) => {
                s.same(t) || name_map::precedes(s.as_str(), t.as_str())
            },
            (IndexedZoneBindingKind::Interface(_), IndexedZoneBindingKind::Source(_)) => false,
        }
    }
}

// ---------------------------------------------------------------------------
// What the index holds
// ---------------------------------------------------------------------------
/// The zones of one target.
pub open spec fn zones_of(s: FirewallSnapshotView, target: EvaluationTarget) -> Seq<
    (Seq<char>, ZoneDetailsView),
> {
    match target {
        EvaluationTarget::Runtime => s.runtime,
        EvaluationTarget::Permanent => s.permanent,
    }
}

/// The policies of one target.
pub open spec fn policies_of(s: FirewallSnapshotView, target: EvaluationTarget) -> Seq<
    (Seq<char>, PolicyDetailsView),
> {
    match target {
        EvaluationTarget::Runtime => s.policies.runtime,
        EvaluationTarget::Permanent => s.policies.permanent,
    }
}

/// The configuration target that an evaluation target stands for.
pub open spec fn target_of(target: EvaluationTarget) -> ConfigurationTarget {
    match target {
        EvaluationTarget::Runtime => ConfigurationTarget::Runtime,
        EvaluationTarget::Permanent => ConfigurationTarget::Permanent,
    }
}

/// The zones with their ingress priorities.
pub open spec fn zone_ranks(zones: Seq<(Seq<char>, ZoneDetailsView)>) -> Seq<(i32, Seq<char>)> {
    Seq::new(zones.len(), |i: int| (zones[i].1.ingress_priority as i32, zones[i].0))
}

/// The policies with their priorities.
pub open spec fn policy_ranks(policies: Seq<(Seq<char>, PolicyDetailsView)>) -> Seq<
    (i32, Seq<char>),
> {
    Seq::new(policies.len(), |i: int| (policies[i].1.priority, policies[i].0))
}

/// The names in the order of their priorities, then of the names themselves.
pub open spec fn names_by_priority(ranks: Seq<(i32, Seq<char>)>) -> Seq<Seq<char>> {
    let ordered = ranks.sort_by(order::by_priority());
    Seq::new(ordered.len(), |i: int| ordered[i].1)
}

/// The bindings of one zone: its sources, then its interfaces.
pub open spec fn bindings_of(zone: ZoneDetailsView) -> Seq<IndexedZoneBindingView> {
    Seq::new(
        zone.sources.len(),
        |i: int|
            IndexedZoneBindingView {
                ingress_priority: zone.ingress_priority,
                zone: zone.name,
                kind: IndexedZoneBindingKindView::Source(zone.sources[i]),
            },
    ) + Seq::new(
        zone.interfaces.len(),
        |i: int|
            IndexedZoneBindingView {
                ingress_priority: zone.ingress_priority,
                zone: zone.name,
                kind: IndexedZoneBindingKindView::Interface(zone.interfaces[i]),
            },
    )
}

/// The bindings of all zones, zone by zone.
pub open spec fn all_bindings(zones: Seq<(Seq<char>, ZoneDetailsView)>) -> Seq<
    IndexedZoneBindingView,
>
    decreases zones.len(),
{
    if zones.len() == 0 {
        Seq::empty()
    } else {
        all_bindings(zones.drop_last()) + bindings_of(zones.last().1)
    }
}

/// The services that the zones offer, zone by zone.
pub open spec fn zone_services(zones: Seq<(Seq<char>, ZoneDetailsView)>) -> Seq<Seq<char>>
    decreases zones.len(),
{
    if zones.len() == 0 {
        Seq::empty()
    } else {
        zone_services(zones.drop_last()) + zones.last().1.services
    }
}

/// The services that the policies offer, policy by policy.
pub open spec fn policy_services(policies: Seq<(Seq<char>, PolicyDetailsView)>) -> Seq<Seq<char>>
    decreases policies.len(),
{
    if policies.len() == 0 {
        Seq::empty()
    } else {
        policy_services(policies.drop_last()) + policies.last().1.services
    }
}

/// A map from each of the names to its resolution.
pub open spec fn resolutions(
    names: Seq<Seq<char>>,
    definitions: Seq<(Seq<char>, ServiceDefinitionView)>,
) -> Seq<(Seq<char>, ServiceResolutionView)>
    decreases names.len(),
{
    if names.len() == 0 {
        Seq::empty()
    } else {
        name_map::put(
            resolutions(names.drop_last(), definitions),
            names.last(),
            service::resolved(names.last(), definitions),
        )
    }
}

/// What a `TrafficEvaluationIndex` models.
#[verifier::ext_equal]
pub struct TrafficEvaluationIndexView {
    pub snapshot: FirewallSnapshotView,
    pub target: EvaluationTarget,
    pub zone_order: Seq<Seq<char>>,
    pub zone_bindings: Seq<IndexedZoneBindingView>,
    pub policy_order: Seq<Seq<char>>,
    pub services: Seq<(Seq<char>, ServiceResolutionView)>,
}

impl TrafficEvaluationIndexView {
    /// The index of one target of a snapshot.
    pub open spec fn of(snapshot: FirewallSnapshotView, target: EvaluationTarget) -> Self {
        let zones = zones_of(snapshot, target);
        let policies = policies_of(snapshot, target);
        TrafficEvaluationIndexView {
            snapshot,
            target,
            zone_order: names_by_priority(zone_ranks(zones)),
            zone_bindings: all_bindings(zones).sort_by(binding_order()),
            policy_order: names_by_priority(policy_ranks(policies)),
            services: resolutions(
                zone_services(zones) + policy_services(policies),
                snapshot.service_definitions,
            ),
        }
    }

    /// The zones that the index covers.
    pub open spec fn zones(self) -> Seq<(Seq<char>, ZoneDetailsView)> {
        zones_of(self.snapshot, self.target)
    }

    /// The policies that the index covers.
    pub open spec fn policies(self) -> Seq<(Seq<char>, PolicyDetailsView)> {
        policies_of(self.snapshot, self.target)
    }

    /// The snapshot section was observed completely for the target.
    pub open spec fn complete(self, section: SnapshotSection) -> bool {
        self.snapshot.complete(section, target_of(self.target))
    }
}

// ---------------------------------------------------------------------------
// Facts about the index
// ---------------------------------------------------------------------------
proof fn resolutions_sorted(
    names: Seq<Seq<char>>,
    definitions: Seq<(Seq<char>, ServiceDefinitionView)>,
)
    ensures
        name_map::sorted(resolutions(names, definitions)),
    decreases names.len(),
{
    if names.len() > 0 {
        resolutions_sorted(names.drop_last(), definitions);
        name_map::put_sorted(
            resolutions(names.drop_last(), definitions),
            names.last(),
            service::resolved(names.last(), definitions),
        );
    }
}

/// Exactly the named services have an entry, and it is their resolution.
pub proof fn resolutions_of(
    names: Seq<Seq<char>>,
    definitions: Seq<(Seq<char>, ServiceDefinitionView)>,
    name: Seq<char>,
)
    ensures
        name_map::lookup(resolutions(names, definitions), name) == (if names.contains(name) {
            Some(service::resolved(name, definitions))
        } else {
            None
        }),
    decreases names.len(),
{
    if names.len() > 0 {
        let rest = names.drop_last();
        resolutions_of(rest, definitions, name);
        resolutions_sorted(rest, definitions);
        name_map::lookup_of_put(
            resolutions(rest, definitions),
            names.last(),
            service::resolved(names.last(), definitions),
            name,
        );
        if names.contains(name) && name != names.last() {
            let i = choose|i: int| 0 <= i < names.len() && names[i] == name;
            assert(rest[i] == name);
        }
        if rest.contains(name) {
            let i = choose|i: int| 0 <= i < rest.len() && rest[i] == name;
            assert(names[i] == name);
        }
        assert(names[names.len() - 1] == names.last());
    }
}

proof fn sorting_keeps_members<A>(s: Seq<A>, leq: spec_fn(A, A) -> bool, x: A)
    requires
        vstd::relations::total_ordering(leq),
    ensures
        s.sort_by(leq).contains(x) == s.contains(x),
        s.sort_by(leq).len() == s.len(),
{
    s.lemma_sort_by_ensures(leq);
    s.to_multiset_ensures();
    s.sort_by(leq).to_multiset_ensures();
    assert(s.to_multiset().count(x) == s.sort_by(leq).to_multiset().count(x));
}

/// The order of the zones names zones that the index covers, and along it the
/// priorities never decrease; where they are equal, the names increase.
pub proof fn zone_order_is_by_priority(x: TrafficEvaluationIndexView, i: int, j: int)
    requires
        x == TrafficEvaluationIndexView::of(x.snapshot, x.target),
        name_map::sorted(x.zones()),
        0 <= i < j < x.zone_order.len(),
    ensures
        x.zone_order.len() == x.zones().len(),
        name_map::lookup(x.zones(), x.zone_order[i]) is Some,
        name_map::lookup(x.zones(), x.zone_order[j]) is Some,
        order::prior(
            (
                name_map::lookup(x.zones(), x.zone_order[i])->0.ingress_priority as i32,
                x.zone_order[i],
            ),
            (
                name_map::lookup(x.zones(), x.zone_order[j])->0.ingress_priority as i32,
                x.zone_order[j],
            ),
        ),
{
    let ranks = zone_ranks(x.zones());
    let leq = order::by_priority();
    <Prioritized<ZoneName> as Ordered>::order_is_total();
    ranks.lemma_sort_by_ensures(leq);
    let ordered = ranks.sort_by(leq);
    sorting_keeps_members(ranks, leq, ordered[i]);
    sorting_keeps_members(ranks, leq, ordered[j]);
    assert(ordered.contains(ordered[i]));
    assert(ordered.contains(ordered[j]));
    let a = choose|k: int| 0 <= k < ranks.len() && ranks[k] == ordered[i];
    let b = choose|k: int| 0 <= k < ranks.len() && ranks[k] == ordered[j];
    name_map::lookup_of_entry(x.zones(), a);
    name_map::lookup_of_entry(x.zones(), b);
    assert(leq(ordered[i], ordered[j]));
}

/// The order of the policies names policies that the index covers, and along it the
/// priorities never decrease; where they are equal, the names increase.
pub proof fn policy_order_is_by_priority(x: TrafficEvaluationIndexView, i: int, j: int)
    requires
        x == TrafficEvaluationIndexView::of(x.snapshot, x.target),
        name_map::sorted(x.policies()),
        0 <= i < j < x.policy_order.len(),
    ensures
        x.policy_order.len() == x.policies().len(),
        name_map::lookup(x.policies(), x.policy_order[i]) is Some,
        name_map::lookup(x.policies(), x.policy_order[j]) is Some,
        order::prior(
            (
                name_map::lookup(x.policies(), x.policy_order[i])->0.priority,
                x.policy_order[i],
            ),
            (
                name_map::lookup(x.policies(), x.policy_order[j])->0.priority,
                x.policy_order[j],
            ),
        ),
{
    let ranks = policy_ranks(x.policies());
    let leq = order::by_priority();
    <Prioritized<PolicyName> as Ordered>::order_is_total();
    ranks.lemma_sort_by_ensures(leq);
    let ordered = ranks.sort_by(leq);
    sorting_keeps_members(ranks, leq, ordered[i]);
    sorting_keeps_members(ranks, leq, ordered[j]);
    assert(ordered.contains(ordered[i]));
    assert(ordered.contains(ordered[j]));
    let a = choose|k: int| 0 <= k < ranks.len() && ranks[k] == ordered[i];
    let b = choose|k: int| 0 <= k < ranks.len() && ranks[k] == ordered[j];
    name_map::lookup_of_entry(x.policies(), a);
    name_map::lookup_of_entry(x.policies(), b);
    assert(leq(ordered[i], ordered[j]));
}

/// A binding is in the index exactly if one of its zones has it.
pub proof fn bindings_are_complete(x: TrafficEvaluationIndexView, binding: IndexedZoneBindingView)
    requires
        x == TrafficEvaluationIndexView::of(x.snapshot, x.target),
    ensures
        x.zone_bindings.contains(binding) == all_bindings(x.zones()).contains(binding),
        x.zone_bindings.len() == all_bindings(x.zones()).len(),
{
    <IndexedZoneBinding as Ordered>::order_is_total();
    sorting_keeps_members(all_bindings(x.zones()), binding_order(), binding);
}

// ---------------------------------------------------------------------------
// The index
// ---------------------------------------------------------------------------
fn zones_for(snapshot: &FirewallSnapshot, target: EvaluationTarget) -> (r: &NameMap<
    ZoneName,
    ZoneDetails,
>)
    ensures
        r.deep_view() == zones_of(snapshot.deep_view(), target),
{
    match target {
        EvaluationTarget::Runtime => &snapshot.runtime,
        EvaluationTarget::Permanent => &snapshot.permanent,
    }
}

fn policies_for(snapshot: &FirewallSnapshot, target: EvaluationTarget) -> (r: &NameMap<
    PolicyName,
    PolicyDetails,
>)
    ensures
        r.deep_view() == policies_of(snapshot.deep_view(), target),
{
    match target {
        EvaluationTarget::Runtime => &snapshot.policies.runtime,
        EvaluationTarget::Permanent => &snapshot.policies.permanent,
    }
}

/// The configuration target that an evaluation target stands for.
pub fn configuration_target(target: EvaluationTarget) -> (r: ConfigurationTarget)
    ensures
        r == target_of(target),
{
    match target {
        EvaluationTarget::Runtime => ConfigurationTarget::Runtime,
        EvaluationTarget::Permanent => ConfigurationTarget::Permanent,
    }
}

/// The names in the order of their priorities.
fn ordered_names<K: Name>(ranks: Vec<Prioritized<K>>) -> (r: Vec<K>)
    ensures
        r.deep_view() == names_by_priority(ranks.deep_view()),
{
    let ghost all = ranks.deep_view();
    let ordered = order::sorted(ranks);
    let mut out: Vec<K> = Vec::new();
    let mut i: usize = 0;
    while i < ordered.len()
        invariant
            i <= ordered@.len(),
            ordered.deep_view() == all.sort_by(order::by_priority()),
            out.deep_view() =~= names_by_priority(all).take(i as int),
        decreases ordered.len() - i,
    {
        assert(ordered.deep_view()[i as int] == ordered@[i as int].deep_view());
        lists::push(&mut out, ordered[i].name.dup());
        i = i + 1;
    }
    assert(names_by_priority(all).take(i as int) =~= names_by_priority(all));
    out
}

fn order_zones(zones: &NameMap<ZoneName, ZoneDetails>) -> (r: Vec<ZoneName>)
    ensures
        r.deep_view() == names_by_priority(zone_ranks(zones.deep_view())),
{
    let ghost all = zones.deep_view();
    let mut ranks: Vec<Prioritized<ZoneName>> = Vec::new();
    let mut i: usize = 0;
    while i < zones.len()
        invariant
            i <= all.len(),
            all == zones.deep_view(),
            ranks.deep_view() =~= zone_ranks(all).take(i as int),
        decreases all.len() - i,
    {
        let priority: i32 = zones.value(i).ingress_priority.get() as i32;
        lists::push(&mut ranks, Prioritized { priority, name: zones.key(i).dup() });
        i = i + 1;
    }
    assert(zone_ranks(all).take(i as int) =~= zone_ranks(all));
    ordered_names(ranks)
}

fn order_policies(policies: &NameMap<PolicyName, PolicyDetails>) -> (r: Vec<PolicyName>)
    ensures
        r.deep_view() == names_by_priority(policy_ranks(policies.deep_view())),
{
    let ghost all = policies.deep_view();
    let mut ranks: Vec<Prioritized<PolicyName>> = Vec::new();
    let mut i: usize = 0;
    while i < policies.len()
        invariant
            i <= all.len(),
            all == policies.deep_view(),
            ranks.deep_view() =~= policy_ranks(all).take(i as int),
        decreases all.len() - i,
    {
        let priority: i32 = policies.value(i).priority;
        lists::push(&mut ranks, Prioritized { priority, name: policies.key(i).dup() });
        i = i + 1;
    }
    assert(policy_ranks(all).take(i as int) =~= policy_ranks(all));
    ordered_names(ranks)
}

/// Adds the bindings of one zone.
fn add_bindings(zone: &ZoneDetails, out: &mut Vec<IndexedZoneBinding>)
    ensures
        final(out).deep_view() == old(out).deep_view() + bindings_of(zone.deep_view()),
{
    let ghost before = out.deep_view();
    let ghost wanted = bindings_of(zone.deep_view());
    let mut i: usize = 0;
    while i < zone.sources.len()
        invariant
            i <= zone.sources@.len(),
            wanted == bindings_of(zone.deep_view()),
            out.deep_view() =~= before + wanted.take(i as int),
        decreases zone.sources.len() - i,
    {
        assert(zone.deep_view().sources[i as int] == zone.sources@[i as int].deep_view());
        lists::push(
            out,
            IndexedZoneBinding {
                ingress_priority: zone.ingress_priority,
                zone: zone.name.dup(),
                kind: IndexedZoneBindingKind::Source(zone.sources[i].dup()),
            },
        );
        i = i + 1;
    }
    let mut j: usize = 0;
    while j < zone.interfaces.len()
        invariant
            i == zone.sources@.len(),
            j <= zone.interfaces@.len(),
            wanted == bindings_of(zone.deep_view()),
            out.deep_view() =~= before + wanted.take(i + j),
        decreases zone.interfaces.len() - j,
    {
        assert(zone.deep_view().interfaces[j as int] == zone.interfaces@[j as int].deep_view());
        lists::push(
            out,
            IndexedZoneBinding {
                ingress_priority: zone.ingress_priority,
                zone: zone.name.dup(),
                kind: IndexedZoneBindingKind::Interface(zone.interfaces[j].dup()),
            },
        );
        j = j + 1;
    }
    assert(wanted.take(i + j) =~= wanted);
}

fn bind_zones(zones: &NameMap<ZoneName, ZoneDetails>) -> (r: Vec<IndexedZoneBinding>)
    ensures
        r.deep_view() == all_bindings(zones.deep_view()).sort_by(binding_order()),
{
    let ghost all = zones.deep_view();
    let mut out: Vec<IndexedZoneBinding> = lists::none();
    let mut i: usize = 0;
    assert(all.take(0).len() == 0);
    while i < zones.len()
        invariant
            i <= all.len(),
            all == zones.deep_view(),
            out.deep_view() == all_bindings(all.take(i as int)),
        decreases all.len() - i,
    {
        assert(all.take(i + 1).drop_last() =~= all.take(i as int));
        add_bindings(zones.value(i), &mut out);
        i = i + 1;
    }
    assert(all.take(i as int) =~= all);
    order::sorted(out)
}

/// Adds the resolution of each name.
fn add_resolutions(
    names: &Vec<ServiceName>,
    definitions: &NameMap<ServiceName, ServiceDefinition>,
    out: &mut NameMap<ServiceName, ServiceResolution>,
    Ghost(before): Ghost<Seq<Seq<char>>>,
)
    requires
        old(out).deep_view() == resolutions(before, definitions.deep_view()),
    ensures
        final(out).deep_view() == resolutions(
            before + names.deep_view(),
            definitions.deep_view(),
        ),
{
    let ghost all = names.deep_view();
    let mut i: usize = 0;
    assert(before + all.take(0) =~= before);
    while i < names.len()
        invariant
            i <= names@.len(),
            all == names.deep_view(),
            out.deep_view() == resolutions(before + all.take(i as int), definitions.deep_view()),
        decreases names.len() - i,
    {
        assert((before + all.take(i + 1)).drop_last() =~= before + all.take(i as int));
        assert((before + all.take(i + 1)).last() == names@[i as int].deep_view());
        let resolution = service::resolve_service_includes(&names[i], definitions);
        out.insert(names[i].dup(), resolution);
        i = i + 1;
    }
    assert(all.take(i as int) =~= all);
}

fn resolve_services(
    zones: &NameMap<ZoneName, ZoneDetails>,
    policies: &NameMap<PolicyName, PolicyDetails>,
    definitions: &NameMap<ServiceName, ServiceDefinition>,
) -> (r: NameMap<ServiceName, ServiceResolution>)
    ensures
        r.deep_view() == resolutions(
            zone_services(zones.deep_view()) + policy_services(policies.deep_view()),
            definitions.deep_view(),
        ),
{
    let ghost all_zones = zones.deep_view();
    let ghost all_policies = policies.deep_view();
    let mut out: NameMap<ServiceName, ServiceResolution> = NameMap::new();
    let mut i: usize = 0;
    assert(all_zones.take(0).len() == 0);
    while i < zones.len()
        invariant
            i <= all_zones.len(),
            all_zones == zones.deep_view(),
            out.deep_view() == resolutions(
                zone_services(all_zones.take(i as int)),
                definitions.deep_view(),
            ),
        decreases all_zones.len() - i,
    {
        assert(all_zones.take(i + 1).drop_last() =~= all_zones.take(i as int));
        let ghost before = zone_services(all_zones.take(i as int));
        add_resolutions(&zones.value(i).services, definitions, &mut out, Ghost(before));
        i = i + 1;
    }
    assert(all_zones.take(i as int) =~= all_zones);
    let ghost offered = zone_services(all_zones);
    let mut j: usize = 0;
    assert(all_policies.take(0).len() == 0);
    assert(offered + policy_services(all_policies.take(0)) =~= offered);
    while j < policies.len()
        invariant
            j <= all_policies.len(),
            all_policies == policies.deep_view(),
            out.deep_view() == resolutions(
                offered + policy_services(all_policies.take(j as int)),
                definitions.deep_view(),
            ),
        decreases all_policies.len() - j,
    {
        assert(all_policies.take(j + 1).drop_last() =~= all_policies.take(j as int));
        let ghost before = offered + policy_services(all_policies.take(j as int));
        assert(before + all_policies[j as int].1.services =~= offered + policy_services(
            all_policies.take(j + 1),
        ));
        add_resolutions(&policies.value(j).services, definitions, &mut out, Ghost(before));
        j = j + 1;
    }
    assert(all_policies.take(j as int) =~= all_policies);
    out
}

/// Precomputed immutable view of one authoritative snapshot target.
#[derive(Debug)]
pub struct TrafficEvaluationIndex {
    snapshot: Arc<FirewallSnapshot>,
    target: EvaluationTarget,
    zone_order: Vec<ZoneName>,
    zone_bindings: Vec<IndexedZoneBinding>,
    policy_order: Vec<PolicyName>,
    services: NameMap<ServiceName, ServiceResolution>,
}

impl DeepView for TrafficEvaluationIndex {
    type V = TrafficEvaluationIndexView;

    closed spec fn deep_view(&self) -> TrafficEvaluationIndexView {
        TrafficEvaluationIndexView {
            snapshot: self.snapshot.deep_view(),
            target: self.target,
            zone_order: self.zone_order.deep_view(),
            zone_bindings: self.zone_bindings.deep_view(),
            policy_order: self.policy_order.deep_view(),
            services: self.services.deep_view(),
        }
    }
}

impl Clone for TrafficEvaluationIndex {
    fn clone(&self) -> (r: Self)
        ensures
            r.deep_view() == self.deep_view(),
    {
        proof {
            use_type_invariant(self);
        }
        TrafficEvaluationIndex {
            snapshot: Arc::clone(&self.snapshot),
            target: self.target,
            zone_order: self.zone_order.dup(),
            zone_bindings: self.zone_bindings.dup(),
            policy_order: self.policy_order.dup(),
            services: self.services.dup(),
        }
    }
}

impl TrafficEvaluationIndex {
    /// The index follows from its snapshot and its target.
    #[verifier::type_invariant]
    pub open spec fn valid(self) -> bool {
        self.deep_view() == TrafficEvaluationIndexView::of(
            self.deep_view().snapshot,
            self.deep_view().target,
        )
    }

    /// Builds deterministic lookups without changing the authoritative snapshot.
    pub fn new(snapshot: Arc<FirewallSnapshot>, target: EvaluationTarget) -> (r: Self)
        ensures
            r.deep_view() == TrafficEvaluationIndexView::of(snapshot.deep_view(), target),
    {
        let zones = zones_for(&snapshot, target);
        let policies = policies_for(&snapshot, target);
        let zone_order = order_zones(zones);
        let zone_bindings = bind_zones(zones);
        let policy_order = order_policies(policies);
        let services = resolve_services(zones, policies, &snapshot.service_definitions);
        TrafficEvaluationIndex {
            snapshot,
            target,
            zone_order,
            zone_bindings,
            policy_order,
            services,
        }
    }

    /// Returns the exact runtime or permanent target represented by the index.
    pub fn target(&self) -> (r: EvaluationTarget)
        ensures
            r == self.deep_view().target,
    {
        self.target
    }

    /// Returns the same authoritative snapshot allocation supplied at construction.
    pub fn snapshot_arc(&self) -> (r: &Arc<FirewallSnapshot>)
        ensures
            r.deep_view() == self.deep_view().snapshot,
    {
        &self.snapshot
    }

    /// Returns target-specific zones by stable identity.
    pub fn zones(&self) -> (r: &NameMap<ZoneName, ZoneDetails>)
        ensures
            r.deep_view() == self.deep_view().zones(),
    {
        zones_for(&self.snapshot, self.target)
    }

    /// Returns one target-specific zone.
    pub fn zone(&self, name: &ZoneName) -> (r: Option<&ZoneDetails>)
        ensures
            match r {
                Some(zone) => name_map::lookup(self.deep_view().zones(), name.deep_view()) == Some(
                    zone.deep_view(),
                ),
                None => name_map::lookup(self.deep_view().zones(), name.deep_view()) is None,
            },
    {
        self.zones().get(name)
    }

    /// Returns zone identities sorted by ingress priority then name.
    pub fn zone_order(&self) -> (r: &Vec<ZoneName>)
        ensures
            r.deep_view() == self.deep_view().zone_order,
            r.deep_view() == names_by_priority(zone_ranks(self.deep_view().zones())),
    {
        proof {
            use_type_invariant(self);
        }
        &self.zone_order
    }

    /// Returns source and interface bindings in deterministic priority order.
    pub fn zone_bindings(&self) -> (r: &Vec<IndexedZoneBinding>)
        ensures
            r.deep_view() == self.deep_view().zone_bindings,
            r.deep_view() == all_bindings(self.deep_view().zones()).sort_by(binding_order()),
    {
        proof {
            use_type_invariant(self);
        }
        &self.zone_bindings
    }

    /// Returns target-specific policies by stable identity.
    pub fn policies(&self) -> (r: &NameMap<PolicyName, PolicyDetails>)
        ensures
            r.deep_view() == self.deep_view().policies(),
    {
        policies_for(&self.snapshot, self.target)
    }

    /// Returns one target-specific policy.
    pub fn policy(&self, name: &PolicyName) -> (r: Option<&PolicyDetails>)
        ensures
            match r {
                Some(policy) => name_map::lookup(self.deep_view().policies(), name.deep_view())
                    == Some(policy.deep_view()),
                None => name_map::lookup(self.deep_view().policies(), name.deep_view()) is None,
            },
    {
        self.policies().get(name)
    }

    /// Returns policy identities sorted by signed priority then name.
    pub fn policy_order(&self) -> (r: &Vec<PolicyName>)
        ensures
            r.deep_view() == self.deep_view().policy_order,
            r.deep_view() == names_by_priority(policy_ranks(self.deep_view().policies())),
    {
        proof {
            use_type_invariant(self);
        }
        &self.policy_order
    }

    /// Returns pre-expanded effective service semantics and typed failures.
    pub fn service(&self, name: &ServiceName) -> (r: Option<&ServiceResolution>)
        ensures
            match r {
                Some(resolution) => name_map::lookup(self.deep_view().services, name.deep_view())
                    == Some(resolution.deep_view()),
                None => name_map::lookup(self.deep_view().services, name.deep_view()) is None,
            },
    {
        self.services.get(name)
    }

    /// Returns all target-referenced pre-expanded services.
    pub fn services(&self) -> (r: &NameMap<ServiceName, ServiceResolution>)
        ensures
            r.deep_view() == self.deep_view().services,
    {
        &self.services
    }

    /// Whether one required snapshot section is complete for this exact target.
    pub fn section_is_complete(&self, section: SnapshotSection) -> (r: bool)
        ensures
            r == self.deep_view().complete(section),
    {
        self.snapshot.section_is_complete(section, configuration_target(self.target))
    }

    /// Preserves raw direct-rule evidence for strict-truth checks.
    pub fn direct_rules(&self) -> (r: &Vec<String>)
        ensures
            r.deep_view() == self.deep_view().snapshot.direct_rules,
    {
        &self.snapshot.direct_rules
    }

    /// Whether rules outside the modeled zone/policy path may intersect traffic.
    pub fn has_direct_rules(&self) -> (r: bool)
        ensures
            r == (self.deep_view().snapshot.direct_rules.len() > 0),
    {
        self.direct_rules().len() > 0
    }
}

/// A binding of the zone: one of its sources or interfaces, with the zone's
/// name and priority.
pub open spec fn binds(zone: ZoneDetailsView, binding: IndexedZoneBindingView) -> bool {
    &&& binding.zone == zone.name
    &&& binding.ingress_priority == zone.ingress_priority
    &&& match binding.kind {
        IndexedZoneBindingKindView::Source(source) => zone.sources.contains(source),
        IndexedZoneBindingKindView::Interface(interface) => zone.interfaces.contains(interface),
    }
}

proof fn bindings_of_one(zone: ZoneDetailsView, binding: IndexedZoneBindingView)
    ensures
        bindings_of(zone).contains(binding) == binds(zone, binding),
{
    let all = bindings_of(zone);
    if all.contains(binding) {
        let i = choose|i: int| 0 <= i < all.len() && all[i] == binding;
        if i < zone.sources.len() {
            assert(binding.kind == IndexedZoneBindingKindView::Source(zone.sources[i]));
            assert(zone.sources.contains(zone.sources[i]));
        } else {
            let j = i - zone.sources.len();
            assert(binding.kind == IndexedZoneBindingKindView::Interface(zone.interfaces[j]));
            assert(zone.interfaces.contains(zone.interfaces[j]));
        }
    }
    if binds(zone, binding) {
        match binding.kind {
            IndexedZoneBindingKindView::Source(source) => {
                let i = choose|i: int| 0 <= i < zone.sources.len() && zone.sources[i] == source;
                assert(all[i] == binding);
            },
            IndexedZoneBindingKindView::Interface(interface) => {
                let j = choose|j: int|
                    0 <= j < zone.interfaces.len() && zone.interfaces[j] == interface;
                assert(all[zone.sources.len() + j] == binding);
            },
        }
    }
}

proof fn bindings_of_all(
    zones: Seq<(Seq<char>, ZoneDetailsView)>,
    binding: IndexedZoneBindingView,
)
    ensures
        all_bindings(zones).contains(binding) == some_zone_binds(zones, binding),
    decreases zones.len(),
{
    if zones.len() > 0 {
        let rest = zones.drop_last();
        let before = all_bindings(rest);
        let own = bindings_of(zones.last().1);
        let all = all_bindings(zones);
        bindings_of_all(rest, binding);
        bindings_of_one(zones.last().1, binding);
        assert(zones[zones.len() - 1] == zones.last());
        if all.contains(binding) {
            let k = choose|k: int| 0 <= k < all.len() && all[k] == binding;
            if k < before.len() {
                assert(before[k] == binding);
                let i = choose|i: int| 0 <= i < rest.len() && #[trigger] binds(rest[i].1, binding);
                assert(binds(zones[i].1, binding));
            } else {
                assert(own[k - before.len()] == binding);
                assert(binds(zones[zones.len() - 1].1, binding));
            }
        }
        if exists|i: int| 0 <= i < zones.len() && #[trigger] binds(zones[i].1, binding) {
            let i = choose|i: int| 0 <= i < zones.len() && #[trigger] binds(zones[i].1, binding);
            if i < rest.len() {
                assert(binds(rest[i].1, binding));
                let k = choose|k: int| 0 <= k < before.len() && before[k] == binding;
                assert(all[k] == binding);
            } else {
                let k = choose|k: int| 0 <= k < own.len() && own[k] == binding;
                assert(all[before.len() + k] == binding);
            }
        }
    }
}

/// One of the zones has the binding.
pub open spec fn some_zone_binds(
    zones: Seq<(Seq<char>, ZoneDetailsView)>,
    binding: IndexedZoneBindingView,
) -> bool {
    exists|i: int| 0 <= i < zones.len() && #[trigger] binds(zones[i].1, binding)
}

/// The index of a configuration has exactly the bindings of its zones: of the
/// runtime's zones for the runtime, of the stored ones otherwise.
pub proof fn index_has_the_bindings_of_its_zones(
    snapshot: FirewallSnapshotView,
    target: EvaluationTarget,
    binding: IndexedZoneBindingView,
)
    ensures
        TrafficEvaluationIndexView::of(snapshot, target).zone_bindings.contains(binding)
            == some_zone_binds(
            if target == EvaluationTarget::Runtime {
                snapshot.runtime
            } else {
                snapshot.permanent
            },
            binding,
        ),
{
    let x = TrafficEvaluationIndexView::of(snapshot, target);
    bindings_are_complete(x, binding);
    bindings_of_all(x.zones(), binding);
}

proof fn offered_by_zones(zones: Seq<(Seq<char>, ZoneDetailsView)>, i: int, name: Seq<char>)
    requires
        0 <= i < zones.len(),
        zones[i].1.services.contains(name),
    ensures
        zone_services(zones).contains(name),
    decreases zones.len(),
{
    let before = zone_services(zones.drop_last());
    let own = zones.last().1.services;
    let all = zone_services(zones);
    if i < zones.len() - 1 {
        offered_by_zones(zones.drop_last(), i, name);
        let k = choose|k: int| 0 <= k < before.len() && before[k] == name;
        assert(all[k] == name);
    } else {
        let k = choose|k: int| 0 <= k < own.len() && own[k] == name;
        assert(all[before.len() + k] == name);
    }
}

/// Every service that a zone of the configuration offers is in the index, with
/// its resolution by the snapshot's definitions.
pub proof fn index_has_the_services_of_its_zones(
    snapshot: FirewallSnapshotView,
    target: EvaluationTarget,
    i: int,
    name: Seq<char>,
)
    requires
        ({
            let zones = if target == EvaluationTarget::Runtime {
                snapshot.runtime
            } else {
                snapshot.permanent
            };
            0 <= i < zones.len() && zones[i].1.services.contains(name)
        }),
    ensures
        name_map::lookup(TrafficEvaluationIndexView::of(snapshot, target).services, name) == Some(
            service::resolved(name, snapshot.service_definitions),
        ),
{
    let x = TrafficEvaluationIndexView::of(snapshot, target);
    let a = zone_services(x.zones());
    let b = policy_services(x.policies());
    offered_by_zones(x.zones(), i, name);
    let k = choose|k: int| 0 <= k < a.len() && a[k] == name;
    assert((a + b)[k] == name);
    resolutions_of(a + b, snapshot.service_definitions, name);
}

} // verus!
