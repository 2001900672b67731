//! The collections of a zone that a restore brings to what is wanted, item by
//! item.

use vstd::prelude::*;

use crate::address::{SourceAddress, SourceAddressView};
use crate::ids::{IcmpType, IpProtocol, ServiceName, ZoneName};
use crate::lists;
use crate::model::Value;
use crate::operation::{FirewallOperation, FirewallOperationView};
use crate::port::{ForwardPort, ForwardPortView, PortSpec, PortSpecView};
use crate::rich_rule::RichRule;
use crate::snapshot::ConfigurationTarget;
use crate::zone::{ZoneDetails, ZoneDetailsView};

verus! {

/// One collection of a zone, with the operations that add an item to it and
/// remove one from it.
pub trait Collection<T: Value> {
    /// The items that the zone holds.
    spec fn held(zone: ZoneDetailsView) -> Seq<T::V>;

    /// The zone with other items in this collection.
    spec fn holding(zone: ZoneDetailsView, items: Seq<T::V>) -> ZoneDetailsView;

    /// The operation that adds the item.
    spec fn addition(
        zone: Seq<char>,
        item: T::V,
        target: ConfigurationTarget,
    ) -> FirewallOperationView;

    /// The operation that removes the item.
    spec fn removal(
        zone: Seq<char>,
        item: T::V,
        target: ConfigurationTarget,
    ) -> FirewallOperationView;

    /// The items that the zone holds.
    fn items(zone: &ZoneDetails) -> (r: &Vec<T>)
        ensures
            r.deep_view() == Self::held(zone.deep_view()),
    ;

    /// The operation that adds the item.
    fn add_item(zone: &ZoneName, item: &T, target: ConfigurationTarget) -> (r: FirewallOperation)
        ensures
            r.deep_view() == Self::addition(zone.deep_view(), item.deep_view(), target),
    ;

    /// The operation that removes the item.
    fn remove_item(
        zone: &ZoneName,
        item: &T,
        target: ConfigurationTarget,
    ) -> (r: FirewallOperation)
        ensures
            r.deep_view() == Self::removal(zone.deep_view(), item.deep_view(), target),
    ;

    /// To replace the items changes nothing else, and what was put in is held.
    proof fn replacing_items(z: ZoneDetailsView, items: Seq<T::V>, others: Seq<T::V>)
        ensures
            Self::held(Self::holding(z, items)) == items,
            Self::holding(z, Self::held(z)) == z,
            Self::holding(Self::holding(z, items), others) == Self::holding(z, others),
    ;

    /// Both operations edit the named zone in the named scope, and there only
    /// this collection, by the one item.
    proof fn editing_items(
        zone: Seq<char>,
        item: T::V,
        target: ConfigurationTarget,
        z: ZoneDetailsView,
    )
        ensures
            Self::addition(zone, item, target).zone_edited(z) == Self::holding(
                z,
                lists::with(Self::held(z), item),
            ),
            Self::removal(zone, item, target).zone_edited(z) == Self::holding(
                z,
                lists::without(Self::held(z), item),
            ),
            Self::addition(zone, item, target).zone_scope() == Some((zone, target)),
            Self::removal(zone, item, target).zone_scope() == Some((zone, target)),
            !(Self::addition(zone, item, target) is AddInterface),
            !(Self::addition(zone, item, target) is RemoveInterface),
            !(Self::removal(zone, item, target) is AddInterface),
            !(Self::removal(zone, item, target) is RemoveInterface),
    ;
}

/// One addition per item, in order.
pub open spec fn additions<T: Value, C: Collection<T>>(
    zone: Seq<char>,
    items: Seq<T::V>,
    target: ConfigurationTarget,
) -> Seq<FirewallOperationView> {
    Seq::new(items.len(), |i: int| C::addition(zone, items[i], target))
}

/// One removal per item, in order.
pub open spec fn removals<T: Value, C: Collection<T>>(
    zone: Seq<char>,
    items: Seq<T::V>,
    target: ConfigurationTarget,
) -> Seq<FirewallOperationView> {
    Seq::new(items.len(), |i: int| C::removal(zone, items[i], target))
}

/// The edits that bring the collection to what is wanted: what is missing is
/// added, what is too much is removed.
pub open spec fn edits<T: Value, C: Collection<T>>(
    zone: Seq<char>,
    current: ZoneDetailsView,
    wanted: ZoneDetailsView,
    target: ConfigurationTarget,
) -> Seq<FirewallOperationView> {
    additions::<T, C>(zone, lists::lacking(C::held(wanted), C::held(current)), target) + removals::<
        T,
        C,
    >(zone, lists::lacking(C::held(current), C::held(wanted)), target)
}

/// Emits the operations that bring the collection of one zone to what is
/// wanted.
pub(crate) fn diff<T: Value, C: Collection<T>>(
    zone: &ZoneName,
    current: &ZoneDetails,
    wanted: &ZoneDetails,
    target: ConfigurationTarget,
    ops: &mut Vec<FirewallOperation>,
)
    ensures
        final(ops).deep_view() == old(ops).deep_view() + edits::<T, C>(
            zone.deep_view(),
            current.deep_view(),
            wanted.deep_view(),
            target,
        ),
{
    let ghost start = ops.deep_view();
    let ghost name = zone.deep_view();
    let added = lists::missing(C::items(wanted), C::items(current));
    let ghost adds = additions::<T, C>(name, added.deep_view(), target);
    let mut i: usize = 0;
    assert(start + adds.take(0) =~= start);
    while i < added.len()
        invariant
            i <= added@.len(),
            name == zone.deep_view(),
            adds == additions::<T, C>(name, added.deep_view(), target),
            ops.deep_view() == start + adds.take(i as int),
        decreases added.len() - i,
    {
        lists::push(ops, C::add_item(zone, &added[i], target));
        assert(ops.deep_view() =~= start + adds.take(i + 1));
        i = i + 1;
    }
    let removed = lists::missing(C::items(current), C::items(wanted));
    let ghost removes = removals::<T, C>(name, removed.deep_view(), target);
    assert(ops.deep_view() =~= start + adds + removes.take(0));
    let mut j: usize = 0;
    while j < removed.len()
        invariant
            j <= removed@.len(),
            name == zone.deep_view(),
            removes == removals::<T, C>(name, removed.deep_view(), target),
            ops.deep_view() == start + adds + removes.take(j as int),
        decreases removed.len() - j,
    {
        lists::push(ops, C::remove_item(zone, &removed[j], target));
        assert(ops.deep_view() =~= start + adds + removes.take(j + 1));
        j = j + 1;
    }
    assert(ops.deep_view() =~= start + (adds + removes));
}

/// The services of a zone.
pub struct Services;

impl Collection<ServiceName> for Services {
    open spec fn held(zone: ZoneDetailsView) -> Seq<Seq<char>> {
        zone.services
    }

    open spec fn holding(zone: ZoneDetailsView, items: Seq<Seq<char>>) -> ZoneDetailsView {
        ZoneDetailsView { services: items, ..zone }
    }

    open spec fn addition(
        zone: Seq<char>,
        item: Seq<char>,
        target: ConfigurationTarget,
    ) -> FirewallOperationView {
        FirewallOperationView::AddService { zone, service: item, target }
    }

    open spec fn removal(
        zone: Seq<char>,
        item: Seq<char>,
        target: ConfigurationTarget,
    ) -> FirewallOperationView {
        FirewallOperationView::RemoveService { zone, service: item, target }
    }

    fn items(zone: &ZoneDetails) -> (r: &Vec<ServiceName>) {
        &zone.services
    }

    fn add_item(
        zone: &ZoneName,
        item: &ServiceName,
        target: ConfigurationTarget,
    ) -> (r: FirewallOperation) {
        FirewallOperation::AddService { zone: zone.dup(), service: item.dup(), target }
    }

    fn remove_item(
        zone: &ZoneName,
        item: &ServiceName,
        target: ConfigurationTarget,
    ) -> (r: FirewallOperation) {
        FirewallOperation::RemoveService { zone: zone.dup(), service: item.dup(), target }
    }

    proof fn replacing_items(z: ZoneDetailsView, items: Seq<Seq<char>>, others: Seq<Seq<char>>) {
    }

    proof fn editing_items(
        zone: Seq<char>,
        item: Seq<char>,
        target: ConfigurationTarget,
        z: ZoneDetailsView,
    ) {
    }
}

/// The ports of a zone.
pub struct Ports;

impl Collection<PortSpec> for Ports {
    open spec fn held(zone: ZoneDetailsView) -> Seq<PortSpecView> {
        zone.ports
    }

    open spec fn holding(zone: ZoneDetailsView, items: Seq<PortSpecView>) -> ZoneDetailsView {
        ZoneDetailsView { ports: items, ..zone }
    }

    open spec fn addition(
        zone: Seq<char>,
        item: PortSpecView,
        target: ConfigurationTarget,
    ) -> FirewallOperationView {
        FirewallOperationView::AddPort { zone, port: item, target }
    }

    open spec fn removal(
        zone: Seq<char>,
        item: PortSpecView,
        target: ConfigurationTarget,
    ) -> FirewallOperationView {
        FirewallOperationView::RemovePort { zone, port: item, target }
    }

    fn items(zone: &ZoneDetails) -> (r: &Vec<PortSpec>) {
        &zone.ports
    }

    fn add_item(
        zone: &ZoneName,
        item: &PortSpec,
        target: ConfigurationTarget,
    ) -> (r: FirewallOperation) {
        FirewallOperation::AddPort { zone: zone.dup(), port: item.dup(), target }
    }

    fn remove_item(
        zone: &ZoneName,
        item: &PortSpec,
        target: ConfigurationTarget,
    ) -> (r: FirewallOperation) {
        FirewallOperation::RemovePort { zone: zone.dup(), port: item.dup(), target }
    }

    proof fn replacing_items(
        z: ZoneDetailsView,
        items: Seq<PortSpecView>,
        others: Seq<PortSpecView>,
    ) {
    }

    proof fn editing_items(
        zone: Seq<char>,
        item: PortSpecView,
        target: ConfigurationTarget,
        z: ZoneDetailsView,
    ) {
    }
}

/// The forward ports of a zone.
pub struct ForwardPorts;

impl Collection<ForwardPort> for ForwardPorts {
    open spec fn held(zone: ZoneDetailsView) -> Seq<ForwardPortView> {
        zone.forward_ports
    }

    open spec fn holding(zone: ZoneDetailsView, items: Seq<ForwardPortView>) -> ZoneDetailsView {
        ZoneDetailsView { forward_ports: items, ..zone }
    }

    open spec fn addition(
        zone: Seq<char>,
        item: ForwardPortView,
        target: ConfigurationTarget,
    ) -> FirewallOperationView {
        FirewallOperationView::AddForwardPort { zone, forward: item, target }
    }

    open spec fn removal(
        zone: Seq<char>,
        item: ForwardPortView,
        target: ConfigurationTarget,
    ) -> FirewallOperationView {
        FirewallOperationView::RemoveForwardPort { zone, forward: item, target }
    }

    fn items(zone: &ZoneDetails) -> (r: &Vec<ForwardPort>) {
        &zone.forward_ports
    }

    fn add_item(
        zone: &ZoneName,
        item: &ForwardPort,
        target: ConfigurationTarget,
    ) -> (r: FirewallOperation) {
        FirewallOperation::AddForwardPort { zone: zone.dup(), forward: item.dup(), target }
    }

    fn remove_item(
        zone: &ZoneName,
        item: &ForwardPort,
        target: ConfigurationTarget,
    ) -> (r: FirewallOperation) {
        FirewallOperation::RemoveForwardPort { zone: zone.dup(), forward: item.dup(), target }
    }

    proof fn replacing_items(
        z: ZoneDetailsView,
        items: Seq<ForwardPortView>,
        others: Seq<ForwardPortView>,
    ) {
    }

    proof fn editing_items(
        zone: Seq<char>,
        item: ForwardPortView,
        target: ConfigurationTarget,
        z: ZoneDetailsView,
    ) {
    }
}

/// The rich rules of a zone.
pub struct RichRules;

impl Collection<RichRule> for RichRules {
    open spec fn held(zone: ZoneDetailsView) -> Seq<Seq<char>> {
        zone.rich_rules
    }

    open spec fn holding(zone: ZoneDetailsView, items: Seq<Seq<char>>) -> ZoneDetailsView {
        ZoneDetailsView { rich_rules: items, ..zone }
    }

    open spec fn addition(
        zone: Seq<char>,
        item: Seq<char>,
        target: ConfigurationTarget,
    ) -> FirewallOperationView {
        FirewallOperationView::AddRichRule { zone, rule: item, target }
    }

    open spec fn removal(
        zone: Seq<char>,
        item: Seq<char>,
        target: ConfigurationTarget,
    ) -> FirewallOperationView {
        FirewallOperationView::RemoveRichRule { zone, rule: item, target }
    }

    fn items(zone: &ZoneDetails) -> (r: &Vec<RichRule>) {
        &zone.rich_rules
    }

    fn add_item(
        zone: &ZoneName,
        item: &RichRule,
        target: ConfigurationTarget,
    ) -> (r: FirewallOperation) {
        FirewallOperation::AddRichRule { zone: zone.dup(), rule: item.dup(), target }
    }

    fn remove_item(
        zone: &ZoneName,
        item: &RichRule,
        target: ConfigurationTarget,
    ) -> (r: FirewallOperation) {
        FirewallOperation::RemoveRichRule { zone: zone.dup(), rule: item.dup(), target }
    }

    proof fn replacing_items(z: ZoneDetailsView, items: Seq<Seq<char>>, others: Seq<Seq<char>>) {
    }

    proof fn editing_items(
        zone: Seq<char>,
        item: Seq<char>,
        target: ConfigurationTarget,
        z: ZoneDetailsView,
    ) {
    }
}

/// The sources of a zone.
pub struct Sources;

impl Collection<SourceAddress> for Sources {
    open spec fn held(zone: ZoneDetailsView) -> Seq<SourceAddressView> {
        zone.sources
    }

    open spec fn holding(zone: ZoneDetailsView, items: Seq<SourceAddressView>) -> ZoneDetailsView {
        ZoneDetailsView { sources: items, ..zone }
    }

    open spec fn addition(
        zone: Seq<char>,
        item: SourceAddressView,
        target: ConfigurationTarget,
    ) -> FirewallOperationView {
        FirewallOperationView::AddSource { zone, source: item, target }
    }

    open spec fn removal(
        zone: Seq<char>,
        item: SourceAddressView,
        target: ConfigurationTarget,
    ) -> FirewallOperationView {
        FirewallOperationView::RemoveSource { zone, source: item, target }
    }

    fn items(zone: &ZoneDetails) -> (r: &Vec<SourceAddress>) {
        &zone.sources
    }

    fn add_item(
        zone: &ZoneName,
        item: &SourceAddress,
        target: ConfigurationTarget,
    ) -> (r: FirewallOperation) {
        FirewallOperation::AddSource { zone: zone.dup(), source: item.dup(), target }
    }

    fn remove_item(
        zone: &ZoneName,
        item: &SourceAddress,
        target: ConfigurationTarget,
    ) -> (r: FirewallOperation) {
        FirewallOperation::RemoveSource { zone: zone.dup(), source: item.dup(), target }
    }

    proof fn replacing_items(
        z: ZoneDetailsView,
        items: Seq<SourceAddressView>,
        others: Seq<SourceAddressView>,
    ) {
    }

    proof fn editing_items(
        zone: Seq<char>,
        item: SourceAddressView,
        target: ConfigurationTarget,
        z: ZoneDetailsView,
    ) {
    }
}

/// The icmp blocks of a zone.
pub struct IcmpBlocks;

impl Collection<IcmpType> for IcmpBlocks {
    open spec fn held(zone: ZoneDetailsView) -> Seq<Seq<char>> {
        zone.icmp_blocks
    }

    open spec fn holding(zone: ZoneDetailsView, items: Seq<Seq<char>>) -> ZoneDetailsView {
        ZoneDetailsView { icmp_blocks: items, ..zone }
    }

    open spec fn addition(
        zone: Seq<char>,
        item: Seq<char>,
        target: ConfigurationTarget,
    ) -> FirewallOperationView {
        FirewallOperationView::AddIcmpBlock { zone, icmp: item, target }
    }

    open spec fn removal(
        zone: Seq<char>,
        item: Seq<char>,
        target: ConfigurationTarget,
    ) -> FirewallOperationView {
        FirewallOperationView::RemoveIcmpBlock { zone, icmp: item, target }
    }

    fn items(zone: &ZoneDetails) -> (r: &Vec<IcmpType>) {
        &zone.icmp_blocks
    }

    fn add_item(
        zone: &ZoneName,
        item: &IcmpType,
        target: ConfigurationTarget,
    ) -> (r: FirewallOperation) {
        FirewallOperation::AddIcmpBlock { zone: zone.dup(), icmp: item.dup(), target }
    }

    fn remove_item(
        zone: &ZoneName,
        item: &IcmpType,
        target: ConfigurationTarget,
    ) -> (r: FirewallOperation) {
        FirewallOperation::RemoveIcmpBlock { zone: zone.dup(), icmp: item.dup(), target }
    }

    proof fn replacing_items(z: ZoneDetailsView, items: Seq<Seq<char>>, others: Seq<Seq<char>>) {
    }

    proof fn editing_items(
        zone: Seq<char>,
        item: Seq<char>,
        target: ConfigurationTarget,
        z: ZoneDetailsView,
    ) {
    }
}

/// The source ports of a zone.
pub struct SourcePorts;

impl Collection<PortSpec> for SourcePorts {
    open spec fn held(zone: ZoneDetailsView) -> Seq<PortSpecView> {
        zone.source_ports
    }

    open spec fn holding(zone: ZoneDetailsView, items: Seq<PortSpecView>) -> ZoneDetailsView {
        ZoneDetailsView { source_ports: items, ..zone }
    }

    open spec fn addition(
        zone: Seq<char>,
        item: PortSpecView,
        target: ConfigurationTarget,
    ) -> FirewallOperationView {
        FirewallOperationView::AddSourcePort { zone, port: item, target }
    }

    open spec fn removal(
        zone: Seq<char>,
        item: PortSpecView,
        target: ConfigurationTarget,
    ) -> FirewallOperationView {
        FirewallOperationView::RemoveSourcePort { zone, port: item, target }
    }

    fn items(zone: &ZoneDetails) -> (r: &Vec<PortSpec>) {
        &zone.source_ports
    }

    fn add_item(
        zone: &ZoneName,
        item: &PortSpec,
        target: ConfigurationTarget,
    ) -> (r: FirewallOperation) {
        FirewallOperation::AddSourcePort { zone: zone.dup(), port: item.dup(), target }
    }

    fn remove_item(
        zone: &ZoneName,
        item: &PortSpec,
        target: ConfigurationTarget,
    ) -> (r: FirewallOperation) {
        FirewallOperation::RemoveSourcePort { zone: zone.dup(), port: item.dup(), target }
    }

    proof fn replacing_items(
        z: ZoneDetailsView,
        items: Seq<PortSpecView>,
        others: Seq<PortSpecView>,
    ) {
    }

    proof fn editing_items(
        zone: Seq<char>,
        item: PortSpecView,
        target: ConfigurationTarget,
        z: ZoneDetailsView,
    ) {
    }
}

/// The protocols of a zone.
pub struct Protocols;

impl Collection<IpProtocol> for Protocols {
    open spec fn held(zone: ZoneDetailsView) -> Seq<Seq<char>> {
        zone.protocols
    }

    open spec fn holding(zone: ZoneDetailsView, items: Seq<Seq<char>>) -> ZoneDetailsView {
        ZoneDetailsView { protocols: items, ..zone }
    }

    open spec fn addition(
        zone: Seq<char>,
        item: Seq<char>,
        target: ConfigurationTarget,
    ) -> FirewallOperationView {
        FirewallOperationView::AddProtocol { zone, protocol: item, target }
    }

    open spec fn removal(
        zone: Seq<char>,
        item: Seq<char>,
        target: ConfigurationTarget,
    ) -> FirewallOperationView {
        FirewallOperationView::RemoveProtocol { zone, protocol: item, target }
    }

    fn items(zone: &ZoneDetails) -> (r: &Vec<IpProtocol>) {
        &zone.protocols
    }

    fn add_item(
        zone: &ZoneName,
        item: &IpProtocol,
        target: ConfigurationTarget,
    ) -> (r: FirewallOperation) {
        FirewallOperation::AddProtocol { zone: zone.dup(), protocol: item.dup(), target }
    }

    fn remove_item(
        zone: &ZoneName,
        item: &IpProtocol,
        target: ConfigurationTarget,
    ) -> (r: FirewallOperation) {
        FirewallOperation::RemoveProtocol { zone: zone.dup(), protocol: item.dup(), target }
    }

    proof fn replacing_items(z: ZoneDetailsView, items: Seq<Seq<char>>, others: Seq<Seq<char>>) {
    }

    proof fn editing_items(
        zone: Seq<char>,
        item: Seq<char>,
        target: ConfigurationTarget,
        z: ZoneDetailsView,
    ) {
    }
}

} // verus!
