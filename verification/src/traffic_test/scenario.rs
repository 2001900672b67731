//! Traffic expectations that an operator keeps: scenarios, suites, their limits.

use vstd::prelude::*;

use crate::address::{SourceAddress, SourceAddressView};
use crate::ids::{IcmpType, InterfaceName, IpProtocol, ZoneName};
use crate::lists;
use crate::model;
use crate::model::Value;
use crate::number;
use crate::port::{PortSelector, PortSelectorView};
use crate::text;
use crate::traffic_test::TrafficExpectation;

verus! {

/// Maximum scenarios accepted in one suite or aggregate report.
pub const MAX_SCENARIOS_PER_SUITE: usize = 1000;

/// Maximum UTF-8 bytes retained for a suite or scenario name.
pub const MAX_TRAFFIC_NAME_BYTES: usize = 128;

/// Maximum UTF-8 bytes retained for one operator note.
pub const MAX_TRAFFIC_NOTE_BYTES: usize = 1024;

/// Maximum UTF-8 bytes of a suite or scenario identifier.
pub const MAX_TRAFFIC_ID_BYTES: usize = 128;

/// Stable identity of one traffic expectation.
#[derive(Debug, PartialEq, Eq, Hash, PartialOrd, Ord)]
pub struct TrafficScenarioId {
    id: String,
}

impl DeepView for TrafficScenarioId {
    type V = Seq<char>;

    closed spec fn deep_view(&self) -> Seq<char> {
        self.id@
    }
}

impl TrafficScenarioId {
    /// The identifier that `raw` spells, or why it spells none.
    pub open spec fn parsed(raw: Seq<char>) -> Result<Seq<char>, TrafficValidationErrorView> {
        match id_objection("scenario ID"@, raw) {
            Some(e) => Err(e),
            None => Ok(raw),
        }
    }

    /// The identifier obeys the rules for its kind.
    #[verifier::type_invariant]
    pub open spec fn valid(self) -> bool {
        id_objection("scenario ID"@, self.deep_view()) is None
    }

    /// Parses a stable, filesystem-independent identifier.
    pub fn parse(raw: &str) -> (r: Result<Self, TrafficValidationError>)
        ensures
            model::outcome(r) == Self::parsed(raw@),
    {
        match validate_id(raw, "scenario ID") {
            Ok(_) => Ok(TrafficScenarioId { id: raw.to_owned() }),
            Err(e) => Err(e),
        }
    }

    /// Returns the validated identifier.
    pub fn as_str(&self) -> (r: &str)
        ensures
            r@ == self.deep_view(),
            id_objection("scenario ID"@, r@) is None,
            Self::parsed(r@) == Ok::<Seq<char>, TrafficValidationErrorView>(r@),
    {
        proof {
            use_type_invariant(self);
        }
        self.id.as_str()
    }
}

impl Value for TrafficScenarioId {
    fn same(&self, other: &Self) -> (r: bool) {
        self.id == other.id
    }

    fn dup(&self) -> (r: Self) {
        proof {
            use_type_invariant(self);
        }
        TrafficScenarioId { id: self.id.clone() }
    }
}

impl Clone for TrafficScenarioId {
    fn clone(&self) -> (r: Self)
        ensures
            r.deep_view() == self.deep_view(),
    {
        self.dup()
    }
}

/// Stable identity of one traffic suite.
#[derive(Debug, PartialEq, Eq, Hash, PartialOrd, Ord)]
pub struct TrafficSuiteId {
    id: String,
}

impl DeepView for TrafficSuiteId {
    type V = Seq<char>;

    closed spec fn deep_view(&self) -> Seq<char> {
        self.id@
    }
}

impl TrafficSuiteId {
    /// The identifier that `raw` spells, or why it spells none.
    pub open spec fn parsed(raw: Seq<char>) -> Result<Seq<char>, TrafficValidationErrorView> {
        match id_objection("suite ID"@, raw) {
            Some(e) => Err(e),
            None => Ok(raw),
        }
    }

    /// The identifier obeys the rules for its kind.
    #[verifier::type_invariant]
    pub open spec fn valid(self) -> bool {
        id_objection("suite ID"@, self.deep_view()) is None
    }

    /// Parses a stable, filesystem-independent identifier.
    pub fn parse(raw: &str) -> (r: Result<Self, TrafficValidationError>)
        ensures
            model::outcome(r) == Self::parsed(raw@),
    {
        match validate_id(raw, "suite ID") {
            Ok(_) => Ok(TrafficSuiteId { id: raw.to_owned() }),
            Err(e) => Err(e),
        }
    }

    /// Returns the validated identifier.
    pub fn as_str(&self) -> (r: &str)
        ensures
            r@ == self.deep_view(),
            id_objection("suite ID"@, r@) is None,
            Self::parsed(r@) == Ok::<Seq<char>, TrafficValidationErrorView>(r@),
    {
        proof {
            use_type_invariant(self);
        }
        self.id.as_str()
    }
}

impl Value for TrafficSuiteId {
    fn same(&self, other: &Self) -> (r: bool) {
        self.id == other.id
    }

    fn dup(&self) -> (r: Self) {
        proof {
            use_type_invariant(self);
        }
        TrafficSuiteId { id: self.id.clone() }
    }
}

impl Clone for TrafficSuiteId {
    fn clone(&self) -> (r: Self)
        ensures
            r.deep_view() == self.deep_view(),
    {
        self.dup()
    }
}

/// Monotonic persisted revision used for optimistic concurrency and stale-result checks.
#[derive(Debug, Clone, Copy, PartialEq, Eq, PartialOrd, Ord, Hash)]
pub struct TrafficSuiteRevision {
    value: u64,
}

impl DeepView for TrafficSuiteRevision {
    type V = u64;

    closed spec fn deep_view(&self) -> u64 {
        self.value
    }
}

impl TrafficSuiteRevision {
    /// A revision is not zero.
    #[verifier::type_invariant]
    pub open spec fn valid(self) -> bool {
        self.deep_view() != 0
    }

    /// Creates a non-zero suite revision.
    pub fn new(value: u64) -> (r: Result<Self, TrafficValidationError>)
        ensures
            model::outcome(r) == (if value == 0 {
                Err(TrafficValidationErrorView::ZeroSuiteRevision)
            } else {
                Ok(value)
            }),
    {
        if value == 0 {
            Err(TrafficValidationError::ZeroSuiteRevision)
        } else {
            Ok(TrafficSuiteRevision { value })
        }
    }

    /// Returns the numeric revision.
    pub fn get(self) -> (r: u64)
        ensures
            r == self.deep_view(),
            r != 0,
    {
        proof {
            use_type_invariant(&self);
        }
        self.value
    }
}

impl Value for TrafficSuiteRevision {
    fn same(&self, other: &Self) -> (r: bool) {
        self.value == other.value
    }

    fn dup(&self) -> (r: Self) {
        *self
    }
}

/// Packet direction requested by a scenario.
#[derive(Debug, Clone, Copy, PartialEq, Eq, Structural)]
pub enum TrafficDirection {
    /// Traffic entering the local host.
    ToHost,
    /// Traffic originating from the local host.
    FromHost,
    /// Traffic routed through the host.
    Forwarded,
}

impl DeepView for TrafficDirection {
    type V = TrafficDirection;

    open spec fn deep_view(&self) -> TrafficDirection {
        *self
    }
}

impl Value for TrafficDirection {
    fn same(&self, other: &Self) -> (r: bool) {
        *self == *other
    }

    fn dup(&self) -> (r: Self) {
        *self
    }
}

/// Scenario destination independent of the evaluated configuration target.
#[derive(Debug, PartialEq, Eq)]
pub enum TrafficDestination {
    /// The local host without binding the scenario to one local address.
    LocalHost,
    /// One explicit IP address or CIDR.
    Address(SourceAddress),
}

/// What a `TrafficDestination` models.
#[verifier::ext_equal]
pub enum TrafficDestinationView {
    LocalHost,
    Address(SourceAddressView),
}

impl DeepView for TrafficDestination {
    type V = TrafficDestinationView;

    open spec fn deep_view(&self) -> TrafficDestinationView {
        match self {
            TrafficDestination::LocalHost => TrafficDestinationView::LocalHost,
            TrafficDestination::Address(x0) => TrafficDestinationView::Address(x0.deep_view()),
        }
    }
}

impl Value for TrafficDestination {
    fn same(&self, other: &Self) -> (r: bool) {
        match (self, other) {
            (TrafficDestination::LocalHost, TrafficDestination::LocalHost) => true,
            (TrafficDestination::Address(x0), TrafficDestination::Address(x0_other)) => x0.same(
                x0_other,
            ),
            _ => false,
        }
    }

    fn dup(&self) -> (r: Self) {
        match self {
            TrafficDestination::LocalHost => TrafficDestination::LocalHost,
            TrafficDestination::Address(x0) => TrafficDestination::Address(x0.dup()),
        }
    }
}

impl Clone for TrafficDestination {
    fn clone(&self) -> (r: Self)
        ensures
            r.deep_view() == self.deep_view(),
    {
        self.dup()
    }
}

/// Transport selector for one scenario.
#[derive(Debug, PartialEq, Eq)]
pub enum TrafficTransport {
    /// TCP traffic.
    Tcp,
    /// UDP traffic.
    Udp,
    /// One ICMP message type.
    Icmp {
        /// Firewalld ICMP type name.
        icmp_type: IcmpType,
    },
    /// One raw IP protocol such as GRE or ESP.
    RawProtocol {
        /// Firewalld protocol name.
        protocol: IpProtocol,
    },
}

/// What a `TrafficTransport` models.
#[verifier::ext_equal]
pub enum TrafficTransportView {
    Tcp,
    Udp,
    Icmp { icmp_type: Seq<char> },
    RawProtocol { protocol: Seq<char> },
}

impl DeepView for TrafficTransport {
    type V = TrafficTransportView;

    open spec fn deep_view(&self) -> TrafficTransportView {
        match self {
            TrafficTransport::Tcp => TrafficTransportView::Tcp,
            TrafficTransport::Udp => TrafficTransportView::Udp,
            TrafficTransport::Icmp { icmp_type } => TrafficTransportView::Icmp {
                icmp_type: icmp_type.deep_view()
            },
            TrafficTransport::RawProtocol { protocol } => TrafficTransportView::RawProtocol {
                protocol: protocol.deep_view()
            },
        }
    }
}

impl Value for TrafficTransport {
    fn same(&self, other: &Self) -> (r: bool) {
        match (self, other) {
            (TrafficTransport::Tcp, TrafficTransport::Tcp) => true,
            (TrafficTransport::Udp, TrafficTransport::Udp) => true,
            (
                TrafficTransport::Icmp { icmp_type },
                TrafficTransport::Icmp { icmp_type: icmp_type_other },
            ) => icmp_type.same(icmp_type_other),
            (
                TrafficTransport::RawProtocol { protocol },
                TrafficTransport::RawProtocol { protocol: protocol_other },
            ) => protocol.same(protocol_other),
            _ => false,
        }
    }

    fn dup(&self) -> (r: Self) {
        match self {
            TrafficTransport::Tcp => TrafficTransport::Tcp,
            TrafficTransport::Udp => TrafficTransport::Udp,
            TrafficTransport::Icmp { icmp_type } => TrafficTransport::Icmp {
                icmp_type: icmp_type.dup()
            },
            TrafficTransport::RawProtocol { protocol } => TrafficTransport::RawProtocol {
                protocol: protocol.dup()
            },
        }
    }
}

impl Clone for TrafficTransport {
    fn clone(&self) -> (r: Self)
        ensures
            r.deep_view() == self.deep_view(),
    {
        self.dup()
    }
}

impl TrafficTransportView {
    /// A stable name for the kind of transport.
    pub open spec fn label(self) -> Seq<char> {
        match self {
            TrafficTransportView::Tcp => "tcp"@,
            TrafficTransportView::Udp => "udp"@,
            TrafficTransportView::Icmp { .. } => "icmp"@,
            TrafficTransportView::RawProtocol { .. } => "raw_protocol"@,
        }
    }

    /// TCP and UDP carry ports.
    pub open spec fn uses_ports(self) -> bool {
        self is Tcp || self is Udp
    }
}

impl TrafficTransport {
    /// A stable name for the kind of transport.
    fn label(&self) -> (r: &'static str)
        ensures
            r@ == self.deep_view().label(),
    {
        match self {
            TrafficTransport::Tcp => "tcp",
            TrafficTransport::Udp => "udp",
            TrafficTransport::Icmp { .. } => "icmp",
            TrafficTransport::RawProtocol { .. } => "raw_protocol",
        }
    }

    /// Whether the transport carries ports.
    fn uses_ports(&self) -> (r: bool)
        ensures
            r == self.deep_view().uses_ports(),
    {
        matches!(self, TrafficTransport::Tcp | TrafficTransport::Udp)
    }
}

/// Connection-tracking state declared by a scenario.
#[derive(Debug, Clone, Copy, PartialEq, Eq, Structural)]
pub enum TrafficConnectionState {
    /// A new flow with no established conntrack entry.
    New,
    /// Reserved for a future source-backed conntrack model.
    Established,
    /// Reserved for a future source-backed conntrack model.
    Related,
}

impl DeepView for TrafficConnectionState {
    type V = TrafficConnectionState;

    open spec fn deep_view(&self) -> TrafficConnectionState {
        *self
    }
}

impl Value for TrafficConnectionState {
    fn same(&self, other: &Self) -> (r: bool) {
        *self == *other
    }

    fn dup(&self) -> (r: Self) {
        *self
    }
}

impl Default for TrafficConnectionState {
    fn default() -> (r: Self)
        ensures
            r == TrafficConnectionState::New,
    {
        TrafficConnectionState::New
    }
}

/// Operational importance of one expectation.
#[derive(Debug, Clone, Copy, PartialEq, Eq, Structural)]
pub enum TrafficSeverity {
    /// A violated result may participate in a later mutation safety gate.
    Critical,
    /// A violated result is informational unless explicitly promoted.
    Advisory,
}

impl DeepView for TrafficSeverity {
    type V = TrafficSeverity;

    open spec fn deep_view(&self) -> TrafficSeverity {
        *self
    }
}

impl Value for TrafficSeverity {
    fn same(&self, other: &Self) -> (r: bool) {
        *self == *other
    }

    fn dup(&self) -> (r: Self) {
        *self
    }
}

/// One persisted traffic expectation.
#[derive(Debug, PartialEq, Eq)]
pub struct TrafficScenario {
    /// Stable identity within the suite.
    pub id: TrafficScenarioId,
    /// Operator-facing name.
    pub name: String,
    /// Whether normal suite runs evaluate this scenario.
    pub enabled: bool,
    /// Direction of travel.
    pub direction: TrafficDirection,
    /// Source IP address or CIDR.
    pub source: SourceAddress,
    /// Optional ingress interface hint.
    pub ingress_interface: Option<InterfaceName>,
    /// Optional explicit ingress zone hint.
    pub ingress_zone: Option<ZoneName>,
    /// Local or explicit destination.
    pub destination: TrafficDestination,
    /// Optional egress interface hint for later directions.
    pub egress_interface: Option<InterfaceName>,
    /// Optional egress zone hint for later directions.
    pub egress_zone: Option<ZoneName>,
    /// Transport or raw protocol.
    pub transport: TrafficTransport,
    /// Required for TCP and UDP, forbidden for portless transports.
    pub destination_port: Option<PortSelector>,
    /// Optional TCP or UDP source port.
    pub source_port: Option<PortSelector>,
    /// Declared conntrack state.
    pub connection_state: TrafficConnectionState,
    /// Operator-declared expected decision.
    pub expectation: TrafficExpectation,
    /// Operational importance.
    pub severity: TrafficSeverity,
    /// Whether a later phase should count this scenario in mutation gates.
    pub required_safety_gate: bool,
    /// Optional operator context, never command output or credentials.
    pub note: Option<String>,
}

/// What a `TrafficScenario` models.
#[verifier::ext_equal]
pub struct TrafficScenarioView {
    pub id: Seq<char>,
    pub name: Seq<char>,
    pub enabled: bool,
    pub direction: TrafficDirection,
    pub source: SourceAddressView,
    pub ingress_interface: Option<Seq<char>>,
    pub ingress_zone: Option<Seq<char>>,
    pub destination: TrafficDestinationView,
    pub egress_interface: Option<Seq<char>>,
    pub egress_zone: Option<Seq<char>>,
    pub transport: TrafficTransportView,
    pub destination_port: Option<PortSelectorView>,
    pub source_port: Option<PortSelectorView>,
    pub connection_state: TrafficConnectionState,
    pub expectation: TrafficExpectation,
    pub severity: TrafficSeverity,
    pub required_safety_gate: bool,
    pub note: Option<Seq<char>>,
}

impl DeepView for TrafficScenario {
    type V = TrafficScenarioView;

    open spec fn deep_view(&self) -> TrafficScenarioView {
        TrafficScenarioView {
            id: self.id.deep_view(),
            name: self.name.deep_view(),
            enabled: self.enabled.deep_view(),
            direction: self.direction.deep_view(),
            source: self.source.deep_view(),
            ingress_interface: self.ingress_interface.deep_view(),
            ingress_zone: self.ingress_zone.deep_view(),
            destination: self.destination.deep_view(),
            egress_interface: self.egress_interface.deep_view(),
            egress_zone: self.egress_zone.deep_view(),
            transport: self.transport.deep_view(),
            destination_port: self.destination_port.deep_view(),
            source_port: self.source_port.deep_view(),
            connection_state: self.connection_state.deep_view(),
            expectation: self.expectation.deep_view(),
            severity: self.severity.deep_view(),
            required_safety_gate: self.required_safety_gate.deep_view(),
            note: self.note.deep_view(),
        }
    }
}

impl Value for TrafficScenario {
    fn same(&self, other: &Self) -> (r: bool) {
        self.id.same(&other.id)
            && self.name.same(&other.name)
            && self.enabled == other.enabled
            && self.direction == other.direction
            && self.source.same(&other.source)
            && self.ingress_interface.same(&other.ingress_interface)
            && self.ingress_zone.same(&other.ingress_zone)
            && self.destination.same(&other.destination)
            && self.egress_interface.same(&other.egress_interface)
            && self.egress_zone.same(&other.egress_zone)
            && self.transport.same(&other.transport)
            && self.destination_port.same(&other.destination_port)
            && self.source_port.same(&other.source_port)
            && self.connection_state == other.connection_state
            && self.expectation == other.expectation
            && self.severity == other.severity
            && self.required_safety_gate == other.required_safety_gate
            && self.note.same(&other.note)
    }

    fn dup(&self) -> (r: Self) {
        TrafficScenario {
            id: self.id.dup(),
            name: self.name.dup(),
            enabled: self.enabled,
            direction: self.direction,
            source: self.source.dup(),
            ingress_interface: self.ingress_interface.dup(),
            ingress_zone: self.ingress_zone.dup(),
            destination: self.destination.dup(),
            egress_interface: self.egress_interface.dup(),
            egress_zone: self.egress_zone.dup(),
            transport: self.transport.dup(),
            destination_port: self.destination_port.dup(),
            source_port: self.source_port.dup(),
            connection_state: self.connection_state,
            expectation: self.expectation,
            severity: self.severity,
            required_safety_gate: self.required_safety_gate,
            note: self.note.dup(),
        }
    }
}

impl Clone for TrafficScenario {
    fn clone(&self) -> (r: Self)
        ensures
            r.deep_view() == self.deep_view(),
    {
        self.dup()
    }
}

/// One version-independent set of traffic expectations.
#[derive(Debug, PartialEq, Eq)]
pub struct TrafficSuite {
    /// Stable suite identity.
    pub id: TrafficSuiteId,
    /// Operator-facing name.
    pub name: String,
    /// Persisted optimistic-concurrency revision.
    pub revision: TrafficSuiteRevision,
    /// Ordered scenarios. Order is retained for predictable operator review.
    pub scenarios: Vec<TrafficScenario>,
}

/// What a `TrafficSuite` models.
#[verifier::ext_equal]
pub struct TrafficSuiteView {
    pub id: Seq<char>,
    pub name: Seq<char>,
    pub revision: u64,
    pub scenarios: Seq<TrafficScenarioView>,
}

impl DeepView for TrafficSuite {
    type V = TrafficSuiteView;

    open spec fn deep_view(&self) -> TrafficSuiteView {
        TrafficSuiteView {
            id: self.id.deep_view(),
            name: self.name.deep_view(),
            revision: self.revision.deep_view(),
            scenarios: self.scenarios.deep_view(),
        }
    }
}

impl Value for TrafficSuite {
    fn same(&self, other: &Self) -> (r: bool) {
        self.id.same(&other.id)
            && self.name.same(&other.name)
            && self.revision.same(&other.revision)
            && self.scenarios.same(&other.scenarios)
    }

    fn dup(&self) -> (r: Self) {
        TrafficSuite {
            id: self.id.dup(),
            name: self.name.dup(),
            revision: self.revision.dup(),
            scenarios: self.scenarios.dup(),
        }
    }
}

impl Clone for TrafficSuite {
    fn clone(&self) -> (r: Self)
        ensures
            r.deep_view() == self.deep_view(),
    {
        self.dup()
    }
}

/// Invalid traffic-suite input rejected before evaluation or persistence.
#[derive(Debug, PartialEq, Eq)]
pub enum TrafficValidationError {
    /// A stable identifier is empty or whitespace-only.
    EmptyId {
        /// Identifier family.
        kind: &'static str,
    },
    /// A stable identifier is too long.
    IdTooLong {
        /// Identifier family.
        kind: &'static str,
        /// Actual UTF-8 byte length.
        actual: usize,
        /// Maximum byte length.
        max: usize,
    },
    /// A stable identifier contains an unsupported character.
    InvalidIdCharacter {
        /// Identifier family.
        kind: &'static str,
        /// Rejected character.
        character: char,
    },
    /// A suite or scenario name is empty.
    EmptyName {
        /// Object family.
        kind: &'static str,
    },
    /// User-visible text exceeds its UTF-8 byte limit.
    TextTooLong {
        /// Field family.
        kind: &'static str,
        /// Actual UTF-8 byte length.
        actual: usize,
        /// Maximum byte length.
        max: usize,
    },
    /// User-visible text contains a control character.
    TextContainsControl {
        /// Field family.
        kind: &'static str,
    },
    /// Revision zero cannot identify persisted state.
    ZeroSuiteRevision,
    /// More scenarios were supplied than bounded execution permits.
    TooManyScenarios {
        /// Actual count.
        count: usize,
        /// Maximum count.
        max: usize,
    },
    /// Two scenarios share one stable identity.
    DuplicateScenarioId(TrafficScenarioId),
    /// The source must be an IP address or CIDR, not a MAC or IP set.
    SourceMustBeIpAddress,
    /// An explicit destination must be an IP address or CIDR.
    DestinationMustBeIpAddress,
    /// Source and destination IP families differ.
    AddressFamilyMismatch,
    /// Interface and explicit zone cannot both select ingress.
    ConflictingIngressHints,
    /// Interface and explicit zone cannot both select egress.
    ConflictingEgressHints,
    /// Port-based transports require a destination port.
    DestinationPortRequired,
    /// ICMP and raw-protocol scenarios cannot carry ports.
    PortsNotAllowed {
        /// Stable transport label.
        transport: &'static str,
    },
}

/// What a `TrafficValidationError` models.
#[verifier::ext_equal]
pub enum TrafficValidationErrorView {
    EmptyId { kind: Seq<char> },
    IdTooLong { kind: Seq<char>, actual: usize, max: usize },
    InvalidIdCharacter { kind: Seq<char>, character: char },
    EmptyName { kind: Seq<char> },
    TextTooLong { kind: Seq<char>, actual: usize, max: usize },
    TextContainsControl { kind: Seq<char> },
    ZeroSuiteRevision,
    TooManyScenarios { count: usize, max: usize },
    DuplicateScenarioId(Seq<char>),
    SourceMustBeIpAddress,
    DestinationMustBeIpAddress,
    AddressFamilyMismatch,
    ConflictingIngressHints,
    ConflictingEgressHints,
    DestinationPortRequired,
    PortsNotAllowed { transport: Seq<char> },
}

impl DeepView for TrafficValidationError {
    type V = TrafficValidationErrorView;

    open spec fn deep_view(&self) -> TrafficValidationErrorView {
        match self {
            TrafficValidationError::EmptyId { kind } => TrafficValidationErrorView::EmptyId {
                kind: kind@
            },
            TrafficValidationError::IdTooLong { kind, actual, max } =>
                TrafficValidationErrorView::IdTooLong {
                    kind: kind@,
                    actual: actual.deep_view(),
                    max: max.deep_view(),
                },
            TrafficValidationError::InvalidIdCharacter { kind, character } =>
                TrafficValidationErrorView::InvalidIdCharacter {
                    kind: kind@,
                    character: character.deep_view(),
                },
            TrafficValidationError::EmptyName { kind } => TrafficValidationErrorView::EmptyName {
                kind: kind@
            },
            TrafficValidationError::TextTooLong { kind, actual, max } =>
                TrafficValidationErrorView::TextTooLong {
                    kind: kind@,
                    actual: actual.deep_view(),
                    max: max.deep_view(),
                },
            TrafficValidationError::TextContainsControl { kind } =>
                TrafficValidationErrorView::TextContainsControl { kind: kind@ },
            TrafficValidationError::ZeroSuiteRevision =>
                TrafficValidationErrorView::ZeroSuiteRevision,
            TrafficValidationError::TooManyScenarios { count, max } =>
                TrafficValidationErrorView::TooManyScenarios {
                    count: count.deep_view(),
                    max: max.deep_view(),
                },
            TrafficValidationError::DuplicateScenarioId(x0) =>
                TrafficValidationErrorView::DuplicateScenarioId(x0.deep_view()),
            TrafficValidationError::SourceMustBeIpAddress =>
                TrafficValidationErrorView::SourceMustBeIpAddress,
            TrafficValidationError::DestinationMustBeIpAddress =>
                TrafficValidationErrorView::DestinationMustBeIpAddress,
            TrafficValidationError::AddressFamilyMismatch =>
                TrafficValidationErrorView::AddressFamilyMismatch,
            TrafficValidationError::ConflictingIngressHints =>
                TrafficValidationErrorView::ConflictingIngressHints,
            TrafficValidationError::ConflictingEgressHints =>
                TrafficValidationErrorView::ConflictingEgressHints,
            TrafficValidationError::DestinationPortRequired =>
                TrafficValidationErrorView::DestinationPortRequired,
            TrafficValidationError::PortsNotAllowed { transport } =>
                TrafficValidationErrorView::PortsNotAllowed { transport: transport@ },
        }
    }
}

impl Value for TrafficValidationError {
    fn same(&self, other: &Self) -> (r: bool) {
        match (self, other) {
            (
                TrafficValidationError::EmptyId { kind },
                TrafficValidationError::EmptyId { kind: kind_other },
            ) => text::same(kind, kind_other),
            (
                TrafficValidationError::IdTooLong { kind, actual, max },
                TrafficValidationError::IdTooLong {
                    kind: kind_other,
                    actual: actual_other,
                    max: max_other,
                },
            ) => text::same(kind, kind_other) && *actual == *actual_other && *max == *max_other,
            (
                TrafficValidationError::InvalidIdCharacter { kind, character },
                TrafficValidationError::InvalidIdCharacter {
                    kind: kind_other,
                    character: character_other,
                },
            ) => text::same(kind, kind_other) && *character == *character_other,
            (
                TrafficValidationError::EmptyName { kind },
                TrafficValidationError::EmptyName { kind: kind_other },
            ) => text::same(kind, kind_other),
            (
                TrafficValidationError::TextTooLong { kind, actual, max },
                TrafficValidationError::TextTooLong {
                    kind: kind_other,
                    actual: actual_other,
                    max: max_other,
                },
            ) => text::same(kind, kind_other) && *actual == *actual_other && *max == *max_other,
            (
                TrafficValidationError::TextContainsControl { kind },
                TrafficValidationError::TextContainsControl { kind: kind_other },
            ) => text::same(kind, kind_other),
            (
                TrafficValidationError::ZeroSuiteRevision,
                TrafficValidationError::ZeroSuiteRevision,
            ) => true,
            (
                TrafficValidationError::TooManyScenarios { count, max },
                TrafficValidationError::TooManyScenarios { count: count_other, max: max_other },
            ) => *count == *count_other && *max == *max_other,
            (
                TrafficValidationError::DuplicateScenarioId(x0),
                TrafficValidationError::DuplicateScenarioId(x0_other),
            ) => x0.same(x0_other),
            (
                TrafficValidationError::SourceMustBeIpAddress,
                TrafficValidationError::SourceMustBeIpAddress,
            ) => true,
            (
                TrafficValidationError::DestinationMustBeIpAddress,
                TrafficValidationError::DestinationMustBeIpAddress,
            ) => true,
            (
                TrafficValidationError::AddressFamilyMismatch,
                TrafficValidationError::AddressFamilyMismatch,
            ) => true,
            (
                TrafficValidationError::ConflictingIngressHints,
                TrafficValidationError::ConflictingIngressHints,
            ) => true,
            (
                TrafficValidationError::ConflictingEgressHints,
                TrafficValidationError::ConflictingEgressHints,
            ) => true,
            (
                TrafficValidationError::DestinationPortRequired,
                TrafficValidationError::DestinationPortRequired,
            ) => true,
            (
                TrafficValidationError::PortsNotAllowed { transport },
                TrafficValidationError::PortsNotAllowed { transport: transport_other },
            ) => text::same(transport, transport_other),
            _ => false,
        }
    }

    fn dup(&self) -> (r: Self) {
        match self {
            TrafficValidationError::EmptyId { kind } => TrafficValidationError::EmptyId {
                kind: kind
            },
            TrafficValidationError::IdTooLong { kind, actual, max } =>
                TrafficValidationError::IdTooLong { kind: kind, actual: *actual, max: *max },
            TrafficValidationError::InvalidIdCharacter { kind, character } =>
                TrafficValidationError::InvalidIdCharacter { kind: kind, character: *character },
            TrafficValidationError::EmptyName { kind } => TrafficValidationError::EmptyName {
                kind: kind
            },
            TrafficValidationError::TextTooLong { kind, actual, max } =>
                TrafficValidationError::TextTooLong { kind: kind, actual: *actual, max: *max },
            TrafficValidationError::TextContainsControl { kind } =>
                TrafficValidationError::TextContainsControl { kind: kind },
            TrafficValidationError::ZeroSuiteRevision => TrafficValidationError::ZeroSuiteRevision,
            TrafficValidationError::TooManyScenarios { count, max } =>
                TrafficValidationError::TooManyScenarios { count: *count, max: *max },
            TrafficValidationError::DuplicateScenarioId(x0) =>
                TrafficValidationError::DuplicateScenarioId(x0.dup()),
            TrafficValidationError::SourceMustBeIpAddress =>
                TrafficValidationError::SourceMustBeIpAddress,
            TrafficValidationError::DestinationMustBeIpAddress =>
                TrafficValidationError::DestinationMustBeIpAddress,
            TrafficValidationError::AddressFamilyMismatch =>
                TrafficValidationError::AddressFamilyMismatch,
            TrafficValidationError::ConflictingIngressHints =>
                TrafficValidationError::ConflictingIngressHints,
            TrafficValidationError::ConflictingEgressHints =>
                TrafficValidationError::ConflictingEgressHints,
            TrafficValidationError::DestinationPortRequired =>
                TrafficValidationError::DestinationPortRequired,
            TrafficValidationError::PortsNotAllowed { transport } =>
                TrafficValidationError::PortsNotAllowed { transport: transport },
        }
    }
}

impl Clone for TrafficValidationError {
    fn clone(&self) -> (r: Self)
        ensures
            r.deep_view() == self.deep_view(),
    {
        self.dup()
    }
}

impl TrafficValidationErrorView {
    /// The sentence that describes the failure.
    pub open spec fn message(self) -> Seq<char> {
        match self {
            TrafficValidationErrorView::EmptyId { kind } => kind + " cannot be empty"@,
            TrafficValidationErrorView::IdTooLong { kind, actual, max } => kind + " is "@
                + number::decimal(actual as nat) + " bytes; maximum is "@
                + number::decimal(max as nat),
            TrafficValidationErrorView::InvalidIdCharacter { kind, character } => kind
                + " contains invalid character `"@ + seq![character] + "`"@,
            TrafficValidationErrorView::EmptyName { kind } => kind + " name cannot be empty"@,
            TrafficValidationErrorView::TextTooLong { kind, actual, max } => kind + " is "@
                + number::decimal(actual as nat) + " bytes; maximum is "@
                + number::decimal(max as nat),
            TrafficValidationErrorView::TextContainsControl { kind } => kind
                + " contains a control character"@,
            TrafficValidationErrorView::ZeroSuiteRevision => "suite revision must be non-zero"@,
            TrafficValidationErrorView::TooManyScenarios { count, max } => "suite contains "@
                + number::decimal(count as nat) + " scenarios; maximum is "@
                + number::decimal(max as nat),
            TrafficValidationErrorView::DuplicateScenarioId(x0) => "duplicate scenario ID `"@ + x0
                + "`"@,
            TrafficValidationErrorView::SourceMustBeIpAddress =>
                "scenario source must be an IP address or CIDR"@,
            TrafficValidationErrorView::DestinationMustBeIpAddress =>
                "scenario destination must be an IP address or CIDR"@,
            TrafficValidationErrorView::AddressFamilyMismatch =>
                "source and destination address families differ"@,
            TrafficValidationErrorView::ConflictingIngressHints =>
                "ingress interface and ingress zone hints are mutually exclusive"@,
            TrafficValidationErrorView::ConflictingEgressHints =>
                "egress interface and egress zone hints are mutually exclusive"@,
            TrafficValidationErrorView::DestinationPortRequired =>
                "TCP and UDP scenarios require a destination port"@,
            TrafficValidationErrorView::PortsNotAllowed { transport } => transport
                + " scenarios cannot contain source or destination ports"@,
        }
    }
}

impl TrafficValidationError {
    /// The sentence that describes the failure.
    pub fn message(&self) -> (r: String)
        ensures
            r@ == self.deep_view().message(),
    {
        match self {
            TrafficValidationError::EmptyId { kind } => text::cat2(kind, " cannot be empty"),
            TrafficValidationError::IdTooLong { kind, actual, max } => {
                let actual_text = number::show(*actual as u64);
                let max_text = number::show(*max as u64);
                text::cat5(
                    kind,
                    " is ",
                    actual_text.as_str(),
                    " bytes; maximum is ",
                    max_text.as_str(),
                )
            },
            TrafficValidationError::InvalidIdCharacter { kind, character } => {
                let character_text = text::of_char(*character);
                text::cat4(kind, " contains invalid character `", character_text.as_str(), "`")
            },
            TrafficValidationError::EmptyName { kind } => text::cat2(kind, " name cannot be empty"),
            TrafficValidationError::TextTooLong { kind, actual, max } => {
                let actual_text = number::show(*actual as u64);
                let max_text = number::show(*max as u64);
                text::cat5(
                    kind,
                    " is ",
                    actual_text.as_str(),
                    " bytes; maximum is ",
                    max_text.as_str(),
                )
            },
            TrafficValidationError::TextContainsControl { kind } => text::cat2(
                kind,
                " contains a control character",
            ),
            TrafficValidationError::ZeroSuiteRevision =>
                "suite revision must be non-zero".to_owned(),
            TrafficValidationError::TooManyScenarios { count, max } => {
                let count_text = number::show(*count as u64);
                let max_text = number::show(*max as u64);
                text::cat4(
                    "suite contains ",
                    count_text.as_str(),
                    " scenarios; maximum is ",
                    max_text.as_str(),
                )
            },
            TrafficValidationError::DuplicateScenarioId(x0) => text::cat3(
                "duplicate scenario ID `",
                x0.as_str(),
                "`",
            ),
            TrafficValidationError::SourceMustBeIpAddress =>
                "scenario source must be an IP address or CIDR".to_owned(),
            TrafficValidationError::DestinationMustBeIpAddress =>
                "scenario destination must be an IP address or CIDR".to_owned(),
            TrafficValidationError::AddressFamilyMismatch =>
                "source and destination address families differ".to_owned(),
            TrafficValidationError::ConflictingIngressHints =>
                "ingress interface and ingress zone hints are mutually exclusive".to_owned(),
            TrafficValidationError::ConflictingEgressHints =>
                "egress interface and egress zone hints are mutually exclusive".to_owned(),
            TrafficValidationError::DestinationPortRequired =>
                "TCP and UDP scenarios require a destination port".to_owned(),
            TrafficValidationError::PortsNotAllowed { transport } => text::cat2(
                transport,
                " scenarios cannot contain source or destination ports",
            ),
        }
    }
}

// ---------------------------------------------------------------------------
// The rules
// ---------------------------------------------------------------------------
/// A character that may stand in an identifier.
pub open spec fn id_char(c: char) -> bool {
    text::alnum(c) || c == '-' || c == '_' || c == '.'
}

/// The characters that may not stand in an identifier.
pub open spec fn unfit_char() -> spec_fn(char) -> bool {
    |c: char| !id_char(c)
}

/// Why `raw` is no identifier of the given kind, if it is none.
pub open spec fn id_objection(kind: Seq<char>, raw: Seq<char>) -> Option<
    TrafficValidationErrorView,
> {
    if text::trimmed(raw).len() == 0 {
        Some(TrafficValidationErrorView::EmptyId { kind })
    } else if text::utf8_len(raw) > MAX_TRAFFIC_ID_BYTES {
        Some(
            TrafficValidationErrorView::IdTooLong {
                kind,
                actual: text::utf8_len(raw) as usize,
                max: MAX_TRAFFIC_ID_BYTES,
            },
        )
    } else {
        match lists::first(raw, unfit_char()) {
            Some(character) => Some(
                TrafficValidationErrorView::InvalidIdCharacter { kind, character },
            ),
            None => None,
        }
    }
}

/// Why `raw` cannot be shown as text of the given kind, if it cannot.
pub open spec fn text_objection(kind: Seq<char>, raw: Seq<char>, max: usize) -> Option<
    TrafficValidationErrorView,
> {
    if text::trimmed(raw).len() == 0 {
        Some(TrafficValidationErrorView::EmptyName { kind })
    } else if text::utf8_len(raw) > max {
        Some(
            TrafficValidationErrorView::TextTooLong {
                kind,
                actual: text::utf8_len(raw) as usize,
                max,
            },
        )
    } else if exists|i: int| 0 <= i < raw.len() && text::control(#[trigger] raw[i]) {
        Some(TrafficValidationErrorView::TextContainsControl { kind })
    } else {
        None
    }
}

fn validate_id(raw: &str, kind: &'static str) -> (r: Result<(), TrafficValidationError>)
    ensures
        match r {
            Ok(_) => id_objection(kind@, raw@) is None,
            Err(e) => id_objection(kind@, raw@) == Some(e.deep_view()),
        },
{
    if text::trim(raw).unicode_len() == 0 {
        return Err(TrafficValidationError::EmptyId { kind });
    }
    let actual: usize = text::byte_len(raw);
    if actual > MAX_TRAFFIC_ID_BYTES {
        return Err(TrafficValidationError::IdTooLong { kind, actual, max: MAX_TRAFFIC_ID_BYTES });
    }
    let chars = text::chars_of(raw);
    let mut i: usize = 0;
    assert(raw@.skip(0) =~= raw@);
    while i < chars.len()
        invariant
            chars@ == raw@,
            i <= chars@.len(),
            lists::first(raw@, unfit_char()) == lists::first(raw@.skip(i as int), unfit_char()),
            text::trimmed(raw@).len() != 0,
            text::utf8_len(raw@) <= MAX_TRAFFIC_ID_BYTES,
        decreases chars.len() - i,
    {
        let character = chars[i];
        assert(raw@.skip(i as int)[0] == character);
        if !text::is_alnum(character) && character != '-' && character != '_' && character != '.' {
            assert(unfit_char()(character));
            return Err(TrafficValidationError::InvalidIdCharacter { kind, character });
        }
        assert(raw@.skip(i as int).skip(1) =~= raw@.skip(i + 1));
        i = i + 1;
    }
    Ok(())
}

fn validate_text(kind: &'static str, raw: &str, max: usize) -> (r: Result<
    (),
    TrafficValidationError,
>)
    ensures
        match r {
            Ok(_) => text_objection(kind@, raw@, max) is None,
            Err(e) => text_objection(kind@, raw@, max) == Some(e.deep_view()),
        },
{
    if text::trim(raw).unicode_len() == 0 {
        return Err(TrafficValidationError::EmptyName { kind });
    }
    let actual: usize = text::byte_len(raw);
    if actual > max {
        return Err(TrafficValidationError::TextTooLong { kind, actual, max });
    }
    let chars = text::chars_of(raw);
    let mut i: usize = 0;
    while i < chars.len()
        invariant
            chars@ == raw@,
            i <= chars@.len(),
            forall|j: int| 0 <= j < i ==> !text::control(#[trigger] raw@[j]),
            text::trimmed(raw@).len() != 0,
            text::utf8_len(raw@) <= max,
        decreases chars.len() - i,
    {
        if text::is_control(chars[i]) {
            assert(text::control(raw@[i as int]));
            return Err(TrafficValidationError::TextContainsControl { kind });
        }
        i = i + 1;
    }
    Ok(())
}

impl TrafficScenarioView {
    /// Why the name or the note cannot be kept, if one cannot.
    pub open spec fn wording_objection(self) -> Option<TrafficValidationErrorView> {
        match text_objection("scenario"@, self.name, MAX_TRAFFIC_NAME_BYTES) {
            Some(e) => Some(e),
            None => match self.note {
                Some(note) => text_objection("scenario note"@, note, MAX_TRAFFIC_NOTE_BYTES),
                None => None,
            },
        }
    }

    /// Why the hints on the way in and out cannot stand together, if so.
    pub open spec fn hints_objection(self) -> Option<TrafficValidationErrorView> {
        if self.ingress_interface is Some && self.ingress_zone is Some {
            Some(TrafficValidationErrorView::ConflictingIngressHints)
        } else if self.egress_interface is Some && self.egress_zone is Some {
            Some(TrafficValidationErrorView::ConflictingEgressHints)
        } else {
            None
        }
    }

    /// Why the addresses do not describe IP traffic of one family, if so.
    pub open spec fn address_objection(self) -> Option<TrafficValidationErrorView> {
        match self.source.family() {
            None => Some(TrafficValidationErrorView::SourceMustBeIpAddress),
            Some(family) => match self.destination {
                TrafficDestinationView::LocalHost => None,
                TrafficDestinationView::Address(destination) => match destination.family() {
                    None => Some(TrafficValidationErrorView::DestinationMustBeIpAddress),
                    Some(other) => if family != other {
                        Some(TrafficValidationErrorView::AddressFamilyMismatch)
                    } else {
                        None
                    },
                },
            },
        }
    }

    /// Why the ports do not suit the transport, if so.
    pub open spec fn port_objection(self) -> Option<TrafficValidationErrorView> {
        if self.transport.uses_ports() {
            if self.destination_port is None {
                Some(TrafficValidationErrorView::DestinationPortRequired)
            } else {
                None
            }
        } else if self.destination_port is Some || self.source_port is Some {
            Some(
                TrafficValidationErrorView::PortsNotAllowed { transport: self.transport.label() },
            )
        } else {
            None
        }
    }

    /// The first reason to reject the scenario: its wording, its hints, its
    /// addresses, its ports.
    pub open spec fn objection(self) -> Option<TrafficValidationErrorView> {
        if self.wording_objection() is Some {
            self.wording_objection()
        } else if self.hints_objection() is Some {
            self.hints_objection()
        } else if self.address_objection() is Some {
            self.address_objection()
        } else {
            self.port_objection()
        }
    }
}

impl TrafficScenario {
    /// Validates persistence and semantic shape without claiming evaluator support.
    pub fn validate(&self) -> (r: Result<(), TrafficValidationError>)
        ensures
            match r {
                Ok(_) => self.deep_view().objection() is None,
                Err(e) => self.deep_view().objection() == Some(e.deep_view()),
            },
    {
        if let Err(e) = validate_text("scenario", self.name.as_str(), MAX_TRAFFIC_NAME_BYTES) {
            return Err(e);
        }
        if let Some(note) = &self.note {
            if let Err(e) = validate_text("scenario note", note.as_str(), MAX_TRAFFIC_NOTE_BYTES) {
                return Err(e);
            }
        }
        if self.ingress_interface.is_some() && self.ingress_zone.is_some() {
            return Err(TrafficValidationError::ConflictingIngressHints);
        }
        if self.egress_interface.is_some() && self.egress_zone.is_some() {
            return Err(TrafficValidationError::ConflictingEgressHints);
        }
        let source_family = match self.source.family() {
            Some(family) => family,
            None => {
                return Err(TrafficValidationError::SourceMustBeIpAddress);
            },
        };
        if let TrafficDestination::Address(destination) = &self.destination {
            match destination.family() {
                Some(family) => {
                    if source_family != family {
                        return Err(TrafficValidationError::AddressFamilyMismatch);
                    }
                },
                None => {
                    return Err(TrafficValidationError::DestinationMustBeIpAddress);
                },
            }
        }
        if self.transport.uses_ports() {
            if self.destination_port.is_none() {
                return Err(TrafficValidationError::DestinationPortRequired);
            }
        } else if self.destination_port.is_some() || self.source_port.is_some() {
            return Err(
                TrafficValidationError::PortsNotAllowed { transport: self.transport.label() },
            );
        }
        Ok(())
    }
}

/// An earlier scenario than the `i`th has its identity.
pub open spec fn repeated(scenarios: Seq<TrafficScenarioView>, i: int) -> bool {
    exists|j: int| 0 <= j < i && (#[trigger] scenarios[j]).id == scenarios[i].id
}

/// The first reason to reject one of the scenarios from the `i`th on: its own
/// rules, or an identity that an earlier one has.
pub open spec fn scenarios_objection(scenarios: Seq<TrafficScenarioView>, i: int) -> Option<
    TrafficValidationErrorView,
>
    decreases scenarios.len() - i,
{
    if i < 0 || i >= scenarios.len() {
        None
    } else if scenarios[i].objection() is Some {
        scenarios[i].objection()
    } else if repeated(scenarios, i) {
        Some(TrafficValidationErrorView::DuplicateScenarioId(scenarios[i].id))
    } else {
        scenarios_objection(scenarios, i + 1)
    }
}

impl TrafficSuiteView {
    /// The first reason to reject the suite: its name, its size, a scenario.
    pub open spec fn objection(self) -> Option<TrafficValidationErrorView> {
        if text_objection("suite"@, self.name, MAX_TRAFFIC_NAME_BYTES) is Some {
            text_objection("suite"@, self.name, MAX_TRAFFIC_NAME_BYTES)
        } else if self.scenarios.len() > MAX_SCENARIOS_PER_SUITE {
            Some(
                TrafficValidationErrorView::TooManyScenarios {
                    count: self.scenarios.len() as usize,
                    max: MAX_SCENARIOS_PER_SUITE,
                },
            )
        } else {
            scenarios_objection(self.scenarios, 0)
        }
    }
}

proof fn accepted_from(scenarios: Seq<TrafficScenarioView>, k: int)
    requires
        0 <= k <= scenarios.len(),
        scenarios_objection(scenarios, k) is None,
    ensures
        forall|i: int| k <= i < scenarios.len() ==> (#[trigger] scenarios[i]).objection() is None,
        forall|i: int, j: int|
            k <= i < scenarios.len() && 0 <= j < i ==> (#[trigger] scenarios[i]).id != (
            #[trigger] scenarios[j]).id,
    decreases scenarios.len() - k,
{
    if k < scenarios.len() {
        accepted_from(scenarios, k + 1);
    }
}

/// An accepted suite is within its limit, each of its scenarios is acceptable
/// by itself, and no two of them share an identity.
pub proof fn accepted_suite(suite: TrafficSuiteView)
    requires
        suite.objection() is None,
    ensures
        suite.scenarios.len() <= MAX_SCENARIOS_PER_SUITE,
        forall|i: int|
            0 <= i < suite.scenarios.len() ==> (#[trigger] suite.scenarios[i]).objection() is None,
        forall|i: int, j: int|
            0 <= j < i < suite.scenarios.len() ==> (#[trigger] suite.scenarios[i]).id != (
            #[trigger] suite.scenarios[j]).id,
{
    accepted_from(suite.scenarios, 0);
}

impl TrafficSuite {
    fn is_repeated(&self, i: usize) -> (r: bool)
        requires
            i < self.deep_view().scenarios.len(),
        ensures
            r == repeated(self.deep_view().scenarios, i as int),
    {
        let ghost all = self.deep_view().scenarios;
        let mut j: usize = 0;
        while j < i
            invariant
                j <= i < self.scenarios@.len(),
                all == self.deep_view().scenarios,
                forall|k: int| 0 <= k < j ==> (#[trigger] all[k]).id != all[i as int].id,
            decreases i - j,
        {
            assert(all[j as int] == self.scenarios@[j as int].deep_view());
            assert(all[i as int] == self.scenarios@[i as int].deep_view());
            if self.scenarios[j].id.same(&self.scenarios[i].id) {
                return true;
            }
            j = j + 1;
        }
        false
    }

    /// Validates suite limits and every contained scenario.
    pub fn validate(&self) -> (r: Result<(), TrafficValidationError>)
        ensures
            match r {
                Ok(_) => self.deep_view().objection() is None,
                Err(e) => self.deep_view().objection() == Some(e.deep_view()),
            },
    {
        if let Err(e) = validate_text("suite", self.name.as_str(), MAX_TRAFFIC_NAME_BYTES) {
            return Err(e);
        }
        if self.scenarios.len() > MAX_SCENARIOS_PER_SUITE {
            return Err(
                TrafficValidationError::TooManyScenarios {
                    count: self.scenarios.len(),
                    max: MAX_SCENARIOS_PER_SUITE,
                },
            );
        }
        let ghost all = self.deep_view().scenarios;
        let mut i: usize = 0;
        while i < self.scenarios.len()
            invariant
                i <= self.scenarios@.len(),
                all == self.deep_view().scenarios,
                all.len() <= MAX_SCENARIOS_PER_SUITE,
                text_objection("suite"@, self.deep_view().name, MAX_TRAFFIC_NAME_BYTES) is None,
                scenarios_objection(all, 0) == scenarios_objection(all, i as int),
            decreases self.scenarios.len() - i,
        {
            assert(all[i as int] == self.scenarios@[i as int].deep_view());
            if let Err(e) = self.scenarios[i].validate() {
                return Err(e);
            }
            if self.is_repeated(i) {
                return Err(
                    TrafficValidationError::DuplicateScenarioId(self.scenarios[i].id.dup()),
                );
            }
            i = i + 1;
        }
        Ok(())
    }
}

/// What a scenario must be like to be accepted, beside its wording: it does not
/// name both an interface and a zone on one side, its source is an address, a
/// destination that it names is one of the same family, and it names a
/// destination port exactly if its transport has ports; a source port only if
/// it has.
pub proof fn accepted_scenarios(s: TrafficScenarioView)
    requires
        s.wording_objection() is None,
    ensures
        s.objection() is None == ({
            &&& !(s.ingress_interface is Some && s.ingress_zone is Some)
            &&& !(s.egress_interface is Some && s.egress_zone is Some)
            &&& s.source matches SourceAddressView::Ip { addr: a, .. } && match s.destination {
                TrafficDestinationView::LocalHost => true,
                TrafficDestinationView::Address(d) => d matches SourceAddressView::Ip {
                    addr: b,
                    ..
                } && (a is V4) == (b is V4),
            }
            &&& if s.transport is Tcp || s.transport is Udp {
                s.destination_port is Some
            } else {
                s.destination_port is None && s.source_port is None
            }
        }),
{
}

/// A scenario that is not accepted is refused for the first reason there is.
pub proof fn refused_scenarios(s: TrafficScenarioView)
    requires
        s.wording_objection() is None,
    ensures
        ({
            let ingress = s.ingress_interface is Some && s.ingress_zone is Some;
            let egress = s.egress_interface is Some && s.egress_zone is Some;
            let unsourced = !(s.source is Ip);
            let ports = s.transport is Tcp || s.transport is Udp;
            &&& ingress ==> s.objection() == Some(
                TrafficValidationErrorView::ConflictingIngressHints,
            )
            &&& !ingress && egress ==> s.objection() == Some(
                TrafficValidationErrorView::ConflictingEgressHints,
            )
            &&& !ingress && !egress && unsourced ==> s.objection() == Some(
                TrafficValidationErrorView::SourceMustBeIpAddress,
            )
            &&& !ingress && !egress && !unsourced && s.destination is LocalHost && ports
                && s.destination_port is None ==> s.objection() == Some(
                TrafficValidationErrorView::DestinationPortRequired,
            )
            &&& !ingress && !egress && !unsourced && s.destination is LocalHost && !ports && (
            s.destination_port is Some || s.source_port is Some) ==> s.objection()
                matches Some(TrafficValidationErrorView::PortsNotAllowed { .. })
        }),
{
}

} // verus!
