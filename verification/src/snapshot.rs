//! One immutable view of the complete firewall state. The UI only ever reads
//! from a snapshot; refreshes replace the whole thing atomically.

use vstd::prelude::*;

use crate::ids::{
    IpSetName,
    PolicyName,
    ServiceName,
    ValidationError,
    ValidationErrorView,
    ZoneName,
};
use crate::lists;
use crate::model;
use crate::model::Value;
use crate::name_map;
use crate::name_map::NameMap;
use crate::policy;
use crate::policy::{PolicyDetails, PolicyDetailsView};
use crate::service::{ServiceDefinition, ServiceDefinitionView};
use crate::text;
use crate::zone::{ActiveZone, ActiveZoneView, ZoneDetails, ZoneDetailsView};

verus! {

/// Which configuration a query or mutation applies to.
#[derive(Debug, Clone, Copy, PartialEq, Eq, Structural)]
pub enum ConfigurationTarget {
    /// The live in-kernel configuration; lost on reload or daemon restart.
    Runtime,
    /// The on-disk configuration; takes effect after a reload.
    Permanent,
    /// Both at once — the default for mutations, so changes apply now *and*
    /// survive a reload.
    RuntimeAndPermanent,
}

impl DeepView for ConfigurationTarget {
    type V = ConfigurationTarget;

    open spec fn deep_view(&self) -> ConfigurationTarget {
        *self
    }
}

impl Value for ConfigurationTarget {
    fn same(&self, other: &Self) -> (r: bool) {
        *self == *other
    }

    fn dup(&self) -> (r: Self) {
        *self
    }
}

impl Default for ConfigurationTarget {
    fn default() -> (r: Self)
        ensures
            r == ConfigurationTarget::RuntimeAndPermanent,
    {
        ConfigurationTarget::RuntimeAndPermanent
    }
}

impl ConfigurationTarget {
    pub open spec fn labelled(self) -> Seq<char> {
        match self {
            ConfigurationTarget::Runtime => "runtime"@,
            ConfigurationTarget::Permanent => "permanent"@,
            ConfigurationTarget::RuntimeAndPermanent => "runtime + permanent"@,
        }
    }

    /// Human-readable label for modal and toast text.
    pub fn label(self) -> (r: &'static str)
        ensures
            r@ == self.labelled(),
    {
        match self {
            ConfigurationTarget::Runtime => "runtime",
            ConfigurationTarget::Permanent => "permanent",
            ConfigurationTarget::RuntimeAndPermanent => "runtime + permanent",
        }
    }
}

/// Runtime and permanent views of the same firewalld resource family.
#[derive(Debug, PartialEq, Eq)]
#[verifier::ext_equal]
pub struct Scoped<T> {
    /// The live in-kernel state.
    pub runtime: T,
    /// The on-disk state activated by reload.
    pub permanent: T,
}

impl<T: DeepView> DeepView for Scoped<T> {
    type V = Scoped<T::V>;

    open spec fn deep_view(&self) -> Scoped<T::V> {
        Scoped { runtime: self.runtime.deep_view(), permanent: self.permanent.deep_view() }
    }
}

impl<T: Value> Value for Scoped<T> {
    fn same(&self, other: &Self) -> (r: bool) {
        self.runtime.same(&other.runtime) && self.permanent.same(&other.permanent)
    }

    fn dup(&self) -> (r: Self) {
        Scoped { runtime: self.runtime.dup(), permanent: self.permanent.dup() }
    }
}

impl<T: Value> Clone for Scoped<T> {
    fn clone(&self) -> (r: Self)
        ensures
            r.deep_view() == self.deep_view(),
    {
        self.dup()
    }
}

impl<T: Default> Default for Scoped<T> {
    fn default() -> (r: Self)
        ensures
            call_ensures(T::default, (), r.runtime),
            call_ensures(T::default, (), r.permanent),
    {
        Scoped { runtime: T::default(), permanent: T::default() }
    }
}

/// Snapshot section whose contents could not be observed completely.
#[derive(Debug, Clone, Copy, PartialEq, Eq, Structural)]
pub enum SnapshotSection {
    /// Runtime or permanent zone configuration.
    Zones,
    /// IP set definitions and entries.
    IpSets,
    /// Policy definitions.
    Policies,
    /// Deprecated direct rules.
    DirectRules,
    /// The service catalog.
    Services,
    /// Details of referenced service definitions.
    ServiceDefinitions,
    /// Compatibility notice for a snapshot written by an older schema.
    LegacySnapshot,
}

impl DeepView for SnapshotSection {
    type V = SnapshotSection;

    open spec fn deep_view(&self) -> SnapshotSection {
        *self
    }
}

impl Value for SnapshotSection {
    fn same(&self, other: &Self) -> (r: bool) {
        *self == *other
    }

    fn dup(&self) -> (r: Self) {
        *self
    }
}

impl SnapshotSection {
    pub open spec fn labelled(self) -> Seq<char> {
        match self {
            SnapshotSection::Zones => "zones"@,
            SnapshotSection::IpSets => "ipsets"@,
            SnapshotSection::Policies => "policies"@,
            SnapshotSection::DirectRules => "direct rules"@,
            SnapshotSection::Services => "services"@,
            SnapshotSection::ServiceDefinitions => "service definitions"@,
            SnapshotSection::LegacySnapshot => "legacy snapshot"@,
        }
    }

    /// Stable operator-facing section label.
    pub fn label(self) -> (r: &'static str)
        ensures
            r@ == self.labelled(),
    {
        match self {
            SnapshotSection::Zones => "zones",
            SnapshotSection::IpSets => "ipsets",
            SnapshotSection::Policies => "policies",
            SnapshotSection::DirectRules => "direct rules",
            SnapshotSection::Services => "services",
            SnapshotSection::ServiceDefinitions => "service definitions",
            SnapshotSection::LegacySnapshot => "legacy snapshot",
        }
    }
}

/// A structured observation failure. Keeping section, scope, and object
/// separate lets validation disable only mutations whose preconditions are
/// unknown instead of treating the whole snapshot as unusable.
#[derive(Debug, PartialEq, Eq)]
pub struct DegradedSection {
    /// Resource family affected by the failed observation.
    pub section: SnapshotSection,
    /// Affected configuration scope, when applicable.
    pub target: Option<ConfigurationTarget>,
    /// Specific object that failed to load, when known.
    pub object: Option<String>,
    /// Original failure detail, suitable for an operator.
    pub reason: String,
}

/// What a `DegradedSection` models.
#[verifier::ext_equal]
pub struct DegradedSectionView {
    pub section: SnapshotSection,
    pub target: Option<ConfigurationTarget>,
    pub object: Option<Seq<char>>,
    pub reason: Seq<char>,
}

impl DeepView for DegradedSection {
    type V = DegradedSectionView;

    open spec fn deep_view(&self) -> DegradedSectionView {
        DegradedSectionView {
            section: self.section.deep_view(),
            target: self.target.deep_view(),
            object: self.object.deep_view(),
            reason: self.reason.deep_view(),
        }
    }
}

impl Value for DegradedSection {
    fn same(&self, other: &Self) -> (r: bool) {
        self.section == other.section
            && self.target.same(&other.target)
            && self.object.same(&other.object)
            && self.reason.same(&other.reason)
    }

    fn dup(&self) -> (r: Self) {
        DegradedSection {
            section: self.section,
            target: self.target.dup(),
            object: self.object.dup(),
            reason: self.reason.dup(),
        }
    }
}

impl Clone for DegradedSection {
    fn clone(&self) -> (r: Self)
        ensures
            r.deep_view() == self.deep_view(),
    {
        self.dup()
    }
}

impl DegradedSectionView {
    /// The section that a free-form message is about.
    pub open spec fn legacy_section(lower: Seq<char>) -> SnapshotSection {
        if text::has(lower, "ipset"@) {
            SnapshotSection::IpSets
        } else if text::has(lower, "polic"@) {
            SnapshotSection::Policies
        } else if text::has(lower, "direct rule"@) {
            SnapshotSection::DirectRules
        } else if text::has(lower, "service definition"@) {
            SnapshotSection::ServiceDefinitions
        } else if text::has(lower, "service"@) {
            SnapshotSection::Services
        } else {
            SnapshotSection::Zones
        }
    }

    /// The scope that a free-form message starts with.
    pub open spec fn legacy_target(lower: Seq<char>) -> Option<ConfigurationTarget> {
        if text::occurs_at(lower, "runtime "@, 0) {
            Some(ConfigurationTarget::Runtime)
        } else if text::occurs_at(lower, "permanent "@, 0) {
            Some(ConfigurationTarget::Permanent)
        } else {
            None
        }
    }

    /// The record in one line.
    pub open spec fn spelled(self) -> Seq<char> {
        let a = self.section.labelled();
        let b = match self.target {
            Some(target) => a + " ["@ + target.labelled() + "]"@,
            None => a,
        };
        let c = match self.object {
            Some(object) => b + " `"@ + object + "`"@,
            None => b,
        };
        c + ": "@ + self.reason
    }

    /// Whether the record leaves a section unknown for a target. A record
    /// without a scope affects both configurations. A legacy snapshot cannot
    /// tell the scopes of ipsets and policies apart.
    pub open spec fn affects(self, section: SnapshotSection, target: ConfigurationTarget) -> bool {
        ||| self.section == section && overlapping(self.target, target)
        ||| self.section == SnapshotSection::LegacySnapshot && (section == SnapshotSection::IpSets
            || section == SnapshotSection::Policies)
    }
}

impl DegradedSection {
    /// Creates a section-level degradation record.
    pub fn new(
        section: SnapshotSection,
        target: Option<ConfigurationTarget>,
        reason: &str,
    ) -> (r: Self)
        ensures
            r.deep_view() == (
                DegradedSectionView { section, target, object: None, reason: reason@ }
            ),
    {
        DegradedSection { section, target, object: None, reason: reason.to_owned() }
    }

    /// Adds the affected object identity to this record.
    pub fn with_object(self, object: &str) -> (r: Self)
        ensures
            r.deep_view() == (DegradedSectionView { object: Some(object@), ..self.deep_view() }),
    {
        DegradedSection {
            section: self.section,
            target: self.target,
            object: Some(object.to_owned()),
            reason: self.reason,
        }
    }

    /// Converts a pre-v2 free-form degradation message.
    pub fn from_legacy(reason: String) -> (r: Self)
        ensures
            r.deep_view() == (DegradedSectionView {
                section: DegradedSectionView::legacy_section(text::lower(reason@)),
                target: DegradedSectionView::legacy_target(text::lower(reason@)),
                object: None,
                reason: reason@,
            }),
    {
        let lowered = text::to_lower(reason.as_str());
        let lower = lowered.as_str();
        let section = if text::contains(lower, "ipset") {
            SnapshotSection::IpSets
        } else if text::contains(lower, "polic") {
            SnapshotSection::Policies
        } else if text::contains(lower, "direct rule") {
            SnapshotSection::DirectRules
        } else if text::contains(lower, "service definition") {
            SnapshotSection::ServiceDefinitions
        } else if text::contains(lower, "service") {
            SnapshotSection::Services
        } else {
            SnapshotSection::Zones
        };
        let target = if text::starts_with(lower, "runtime ") {
            Some(ConfigurationTarget::Runtime)
        } else if text::starts_with(lower, "permanent ") {
            Some(ConfigurationTarget::Permanent)
        } else {
            None
        };
        DegradedSection { section, target, object: None, reason }
    }

    /// The record in one line.
    pub fn show(&self) -> (r: String)
        ensures
            r@ == self.deep_view().spelled(),
    {
        let mut out = self.section.label().to_owned();
        if let Some(target) = self.target {
            out.append(" [");
            out.append(target.label());
            out.append("]");
        }
        if let Some(object) = &self.object {
            out.append(" `");
            out.append(object.as_str());
            out.append("`");
        }
        out.append(": ");
        out.append(self.reason.as_str());
        out
    }

    /// Whether the record leaves a section unknown for a target.
    pub fn affects(&self, section: SnapshotSection, target: ConfigurationTarget) -> (r: bool)
        ensures
            r == self.deep_view().affects(section, target),
    {
        let legacy_scope_loss = self.section == SnapshotSection::LegacySnapshot && (section
            == SnapshotSection::IpSets || section == SnapshotSection::Policies);
        (self.section == section && targets_overlap(self.target, target)) || legacy_scope_loss
    }
}

/// firewalld's `LogDenied` setting.
#[derive(Debug, Clone, Copy, PartialEq, Eq, Structural)]
pub enum LogDenied {
    /// Denied packets are not logged.
    Off,
    /// Log every denied packet.
    All,
    /// Log denied unicast packets only.
    Unicast,
    /// Log denied broadcast packets only.
    Broadcast,
    /// Log denied multicast packets only.
    Multicast,
}

impl DeepView for LogDenied {
    type V = LogDenied;

    open spec fn deep_view(&self) -> LogDenied {
        *self
    }
}

impl Value for LogDenied {
    fn same(&self, other: &Self) -> (r: bool) {
        *self == *other
    }

    fn dup(&self) -> (r: Self) {
        *self
    }
}

impl Default for LogDenied {
    fn default() -> (r: Self)
        ensures
            r == LogDenied::Off,
    {
        LogDenied::Off
    }
}

impl LogDenied {
    /// The text of each variant.
    pub open spec fn spelled(self) -> Seq<char> {
        match self {
            LogDenied::Off => "off"@,
            LogDenied::All => "all"@,
            LogDenied::Unicast => "unicast"@,
            LogDenied::Broadcast => "broadcast"@,
            LogDenied::Multicast => "multicast"@,
        }
    }

    /// The spelling `firewall-cmd --set-log-denied` accepts.
    pub fn as_str(self) -> (r: &'static str)
        ensures
            r@ == self.spelled(),
    {
        match self {
            LogDenied::Off => "off",
            LogDenied::All => "all",
            LogDenied::Unicast => "unicast",
            LogDenied::Broadcast => "broadcast",
            LogDenied::Multicast => "multicast",
        }
    }
}

impl LogDenied {
    /// The setting that a keyword names.
    pub open spec fn parsed(s: Seq<char>) -> Result<LogDenied, ValidationErrorView> {
        if s == "off"@ {
            Ok(LogDenied::Off)
        } else if s == "all"@ {
            Ok(LogDenied::All)
        } else if s == "unicast"@ {
            Ok(LogDenied::Unicast)
        } else if s == "broadcast"@ {
            Ok(LogDenied::Broadcast)
        } else if s == "multicast"@ {
            Ok(LogDenied::Multicast)
        } else {
            Err(ValidationErrorView::InvalidLogDenied(s))
        }
    }

    /// Reads a setting.
    pub fn parse(s: &str) -> (r: Result<LogDenied, ValidationError>)
        ensures
            model::outcome(r) == Self::parsed(s@),
    {
        if text::same(s, "off") {
            Ok(LogDenied::Off)
        } else if text::same(s, "all") {
            Ok(LogDenied::All)
        } else if text::same(s, "unicast") {
            Ok(LogDenied::Unicast)
        } else if text::same(s, "broadcast") {
            Ok(LogDenied::Broadcast)
        } else if text::same(s, "multicast") {
            Ok(LogDenied::Multicast)
        } else {
            Err(ValidationError::InvalidLogDenied(s.to_owned()))
        }
    }
}

impl std::str::FromStr for LogDenied {
    type Err = ValidationError;

    fn from_str(s: &str) -> (r: Result<Self, ValidationError>)
        ensures
            model::outcome(r) == LogDenied::parsed(s@),
    {
        LogDenied::parse(s)
    }
}

/// Which netfilter backend firewalld drives.
#[derive(Debug, Clone, Copy, PartialEq, Eq, Structural)]
pub enum NetfilterBackend {
    /// The nftables backend (modern default).
    Nftables,
    /// The legacy iptables backend.
    Iptables,
    /// The backend could not be determined.
    Unknown,
}

impl DeepView for NetfilterBackend {
    type V = NetfilterBackend;

    open spec fn deep_view(&self) -> NetfilterBackend {
        *self
    }
}

impl Value for NetfilterBackend {
    fn same(&self, other: &Self) -> (r: bool) {
        *self == *other
    }

    fn dup(&self) -> (r: Self) {
        *self
    }
}

impl Default for NetfilterBackend {
    fn default() -> (r: Self)
        ensures
            r == NetfilterBackend::Unknown,
    {
        NetfilterBackend::Unknown
    }
}

impl NetfilterBackend {
    /// The text of each variant.
    pub open spec fn spelled(self) -> Seq<char> {
        match self {
            NetfilterBackend::Nftables => "nftables"@,
            NetfilterBackend::Iptables => "iptables"@,
            NetfilterBackend::Unknown => "unknown"@,
        }
    }

    /// Lowercase name for display.
    pub fn as_str(self) -> (r: &'static str)
        ensures
            r@ == self.spelled(),
    {
        match self {
            NetfilterBackend::Nftables => "nftables",
            NetfilterBackend::Iptables => "iptables",
            NetfilterBackend::Unknown => "unknown",
        }
    }
}

/// Daemon-level state and settings.
#[derive(Debug, PartialEq, Eq)]
pub struct FirewallStatus {
    /// Whether the firewalld daemon is up and answering.
    pub daemon_running: bool,
    /// Daemon version, when it could be queried.
    pub version: Option<String>,
    /// Netfilter backend in use.
    pub backend: NetfilterBackend,
    /// Current `LogDenied` setting.
    pub log_denied: LogDenied,
    /// Whether panic mode (drop every packet) is active.
    pub panic_mode: bool,
}

/// What a `FirewallStatus` models.
#[verifier::ext_equal]
pub struct FirewallStatusView {
    pub daemon_running: bool,
    pub version: Option<Seq<char>>,
    pub backend: NetfilterBackend,
    pub log_denied: LogDenied,
    pub panic_mode: bool,
}

impl DeepView for FirewallStatus {
    type V = FirewallStatusView;

    open spec fn deep_view(&self) -> FirewallStatusView {
        FirewallStatusView {
            daemon_running: self.daemon_running.deep_view(),
            version: self.version.deep_view(),
            backend: self.backend.deep_view(),
            log_denied: self.log_denied.deep_view(),
            panic_mode: self.panic_mode.deep_view(),
        }
    }
}

impl Value for FirewallStatus {
    fn same(&self, other: &Self) -> (r: bool) {
        self.daemon_running == other.daemon_running
            && self.version.same(&other.version)
            && self.backend == other.backend
            && self.log_denied == other.log_denied
            && self.panic_mode == other.panic_mode
    }

    fn dup(&self) -> (r: Self) {
        FirewallStatus {
            daemon_running: self.daemon_running,
            version: self.version.dup(),
            backend: self.backend,
            log_denied: self.log_denied,
            panic_mode: self.panic_mode,
        }
    }
}

impl Clone for FirewallStatus {
    fn clone(&self) -> (r: Self)
        ensures
            r.deep_view() == self.deep_view(),
    {
        self.dup()
    }
}

/// One scope's info for an ipset (from `--info-ipset`).
#[derive(Debug, PartialEq, Eq)]
pub struct IpSetInfo {
    /// The ipset type, e.g. `hash:ip`.
    pub kind: String,
    /// Current entries, verbatim as firewalld prints them.
    pub entries: Vec<String>,
}

/// What a `IpSetInfo` models.
#[verifier::ext_equal]
pub struct IpSetInfoView {
    pub kind: Seq<char>,
    pub entries: Seq<Seq<char>>,
}

impl DeepView for IpSetInfo {
    type V = IpSetInfoView;

    open spec fn deep_view(&self) -> IpSetInfoView {
        IpSetInfoView {
            kind: self.kind.deep_view(),
            entries: self.entries.deep_view(),
        }
    }
}

impl Value for IpSetInfo {
    fn same(&self, other: &Self) -> (r: bool) {
        self.kind.same(&other.kind) && self.entries.same(&other.entries)
    }

    fn dup(&self) -> (r: Self) {
        IpSetInfo {
            kind: self.kind.dup(),
            entries: self.entries.dup(),
        }
    }
}

impl Clone for IpSetInfo {
    fn clone(&self) -> (r: Self)
        ensures
            r.deep_view() == self.deep_view(),
    {
        self.dup()
    }
}

impl Default for IpSetInfo {
    fn default() -> (r: Self)
        ensures
            r.deep_view() == (IpSetInfoView { kind: Seq::empty(), entries: Seq::empty() }),
    {
        IpSetInfo { kind: String::new(), entries: lists::none() }
    }
}

/// The complete firewall state at one point in time.
#[derive(Debug, PartialEq, Eq)]
pub struct FirewallSnapshot {
    /// Daemon-level status.
    pub status: FirewallStatus,
    /// The zone traffic without an explicit binding falls into.
    pub default_zone: ZoneName,
    /// Zones with at least one interface or source bound, with those bindings.
    pub active: NameMap<ZoneName, ActiveZone>,
    /// Per-zone runtime configuration.
    pub runtime: NameMap<ZoneName, ZoneDetails>,
    /// Per-zone permanent configuration.
    pub permanent: NameMap<ZoneName, ZoneDetails>,
    /// Known ipsets and their entries, separated by configuration scope.
    pub ipsets: Scoped<NameMap<IpSetName, IpSetInfo>>,
    /// Definitions for services referenced by any zone (ports/protocols).
    pub service_definitions: NameMap<ServiceName, ServiceDefinition>,
    /// Every service firewalld knows about (`--get-services`), for browsing.
    pub available_services: Vec<ServiceName>,
    /// Policy objects (`--get-policies` + `--info-policy`) by scope.
    pub policies: Scoped<NameMap<PolicyName, PolicyDetails>>,
    /// Raw `--direct --get-all-rules` lines (direct rules are deprecated;
    /// shown read-only with a warning).
    pub direct_rules: Vec<String>,
    /// Sections that could not be fetched this refresh (name plus reason).
    /// An empty ipset list with `"ipsets"` in here means "unknown", not
    /// "none" — the UI must show the difference.
    pub degraded: Vec<DegradedSection>,
}

/// What a `FirewallSnapshot` models.
#[verifier::ext_equal]
pub struct FirewallSnapshotView {
    pub status: FirewallStatusView,
    pub default_zone: Seq<char>,
    pub active: Seq<(Seq<char>, ActiveZoneView)>,
    pub runtime: Seq<(Seq<char>, ZoneDetailsView)>,
    pub permanent: Seq<(Seq<char>, ZoneDetailsView)>,
    pub ipsets: Scoped<Seq<(Seq<char>, IpSetInfoView)>>,
    pub service_definitions: Seq<(Seq<char>, ServiceDefinitionView)>,
    pub available_services: Seq<Seq<char>>,
    pub policies: Scoped<Seq<(Seq<char>, PolicyDetailsView)>>,
    pub direct_rules: Seq<Seq<char>>,
    pub degraded: Seq<DegradedSectionView>,
}

impl DeepView for FirewallSnapshot {
    type V = FirewallSnapshotView;

    open spec fn deep_view(&self) -> FirewallSnapshotView {
        FirewallSnapshotView {
            status: self.status.deep_view(),
            default_zone: self.default_zone.deep_view(),
            active: self.active.deep_view(),
            runtime: self.runtime.deep_view(),
            permanent: self.permanent.deep_view(),
            ipsets: self.ipsets.deep_view(),
            service_definitions: self.service_definitions.deep_view(),
            available_services: self.available_services.deep_view(),
            policies: self.policies.deep_view(),
            direct_rules: self.direct_rules.deep_view(),
            degraded: self.degraded.deep_view(),
        }
    }
}

impl Value for FirewallSnapshot {
    fn same(&self, other: &Self) -> (r: bool) {
        self.status.same(&other.status)
            && self.default_zone.same(&other.default_zone)
            && self.active.same(&other.active)
            && self.runtime.same(&other.runtime)
            && self.permanent.same(&other.permanent)
            && self.ipsets.same(&other.ipsets)
            && self.service_definitions.same(&other.service_definitions)
            && self.available_services.same(&other.available_services)
            && self.policies.same(&other.policies)
            && self.direct_rules.same(&other.direct_rules)
            && self.degraded.same(&other.degraded)
    }

    fn dup(&self) -> (r: Self) {
        FirewallSnapshot {
            status: self.status.dup(),
            default_zone: self.default_zone.dup(),
            active: self.active.dup(),
            runtime: self.runtime.dup(),
            permanent: self.permanent.dup(),
            ipsets: self.ipsets.dup(),
            service_definitions: self.service_definitions.dup(),
            available_services: self.available_services.dup(),
            policies: self.policies.dup(),
            direct_rules: self.direct_rules.dup(),
            degraded: self.degraded.dup(),
        }
    }
}

impl Clone for FirewallSnapshot {
    fn clone(&self) -> (r: Self)
        ensures
            r.deep_view() == self.deep_view(),
    {
        self.dup()
    }
}

/// The name is referenced by a zone among the entries.
pub open spec fn references_service(
    zones: Seq<(Seq<char>, ZoneDetailsView)>,
    name: Seq<char>,
) -> bool {
    serves_within(zones, zones.len() as int, name)
}

/// The name is referenced by one of the first `n` zones.
pub open spec fn serves_within(
    zones: Seq<(Seq<char>, ZoneDetailsView)>,
    n: int,
    name: Seq<char>,
) -> bool {
    exists|i: int| 0 <= i < n && (#[trigger] zones[i]).1.services.contains(name)
}

/// The name is that of one of the first `n` zones.
pub open spec fn named_within(
    zones: Seq<(Seq<char>, ZoneDetailsView)>,
    n: int,
    name: Seq<char>,
) -> bool {
    exists|i: int| 0 <= i < n && #[trigger] zones[i].0 == name
}

impl FirewallSnapshotView {
    /// Whether a resource family was observed completely for the requested
    /// target.
    pub open spec fn complete(self, section: SnapshotSection, target: ConfigurationTarget) -> bool {
        forall|i: int|
            0 <= i < self.degraded.len() ==> !(#[trigger] self.degraded[i]).affects(section, target)
    }

    /// The zone's runtime and permanent configurations are the same; where one
    /// is missing, the other is missing too.
    pub open spec fn zone_synced(self, zone: Seq<char>) -> bool {
        name_map::lookup(self.runtime, zone) == name_map::lookup(self.permanent, zone)
    }

    /// The whole runtime configuration was observed and matches the permanent
    /// one. Whether a policy is active is an observation, no configuration.
    pub open spec fn synced(self) -> bool {
        &&& self.complete(SnapshotSection::Zones, ConfigurationTarget::RuntimeAndPermanent)
        &&& self.complete(SnapshotSection::IpSets, ConfigurationTarget::RuntimeAndPermanent)
        &&& self.complete(SnapshotSection::Policies, ConfigurationTarget::RuntimeAndPermanent)
        &&& self.runtime == self.permanent
        &&& self.ipsets.runtime == self.ipsets.permanent
        &&& policy::configurations(self.policies.runtime) == policy::configurations(
            self.policies.permanent,
        )
    }
}

impl FirewallSnapshot {
    /// Whether a resource family was observed completely for the requested
    /// target. A scope-less record affects both configurations. Legacy
    /// snapshots cannot safely prove ipset or policy preconditions because
    /// their old representation collapsed the two scopes.
    pub fn section_is_complete(
        &self,
        section: SnapshotSection,
        target: ConfigurationTarget,
    ) -> (r: bool)
        ensures
            r == self.deep_view().complete(section, target),
    {
        let mut i: usize = 0;
        let ghost records = self.deep_view().degraded;
        while i < self.degraded.len()
            invariant
                i <= self.degraded@.len(),
                records == self.degraded.deep_view(),
                forall|j: int| 0 <= j < i ==> !(#[trigger] records[j]).affects(section, target),
            decreases self.degraded.len() - i,
        {
            if self.degraded[i].affects(section, target) {
                assert(self.deep_view().degraded[i as int].affects(section, target));
                return false;
            }
            i = i + 1;
        }
        true
    }

    /// Sorted union of service names referenced by any zone in any config.
    pub fn referenced_services(&self) -> (r: Vec<ServiceName>)
        ensures
            name_map::ascending(r.deep_view()),
            forall|name: Seq<char>| #[trigger]
                r.deep_view().contains(name) == (references_service(self.deep_view().runtime, name)
                    || references_service(self.deep_view().permanent, name)),
    {
        let mut names: Vec<&ServiceName> = Vec::new();
        add_services(&self.runtime, &mut names);
        add_services(&self.permanent, &mut names);
        let mut out: Vec<ServiceName> = Vec::new();
        let mut i: usize = 0;
        while i < names.len()
            invariant
                i <= names@.len(),
                out@.len() == i,
                forall|j: int|
                    0 <= j < i ==> #[trigger] out@[j].deep_view() == names.deep_view()[j],
            decreases names.len() - i,
        {
            out.push(names[i].dup());
            i = i + 1;
        }
        assert(out.deep_view() =~= names.deep_view());
        out
    }

    /// Sorted union of runtime and permanent zone names.
    pub fn zone_names(&self) -> (r: Vec<&ZoneName>)
        ensures
            name_map::ascending(r.deep_view()),
            forall|name: Seq<char>| #[trigger]
                r.deep_view().contains(name) == (name_map::lookup(self.deep_view().runtime, name)
                    is Some || name_map::lookup(self.deep_view().permanent, name) is Some),
    {
        let mut names: Vec<&ZoneName> = Vec::new();
        add_names(&self.runtime, &mut names);
        add_names(&self.permanent, &mut names);
        names
    }

    /// Whether the zone has any runtime interface or source binding.
    pub fn is_active(&self, zone: &ZoneName) -> (r: bool)
        ensures
            r == (name_map::lookup(self.deep_view().active, zone.deep_view()) is Some),
    {
        self.active.contains_key(zone)
    }

    /// Whether the zone's runtime and permanent configs are identical.
    pub fn is_zone_synced(&self, zone: &ZoneName) -> (r: bool)
        ensures
            r == self.deep_view().zone_synced(zone.deep_view()),
    {
        match (self.runtime.get(zone), self.permanent.get(zone)) {
            (Some(a), Some(b)) => a.same(b),
            (None, None) => true,
            _ => false,
        }
    }

    /// Whether the entire runtime config matches permanent (no drift).
    pub fn all_synced(&self) -> (r: bool)
        ensures
            r == self.deep_view().synced(),
    {
        let both = ConfigurationTarget::RuntimeAndPermanent;
        self.section_is_complete(SnapshotSection::Zones, both) && self.section_is_complete(
            SnapshotSection::IpSets,
            both,
        ) && self.section_is_complete(SnapshotSection::Policies, both) && self.runtime.same(
            &self.permanent,
        ) && self.ipsets.runtime.same(&self.ipsets.permanent) && policies_agree(
            &self.policies.runtime,
            &self.policies.permanent,
        )
    }
}

/// Whether both scopes hold the same policies, as configuration.
fn policies_agree(
    a: &NameMap<PolicyName, PolicyDetails>,
    b: &NameMap<PolicyName, PolicyDetails>,
) -> (r: bool)
    ensures
        r == (policy::configurations(a.deep_view()) == policy::configurations(b.deep_view())),
{
    let ghost left = policy::configurations(a.deep_view());
    let ghost right = policy::configurations(b.deep_view());
    if a.len() != b.len() {
        assert(left.len() != right.len());
        return false;
    }
    let mut i: usize = 0;
    while i < a.len()
        invariant
            i <= left.len() == right.len(),
            left == policy::configurations(a.deep_view()),
            right == policy::configurations(b.deep_view()),
            forall|j: int| 0 <= j < i ==> left[j] == right[j],
        decreases left.len() - i,
    {
        if !a.key(i).same(b.key(i)) || !a.value(i).configuration_eq(b.value(i)) {
            assert(left[i as int] != right[i as int]);
            return false;
        }
        i = i + 1;
    }
    assert(left =~= right);
    true
}

/// Adds the services of every zone to an ascending list of names.
fn add_services<'a>(
    zones: &'a NameMap<ZoneName, ZoneDetails>,
    names: &mut Vec<&'a ServiceName>,
)
    requires
        name_map::ascending(old(names).deep_view()),
    ensures
        name_map::ascending(final(names).deep_view()),
        forall|name: Seq<char>| #[trigger]
            final(names).deep_view().contains(name) == (old(names).deep_view().contains(name)
                || references_service(zones.deep_view(), name)),
{
    let ghost start = names.deep_view();
    let ghost shown = zones.deep_view();
    let mut i: usize = 0;
    while i < zones.len()
        invariant
            i <= shown.len(),
            shown == zones.deep_view(),
            name_map::ascending(names.deep_view()),
            forall|name: Seq<char>| #[trigger]
                names.deep_view().contains(name) == (
                    start.contains(name) || serves_within(shown, i as int, name)
                ),
        decreases shown.len() - i,
    {
        let services = &zones.value(i).services;
        let ghost held = shown[i as int].1.services;
        let mut j: usize = 0;
        while j < services.len()
            invariant
                i < shown.len(),
                j <= services@.len(),
                services.deep_view() == held,
                held == shown[i as int].1.services,
                name_map::ascending(names.deep_view()),
                forall|name: Seq<char>| #[trigger]
                    names.deep_view().contains(name) == (start.contains(name) || serves_within(shown, i as int, name)
                        || held.take(j as int).contains(name)),
            decreases services.len() - j,
        {
            name_map::insert_name(names, &services[j]);
            proof {
                let t = held.take(j as int);
                assert(held.take(j + 1) =~= t.push(held[j as int]));
                assert forall|name: Seq<char>| #[trigger] t.push(held[j as int]).contains(name)
                    == (t.contains(name) || name == held[j as int]) by {
                    if t.contains(name) {
                        let k = choose|k: int| 0 <= k < t.len() && t[k] == name;
                        assert(t.push(held[j as int])[k] == name);
                    }
                    assert(t.push(held[j as int])[t.len() as int] == held[j as int]);
                }
            }
            j = j + 1;
        }
        proof {
            assert(held.take(j as int) =~= held);
            assert forall|name: Seq<char>| #[trigger] serves_within(shown, i + 1, name) == (
            serves_within(shown, i as int, name) || held.contains(name)) by {
                if serves_within(shown, i as int, name) {
                    let k = choose|k: int|
                        0 <= k < i && (#[trigger] shown[k]).1.services.contains(name);
                    assert(shown[k].1.services.contains(name));
                }
                if held.contains(name) {
                    assert(shown[i as int].1.services.contains(name));
                }
            }
        }
        i = i + 1;
    }
}

/// Adds the names of the zones to an ascending list of names.
fn add_names<'a>(zones: &'a NameMap<ZoneName, ZoneDetails>, names: &mut Vec<&'a ZoneName>)
    requires
        name_map::ascending(old(names).deep_view()),
    ensures
        name_map::ascending(final(names).deep_view()),
        forall|name: Seq<char>| #[trigger]
            final(names).deep_view().contains(name) == (old(names).deep_view().contains(name)
                || name_map::lookup(zones.deep_view(), name) is Some),
{
    let ghost start = names.deep_view();
    let ghost shown = zones.deep_view();
    proof {
        use_type_invariant(zones);
    }
    let mut i: usize = 0;
    while i < zones.len()
        invariant
            i <= shown.len(),
            shown == zones.deep_view(),
            name_map::ascending(names.deep_view()),
            forall|name: Seq<char>| #[trigger]
                names.deep_view().contains(name) == (
                    start.contains(name) || named_within(shown, i as int, name)
                ),
        decreases shown.len() - i,
    {
        name_map::insert_name(names, zones.key(i));
        proof {
            assert forall|name: Seq<char>| #[trigger] named_within(shown, i + 1, name) == (
            named_within(shown, i as int, name) || name == shown[i as int].0) by {
                if named_within(shown, i as int, name) {
                    let k = choose|k: int| 0 <= k < i && #[trigger] shown[k].0 == name;
                    assert(shown[k].0 == name);
                }
                if name == shown[i as int].0 {
                    assert(shown[i as int].0 == name);
                }
            }
        }
        i = i + 1;
    }
    proof {
        assert forall|name: Seq<char>| #[trigger] named_within(shown, shown.len() as int, name) == (
        name_map::lookup(shown, name) is Some) by {
            name_map::lookup_finds(shown, name);
        }
    }
}

/// Whether an observed scope touches a requested one.
pub open spec fn overlapping(
    observed: Option<ConfigurationTarget>,
    requested: ConfigurationTarget,
) -> bool {
    match observed {
        None => true,
        Some(ConfigurationTarget::RuntimeAndPermanent) => true,
        Some(ConfigurationTarget::Runtime) => requested != ConfigurationTarget::Permanent,
        Some(ConfigurationTarget::Permanent) => requested != ConfigurationTarget::Runtime,
    }
}

fn targets_overlap(observed: Option<ConfigurationTarget>, requested: ConfigurationTarget) -> (r:
    bool)
    ensures
        r == overlapping(observed, requested),
{
    match observed {
        None => true,
        Some(ConfigurationTarget::RuntimeAndPermanent) => true,
        Some(ConfigurationTarget::Runtime) => requested != ConfigurationTarget::Permanent,
        Some(ConfigurationTarget::Permanent) => requested != ConfigurationTarget::Runtime,
    }
}

/// What `as_str` gives for a setting reads back as that setting.
pub proof fn log_denied_reads_back(l: LogDenied)
    ensures
        LogDenied::parsed(l.spelled()) == Ok::<LogDenied, ValidationErrorView>(l),
{
    reveal_strlit("off");
    reveal_strlit("all");
    reveal_strlit("unicast");
    reveal_strlit("broadcast");
    reveal_strlit("multicast");
    assert("off"@[0] != "all"@[0]);
    assert("broadcast"@[0] != "multicast"@[0]);
}

/// A family was observed completely for both configurations exactly if it was
/// for each of them.
pub proof fn completeness_splits_by_scope(s: FirewallSnapshotView, section: SnapshotSection)
    ensures
        s.complete(section, ConfigurationTarget::RuntimeAndPermanent) == (s.complete(
            section,
            ConfigurationTarget::Runtime,
        ) && s.complete(section, ConfigurationTarget::Permanent)),
{
    if !s.complete(section, ConfigurationTarget::RuntimeAndPermanent) {
        let i = choose|i: int|
            0 <= i < s.degraded.len() && (#[trigger] s.degraded[i]).affects(
                section,
                ConfigurationTarget::RuntimeAndPermanent,
            );
        let record = s.degraded[i];
        assert(record.affects(section, ConfigurationTarget::Runtime) || record.affects(
            section,
            ConfigurationTarget::Permanent,
        ));
    }
}

/// One more degraded record never makes a family complete.
pub proof fn degrading_loses_evidence(
    s: FirewallSnapshotView,
    record: DegradedSectionView,
    section: SnapshotSection,
    target: ConfigurationTarget,
)
    ensures
        (FirewallSnapshotView { degraded: s.degraded.push(record), ..s }).complete(section, target) == (
        s.complete(section, target) && !record.affects(section, target)),
{
    let more = FirewallSnapshotView { degraded: s.degraded.push(record), ..s };
    assert(more.degraded[s.degraded.len() as int] == record);
    if more.complete(section, target) {
        assert forall|i: int| 0 <= i < s.degraded.len() implies !(
        #[trigger] s.degraded[i]).affects(section, target) by {
            assert(more.degraded[i] == s.degraded[i]);
        }
    }
}

/// In a snapshot without drift every single zone is in sync.
pub proof fn no_drift_leaves_no_zone_out(s: FirewallSnapshotView, zone: Seq<char>)
    ensures
        s.synced() ==> s.zone_synced(zone),
{
}

/// Whether a policy is active makes no drift.
pub proof fn activity_is_no_drift(s: FirewallSnapshotView, i: int, active: bool)
    requires
        0 <= i < s.policies.runtime.len(),
    ensures
        ({
            let (name, details) = s.policies.runtime[i];
            let runtime = s.policies.runtime.update(
                i,
                (name, PolicyDetailsView { active, ..details }),
            );
            (FirewallSnapshotView { policies: Scoped { runtime, ..s.policies }, ..s }).synced()
                == s.synced()
        }),
{
    let (name, details) = s.policies.runtime[i];
    let runtime = s.policies.runtime.update(i, (name, PolicyDetailsView { active, ..details }));
    let other = FirewallSnapshotView { policies: Scoped { runtime, ..s.policies }, ..s };
    policy::activity_is_no_configuration(details, active);
    assert(policy::configurations(runtime) =~= policy::configurations(s.policies.runtime));
    assert(other.degraded == s.degraded);
}

/// A snapshot with unread zones, ip sets or policies never counts as free of
/// drift.
pub proof fn unread_sections_may_drift(s: FirewallSnapshotView, target: ConfigurationTarget)
    ensures
        s.synced() ==> s.complete(SnapshotSection::Zones, target) && s.complete(
            SnapshotSection::IpSets,
            target,
        ) && s.complete(SnapshotSection::Policies, target),
{
    completeness_splits_by_scope(s, SnapshotSection::Zones);
    completeness_splits_by_scope(s, SnapshotSection::IpSets);
    completeness_splits_by_scope(s, SnapshotSection::Policies);
}

/// A legacy snapshot proves nothing about ip sets or policies.
pub proof fn legacy_snapshots_prove_no_set_or_policy(
    s: FirewallSnapshotView,
    i: int,
    target: ConfigurationTarget,
)
    requires
        0 <= i < s.degraded.len(),
        s.degraded[i].section == SnapshotSection::LegacySnapshot,
    ensures
        !s.complete(SnapshotSection::IpSets, target),
        !s.complete(SnapshotSection::Policies, target),
        !s.synced(),
{
    assert(s.degraded[i].affects(SnapshotSection::IpSets, target));
    assert(s.degraded[i].affects(SnapshotSection::Policies, target));
    assert(s.degraded[i].affects(
        SnapshotSection::IpSets,
        ConfigurationTarget::RuntimeAndPermanent,
    ));
}

/// Nothing drifted exactly if zones, ip sets and policies were read in both
/// configurations and agree: the same zones and ip sets, and the same policies
/// but for whether they are active.
pub proof fn no_drift_means_agreement(s: FirewallSnapshotView)
    ensures
        s.synced() == ({
            let both = ConfigurationTarget::RuntimeAndPermanent;
            &&& s.complete(SnapshotSection::Zones, both)
            &&& s.complete(SnapshotSection::IpSets, both)
            &&& s.complete(SnapshotSection::Policies, both)
            &&& s.runtime == s.permanent
            &&& s.ipsets.runtime == s.ipsets.permanent
            &&& s.policies.runtime.len() == s.policies.permanent.len()
            &&& forall|i: int|
                0 <= i < s.policies.runtime.len() ==> (#[trigger] s.policies.runtime[i]).0
                    == s.policies.permanent[i].0 && s.policies.runtime[i].1 == (PolicyDetailsView {
                    active: s.policies.runtime[i].1.active,
                    ..s.policies.permanent[i].1
                })
        }),
{
    let a = s.policies.runtime;
    let b = s.policies.permanent;
    let x = policy::configurations(a);
    let y = policy::configurations(b);
    if x == y {
        assert(x.len() == a.len() && y.len() == b.len());
        assert forall|i: int| 0 <= i < a.len() implies (#[trigger] a[i]).0 == b[i].0 && a[i].1 == (
        PolicyDetailsView { active: a[i].1.active, ..b[i].1 }) by {
            assert(x[i] == y[i]);
        }
    }
    if a.len() == b.len() && forall|i: int|
        0 <= i < a.len() ==> (#[trigger] a[i]).0 == b[i].0 && a[i].1 == (PolicyDetailsView {
            active: a[i].1.active,
            ..b[i].1
        }) {
        assert(x =~= y);
    }
}

/// A section counts as read for a target exactly if no degraded record is about
/// it in any configuration that the target reaches; a record without a scope
/// is about both, and a legacy record is about ip sets and policies.
pub proof fn completeness_is_the_absence_of_records(
    s: FirewallSnapshotView,
    section: SnapshotSection,
    target: ConfigurationTarget,
)
    ensures
        s.complete(section, target) == forall|i: int|
            0 <= i < s.degraded.len() ==> {
                let record = #[trigger] s.degraded[i];
                let shared = record.target is None || target
                    == ConfigurationTarget::RuntimeAndPermanent || record.target == Some(
                    ConfigurationTarget::RuntimeAndPermanent,
                ) || record.target == Some(target);
                &&& record.section == section ==> !shared
                &&& record.section == SnapshotSection::LegacySnapshot ==> section
                    != SnapshotSection::IpSets && section != SnapshotSection::Policies
            },
{
    assert forall|i: int| 0 <= i < s.degraded.len() implies (#[trigger] s.degraded[i]).affects(
        section,
        target,
    ) == !({
        let record = s.degraded[i];
        let shared = record.target is None || target == ConfigurationTarget::RuntimeAndPermanent
            || record.target == Some(ConfigurationTarget::RuntimeAndPermanent) || record.target
            == Some(target);
        &&& record.section == section ==> !shared
        &&& record.section == SnapshotSection::LegacySnapshot ==> section != SnapshotSection::IpSets
            && section != SnapshotSection::Policies
    }) by {}
}

} // verus!
