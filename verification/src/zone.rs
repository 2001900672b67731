//! Zone-level configuration details.

use vstd::prelude::*;

use crate::address::{SourceAddress, SourceAddressView};
use crate::ids::{
    IcmpType, InterfaceName, IpProtocol, ServiceName, ValidationError, ValidationErrorView,
    ZoneName,
};
use crate::lists;
use crate::model;
use crate::model::Value;
use crate::port::{ForwardPort, ForwardPortView, PortSpec, PortSpecView};
use crate::rich_rule::RichRule;
use crate::text;
use crate::traffic_test::RulePriority;

verus! {

/// The zone target, i.e. what happens to packets not matched by any rule.
#[derive(Debug, Clone, Copy, PartialEq, Eq, Structural)]
pub enum ZoneTarget {
    /// firewalld's built-in default behavior (reject-like, with ICMP allowances).
    Default,
    /// Accept unmatched packets.
    Accept,
    /// Silently drop unmatched packets.
    Drop,
    /// Reject unmatched packets with an ICMP error.
    Reject,
}

impl DeepView for ZoneTarget {
    type V = ZoneTarget;

    open spec fn deep_view(&self) -> ZoneTarget {
        *self
    }
}

impl Value for ZoneTarget {
    fn same(&self, other: &Self) -> (r: bool) {
        *self == *other
    }

    fn dup(&self) -> (r: Self) {
        *self
    }
}

impl Default for ZoneTarget {
    fn default() -> (r: Self)
        ensures
            r == ZoneTarget::Default,
    {
        ZoneTarget::Default
    }
}

impl ZoneTarget {
    /// The text of each variant.
    pub open spec fn spelled(self) -> Seq<char> {
        match self {
            ZoneTarget::Default => "default"@,
            ZoneTarget::Accept => "ACCEPT"@,
            ZoneTarget::Drop => "DROP"@,
            ZoneTarget::Reject => "%%REJECT%%"@,
        }
    }

    /// The exact spelling firewalld uses in `--list-all` output.
    pub fn as_str(self) -> (r: &'static str)
        ensures
            r@ == self.spelled(),
    {
        match self {
            ZoneTarget::Default => "default",
            ZoneTarget::Accept => "ACCEPT",
            ZoneTarget::Drop => "DROP",
            ZoneTarget::Reject => "%%REJECT%%",
        }
    }
}

impl ZoneTarget {
    /// The target that a keyword names.
    pub open spec fn parsed(s: Seq<char>) -> Result<ZoneTarget, ValidationErrorView> {
        if s == "default"@ {
            Ok(ZoneTarget::Default)
        } else if s == "ACCEPT"@ {
            Ok(ZoneTarget::Accept)
        } else if s == "DROP"@ {
            Ok(ZoneTarget::Drop)
        } else if s == "%%REJECT%%"@ || s == "REJECT"@ {
            Ok(ZoneTarget::Reject)
        } else {
            Err(ValidationErrorView::InvalidZoneTarget(s))
        }
    }

    /// Reads a target keyword; accepts both `REJECT` and `%%REJECT%%`.
    pub fn parse(s: &str) -> (r: Result<ZoneTarget, ValidationError>)
        ensures
            model::outcome(r) == Self::parsed(s@),
    {
        if text::same(s, "default") {
            Ok(ZoneTarget::Default)
        } else if text::same(s, "ACCEPT") {
            Ok(ZoneTarget::Accept)
        } else if text::same(s, "DROP") {
            Ok(ZoneTarget::Drop)
        } else if text::same(s, "%%REJECT%%") || text::same(s, "REJECT") {
            Ok(ZoneTarget::Reject)
        } else {
            Err(ValidationError::InvalidZoneTarget(s.to_owned()))
        }
    }
}

impl std::str::FromStr for ZoneTarget {
    type Err = ValidationError;

    fn from_str(s: &str) -> (r: Result<Self, ValidationError>)
        ensures
            model::outcome(r) == ZoneTarget::parsed(s@),
    {
        ZoneTarget::parse(s)
    }
}

/// Runtime binding info from `--get-active-zones`.
#[derive(Debug, PartialEq, Eq)]
pub struct ActiveZone {
    /// Interfaces currently bound to the zone.
    pub interfaces: Vec<InterfaceName>,
    /// Source addresses currently bound to the zone.
    pub sources: Vec<SourceAddress>,
}

/// What a `ActiveZone` models.
#[verifier::ext_equal]
pub struct ActiveZoneView {
    pub interfaces: Seq<Seq<char>>,
    pub sources: Seq<SourceAddressView>,
}

impl DeepView for ActiveZone {
    type V = ActiveZoneView;

    open spec fn deep_view(&self) -> ActiveZoneView {
        ActiveZoneView {
            interfaces: self.interfaces.deep_view(),
            sources: self.sources.deep_view(),
        }
    }
}

impl Value for ActiveZone {
    fn same(&self, other: &Self) -> (r: bool) {
        self.interfaces.same(&other.interfaces) && self.sources.same(&other.sources)
    }

    fn dup(&self) -> (r: Self) {
        ActiveZone {
            interfaces: self.interfaces.dup(),
            sources: self.sources.dup(),
        }
    }
}

impl Clone for ActiveZone {
    fn clone(&self) -> (r: Self)
        ensures
            r.deep_view() == self.deep_view(),
    {
        self.dup()
    }
}

impl Default for ActiveZone {
    fn default() -> (r: Self)
        ensures
            r.deep_view().interfaces == Seq::<Seq<char>>::empty(),
            r.deep_view().sources == Seq::<SourceAddressView>::empty(),
    {
        ActiveZone { interfaces: lists::none(), sources: lists::none() }
    }
}

/// Full configuration of one zone for one configuration target
/// (one instance for runtime, one for permanent).
#[derive(Debug, PartialEq, Eq)]
pub struct ZoneDetails {
    /// Zone name.
    pub name: ZoneName,
    /// Fate of packets no rule matches.
    pub target: ZoneTarget,
    /// Evaluation priority among the zones that traffic can enter; lower values
    /// are preferred.
    pub ingress_priority: RulePriority,
    /// Bound network interfaces.
    pub interfaces: Vec<InterfaceName>,
    /// Bound source addresses.
    pub sources: Vec<SourceAddress>,
    /// Enabled services.
    pub services: Vec<ServiceName>,
    /// Directly opened ports.
    pub ports: Vec<PortSpec>,
    /// Port-forwarding rules.
    pub forward_ports: Vec<ForwardPort>,
    /// Rich rules, stored verbatim.
    pub rich_rules: Vec<RichRule>,
    /// Blocked ICMP types.
    pub icmp_blocks: Vec<IcmpType>,
    /// Whether IP masquerading (source NAT) is enabled.
    pub masquerade: bool,
    /// Source-port matches (`--add-source-port`), same `port/proto` shape as ports.
    pub source_ports: Vec<PortSpec>,
    /// Allowed IP protocols (`--add-protocol`), e.g. `gre`, `esp`, `igmp`.
    pub protocols: Vec<IpProtocol>,
    /// Whether intra-zone forwarding between bound interfaces/sources is on
    /// (firewalld 0.9+ `--add-forward`).
    pub forward: bool,
    /// Whether the icmp-block set is inverted: block everything *except* the
    /// listed types (`--add-icmp-block-inversion`).
    pub icmp_block_inversion: bool,
}

/// What a `ZoneDetails` models.
#[verifier::ext_equal]
pub struct ZoneDetailsView {
    pub name: Seq<char>,
    pub target: ZoneTarget,
    pub ingress_priority: i16,
    pub interfaces: Seq<Seq<char>>,
    pub sources: Seq<SourceAddressView>,
    pub services: Seq<Seq<char>>,
    pub ports: Seq<PortSpecView>,
    pub forward_ports: Seq<ForwardPortView>,
    pub rich_rules: Seq<Seq<char>>,
    pub icmp_blocks: Seq<Seq<char>>,
    pub masquerade: bool,
    pub source_ports: Seq<PortSpecView>,
    pub protocols: Seq<Seq<char>>,
    pub forward: bool,
    pub icmp_block_inversion: bool,
}

impl DeepView for ZoneDetails {
    type V = ZoneDetailsView;

    open spec fn deep_view(&self) -> ZoneDetailsView {
        ZoneDetailsView {
            name: self.name.deep_view(),
            target: self.target.deep_view(),
            ingress_priority: self.ingress_priority.deep_view(),
            interfaces: self.interfaces.deep_view(),
            sources: self.sources.deep_view(),
            services: self.services.deep_view(),
            ports: self.ports.deep_view(),
            forward_ports: self.forward_ports.deep_view(),
            rich_rules: self.rich_rules.deep_view(),
            icmp_blocks: self.icmp_blocks.deep_view(),
            masquerade: self.masquerade.deep_view(),
            source_ports: self.source_ports.deep_view(),
            protocols: self.protocols.deep_view(),
            forward: self.forward.deep_view(),
            icmp_block_inversion: self.icmp_block_inversion.deep_view(),
        }
    }
}

impl Value for ZoneDetails {
    fn same(&self, other: &Self) -> (r: bool) {
        self.name.same(&other.name)
            && self.target == other.target
            && self.ingress_priority.same(&other.ingress_priority)
            && self.interfaces.same(&other.interfaces)
            && self.sources.same(&other.sources)
            && self.services.same(&other.services)
            && self.ports.same(&other.ports)
            && self.forward_ports.same(&other.forward_ports)
            && self.rich_rules.same(&other.rich_rules)
            && self.icmp_blocks.same(&other.icmp_blocks)
            && self.masquerade == other.masquerade
            && self.source_ports.same(&other.source_ports)
            && self.protocols.same(&other.protocols)
            && self.forward == other.forward
            && self.icmp_block_inversion == other.icmp_block_inversion
    }

    fn dup(&self) -> (r: Self) {
        ZoneDetails {
            name: self.name.dup(),
            target: self.target,
            ingress_priority: self.ingress_priority.dup(),
            interfaces: self.interfaces.dup(),
            sources: self.sources.dup(),
            services: self.services.dup(),
            ports: self.ports.dup(),
            forward_ports: self.forward_ports.dup(),
            rich_rules: self.rich_rules.dup(),
            icmp_blocks: self.icmp_blocks.dup(),
            masquerade: self.masquerade,
            source_ports: self.source_ports.dup(),
            protocols: self.protocols.dup(),
            forward: self.forward,
            icmp_block_inversion: self.icmp_block_inversion,
        }
    }
}

impl Clone for ZoneDetails {
    fn clone(&self) -> (r: Self)
        ensures
            r.deep_view() == self.deep_view(),
    {
        self.dup()
    }
}

impl ZoneDetailsView {
    /// A zone with the given name and nothing configured.
    pub open spec fn empty(name: Seq<char>) -> ZoneDetailsView {
        ZoneDetailsView {
            name,
            target: ZoneTarget::Default,
            ingress_priority: 0,
            interfaces: Seq::empty(),
            sources: Seq::empty(),
            services: Seq::empty(),
            ports: Seq::empty(),
            forward_ports: Seq::empty(),
            rich_rules: Seq::empty(),
            icmp_blocks: Seq::empty(),
            masquerade: false,
            source_ports: Seq::empty(),
            protocols: Seq::empty(),
            forward: false,
            icmp_block_inversion: false,
        }
    }
}

impl ZoneDetails {
    /// A zone with the given name and nothing configured; the starting point
    /// for parsers and tests.
    pub fn empty(name: ZoneName) -> (r: Self)
        ensures
            r.deep_view() == ZoneDetailsView::empty(name.deep_view()),
    {
        ZoneDetails {
            name,
            target: ZoneTarget::Default,
            ingress_priority: RulePriority::default(),
            interfaces: lists::none(),
            sources: lists::none(),
            services: lists::none(),
            ports: lists::none(),
            forward_ports: lists::none(),
            rich_rules: lists::none(),
            icmp_blocks: lists::none(),
            masquerade: false,
            source_ports: lists::none(),
            protocols: lists::none(),
            forward: false,
            icmp_block_inversion: false,
        }
    }
}

/// What `as_str` gives for a target reads back as that target.
pub proof fn zone_target_reads_back(t: ZoneTarget)
    ensures
        ZoneTarget::parsed(t.spelled()) == Ok::<ZoneTarget, ValidationErrorView>(t),
{
    reveal_strlit("default");
    reveal_strlit("ACCEPT");
    reveal_strlit("DROP");
    reveal_strlit("%%REJECT%%");
    assert("default"@.len() == 7 && "ACCEPT"@.len() == 6);
    assert("DROP"@.len() == 4 && "%%REJECT%%"@.len() == 10);
}

} // verus!
