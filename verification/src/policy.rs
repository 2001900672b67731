//! Policy objects: firewalld's modern replacement for direct rules. A policy
//! controls traffic between ingress and egress zones (`ANY`/`HOST` are valid
//! pseudo-zones).

use vstd::prelude::*;

use crate::ids::{IcmpType, IpProtocol, PolicyName, ServiceName};
use crate::lists;
use crate::model::Value;
use crate::port::{ForwardPort, ForwardPortView, PortSpec, PortSpecView};
use crate::rich_rule::RichRule;
use crate::text;

verus! {

/// The priority of a policy that states none.
pub const DEFAULT_PRIORITY: i32 = -1;

/// The action for packets not matched by any policy rule.
#[derive(Debug, Clone, Copy, PartialEq, Eq, Structural)]
pub enum PolicyTarget {
    /// Fall through to the next policy or the zone rules (firewalld's default).
    Continue,
    /// Accept unmatched packets.
    Accept,
    /// Reject unmatched packets with an ICMP error.
    Reject,
    /// Silently drop unmatched packets.
    Drop,
}

impl DeepView for PolicyTarget {
    type V = PolicyTarget;

    open spec fn deep_view(&self) -> PolicyTarget {
        *self
    }
}

impl Value for PolicyTarget {
    fn same(&self, other: &Self) -> (r: bool) {
        *self == *other
    }

    fn dup(&self) -> (r: Self) {
        *self
    }
}

impl Default for PolicyTarget {
    fn default() -> (r: Self)
        ensures
            r == PolicyTarget::Continue,
    {
        PolicyTarget::Continue
    }
}

impl PolicyTarget {
    /// The text of each variant.
    pub open spec fn spelled(self) -> Seq<char> {
        match self {
            PolicyTarget::Continue => "CONTINUE"@,
            PolicyTarget::Accept => "ACCEPT"@,
            PolicyTarget::Reject => "REJECT"@,
            PolicyTarget::Drop => "DROP"@,
        }
    }

    /// The uppercase spelling firewalld uses.
    pub fn as_str(self) -> (r: &'static str)
        ensures
            r@ == self.spelled(),
    {
        match self {
            PolicyTarget::Continue => "CONTINUE",
            PolicyTarget::Accept => "ACCEPT",
            PolicyTarget::Reject => "REJECT",
            PolicyTarget::Drop => "DROP",
        }
    }
}

impl PolicyTarget {
    /// The target that a keyword names.
    pub open spec fn parsed(raw: Seq<char>) -> Option<PolicyTarget> {
        if raw == "CONTINUE"@ {
            Some(PolicyTarget::Continue)
        } else if raw == "ACCEPT"@ {
            Some(PolicyTarget::Accept)
        } else if raw == "REJECT"@ || raw == "%%REJECT%%"@ {
            Some(PolicyTarget::Reject)
        } else if raw == "DROP"@ {
            Some(PolicyTarget::Drop)
        } else {
            None
        }
    }

    /// Parses firewalld's spelling; accepts both `REJECT` and `%%REJECT%%`.
    pub fn parse(raw: &str) -> (r: Option<Self>)
        ensures
            r == Self::parsed(raw@),
    {
        if text::same(raw, "CONTINUE") {
            Some(PolicyTarget::Continue)
        } else if text::same(raw, "ACCEPT") {
            Some(PolicyTarget::Accept)
        } else if text::same(raw, "REJECT") || text::same(raw, "%%REJECT%%") {
            Some(PolicyTarget::Reject)
        } else if text::same(raw, "DROP") {
            Some(PolicyTarget::Drop)
        } else {
            None
        }
    }
}

/// Full configuration of one policy object.
#[derive(Debug, PartialEq, Eq)]
pub struct PolicyDetails {
    /// Policy name.
    pub name: PolicyName,
    /// Whether firewalld currently considers this policy active.
    pub active: bool,
    /// Whether the policy is administratively disabled.
    pub disabled: bool,
    /// Policy evaluation priority; lower values run first.
    pub priority: i32,
    /// Action for packets no policy rule matches.
    pub target: PolicyTarget,
    /// Ingress zone names; plain strings because the `ANY`/`HOST`
    /// pseudo-zones are not valid zone names.
    pub ingress_zones: Vec<String>,
    /// Egress zone names; may hold `ANY`/`HOST`, like `ingress_zones`.
    pub egress_zones: Vec<String>,
    /// Allowed services.
    pub services: Vec<ServiceName>,
    /// Allowed ports.
    pub ports: Vec<PortSpec>,
    /// Raw IP protocols allowed by the policy.
    pub protocols: Vec<IpProtocol>,
    /// Whether IPv4 masquerading is enabled.
    pub masquerade: bool,
    /// Destination port-forwarding rules.
    pub forward_ports: Vec<ForwardPort>,
    /// Source ports allowed by the policy.
    pub source_ports: Vec<PortSpec>,
    /// ICMP types blocked by the policy.
    pub icmp_blocks: Vec<IcmpType>,
    /// Verbatim rich rules attached to the policy.
    pub rich_rules: Vec<RichRule>,
}

/// What a `PolicyDetails` models.
#[verifier::ext_equal]
pub struct PolicyDetailsView {
    pub name: Seq<char>,
    pub active: bool,
    pub disabled: bool,
    pub priority: i32,
    pub target: PolicyTarget,
    pub ingress_zones: Seq<Seq<char>>,
    pub egress_zones: Seq<Seq<char>>,
    pub services: Seq<Seq<char>>,
    pub ports: Seq<PortSpecView>,
    pub protocols: Seq<Seq<char>>,
    pub masquerade: bool,
    pub forward_ports: Seq<ForwardPortView>,
    pub source_ports: Seq<PortSpecView>,
    pub icmp_blocks: Seq<Seq<char>>,
    pub rich_rules: Seq<Seq<char>>,
}

impl DeepView for PolicyDetails {
    type V = PolicyDetailsView;

    open spec fn deep_view(&self) -> PolicyDetailsView {
        PolicyDetailsView {
            name: self.name.deep_view(),
            active: self.active.deep_view(),
            disabled: self.disabled.deep_view(),
            priority: self.priority.deep_view(),
            target: self.target.deep_view(),
            ingress_zones: self.ingress_zones.deep_view(),
            egress_zones: self.egress_zones.deep_view(),
            services: self.services.deep_view(),
            ports: self.ports.deep_view(),
            protocols: self.protocols.deep_view(),
            masquerade: self.masquerade.deep_view(),
            forward_ports: self.forward_ports.deep_view(),
            source_ports: self.source_ports.deep_view(),
            icmp_blocks: self.icmp_blocks.deep_view(),
            rich_rules: self.rich_rules.deep_view(),
        }
    }
}

impl Value for PolicyDetails {
    fn same(&self, other: &Self) -> (r: bool) {
        self.name.same(&other.name)
            && self.active == other.active
            && self.disabled == other.disabled
            && self.priority == other.priority
            && self.target == other.target
            && self.ingress_zones.same(&other.ingress_zones)
            && self.egress_zones.same(&other.egress_zones)
            && self.services.same(&other.services)
            && self.ports.same(&other.ports)
            && self.protocols.same(&other.protocols)
            && self.masquerade == other.masquerade
            && self.forward_ports.same(&other.forward_ports)
            && self.source_ports.same(&other.source_ports)
            && self.icmp_blocks.same(&other.icmp_blocks)
            && self.rich_rules.same(&other.rich_rules)
    }

    fn dup(&self) -> (r: Self) {
        PolicyDetails {
            name: self.name.dup(),
            active: self.active,
            disabled: self.disabled,
            priority: self.priority,
            target: self.target,
            ingress_zones: self.ingress_zones.dup(),
            egress_zones: self.egress_zones.dup(),
            services: self.services.dup(),
            ports: self.ports.dup(),
            protocols: self.protocols.dup(),
            masquerade: self.masquerade,
            forward_ports: self.forward_ports.dup(),
            source_ports: self.source_ports.dup(),
            icmp_blocks: self.icmp_blocks.dup(),
            rich_rules: self.rich_rules.dup(),
        }
    }
}

impl Clone for PolicyDetails {
    fn clone(&self) -> (r: Self)
        ensures
            r.deep_view() == self.deep_view(),
    {
        self.dup()
    }
}

impl PolicyDetailsView {
    /// A policy with the given name and no rules.
    pub open spec fn empty(name: Seq<char>) -> PolicyDetailsView {
        PolicyDetailsView {
            name,
            active: false,
            disabled: false,
            priority: DEFAULT_PRIORITY,
            target: PolicyTarget::Continue,
            ingress_zones: Seq::empty(),
            egress_zones: Seq::empty(),
            services: Seq::empty(),
            ports: Seq::empty(),
            protocols: Seq::empty(),
            masquerade: false,
            forward_ports: Seq::empty(),
            source_ports: Seq::empty(),
            icmp_blocks: Seq::empty(),
            rich_rules: Seq::empty(),
        }
    }

    /// The policy as configuration: whether it is active is an observation and
    /// is left out.
    pub open spec fn configuration(self) -> PolicyDetailsView {
        PolicyDetailsView { active: false, ..self }
    }
}

/// The policies of one scope as configuration, each under its name.
pub open spec fn configurations(policies: Seq<(Seq<char>, PolicyDetailsView)>) -> Seq<
    (Seq<char>, PolicyDetailsView),
> {
    Seq::new(policies.len(), |i: int| (policies[i].0, policies[i].1.configuration()))
}

impl PolicyDetails {
    /// A policy with the given name and no rules.
    pub fn empty(name: PolicyName) -> (r: Self)
        ensures
            r.deep_view() == PolicyDetailsView::empty(name.deep_view()),
    {
        PolicyDetails {
            name,
            active: false,
            disabled: false,
            priority: DEFAULT_PRIORITY,
            target: PolicyTarget::Continue,
            ingress_zones: lists::none(),
            egress_zones: lists::none(),
            services: lists::none(),
            ports: lists::none(),
            protocols: lists::none(),
            masquerade: false,
            forward_ports: lists::none(),
            source_ports: lists::none(),
            icmp_blocks: lists::none(),
            rich_rules: lists::none(),
        }
    }

    /// Whether two snapshots describe the same policy configuration.
    /// `active` is deliberately excluded because it is runtime observation,
    /// not desired configuration.
    pub fn configuration_eq(&self, other: &Self) -> (r: bool)
        ensures
            r == (self.deep_view().configuration() == other.deep_view().configuration()),
    {
        self.name.same(&other.name)
            && self.disabled == other.disabled
            && self.priority == other.priority
            && self.target == other.target
            && self.ingress_zones.same(&other.ingress_zones)
            && self.egress_zones.same(&other.egress_zones)
            && self.services.same(&other.services)
            && self.ports.same(&other.ports)
            && self.protocols.same(&other.protocols)
            && self.masquerade == other.masquerade
            && self.forward_ports.same(&other.forward_ports)
            && self.source_ports.same(&other.source_ports)
            && self.icmp_blocks.same(&other.icmp_blocks)
            && self.rich_rules.same(&other.rich_rules)
    }
}

/// What `as_str` gives for a target reads back as that target.
pub proof fn policy_target_reads_back(t: PolicyTarget)
    ensures
        PolicyTarget::parsed(t.spelled()) == Some(t),
{
    reveal_strlit("CONTINUE");
    reveal_strlit("ACCEPT");
    reveal_strlit("REJECT");
    reveal_strlit("DROP");
    reveal_strlit("%%REJECT%%");
    assert("CONTINUE"@.len() == 8 && "ACCEPT"@.len() == 6 && "REJECT"@.len() == 6);
    assert("DROP"@.len() == 4 && "%%REJECT%%"@.len() == 10);
    assert("ACCEPT"@[0] != "REJECT"@[0]);
}

/// Whether a policy is active is no part of its configuration.
pub proof fn activity_is_no_configuration(policy: PolicyDetailsView, active: bool)
    ensures
        (PolicyDetailsView { active, ..policy }).configuration() == policy.configuration(),
{
}

} // verus!
