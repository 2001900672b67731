//! Turning an observed *denied* netfilter flow into a least-privilege allow
//! suggestion. Pure: the log line is already parsed by the infrastructure
//! adapter; here we only decide the single scoped rule an admin *could* stage
//! to permit that one flow. Nothing is applied — the caller routes the proposed
//! [`FirewallOperation`] through the normal confirm/stage/apply path.

use vstd::prelude::*;

use crate::address::AddressFamily;
use crate::ids::{ValidationErrorView, ZoneName};
use crate::ip;
use crate::ip::IpAddr;
use crate::model;
use crate::model::Value;
use crate::number;
use crate::observation::{LogEntry, LogEntryView};
use crate::operation::{FirewallOperation, FirewallOperationView};
use crate::port::{PortNumber, Protocol};
use crate::rich_rule::RichRule;
use crate::snapshot::ConfigurationTarget;
use crate::text;

pub mod laws;

verus! {

/// A single blocked inbound flow distilled from a denied log line — enough to
/// propose one scoped allow rule (this source, this port, this protocol).
#[derive(Debug, PartialEq, Eq)]
pub struct DeniedFlow {
    /// The blocked source address.
    pub src: IpAddr,
    /// Address family of `src` (decides the `/32` vs `/128` host scope).
    pub family: AddressFamily,
    /// Destination port that was refused.
    pub dport: PortNumber,
    /// Transport protocol.
    pub proto: Protocol,
    /// Ingress interface (`IN=`), when the log line carried one.
    pub iface: Option<String>,
}

/// What a `DeniedFlow` models.
#[verifier::ext_equal]
pub struct DeniedFlowView {
    pub src: IpAddr,
    pub family: AddressFamily,
    pub dport: u16,
    pub proto: Protocol,
    pub iface: Option<Seq<char>>,
}

impl DeepView for DeniedFlow {
    type V = DeniedFlowView;

    open spec fn deep_view(&self) -> DeniedFlowView {
        DeniedFlowView {
            src: self.src.deep_view(),
            family: self.family.deep_view(),
            dport: self.dport.deep_view(),
            proto: self.proto.deep_view(),
            iface: self.iface.deep_view(),
        }
    }
}

impl Value for DeniedFlow {
    fn same(&self, other: &Self) -> (r: bool) {
        self.src == other.src
            && self.family == other.family
            && self.dport.same(&other.dport)
            && self.proto == other.proto
            && self.iface.same(&other.iface)
    }

    fn dup(&self) -> (r: Self) {
        DeniedFlow {
            src: self.src,
            family: self.family,
            dport: self.dport.dup(),
            proto: self.proto,
            iface: self.iface.dup(),
        }
    }
}

impl Clone for DeniedFlow {
    fn clone(&self) -> (r: Self)
        ensures
            r.deep_view() == self.deep_view(),
    {
        self.dup()
    }
}

/// Why a log line cannot become an allow suggestion.
#[derive(Debug, Clone, Copy, PartialEq, Eq, Structural)]
pub enum ProposalError {
    /// The verdict was not a denial — there is nothing to allow.
    NotDenied,
    /// The source field did not parse as an IP address.
    BadSource,
    /// The destination port was missing or not a valid port.
    NoPort,
    /// The protocol is not one a port rule can scope to (e.g. ICMP).
    UnsupportedProtocol,
}

impl DeepView for ProposalError {
    type V = ProposalError;

    open spec fn deep_view(&self) -> ProposalError {
        *self
    }
}

impl Value for ProposalError {
    fn same(&self, other: &Self) -> (r: bool) {
        *self == *other
    }

    fn dup(&self) -> (r: Self) {
        *self
    }
}

impl ProposalError {
    /// The text of each variant.
    pub open spec fn spelled(self) -> Seq<char> {
        match self {
            ProposalError::NotDenied =>
                "select a denied (DROP/REJECT) row to propose an allow rule"@,
            ProposalError::BadSource => "no usable source address on this log line"@,
            ProposalError::NoPort => "no destination port on this log line (portless protocol?)"@,
            ProposalError::UnsupportedProtocol =>
                "no port-scoped rule for this protocol (e.g. ICMP)"@,
        }
    }

    /// The sentence that describes the failure.
    pub fn message(self) -> (r: &'static str)
        ensures
            r@ == self.spelled(),
    {
        match self {
            ProposalError::NotDenied =>
                "select a denied (DROP/REJECT) row to propose an allow rule",
            ProposalError::BadSource => "no usable source address on this log line",
            ProposalError::NoPort => "no destination port on this log line (portless protocol?)",
            ProposalError::UnsupportedProtocol =>
                "no port-scoped rule for this protocol (e.g. ICMP)",
        }
    }
}

impl DeniedFlowView {
    /// The flow that the fields of a log line describe.
    pub open spec fn parsed(
        src: Seq<char>,
        dport: Seq<char>,
        proto: Seq<char>,
        iface: Seq<char>,
    ) -> Result<DeniedFlowView, ProposalError> {
        match ip::address(text::trimmed(src)) {
            None => Err(ProposalError::BadSource),
            Some(addr) => match Protocol::parsed(text::lower(text::trimmed(proto))) {
                Err(_) => Err(ProposalError::UnsupportedProtocol),
                Ok(proto) => match PortNumber::parsed(text::trimmed(dport)) {
                    Err(_) => Err(ProposalError::NoPort),
                    Ok(dport) => Ok(
                        DeniedFlowView {
                            src: addr,
                            family: if addr is V4 {
                                AddressFamily::Ipv4
                            } else {
                                AddressFamily::Ipv6
                            },
                            dport,
                            proto,
                            iface: if text::trimmed(iface).len() == 0 {
                                None
                            } else {
                                Some(text::trimmed(iface))
                            },
                        },
                    ),
                },
            },
        }
    }

    /// The flow that a log line shows, if it was denied.
    pub open spec fn of_entry(entry: LogEntryView) -> Result<DeniedFlowView, ProposalError> {
        if !entry.action.denied() {
            Err(ProposalError::NotDenied)
        } else {
            Self::parsed(entry.src, entry.dport, entry.proto, entry.iface)
        }
    }

    /// The text of the rule that allows this flow and nothing else: one host,
    /// one port, one protocol.
    pub open spec fn allow_text(self) -> Seq<char> {
        "rule family=\""@ + self.family.spelled() + "\" source address=\""@ + self.src.spelled()
            + if self.family == AddressFamily::Ipv4 {
            "/32"@
        } else {
            "/128"@
        } + "\" port port=\""@ + number::decimal(self.dport as nat) + "\" protocol=\""@
            + self.proto.spelled() + "\" accept"@
    }

    /// The operation that allows this flow in a zone.
    pub open spec fn proposal(self, zone: Seq<char>, target: ConfigurationTarget) -> Option<
        FirewallOperationView,
    > {
        match RichRule::parsed(self.allow_text()) {
            Ok(rule) => Some(FirewallOperationView::AddRichRule { zone, rule, target }),
            Err(_) => None,
        }
    }
}

impl DeniedFlow {
    /// Parses the raw log-string fields of an already-denied flow. The kernel
    /// logs `PROTO` uppercase (`TCP`) while firewalld wants it lowercase, and
    /// `DPT` is empty for portless protocols — both are normalized here.
    pub fn parse(src: &str, dport: &str, proto: &str, iface: &str) -> (r: Result<
        Self,
        ProposalError,
    >)
        ensures
            model::outcome(r) == DeniedFlowView::parsed(src@, dport@, proto@, iface@),
    {
        let src = match IpAddr::parse(text::trim(src)) {
            None => {
                return Err(ProposalError::BadSource);
            },
            Some(addr) => addr,
        };
        let family = if src.is_ipv4() {
            AddressFamily::Ipv4
        } else {
            AddressFamily::Ipv6
        };
        let lowered = text::to_lower(text::trim(proto));
        let proto = match Protocol::parse(lowered.as_str()) {
            Err(_) => {
                return Err(ProposalError::UnsupportedProtocol);
            },
            Ok(proto) => proto,
        };
        let dport = match PortNumber::parse(text::trim(dport)) {
            Err(_) => {
                return Err(ProposalError::NoPort);
            },
            Ok(dport) => dport,
        };
        let trimmed = text::trim(iface);
        let iface = if trimmed.unicode_len() == 0 {
            None
        } else {
            Some(trimmed.to_owned())
        };
        Ok(DeniedFlow { src, family, dport, proto, iface })
    }

    /// Builds a source-scoped allow rule for this flow in `zone`: the tightest
    /// shape firewalld offers — this one host, to this one port/protocol, in
    /// this one zone. Widening (a zone-wide port open or a whole service) is
    /// always a separate, explicit choice, never proposed here.
    pub fn propose_allow(&self, zone: ZoneName, target: ConfigurationTarget) -> (r: Option<
        FirewallOperation,
    >)
        ensures
            r.deep_view() == self.deep_view().proposal(zone.deep_view(), target),
    {
        let shown = self.src.show();
        let port = self.dport.show();
        let mut raw = text::cat4(
            "rule family=\"",
            self.family.as_str(),
            "\" source address=\"",
            shown.as_str(),
        );
        raw.append(
            if self.family == AddressFamily::Ipv4 {
                "/32"
            } else {
                "/128"
            },
        );
        raw.append("\" port port=\"");
        raw.append(port.as_str());
        raw.append("\" protocol=\"");
        raw.append(self.proto.as_str());
        raw.append("\" accept");
        match RichRule::parse(raw.as_str()) {
            Ok(rule) => Some(FirewallOperation::AddRichRule { zone, rule, target }),
            Err(_) => None,
        }
    }

    /// Reads the flow off a log line, if it was denied.
    pub fn try_from(entry: &LogEntry) -> (r: Result<Self, ProposalError>)
        ensures
            model::outcome(r) == DeniedFlowView::of_entry(entry.deep_view()),
    {
        if !entry.action.is_denied() {
            return Err(ProposalError::NotDenied);
        }
        Self::parse(
            entry.src.as_str(),
            entry.dport.as_str(),
            entry.proto.as_str(),
            entry.iface.as_str(),
        )
    }
}

/// A flow is read off the fields that describe it: the source reads as its
/// address, the port as its port, the protocol as its protocol, and the
/// interface is kept unless it is blank. Each that does not read is named.
pub proof fn flows_are_what_the_fields_say(
    src: Seq<char>,
    dport: Seq<char>,
    proto: Seq<char>,
    iface: Seq<char>,
)
    ensures
        match DeniedFlowView::parsed(src, dport, proto, iface) {
            Ok(flow) => {
                &&& ip::address(text::trimmed(src)) == Some(flow.src)
                &&& flow.family == if flow.src is V4 {
                    AddressFamily::Ipv4
                } else {
                    AddressFamily::Ipv6
                }
                &&& PortNumber::parsed(text::trimmed(dport)) == Ok::<u16, ValidationErrorView>(
                    flow.dport,
                )
                &&& Protocol::parsed(text::lower(text::trimmed(proto))) == Ok::<
                    Protocol,
                    ValidationErrorView,
                >(flow.proto)
                &&& flow.iface == if text::trimmed(iface).len() == 0 {
                    None
                } else {
                    Some(text::trimmed(iface))
                }
            },
            Err(ProposalError::BadSource) => ip::address(text::trimmed(src)) is None,
            Err(ProposalError::UnsupportedProtocol) => Protocol::parsed(
                text::lower(text::trimmed(proto)),
            ) is Err,
            Err(ProposalError::NoPort) => PortNumber::parsed(text::trimmed(dport)) is Err,
            Err(ProposalError::NotDenied) => false,
        },
{
}

} // verus!
