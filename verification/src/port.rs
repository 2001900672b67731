//! Ports, protocols, and port-forwarding specifications.

use vstd::prelude::*;

use crate::ids::{ValidationError, ValidationErrorView};
use crate::ip;
use crate::ip::IpAddr;
use crate::model;
use crate::model::Value;
use crate::number;
use crate::text;

verus! {

/// Transport protocols firewalld accepts in port rules.
#[derive(Debug, Clone, Copy, PartialEq, Eq, Hash, PartialOrd, Ord, Structural)]
pub enum Protocol {
    /// TCP.
    Tcp,
    /// UDP.
    Udp,
    /// SCTP.
    Sctp,
    /// DCCP.
    Dccp,
}

impl DeepView for Protocol {
    type V = Protocol;

    open spec fn deep_view(&self) -> Protocol {
        *self
    }
}

impl Value for Protocol {
    fn same(&self, other: &Self) -> (r: bool) {
        *self == *other
    }

    fn dup(&self) -> (r: Self) {
        *self
    }
}

impl Protocol {
    /// The text of each variant.
    pub open spec fn spelled(self) -> Seq<char> {
        match self {
            Protocol::Tcp => "tcp"@,
            Protocol::Udp => "udp"@,
            Protocol::Sctp => "sctp"@,
            Protocol::Dccp => "dccp"@,
        }
    }

    /// The lowercase spelling used in `firewall-cmd` arguments.
    pub fn as_str(self) -> (r: &'static str)
        ensures
            r@ == self.spelled(),
    {
        match self {
            Protocol::Tcp => "tcp",
            Protocol::Udp => "udp",
            Protocol::Sctp => "sctp",
            Protocol::Dccp => "dccp",
        }
    }
}

impl Protocol {
    /// The protocol that a keyword names.
    pub open spec fn parsed(s: Seq<char>) -> Result<Protocol, ValidationErrorView> {
        if s == "tcp"@ {
            Ok(Protocol::Tcp)
        } else if s == "udp"@ {
            Ok(Protocol::Udp)
        } else if s == "sctp"@ {
            Ok(Protocol::Sctp)
        } else if s == "dccp"@ {
            Ok(Protocol::Dccp)
        } else {
            Err(ValidationErrorView::InvalidProtocol(s))
        }
    }

    /// Reads a protocol keyword.
    pub fn parse(s: &str) -> (r: Result<Protocol, ValidationError>)
        ensures
            model::outcome(r) == Self::parsed(s@),
    {
        if text::same(s, "tcp") {
            Ok(Protocol::Tcp)
        } else if text::same(s, "udp") {
            Ok(Protocol::Udp)
        } else if text::same(s, "sctp") {
            Ok(Protocol::Sctp)
        } else if text::same(s, "dccp") {
            Ok(Protocol::Dccp)
        } else {
            Err(ValidationError::InvalidProtocol(s.to_owned()))
        }
    }
}

impl std::str::FromStr for Protocol {
    type Err = ValidationError;

    fn from_str(s: &str) -> (r: Result<Self, ValidationError>)
        ensures
            model::outcome(r) == Protocol::parsed(s@),
    {
        Protocol::parse(s)
    }
}

/// A non-zero TCP/UDP/SCTP/DCCP port number.
#[derive(Debug, Clone, Copy, PartialEq, Eq, Hash, PartialOrd, Ord)]
pub struct PortNumber {
    value: u16,
}

impl DeepView for PortNumber {
    type V = u16;

    closed spec fn deep_view(&self) -> u16 {
        self.value
    }
}

impl Value for PortNumber {
    fn same(&self, other: &Self) -> (r: bool) {
        self.value == other.value
    }

    fn dup(&self) -> (r: Self) {
        *self
    }
}

impl PortNumber {
    /// The port number that a text spells.
    pub open spec fn parsed(s: Seq<char>) -> Result<u16, ValidationErrorView> {
        match number::unsigned(s, 65535) {
            None => Err(ValidationErrorView::InvalidPort(s)),
            Some(n) => if n == 0 {
                Err(ValidationErrorView::InvalidPort("0"@))
            } else {
                Ok(n as u16)
            },
        }
    }

    /// The number is not zero.
    #[verifier::type_invariant]
    pub open spec fn valid(self) -> bool {
        self.deep_view() != 0
    }

    /// Validates that `value` is non-zero.
    pub fn new(value: u16) -> (r: Result<Self, ValidationError>)
        ensures
            model::outcome(r) == if value == 0 {
                Err::<u16, ValidationErrorView>(ValidationErrorView::InvalidPort("0"@))
            } else {
                Ok(value)
            },
    {
        if value == 0 {
            return Err(ValidationError::InvalidPort("0".to_owned()));
        }
        Ok(PortNumber { value })
    }

    /// The raw port number.
    pub fn get(self) -> (r: u16)
        ensures
            r == self.deep_view(),
            r != 0,
    {
        proof {
            use_type_invariant(&self);
        }
        self.value
    }

    /// Reads a port number.
    pub fn parse(s: &str) -> (r: Result<Self, ValidationError>)
        ensures
            model::outcome(r) == Self::parsed(s@),
    {
        match number::parse_unsigned(s, 65535) {
            None => Err(ValidationError::InvalidPort(s.to_owned())),
            Some(n) => PortNumber::new(n as u16),
        }
    }

    /// The number in decimal.
    pub fn show(self) -> (r: String)
        ensures
            r@ == number::decimal(self.deep_view() as nat),
            Self::parsed(r@) == Ok::<u16, ValidationErrorView>(self.deep_view()),
    {
        proof {
            use_type_invariant(&self);
            port_number_reads_back(self.value);
        }
        number::show(self.value as u64)
    }
}

impl std::str::FromStr for PortNumber {
    type Err = ValidationError;

    fn from_str(s: &str) -> (r: Result<Self, ValidationError>)
        ensures
            model::outcome(r) == PortNumber::parsed(s@),
    {
        PortNumber::parse(s)
    }
}

/// An inclusive port range with `start <= end` enforced at construction.
#[derive(Debug, Clone, Copy, PartialEq, Eq, Hash, PartialOrd, Ord)]
pub struct PortRange {
    start: PortNumber,
    end: PortNumber,
}

impl DeepView for PortRange {
    type V = (u16, u16);

    closed spec fn deep_view(&self) -> (u16, u16) {
        (self.start.deep_view(), self.end.deep_view())
    }
}

impl Value for PortRange {
    fn same(&self, other: &Self) -> (r: bool) {
        self.start.same(&other.start) && self.end.same(&other.end)
    }

    fn dup(&self) -> (r: Self) {
        *self
    }
}

/// The range between two ports, or the complaint that it is inverted.
pub open spec fn ranged(start: u16, end: u16) -> Result<(u16, u16), ValidationErrorView> {
    if start > end {
        Err(
            ValidationErrorView::InvalidRange(
                number::decimal(start as nat) + "-"@ + number::decimal(end as nat),
            ),
        )
    } else {
        Ok((start, end))
    }
}

impl PortRange {
    /// Both bounds are ports and the first is not above the second.
    #[verifier::type_invariant]
    pub open spec fn valid(self) -> bool {
        0 < self.deep_view().0 <= self.deep_view().1
    }

    /// Validates that `start <= end`.
    pub fn new(start: PortNumber, end: PortNumber) -> (r: Result<Self, ValidationError>)
        ensures
            model::outcome(r) == ranged(start.deep_view(), end.deep_view()),
    {
        if start.get() > end.get() {
            let a = start.show();
            let b = end.show();
            return Err(ValidationError::InvalidRange(text::cat3(a.as_str(), "-", b.as_str())));
        }
        Ok(PortRange { start, end })
    }

    /// Inclusive lower bound.
    pub fn start(self) -> (r: PortNumber)
        ensures
            r.deep_view() == self.deep_view().0,
    {
        self.start
    }

    /// Inclusive upper bound.
    pub fn end(self) -> (r: PortNumber)
        ensures
            r.deep_view() == self.deep_view().1,
            self.deep_view().0 <= r.deep_view(),
    {
        proof {
            use_type_invariant(&self);
        }
        self.end
    }
}

/// A single port or an inclusive range, the port half of a port spec.
#[derive(Debug, Clone, Copy, PartialEq, Eq, Hash, PartialOrd, Ord)]
pub enum PortSelector {
    /// One port.
    Single(PortNumber),
    /// An inclusive port range.
    Range(PortRange),
}

/// What a `PortSelector` models.
pub enum PortSelectorView {
    Single(u16),
    Range(u16, u16),
}

impl PortSelectorView {
    /// The text of the selector.
    pub open spec fn spelled(self) -> Seq<char> {
        match self {
            PortSelectorView::Single(p) => number::decimal(p as nat),
            PortSelectorView::Range(a, b) => number::decimal(a as nat) + "-"@ + number::decimal(
                b as nat,
            ),
        }
    }

    /// Ports are not zero and a range is not inverted.
    pub open spec fn valid(self) -> bool {
        match self {
            PortSelectorView::Single(p) => p != 0,
            PortSelectorView::Range(a, b) => 0 < a <= b,
        }
    }

    /// The selector that a text spells.
    pub open spec fn parsed(s: Seq<char>) -> Result<PortSelectorView, ValidationErrorView> {
        match text::parted(s, "-"@) {
            Some((a, b)) => match PortNumber::parsed(a) {
                Err(e) => Err(e),
                Ok(start) => match PortNumber::parsed(b) {
                    Err(e) => Err(e),
                    Ok(end) => match ranged(start, end) {
                        Err(e) => Err(e),
                        Ok(range) => Ok(PortSelectorView::Range(range.0, range.1)),
                    },
                },
            },
            None => match PortNumber::parsed(s) {
                Err(e) => Err(e),
                Ok(p) => Ok(PortSelectorView::Single(p)),
            },
        }
    }
}

impl DeepView for PortSelector {
    type V = PortSelectorView;

    open spec fn deep_view(&self) -> PortSelectorView {
        match self {
            PortSelector::Single(p) => PortSelectorView::Single(p.deep_view()),
            PortSelector::Range(r) => PortSelectorView::Range(r.deep_view().0, r.deep_view().1),
        }
    }
}

impl Value for PortSelector {
    fn same(&self, other: &Self) -> (r: bool) {
        match (self, other) {
            (PortSelector::Single(a), PortSelector::Single(b)) => a.same(b),
            (PortSelector::Range(a), PortSelector::Range(b)) => a.same(b),
            _ => false,
        }
    }

    fn dup(&self) -> (r: Self) {
        *self
    }
}

impl PortSelector {
    /// Reads a port or a range of ports.
    pub fn parse(s: &str) -> (r: Result<PortSelector, ValidationError>)
        ensures
            model::outcome(r) == PortSelectorView::parsed(s@),
    {
        match text::split_once(s, "-") {
            Some((a, b)) => match PortNumber::parse(a) {
                Err(e) => Err(e),
                Ok(start) => match PortNumber::parse(b) {
                    Err(e) => Err(e),
                    Ok(end) => match PortRange::new(start, end) {
                        Err(e) => Err(e),
                        Ok(range) => Ok(PortSelector::Range(range)),
                    },
                },
            },
            None => match PortNumber::parse(s) {
                Err(e) => Err(e),
                Ok(p) => Ok(PortSelector::Single(p)),
            },
        }
    }

    /// The text of the selector.
    pub fn show(&self) -> (r: String)
        ensures
            r@ == self.deep_view().spelled(),
            self.deep_view().valid(),
            PortSelectorView::parsed(r@) == Ok::<PortSelectorView, ValidationErrorView>(
                self.deep_view(),
            ),
    {
        match self {
            PortSelector::Single(p) => {
                proof {
                    use_type_invariant(p);
                    port_selector_reads_back(self.deep_view());
                }
                p.show()
            },
            PortSelector::Range(range) => {
                proof {
                    use_type_invariant(range);
                    port_selector_reads_back(self.deep_view());
                }
                let a = range.start().show();
                let b = range.end().show();
                text::cat3(a.as_str(), "-", b.as_str())
            },
        }
    }

    /// The lowest and the highest port that the selector covers.
    pub fn bounds(&self) -> (r: (u16, u16))
        ensures
            r == self.deep_view().bounds(),
    {
        match self {
            PortSelector::Single(p) => (p.get(), p.get()),
            PortSelector::Range(range) => (range.start().get(), range.end().get()),
        }
    }
}

impl PortSelectorView {
    /// The lowest and the highest port that the selector covers.
    pub open spec fn bounds(self) -> (u16, u16) {
        match self {
            PortSelectorView::Single(p) => (p, p),
            PortSelectorView::Range(a, b) => (a, b),
        }
    }
}

impl std::str::FromStr for PortSelector {
    type Err = ValidationError;

    fn from_str(s: &str) -> (r: Result<Self, ValidationError>)
        ensures
            model::outcome(r) == PortSelectorView::parsed(s@),
    {
        PortSelector::parse(s)
    }
}

/// A port (or range) plus protocol, in the same `8080/tcp` syntax firewall-cmd uses.
#[derive(Debug, Clone, Copy, PartialEq, Eq, Hash, PartialOrd, Ord)]
pub struct PortSpec {
    /// Port or range.
    pub port: PortSelector,
    /// Transport protocol.
    pub protocol: Protocol,
}

/// What a `PortSpec` models.
#[verifier::ext_equal]
pub struct PortSpecView {
    pub port: PortSelectorView,
    pub protocol: Protocol,
}

impl DeepView for PortSpec {
    type V = PortSpecView;

    open spec fn deep_view(&self) -> PortSpecView {
        PortSpecView {
            port: self.port.deep_view(),
            protocol: self.protocol.deep_view(),
        }
    }
}

impl Value for PortSpec {
    fn same(&self, other: &Self) -> (r: bool) {
        self.port.same(&other.port) && self.protocol == other.protocol
    }

    fn dup(&self) -> (r: Self) {
        PortSpec {
            port: self.port.dup(),
            protocol: self.protocol,
        }
    }
}

impl PortSpecView {
    /// The text of the port spec.
    pub open spec fn spelled(self) -> Seq<char> {
        self.port.spelled() + "/"@ + self.protocol.spelled()
    }

    /// The port spec that a text spells.
    pub open spec fn parsed(s: Seq<char>) -> Result<PortSpecView, ValidationErrorView> {
        match text::parted(s, "/"@) {
            None => Err(ValidationErrorView::InvalidPortSpec(s)),
            Some((port, protocol)) => match PortSelectorView::parsed(port) {
                Err(e) => Err(e),
                Ok(port) => match Protocol::parsed(protocol) {
                    Err(e) => Err(e),
                    Ok(protocol) => Ok(PortSpecView { port, protocol }),
                },
            },
        }
    }
}

impl PortSpec {
    /// Reads a port spec.
    pub fn parse(s: &str) -> (r: Result<PortSpec, ValidationError>)
        ensures
            model::outcome(r) == PortSpecView::parsed(s@),
    {
        match text::split_once(s, "/") {
            None => Err(ValidationError::InvalidPortSpec(s.to_owned())),
            Some((port, protocol)) => match PortSelector::parse(port) {
                Err(e) => Err(e),
                Ok(port) => match Protocol::parse(protocol) {
                    Err(e) => Err(e),
                    Ok(protocol) => Ok(PortSpec { port, protocol }),
                },
            },
        }
    }

    /// The text of the port spec.
    pub fn show(&self) -> (r: String)
        ensures
            r@ == self.deep_view().spelled(),
            PortSpecView::parsed(r@) == Ok::<PortSpecView, ValidationErrorView>(self.deep_view()),
    {
        let port = self.port.show();
        proof {
            port_spec_reads_back(self.deep_view());
        }
        text::cat3(port.as_str(), "/", self.protocol.as_str())
    }
}

impl std::str::FromStr for PortSpec {
    type Err = ValidationError;

    fn from_str(s: &str) -> (r: Result<Self, ValidationError>)
        ensures
            model::outcome(r) == PortSpecView::parsed(s@),
    {
        PortSpec::parse(s)
    }
}

/// An `--add-forward-port` style rule.
#[derive(Debug, PartialEq, Eq, Hash, PartialOrd, Ord)]
pub struct ForwardPort {
    /// Matched destination port(s).
    pub port: PortSelector,
    /// Transport protocol.
    pub protocol: Protocol,
    /// Rewritten destination port(s), if any.
    pub to_port: Option<PortSelector>,
    /// Rewritten destination address, if any.
    pub to_addr: Option<IpAddr>,
}

/// What a `ForwardPort` models.
#[verifier::ext_equal]
pub struct ForwardPortView {
    pub port: PortSelectorView,
    pub protocol: Protocol,
    pub to_port: Option<PortSelectorView>,
    pub to_addr: Option<IpAddr>,
}

impl DeepView for ForwardPort {
    type V = ForwardPortView;

    open spec fn deep_view(&self) -> ForwardPortView {
        ForwardPortView {
            port: self.port.deep_view(),
            protocol: self.protocol.deep_view(),
            to_port: self.to_port.deep_view(),
            to_addr: self.to_addr.deep_view(),
        }
    }
}

impl Value for ForwardPort {
    fn same(&self, other: &Self) -> (r: bool) {
        self.port.same(&other.port)
            && self.protocol == other.protocol
            && self.to_port.same(&other.to_port)
            && self.to_addr.same(&other.to_addr)
    }

    fn dup(&self) -> (r: Self) {
        ForwardPort {
            port: self.port.dup(),
            protocol: self.protocol,
            to_port: self.to_port.dup(),
            to_addr: self.to_addr.dup(),
        }
    }
}

impl Clone for ForwardPort {
    fn clone(&self) -> (r: Self)
        ensures
            r.deep_view() == self.deep_view(),
    {
        self.dup()
    }
}

/// The two sides of a marker; all of `s` and nothing where it is missing.
pub open spec fn cut_off(s: Seq<char>, marker: Seq<char>) -> (Seq<char>, Option<Seq<char>>) {
    match text::parted(s, marker) {
        Some((head, tail)) => (head, Some(tail)),
        None => (s, None),
    }
}

fn cut<'a>(s: &'a str, marker: &str) -> (r: (&'a str, Option<&'a str>))
    ensures
        r.0@ == cut_off(s@, marker@).0,
        match r.1 {
            Some(tail) => cut_off(s@, marker@).1 == Some(tail@),
            None => cut_off(s@, marker@).1 is None,
        },
{
    match text::split_once(s, marker) {
        Some((head, tail)) => (head, Some(tail)),
        None => (s, None),
    }
}

/// The rewritten ports: not set where the text is missing or empty.
pub open spec fn to_port_parsed(s: Option<Seq<char>>) -> Result<
    Option<PortSelectorView>,
    ValidationErrorView,
> {
    match s {
        Some(v) => if v.len() == 0 {
            Ok(None)
        } else {
            match PortSelectorView::parsed(v) {
                Ok(p) => Ok(Some(p)),
                Err(e) => Err(e),
            }
        },
        None => Ok(None),
    }
}

/// The rewritten address: not set where the text is missing or empty.
pub open spec fn to_addr_parsed(s: Option<Seq<char>>, whole: Seq<char>) -> Result<
    Option<IpAddr>,
    ValidationErrorView,
> {
    match s {
        Some(v) => if v.len() == 0 {
            Ok(None)
        } else {
            match ip::address(v) {
                Some(a) => Ok(Some(a)),
                None => Err(ValidationErrorView::InvalidForwardPort(whole)),
            }
        },
        None => Ok(None),
    }
}

/// The text that the four parts make; empty parts are left out.
pub open spec fn forward_text(
    port: Seq<char>,
    protocol: Seq<char>,
    to_port: Seq<char>,
    to_addr: Seq<char>,
) -> Seq<char> {
    let head = "port="@ + port + ":proto="@ + protocol;
    let with_port = if to_port.len() == 0 {
        head
    } else {
        head + ":toport="@ + to_port
    };
    if to_addr.len() == 0 {
        with_port
    } else {
        with_port + ":toaddr="@ + to_addr
    }
}

impl ForwardPortView {
    /// The exact firewall-cmd forward-port syntax.
    pub open spec fn spelled(self) -> Seq<char> {
        let head = "port="@ + self.port.spelled() + ":proto="@ + self.protocol.spelled();
        let with_port = match self.to_port {
            Some(p) => head + ":toport="@ + p.spelled(),
            None => head,
        };
        match self.to_addr {
            Some(a) => with_port + ":toaddr="@ + a.spelled(),
            None => with_port,
        }
    }

    /// The forward that a text spells. The address is split off first because
    /// IPv6 addresses contain colons.
    pub open spec fn parsed(s: Seq<char>) -> Result<ForwardPortView, ValidationErrorView> {
        let (rest, to_addr) = cut_off(s, ":toaddr="@);
        let (rest, to_port) = cut_off(rest, ":toport="@);
        let (rest, protocol) = cut_off(rest, ":proto="@);
        match text::stripped(rest, "port="@) {
            None => Err(ValidationErrorView::InvalidForwardPort(s)),
            Some(port) => match PortSelectorView::parsed(port) {
                Err(e) => Err(e),
                Ok(port) => match protocol {
                    None => Err(ValidationErrorView::InvalidForwardPort(s)),
                    Some(protocol) => match Protocol::parsed(protocol) {
                        Err(e) => Err(e),
                        Ok(protocol) => match to_port_parsed(to_port) {
                            Err(e) => Err(e),
                            Ok(to_port) => match to_addr_parsed(to_addr, s) {
                                Err(e) => Err(e),
                                Ok(to_addr) => Ok(
                                    ForwardPortView { port, protocol, to_port, to_addr },
                                ),
                            },
                        },
                    },
                },
            },
        }
    }
}

fn parse_to_port(s: Option<&str>) -> (r: Result<Option<PortSelector>, ValidationError>)
    ensures
        model::outcome(r) == to_port_parsed(
            match s {
                Some(v) => Some(v@),
                None => None,
            },
        ),
{
    match s {
        Some(v) => if v.unicode_len() == 0 {
            Ok(None)
        } else {
            match PortSelector::parse(v) {
                Ok(p) => Ok(Some(p)),
                Err(e) => Err(e),
            }
        },
        None => Ok(None),
    }
}

fn parse_to_addr(s: Option<&str>, whole: &str) -> (r: Result<Option<IpAddr>, ValidationError>)
    ensures
        model::outcome(r) == to_addr_parsed(
            match s {
                Some(v) => Some(v@),
                None => None,
            },
            whole@,
        ),
{
    match s {
        Some(v) => if v.unicode_len() == 0 {
            Ok(None)
        } else {
            match IpAddr::parse(v) {
                Some(a) => Ok(Some(a)),
                None => Err(ValidationError::InvalidForwardPort(whole.to_owned())),
            }
        },
        None => Ok(None),
    }
}

impl ForwardPort {
    /// Builds a forward from its four raw parts (empty `to_port`/`to_addr`
    /// mean "not set"). The single constructor for every row/tuple source —
    /// UI table rows and D-Bus tuples both funnel through here.
    pub fn from_parts(port: &str, protocol: &str, to_port: &str, to_addr: &str) -> (r: Option<
        Self,
    >)
        ensures
            match r {
                Some(f) => ForwardPortView::parsed(
                    forward_text(port@, protocol@, to_port@, to_addr@),
                ) == Ok::<ForwardPortView, ValidationErrorView>(f.deep_view()),
                None => ForwardPortView::parsed(
                    forward_text(port@, protocol@, to_port@, to_addr@),
                ) is Err,
            },
    {
        let mut spec = text::cat4("port=", port, ":proto=", protocol);
        if to_port.unicode_len() != 0 {
            spec.append(":toport=");
            spec.append(to_port);
        }
        if to_addr.unicode_len() != 0 {
            spec.append(":toaddr=");
            spec.append(to_addr);
        }
        match ForwardPort::parse(spec.as_str()) {
            Ok(f) => Some(f),
            Err(_) => None,
        }
    }

    /// The exact firewall-cmd forward-port syntax; also what `parse` accepts.
    pub fn spec_string(&self) -> (r: String)
        ensures
            r@ == self.deep_view().spelled(),
            ForwardPortView::parsed(r@) == Ok::<ForwardPortView, ValidationErrorView>(
                self.deep_view(),
            ),
    {
        let port = self.port.show();
        let mut spec = text::cat4("port=", port.as_str(), ":proto=", self.protocol.as_str());
        if let Some(to_port) = &self.to_port {
            let shown = to_port.show();
            spec.append(":toport=");
            spec.append(shown.as_str());
        }
        if let Some(to_addr) = &self.to_addr {
            let shown = to_addr.show();
            spec.append(":toaddr=");
            spec.append(shown.as_str());
        }
        proof {
            forward_port_reads_back(self.deep_view());
        }
        spec
    }

    /// Reads `port=8080:proto=tcp[:toport=80][:toaddr=10.0.0.5]`.
    pub fn parse(s: &str) -> (r: Result<ForwardPort, ValidationError>)
        ensures
            model::outcome(r) == ForwardPortView::parsed(s@),
    {
        let (rest, to_addr) = cut(s, ":toaddr=");
        let (rest, to_port) = cut(rest, ":toport=");
        let (rest, protocol) = cut(rest, ":proto=");
        match text::strip_prefix(rest, "port=") {
            None => Err(ValidationError::InvalidForwardPort(s.to_owned())),
            Some(port) => match PortSelector::parse(port) {
                Err(e) => Err(e),
                Ok(port) => match protocol {
                    None => Err(ValidationError::InvalidForwardPort(s.to_owned())),
                    Some(protocol) => match Protocol::parse(protocol) {
                        Err(e) => Err(e),
                        Ok(protocol) => match parse_to_port(to_port) {
                            Err(e) => Err(e),
                            Ok(to_port) => match parse_to_addr(to_addr, s) {
                                Err(e) => Err(e),
                                Ok(to_addr) => Ok(
                                    ForwardPort { port, protocol, to_port, to_addr },
                                ),
                            },
                        },
                    },
                },
            },
        }
    }
}

impl std::str::FromStr for ForwardPort {
    type Err = ValidationError;

    fn from_str(s: &str) -> (r: Result<Self, ValidationError>)
        ensures
            model::outcome(r) == ForwardPortView::parsed(s@),
    {
        ForwardPort::parse(s)
    }
}

// ---------------------------------------------------------------------------
// Reading back what was written
// ---------------------------------------------------------------------------
/// A protocol reads back from its keyword.
pub proof fn protocol_reads_back(protocol: Protocol)
    ensures
        Protocol::parsed(protocol.spelled()) == Ok::<Protocol, ValidationErrorView>(protocol),
        text::free_of(protocol.spelled(), ':'),
{
    reveal_strlit("tcp");
    reveal_strlit("udp");
    reveal_strlit("sctp");
    reveal_strlit("dccp");
    assert("tcp"@[0] != "udp"@[0]);
    assert("tcp"@[0] != "sctp"@[0]);
    assert("sctp"@[0] != "udp"@[0]);
    assert("dccp"@[0] != "tcp"@[0]);
    assert("dccp"@[0] != "udp"@[0]);
    assert("dccp"@[0] != "sctp"@[0]);
}

/// A port number reads back from its text.
pub proof fn port_number_reads_back(port: u16)
    requires
        port != 0,
    ensures
        PortNumber::parsed(number::decimal(port as nat)) == Ok::<u16, ValidationErrorView>(port),
{
    number::unsigned_reads_back(port as nat, 65535);
}

/// A port or range reads back from its text, which holds digits and dashes.
pub proof fn port_selector_reads_back(selector: PortSelectorView)
    requires
        selector.valid(),
    ensures
        PortSelectorView::parsed(selector.spelled()) == Ok::<PortSelectorView, ValidationErrorView>(
            selector,
        ),
        selector.spelled().len() > 0,
        text::free_of(selector.spelled(), ':'),
        text::free_of(selector.spelled(), '/'),
{
    reveal_strlit("-");
    assert("-"@ =~= seq!['-']);
    match selector {
        PortSelectorView::Single(p) => {
            number::decimal_free_of(p as nat, '-');
            number::decimal_free_of(p as nat, ':');
            number::decimal_free_of(p as nat, '/');
            number::decimal_shape(p as nat);
            text::parted_without_char(number::decimal(p as nat), '-');
            port_number_reads_back(p);
        },
        PortSelectorView::Range(a, b) => {
            let x = number::decimal(a as nat);
            let y = number::decimal(b as nat);
            let s = selector.spelled();
            number::decimal_free_of(a as nat, '-');
            number::decimal_free_of(a as nat, ':');
            number::decimal_free_of(a as nat, '/');
            number::decimal_free_of(b as nat, ':');
            number::decimal_free_of(b as nat, '/');
            text::parted_at_char(x, '-', y);
            port_number_reads_back(a);
            port_number_reads_back(b);
            assert forall|i: int| 0 <= i < s.len() implies #[
                trigger
            ] s[i] != ':' && s[i] != '/' by {
                if i < x.len() {
                    assert(s[i] == x[i]);
                } else if i > x.len() {
                    assert(s[i] == y[i - x.len() - 1]);
                }
            }
        },
    }
}

/// A port spec reads back from its text.
pub proof fn port_spec_reads_back(spec: PortSpecView)
    requires
        spec.port.valid(),
    ensures
        PortSpecView::parsed(spec.spelled()) == Ok::<PortSpecView, ValidationErrorView>(spec),
{
    reveal_strlit("/");
    assert("/"@ =~= seq!['/']);
    port_selector_reads_back(spec.port);
    protocol_reads_back(spec.protocol);
    text::parted_at_char(spec.port.spelled(), '/', spec.protocol.spelled());
}

/// Reading gives valid ports and ranges only.
pub proof fn parsed_selector_is_valid(s: Seq<char>)
    ensures
        PortSelectorView::parsed(s) matches Ok(selector) ==> selector.valid(),
{
}

impl ForwardPortView {
    /// The ports are valid.
    pub open spec fn valid(self) -> bool {
        self.port.valid() && (self.to_port matches Some(p) ==> p.valid())
    }
}

/// A pattern that starts with a colon stands only where there is a colon.
proof fn stands_at_colon(s: Seq<char>, pat: Seq<char>, j: int)
    requires
        text::occurs_at(s, pat, j),
        pat.len() > 3,
        pat[0] == ':',
    ensures
        s[j] == ':',
        s[j + 1] == pat[1],
        s[j + 2] == pat[2],
        s[j + 3] == pat[3],
{
    text::occurs_char(s, pat, j, 0);
    text::occurs_char(s, pat, j, 1);
    text::occurs_char(s, pat, j, 2);
    text::occurs_char(s, pat, j, 3);
}

/// The text holds no colon but at the two places.
spec fn colons_only_at(s: Seq<char>, n: int, m: int) -> bool {
    forall|i: int| 0 <= i < s.len() && i != n && i != m ==> #[trigger] s[i] != ':'
}

/// The text with a marked part behind it, if there is one.
spec fn extended(s: Seq<char>, marker: Seq<char>, part: Option<Seq<char>>) -> Seq<char> {
    match part {
        Some(t) => s + marker + t,
        None => s,
    }
}

/// The first two parts of a forward: their only colon stands before `proto`,
/// and there they come apart.
proof fn head_comes_apart(port: Seq<char>, protocol: Seq<char>)
    requires
        text::free_of(port, ':'),
        text::free_of(protocol, ':'),
    ensures
        ({
            let start = "port="@ + port;
            let head = start + ":proto="@ + protocol;
            let n = start.len() as int;
            &&& colons_only_at(head, n, n)
            &&& head.len() > n + 1
            &&& head[n + 1] == 'p'
            &&& text::parted(head, ":proto="@) == Some((start, protocol))
            &&& text::stripped(start, "port="@) == Some(port)
        }),
{
    reveal_strlit("port=");
    reveal_strlit(":proto=");
    let start = "port="@ + port;
    let head = start + ":proto="@ + protocol;
    let n = start.len() as int;
    assert forall|i: int| 0 <= i < head.len() && i != n implies #[trigger] head[i] != ':' by {
        if i < 5 {
            assert(head[i] == "port="@[i]);
        } else if i < n {
            assert(head[i] == port[i - 5]);
        } else if i < n + 7 {
            assert(head[i] == ":proto="@[i - n]);
        } else {
            assert(head[i] == protocol[i - n - 7]);
        }
    }
    assert forall|j: int| 0 <= j < n implies !text::occurs_at(head, ":proto="@, j) by {
        if text::occurs_at(head, ":proto="@, j) {
            stands_at_colon(head, ":proto="@, j);
        }
    }
    text::parted_around(head, ":proto="@, start, protocol);
    assert(start.subrange(0, 5) =~= "port="@);
    assert(start.skip(5) =~= port);
}

/// A rewritten port comes apart from what stands before it.
proof fn to_port_comes_apart(head: Seq<char>, n: int, to_port: Option<Seq<char>>)
    requires
        0 <= n < head.len() - 1,
        colons_only_at(head, n, n),
        head[n + 1] == 'p',
        to_port matches Some(t) ==> text::free_of(t, ':'),
    ensures
        ({
            let m = head.len() as int;
            let middle = extended(head, ":toport="@, to_port);
            &&& cut_off(middle, ":toport="@) == (head, to_port)
            &&& colons_only_at(middle, n, m)
            &&& middle[n + 1] == 'p'
            &&& to_port is Some ==> middle.len() > m + 3 && middle[m + 3] == 'p'
        }),
{
    reveal_strlit(":toport=");
    let pat = ":toport="@;
    let m = head.len() as int;
    match to_port {
        Some(t) => {
            let middle = head + pat + t;
            assert forall|i: int| 0 <= i < middle.len() && i != n && i != m implies #[trigger]
                middle[i] != ':' by {
                if i < m {
                    assert(middle[i] == head[i]);
                } else if i < m + 8 {
                    assert(middle[i] == pat[i - m]);
                } else {
                    assert(middle[i] == t[i - m - 8]);
                }
            }
            assert(middle[n + 1] == head[n + 1]);
            assert forall|j: int| 0 <= j < m implies !text::occurs_at(middle, pat, j) by {
                if text::occurs_at(middle, pat, j) {
                    stands_at_colon(middle, pat, j);
                    assert(j == n);
                }
            }
            text::parted_around(middle, pat, head, t);
            assert(middle[m + 3] == pat[3]);
        },
        None => {
            assert forall|j: int| 0 <= j implies !text::occurs_at(head, pat, j) by {
                if text::occurs_at(head, pat, j) {
                    stands_at_colon(head, pat, j);
                    assert(j == n);
                }
            }
            text::parted_nowhere(head, pat);
        },
    }
}

/// A rewritten address comes apart from what stands before it.
proof fn to_addr_comes_apart(middle: Seq<char>, n: int, m: int, to_addr: Option<Seq<char>>)
    requires
        0 <= n < middle.len() - 1,
        colons_only_at(middle, n, m),
        middle[n + 1] == 'p',
        0 <= m <= middle.len(),
        m < middle.len() ==> middle.len() > m + 3 && middle[m + 3] == 'p',
    ensures
        cut_off(extended(middle, ":toaddr="@, to_addr), ":toaddr="@) == (middle, to_addr),
{
    reveal_strlit(":toaddr=");
    let pat = ":toaddr="@;
    match to_addr {
        Some(t) => {
            let s = middle + pat + t;
            assert forall|j: int| 0 <= j < middle.len() implies !text::occurs_at(s, pat, j) by {
                if text::occurs_at(s, pat, j) {
                    stands_at_colon(s, pat, j);
                    assert(s[j] == middle[j]);
                    if j == n {
                        assert(s[n + 1] == middle[n + 1]);
                    } else {
                        assert(s[m + 3] == middle[m + 3]);
                    }
                }
            }
            text::parted_around(s, pat, middle, t);
        },
        None => {
            assert forall|j: int| 0 <= j implies !text::occurs_at(middle, pat, j) by {
                if text::occurs_at(middle, pat, j) {
                    stands_at_colon(middle, pat, j);
                    assert(j == n || j == m);
                }
            }
            text::parted_nowhere(middle, pat);
        },
    }
}

/// Every forward reads back from its `firewall-cmd` text.
pub proof fn forward_port_reads_back(forward: ForwardPortView)
    requires
        forward.valid(),
    ensures
        ForwardPortView::parsed(forward.spelled()) == Ok::<ForwardPortView, ValidationErrorView>(
            forward,
        ),
{
    let port = forward.port.spelled();
    let protocol = forward.protocol.spelled();
    port_selector_reads_back(forward.port);
    protocol_reads_back(forward.protocol);
    head_comes_apart(port, protocol);
    let start = "port="@ + port;
    let head = start + ":proto="@ + protocol;
    let to_port = match forward.to_port {
        Some(p) => Some(p.spelled()),
        None => None,
    };
    if forward.to_port is Some {
        port_selector_reads_back(forward.to_port->0);
    }
    to_port_comes_apart(head, start.len() as int, to_port);
    let middle = extended(head, ":toport="@, to_port);
    let to_addr = match forward.to_addr {
        Some(a) => Some(a.spelled()),
        None => None,
    };
    if forward.to_addr is Some {
        ip::address_reads_back(forward.to_addr->0);
        ip::address_text_shape(forward.to_addr->0);
    }
    to_addr_comes_apart(middle, start.len() as int, head.len() as int, to_addr);
}

/// The port is among those that the selector stands for.
pub open spec fn selects(selector: PortSelectorView, port: int) -> bool {
    match selector {
        PortSelectorView::Single(p) => port == p,
        PortSelectorView::Range(a, b) => a <= port <= b,
    }
}

/// Every port of the query is a port of the rule.
pub open spec fn spans(rule: PortSelectorView, query: PortSelectorView) -> bool {
    forall|port: int| #[trigger] selects(query, port) ==> selects(rule, port)
}

/// A selector spans another exactly if it starts no later and ends no earlier.
pub proof fn spanning_is_by_bounds(rule: PortSelectorView, query: PortSelectorView)
    requires
        query.valid(),
    ensures
        spans(rule, query) == (rule.bounds().0 <= query.bounds().0 && query.bounds().1
            <= rule.bounds().1),
{
    assert(selects(query, query.bounds().0 as int));
    assert(selects(query, query.bounds().1 as int));
    if spans(rule, query) {
        assert(selects(rule, query.bounds().0 as int));
        assert(selects(rule, query.bounds().1 as int));
    }
}

} // verus!
