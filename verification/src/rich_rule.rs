//! Rich rules are kept as validated raw strings. Parsing is display-only:
//! mutations always pass the original text back to firewalld, so we never
//! reconstruct (and therefore never corrupt) a rule.

use vstd::prelude::*;

use crate::address::{AddressFamily, SourceAddress, SourceAddressView};
use crate::ids::{IpProtocol, ServiceName, ValidationError, ValidationErrorView};
use crate::model;
use crate::model::Value;
use crate::port::{PortSpec, PortSpecView};
use crate::text;
use crate::traffic_test::RulePriority;

pub mod laws;
pub mod meaning;

verus! {

/// Rules of more tokens than this are not analyzed.
pub const MAX_ANALYSIS_TOKENS: usize = 64;

/// A traffic-relevant terminal rich-rule action.
#[derive(Debug, Clone, Copy, PartialEq, Eq, Structural)]
pub enum RichRuleAction {
    /// Permit matching traffic.
    Accept,
    /// Reject matching traffic with an error response.
    Reject,
    /// Silently discard matching traffic.
    Drop,
}

impl DeepView for RichRuleAction {
    type V = RichRuleAction;

    open spec fn deep_view(&self) -> RichRuleAction {
        *self
    }
}

impl Value for RichRuleAction {
    fn same(&self, other: &Self) -> (r: bool) {
        *self == *other
    }

    fn dup(&self) -> (r: Self) {
        *self
    }
}

impl RichRuleAction {
    /// The text of each variant.
    pub open spec fn spelled(self) -> Seq<char> {
        match self {
            RichRuleAction::Accept => "accept"@,
            RichRuleAction::Reject => "reject"@,
            RichRuleAction::Drop => "drop"@,
        }
    }

    /// Stable operator-facing keyword.
    pub fn as_str(self) -> (r: &'static str)
        ensures
            r@ == self.spelled(),
    {
        match self {
            RichRuleAction::Accept => "accept",
            RichRuleAction::Reject => "reject",
            RichRuleAction::Drop => "drop",
        }
    }
}

/// One supported IP/CIDR matcher.
#[derive(Debug, PartialEq, Eq)]
pub struct RichRuleAddressMatch {
    /// Validated IP address or CIDR.
    pub address: SourceAddress,
    /// Whether the match is inverted.
    pub inverted: bool,
}

/// What a `RichRuleAddressMatch` models.
#[verifier::ext_equal]
pub struct RichRuleAddressMatchView {
    pub address: SourceAddressView,
    pub inverted: bool,
}

impl DeepView for RichRuleAddressMatch {
    type V = RichRuleAddressMatchView;

    open spec fn deep_view(&self) -> RichRuleAddressMatchView {
        RichRuleAddressMatchView {
            address: self.address.deep_view(),
            inverted: self.inverted.deep_view(),
        }
    }
}

impl Value for RichRuleAddressMatch {
    fn same(&self, other: &Self) -> (r: bool) {
        self.address.same(&other.address) && self.inverted == other.inverted
    }

    fn dup(&self) -> (r: Self) {
        RichRuleAddressMatch {
            address: self.address.dup(),
            inverted: self.inverted,
        }
    }
}

impl Clone for RichRuleAddressMatch {
    fn clone(&self) -> (r: Self)
        ensures
            r.deep_view() == self.deep_view(),
    {
        self.dup()
    }
}

/// The supported traffic-relevant subset of a rich rule.
#[derive(Debug, PartialEq, Eq)]
pub struct RichRuleExpression {
    /// Optional IP family restriction.
    pub family: Option<AddressFamily>,
    /// Optional source IP/CIDR matcher.
    pub source: Option<RichRuleAddressMatch>,
    /// Optional destination IP/CIDR matcher.
    pub destination: Option<RichRuleAddressMatch>,
    /// Optional firewalld service matcher.
    pub service: Option<ServiceName>,
    /// Optional destination port/range and transport protocol.
    pub destination_port: Option<PortSpec>,
    /// Optional source port/range and transport protocol.
    pub source_port: Option<PortSpec>,
    /// Optional raw IP protocol matcher.
    pub protocol: Option<IpProtocol>,
    /// Firewalld rule priority (zero when omitted).
    pub priority: RulePriority,
    /// Terminal decision.
    pub action: RichRuleAction,
}

/// What a `RichRuleExpression` models.
#[verifier::ext_equal]
pub struct RichRuleExpressionView {
    pub family: Option<AddressFamily>,
    pub source: Option<RichRuleAddressMatchView>,
    pub destination: Option<RichRuleAddressMatchView>,
    pub service: Option<Seq<char>>,
    pub destination_port: Option<PortSpecView>,
    pub source_port: Option<PortSpecView>,
    pub protocol: Option<Seq<char>>,
    pub priority: i16,
    pub action: RichRuleAction,
}

impl DeepView for RichRuleExpression {
    type V = RichRuleExpressionView;

    open spec fn deep_view(&self) -> RichRuleExpressionView {
        RichRuleExpressionView {
            family: self.family.deep_view(),
            source: self.source.deep_view(),
            destination: self.destination.deep_view(),
            service: self.service.deep_view(),
            destination_port: self.destination_port.deep_view(),
            source_port: self.source_port.deep_view(),
            protocol: self.protocol.deep_view(),
            priority: self.priority.deep_view(),
            action: self.action.deep_view(),
        }
    }
}

impl Value for RichRuleExpression {
    fn same(&self, other: &Self) -> (r: bool) {
        self.family.same(&other.family)
            && self.source.same(&other.source)
            && self.destination.same(&other.destination)
            && self.service.same(&other.service)
            && self.destination_port.same(&other.destination_port)
            && self.source_port.same(&other.source_port)
            && self.protocol.same(&other.protocol)
            && self.priority.same(&other.priority)
            && self.action == other.action
    }

    fn dup(&self) -> (r: Self) {
        RichRuleExpression {
            family: self.family.dup(),
            source: self.source.dup(),
            destination: self.destination.dup(),
            service: self.service.dup(),
            destination_port: self.destination_port.dup(),
            source_port: self.source_port.dup(),
            protocol: self.protocol.dup(),
            priority: self.priority.dup(),
            action: self.action,
        }
    }
}

impl Clone for RichRuleExpression {
    fn clone(&self) -> (r: Self)
        ensures
            r.deep_view() == self.deep_view(),
    {
        self.dup()
    }
}

/// Relevant syntax that `FWDeck` deliberately does not evaluate.
#[derive(Debug, PartialEq, Eq)]
pub enum RichRuleUnsupported {
    /// Rate limiting changes temporal semantics.
    RateLimit,
    /// MAC matching is outside the approved IP model.
    MacAddress,
    /// Connection-tracking helper semantics are unsupported.
    Helper,
    /// Packet or connection mark mutation is unsupported.
    Mark,
    /// TCP MSS rewriting is unsupported.
    TcpMssClamp,
    /// Logging side effects are not evaluated.
    Log,
    /// Audit side effects are not evaluated.
    Audit,
    /// IP-set matching needs separate typed set semantics.
    IpSet,
    /// A future or unknown grammar element.
    UnknownElement(String),
    /// A singleton element appeared more than once.
    DuplicateElement(String),
    /// Two individually valid elements cannot be combined.
    ConflictingElements {
        /// First conflicting element.
        left: String,
        /// Second conflicting element.
        right: String,
    },
    /// The bounded parser input limit was exceeded.
    TooManyTokens {
        /// Maximum accepted token count.
        limit: usize,
    },
}

/// What a `RichRuleUnsupported` models.
#[verifier::ext_equal]
pub enum RichRuleUnsupportedView {
    RateLimit,
    MacAddress,
    Helper,
    Mark,
    TcpMssClamp,
    Log,
    Audit,
    IpSet,
    UnknownElement(Seq<char>),
    DuplicateElement(Seq<char>),
    ConflictingElements { left: Seq<char>, right: Seq<char> },
    TooManyTokens { limit: usize },
}

impl DeepView for RichRuleUnsupported {
    type V = RichRuleUnsupportedView;

    open spec fn deep_view(&self) -> RichRuleUnsupportedView {
        match self {
            RichRuleUnsupported::RateLimit => RichRuleUnsupportedView::RateLimit,
            RichRuleUnsupported::MacAddress => RichRuleUnsupportedView::MacAddress,
            RichRuleUnsupported::Helper => RichRuleUnsupportedView::Helper,
            RichRuleUnsupported::Mark => RichRuleUnsupportedView::Mark,
            RichRuleUnsupported::TcpMssClamp => RichRuleUnsupportedView::TcpMssClamp,
            RichRuleUnsupported::Log => RichRuleUnsupportedView::Log,
            RichRuleUnsupported::Audit => RichRuleUnsupportedView::Audit,
            RichRuleUnsupported::IpSet => RichRuleUnsupportedView::IpSet,
            RichRuleUnsupported::UnknownElement(x0) => RichRuleUnsupportedView::UnknownElement(
                x0.deep_view(),
            ),
            RichRuleUnsupported::DuplicateElement(x0) => RichRuleUnsupportedView::DuplicateElement(
                x0.deep_view(),
            ),
            RichRuleUnsupported::ConflictingElements { left, right } =>
                RichRuleUnsupportedView::ConflictingElements {
                    left: left.deep_view(),
                    right: right.deep_view(),
                },
            RichRuleUnsupported::TooManyTokens { limit } => RichRuleUnsupportedView::TooManyTokens {
                limit: limit.deep_view()
            },
        }
    }
}

impl Value for RichRuleUnsupported {
    fn same(&self, other: &Self) -> (r: bool) {
        match (self, other) {
            (RichRuleUnsupported::RateLimit, RichRuleUnsupported::RateLimit) => true,
            (RichRuleUnsupported::MacAddress, RichRuleUnsupported::MacAddress) => true,
            (RichRuleUnsupported::Helper, RichRuleUnsupported::Helper) => true,
            (RichRuleUnsupported::Mark, RichRuleUnsupported::Mark) => true,
            (RichRuleUnsupported::TcpMssClamp, RichRuleUnsupported::TcpMssClamp) => true,
            (RichRuleUnsupported::Log, RichRuleUnsupported::Log) => true,
            (RichRuleUnsupported::Audit, RichRuleUnsupported::Audit) => true,
            (RichRuleUnsupported::IpSet, RichRuleUnsupported::IpSet) => true,
            (
                RichRuleUnsupported::UnknownElement(x0),
                RichRuleUnsupported::UnknownElement(x0_other),
            ) => x0.same(x0_other),
            (
                RichRuleUnsupported::DuplicateElement(x0),
                RichRuleUnsupported::DuplicateElement(x0_other),
            ) => x0.same(x0_other),
            (
                RichRuleUnsupported::ConflictingElements { left, right },
                RichRuleUnsupported::ConflictingElements { left: left_other, right: right_other },
            ) => left.same(left_other) && right.same(right_other),
            (
                RichRuleUnsupported::TooManyTokens { limit },
                RichRuleUnsupported::TooManyTokens { limit: limit_other },
            ) => *limit == *limit_other,
            _ => false,
        }
    }

    fn dup(&self) -> (r: Self) {
        match self {
            RichRuleUnsupported::RateLimit => RichRuleUnsupported::RateLimit,
            RichRuleUnsupported::MacAddress => RichRuleUnsupported::MacAddress,
            RichRuleUnsupported::Helper => RichRuleUnsupported::Helper,
            RichRuleUnsupported::Mark => RichRuleUnsupported::Mark,
            RichRuleUnsupported::TcpMssClamp => RichRuleUnsupported::TcpMssClamp,
            RichRuleUnsupported::Log => RichRuleUnsupported::Log,
            RichRuleUnsupported::Audit => RichRuleUnsupported::Audit,
            RichRuleUnsupported::IpSet => RichRuleUnsupported::IpSet,
            RichRuleUnsupported::UnknownElement(x0) => RichRuleUnsupported::UnknownElement(
                x0.dup(),
            ),
            RichRuleUnsupported::DuplicateElement(x0) => RichRuleUnsupported::DuplicateElement(
                x0.dup(),
            ),
            RichRuleUnsupported::ConflictingElements { left, right } =>
                RichRuleUnsupported::ConflictingElements { left: left.dup(), right: right.dup() },
            RichRuleUnsupported::TooManyTokens { limit } => RichRuleUnsupported::TooManyTokens {
                limit: *limit
            },
        }
    }
}

impl Clone for RichRuleUnsupported {
    fn clone(&self) -> (r: Self)
        ensures
            r.deep_view() == self.deep_view(),
    {
        self.dup()
    }
}

/// Malformed supported syntax. Evaluation must fail closed.
#[derive(Debug, PartialEq, Eq)]
pub enum RichRuleMalformed {
    /// A quoted value was not closed.
    UnterminatedQuote,
    /// A known element omitted a required attribute.
    MissingAttribute {
        /// Element being parsed.
        element: String,
        /// Required attribute name.
        attribute: String,
    },
    /// A known attribute failed typed validation.
    InvalidValue {
        /// Element being parsed.
        element: String,
        /// Rejected raw value.
        value: String,
    },
    /// No terminal accept/reject/drop action was present.
    MissingAction,
}

/// What a `RichRuleMalformed` models.
#[verifier::ext_equal]
pub enum RichRuleMalformedView {
    UnterminatedQuote,
    MissingAttribute { element: Seq<char>, attribute: Seq<char> },
    InvalidValue { element: Seq<char>, value: Seq<char> },
    MissingAction,
}

impl DeepView for RichRuleMalformed {
    type V = RichRuleMalformedView;

    open spec fn deep_view(&self) -> RichRuleMalformedView {
        match self {
            RichRuleMalformed::UnterminatedQuote => RichRuleMalformedView::UnterminatedQuote,
            RichRuleMalformed::MissingAttribute { element, attribute } =>
                RichRuleMalformedView::MissingAttribute {
                    element: element.deep_view(),
                    attribute: attribute.deep_view(),
                },
            RichRuleMalformed::InvalidValue { element, value } =>
                RichRuleMalformedView::InvalidValue {
                    element: element.deep_view(),
                    value: value.deep_view(),
                },
            RichRuleMalformed::MissingAction => RichRuleMalformedView::MissingAction,
        }
    }
}

impl Value for RichRuleMalformed {
    fn same(&self, other: &Self) -> (r: bool) {
        match (self, other) {
            (RichRuleMalformed::UnterminatedQuote, RichRuleMalformed::UnterminatedQuote) => true,
            (
                RichRuleMalformed::MissingAttribute { element, attribute },
                RichRuleMalformed::MissingAttribute {
                    element: element_other,
                    attribute: attribute_other,
                },
            ) => element.same(element_other) && attribute.same(attribute_other),
            (
                RichRuleMalformed::InvalidValue { element, value },
                RichRuleMalformed::InvalidValue { element: element_other, value: value_other },
            ) => element.same(element_other) && value.same(value_other),
            (RichRuleMalformed::MissingAction, RichRuleMalformed::MissingAction) => true,
            _ => false,
        }
    }

    fn dup(&self) -> (r: Self) {
        match self {
            RichRuleMalformed::UnterminatedQuote => RichRuleMalformed::UnterminatedQuote,
            RichRuleMalformed::MissingAttribute { element, attribute } =>
                RichRuleMalformed::MissingAttribute {
                    element: element.dup(),
                    attribute: attribute.dup(),
                },
            RichRuleMalformed::InvalidValue { element, value } => RichRuleMalformed::InvalidValue {
                element: element.dup(),
                value: value.dup(),
            },
            RichRuleMalformed::MissingAction => RichRuleMalformed::MissingAction,
        }
    }
}

impl Clone for RichRuleMalformed {
    fn clone(&self) -> (r: Self)
        ensures
            r.deep_view() == self.deep_view(),
    {
        self.dup()
    }
}

/// Result of analyzing the original raw rule.
#[derive(Debug, PartialEq, Eq)]
pub enum RichRuleAnalysis {
    /// Fully supported typed expression.
    Supported(Box<RichRuleExpression>),
    /// Well-formed but deliberately unsupported semantics.
    Unsupported(RichRuleUnsupported),
    /// Malformed supported syntax.
    Malformed(RichRuleMalformed),
}

/// What a `RichRuleAnalysis` models.
#[verifier::ext_equal]
pub enum RichRuleAnalysisView {
    Supported(RichRuleExpressionView),
    Unsupported(RichRuleUnsupportedView),
    Malformed(RichRuleMalformedView),
}

impl DeepView for RichRuleAnalysis {
    type V = RichRuleAnalysisView;

    open spec fn deep_view(&self) -> RichRuleAnalysisView {
        match self {
            RichRuleAnalysis::Supported(e) => RichRuleAnalysisView::Supported((**e).deep_view()),
            RichRuleAnalysis::Unsupported(u) => RichRuleAnalysisView::Unsupported(u.deep_view()),
            RichRuleAnalysis::Malformed(m) => RichRuleAnalysisView::Malformed(m.deep_view()),
        }
    }
}

/// The elements of a rule that were read so far.
#[derive(Debug, PartialEq, Eq)]
struct ExpressionBuilder {
    /// Optional IP family restriction.
    family: Option<AddressFamily>,
    /// Optional source IP/CIDR matcher.
    source: Option<RichRuleAddressMatch>,
    /// Optional destination IP/CIDR matcher.
    destination: Option<RichRuleAddressMatch>,
    /// Optional firewalld service matcher.
    service: Option<ServiceName>,
    /// Optional destination port/range and transport protocol.
    destination_port: Option<PortSpec>,
    /// Optional source port/range and transport protocol.
    source_port: Option<PortSpec>,
    /// Optional raw IP protocol matcher.
    protocol: Option<IpProtocol>,
    /// Firewalld rule priority (zero when omitted).
    priority: RulePriority,
    priority_seen: bool,
    action: Option<RichRuleAction>,
}

/// What a `ExpressionBuilder` models.
#[verifier::ext_equal]
pub struct ExpressionBuilderView {
    pub family: Option<AddressFamily>,
    pub source: Option<RichRuleAddressMatchView>,
    pub destination: Option<RichRuleAddressMatchView>,
    pub service: Option<Seq<char>>,
    pub destination_port: Option<PortSpecView>,
    pub source_port: Option<PortSpecView>,
    pub protocol: Option<Seq<char>>,
    pub priority: i16,
    pub priority_seen: bool,
    pub action: Option<RichRuleAction>,
}

impl DeepView for ExpressionBuilder {
    type V = ExpressionBuilderView;

    closed spec fn deep_view(&self) -> ExpressionBuilderView {
        ExpressionBuilderView {
            family: self.family.deep_view(),
            source: self.source.deep_view(),
            destination: self.destination.deep_view(),
            service: self.service.deep_view(),
            destination_port: self.destination_port.deep_view(),
            source_port: self.source_port.deep_view(),
            protocol: self.protocol.deep_view(),
            priority: self.priority.deep_view(),
            priority_seen: self.priority_seen.deep_view(),
            action: self.action.deep_view(),
        }
    }
}

impl ExpressionBuilderView {
    /// Nothing read yet.
    pub open spec fn nothing() -> ExpressionBuilderView {
        ExpressionBuilderView {
            family: None,
            source: None,
            destination: None,
            service: None,
            destination_port: None,
            source_port: None,
            protocol: None,
            priority: 0,
            priority_seen: false,
            action: None,
        }
    }
}

// ---------------------------------------------------------------------------
// Tokens
// ---------------------------------------------------------------------------
/// The tokens of `s` from position `i` on, where `current` is the start of a
/// token and `quoted` says whether a quote is open. White space outside quotes
/// separates tokens; quotes are dropped. Nothing, where a quote stays open.
pub open spec fn tokens_from(s: Seq<char>, i: int, current: Seq<char>, quoted: bool) -> Option<
    Seq<Seq<char>>,
>
    decreases s.len() - i,
{
    if i < 0 || i >= s.len() {
        if quoted {
            None
        } else if current.len() == 0 {
            Some(Seq::empty())
        } else {
            Some(seq![current])
        }
    } else if s[i] == '"' {
        tokens_from(s, i + 1, current, !quoted)
    } else if text::white(s[i]) && !quoted {
        if current.len() == 0 {
            tokens_from(s, i + 1, current, quoted)
        } else {
            match tokens_from(s, i + 1, Seq::empty(), quoted) {
                Some(rest) => Some(seq![current] + rest),
                None => None,
            }
        }
    } else {
        tokens_from(s, i + 1, current.push(s[i]), quoted)
    }
}

/// The tokens of a rule.
pub open spec fn tokens_of(s: Seq<char>) -> Option<Seq<Seq<char>>> {
    tokens_from(s, 0, Seq::empty(), false)
}

fn tokenize(raw: &str) -> (r: Result<Vec<String>, RichRuleMalformed>)
    ensures
        match r {
            Ok(tokens) => tokens_of(raw@) == Some(tokens.deep_view()),
            Err(e) => tokens_of(raw@) is None && e.deep_view()
                == RichRuleMalformedView::UnterminatedQuote,
        },
{
    let chars = text::chars_of(raw);
    let mut tokens: Vec<String> = Vec::new();
    let mut current = String::new();
    let mut quoted = false;
    let mut i: usize = 0;
    assert(tokens.deep_view() =~= Seq::<Seq<char>>::empty());
    proof {
        let rest = tokens_from(raw@, 0, current@, quoted);
        if rest is Some {
            assert(tokens.deep_view() + rest->0 =~= rest->0);
        }
    }
    while i < chars.len()
        invariant
            chars@ == raw@,
            i <= chars@.len(),
            match tokens_from(raw@, i as int, current@, quoted) {
                Some(rest) => tokens_of(raw@) == Some(tokens.deep_view() + rest),
                None => tokens_of(raw@) is None,
            },
        decreases chars.len() - i,
    {
        let c = chars[i];
        let ghost before = tokens.deep_view();
        let ghost word = current@;
        if c == '"' {
            quoted = !quoted;
        } else if text::is_white(c) && !quoted {
            if current.as_str().unicode_len() != 0 {
                tokens.push(current);
                current = String::new();
                proof {
                    assert(tokens.deep_view() =~= before.push(word));
                    let rest = tokens_from(raw@, i + 1, Seq::empty(), quoted);
                    if rest is Some {
                        assert(before + (seq![word] + rest->0) =~= before.push(word) + rest->0);
                    }
                }
            }
        } else {
            current.push(c);
        }
        i = i + 1;
    }
    if quoted {
        return Err(RichRuleMalformed::UnterminatedQuote);
    }
    let ghost before = tokens.deep_view();
    let ghost word = current@;
    if current.as_str().unicode_len() != 0 {
        tokens.push(current);
        assert(tokens.deep_view() =~= before + seq![word]);
    } else {
        assert(before + Seq::<Seq<char>>::empty() =~= before);
    }
    Ok(tokens)
}

// ---------------------------------------------------------------------------
// Elements
// ---------------------------------------------------------------------------
/// A singleton element appeared more than once.
pub open spec fn duplicate_of(element: Seq<char>) -> RichRuleAnalysisView {
    RichRuleAnalysisView::Unsupported(RichRuleUnsupportedView::DuplicateElement(element))
}

/// An element lacks an attribute.
pub open spec fn missing_of(element: Seq<char>, attribute: Seq<char>) -> RichRuleAnalysisView {
    RichRuleAnalysisView::Malformed(RichRuleMalformedView::MissingAttribute { element, attribute })
}

/// An element has a value that it cannot have.
pub open spec fn malformed_of(element: Seq<char>, value: Seq<char>) -> RichRuleAnalysisView {
    RichRuleAnalysisView::Malformed(RichRuleMalformedView::InvalidValue { element, value })
}

/// What follows the first `=` of a token.
pub open spec fn value_of(token: Seq<char>) -> Seq<char> {
    match text::parted(token, "="@) {
        Some((_, v)) => v,
        None => ""@,
    }
}

fn duplicate(element: &str) -> (r: RichRuleAnalysis)
    ensures
        r.deep_view() == duplicate_of(element@),
{
    RichRuleAnalysis::Unsupported(RichRuleUnsupported::DuplicateElement(element.to_owned()))
}

fn missing(element: &str, attribute: &str) -> (r: RichRuleAnalysis)
    ensures
        r.deep_view() == missing_of(element@, attribute@),
{
    RichRuleAnalysis::Malformed(
        RichRuleMalformed::MissingAttribute {
            element: element.to_owned(),
            attribute: attribute.to_owned(),
        },
    )
}

fn malformed(element: &str, value: &str) -> (r: RichRuleAnalysis)
    ensures
        r.deep_view() == malformed_of(element@, value@),
{
    RichRuleAnalysis::Malformed(
        RichRuleMalformed::InvalidValue { element: element.to_owned(), value: value.to_owned() },
    )
}

fn value(token: &str) -> (r: &str)
    ensures
        r@ == value_of(token@),
{
    match text::split_once(token, "=") {
        Some((_, v)) => v,
        None => "",
    }
}

/// The token after position `index`, or the complaint that `attribute` is missing.
pub open spec fn token_after(
    tokens: Seq<Seq<char>>,
    index: int,
    element: Seq<char>,
    attribute: Seq<char>,
) -> Result<Seq<char>, RichRuleAnalysisView> {
    if index + 1 < tokens.len() {
        Ok(tokens[index + 1])
    } else {
        Err(missing_of(element, attribute))
    }
}

fn next_token<'a>(
    tokens: &'a Vec<String>,
    index: usize,
    element: &str,
    attribute: &str,
) -> (r: Result<&'a str, RichRuleAnalysis>)
    requires
        index < tokens.len(),
    ensures
        match r {
            Ok(t) => token_after(tokens.deep_view(), index as int, element@, attribute@) == Ok::<
                Seq<char>,
                RichRuleAnalysisView,
            >(t@) && index + 1 < tokens.len(),
            Err(e) => token_after(tokens.deep_view(), index as int, element@, attribute@) == Err::<
                Seq<char>,
                RichRuleAnalysisView,
            >(e.deep_view()),
        },
{
    if index + 1 < tokens.len() {
        Ok(tokens[index + 1].as_str())
    } else {
        Err(missing(element, attribute))
    }
}

/// `family=`: IPv4 or IPv6, once.
pub open spec fn family_step(token: Seq<char>, b: ExpressionBuilderView) -> Result<
    ExpressionBuilderView,
    RichRuleAnalysisView,
> {
    let v = value_of(token);
    if b.family is Some {
        Err(duplicate_of("family"@))
    } else if v == "ipv4"@ {
        Ok(ExpressionBuilderView { family: Some(AddressFamily::Ipv4), ..b })
    } else if v == "ipv6"@ {
        Ok(ExpressionBuilderView { family: Some(AddressFamily::Ipv6), ..b })
    } else {
        Err(malformed_of("family"@, v))
    }
}

fn parse_family(token: &str, builder: &mut ExpressionBuilder) -> (r: Result<(), RichRuleAnalysis>)
    ensures
        match r {
            Ok(_) => family_step(token@, old(builder).deep_view()) == Ok::<
                ExpressionBuilderView,
                RichRuleAnalysisView,
            >(final(builder).deep_view()),
            Err(e) => family_step(token@, old(builder).deep_view()) == Err::<
                ExpressionBuilderView,
                RichRuleAnalysisView,
            >(e.deep_view()),
        },
        r is Err ==> final(builder).deep_view() == old(builder).deep_view(),
{
    let v = value(token);
    if builder.family.is_some() {
        Err(duplicate("family"))
    } else if text::same(v, "ipv4") {
        builder.family = Some(AddressFamily::Ipv4);
        Ok(())
    } else if text::same(v, "ipv6") {
        builder.family = Some(AddressFamily::Ipv6);
        Ok(())
    } else {
        Err(malformed("family", v))
    }
}

/// `priority=`: a sixteen-bit number, once.
pub open spec fn priority_step(token: Seq<char>, b: ExpressionBuilderView) -> Result<
    ExpressionBuilderView,
    RichRuleAnalysisView,
> {
    let v = value_of(token);
    if b.priority_seen {
        Err(duplicate_of("priority"@))
    } else {
        match RulePriority::parsed(v) {
            Ok(priority) => Ok(ExpressionBuilderView { priority, priority_seen: true, ..b }),
            Err(_) => Err(malformed_of("priority"@, v)),
        }
    }
}

fn parse_priority(token: &str, builder: &mut ExpressionBuilder) -> (r: Result<
    (),
    RichRuleAnalysis,
>)
    ensures
        match r {
            Ok(_) => priority_step(token@, old(builder).deep_view()) == Ok::<
                ExpressionBuilderView,
                RichRuleAnalysisView,
            >(final(builder).deep_view()),
            Err(e) => priority_step(token@, old(builder).deep_view()) == Err::<
                ExpressionBuilderView,
                RichRuleAnalysisView,
            >(e.deep_view()),
        },
        r is Err ==> final(builder).deep_view() == old(builder).deep_view(),
{
    let v = value(token);
    if builder.priority_seen {
        return Err(duplicate("priority"));
    }
    match RulePriority::parse(v) {
        Ok(priority) => {
            builder.priority_seen = true;
            builder.priority = priority;
            Ok(())
        },
        Err(_) => Err(malformed("priority", v)),
    }
}

/// The word `not`, in any case.
pub open spec fn says_not(token: Seq<char>) -> bool {
    text::lower(token) == "not"@
}

/// Whether the match is inverted, and the position just before its address.
pub open spec fn inversion_step(tokens: Seq<Seq<char>>, index: int, label: Seq<char>) -> Result<
    (bool, int),
    RichRuleAnalysisView,
> {
    match token_after(tokens, index, label, "address"@) {
        Err(e) => Err(e),
        Ok(t) => if says_not(t) {
            Ok((true, index + 1))
        } else if text::occurs_at(t, "invert="@, 0) {
            let v = value_of(t);
            if v == "true"@ || v == "yes"@ {
                Ok((true, index + 1))
            } else if v == "false"@ || v == "no"@ {
                Ok((false, index + 1))
            } else {
                Err(malformed_of("invert"@, v))
            }
        } else {
            Ok((false, index))
        },
    }
}

fn parse_inversion(tokens: &Vec<String>, index: usize, label: &str) -> (r: Result<
    (bool, usize),
    RichRuleAnalysis,
>)
    requires
        index < tokens.len(),
    ensures
        match r {
            Ok((inverted, next)) => inversion_step(tokens.deep_view(), index as int, label@)
                == Ok::<(bool, int), RichRuleAnalysisView>((inverted, next as int)) && index
                <= next < tokens.len(),
            Err(e) => inversion_step(tokens.deep_view(), index as int, label@) == Err::<
                (bool, int),
                RichRuleAnalysisView,
            >(e.deep_view()),
        },
{
    match next_token(tokens, index, label, "address") {
        Err(e) => Err(e),
        Ok(t) => {
            let lowered = text::to_lower(t);
            if text::same(lowered.as_str(), "not") {
                Ok((true, index + 1))
            } else if text::starts_with(t, "invert=") {
                let v = value(t);
                if text::same(v, "true") || text::same(v, "yes") {
                    Ok((true, index + 1))
                } else if text::same(v, "false") || text::same(v, "no") {
                    Ok((false, index + 1))
                } else {
                    Err(malformed("invert", v))
                }
            } else {
                Ok((false, index))
            }
        },
    }
}

/// The address matcher of a token `address=…`, which must be of the family
/// that the rule is restricted to.
pub open spec fn address_match(
    t: Seq<char>,
    label: Seq<char>,
    inverted: bool,
    family: Option<AddressFamily>,
) -> Result<RichRuleAddressMatchView, RichRuleAnalysisView> {
    if text::occurs_at(t, "ipset="@, 0) {
        Err(RichRuleAnalysisView::Unsupported(RichRuleUnsupportedView::IpSet))
    } else if text::occurs_at(t, "mac="@, 0) {
        Err(RichRuleAnalysisView::Unsupported(RichRuleUnsupportedView::MacAddress))
    } else {
        match text::stripped(t, "address="@) {
            None => Err(missing_of(label, "address"@)),
            Some(raw) => match SourceAddressView::parsed(raw) {
                Err(_) => Err(malformed_of(label, raw)),
                Ok(address) => if address.family() is None || (family is Some && family
                    != address.family()) {
                    Err(malformed_of(label, raw))
                } else {
                    Ok(RichRuleAddressMatchView { address, inverted })
                },
            },
        }
    }
}

fn parse_address_match(
    t: &str,
    label: &str,
    inverted: bool,
    family: Option<AddressFamily>,
) -> (r: Result<RichRuleAddressMatch, RichRuleAnalysis>)
    ensures
        model::outcome(r) == address_match(t@, label@, inverted, family),
{
    if text::starts_with(t, "ipset=") {
        return Err(RichRuleAnalysis::Unsupported(RichRuleUnsupported::IpSet));
    }
    if text::starts_with(t, "mac=") {
        return Err(RichRuleAnalysis::Unsupported(RichRuleUnsupported::MacAddress));
    }
    match text::strip_prefix(t, "address=") {
        None => Err(missing(label, "address")),
        Some(raw) => match SourceAddress::parse(raw) {
            Err(_) => Err(malformed(label, raw)),
            Ok(address) => match address.family() {
                None => Err(malformed(label, raw)),
                Some(found) => {
                    if let Some(expected) = family {
                        if expected != found {
                            return Err(malformed(label, raw));
                        }
                    }
                    Ok(RichRuleAddressMatch { address, inverted })
                },
            },
        },
    }
}

/// `source` or `destination` with its address: the position of its last token
/// and what is read then.
pub open spec fn address_step(
    tokens: Seq<Seq<char>>,
    index: int,
    source: bool,
    b: ExpressionBuilderView,
) -> Result<(int, ExpressionBuilderView), RichRuleAnalysisView> {
    let label = if source {
        "source"@
    } else {
        "destination"@
    };
    if (source && b.source is Some) || (!source && b.destination is Some) {
        Err(duplicate_of(label))
    } else {
        match inversion_step(tokens, index, label) {
            Err(e) => Err(e),
            Ok((inverted, at)) => match token_after(tokens, at, label, "address"@) {
                Err(e) => Err(e),
                Ok(t) => match address_match(t, label, inverted, b.family) {
                    Err(e) => Err(e),
                    Ok(m) => if source {
                        Ok((at + 1, ExpressionBuilderView { source: Some(m), ..b }))
                    } else {
                        Ok((at + 1, ExpressionBuilderView { destination: Some(m), ..b }))
                    },
                },
            },
        }
    }
}

fn parse_address_element(
    tokens: &Vec<String>,
    index: usize,
    source: bool,
    builder: &mut ExpressionBuilder,
) -> (r: Result<usize, RichRuleAnalysis>)
    requires
        index < tokens.len(),
    ensures
        match r {
            Ok(next) => address_step(
                tokens.deep_view(),
                index as int,
                source,
                old(builder).deep_view(),
            ) == Ok::<
                (int, ExpressionBuilderView),
                RichRuleAnalysisView,
            >((next as int, final(builder).deep_view())) && index < next < tokens.len(),
            Err(e) => address_step(
                tokens.deep_view(),
                index as int,
                source,
                old(builder).deep_view(),
            ) == Err::<
                (int, ExpressionBuilderView),
                RichRuleAnalysisView,
            >(e.deep_view()),
        },
        r is Err ==> final(builder).deep_view() == old(builder).deep_view(),
{
    let label = if source {
        "source"
    } else {
        "destination"
    };
    if (source && builder.source.is_some()) || (!source && builder.destination.is_some()) {
        return Err(duplicate(label));
    }
    match parse_inversion(tokens, index, label) {
        Err(e) => Err(e),
        Ok((inverted, at)) => match next_token(tokens, at, label, "address") {
            Err(e) => Err(e),
            Ok(t) => match parse_address_match(t, label, inverted, builder.family) {
                Err(e) => Err(e),
                Ok(m) => {
                    if source {
                        builder.source = Some(m);
                    } else {
                        builder.destination = Some(m);
                    }
                    Ok(at + 1)
                },
            },
        },
    }
}

/// `service` with its name, once.
pub open spec fn service_step(
    tokens: Seq<Seq<char>>,
    index: int,
    b: ExpressionBuilderView,
) -> Result<
    (int, ExpressionBuilderView),
    RichRuleAnalysisView,
> {
    if b.service is Some {
        Err(duplicate_of("service"@))
    } else {
        match token_after(tokens, index, "service"@, "name"@) {
            Err(e) => Err(e),
            Ok(t) => match text::stripped(t, "name="@) {
                None => Err(missing_of("service"@, "name"@)),
                Some(raw) => match ServiceName::parsed(raw) {
                    Err(_) => Err(malformed_of("service"@, raw)),
                    Ok(name) => Ok((index + 1, ExpressionBuilderView { service: Some(name), ..b })),
                },
            },
        }
    }
}

fn parse_service(
    tokens: &Vec<String>,
    index: usize,
    builder: &mut ExpressionBuilder,
) -> (r: Result<usize, RichRuleAnalysis>)
    requires
        index < tokens.len(),
    ensures
        match r {
            Ok(next) => service_step(
                tokens.deep_view(),
                index as int,
                old(builder).deep_view(),
            ) == Ok::<
                (int, ExpressionBuilderView),
                RichRuleAnalysisView,
            >((next as int, final(builder).deep_view())) && index < next < tokens.len(),
            Err(e) => service_step(
                tokens.deep_view(),
                index as int,
                old(builder).deep_view(),
            ) == Err::<
                (int, ExpressionBuilderView),
                RichRuleAnalysisView,
            >(e.deep_view()),
        },
        r is Err ==> final(builder).deep_view() == old(builder).deep_view(),
{
    if builder.service.is_some() {
        return Err(duplicate("service"));
    }
    match next_token(tokens, index, "service", "name") {
        Err(e) => Err(e),
        Ok(t) => match text::strip_prefix(t, "name=") {
            None => Err(missing("service", "name")),
            Some(raw) => match ServiceName::parse(raw) {
                Err(_) => Err(malformed("service", raw)),
                Ok(name) => {
                    builder.service = Some(name);
                    Ok(index + 1)
                },
            },
        },
    }
}

/// `port` or `source-port` with its port and protocol, once.
pub open spec fn port_step(
    tokens: Seq<Seq<char>>,
    index: int,
    source: bool,
    b: ExpressionBuilderView,
) -> Result<(int, ExpressionBuilderView), RichRuleAnalysisView> {
    let label = if source {
        "source-port"@
    } else {
        "port"@
    };
    if (source && b.source_port is Some) || (!source && b.destination_port is Some) {
        Err(duplicate_of(label))
    } else {
        match token_after(tokens, index, label, "port"@) {
            Err(e) => Err(e),
            Ok(t) => match text::stripped(t, "port="@) {
                None => Err(missing_of(label, "port"@)),
                Some(port) => match token_after(tokens, index + 1, label, "protocol"@) {
                    Err(e) => Err(e),
                    Ok(u) => match text::stripped(u, "protocol="@) {
                        None => Err(missing_of(label, "protocol"@)),
                        Some(protocol) => match PortSpecView::parsed(port + "/"@ + protocol) {
                            Err(_) => Err(malformed_of(label, port)),
                            Ok(spec) => if source {
                                Ok(
                                    (
                                        index + 2,
                                        ExpressionBuilderView { source_port: Some(spec), ..b },
                                    ),
                                )
                            } else {
                                Ok(
                                    (
                                        index + 2,
                                        ExpressionBuilderView { destination_port: Some(spec), ..b },
                                    ),
                                )
                            },
                        },
                    },
                },
            },
        }
    }
}

fn parse_port(
    tokens: &Vec<String>,
    index: usize,
    source: bool,
    builder: &mut ExpressionBuilder,
) -> (r: Result<usize, RichRuleAnalysis>)
    requires
        index < tokens.len(),
    ensures
        match r {
            Ok(next) => port_step(
                tokens.deep_view(),
                index as int,
                source,
                old(builder).deep_view(),
            ) == Ok::<
                (int, ExpressionBuilderView),
                RichRuleAnalysisView,
            >((next as int, final(builder).deep_view())) && index < next < tokens.len(),
            Err(e) => port_step(
                tokens.deep_view(),
                index as int,
                source,
                old(builder).deep_view(),
            ) == Err::<
                (int, ExpressionBuilderView),
                RichRuleAnalysisView,
            >(e.deep_view()),
        },
        r is Err ==> final(builder).deep_view() == old(builder).deep_view(),
{
    let label = if source {
        "source-port"
    } else {
        "port"
    };
    if (source && builder.source_port.is_some()) || (!source
        && builder.destination_port.is_some()) {
        return Err(duplicate(label));
    }
    match next_token(tokens, index, label, "port") {
        Err(e) => Err(e),
        Ok(t) => match text::strip_prefix(t, "port=") {
            None => Err(missing(label, "port")),
            Some(port) => match next_token(tokens, index + 1, label, "protocol") {
                Err(e) => Err(e),
                Ok(u) => match text::strip_prefix(u, "protocol=") {
                    None => Err(missing(label, "protocol")),
                    Some(protocol) => {
                        let spec = text::cat3(port, "/", protocol);
                        match PortSpec::parse(spec.as_str()) {
                            Err(_) => Err(malformed(label, port)),
                            Ok(spec) => {
                                if source {
                                    builder.source_port = Some(spec);
                                } else {
                                    builder.destination_port = Some(spec);
                                }
                                Ok(index + 2)
                            },
                        }
                    },
                },
            },
        },
    }
}

/// `protocol` with its value, once.
pub open spec fn protocol_step(
    tokens: Seq<Seq<char>>,
    index: int,
    b: ExpressionBuilderView,
) -> Result<
    (int, ExpressionBuilderView),
    RichRuleAnalysisView,
> {
    if b.protocol is Some {
        Err(duplicate_of("protocol"@))
    } else {
        match token_after(tokens, index, "protocol"@, "value"@) {
            Err(e) => Err(e),
            Ok(t) => match text::stripped(t, "value="@) {
                None => Err(missing_of("protocol"@, "value"@)),
                Some(raw) => match IpProtocol::parsed(raw) {
                    Err(_) => Err(malformed_of("protocol"@, raw)),
                    Ok(name) => Ok(
                        (index + 1, ExpressionBuilderView { protocol: Some(name), ..b }),
                    ),
                },
            },
        }
    }
}

fn parse_protocol(
    tokens: &Vec<String>,
    index: usize,
    builder: &mut ExpressionBuilder,
) -> (r: Result<usize, RichRuleAnalysis>)
    requires
        index < tokens.len(),
    ensures
        match r {
            Ok(next) => protocol_step(
                tokens.deep_view(),
                index as int,
                old(builder).deep_view(),
            ) == Ok::<
                (int, ExpressionBuilderView),
                RichRuleAnalysisView,
            >((next as int, final(builder).deep_view())) && index < next < tokens.len(),
            Err(e) => protocol_step(
                tokens.deep_view(),
                index as int,
                old(builder).deep_view(),
            ) == Err::<
                (int, ExpressionBuilderView),
                RichRuleAnalysisView,
            >(e.deep_view()),
        },
        r is Err ==> final(builder).deep_view() == old(builder).deep_view(),
{
    if builder.protocol.is_some() {
        return Err(duplicate("protocol"));
    }
    match next_token(tokens, index, "protocol", "value") {
        Err(e) => Err(e),
        Ok(t) => match text::strip_prefix(t, "value=") {
            None => Err(missing("protocol", "value")),
            Some(raw) => match IpProtocol::parse(raw) {
                Err(_) => Err(malformed("protocol", raw)),
                Ok(name) => {
                    builder.protocol = Some(name);
                    Ok(index + 1)
                },
            },
        },
    }
}

/// A terminal action, once.
pub open spec fn action_step(b: ExpressionBuilderView, action: RichRuleAction) -> Result<
    ExpressionBuilderView,
    RichRuleAnalysisView,
> {
    if b.action is Some {
        Err(duplicate_of("action"@))
    } else {
        Ok(ExpressionBuilderView { action: Some(action), ..b })
    }
}

fn set_action(builder: &mut ExpressionBuilder, action: RichRuleAction) -> (r: Result<
    (),
    RichRuleAnalysis,
>)
    ensures
        match r {
            Ok(_) => action_step(old(builder).deep_view(), action) == Ok::<
                ExpressionBuilderView,
                RichRuleAnalysisView,
            >(final(builder).deep_view()),
            Err(e) => action_step(old(builder).deep_view(), action) == Err::<
                ExpressionBuilderView,
                RichRuleAnalysisView,
            >(e.deep_view()),
        },
        r is Err ==> final(builder).deep_view() == old(builder).deep_view(),
{
    if builder.action.is_some() {
        return Err(duplicate("action"));
    }
    builder.action = Some(action);
    Ok(())
}

/// Wraps the outcome of an element that is a single token.
pub open spec fn in_place(
    index: int,
    r: Result<ExpressionBuilderView,
    RichRuleAnalysisView>,
) -> Result<
    (int, ExpressionBuilderView),
    RichRuleAnalysisView,
> {
    match r {
        Ok(b) => Ok((index, b)),
        Err(e) => Err(e),
    }
}

/// Syntax that is recognized and not evaluated.
pub open spec fn unsupported_element(token: Seq<char>) -> RichRuleUnsupportedView {
    if token == "limit"@ {
        RichRuleUnsupportedView::RateLimit
    } else if token == "helper"@ {
        RichRuleUnsupportedView::Helper
    } else if token == "mark"@ {
        RichRuleUnsupportedView::Mark
    } else if token == "tcp-mss-clamp"@ {
        RichRuleUnsupportedView::TcpMssClamp
    } else if token == "log"@ {
        RichRuleUnsupportedView::Log
    } else if token == "audit"@ {
        RichRuleUnsupportedView::Audit
    } else {
        RichRuleUnsupportedView::UnknownElement(token)
    }
}

/// The element that starts at position `index`: the position of its last token
/// and what is read then, or the analysis that it ends in.
pub open spec fn element_step(
    tokens: Seq<Seq<char>>,
    index: int,
    b: ExpressionBuilderView,
) -> Result<
    (int, ExpressionBuilderView),
    RichRuleAnalysisView,
> {
    let t = tokens[index];
    if text::occurs_at(t, "family="@, 0) {
        in_place(index, family_step(t, b))
    } else if text::occurs_at(t, "priority="@, 0) {
        in_place(index, priority_step(t, b))
    } else if t == "source"@ {
        address_step(tokens, index, true, b)
    } else if t == "destination"@ {
        address_step(tokens, index, false, b)
    } else if t == "service"@ {
        service_step(tokens, index, b)
    } else if t == "port"@ {
        port_step(tokens, index, false, b)
    } else if t == "source-port"@ {
        port_step(tokens, index, true, b)
    } else if t == "protocol"@ {
        protocol_step(tokens, index, b)
    } else if t == "accept"@ {
        in_place(index, action_step(b, RichRuleAction::Accept))
    } else if t == "reject"@ {
        in_place(index, action_step(b, RichRuleAction::Reject))
    } else if t == "drop"@ {
        in_place(index, action_step(b, RichRuleAction::Drop))
    } else {
        Err(RichRuleAnalysisView::Unsupported(unsupported_element(t)))
    }
}

/// The analysis of what was read, once all tokens are used up.
pub open spec fn concluded(b: ExpressionBuilderView) -> RichRuleAnalysisView {
    if b.service is Some && b.destination_port is Some {
        RichRuleAnalysisView::Unsupported(
            RichRuleUnsupportedView::ConflictingElements { left: "service"@, right: "port"@ },
        )
    } else if b.protocol is Some && (b.service is Some || b.destination_port is Some) {
        RichRuleAnalysisView::Unsupported(
            RichRuleUnsupportedView::ConflictingElements {
                left: "protocol"@,
                right: if b.service is Some {
                    "service"@
                } else {
                    "port"@
                },
            },
        )
    } else {
        match b.action {
            None => RichRuleAnalysisView::Malformed(RichRuleMalformedView::MissingAction),
            Some(action) => RichRuleAnalysisView::Supported(
                RichRuleExpressionView {
                    family: b.family,
                    source: b.source,
                    destination: b.destination,
                    service: b.service,
                    destination_port: b.destination_port,
                    source_port: b.source_port,
                    protocol: b.protocol,
                    priority: b.priority,
                    action,
                },
            ),
        }
    }
}

/// The analysis of the tokens from position `index` on, after what was read
/// before.
pub open spec fn analyzed_from(
    tokens: Seq<Seq<char>>,
    index: int,
    b: ExpressionBuilderView,
) -> RichRuleAnalysisView
    decreases tokens.len() - index,
{
    if index >= tokens.len() {
        concluded(b)
    } else {
        match element_step(tokens, index, b) {
            Err(analysis) => analysis,
            Ok((last, next)) => if last < index {
                concluded(b)
            } else {
                analyzed_from(tokens, last + 1, next)
            },
        }
    }
}

/// The analysis of a rule's text.
pub open spec fn analyzed(raw: Seq<char>) -> RichRuleAnalysisView {
    match tokens_of(raw) {
        None => RichRuleAnalysisView::Malformed(RichRuleMalformedView::UnterminatedQuote),
        Some(tokens) => if tokens.len() > MAX_ANALYSIS_TOKENS {
            RichRuleAnalysisView::Unsupported(
                RichRuleUnsupportedView::TooManyTokens { limit: MAX_ANALYSIS_TOKENS },
            )
        } else {
            analyzed_from(tokens, 1, ExpressionBuilderView::nothing())
        },
    }
}

fn unsupported(token: &str) -> (r: RichRuleUnsupported)
    ensures
        r.deep_view() == unsupported_element(token@),
{
    if text::same(token, "limit") {
        RichRuleUnsupported::RateLimit
    } else if text::same(token, "helper") {
        RichRuleUnsupported::Helper
    } else if text::same(token, "mark") {
        RichRuleUnsupported::Mark
    } else if text::same(token, "tcp-mss-clamp") {
        RichRuleUnsupported::TcpMssClamp
    } else if text::same(token, "log") {
        RichRuleUnsupported::Log
    } else if text::same(token, "audit") {
        RichRuleUnsupported::Audit
    } else {
        RichRuleUnsupported::UnknownElement(token.to_owned())
    }
}

fn stay(index: usize, r: Result<(), RichRuleAnalysis>) -> (n: Result<usize, RichRuleAnalysis>)
    ensures
        match r {
            Ok(_) => n == Ok::<usize, RichRuleAnalysis>(index),
            Err(e) => n == Err::<usize, RichRuleAnalysis>(e),
        },
{
    match r {
        Ok(_) => Ok(index),
        Err(e) => Err(e),
    }
}

fn parse_element(tokens: &Vec<String>, index: usize, builder: &mut ExpressionBuilder) -> (r: Result<
    usize,
    RichRuleAnalysis,
>)
    requires
        index < tokens.len(),
    ensures
        match r {
            Ok(next) => element_step(tokens.deep_view(), index as int, old(builder).deep_view())
                == Ok::<(int, ExpressionBuilderView), RichRuleAnalysisView>(
                (next as int, final(builder).deep_view()),
            ) && index <= next < tokens.len(),
            Err(e) => element_step(tokens.deep_view(), index as int, old(builder).deep_view())
                == Err::<(int, ExpressionBuilderView), RichRuleAnalysisView>(e.deep_view()),
        },
        r is Err ==> final(builder).deep_view() == old(builder).deep_view(),
{
    let t = tokens[index].as_str();
    assert(t@ == tokens.deep_view()[index as int]);
    if text::starts_with(t, "family=") {
        stay(index, parse_family(t, builder))
    } else if text::starts_with(t, "priority=") {
        stay(index, parse_priority(t, builder))
    } else if text::same(t, "source") {
        parse_address_element(tokens, index, true, builder)
    } else if text::same(t, "destination") {
        parse_address_element(tokens, index, false, builder)
    } else if text::same(t, "service") {
        parse_service(tokens, index, builder)
    } else if text::same(t, "port") {
        parse_port(tokens, index, false, builder)
    } else if text::same(t, "source-port") {
        parse_port(tokens, index, true, builder)
    } else if text::same(t, "protocol") {
        parse_protocol(tokens, index, builder)
    } else if text::same(t, "accept") {
        stay(index, set_action(builder, RichRuleAction::Accept))
    } else if text::same(t, "reject") {
        stay(index, set_action(builder, RichRuleAction::Reject))
    } else if text::same(t, "drop") {
        stay(index, set_action(builder, RichRuleAction::Drop))
    } else {
        Err(RichRuleAnalysis::Unsupported(unsupported(t)))
    }
}

fn conclude(builder: ExpressionBuilder) -> (r: RichRuleAnalysis)
    ensures
        r.deep_view() == concluded(builder.deep_view()),
{
    if builder.service.is_some() && builder.destination_port.is_some() {
        return RichRuleAnalysis::Unsupported(
            RichRuleUnsupported::ConflictingElements {
                left: "service".to_owned(),
                right: "port".to_owned(),
            },
        );
    }
    if builder.protocol.is_some() && (builder.service.is_some()
        || builder.destination_port.is_some()) {
        let right = if builder.service.is_some() {
            "service".to_owned()
        } else {
            "port".to_owned()
        };
        return RichRuleAnalysis::Unsupported(
            RichRuleUnsupported::ConflictingElements { left: "protocol".to_owned(), right },
        );
    }
    match builder.action {
        None => RichRuleAnalysis::Malformed(RichRuleMalformed::MissingAction),
        Some(action) => RichRuleAnalysis::Supported(
            Box::new(
                RichRuleExpression {
                    family: builder.family,
                    source: builder.source,
                    destination: builder.destination,
                    service: builder.service,
                    destination_port: builder.destination_port,
                    source_port: builder.source_port,
                    protocol: builder.protocol,
                    priority: builder.priority,
                    action,
                },
            ),
        ),
    }
}

fn analyze_tokens(tokens: &Vec<String>) -> (r: RichRuleAnalysis)
    requires
        tokens@.len() <= MAX_ANALYSIS_TOKENS,
    ensures
        r.deep_view() == analyzed_from(tokens.deep_view(), 1, ExpressionBuilderView::nothing()),
{
    let mut builder = ExpressionBuilder {
        family: None,
        source: None,
        destination: None,
        service: None,
        destination_port: None,
        source_port: None,
        protocol: None,
        priority: RulePriority::default(),
        priority_seen: false,
        action: None,
    };
    let mut index: usize = 1;
    while index < tokens.len()
        invariant
            tokens@.len() <= MAX_ANALYSIS_TOKENS,
            analyzed_from(tokens.deep_view(), 1, ExpressionBuilderView::nothing())
                == analyzed_from(tokens.deep_view(), index as int, builder.deep_view()),
        decreases tokens.len() - index,
    {
        match parse_element(tokens, index, &mut builder) {
            Err(analysis) => {
                return analysis;
            },
            Ok(last) => {
                index = last + 1;
            },
        }
    }
    conclude(builder)
}

// ---------------------------------------------------------------------------
// Rules
// ---------------------------------------------------------------------------
/// One firewalld rich rule, stored verbatim (trimmed only).
#[derive(Debug, PartialEq, Eq, Hash, PartialOrd, Ord)]
pub struct RichRule {
    rule: String,
}

impl DeepView for RichRule {
    type V = Seq<char>;

    closed spec fn deep_view(&self) -> Seq<char> {
        self.rule@
    }
}

/// The whole word `rule` with a body behind it, on a single line.
pub open spec fn rule_text(s: Seq<char>) -> bool {
    &&& forall|i: int| 0 <= i < s.len() ==> !text::control(#[trigger] s[i])
    &&& match text::stripped(s, "rule"@) {
        Some(rest) => rest.len() > 0 && text::white(rest[0]),
        None => false,
    }
}

/// The keyword among `accept`, `reject`, `drop` and `mark`, in this order of
/// preference, that stands as a word of its own.
pub open spec fn action_word(s: Seq<char>) -> Option<Seq<char>> {
    let words = text::words(s);
    if words.contains("accept"@) {
        Some("accept"@)
    } else if words.contains("reject"@) {
        Some("reject"@)
    } else if words.contains("drop"@) {
        Some("drop"@)
    } else if words.contains("mark"@) {
        Some("mark"@)
    } else {
        None
    }
}

/// What stands between `family="` and the next quote, or to the end.
pub open spec fn family_text(s: Seq<char>) -> Option<Seq<char>> {
    match text::parted(s, "family=\""@) {
        Some((_, rest)) => Some(text::pieces(rest, '"')[0]),
        None => None,
    }
}

fn has_word(words: &Vec<&str>, word: &str) -> (r: bool)
    ensures
        r == words.deep_view().contains(word@),
{
    let mut i: usize = 0;
    while i < words.len()
        invariant
            i <= words@.len(),
            forall|j: int| 0 <= j < i ==> words.deep_view()[j] != word@,
        decreases words.len() - i,
    {
        if text::same(words[i], word) {
            assert(words.deep_view()[i as int] == word@);
            return true;
        }
        i = i + 1;
    }
    false
}

impl RichRule {
    /// The rule that `raw` spells, without the white space around it.
    pub open spec fn parsed(raw: Seq<char>) -> Result<Seq<char>, ValidationErrorView> {
        if rule_text(text::trimmed(raw)) {
            Ok(text::trimmed(raw))
        } else {
            Err(ValidationErrorView::InvalidRichRule)
        }
    }

    /// The text is the word `rule` and a body, with no white space around it.
    #[verifier::type_invariant]
    pub open spec fn valid(self) -> bool {
        rule_text(self.deep_view()) && text::trimmed(self.deep_view()) == self.deep_view()
    }

    /// Accepts trimmed text whose first whole word is `rule`; no deeper syntax
    /// check — firewalld stays the authority on rich rule grammar. Rejects
    /// control characters (a rich rule is a single line, and a newline would
    /// corrupt the audit trail) and `rule` used only as a prefix (`ruleset`,
    /// `rulefoo`).
    pub fn parse(raw: &str) -> (r: Result<Self, ValidationError>)
        ensures
            model::outcome(r) == Self::parsed(raw@),
    {
        let trimmed = text::trim(raw);
        proof {
            text::trimmed_once(raw@);
        }
        let chars = text::chars_of(trimmed);
        let mut i: usize = 0;
        while i < chars.len()
            invariant
                chars@ == trimmed@,
                trimmed@ == text::trimmed(raw@),
                i <= chars@.len(),
                forall|j: int| 0 <= j < i ==> !text::control(#[trigger] trimmed@[j]),
            decreases chars.len() - i,
        {
            if text::is_control(chars[i]) {
                assert(text::control(trimmed@[i as int]));
                return Err(ValidationError::InvalidRichRule);
            }
            i = i + 1;
        }
        match text::strip_prefix(trimmed, "rule") {
            None => Err(ValidationError::InvalidRichRule),
            Some(rest) => {
                let body = text::chars_of(rest);
                if body.len() == 0 || !text::is_white(body[0]) {
                    return Err(ValidationError::InvalidRichRule);
                }
                Ok(RichRule { rule: trimmed.to_owned() })
            },
        }
    }

    /// The mutation path passes this verbatim back to firewalld.
    pub fn as_str(&self) -> (r: &str)
        ensures
            r@ == self.deep_view(),
            rule_text(r@),
            Self::parsed(r@) == Ok::<Seq<char>, ValidationErrorView>(self.deep_view()),
    {
        proof {
            use_type_invariant(self);
        }
        self.rule.as_str()
    }

    /// Best-effort `family="..."` extraction for table columns.
    pub fn family(&self) -> (r: Option<&str>)
        ensures
            match r {
                Some(f) => family_text(self.deep_view()) == Some(f@),
                None => family_text(self.deep_view()) is None,
            },
    {
        match text::split_once(self.rule.as_str(), "family=\"") {
            Some((_, rest)) => {
                let parts = text::split(rest, '"');
                proof {
                    assert(text::pieces_from(rest@, '"', 0).len() > 0);
                    assert(parts.deep_view()[0] == parts@[0]@);
                }
                Some(parts[0])
            },
            None => None,
        }
    }

    /// Best-effort action keyword extraction for table columns.
    pub fn action(&self) -> (r: Option<&'static str>)
        ensures
            match r {
                Some(a) => action_word(self.deep_view()) == Some(a@),
                None => action_word(self.deep_view()) is None,
            },
    {
        let words = text::split_words(self.rule.as_str());
        if has_word(&words, "accept") {
            Some("accept")
        } else if has_word(&words, "reject") {
            Some("reject")
        } else if has_word(&words, "drop") {
            Some("drop")
        } else if has_word(&words, "mark") {
            Some("mark")
        } else {
            None
        }
    }

    /// Parses the bounded, approved traffic-relevant subset without changing
    /// the raw mutation text.
    pub fn analyze(&self) -> (r: RichRuleAnalysis)
        ensures
            r.deep_view() == analyzed(self.deep_view()),
    {
        match tokenize(self.rule.as_str()) {
            Err(reason) => RichRuleAnalysis::Malformed(reason),
            Ok(tokens) => {
                if tokens.len() > MAX_ANALYSIS_TOKENS {
                    return RichRuleAnalysis::Unsupported(
                        RichRuleUnsupported::TooManyTokens { limit: MAX_ANALYSIS_TOKENS },
                    );
                }
                analyze_tokens(&tokens)
            },
        }
    }
}

impl Value for RichRule {
    fn same(&self, other: &Self) -> (r: bool) {
        self.rule == other.rule
    }

    fn dup(&self) -> (r: Self) {
        proof {
            use_type_invariant(self);
        }
        RichRule { rule: self.rule.clone() }
    }
}

impl Clone for RichRule {
    fn clone(&self) -> (r: Self)
        ensures
            r.deep_view() == self.deep_view(),
    {
        self.dup()
    }
}

/// A rule's text reads back as the rule.
pub proof fn rich_rule_reads_back(raw: Seq<char>)
    ensures
        RichRule::parsed(raw) matches Ok(rule) ==> RichRule::parsed(rule) == Ok::<
            Seq<char>,
            ValidationErrorView,
        >(rule),
{
    text::trimmed_once(raw);
}

} // verus!
