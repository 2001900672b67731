//! Validated identifier types. Every value that ends up in a `firewall-cmd`
//! argument vector must pass through one of these constructors first.

use vstd::prelude::*;

use crate::model;
use crate::model::Value;
use crate::name_map::Name;
use crate::number;
use crate::text;

verus! {

/// Validation failure for any user- or backend-supplied value.
#[derive(Debug, PartialEq, Eq)]
pub enum ValidationError {
    /// The value is empty.
    Empty {
        /// Human-readable identifier kind, e.g. `"zone name"`.
        kind: &'static str,
    },
    /// The value exceeds the identifier kind's length limit.
    TooLong {
        /// Human-readable identifier kind.
        kind: &'static str,
        /// The rejected input.
        value: String,
        /// Maximum length for this kind.
        max: usize,
    },
    /// The value contains a character outside the kind's allowed set.
    InvalidChar {
        /// Human-readable identifier kind.
        kind: &'static str,
        /// The rejected input.
        value: String,
        /// The first offending character.
        ch: char,
    },
    /// Not a number in `1..=65535`.
    InvalidPort(String),
    /// Port range start exceeds end.
    InvalidRange(String),
    /// Unknown transport protocol keyword.
    InvalidProtocol(String),
    /// Malformed `<port>[-<port>]/<protocol>` spec.
    InvalidPortSpec(String),
    /// Not an IP, CIDR, MAC, or `ipset:<name>` reference.
    InvalidSource(String),
    /// Rich rule text does not start with `rule`.
    InvalidRichRule,
    /// Unknown zone target keyword.
    InvalidZoneTarget(String),
    /// Unknown `LogDenied` keyword.
    InvalidLogDenied(String),
    /// Malformed `port=<p>:proto=<proto>[:toport=<p>][:toaddr=<ip>]` spec.
    InvalidForwardPort(String),
    /// An ipset entry with whitespace, control characters, or empty/oversized.
    InvalidIpSetEntry(String),
}

/// What a `ValidationError` models.
#[verifier::ext_equal]
pub enum ValidationErrorView {
    Empty { kind: Seq<char> },
    TooLong { kind: Seq<char>, value: Seq<char>, max: usize },
    InvalidChar { kind: Seq<char>, value: Seq<char>, ch: char },
    InvalidPort(Seq<char>),
    InvalidRange(Seq<char>),
    InvalidProtocol(Seq<char>),
    InvalidPortSpec(Seq<char>),
    InvalidSource(Seq<char>),
    InvalidRichRule,
    InvalidZoneTarget(Seq<char>),
    InvalidLogDenied(Seq<char>),
    InvalidForwardPort(Seq<char>),
    InvalidIpSetEntry(Seq<char>),
}

impl DeepView for ValidationError {
    type V = ValidationErrorView;

    open spec fn deep_view(&self) -> ValidationErrorView {
        match self {
            ValidationError::Empty { kind } => ValidationErrorView::Empty { kind: kind@ },
            ValidationError::TooLong { kind, value, max } => ValidationErrorView::TooLong {
                kind: kind@,
                value: value.deep_view(),
                max: max.deep_view(),
            },
            ValidationError::InvalidChar { kind, value, ch } => ValidationErrorView::InvalidChar {
                kind: kind@,
                value: value.deep_view(),
                ch: ch.deep_view(),
            },
            ValidationError::InvalidPort(x0) => ValidationErrorView::InvalidPort(x0.deep_view()),
            ValidationError::InvalidRange(x0) => ValidationErrorView::InvalidRange(x0.deep_view()),
            ValidationError::InvalidProtocol(x0) => ValidationErrorView::InvalidProtocol(
                x0.deep_view(),
            ),
            ValidationError::InvalidPortSpec(x0) => ValidationErrorView::InvalidPortSpec(
                x0.deep_view(),
            ),
            ValidationError::InvalidSource(x0) => ValidationErrorView::InvalidSource(
                x0.deep_view(),
            ),
            ValidationError::InvalidRichRule => ValidationErrorView::InvalidRichRule,
            ValidationError::InvalidZoneTarget(x0) => ValidationErrorView::InvalidZoneTarget(
                x0.deep_view(),
            ),
            ValidationError::InvalidLogDenied(x0) => ValidationErrorView::InvalidLogDenied(
                x0.deep_view(),
            ),
            ValidationError::InvalidForwardPort(x0) => ValidationErrorView::InvalidForwardPort(
                x0.deep_view(),
            ),
            ValidationError::InvalidIpSetEntry(x0) => ValidationErrorView::InvalidIpSetEntry(
                x0.deep_view(),
            ),
        }
    }
}

impl Value for ValidationError {
    fn same(&self, other: &Self) -> (r: bool) {
        match (self, other) {
            (ValidationError::Empty { kind }, ValidationError::Empty { kind: kind_other }) =>
                text::same(kind, kind_other),
            (
                ValidationError::TooLong { kind, value, max },
                ValidationError::TooLong { kind: kind_other, value: value_other, max: max_other },
            ) => text::same(kind, kind_other) && value.same(value_other) && *max == *max_other,
            (
                ValidationError::InvalidChar { kind, value, ch },
                ValidationError::InvalidChar { kind: kind_other, value: value_other, ch: ch_other },
            ) => text::same(kind, kind_other) && value.same(value_other) && *ch == *ch_other,
            (ValidationError::InvalidPort(x0), ValidationError::InvalidPort(x0_other)) => x0.same(
                x0_other,
            ),
            (ValidationError::InvalidRange(x0), ValidationError::InvalidRange(x0_other)) => x0.same(
                x0_other,
            ),
            (ValidationError::InvalidProtocol(x0), ValidationError::InvalidProtocol(x0_other)) =>
                x0.same(x0_other),
            (ValidationError::InvalidPortSpec(x0), ValidationError::InvalidPortSpec(x0_other)) =>
                x0.same(x0_other),
            (ValidationError::InvalidSource(x0), ValidationError::InvalidSource(x0_other)) =>
                x0.same(x0_other),
            (ValidationError::InvalidRichRule, ValidationError::InvalidRichRule) => true,
            (
                ValidationError::InvalidZoneTarget(x0),
                ValidationError::InvalidZoneTarget(x0_other),
            ) => x0.same(x0_other),
            (ValidationError::InvalidLogDenied(x0), ValidationError::InvalidLogDenied(x0_other)) =>
                x0.same(x0_other),
            (
                ValidationError::InvalidForwardPort(x0),
                ValidationError::InvalidForwardPort(x0_other),
            ) => x0.same(x0_other),
            (
                ValidationError::InvalidIpSetEntry(x0),
                ValidationError::InvalidIpSetEntry(x0_other),
            ) => x0.same(x0_other),
            _ => false,
        }
    }

    fn dup(&self) -> (r: Self) {
        match self {
            ValidationError::Empty { kind } => ValidationError::Empty { kind: kind },
            ValidationError::TooLong { kind, value, max } => ValidationError::TooLong {
                kind: kind,
                value: value.dup(),
                max: *max,
            },
            ValidationError::InvalidChar { kind, value, ch } => ValidationError::InvalidChar {
                kind: kind,
                value: value.dup(),
                ch: *ch,
            },
            ValidationError::InvalidPort(x0) => ValidationError::InvalidPort(x0.dup()),
            ValidationError::InvalidRange(x0) => ValidationError::InvalidRange(x0.dup()),
            ValidationError::InvalidProtocol(x0) => ValidationError::InvalidProtocol(x0.dup()),
            ValidationError::InvalidPortSpec(x0) => ValidationError::InvalidPortSpec(x0.dup()),
            ValidationError::InvalidSource(x0) => ValidationError::InvalidSource(x0.dup()),
            ValidationError::InvalidRichRule => ValidationError::InvalidRichRule,
            ValidationError::InvalidZoneTarget(x0) => ValidationError::InvalidZoneTarget(x0.dup()),
            ValidationError::InvalidLogDenied(x0) => ValidationError::InvalidLogDenied(x0.dup()),
            ValidationError::InvalidForwardPort(x0) => ValidationError::InvalidForwardPort(
                x0.dup(),
            ),
            ValidationError::InvalidIpSetEntry(x0) => ValidationError::InvalidIpSetEntry(x0.dup()),
        }
    }
}

impl Clone for ValidationError {
    fn clone(&self) -> (r: Self)
        ensures
            r.deep_view() == self.deep_view(),
    {
        self.dup()
    }
}

impl ValidationErrorView {
    /// The sentence that describes the failure.
    pub open spec fn message(self) -> Seq<char> {
        match self {
            ValidationErrorView::Empty { kind } => kind + " must not be empty"@,
            ValidationErrorView::TooLong { kind, value, max } => kind + " `"@ + value
                + "` exceeds "@ + number::decimal(max as nat) + " characters"@,
            ValidationErrorView::InvalidChar { kind, value, ch } => kind + " `"@ + value
                + "` contains invalid character `"@ + seq![ch] + "`"@,
            ValidationErrorView::InvalidRichRule => "rich rule must start with `rule`"@,
            ValidationErrorView::InvalidPort(v) =>
                "invalid port `"@ + v + "`: expected a number between 1 and 65535"@,
            ValidationErrorView::InvalidRange(v) =>
                "invalid port range `"@ + v + "`: start must not exceed end"@,
            ValidationErrorView::InvalidProtocol(v) =>
                "invalid protocol `"@ + v + "`: expected tcp, udp, sctp or dccp"@,
            ValidationErrorView::InvalidPortSpec(v) =>
                "invalid port spec `"@ + v + "`: expected <port>[-<port>]/<protocol>"@,
            ValidationErrorView::InvalidSource(v) =>
                "invalid source `"@ + v + "`: expected an IP address, CIDR, MAC or ipset:<name>"@,
            ValidationErrorView::InvalidZoneTarget(v) =>
                "invalid zone target `"@ + v + "`: expected default, ACCEPT, DROP or %%REJECT%%"@,
            ValidationErrorView::InvalidLogDenied(v) => "invalid LogDenied value `"@ + v + "`"@,
            ValidationErrorView::InvalidForwardPort(v) =>
                "invalid forward port `"@ + v + "`: expected port=<p>:proto=<proto>[:toport=<p>][:toaddr=<ip>]"@,
            ValidationErrorView::InvalidIpSetEntry(v) =>
                "invalid ipset entry `"@ + v + "`: expected a single token with no spaces"@,
        }
    }
}

impl ValidationError {
    /// The sentence that describes the failure.
    pub fn message(&self) -> (r: String)
        ensures
            r@ == self.deep_view().message(),
    {
        match self {
            ValidationError::Empty { kind } => text::cat2(kind, " must not be empty"),
            ValidationError::TooLong { kind, value, max } => {
                let shown = number::show(*max as u64);
                text::cat6(kind, " `", value.as_str(), "` exceeds ", shown.as_str(), " characters")
            },
            ValidationError::InvalidChar { kind, value, ch } => {
                let mut shown = String::new();
                shown.push(*ch);
                assert(shown@ =~= seq![*ch]);
                text::cat6(
                    kind,
                    " `",
                    value.as_str(),
                    "` contains invalid character `",
                    shown.as_str(),
                    "`",
                )
            },
            ValidationError::InvalidRichRule => "rich rule must start with `rule`".to_owned(),
            ValidationError::InvalidPort(v) => text::cat3(
                "invalid port `",
                v.as_str(),
                "`: expected a number between 1 and 65535",
            ),
            ValidationError::InvalidRange(v) => text::cat3(
                "invalid port range `",
                v.as_str(),
                "`: start must not exceed end",
            ),
            ValidationError::InvalidProtocol(v) => text::cat3(
                "invalid protocol `",
                v.as_str(),
                "`: expected tcp, udp, sctp or dccp",
            ),
            ValidationError::InvalidPortSpec(v) => text::cat3(
                "invalid port spec `",
                v.as_str(),
                "`: expected <port>[-<port>]/<protocol>",
            ),
            ValidationError::InvalidSource(v) => text::cat3(
                "invalid source `",
                v.as_str(),
                "`: expected an IP address, CIDR, MAC or ipset:<name>",
            ),
            ValidationError::InvalidZoneTarget(v) => text::cat3(
                "invalid zone target `",
                v.as_str(),
                "`: expected default, ACCEPT, DROP or %%REJECT%%",
            ),
            ValidationError::InvalidLogDenied(v) => text::cat3(
                "invalid LogDenied value `",
                v.as_str(),
                "`",
            ),
            ValidationError::InvalidForwardPort(v) => text::cat3(
                "invalid forward port `",
                v.as_str(),
                "`: expected port=<p>:proto=<proto>[:toport=<p>][:toaddr=<ip>]",
            ),
            ValidationError::InvalidIpSetEntry(v) => text::cat3(
                "invalid ipset entry `",
                v.as_str(),
                "`: expected a single token with no spaces",
            ),
        }
    }
}

/// The first character at or after position `i` that is neither an ASCII
/// letter or digit nor one of `extra`.
pub open spec fn offender_from(s: Seq<char>, extra: Seq<char>, i: int) -> Option<char>
    decreases s.len() - i,
{
    if i < 0 || i >= s.len() {
        None
    } else if !text::alnum(s[i]) && !extra.contains(s[i]) {
        Some(s[i])
    } else {
        offender_from(s, extra, i + 1)
    }
}

/// Why `raw` is no identifier of this kind: it is empty, longer than `max`
/// bytes, or holds a character other than ASCII letters, digits and `extra`.
pub open spec fn objection(
    raw: Seq<char>,
    shown: Seq<char>,
    kind: Seq<char>,
    max: usize,
    extra: Seq<char>,
) -> Option<ValidationErrorView> {
    if raw.len() == 0 {
        Some(ValidationErrorView::Empty { kind })
    } else if text::utf8_len(raw) > max {
        Some(ValidationErrorView::TooLong { kind, value: shown, max })
    } else {
        match offender_from(raw, extra, 0) {
            Some(ch) => Some(ValidationErrorView::InvalidChar { kind, value: shown, ch }),
            None => None,
        }
    }
}

/// An identifier of this kind, or the reason why `raw` is none.
pub open spec fn identified(
    raw: Seq<char>,
    kind: Seq<char>,
    max: usize,
    extra: Seq<char>,
) -> Result<Seq<char>, ValidationErrorView> {
    match objection(raw, raw, kind, max, extra) {
        Some(e) => Err(e),
        None => Ok(raw),
    }
}

fn in_extra(extra: &[char], c: char) -> (r: bool)
    ensures
        r == extra@.contains(c),
{
    let mut i: usize = 0;
    while i < extra.len()
        invariant
            i <= extra@.len(),
            forall|j: int| 0 <= j < i ==> extra@[j] != c,
        decreases extra.len() - i,
    {
        if extra[i] == c {
            assert(extra@[i as int] == c);
            return true;
        }
        i = i + 1;
    }
    false
}

/// Shared identifier check: non-empty, at most `max` bytes, ASCII
/// alphanumeric plus the characters in `extra`. An error shows `shown` as the
/// rejected value.
pub fn validate(
    raw: &str,
    shown: &str,
    kind: &'static str,
    max: usize,
    extra: &[char],
) -> (r: Result<(), ValidationError>)
    ensures
        match r {
            Ok(_) => objection(raw@, shown@, kind@, max, extra@) is None,
            Err(e) => objection(raw@, shown@, kind@, max, extra@) == Some(e.deep_view()),
        },
{
    let chars = text::chars_of(raw);
    if chars.len() == 0 {
        return Err(ValidationError::Empty { kind });
    }
    if text::byte_len(raw) > max {
        return Err(ValidationError::TooLong { kind, value: shown.to_owned(), max });
    }
    let mut i: usize = 0;
    while i < chars.len()
        invariant
            chars@ == raw@,
            0 < chars@.len(),
            text::utf8_len(raw@) <= max,
            i <= chars@.len(),
            offender_from(raw@, extra@, 0) == offender_from(raw@, extra@, i as int),
        decreases chars.len() - i,
    {
        let ch = chars[i];
        if !text::is_alnum(ch) && !in_extra(extra, ch) {
            assert(offender_from(raw@, extra@, 0) == Some(ch));
            return Err(ValidationError::InvalidChar { kind, value: shown.to_owned(), ch });
        }
        i = i + 1;
    }
    Ok(())
}

/// A firewalld zone name (firewalld caps zone names at 17 characters).
#[derive(Debug, PartialEq, Eq, Hash, PartialOrd, Ord)]
pub struct ZoneName {
    name: String,
}

impl DeepView for ZoneName {
    type V = Seq<char>;

    closed spec fn deep_view(&self) -> Seq<char> {
        self.name@
    }
}

impl ZoneName {
    /// The name that `raw` spells, or why it spells none.
    pub open spec fn parsed(raw: Seq<char>) -> Result<Seq<char>, ValidationErrorView> {
        identified(raw, "zone name"@, 17, seq!['_', '-'])
    }

    /// The name is a valid zone name.
    #[verifier::type_invariant]
    pub open spec fn valid(self) -> bool {
        Self::parsed(self.deep_view()) is Ok
    }

    /// Validates `raw` against this identifier's length and character rules;
    /// safe for `firewall-cmd` argument vectors afterwards.
    pub fn parse(raw: &str) -> (r: Result<Self, ValidationError>)
        ensures
            model::outcome(r) == Self::parsed(raw@),
    {
        let extra = ['_', '-'];
        assert(extra@ =~= seq!['_', '-']);
        match validate(raw, raw, "zone name", 17, &extra) {
            Ok(_) => Ok(ZoneName { name: raw.to_owned() }),
            Err(e) => Err(e),
        }
    }

    /// The validated name as a string slice.
    pub fn as_str(&self) -> (r: &str)
        ensures
            r@ == self.deep_view(),
            Self::parsed(r@) == Ok::<Seq<char>, ValidationErrorView>(r@),
    {
        proof {
            use_type_invariant(self);
        }
        self.name.as_str()
    }
}

impl Value for ZoneName {
    fn same(&self, other: &Self) -> (r: bool) {
        self.name == other.name
    }

    fn dup(&self) -> (r: Self) {
        proof {
            use_type_invariant(self);
        }
        ZoneName { name: self.name.clone() }
    }
}

impl Name for ZoneName {
    fn text(&self) -> (r: &str) {
        self.name.as_str()
    }
}

impl Clone for ZoneName {
    fn clone(&self) -> (r: Self)
        ensures
            r.deep_view() == self.deep_view(),
    {
        self.dup()
    }
}

/// A firewalld service name, e.g. `dhcpv6-client`.
#[derive(Debug, PartialEq, Eq, Hash, PartialOrd, Ord)]
pub struct ServiceName {
    name: String,
}

impl DeepView for ServiceName {
    type V = Seq<char>;

    closed spec fn deep_view(&self) -> Seq<char> {
        self.name@
    }
}

impl ServiceName {
    /// The name that `raw` spells, or why it spells none.
    pub open spec fn parsed(raw: Seq<char>) -> Result<Seq<char>, ValidationErrorView> {
        identified(raw, "service name"@, 64, seq!['_', '-', '.'])
    }

    /// The name is a valid service name.
    #[verifier::type_invariant]
    pub open spec fn valid(self) -> bool {
        Self::parsed(self.deep_view()) is Ok
    }

    /// Validates `raw` against this identifier's length and character rules;
    /// safe for `firewall-cmd` argument vectors afterwards.
    pub fn parse(raw: &str) -> (r: Result<Self, ValidationError>)
        ensures
            model::outcome(r) == Self::parsed(raw@),
    {
        let extra = ['_', '-', '.'];
        assert(extra@ =~= seq!['_', '-', '.']);
        match validate(raw, raw, "service name", 64, &extra) {
            Ok(_) => Ok(ServiceName { name: raw.to_owned() }),
            Err(e) => Err(e),
        }
    }

    /// The validated name as a string slice.
    pub fn as_str(&self) -> (r: &str)
        ensures
            r@ == self.deep_view(),
            Self::parsed(r@) == Ok::<Seq<char>, ValidationErrorView>(r@),
    {
        proof {
            use_type_invariant(self);
        }
        self.name.as_str()
    }
}

impl Value for ServiceName {
    fn same(&self, other: &Self) -> (r: bool) {
        self.name == other.name
    }

    fn dup(&self) -> (r: Self) {
        proof {
            use_type_invariant(self);
        }
        ServiceName { name: self.name.clone() }
    }
}

impl Name for ServiceName {
    fn text(&self) -> (r: &str) {
        self.name.as_str()
    }
}

impl Clone for ServiceName {
    fn clone(&self) -> (r: Self)
        ensures
            r.deep_view() == self.deep_view(),
    {
        self.dup()
    }
}

/// A network interface name, e.g. `eth0`, `br-lan`, `eth0.100`.
#[derive(Debug, PartialEq, Eq, Hash, PartialOrd, Ord)]
pub struct InterfaceName {
    name: String,
}

impl DeepView for InterfaceName {
    type V = Seq<char>;

    closed spec fn deep_view(&self) -> Seq<char> {
        self.name@
    }
}

impl InterfaceName {
    /// The name that `raw` spells, or why it spells none.
    pub open spec fn parsed(raw: Seq<char>) -> Result<Seq<char>, ValidationErrorView> {
        identified(raw, "interface name"@, 15, seq!['_', '-', '.', '@', ':'])
    }

    /// The name is a valid interface name.
    #[verifier::type_invariant]
    pub open spec fn valid(self) -> bool {
        Self::parsed(self.deep_view()) is Ok
    }

    /// Validates `raw` against this identifier's length and character rules;
    /// safe for `firewall-cmd` argument vectors afterwards.
    pub fn parse(raw: &str) -> (r: Result<Self, ValidationError>)
        ensures
            model::outcome(r) == Self::parsed(raw@),
    {
        let extra = ['_', '-', '.', '@', ':'];
        assert(extra@ =~= seq!['_', '-', '.', '@', ':']);
        match validate(raw, raw, "interface name", 15, &extra) {
            Ok(_) => Ok(InterfaceName { name: raw.to_owned() }),
            Err(e) => Err(e),
        }
    }

    /// The validated name as a string slice.
    pub fn as_str(&self) -> (r: &str)
        ensures
            r@ == self.deep_view(),
            Self::parsed(r@) == Ok::<Seq<char>, ValidationErrorView>(r@),
    {
        proof {
            use_type_invariant(self);
        }
        self.name.as_str()
    }
}

impl Value for InterfaceName {
    fn same(&self, other: &Self) -> (r: bool) {
        self.name == other.name
    }

    fn dup(&self) -> (r: Self) {
        proof {
            use_type_invariant(self);
        }
        InterfaceName { name: self.name.clone() }
    }
}

impl Name for InterfaceName {
    fn text(&self) -> (r: &str) {
        self.name.as_str()
    }
}

impl Clone for InterfaceName {
    fn clone(&self) -> (r: Self)
        ensures
            r.deep_view() == self.deep_view(),
    {
        self.dup()
    }
}

/// A firewalld ipset name.
#[derive(Debug, PartialEq, Eq, Hash, PartialOrd, Ord)]
pub struct IpSetName {
    name: String,
}

impl DeepView for IpSetName {
    type V = Seq<char>;

    closed spec fn deep_view(&self) -> Seq<char> {
        self.name@
    }
}

impl IpSetName {
    /// The name that `raw` spells, or why it spells none.
    pub open spec fn parsed(raw: Seq<char>) -> Result<Seq<char>, ValidationErrorView> {
        identified(raw, "ipset name"@, 64, seq!['_', '-', '.'])
    }

    /// The name is a valid ipset name.
    #[verifier::type_invariant]
    pub open spec fn valid(self) -> bool {
        Self::parsed(self.deep_view()) is Ok
    }

    /// Validates `raw` against this identifier's length and character rules;
    /// safe for `firewall-cmd` argument vectors afterwards.
    pub fn parse(raw: &str) -> (r: Result<Self, ValidationError>)
        ensures
            model::outcome(r) == Self::parsed(raw@),
    {
        let extra = ['_', '-', '.'];
        assert(extra@ =~= seq!['_', '-', '.']);
        match validate(raw, raw, "ipset name", 64, &extra) {
            Ok(_) => Ok(IpSetName { name: raw.to_owned() }),
            Err(e) => Err(e),
        }
    }

    /// The validated name as a string slice.
    pub fn as_str(&self) -> (r: &str)
        ensures
            r@ == self.deep_view(),
            Self::parsed(r@) == Ok::<Seq<char>, ValidationErrorView>(r@),
    {
        proof {
            use_type_invariant(self);
        }
        self.name.as_str()
    }
}

impl Value for IpSetName {
    fn same(&self, other: &Self) -> (r: bool) {
        self.name == other.name
    }

    fn dup(&self) -> (r: Self) {
        proof {
            use_type_invariant(self);
        }
        IpSetName { name: self.name.clone() }
    }
}

impl Name for IpSetName {
    fn text(&self) -> (r: &str) {
        self.name.as_str()
    }
}

impl Clone for IpSetName {
    fn clone(&self) -> (r: Self)
        ensures
            r.deep_view() == self.deep_view(),
    {
        self.dup()
    }
}

/// A firewalld ICMP type name, e.g. `echo-request`.
#[derive(Debug, PartialEq, Eq, Hash, PartialOrd, Ord)]
pub struct IcmpType {
    name: String,
}

impl DeepView for IcmpType {
    type V = Seq<char>;

    closed spec fn deep_view(&self) -> Seq<char> {
        self.name@
    }
}

impl IcmpType {
    /// The name that `raw` spells, or why it spells none.
    pub open spec fn parsed(raw: Seq<char>) -> Result<Seq<char>, ValidationErrorView> {
        identified(raw, "icmp type"@, 32, seq!['_', '-'])
    }

    /// The name is a valid icmp type.
    #[verifier::type_invariant]
    pub open spec fn valid(self) -> bool {
        Self::parsed(self.deep_view()) is Ok
    }

    /// Validates `raw` against this identifier's length and character rules;
    /// safe for `firewall-cmd` argument vectors afterwards.
    pub fn parse(raw: &str) -> (r: Result<Self, ValidationError>)
        ensures
            model::outcome(r) == Self::parsed(raw@),
    {
        let extra = ['_', '-'];
        assert(extra@ =~= seq!['_', '-']);
        match validate(raw, raw, "icmp type", 32, &extra) {
            Ok(_) => Ok(IcmpType { name: raw.to_owned() }),
            Err(e) => Err(e),
        }
    }

    /// The validated name as a string slice.
    pub fn as_str(&self) -> (r: &str)
        ensures
            r@ == self.deep_view(),
            Self::parsed(r@) == Ok::<Seq<char>, ValidationErrorView>(r@),
    {
        proof {
            use_type_invariant(self);
        }
        self.name.as_str()
    }
}

impl Value for IcmpType {
    fn same(&self, other: &Self) -> (r: bool) {
        self.name == other.name
    }

    fn dup(&self) -> (r: Self) {
        proof {
            use_type_invariant(self);
        }
        IcmpType { name: self.name.clone() }
    }
}

impl Name for IcmpType {
    fn text(&self) -> (r: &str) {
        self.name.as_str()
    }
}

impl Clone for IcmpType {
    fn clone(&self) -> (r: Self)
        ensures
            r.deep_view() == self.deep_view(),
    {
        self.dup()
    }
}

/// A firewalld policy name. Shipped policy-set members exceed the zone
/// name limit (for example `gateway-lan-to-world`).
#[derive(Debug, PartialEq, Eq, Hash, PartialOrd, Ord)]
pub struct PolicyName {
    name: String,
}

impl DeepView for PolicyName {
    type V = Seq<char>;

    closed spec fn deep_view(&self) -> Seq<char> {
        self.name@
    }
}

impl PolicyName {
    /// The name that `raw` spells, or why it spells none.
    pub open spec fn parsed(raw: Seq<char>) -> Result<Seq<char>, ValidationErrorView> {
        identified(raw, "policy name"@, 64, seq!['_', '-'])
    }

    /// The name is a valid policy name.
    #[verifier::type_invariant]
    pub open spec fn valid(self) -> bool {
        Self::parsed(self.deep_view()) is Ok
    }

    /// Validates `raw` against this identifier's length and character rules;
    /// safe for `firewall-cmd` argument vectors afterwards.
    pub fn parse(raw: &str) -> (r: Result<Self, ValidationError>)
        ensures
            model::outcome(r) == Self::parsed(raw@),
    {
        let extra = ['_', '-'];
        assert(extra@ =~= seq!['_', '-']);
        match validate(raw, raw, "policy name", 64, &extra) {
            Ok(_) => Ok(PolicyName { name: raw.to_owned() }),
            Err(e) => Err(e),
        }
    }

    /// The validated name as a string slice.
    pub fn as_str(&self) -> (r: &str)
        ensures
            r@ == self.deep_view(),
            Self::parsed(r@) == Ok::<Seq<char>, ValidationErrorView>(r@),
    {
        proof {
            use_type_invariant(self);
        }
        self.name.as_str()
    }
}

impl Value for PolicyName {
    fn same(&self, other: &Self) -> (r: bool) {
        self.name == other.name
    }

    fn dup(&self) -> (r: Self) {
        proof {
            use_type_invariant(self);
        }
        PolicyName { name: self.name.clone() }
    }
}

impl Name for PolicyName {
    fn text(&self) -> (r: &str) {
        self.name.as_str()
    }
}

impl Clone for PolicyName {
    fn clone(&self) -> (r: Self)
        ensures
            r.deep_view() == self.deep_view(),
    {
        self.dup()
    }
}

/// A predefined firewalld policy-set name used by `--policy-set`.
#[derive(Debug, PartialEq, Eq, Hash, PartialOrd, Ord)]
pub struct PolicySetName {
    name: String,
}

impl DeepView for PolicySetName {
    type V = Seq<char>;

    closed spec fn deep_view(&self) -> Seq<char> {
        self.name@
    }
}

impl PolicySetName {
    /// The name that `raw` spells, or why it spells none.
    pub open spec fn parsed(raw: Seq<char>) -> Result<Seq<char>, ValidationErrorView> {
        identified(raw, "policy-set name"@, 17, seq!['_', '-'])
    }

    /// The name is a valid policy-set name.
    #[verifier::type_invariant]
    pub open spec fn valid(self) -> bool {
        Self::parsed(self.deep_view()) is Ok
    }

    /// Validates `raw` against this identifier's length and character rules;
    /// safe for `firewall-cmd` argument vectors afterwards.
    pub fn parse(raw: &str) -> (r: Result<Self, ValidationError>)
        ensures
            model::outcome(r) == Self::parsed(raw@),
    {
        let extra = ['_', '-'];
        assert(extra@ =~= seq!['_', '-']);
        match validate(raw, raw, "policy-set name", 17, &extra) {
            Ok(_) => Ok(PolicySetName { name: raw.to_owned() }),
            Err(e) => Err(e),
        }
    }

    /// The validated name as a string slice.
    pub fn as_str(&self) -> (r: &str)
        ensures
            r@ == self.deep_view(),
            Self::parsed(r@) == Ok::<Seq<char>, ValidationErrorView>(r@),
    {
        proof {
            use_type_invariant(self);
        }
        self.name.as_str()
    }
}

impl Value for PolicySetName {
    fn same(&self, other: &Self) -> (r: bool) {
        self.name == other.name
    }

    fn dup(&self) -> (r: Self) {
        proof {
            use_type_invariant(self);
        }
        PolicySetName { name: self.name.clone() }
    }
}

impl Name for PolicySetName {
    fn text(&self) -> (r: &str) {
        self.name.as_str()
    }
}

impl Clone for PolicySetName {
    fn clone(&self) -> (r: Self)
        ensures
            r.deep_view() == self.deep_view(),
    {
        self.dup()
    }
}

/// An IP protocol for `--add-protocol`, e.g. `gre`, `esp`, `ah`, `igmp`,
/// `ipv6-icmp`, or a numeric protocol value. firewalld validates it against
/// `/etc/protocols`; this only enforces a safe argv token.
#[derive(Debug, PartialEq, Eq, Hash, PartialOrd, Ord)]
pub struct IpProtocol {
    name: String,
}

impl DeepView for IpProtocol {
    type V = Seq<char>;

    closed spec fn deep_view(&self) -> Seq<char> {
        self.name@
    }
}

impl IpProtocol {
    /// The name that `raw` spells, or why it spells none.
    pub open spec fn parsed(raw: Seq<char>) -> Result<Seq<char>, ValidationErrorView> {
        identified(raw, "ip protocol"@, 16, seq!['-'])
    }

    /// The name is a valid ip protocol.
    #[verifier::type_invariant]
    pub open spec fn valid(self) -> bool {
        Self::parsed(self.deep_view()) is Ok
    }

    /// Validates `raw` against this identifier's length and character rules;
    /// safe for `firewall-cmd` argument vectors afterwards.
    pub fn parse(raw: &str) -> (r: Result<Self, ValidationError>)
        ensures
            model::outcome(r) == Self::parsed(raw@),
    {
        let extra = ['-'];
        assert(extra@ =~= seq!['-']);
        match validate(raw, raw, "ip protocol", 16, &extra) {
            Ok(_) => Ok(IpProtocol { name: raw.to_owned() }),
            Err(e) => Err(e),
        }
    }

    /// The validated name as a string slice.
    pub fn as_str(&self) -> (r: &str)
        ensures
            r@ == self.deep_view(),
            Self::parsed(r@) == Ok::<Seq<char>, ValidationErrorView>(r@),
    {
        proof {
            use_type_invariant(self);
        }
        self.name.as_str()
    }
}

impl Value for IpProtocol {
    fn same(&self, other: &Self) -> (r: bool) {
        self.name == other.name
    }

    fn dup(&self) -> (r: Self) {
        proof {
            use_type_invariant(self);
        }
        IpProtocol { name: self.name.clone() }
    }
}

impl Name for IpProtocol {
    fn text(&self) -> (r: &str) {
        self.name.as_str()
    }
}

impl Clone for IpProtocol {
    fn clone(&self) -> (r: Self)
        ensures
            r.deep_view() == self.deep_view(),
    {
        self.dup()
    }
}

/// Maximum length firewalld accepts when creating a user policy. Shipped
/// policies may be longer, so observation uses [`PolicyName::parse`] while
/// creation paths use [`PolicyName::parse_user_created`].
pub const USER_POLICY_NAME_MAX: usize = 17;

/// A name for a new user-created policy, or why `raw` is none.
pub open spec fn user_created(raw: Seq<char>) -> Result<Seq<char>, ValidationErrorView> {
    match PolicyName::parsed(raw) {
        Err(e) => Err(e),
        Ok(name) => if text::utf8_len(name) > USER_POLICY_NAME_MAX {
            Err(
                ValidationErrorView::TooLong {
                    kind: "policy name"@,
                    value: raw,
                    max: USER_POLICY_NAME_MAX,
                },
            )
        } else {
            Ok(name)
        },
    }
}

impl PolicyName {
    /// Parses a policy name that will be passed to `--new-policy`.
    pub fn parse_user_created(raw: &str) -> (r: Result<Self, ValidationError>)
        ensures
            model::outcome(r) == user_created(raw@),
    {
        match Self::parse(raw) {
            Err(e) => Err(e),
            Ok(policy) => if text::byte_len(policy.as_str()) > USER_POLICY_NAME_MAX {
                Err(
                    ValidationError::TooLong {
                        kind: "policy name",
                        value: raw.to_owned(),
                        max: USER_POLICY_NAME_MAX,
                    },
                )
            } else {
                Ok(policy)
            },
        }
    }

    /// Whether this observed name is valid for a new user-created policy.
    pub fn is_user_creatable(&self) -> (r: bool)
        ensures
            r == (user_created(self.deep_view()) is Ok),
    {
        proof {
            use_type_invariant(self);
        }
        text::byte_len(self.as_str()) <= USER_POLICY_NAME_MAX
    }
}

proof fn no_offender_from(s: Seq<char>, extra: Seq<char>, i: int)
    requires
        0 <= i <= s.len(),
    ensures
        (offender_from(s, extra, i) is None) == (forall|j: int|
            i <= j < s.len() ==> text::alnum(#[trigger] s[j]) || extra.contains(s[j])),
    decreases s.len() - i,
{
    if i < s.len() {
        no_offender_from(s, extra, i + 1);
    }
}

/// A text is an identifier exactly if it is non-empty, at most `max` bytes
/// long and made of ASCII letters, digits and the characters of `extra`; it is
/// then kept as it stands. So an identifier is always one single argument.
pub proof fn identifiers_are_safe_tokens(
    raw: Seq<char>,
    kind: Seq<char>,
    max: usize,
    extra: Seq<char>,
)
    ensures
        (identified(raw, kind, max, extra) is Ok) == (raw.len() > 0 && text::utf8_len(raw) <= max && (
        forall|j: int|
            0 <= j < raw.len() ==> text::alnum(#[trigger] raw[j]) || extra.contains(raw[j]))),
        identified(raw, kind, max, extra) matches Ok(name) ==> name == raw,
{
    no_offender_from(raw, extra, 0);
}

/// Every name that a user may give a policy is a policy name, and the two
/// differ in length only.
pub proof fn user_created_names_are_policy_names(raw: Seq<char>)
    ensures
        user_created(raw) is Ok == (PolicyName::parsed(raw) is Ok && text::utf8_len(raw)
            <= USER_POLICY_NAME_MAX),
        user_created(raw) matches Ok(name) ==> name == raw,
{
}

/// The text is not empty, at most `max` bytes long, and made of ASCII letters,
/// digits and the further characters.
pub open spec fn token_of(raw: Seq<char>, max: int, further: Seq<char>) -> bool {
    &&& raw.len() > 0
    &&& text::utf8_len(raw) <= max
    &&& forall|j: int|
        0 <= j < raw.len() ==> ('a' <= #[trigger] raw[j] && raw[j] <= 'z') || ('A' <= raw[j]
            && raw[j] <= 'Z') || ('0' <= raw[j] && raw[j] <= '9') || further.contains(raw[j])
}

/// What each kind of name may look like. A name is kept as it stands.
pub proof fn names_are_tokens(raw: Seq<char>)
    ensures
        ZoneName::parsed(raw) is Ok == token_of(raw, 17, seq!['_', '-']),
        ZoneName::parsed(raw) matches Ok(name) ==> name == raw,
        ServiceName::parsed(raw) is Ok == token_of(raw, 64, seq!['_', '-', '.']),
        ServiceName::parsed(raw) matches Ok(name) ==> name == raw,
        InterfaceName::parsed(raw) is Ok == token_of(raw, 15, seq!['_', '-', '.', '@', ':']),
        InterfaceName::parsed(raw) matches Ok(name) ==> name == raw,
        IpSetName::parsed(raw) is Ok == token_of(raw, 64, seq!['_', '-', '.']),
        IpSetName::parsed(raw) matches Ok(name) ==> name == raw,
        IcmpType::parsed(raw) is Ok == token_of(raw, 32, seq!['_', '-']),
        IcmpType::parsed(raw) matches Ok(name) ==> name == raw,
        PolicyName::parsed(raw) is Ok == token_of(raw, 64, seq!['_', '-']),
        PolicyName::parsed(raw) matches Ok(name) ==> name == raw,
        PolicySetName::parsed(raw) is Ok == token_of(raw, 17, seq!['_', '-']),
        PolicySetName::parsed(raw) matches Ok(name) ==> name == raw,
        IpProtocol::parsed(raw) is Ok == token_of(raw, 16, seq!['-']),
        IpProtocol::parsed(raw) matches Ok(name) ==> name == raw,
{
    identifiers_are_safe_tokens(raw, "zone name"@, 17, seq!['_', '-']);
    identifiers_are_safe_tokens(raw, "service name"@, 64, seq!['_', '-', '.']);
    identifiers_are_safe_tokens(raw, "interface name"@, 15, seq!['_', '-', '.', '@', ':']);
    identifiers_are_safe_tokens(raw, "ipset name"@, 64, seq!['_', '-', '.']);
    identifiers_are_safe_tokens(raw, "icmp type"@, 32, seq!['_', '-']);
    identifiers_are_safe_tokens(raw, "policy name"@, 64, seq!['_', '-']);
    identifiers_are_safe_tokens(raw, "policy-set name"@, 17, seq!['_', '-']);
    identifiers_are_safe_tokens(raw, "ip protocol"@, 16, seq!['-']);
}

} // verus!
