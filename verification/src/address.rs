//! Source addresses as accepted by firewalld zone bindings.

use vstd::prelude::*;

use crate::ids::{IpSetName, ValidationError, ValidationErrorView};
use crate::ip;
use crate::ip::IpAddr;
use crate::model;
use crate::model::Value;
use crate::number;
use crate::text;

verus! {

/// IP protocol family of a source address.
#[derive(Debug, Clone, Copy, PartialEq, Eq, Structural)]
pub enum AddressFamily {
    /// IPv4.
    Ipv4,
    /// IPv6.
    Ipv6,
}

impl DeepView for AddressFamily {
    type V = AddressFamily;

    open spec fn deep_view(&self) -> AddressFamily {
        *self
    }
}

impl Value for AddressFamily {
    fn same(&self, other: &Self) -> (r: bool) {
        *self == *other
    }

    fn dup(&self) -> (r: Self) {
        *self
    }
}

impl AddressFamily {
    /// The text of each variant.
    pub open spec fn spelled(self) -> Seq<char> {
        match self {
            AddressFamily::Ipv4 => "ipv4"@,
            AddressFamily::Ipv6 => "ipv6"@,
        }
    }

    /// The lowercase spelling firewalld uses (`"ipv4"` / `"ipv6"`).
    pub fn as_str(self) -> (r: &'static str)
        ensures
            r@ == self.spelled(),
    {
        match self {
            AddressFamily::Ipv4 => "ipv4",
            AddressFamily::Ipv6 => "ipv6",
        }
    }
}

/// A zone source binding: IP/CIDR, MAC address, or `ipset:<name>`.
#[derive(Debug, PartialEq, Eq, PartialOrd, Ord)]
pub enum SourceAddress {
    /// An IP address, optionally with a CIDR prefix length.
    Ip {
        /// The address itself.
        addr: IpAddr,
        /// CIDR prefix length; `None` means a plain host address.
        prefix: Option<u8>,
    },
    /// A MAC address in `aa:bb:cc:dd:ee:ff` form.
    Mac(String),
    /// A reference to a firewalld ipset.
    IpSet(IpSetName),
}

/// What a `SourceAddress` models.
#[verifier::ext_equal]
pub enum SourceAddressView {
    Ip { addr: IpAddr, prefix: Option<u8> },
    Mac(Seq<char>),
    IpSet(Seq<char>),
}

impl DeepView for SourceAddress {
    type V = SourceAddressView;

    open spec fn deep_view(&self) -> SourceAddressView {
        match self {
            SourceAddress::Ip { addr, prefix } => SourceAddressView::Ip {
                addr: addr.deep_view(),
                prefix: prefix.deep_view(),
            },
            SourceAddress::Mac(x0) => SourceAddressView::Mac(x0.deep_view()),
            SourceAddress::IpSet(x0) => SourceAddressView::IpSet(x0.deep_view()),
        }
    }
}

impl Value for SourceAddress {
    fn same(&self, other: &Self) -> (r: bool) {
        match (self, other) {
            (
                SourceAddress::Ip { addr, prefix },
                SourceAddress::Ip { addr: addr_other, prefix: prefix_other },
            ) => *addr == *addr_other && prefix.same(prefix_other),
            (SourceAddress::Mac(x0), SourceAddress::Mac(x0_other)) => x0.same(x0_other),
            (SourceAddress::IpSet(x0), SourceAddress::IpSet(x0_other)) => x0.same(x0_other),
            _ => false,
        }
    }

    fn dup(&self) -> (r: Self) {
        match self {
            SourceAddress::Ip { addr, prefix } => SourceAddress::Ip {
                addr: *addr,
                prefix: prefix.dup(),
            },
            SourceAddress::Mac(x0) => SourceAddress::Mac(x0.dup()),
            SourceAddress::IpSet(x0) => SourceAddress::IpSet(x0.dup()),
        }
    }
}

impl Clone for SourceAddress {
    fn clone(&self) -> (r: Self)
        ensures
            r.deep_view() == self.deep_view(),
    {
        self.dup()
    }
}

/// Six colon-separated pairs of hex digits (`aa:bb:cc:dd:ee:ff`).
pub open spec fn mac(s: Seq<char>) -> bool {
    let p = text::pieces(s, ':');
    p.len() == 6 && forall|i: int| 0 <= i < 6 ==> (#[trigger] p[i]).len() == 2 && ip::all_hex(p[i])
}

fn is_mac(raw: &str) -> (r: bool)
    ensures
        r == mac(raw@),
{
    let parts = text::split(raw, ':');
    let ghost p = parts.deep_view();
    if parts.len() != 6 {
        return false;
    }
    let mut i: usize = 0;
    while i < 6
        invariant
            i <= 6,
            parts@.len() == 6,
            p == parts.deep_view(),
            p == text::pieces(raw@, ':'),
            forall|j: int| 0 <= j < i ==> (#[trigger] p[j]).len() == 2 && ip::all_hex(p[j]),
        decreases 6 - i,
    {
        let chars = text::chars_of(parts[i]);
        assert(p[i as int] == chars@);
        if chars.len() != 2 {
            return false;
        }
        let hex = text::is_hex_digit(chars[0]) && text::is_hex_digit(chars[1]);
        if !hex {
            assert(!text::hex_digit(p[i as int][0]) || !text::hex_digit(p[i as int][1]));
            return false;
        }
        i = i + 1;
    }
    true
}

impl SourceAddressView {
    /// The source that an IP address with an optional prefix length makes.
    pub open spec fn of_ip(raw: Seq<char>, ip_part: Seq<char>, prefix: Option<u8>) -> Result<
        SourceAddressView,
        ValidationErrorView,
    > {
        match ip::address(ip_part) {
            None => Err(ValidationErrorView::InvalidSource(raw)),
            Some(addr) => {
                let max: u8 = if addr is V4 {
                    32
                } else {
                    128
                };
                if prefix is Some && prefix->0 > max {
                    Err(ValidationErrorView::InvalidSource(raw))
                } else {
                    Ok(SourceAddressView::Ip { addr, prefix })
                }
            },
        }
    }

    /// The source that a text spells.
    pub open spec fn parsed(raw: Seq<char>) -> Result<SourceAddressView, ValidationErrorView> {
        match text::stripped(raw, "ipset:"@) {
            Some(name) => match IpSetName::parsed(name) {
                Ok(name) => Ok(SourceAddressView::IpSet(name)),
                Err(e) => Err(e),
            },
            None => if mac(raw) {
                Ok(SourceAddressView::Mac(raw))
            } else {
                match text::parted(raw, "/"@) {
                    Some((ip_part, p)) => match number::unsigned(p, 255) {
                        Some(prefix) => Self::of_ip(raw, ip_part, Some(prefix as u8)),
                        None => Err(ValidationErrorView::InvalidSource(raw)),
                    },
                    None => Self::of_ip(raw, raw, None),
                }
            },
        }
    }

    /// The text of the source.
    pub open spec fn spelled(self) -> Seq<char> {
        match self {
            SourceAddressView::Ip { addr, prefix } => match prefix {
                Some(p) => addr.spelled() + "/"@ + number::decimal(p as nat),
                None => addr.spelled(),
            },
            SourceAddressView::Mac(mac) => mac,
            SourceAddressView::IpSet(name) => "ipset:"@ + name,
        }
    }

    /// The IP family, or `None` for MAC and ipset sources.
    pub open spec fn family(self) -> Option<AddressFamily> {
        match self {
            SourceAddressView::Ip { addr, .. } => if addr is V4 {
                Some(AddressFamily::Ipv4)
            } else {
                Some(AddressFamily::Ipv6)
            },
            _ => None,
        }
    }
}

impl SourceAddress {
    fn of_ip(raw: &str, ip_part: &str, prefix: Option<u8>) -> (r: Result<Self, ValidationError>)
        ensures
            model::outcome(r) == SourceAddressView::of_ip(raw@, ip_part@, prefix),
    {
        match IpAddr::parse(ip_part) {
            None => Err(ValidationError::InvalidSource(raw.to_owned())),
            Some(addr) => {
                let max: u8 = if addr.is_ipv4() {
                    32
                } else {
                    128
                };
                if let Some(p) = prefix {
                    if p > max {
                        return Err(ValidationError::InvalidSource(raw.to_owned()));
                    }
                }
                Ok(SourceAddress::Ip { addr, prefix })
            },
        }
    }

    /// Parses an IP/CIDR, MAC, or `ipset:<name>` string. Prefix lengths are
    /// checked against the family (max 32 for IPv4, 128 for IPv6).
    pub fn parse(raw: &str) -> (r: Result<Self, ValidationError>)
        ensures
            model::outcome(r) == SourceAddressView::parsed(raw@),
    {
        if let Some(name) = text::strip_prefix(raw, "ipset:") {
            return match IpSetName::parse(name) {
                Ok(name) => Ok(SourceAddress::IpSet(name)),
                Err(e) => Err(e),
            };
        }
        if is_mac(raw) {
            return Ok(SourceAddress::Mac(raw.to_owned()));
        }
        match text::split_once(raw, "/") {
            Some((ip_part, p)) => match number::parse_unsigned(p, 255) {
                Some(prefix) => Self::of_ip(raw, ip_part, Some(prefix as u8)),
                None => Err(ValidationError::InvalidSource(raw.to_owned())),
            },
            None => Self::of_ip(raw, raw, None),
        }
    }

    /// The IP family, or `None` for MAC and ipset sources.
    pub fn family(&self) -> (r: Option<AddressFamily>)
        ensures
            r == self.deep_view().family(),
    {
        match self {
            SourceAddress::Ip { addr, .. } => Some(
                if addr.is_ipv4() {
                    AddressFamily::Ipv4
                } else {
                    AddressFamily::Ipv6
                },
            ),
            SourceAddress::Mac(_) => None,
            SourceAddress::IpSet(_) => None,
        }
    }

    /// The text of the source, from which every valid source reads back.
    pub fn show(&self) -> (r: String)
        ensures
            r@ == self.deep_view().spelled(),
            self.deep_view().valid() ==> SourceAddressView::parsed(r@) == Ok::<
                SourceAddressView,
                ValidationErrorView,
            >(self.deep_view()),
    {
        proof {
            if self.deep_view().valid() {
                source_reads_back(self.deep_view());
            }
        }
        match self {
            SourceAddress::Ip { addr, prefix } => {
                let shown = addr.show();
                match prefix {
                    Some(p) => {
                        let length = number::show(*p as u64);
                        text::cat3(shown.as_str(), "/", length.as_str())
                    },
                    None => shown,
                }
            },
            SourceAddress::Mac(mac) => mac.clone(),
            SourceAddress::IpSet(name) => text::cat2("ipset:", name.as_str()),
        }
    }
}

impl SourceAddressView {
    /// The prefix length suits the family, a MAC address has its form, and an
    /// ipset has a valid name.
    pub open spec fn valid(self) -> bool {
        match self {
            SourceAddressView::Ip { addr, prefix } => match prefix {
                Some(p) => p <= if addr is V4 {
                    32int
                } else {
                    128
                },
                None => true,
            },
            SourceAddressView::Mac(m) => mac(m),
            SourceAddressView::IpSet(name) => IpSetName::parsed(name) == Ok::<
                Seq<char>,
                ValidationErrorView,
            >(name),
        }
    }
}

/// Reading gives valid sources only.
pub proof fn parsed_source_is_valid(raw: Seq<char>)
    ensures
        SourceAddressView::parsed(raw) matches Ok(source) ==> source.valid(),
{
}

proof fn ip_text_is_plain(addr: IpAddr, suffix: Seq<char>)
    requires
        text::free_of(suffix, ':'),
    ensures
        text::stripped(addr.spelled() + suffix, "ipset:"@) is None,
        !mac(addr.spelled() + suffix),
{
    let s = addr.spelled() + suffix;
    ip::address_text_shape(addr);
    reveal_strlit("ipset:");
    assert(s[0] == addr.spelled()[0]);
    if text::occurs_at(s, "ipset:"@, 0) {
        text::occurs_char(s, "ipset:"@, 0, 0);
    }
    ip::address_pieces(addr, suffix);
    if mac(s) {
        let p = text::pieces(s, ':');
        assert forall|k: int| 0 <= k < p.len() implies (#[trigger] p[k]).len() != 0 by {}
    }
}

/// Every valid source reads back from its text.
pub proof fn source_reads_back(source: SourceAddressView)
    requires
        source.valid(),
    ensures
        SourceAddressView::parsed(source.spelled()) == Ok::<SourceAddressView, ValidationErrorView>(
            source,
        ),
{
    let s = source.spelled();
    match source {
        SourceAddressView::Ip { addr, prefix } => {
            let shown = addr.spelled();
            ip::address_reads_back(addr);
            ip::address_text_shape(addr);
            reveal_strlit("/");
            assert("/"@ =~= seq!['/']);
            match prefix {
                Some(p) => {
                    let digits = number::decimal(p as nat);
                    let suffix = seq!['/'] + digits;
                    number::decimal_free_of(p as nat, ':');
                    assert forall|i: int| 0 <= i < suffix.len() implies #[trigger] suffix[i]
                        != ':' by {
                        if i > 0 {
                            assert(suffix[i] == digits[i - 1]);
                        }
                    }
                    ip_text_is_plain(addr, suffix);
                    assert(s =~= shown + suffix);
                    text::parted_at_char(shown, '/', digits);
                    assert(s =~= shown + seq!['/'] + digits);
                    number::unsigned_reads_back(p as nat, 255);
                },
                None => {
                    ip_text_is_plain(addr, Seq::empty());
                    assert(s =~= shown + Seq::<char>::empty());
                    text::parted_without_char(shown, '/');
                },
            }
        },
        SourceAddressView::Mac(m) => {
            reveal_strlit("ipset:");
            let p = text::pieces(m, ':');
            text::next_sep_facts(m, ':', 0);
            let e = text::next_sep(m, ':', 0);
            assert(p[0].len() == 2 && ip::all_hex(p[0]));
            assert(text::hex_digit(p[0][0]));
            assert(e == 2);
            assert(m[0] == p[0][0]);
            if text::occurs_at(m, "ipset:"@, 0) {
                text::occurs_char(m, "ipset:"@, 0, 0);
            }
        },
        SourceAddressView::IpSet(name) => {
            let pat = "ipset:"@;
            assert(s.subrange(0, pat.len() as int) =~= pat);
            assert(s.skip(pat.len() as int) =~= name);
        },
    }
}

/// One ipset entry, stored verbatim. firewalld validates it against the set's
/// declared type — `hash:ip` (`203.0.113.9`), `hash:net` (`10.0.0.0/8`),
/// `hash:ip,port` (`1.2.3.4,tcp:80`), `hash:net,iface` (`10.0.0.0/8,eth0`),
/// `hash:mac` (`aa:bb:cc:dd:ee:ff`), … — so fwdeck does not re-implement that
/// grammar. It only enforces that the entry is a single safe token (non-empty,
/// no whitespace, no control characters, bounded length), which keeps it sound
/// in an argument vector and in the audit trail. Unlike [`SourceAddress`] this
/// admits the compound entry forms.
#[derive(Debug, PartialEq, Eq, PartialOrd, Ord)]
pub struct IpSetEntry {
    entry: String,
}

impl DeepView for IpSetEntry {
    type V = Seq<char>;

    closed spec fn deep_view(&self) -> Seq<char> {
        self.entry@
    }
}

/// One to 255 bytes without white space or control characters.
pub open spec fn safe_token(s: Seq<char>) -> bool {
    &&& s.len() > 0
    &&& text::utf8_len(s) <= 255
    &&& forall|i: int| 0 <= i < s.len() ==> !text::white(#[trigger] s[i]) && !text::control(s[i])
}

impl IpSetEntry {
    /// The entry that `raw` spells, without the white space around it.
    pub open spec fn parsed(raw: Seq<char>) -> Result<Seq<char>, ValidationErrorView> {
        if safe_token(text::trimmed(raw)) {
            Ok(text::trimmed(raw))
        } else {
            Err(ValidationErrorView::InvalidIpSetEntry(raw))
        }
    }

    /// The entry is a single safe token.
    #[verifier::type_invariant]
    pub open spec fn valid(self) -> bool {
        safe_token(self.deep_view())
    }

    /// Validates an ipset entry as a single safe token; firewalld remains the
    /// authority on the type-specific grammar.
    pub fn parse(raw: &str) -> (r: Result<Self, ValidationError>)
        ensures
            model::outcome(r) == Self::parsed(raw@),
    {
        let trimmed = text::trim(raw);
        let chars = text::chars_of(trimmed);
        if chars.len() == 0 || text::byte_len(trimmed) > 255 {
            return Err(ValidationError::InvalidIpSetEntry(raw.to_owned()));
        }
        let mut i: usize = 0;
        while i < chars.len()
            invariant
                chars@ == trimmed@,
                trimmed@ == text::trimmed(raw@),
                i <= chars@.len(),
                forall|j: int|
                    0 <= j < i ==> !text::white(#[trigger] trimmed@[j]) && !text::control(
                        trimmed@[j],
                    ),
            decreases chars.len() - i,
        {
            if text::is_white(chars[i]) || text::is_control(chars[i]) {
                assert(text::white(trimmed@[i as int]) || text::control(trimmed@[i as int]));
                return Err(ValidationError::InvalidIpSetEntry(raw.to_owned()));
            }
            i = i + 1;
        }
        Ok(IpSetEntry { entry: trimmed.to_owned() })
    }

    /// The validated entry as a string slice.
    pub fn as_str(&self) -> (r: &str)
        ensures
            r@ == self.deep_view(),
            safe_token(r@),
            Self::parsed(r@) == Ok::<Seq<char>, ValidationErrorView>(r@),
    {
        proof {
            use_type_invariant(self);
            text::tokens_stay_whole(self.deep_view());
        }
        self.entry.as_str()
    }
}

impl Value for IpSetEntry {
    fn same(&self, other: &Self) -> (r: bool) {
        self.entry == other.entry
    }

    fn dup(&self) -> (r: Self) {
        proof {
            use_type_invariant(self);
        }
        IpSetEntry { entry: self.entry.clone() }
    }
}

impl Clone for IpSetEntry {
    fn clone(&self) -> (r: Self)
        ensures
            r.deep_view() == self.deep_view(),
    {
        self.dup()
    }
}

} // verus!
