//! Conservative translation of legacy direct rules into policy-attached rich
//! rules. Unsupported syntax fails closed: the assistant never guesses at a
//! netfilter expression outside its mechanically translatable subset.

use vstd::prelude::*;

use crate::address::{AddressFamily, SourceAddress, SourceAddressView};
use crate::ids::PolicyName;
use crate::model;
use crate::model::Value;
use crate::number;
use crate::port::{PortSpec, PortSpecView};
use crate::rich_rule;
use crate::rich_rule::RichRule;
use crate::text;

pub mod meaning;

verus! {

/// A base netfilter direction that has an exact firewalld policy-zone mapping.
#[derive(Debug, Clone, Copy, PartialEq, Eq, Structural)]
pub enum DirectChain {
    /// Traffic from any regular zone to the local host.
    Input,
    /// Traffic from the local host to any regular zone.
    Output,
    /// Traffic forwarded between regular zones.
    Forward,
}

impl DeepView for DirectChain {
    type V = DirectChain;

    open spec fn deep_view(&self) -> DirectChain {
        *self
    }
}

impl Value for DirectChain {
    fn same(&self, other: &Self) -> (r: bool) {
        *self == *other
    }

    fn dup(&self) -> (r: Self) {
        *self
    }
}

impl DirectChain {
    /// The text of each variant.
    pub open spec fn spelled(self) -> Seq<char> {
        match self {
            DirectChain::Input => "INPUT"@,
            DirectChain::Output => "OUTPUT"@,
            DirectChain::Forward => "FORWARD"@,
        }
    }

    /// Direct chain spelling.
    pub fn as_str(self) -> (r: &'static str)
        ensures
            r@ == self.spelled(),
    {
        match self {
            DirectChain::Input => "INPUT",
            DirectChain::Output => "OUTPUT",
            DirectChain::Forward => "FORWARD",
        }
    }
}

impl DirectChain {
    pub open spec fn ingress(self) -> Seq<char> {
        match self {
            DirectChain::Input => "ANY"@,
            DirectChain::Output => "HOST"@,
            DirectChain::Forward => "ANY"@,
        }
    }

    /// Policy ingress symbolic zone.
    pub fn ingress_zone(self) -> (r: &'static str)
        ensures
            r@ == self.ingress(),
    {
        match self {
            DirectChain::Input => "ANY",
            DirectChain::Output => "HOST",
            DirectChain::Forward => "ANY",
        }
    }
}

impl DirectChain {
    pub open spec fn egress(self) -> Seq<char> {
        match self {
            DirectChain::Input => "HOST"@,
            DirectChain::Output => "ANY"@,
            DirectChain::Forward => "ANY"@,
        }
    }

    /// Policy egress symbolic zone.
    pub fn egress_zone(self) -> (r: &'static str)
        ensures
            r@ == self.egress(),
    {
        match self {
            DirectChain::Input => "HOST",
            DirectChain::Output => "ANY",
            DirectChain::Forward => "ANY",
        }
    }
}

/// A direct rule whose meaning fits the verified migration subset.
#[derive(Debug, PartialEq, Eq)]
pub struct DirectRuleTranslation {
    /// Original line returned by `--direct --get-all-rules`.
    pub source_rule: String,
    /// IP family applied to the generated rich rule.
    pub family: AddressFamily,
    /// Netfilter direction and corresponding policy-zone mapping.
    pub chain: DirectChain,
    /// Original direct priority, preserved as rich-rule priority.
    pub priority: i16,
    /// Validated rich-language replacement.
    pub rich_rule: RichRule,
}

/// What a `DirectRuleTranslation` models.
#[verifier::ext_equal]
pub struct DirectRuleTranslationView {
    pub source_rule: Seq<char>,
    pub family: AddressFamily,
    pub chain: DirectChain,
    pub priority: i16,
    pub rich_rule: Seq<char>,
}

impl DeepView for DirectRuleTranslation {
    type V = DirectRuleTranslationView;

    open spec fn deep_view(&self) -> DirectRuleTranslationView {
        DirectRuleTranslationView {
            source_rule: self.source_rule.deep_view(),
            family: self.family.deep_view(),
            chain: self.chain.deep_view(),
            priority: self.priority.deep_view(),
            rich_rule: self.rich_rule.deep_view(),
        }
    }
}

impl Value for DirectRuleTranslation {
    fn same(&self, other: &Self) -> (r: bool) {
        self.source_rule.same(&other.source_rule)
            && self.family == other.family
            && self.chain == other.chain
            && self.priority == other.priority
            && self.rich_rule.same(&other.rich_rule)
    }

    fn dup(&self) -> (r: Self) {
        DirectRuleTranslation {
            source_rule: self.source_rule.dup(),
            family: self.family,
            chain: self.chain,
            priority: self.priority,
            rich_rule: self.rich_rule.dup(),
        }
    }
}

impl Clone for DirectRuleTranslation {
    fn clone(&self) -> (r: Self)
        ensures
            r.deep_view() == self.deep_view(),
    {
        self.dup()
    }
}

/// One additive migration operation. The legacy rule deliberately remains in
/// place until the operator reloads and validates the replacement policy.
#[derive(Debug, PartialEq, Eq)]
pub struct DirectPolicyMigration {
    /// New permanent policy name.
    policy: PolicyName,
    /// Auditable source rule; never executed or reconstructed.
    source_rule: String,
    /// Policy ingress zone (`ANY` or `HOST`).
    ingress_zone: String,
    /// Policy egress zone (`ANY` or `HOST`).
    egress_zone: String,
    /// Mechanically generated rich-rule candidate.
    rich_rule: RichRule,
}

/// What a `DirectPolicyMigration` models.
#[verifier::ext_equal]
pub struct DirectPolicyMigrationView {
    pub policy: Seq<char>,
    pub source_rule: Seq<char>,
    pub ingress_zone: Seq<char>,
    pub egress_zone: Seq<char>,
    pub rich_rule: Seq<char>,
}

impl DeepView for DirectPolicyMigration {
    type V = DirectPolicyMigrationView;

    closed spec fn deep_view(&self) -> DirectPolicyMigrationView {
        DirectPolicyMigrationView {
            policy: self.policy.deep_view(),
            source_rule: self.source_rule.deep_view(),
            ingress_zone: self.ingress_zone.deep_view(),
            egress_zone: self.egress_zone.deep_view(),
            rich_rule: self.rich_rule.deep_view(),
        }
    }
}

impl Value for DirectPolicyMigration {
    fn same(&self, other: &Self) -> (r: bool) {
        self.policy.same(&other.policy)
            && self.source_rule.same(&other.source_rule)
            && self.ingress_zone.same(&other.ingress_zone)
            && self.egress_zone.same(&other.egress_zone)
            && self.rich_rule.same(&other.rich_rule)
    }

    fn dup(&self) -> (r: Self) {
        DirectPolicyMigration {
            policy: self.policy.dup(),
            source_rule: self.source_rule.dup(),
            ingress_zone: self.ingress_zone.dup(),
            egress_zone: self.egress_zone.dup(),
            rich_rule: self.rich_rule.dup(),
        }
    }
}

impl Clone for DirectPolicyMigration {
    fn clone(&self) -> (r: Self)
        ensures
            r.deep_view() == self.deep_view(),
    {
        self.dup()
    }
}

impl DirectRuleTranslationView {
    /// The translation bound to a new policy.
    pub open spec fn migration(self, policy: Seq<char>) -> DirectPolicyMigrationView {
        DirectPolicyMigrationView {
            policy,
            source_rule: self.source_rule,
            ingress_zone: self.chain.ingress(),
            egress_zone: self.chain.egress(),
            rich_rule: self.rich_rule,
        }
    }
}

impl DirectRuleTranslation {
    /// Binds a reviewed translation to a new user-created policy.
    pub fn into_migration(self, policy: PolicyName) -> (r: DirectPolicyMigration)
        ensures
            r.deep_view() == self.deep_view().migration(policy.deep_view()),
    {
        DirectPolicyMigration {
            policy,
            source_rule: self.source_rule,
            ingress_zone: self.chain.ingress_zone().to_owned(),
            egress_zone: self.chain.egress_zone().to_owned(),
            rich_rule: self.rich_rule,
        }
    }
}

impl DirectPolicyMigration {
    /// New policy name.
    pub fn policy(&self) -> (r: &PolicyName)
        ensures
            r.deep_view() == self.deep_view().policy,
    {
        &self.policy
    }

    /// Original direct-rule line retained for audit and stale-state checks.
    pub fn source_rule(&self) -> (r: &str)
        ensures
            r@ == self.deep_view().source_rule,
    {
        self.source_rule.as_str()
    }

    /// Policy ingress zone.
    pub fn ingress_zone(&self) -> (r: &str)
        ensures
            r@ == self.deep_view().ingress_zone,
    {
        self.ingress_zone.as_str()
    }

    /// Policy egress zone.
    pub fn egress_zone(&self) -> (r: &str)
        ensures
            r@ == self.deep_view().egress_zone,
    {
        self.egress_zone.as_str()
    }

    /// Generated rich rule.
    pub fn rich_rule(&self) -> (r: &RichRule)
        ensures
            r.deep_view() == self.deep_view().rich_rule,
    {
        &self.rich_rule
    }
}

/// Why a direct rule cannot be translated without operator judgment.
#[derive(Debug, PartialEq, Eq)]
pub struct DirectMigrationError {
    reason: String,
}

impl DeepView for DirectMigrationError {
    type V = Seq<char>;

    closed spec fn deep_view(&self) -> Seq<char> {
        self.reason@
    }
}

impl Value for DirectMigrationError {
    fn same(&self, other: &Self) -> (r: bool) {
        self.reason == other.reason
    }

    fn dup(&self) -> (r: Self) {
        DirectMigrationError { reason: self.reason.clone() }
    }
}

impl Clone for DirectMigrationError {
    fn clone(&self) -> (r: Self)
        ensures
            r.deep_view() == self.deep_view(),
    {
        self.dup()
    }
}

impl DirectMigrationError {
    fn unsupported(reason: &str) -> (r: Self)
        ensures
            r.deep_view() == reason@,
    {
        DirectMigrationError { reason: reason.to_owned() }
    }

    fn of(reason: String) -> (r: Self)
        ensures
            r.deep_view() == reason@,
    {
        DirectMigrationError { reason }
    }

    /// The reason, as a sentence for the operator.
    pub fn message(&self) -> (r: &str)
        ensures
            r@ == self.deep_view(),
    {
        self.reason.as_str()
    }
}

/// A character that quotes, escapes or controls.
pub open spec fn unsafe_char(c: char) -> bool {
    text::control(c) || c == '\'' || c == '"' || c == '\\'
}

/// A character of `s` quotes, escapes or controls.
pub open spec fn unsafe_token(s: Seq<char>) -> bool {
    exists|i: int| 0 <= i < s.len() && unsafe_char(#[trigger] s[i])
}

/// One of the tokens holds a character that quotes, escapes or controls.
pub open spec fn unsafe_tokens(tokens: Seq<Seq<char>>) -> bool {
    exists|i: int| 0 <= i < tokens.len() && unsafe_token(#[trigger] tokens[i])
}

fn is_unsafe_token(s: &str) -> (r: bool)
    ensures
        r == unsafe_token(s@),
{
    let chars = text::chars_of(s);
    let mut i: usize = 0;
    while i < chars.len()
        invariant
            chars@ == s@,
            i <= chars@.len(),
            forall|j: int| 0 <= j < i ==> !unsafe_char(#[trigger] s@[j]),
        decreases chars.len() - i,
    {
        let c = chars[i];
        if text::is_control(c) || c == '\'' || c == '"' || c == '\\' {
            assert(unsafe_char(s@[i as int]));
            return true;
        }
        i = i + 1;
    }
    false
}

fn has_unsafe_token(tokens: &Vec<&str>) -> (r: bool)
    ensures
        r == unsafe_tokens(tokens.deep_view()),
{
    let ghost shown = tokens.deep_view();
    let mut i: usize = 0;
    while i < tokens.len()
        invariant
            shown == tokens.deep_view(),
            i <= tokens@.len(),
            forall|j: int| 0 <= j < i ==> !unsafe_token(#[trigger] shown[j]),
        decreases tokens.len() - i,
    {
        if is_unsafe_token(tokens[i]) {
            assert(unsafe_token(shown[i as int]));
            return true;
        }
        i = i + 1;
    }
    false
}

/// Family, chain and priority at the start of a direct rule.
pub open spec fn header_of(tokens: Seq<Seq<char>>) -> Result<
    (AddressFamily, DirectChain, i16),
    Seq<char>,
> {
    if tokens[0] != "ipv4"@ && tokens[0] != "ipv6"@ {
        Err("family `"@ + tokens[0] + "` has no safe policy translation"@)
    } else if tokens[1] != "filter"@ {
        Err("table `"@ + tokens[1] + "` requires manual migration"@)
    } else if tokens[2] != "INPUT"@ && tokens[2] != "OUTPUT"@ && tokens[2] != "FORWARD"@ {
        Err("custom chain `"@ + tokens[2] + "` requires manual direction mapping"@)
    } else {
        match number::signed(tokens[3], 32767) {
            None => Err("direct priority is outside the rich-rule range -32768..=32767"@),
            Some(n) => Ok(
                (
                    if tokens[0] == "ipv4"@ {
                        AddressFamily::Ipv4
                    } else {
                        AddressFamily::Ipv6
                    },
                    if tokens[2] == "INPUT"@ {
                        DirectChain::Input
                    } else if tokens[2] == "OUTPUT"@ {
                        DirectChain::Output
                    } else {
                        DirectChain::Forward
                    },
                    n as i16,
                ),
            ),
        }
    }
}

fn parse_header(tokens: &Vec<&str>) -> (r: Result<
    (AddressFamily, DirectChain, i16),
    DirectMigrationError,
>)
    requires
        tokens.len() >= 4,
    ensures
        match r {
            Ok(h) => header_of(tokens.deep_view()) == Ok::<
                (AddressFamily, DirectChain, i16),
                Seq<char>,
            >(h),
            Err(e) => header_of(tokens.deep_view()) == Err::<
                (AddressFamily, DirectChain, i16),
                Seq<char>,
            >(e.deep_view()),
        },
{
    let family = if text::same(tokens[0], "ipv4") {
        AddressFamily::Ipv4
    } else if text::same(tokens[0], "ipv6") {
        AddressFamily::Ipv6
    } else {
        return Err(
            DirectMigrationError::of(
                text::cat3("family `", tokens[0], "` has no safe policy translation"),
            ),
        );
    };
    if !text::same(tokens[1], "filter") {
        return Err(
            DirectMigrationError::of(
                text::cat3("table `", tokens[1], "` requires manual migration"),
            ),
        );
    }
    let chain = if text::same(tokens[2], "INPUT") {
        DirectChain::Input
    } else if text::same(tokens[2], "OUTPUT") {
        DirectChain::Output
    } else if text::same(tokens[2], "FORWARD") {
        DirectChain::Forward
    } else {
        return Err(
            DirectMigrationError::of(
                text::cat3("custom chain `", tokens[2], "` requires manual direction mapping"),
            ),
        );
    };
    match number::parse_signed(tokens[3], 32767) {
        None => Err(
            DirectMigrationError::unsupported(
                "direct priority is outside the rich-rule range -32768..=32767",
            ),
        ),
        Some(n) => Ok((family, chain, n as i16)),
    }
}

/// The options of a direct rule that can be translated.
#[derive(Debug, Clone, Copy, PartialEq, Eq, Structural)]
pub enum DirectOption {
    /// `-p`: the protocol.
    Protocol,
    /// `-m`: the match module.
    Module,
    /// `-s`: the source address.
    Source,
    /// `-d`: the destination address.
    Destination,
    /// `--sport`: the source port.
    SourcePort,
    /// `--dport`: the destination port.
    DestinationPort,
    /// `-j`: the action.
    Action,
    /// `--reject-with`: how to reject.
    RejectType,
}

/// The option that a token names.
pub open spec fn option_of(token: Seq<char>) -> Option<DirectOption> {
    if token == "-p"@ || token == "--protocol"@ {
        Some(DirectOption::Protocol)
    } else if token == "-m"@ || token == "--match"@ {
        Some(DirectOption::Module)
    } else if token == "-s"@ || token == "--source"@ {
        Some(DirectOption::Source)
    } else if token == "-d"@ || token == "--destination"@ {
        Some(DirectOption::Destination)
    } else if token == "--sport"@ || token == "--source-port"@ {
        Some(DirectOption::SourcePort)
    } else if token == "--dport"@ || token == "--destination-port"@ {
        Some(DirectOption::DestinationPort)
    } else if token == "-j"@ || token == "--jump"@ {
        Some(DirectOption::Action)
    } else if token == "--reject-with"@ {
        Some(DirectOption::RejectType)
    } else {
        None
    }
}

fn parse_option(token: &str) -> (r: Option<DirectOption>)
    ensures
        r == option_of(token@),
{
    if text::same(token, "-p") || text::same(token, "--protocol") {
        Some(DirectOption::Protocol)
    } else if text::same(token, "-m") || text::same(token, "--match") {
        Some(DirectOption::Module)
    } else if text::same(token, "-s") || text::same(token, "--source") {
        Some(DirectOption::Source)
    } else if text::same(token, "-d") || text::same(token, "--destination") {
        Some(DirectOption::Destination)
    } else if text::same(token, "--sport") || text::same(token, "--source-port") {
        Some(DirectOption::SourcePort)
    } else if text::same(token, "--dport") || text::same(token, "--destination-port") {
        Some(DirectOption::DestinationPort)
    } else if text::same(token, "-j") || text::same(token, "--jump") {
        Some(DirectOption::Action)
    } else if text::same(token, "--reject-with") {
        Some(DirectOption::RejectType)
    } else {
        None
    }
}

/// The values of the options that were read so far.
#[derive(Debug, PartialEq, Eq)]
struct DirectArguments {
    protocol: Option<String>,
    module: Option<String>,
    source: Option<String>,
    destination: Option<String>,
    source_port: Option<String>,
    destination_port: Option<String>,
    action: Option<String>,
    reject_type: Option<String>,
}

/// What a `DirectArguments` models.
#[verifier::ext_equal]
pub struct DirectArgumentsView {
    pub protocol: Option<Seq<char>>,
    pub module: Option<Seq<char>>,
    pub source: Option<Seq<char>>,
    pub destination: Option<Seq<char>>,
    pub source_port: Option<Seq<char>>,
    pub destination_port: Option<Seq<char>>,
    pub action: Option<Seq<char>>,
    pub reject_type: Option<Seq<char>>,
}

impl DeepView for DirectArguments {
    type V = DirectArgumentsView;

    closed spec fn deep_view(&self) -> DirectArgumentsView {
        DirectArgumentsView {
            protocol: self.protocol.deep_view(),
            module: self.module.deep_view(),
            source: self.source.deep_view(),
            destination: self.destination.deep_view(),
            source_port: self.source_port.deep_view(),
            destination_port: self.destination_port.deep_view(),
            action: self.action.deep_view(),
            reject_type: self.reject_type.deep_view(),
        }
    }
}

impl DirectArgumentsView {
    /// No option read yet.
    pub open spec fn nothing() -> DirectArgumentsView {
        DirectArgumentsView {
            protocol: None,
            module: None,
            source: None,
            destination: None,
            source_port: None,
            destination_port: None,
            action: None,
            reject_type: None,
        }
    }

    /// The value of an option.
    pub open spec fn get(self, option: DirectOption) -> Option<Seq<char>> {
        match option {
            DirectOption::Protocol => self.protocol,
            DirectOption::Module => self.module,
            DirectOption::Source => self.source,
            DirectOption::Destination => self.destination,
            DirectOption::SourcePort => self.source_port,
            DirectOption::DestinationPort => self.destination_port,
            DirectOption::Action => self.action,
            DirectOption::RejectType => self.reject_type,
        }
    }

    /// The arguments with a value for an option.
    pub open spec fn set(self, option: DirectOption, value: Seq<char>) -> DirectArgumentsView {
        match option {
            DirectOption::Protocol => DirectArgumentsView { protocol: Some(value), ..self },
            DirectOption::Module => DirectArgumentsView { module: Some(value), ..self },
            DirectOption::Source => DirectArgumentsView { source: Some(value), ..self },
            DirectOption::Destination => DirectArgumentsView { destination: Some(value), ..self },
            DirectOption::SourcePort => DirectArgumentsView { source_port: Some(value), ..self },
            DirectOption::DestinationPort => DirectArgumentsView {
                destination_port: Some(value),
                ..self
            },
            DirectOption::Action => DirectArgumentsView { action: Some(value), ..self },
            DirectOption::RejectType => DirectArgumentsView { reject_type: Some(value), ..self },
        }
    }
}

/// The value of an option as it is kept: protocol and module in lower case,
/// the action in upper case.
pub open spec fn kept_value(option: DirectOption, raw: Seq<char>) -> Seq<char> {
    match option {
        DirectOption::Protocol => text::lower(raw),
        DirectOption::Module => text::lower(raw),
        DirectOption::Action => text::upper(raw),
        _ => raw,
    }
}

/// The arguments from position `i` on, in pairs of option and value, each
/// option at most once.
pub open spec fn arguments_from(
    tokens: Seq<Seq<char>>,
    i: int,
    parsed: DirectArgumentsView,
) -> Result<
    DirectArgumentsView,
    Seq<char>,
>
    decreases tokens.len() - i,
{
    if i >= tokens.len() {
        Ok(parsed)
    } else {
        let token = tokens[i];
        match option_of(token) {
            None => if token == "!"@ {
                Err("negated direct matches require manual review"@)
            } else {
                Err("argument `"@ + token + "` is outside the supported migration subset"@)
            },
            Some(option) => if i + 1 >= tokens.len() {
                Err("`"@ + token + "` is missing its value"@)
            } else if parsed.get(option) is Some {
                Err("duplicate option `"@ + token + "` requires manual review"@)
            } else {
                arguments_from(
                    tokens,
                    i + 2,
                    parsed.set(option, kept_value(option, tokens[i + 1])),
                )
            },
        }
    }
}

impl DirectArguments {
    /// Keeps the value of an option, unless there is one already.
    fn set_once(&mut self, option: DirectOption, value: String) -> (r: bool)
        ensures
            r == (old(self).deep_view().get(option) is None),
            r ==> final(self).deep_view() == old(self).deep_view().set(option, value@),
            !r ==> final(self).deep_view() == old(self).deep_view(),
    {
        match option {
            DirectOption::Protocol => {
                if self.protocol.is_some() {
                    return false;
                }
                self.protocol = Some(value);
            },
            DirectOption::Module => {
                if self.module.is_some() {
                    return false;
                }
                self.module = Some(value);
            },
            DirectOption::Source => {
                if self.source.is_some() {
                    return false;
                }
                self.source = Some(value);
            },
            DirectOption::Destination => {
                if self.destination.is_some() {
                    return false;
                }
                self.destination = Some(value);
            },
            DirectOption::SourcePort => {
                if self.source_port.is_some() {
                    return false;
                }
                self.source_port = Some(value);
            },
            DirectOption::DestinationPort => {
                if self.destination_port.is_some() {
                    return false;
                }
                self.destination_port = Some(value);
            },
            DirectOption::Action => {
                if self.action.is_some() {
                    return false;
                }
                self.action = Some(value);
            },
            DirectOption::RejectType => {
                if self.reject_type.is_some() {
                    return false;
                }
                self.reject_type = Some(value);
            },
        }
        true
    }

    fn parse(tokens: &Vec<&str>, from: usize) -> (r: Result<Self, DirectMigrationError>)
        ensures
            model::outcome(r) == arguments_from(
                tokens.deep_view(),
                from as int,
                DirectArgumentsView::nothing(),
            ),
    {
        let mut parsed = DirectArguments {
            protocol: None,
            module: None,
            source: None,
            destination: None,
            source_port: None,
            destination_port: None,
            action: None,
            reject_type: None,
        };
        let ghost shown = tokens.deep_view();
        let mut index: usize = from;
        while index < tokens.len()
            invariant
                shown == tokens.deep_view(),
                arguments_from(shown, from as int, DirectArgumentsView::nothing())
                    == arguments_from(shown, index as int, parsed.deep_view()),
            decreases tokens.len() - index,
        {
            let token = tokens[index];
            assert(token@ == shown[index as int]);
            match parse_option(token) {
                None => {
                    if text::same(token, "!") {
                        return Err(
                            DirectMigrationError::unsupported(
                                "negated direct matches require manual review",
                            ),
                        );
                    }
                    return Err(
                        DirectMigrationError::of(
                            text::cat3(
                                "argument `",
                                token,
                                "` is outside the supported migration subset",
                            ),
                        ),
                    );
                },
                Some(option) => {
                    if index + 1 >= tokens.len() {
                        return Err(
                            DirectMigrationError::of(
                                text::cat3("`", token, "` is missing its value"),
                            ),
                        );
                    }
                    let raw = tokens[index + 1];
                    assert(raw@ == shown[index + 1]);
                    let value = match option {
                        DirectOption::Protocol => text::to_lower(raw),
                        DirectOption::Module => text::to_lower(raw),
                        DirectOption::Action => text::to_upper(raw),
                        _ => raw.to_owned(),
                    };
                    if !parsed.set_once(option, value) {
                        return Err(
                            DirectMigrationError::of(
                                text::cat3(
                                    "duplicate option `",
                                    token,
                                    "` requires manual review",
                                ),
                            ),
                        );
                    }
                    index = index + 2;
                },
            }
        }
        Ok(parsed)
    }
}

/// The rich-rule keyword of a jump target.
pub open spec fn action_of(action: Option<Seq<char>>) -> Result<Seq<char>, Seq<char>> {
    match action {
        None => Err("rule has no terminal jump target"@),
        Some(a) => if a == "ACCEPT"@ {
            Ok("accept"@)
        } else if a == "DROP"@ {
            Ok("drop"@)
        } else if a == "REJECT"@ {
            Ok("reject"@)
        } else {
            Err("jump target `"@ + a + "` requires manual migration"@)
        },
    }
}

fn supported_action(action: &Option<String>) -> (r: Result<&'static str, DirectMigrationError>)
    ensures
        match r {
            Ok(a) => action_of(action.deep_view()) == Ok::<Seq<char>, Seq<char>>(a@),
            Err(e) => action_of(action.deep_view()) == Err::<Seq<char>, Seq<char>>(e.deep_view()),
        },
{
    match action {
        None => Err(DirectMigrationError::unsupported("rule has no terminal jump target")),
        Some(a) => {
            let a = a.as_str();
            if text::same(a, "ACCEPT") {
                Ok("accept")
            } else if text::same(a, "DROP") {
                Ok("drop")
            } else if text::same(a, "REJECT") {
                Ok("reject")
            } else {
                Err(
                    DirectMigrationError::of(
                        text::cat3("jump target `", a, "` requires manual migration"),
                    ),
                )
            }
        },
    }
}

/// The normal form of an address, which must be of the rule's family.
pub open spec fn address_of(raw: Seq<char>, family: AddressFamily, label: Seq<char>) -> Result<
    Seq<char>,
    Seq<char>,
> {
    match SourceAddressView::parsed(raw) {
        Err(_) => Err("invalid "@ + label + " address `"@ + raw + "`"@),
        Ok(address) => if address.family() != Some(family) {
            Err(label + " address `"@ + raw + "` does not match "@ + family.spelled())
        } else {
            Ok(address.spelled())
        },
    }
}

fn validate_address(raw: &str, family: AddressFamily, label: &str) -> (r: Result<
    String,
    DirectMigrationError,
>)
    ensures
        model::outcome(r) == address_of(raw@, family, label@),
{
    match SourceAddress::parse(raw) {
        Err(_) => Err(
            DirectMigrationError::of(text::cat5("invalid ", label, " address `", raw, "`")),
        ),
        Ok(address) => {
            let matching = match address.family() {
                Some(found) => found == family,
                None => false,
            };
            if !matching {
                Err(
                    DirectMigrationError::of(
                        text::cat5(label, " address `", raw, "` does not match ", family.as_str()),
                    ),
                )
            } else {
                Ok(address.show())
            }
        },
    }
}

/// The normal form of an optional address.
pub open spec fn optional_address(
    raw: Option<Seq<char>>,
    family: AddressFamily,
    label: Seq<char>,
) -> Result<Option<Seq<char>>, Seq<char>> {
    match raw {
        None => Ok(None),
        Some(v) => match address_of(v, family, label) {
            Ok(a) => Ok(Some(a)),
            Err(e) => Err(e),
        },
    }
}

fn validate_optional(raw: &Option<String>, family: AddressFamily, label: &str) -> (r: Result<
    Option<String>,
    DirectMigrationError,
>)
    ensures
        model::outcome(r) == optional_address(raw.deep_view(), family, label@),
{
    match raw {
        None => Ok(None),
        Some(v) => match validate_address(v.as_str(), family, label) {
            Ok(a) => Ok(Some(a)),
            Err(e) => Err(e),
        },
    }
}

/// The port spec of a port and a protocol.
pub open spec fn port_of(raw: Seq<char>, protocol: Seq<char>) -> Result<PortSpecView, Seq<char>> {
    match PortSpecView::parsed(raw + "/"@ + protocol) {
        Ok(spec) => Ok(spec),
        Err(e) => Err("port `"@ + raw + "` cannot be translated: "@ + e.message()),
    }
}

fn validate_port(raw: &str, protocol: &str) -> (r: Result<PortSpec, DirectMigrationError>)
    ensures
        model::outcome(r) == port_of(raw@, protocol@),
{
    let spec = text::cat3(raw, "/", protocol);
    match PortSpec::parse(spec.as_str()) {
        Ok(spec) => Ok(spec),
        Err(e) => {
            let message = e.message();
            Err(
                DirectMigrationError::of(
                    text::cat4("port `", raw, "` cannot be translated: ", message.as_str()),
                ),
            )
        },
    }
}

/// The rich-rule element for a port spec.
pub open spec fn port_element(keyword: Seq<char>, spec: PortSpecView) -> Seq<char> {
    keyword + " port=\""@ + spec.port.spelled() + "\" protocol=\""@ + spec.protocol.spelled()
        + "\""@
}

fn show_port_element(keyword: &str, spec: &PortSpec) -> (r: String)
    ensures
        r@ == port_element(keyword@, spec.deep_view()),
{
    let port = spec.port.show();
    text::cat6(
        keyword,
        " port=\"",
        port.as_str(),
        "\" protocol=\"",
        spec.protocol.as_str(),
        "\"",
    )
}

/// What the rule matches besides addresses: one port, one protocol, or nothing
/// where a source address alone selects the traffic.
pub open spec fn element_of(
    source_port: Option<Seq<char>>,
    destination_port: Option<Seq<char>>,
    protocol: Option<Seq<char>>,
    has_source: bool,
    has_destination: bool,
) -> Result<Seq<char>, Seq<char>> {
    match (source_port, destination_port, protocol) {
        (Some(port), None, Some(protocol)) => match port_of(port, protocol) {
            Ok(spec) => Ok(port_element("source-port"@, spec)),
            Err(e) => Err(e),
        },
        (None, Some(port), Some(protocol)) => match port_of(port, protocol) {
            Ok(spec) => Ok(port_element("port"@, spec)),
            Err(e) => Err(e),
        },
        (Some(_), Some(_), _) => Err(
            "combined source and destination ports need manual rich-rule design"@,
        ),
        (None, None, Some(protocol)) => Ok("protocol value=\""@ + protocol + "\""@),
        (None, None, None) => if has_source && !has_destination {
            Ok(""@)
        } else {
            Err("an all-traffic or destination-only rule needs manual policy design"@)
        },
        _ => Err("port matches require an explicit transport protocol"@),
    }
}

fn rule_element(
    source_port: &Option<String>,
    destination_port: &Option<String>,
    protocol: &Option<String>,
    has_source: bool,
    has_destination: bool,
) -> (r: Result<String, DirectMigrationError>)
    ensures
        model::outcome(r) == element_of(
            source_port.deep_view(),
            destination_port.deep_view(),
            protocol.deep_view(),
            has_source,
            has_destination,
        ),
{
    match (source_port, destination_port, protocol) {
        (Some(port), None, Some(protocol)) => {
            match validate_port(port.as_str(), protocol.as_str()) {
                Ok(spec) => Ok(show_port_element("source-port", &spec)),
                Err(e) => Err(e),
            }
        },
        (None, Some(port), Some(protocol)) => {
            match validate_port(port.as_str(), protocol.as_str()) {
                Ok(spec) => Ok(show_port_element("port", &spec)),
                Err(e) => Err(e),
            }
        },
        (Some(_), Some(_), _) => Err(
            DirectMigrationError::unsupported(
                "combined source and destination ports need manual rich-rule design",
            ),
        ),
        (None, None, Some(protocol)) => Ok(
            text::cat3("protocol value=\"", protocol.as_str(), "\""),
        ),
        (None, None, None) => if has_source && !has_destination {
            Ok("".to_owned())
        } else {
            Err(
                DirectMigrationError::unsupported(
                    "an all-traffic or destination-only rule needs manual policy design",
                ),
            )
        },
        _ => Err(
            DirectMigrationError::unsupported(
                "port matches require an explicit transport protocol",
            ),
        ),
    }
}

/// The text of the rich rule that the parts make.
pub open spec fn rule_of(
    family: AddressFamily,
    priority: i16,
    source: Option<Seq<char>>,
    destination: Option<Seq<char>>,
    element: Seq<char>,
    action: Seq<char>,
    reject_type: Option<Seq<char>>,
) -> Seq<char> {
    let head = "rule priority=\""@ + number::signed_decimal(priority as int) + "\" family=\""@
        + family.spelled() + "\""@;
    let from = match source {
        Some(a) => head + " source address=\""@ + a + "\""@,
        None => head,
    };
    let to = match destination {
        Some(a) => from + " destination address=\""@ + a + "\""@,
        None => from,
    };
    let matching = if element.len() == 0 {
        to
    } else {
        to + " "@ + element
    };
    match reject_type {
        Some(kind) => matching + " reject type=\""@ + kind + "\""@,
        None => matching + " "@ + action,
    }
}

/// The rich rule that a text spells, or why it spells none.
pub open spec fn checked_rule(rule: Seq<char>) -> Result<Seq<char>, Seq<char>> {
    match RichRule::parsed(rule) {
        Ok(rule) => Ok(rule),
        Err(e) => Err(e.message()),
    }
}

fn build_rich_rule(
    family: AddressFamily,
    priority: i16,
    source: &Option<String>,
    destination: &Option<String>,
    element: &str,
    action: &str,
    reject_type: &Option<String>,
) -> (r: Result<RichRule, DirectMigrationError>)
    ensures
        model::outcome(r) == checked_rule(
            rule_of(
                family,
                priority,
                source.deep_view(),
                destination.deep_view(),
                element@,
                action@,
                reject_type.deep_view(),
            ),
        ),
{
    let shown = number::show_signed(priority as i64);
    let mut rule = text::cat5(
        "rule priority=\"",
        shown.as_str(),
        "\" family=\"",
        family.as_str(),
        "\"",
    );
    if let Some(a) = source {
        rule.append(" source address=\"");
        rule.append(a.as_str());
        rule.append("\"");
    }
    if let Some(a) = destination {
        rule.append(" destination address=\"");
        rule.append(a.as_str());
        rule.append("\"");
    }
    if element.unicode_len() != 0 {
        rule.append(" ");
        rule.append(element);
    }
    match reject_type {
        Some(kind) => {
            rule.append(" reject type=\"");
            rule.append(kind.as_str());
            rule.append("\"");
        },
        None => {
            rule.append(" ");
            rule.append(action);
        },
    }
    match RichRule::parse(rule.as_str()) {
        Ok(rule) => Ok(rule),
        Err(e) => Err(DirectMigrationError::of(e.message())),
    }
}

impl DirectArgumentsView {
    /// The rich rule for these arguments. A module must repeat the protocol,
    /// and a reject type goes with a rejecting action only.
    pub open spec fn rich_rule(self, family: AddressFamily, priority: i16) -> Result<
        Seq<char>,
        Seq<char>,
    > {
        if self.module is Some && self.protocol != self.module {
            Err("match module `"@ + self.module->0 + "` is not redundant with the protocol"@)
        } else {
            match action_of(self.action) {
                Err(e) => Err(e),
                Ok(action) => if self.reject_type is Some && action != "reject"@ {
                    Err("`--reject-with` is only valid with REJECT"@)
                } else {
                    match optional_address(self.source, family, "source"@) {
                        Err(e) => Err(e),
                        Ok(source) => match optional_address(
                            self.destination,
                            family,
                            "destination"@,
                        ) {
                            Err(e) => Err(e),
                            Ok(destination) => match element_of(
                                self.source_port,
                                self.destination_port,
                                self.protocol,
                                source is Some,
                                destination is Some,
                            ) {
                                Err(e) => Err(e),
                                Ok(element) => checked_rule(
                                    rule_of(
                                        family,
                                        priority,
                                        source,
                                        destination,
                                        element,
                                        action,
                                        self.reject_type,
                                    ),
                                ),
                            },
                        },
                    }
                },
            }
        }
    }
}

impl DirectArguments {
    fn into_rich_rule(self, family: AddressFamily, priority: i16) -> (r: Result<
        RichRule,
        DirectMigrationError,
    >)
        ensures
            model::outcome(r) == self.deep_view().rich_rule(family, priority),
    {
        if let Some(module) = &self.module {
            let redundant = match &self.protocol {
                Some(protocol) => text::same(protocol.as_str(), module.as_str()),
                None => false,
            };
            if !redundant {
                return Err(
                    DirectMigrationError::of(
                        text::cat3(
                            "match module `",
                            module.as_str(),
                            "` is not redundant with the protocol",
                        ),
                    ),
                );
            }
        }
        match supported_action(&self.action) {
            Err(e) => Err(e),
            Ok(action) => {
                if self.reject_type.is_some() && !text::same(action, "reject") {
                    return Err(
                        DirectMigrationError::unsupported(
                            "`--reject-with` is only valid with REJECT",
                        ),
                    );
                }
                match validate_optional(&self.source, family, "source") {
                    Err(e) => Err(e),
                    Ok(source) => match validate_optional(
                        &self.destination,
                        family,
                        "destination",
                    ) {
                        Err(e) => Err(e),
                        Ok(destination) => match rule_element(
                            &self.source_port,
                            &self.destination_port,
                            &self.protocol,
                            source.is_some(),
                            destination.is_some(),
                        ) {
                            Err(e) => Err(e),
                            Ok(element) => build_rich_rule(
                                family,
                                priority,
                                &source,
                                &destination,
                                element.as_str(),
                                action,
                                &self.reject_type,
                            ),
                        },
                    },
                }
            },
        }
    }
}

/// The translation of a direct rule, or why it has none.
pub open spec fn translated(raw: Seq<char>) -> Result<DirectRuleTranslationView, Seq<char>> {
    let tokens = text::ascii_words(raw);
    if tokens.len() < 6 {
        Err("malformed direct rule: expected family table chain priority and arguments"@)
    } else if unsafe_tokens(tokens) {
        Err("quoted, escaped, or control-character arguments require manual migration"@)
    } else {
        match header_of(tokens) {
            Err(e) => Err(e),
            Ok((family, chain, priority)) => match arguments_from(
                tokens,
                4,
                DirectArgumentsView::nothing(),
            ) {
                Err(e) => Err(e),
                Ok(arguments) => match arguments.rich_rule(family, priority) {
                    Err(e) => Err(e),
                    Ok(rich_rule) => Ok(
                        DirectRuleTranslationView {
                            source_rule: raw,
                            family,
                            chain,
                            priority,
                            rich_rule,
                        },
                    ),
                },
            },
        }
    }
}

/// Translates the deliberately small, mechanically supported subset of direct
/// rules. A candidate still requires reload-time traffic validation because
/// direct and policy rule precedence are not identical abstractions.
///
/// Supported rules use the IPv4/IPv6 `filter` table, a base INPUT/OUTPUT/
/// FORWARD chain, optional source/destination CIDRs, one protocol or one
/// source/destination port match, and ACCEPT/DROP/REJECT.
pub fn translate_direct_rule(raw: &str) -> (r: Result<DirectRuleTranslation, DirectMigrationError>)
    ensures
        model::outcome(r) == translated(raw@),
{
    let tokens = text::split_ascii_words(raw);
    if tokens.len() < 6 {
        return Err(
            DirectMigrationError::unsupported(
                "malformed direct rule: expected family table chain priority and arguments",
            ),
        );
    }
    if has_unsafe_token(&tokens) {
        return Err(
            DirectMigrationError::unsupported(
                "quoted, escaped, or control-character arguments require manual migration",
            ),
        );
    }
    match parse_header(&tokens) {
        Err(e) => Err(e),
        Ok((family, chain, priority)) => match DirectArguments::parse(&tokens, 4) {
            Err(e) => Err(e),
            Ok(arguments) => match arguments.into_rich_rule(family, priority) {
                Err(e) => Err(e),
                Ok(rich_rule) => Ok(
                    DirectRuleTranslation {
                        source_rule: raw.to_owned(),
                        family,
                        chain,
                        priority,
                        rich_rule,
                    },
                ),
            },
        },
    }
}

/// A translation keeps the line that it comes from, and its rule is a rule
/// that can be staged.
pub proof fn translation_keeps_its_source(raw: Seq<char>)
    ensures
        translated(raw) matches Ok(t) ==> t.source_rule == raw && rich_rule::rule_text(t.rich_rule),
{
}

/// A line with a quoted, escaped or control-character argument is never
/// translated.
pub proof fn unsafe_lines_are_refused(raw: Seq<char>)
    ensures
        unsafe_tokens(text::ascii_words(raw)) ==> translated(raw) is Err,
{
}

/// A migration keeps the rule of its translation and takes the zones from the
/// chain: what enters the host comes from anywhere, what leaves it starts on
/// the host, and forwarded traffic does neither.
pub proof fn migration_follows_the_chain(t: DirectRuleTranslationView, policy: Seq<char>)
    ensures
        t.migration(policy).rich_rule == t.rich_rule,
        t.migration(policy).source_rule == t.source_rule,
        t.chain is Input ==> t.migration(policy).ingress_zone == "ANY"@ && t.migration(
            policy,
        ).egress_zone == "HOST"@,
        t.chain is Output ==> t.migration(policy).ingress_zone == "HOST"@ && t.migration(
            policy,
        ).egress_zone == "ANY"@,
        t.chain is Forward ==> t.migration(policy).ingress_zone == "ANY"@ && t.migration(
            policy,
        ).egress_zone == "ANY"@,
{
}

} // verus!
