//! Version-derived firewalld syntax and semantic capabilities. Unknown or
//! malformed versions stay unknown so evaluators can fail closed.

use vstd::prelude::*;

use crate::model::Value;
use crate::number;
use crate::text;

verus! {

/// Whether the current firewalld version provides a capability.
#[derive(Debug, Clone, Copy, PartialEq, Eq, Structural)]
pub enum FeatureSupport {
    /// The reported version includes the capability.
    Supported,
    /// The reported version predates the capability.
    Unsupported,
    /// No usable version was reported.
    Unknown,
}

impl DeepView for FeatureSupport {
    type V = FeatureSupport;

    open spec fn deep_view(&self) -> FeatureSupport {
        *self
    }
}

impl Value for FeatureSupport {
    fn same(&self, other: &Self) -> (r: bool) {
        *self == *other
    }

    fn dup(&self) -> (r: Self) {
        *self
    }
}

/// Whether a capability controls accepted syntax or evaluation semantics.
#[derive(Debug, Clone, Copy, PartialEq, Eq, Structural)]
pub enum SemanticCapabilityKind {
    /// The version can represent and configure the feature.
    Syntax,
    /// The version changes how an otherwise valid configuration is evaluated.
    Behavior,
}

impl DeepView for SemanticCapabilityKind {
    type V = SemanticCapabilityKind;

    open spec fn deep_view(&self) -> SemanticCapabilityKind {
        *self
    }
}

impl Value for SemanticCapabilityKind {
    fn same(&self, other: &Self) -> (r: bool) {
        *self == *other
    }

    fn dup(&self) -> (r: Self) {
        *self
    }
}

/// Versioned firewalld capabilities used by observation and evaluation.
#[derive(Debug, Clone, Copy, PartialEq, Eq, Structural)]
pub enum FirewalldFeature {
    /// Policy objects and their ingress/egress bindings.
    PolicyObjects,
    /// Independent zone ingress and egress classification priorities.
    ZonePriorities,
    /// Explicit priorities in rich-rule syntax.
    RichRulePriorities,
    /// Per-zone forwarding between members of the same zone.
    IntraZoneForwarding,
    /// Shipped and newly created zones enable intra-zone forwarding by default.
    IntraZoneForwardingDefaultEnabled,
    /// The default zone target is terminal and behaves like reject except for ICMP.
    DefaultTargetRejectSemantics,
    /// Zone ICMP blocks and inversion affect input traffic only.
    IcmpBlocksInputOnly,
    /// Positive-priority policies run immediately before the zone target.
    PositivePolicyPriorityBeforeZoneTarget,
    /// Predefined, interoperable collections of policy objects.
    PolicySets,
}

impl DeepView for FirewalldFeature {
    type V = FirewalldFeature;

    open spec fn deep_view(&self) -> FirewalldFeature {
        *self
    }
}

impl Value for FirewalldFeature {
    fn same(&self, other: &Self) -> (r: bool) {
        *self == *other
    }

    fn dup(&self) -> (r: Self) {
        *self
    }
}

/// A firewalld release, ordered by its three numbers.
#[derive(Debug, Clone, Copy, PartialEq, Eq, PartialOrd, Ord, Structural)]
pub struct FirewalldVersion {
    /// First number.
    pub major: u64,
    /// Second number.
    pub minor: u64,
    /// Third number; zero where it is left out.
    pub patch: u64,
}

impl FirewalldVersion {
    /// This release is `other` or a later one.
    pub open spec fn reaches(self, other: FirewalldVersion) -> bool {
        ||| self.major > other.major
        ||| self.major == other.major && self.minor > other.minor
        ||| self.major == other.major && self.minor == other.minor && self.patch >= other.patch
    }

    fn is_at_least(self, other: FirewalldVersion) -> (r: bool)
        ensures
            r == self.reaches(other),
    {
        self.major > other.major || (self.major == other.major && self.minor > other.minor) || (
        self.major == other.major && self.minor == other.minor && self.patch >= other.patch)
    }
}

/// Immutable capability lookup derived from one reported firewalld version.
#[derive(Debug, Clone, Copy, PartialEq, Eq)]
pub struct SemanticCapabilityMatrix {
    version: Option<FirewalldVersion>,
}

impl DeepView for SemanticCapabilityMatrix {
    type V = Option<FirewalldVersion>;

    closed spec fn deep_view(&self) -> Option<FirewalldVersion> {
        self.version
    }
}

/// What a version, if it is known, says of a feature.
pub open spec fn support_of(
    version: Option<FirewalldVersion>,
    feature: FirewalldFeature,
) -> FeatureSupport {
    match version {
        None => FeatureSupport::Unknown,
        Some(v) => if v.reaches(feature.least()) {
            FeatureSupport::Supported
        } else {
            FeatureSupport::Unsupported
        },
    }
}

/// The version that an optional report states.
pub open spec fn reported(version: Option<Seq<char>>) -> Option<FirewalldVersion> {
    match version {
        None => None,
        Some(raw) => version_of(raw),
    }
}

/// The text of an optional report.
pub open spec fn report_text(version: Option<&str>) -> Option<Seq<char>> {
    match version {
        None => None,
        Some(raw) => Some(raw@),
    }
}

impl SemanticCapabilityMatrix {
    /// Parses one reported version once for all later capability queries.
    pub fn from_reported_version(version: Option<&str>) -> (r: Self)
        ensures
            r.deep_view() == reported(report_text(version)),
    {
        SemanticCapabilityMatrix {
            version: match version {
                None => None,
                Some(raw) => parse_version(raw),
            },
        }
    }

    /// Resolves a feature without guessing when the reported version is unusable.
    pub fn support(self, feature: FirewalldFeature) -> (r: FeatureSupport)
        ensures
            r == support_of(self.deep_view(), feature),
    {
        match self.version {
            None => FeatureSupport::Unknown,
            Some(version) => if version.is_at_least(feature.minimum()) {
                FeatureSupport::Supported
            } else {
                FeatureSupport::Unsupported
            },
        }
    }
}

impl FirewalldFeature {
    /// Exhaustive capability set used by fixtures and evaluator audits.
    pub const ALL: [FirewalldFeature; 9] = [
        FirewalldFeature::PolicyObjects,
        FirewalldFeature::ZonePriorities,
        FirewalldFeature::RichRulePriorities,
        FirewalldFeature::IntraZoneForwarding,
        FirewalldFeature::IntraZoneForwardingDefaultEnabled,
        FirewalldFeature::DefaultTargetRejectSemantics,
        FirewalldFeature::IcmpBlocksInputOnly,
        FirewalldFeature::PositivePolicyPriorityBeforeZoneTarget,
        FirewalldFeature::PolicySets,
    ];

    /// The first release that has the feature.
    pub open spec fn least(self) -> FirewalldVersion {
        match self {
            FirewalldFeature::PolicyObjects => FirewalldVersion { major: 0, minor: 9, patch: 0 },
            FirewalldFeature::ZonePriorities => FirewalldVersion { major: 2, minor: 0, patch: 0 },
            FirewalldFeature::RichRulePriorities => FirewalldVersion {
                major: 0,
                minor: 7,
                patch: 0,
            },
            FirewalldFeature::IntraZoneForwarding => FirewalldVersion {
                major: 0,
                minor: 9,
                patch: 0,
            },
            FirewalldFeature::IntraZoneForwardingDefaultEnabled => FirewalldVersion {
                major: 1,
                minor: 0,
                patch: 0,
            },
            FirewalldFeature::DefaultTargetRejectSemantics => FirewalldVersion {
                major: 1,
                minor: 0,
                patch: 0,
            },
            FirewalldFeature::IcmpBlocksInputOnly => FirewalldVersion {
                major: 1,
                minor: 0,
                patch: 0,
            },
            FirewalldFeature::PositivePolicyPriorityBeforeZoneTarget => FirewalldVersion {
                major: 1,
                minor: 0,
                patch: 0,
            },
            FirewalldFeature::PolicySets => FirewalldVersion { major: 2, minor: 4, patch: 0 },
        }
    }

    /// The first release that has the feature, as text.
    pub open spec fn least_text(self) -> Seq<char> {
        match self {
            FirewalldFeature::PolicyObjects => "0.9.0"@,
            FirewalldFeature::ZonePriorities => "2.0.0"@,
            FirewalldFeature::RichRulePriorities => "0.7.0"@,
            FirewalldFeature::IntraZoneForwarding => "0.9.0"@,
            FirewalldFeature::IntraZoneForwardingDefaultEnabled => "1.0.0"@,
            FirewalldFeature::DefaultTargetRejectSemantics => "1.0.0"@,
            FirewalldFeature::IcmpBlocksInputOnly => "1.0.0"@,
            FirewalldFeature::PositivePolicyPriorityBeforeZoneTarget => "1.0.0"@,
            FirewalldFeature::PolicySets => "2.4.0"@,
        }
    }

    /// The feature only adds syntax.
    pub open spec fn is_syntax(self) -> bool {
        match self {
            FirewalldFeature::PolicyObjects => true,
            FirewalldFeature::ZonePriorities => true,
            FirewalldFeature::RichRulePriorities => true,
            FirewalldFeature::IntraZoneForwarding => true,
            FirewalldFeature::IntraZoneForwardingDefaultEnabled => false,
            FirewalldFeature::DefaultTargetRejectSemantics => false,
            FirewalldFeature::IcmpBlocksInputOnly => false,
            FirewalldFeature::PositivePolicyPriorityBeforeZoneTarget => false,
            FirewalldFeature::PolicySets => true,
        }
    }

    /// Whether this capability adds syntax or changes evaluation behavior.
    pub fn kind(self) -> (r: SemanticCapabilityKind)
        ensures
            r == if self.is_syntax() {
                SemanticCapabilityKind::Syntax
            } else {
                SemanticCapabilityKind::Behavior
            },
    {
        match self {
            FirewalldFeature::PolicyObjects => SemanticCapabilityKind::Syntax,
            FirewalldFeature::ZonePriorities => SemanticCapabilityKind::Syntax,
            FirewalldFeature::RichRulePriorities => SemanticCapabilityKind::Syntax,
            FirewalldFeature::IntraZoneForwarding => SemanticCapabilityKind::Syntax,
            FirewalldFeature::IntraZoneForwardingDefaultEnabled => SemanticCapabilityKind::Behavior,
            FirewalldFeature::DefaultTargetRejectSemantics => SemanticCapabilityKind::Behavior,
            FirewalldFeature::IcmpBlocksInputOnly => SemanticCapabilityKind::Behavior,
            FirewalldFeature::PositivePolicyPriorityBeforeZoneTarget =>
                SemanticCapabilityKind::Behavior,
            FirewalldFeature::PolicySets => SemanticCapabilityKind::Syntax,
        }
    }

    /// Minimum stable upstream version carrying this syntax or behavior.
    pub fn minimum_version(self) -> (r: &'static str)
        ensures
            r@ == self.least_text(),
            version_of(r@) == Some(self.least()),
    {
        proof {
            first_release_has_the_feature(self);
        }
        match self {
            FirewalldFeature::PolicyObjects => "0.9.0",
            FirewalldFeature::ZonePriorities => "2.0.0",
            FirewalldFeature::RichRulePriorities => "0.7.0",
            FirewalldFeature::IntraZoneForwarding => "0.9.0",
            FirewalldFeature::IntraZoneForwardingDefaultEnabled => "1.0.0",
            FirewalldFeature::DefaultTargetRejectSemantics => "1.0.0",
            FirewalldFeature::IcmpBlocksInputOnly => "1.0.0",
            FirewalldFeature::PositivePolicyPriorityBeforeZoneTarget => "1.0.0",
            FirewalldFeature::PolicySets => "2.4.0",
        }
    }

    /// Resolves support directly from a reported daemon/client version.
    pub fn support_for(self, version: Option<&str>) -> (r: FeatureSupport)
        ensures
            r == support_of(reported(report_text(version)), self),
    {
        SemanticCapabilityMatrix::from_reported_version(version).support(self)
    }

    fn minimum(self) -> (r: FirewalldVersion)
        ensures
            r == self.least(),
    {
        match self {
            FirewalldFeature::PolicyObjects => FirewalldVersion { major: 0, minor: 9, patch: 0 },
            FirewalldFeature::ZonePriorities => FirewalldVersion { major: 2, minor: 0, patch: 0 },
            FirewalldFeature::RichRulePriorities => FirewalldVersion {
                major: 0,
                minor: 7,
                patch: 0,
            },
            FirewalldFeature::IntraZoneForwarding => FirewalldVersion {
                major: 0,
                minor: 9,
                patch: 0,
            },
            FirewalldFeature::IntraZoneForwardingDefaultEnabled => FirewalldVersion {
                major: 1,
                minor: 0,
                patch: 0,
            },
            FirewalldFeature::DefaultTargetRejectSemantics => FirewalldVersion {
                major: 1,
                minor: 0,
                patch: 0,
            },
            FirewalldFeature::IcmpBlocksInputOnly => FirewalldVersion {
                major: 1,
                minor: 0,
                patch: 0,
            },
            FirewalldFeature::PositivePolicyPriorityBeforeZoneTarget => FirewalldVersion {
                major: 1,
                minor: 0,
                patch: 0,
            },
            FirewalldFeature::PolicySets => FirewalldVersion { major: 2, minor: 4, patch: 0 },
        }
    }
}

/// The first position at or after `i` that holds neither a digit nor a dot, or
/// the length.
pub open spec fn core_end(s: Seq<char>, i: int) -> int
    decreases s.len() - i,
{
    if i < 0 || i >= s.len() || !(text::digit(s[i]) || s[i] == '.') {
        i
    } else {
        core_end(s, i + 1)
    }
}

/// The number that one component spells: digits alone, in 64 bits.
pub open spec fn component(s: Seq<char>) -> Option<u64> {
    if number::all_digits(s) && number::value(s) <= u64::MAX {
        Some(number::value(s) as u64)
    } else {
        None
    }
}

/// A character that a distribution's suffix may hold.
pub open spec fn suffix_char(c: char) -> bool {
    text::alnum(c) || c == '.' || c == '_' || c == '-' || c == '+' || c == '~'
}

/// A suffix that a distribution adds to a stable release: nothing, or `-` and a
/// digit, or `+` and a letter or digit, and no mark of a preview release.
pub open spec fn distro_suffix(s: Seq<char>) -> bool {
    s.len() == 0 || {
        &&& s.len() >= 2
        &&& s[0] == '-' || s[0] == '+'
        &&& s[0] == '-' ==> text::digit(s[1])
        &&& !preview_mark(text::lower(s))
        &&& text::alnum(s[1])
        &&& forall|i: int| 2 <= i < s.len() ==> suffix_char(#[trigger] s[i])
    }
}

/// The text mentions a preview release.
pub open spec fn preview_mark(s: Seq<char>) -> bool {
    text::has(s, "rc"@) || text::has(s, "alpha"@) || text::has(s, "beta"@) || text::has(s, "pre"@)
}

/// The release that two or three numbers name.
pub open spec fn core_version(core: Seq<char>) -> Option<FirewalldVersion> {
    let parts = text::pieces(core, '.');
    if parts.len() == 2 {
        match (component(parts[0]), component(parts[1])) {
            (Some(major), Some(minor)) => Some(FirewalldVersion { major, minor, patch: 0 }),
            _ => None,
        }
    } else if parts.len() == 3 {
        match (component(parts[0]), component(parts[1]), component(parts[2])) {
            (Some(major), Some(minor), Some(patch)) => Some(
                FirewalldVersion { major, minor, patch },
            ),
            _ => None,
        }
    } else {
        None
    }
}

/// The release without the `v` that may stand before it.
pub open spec fn bare_version(raw: Seq<char>) -> Seq<char> {
    match text::stripped(text::trimmed(raw), seq!['v']) {
        Some(rest) => rest,
        None => text::trimmed(raw),
    }
}

/// The release that a reported version names.
pub open spec fn version_of(raw: Seq<char>) -> Option<FirewalldVersion> {
    let bare = bare_version(raw);
    let end = core_end(bare, 0);
    if distro_suffix(bare.skip(end)) {
        core_version(bare.take(end))
    } else {
        None
    }
}

fn parse_component(raw: &str) -> (r: Option<u64>)
    ensures
        r == component(raw@),
{
    number::parse_digits(raw, u64::MAX)
}

fn valid_distro_suffix(suffix: &str) -> (r: bool)
    ensures
        r == distro_suffix(suffix@),
{
    let chars = text::chars_of(suffix);
    if chars.len() == 0 {
        return true;
    }
    if chars.len() < 2 || !(chars[0] == '-' || chars[0] == '+') {
        return false;
    }
    if chars[0] == '-' && !text::is_digit(chars[1]) {
        return false;
    }
    let lowered = text::to_lower(suffix);
    let normalized = lowered.as_str();
    if text::contains(normalized, "rc") || text::contains(normalized, "alpha") || text::contains(
        normalized,
        "beta",
    ) || text::contains(normalized, "pre") {
        return false;
    }
    if !text::is_alnum(chars[1]) {
        return false;
    }
    let mut i: usize = 2;
    while i < chars.len()
        invariant
            chars@ == suffix@,
            2 <= i <= chars@.len(),
            forall|j: int| 2 <= j < i ==> suffix_char(#[trigger] suffix@[j]),
        decreases chars.len() - i,
    {
        let c = chars[i];
        if !(text::is_alnum(c) || c == '.' || c == '_' || c == '-' || c == '+' || c == '~') {
            assert(!suffix_char(suffix@[i as int]));
            return false;
        }
        i = i + 1;
    }
    true
}

fn parse_core(core: &str) -> (r: Option<FirewalldVersion>)
    ensures
        r == core_version(core@),
{
    let parts = text::split(core, '.');
    assert(forall|i: int|
        0 <= i < parts@.len() ==> parts.deep_view()[i] == #[trigger] parts@[i]@);
    if parts.len() == 2 {
        match (parse_component(parts[0]), parse_component(parts[1])) {
            (Some(major), Some(minor)) => Some(FirewalldVersion { major, minor, patch: 0 }),
            _ => None,
        }
    } else if parts.len() == 3 {
        match (parse_component(parts[0]), parse_component(parts[1]), parse_component(parts[2])) {
            (Some(major), Some(minor), Some(patch)) => Some(
                FirewalldVersion { major, minor, patch },
            ),
            _ => None,
        }
    } else {
        None
    }
}

fn parse_version(raw: &str) -> (r: Option<FirewalldVersion>)
    ensures
        r == version_of(raw@),
{
    proof {
        reveal_strlit("v");
        assert("v"@ =~= seq!['v']);
    }
    let trimmed = text::trim(raw);
    let bare = match text::strip_prefix(trimmed, "v") {
        Some(rest) => rest,
        None => trimmed,
    };
    let chars = text::chars_of(bare);
    let n: usize = chars.len();
    let mut end: usize = 0;
    while end < n && (text::is_digit(chars[end]) || chars[end] == '.')
        invariant
            chars@ == bare@,
            n == bare@.len(),
            end <= n,
            core_end(bare@, 0) == core_end(bare@, end as int),
        decreases n - end,
    {
        end = end + 1;
    }
    let core = bare.substring_char(0, end);
    let suffix = bare.substring_char(end, n);
    assert(core@ =~= bare@.take(end as int));
    assert(suffix@ =~= bare@.skip(end as int));
    if !valid_distro_suffix(suffix) {
        return None;
    }
    parse_core(core)
}

/// A later release supports whatever an earlier one does.
pub proof fn support_is_monotone(
    earlier: FirewalldVersion,
    later: FirewalldVersion,
    feature: FirewalldFeature,
)
    requires
        later.reaches(earlier),
        support_of(Some(earlier), feature) == FeatureSupport::Supported,
    ensures
        support_of(Some(later), feature) == FeatureSupport::Supported,
{
}

/// Without a usable version nothing is claimed, and with one something is.
pub proof fn support_is_unknown_only_without_version(
    version: Option<FirewalldVersion>,
    feature: FirewalldFeature,
)
    ensures
        (support_of(version, feature) == FeatureSupport::Unknown) == (version is None),
{
}

/// The text of three components.
pub open spec fn dotted(a: Seq<char>, b: Seq<char>, c: Seq<char>) -> Seq<char> {
    a + seq!['.'] + b + seq!['.'] + c
}

proof fn core_is_whole(s: Seq<char>, i: int)
    requires
        0 <= i <= s.len(),
        forall|j: int| i <= j < s.len() ==> text::digit(#[trigger] s[j]) || s[j] == '.',
    ensures
        core_end(s, i) == s.len(),
    decreases s.len() - i,
{
    if i < s.len() {
        core_is_whole(s, i + 1);
    }
}

/// Three numbers with dots between them read as the release that they name.
pub proof fn numbers_read_as_a_release(a: Seq<char>, b: Seq<char>, c: Seq<char>)
    requires
        component(a) is Some,
        component(b) is Some,
        component(c) is Some,
    ensures
        version_of(dotted(a, b, c)) == Some(
            FirewalldVersion {
                major: component(a)->0,
                minor: component(b)->0,
                patch: component(c)->0,
            },
        ),
{
    let s = dotted(a, b, c);
    assert forall|j: int| 0 <= j < s.len() implies text::digit(#[trigger] s[j]) || s[j] == '.' by {
        let p = a.len() as int;
        let q = p + 1 + b.len();
        if j < p {
            assert(s[j] == a[j]);
        } else if p < j < q {
            assert(s[j] == b[j - p - 1]);
        } else if q < j {
            assert(s[j] == c[j - q - 1]);
        }
    }
    assert(s[0] == a[0]);
    assert(s.last() == c.last());
    assert(c.last() == c[c.len() - 1]);
    assert(text::digit(s[0]) && text::digit(s.last()));
    assert(text::trimmed_start(s) == s);
    assert(text::trimmed_end(s) == s);
    if text::occurs_at(s, seq!['v'], 0) {
        text::occurs_char(s, seq!['v'], 0, 0);
    }
    assert(bare_version(s) == s);
    core_is_whole(s, 0);
    assert(s.skip(s.len() as int).len() == 0);
    assert(s.take(s.len() as int) =~= s);
    assert(text::free_of(a, '.') && text::free_of(b, '.') && text::free_of(c, '.'));
    text::pieces_of_one(a, '.');
    text::pieces_appended(a, '.', b);
    text::pieces_appended(a + seq!['.'] + b, '.', c);
    let parts = text::pieces(s, '.');
    assert(parts =~= seq![a, b, c]);
}

/// A release supports a feature exactly if it is the feature's first release or
/// a later one, number by number.
pub proof fn support_compares_numbers(
    a: Seq<char>,
    b: Seq<char>,
    c: Seq<char>,
    feature: FirewalldFeature,
)
    requires
        component(a) is Some,
        component(b) is Some,
        component(c) is Some,
    ensures
        ({
            let release = FirewalldVersion {
                major: component(a)->0,
                minor: component(b)->0,
                patch: component(c)->0,
            };
            support_of(reported(Some(dotted(a, b, c))), feature) == if release.reaches(
                feature.least(),
            ) {
                FeatureSupport::Supported
            } else {
                FeatureSupport::Unsupported
            }
        }),
{
    numbers_read_as_a_release(a, b, c);
}

proof fn one_digit(d: char)
    requires
        text::digit(d),
    ensures
        component(seq![d]) == Some((d as int - 48) as u64),
{
    let s = seq![d];
    assert(s.drop_last() =~= Seq::<char>::empty());
    assert(number::value(s.drop_last()) == 0);
    assert(s.last() == d);
}

/// A feature's first release, as text, reads as that release and has the
/// feature.
pub proof fn first_release_has_the_feature(feature: FirewalldFeature)
    ensures
        version_of(feature.least_text()) == Some(feature.least()),
        support_of(reported(Some(feature.least_text())), feature) == FeatureSupport::Supported,
{
    reveal_strlit("0.9.0");
    reveal_strlit("2.0.0");
    reveal_strlit("0.7.0");
    reveal_strlit("1.0.0");
    reveal_strlit("2.4.0");
    let s = feature.least_text();
    let a = seq![s[0]];
    let b = seq![s[2]];
    let c = seq![s[4]];
    assert(s =~= dotted(a, b, c));
    one_digit(s[0]);
    one_digit(s[2]);
    one_digit(s[4]);
    numbers_read_as_a_release(a, b, c);
}

} // verus!
