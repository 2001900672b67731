//! Derived views of predefined firewalld policy sets. Firewalld exposes set
//! mutations but no separate list API, so membership is derived from the
//! policy names returned by the existing policy snapshot.

use vstd::prelude::*;

use crate::ids::{PolicyName, PolicySetName};
use crate::lists;
use crate::model::Value;
use crate::name_map;
use crate::name_map::NameMap;
use crate::policy::{PolicyDetails, PolicyDetailsView};
use crate::snapshot::{FirewallSnapshot, FirewallSnapshotView};
use crate::text;

verus! {

/// Policy sets currently shipped and documented by upstream firewalld.
pub const KNOWN_POLICY_SETS: [&'static str; 1] = ["gateway"];

/// Exact member manifest documented for the upstream gateway policy set.
pub const GATEWAY_POLICY_MEMBERS: [&'static str; 5] = [
    "gateway-dmz-to-HOST",
    "gateway-lan-to-work",
    "gateway-lan-to-world",
    "gateway-lan-to-HOST",
    "gateway-world-to-HOST",
];

/// Aggregate administrative state of one policy-set scope.
#[derive(Debug, Clone, Copy, PartialEq, Eq, Structural)]
pub enum PolicySetState {
    /// No member policies were observed in this scope.
    Absent,
    /// Some, but not all, verified member policies were observed.
    Partial,
    /// Every observed member may activate.
    Enabled,
    /// Every observed member is administratively disabled.
    Disabled,
    /// Member policies disagree about their administrative state.
    Mixed,
}

impl DeepView for PolicySetState {
    type V = PolicySetState;

    open spec fn deep_view(&self) -> PolicySetState {
        *self
    }
}

impl Value for PolicySetState {
    fn same(&self, other: &Self) -> (r: bool) {
        *self == *other
    }

    fn dup(&self) -> (r: Self) {
        *self
    }
}

impl PolicySetState {
    pub open spec fn labelled(self) -> Seq<char> {
        match self {
            PolicySetState::Absent => "absent"@,
            PolicySetState::Partial => "partial"@,
            PolicySetState::Enabled => "enabled"@,
            PolicySetState::Disabled => "disabled"@,
            PolicySetState::Mixed => "mixed"@,
        }
    }

    /// Stable operator-facing label.
    pub fn label(self) -> (r: &'static str)
        ensures
            r@ == self.labelled(),
    {
        match self {
            PolicySetState::Absent => "absent",
            PolicySetState::Partial => "partial",
            PolicySetState::Enabled => "enabled",
            PolicySetState::Disabled => "disabled",
            PolicySetState::Mixed => "mixed",
        }
    }
}

impl PolicySetState {
    /// Whether the state is the requested one; nothing where members are
    /// missing.
    pub open spec fn agrees(self, enabled: bool) -> Option<bool> {
        match self {
            PolicySetState::Absent => None,
            PolicySetState::Partial => None,
            PolicySetState::Enabled => Some(enabled),
            PolicySetState::Disabled => Some(!enabled),
            PolicySetState::Mixed => Some(false),
        }
    }

    /// Whether this scope already has the requested state.
    pub fn matches(self, enabled: bool) -> (r: Option<bool>)
        ensures
            r == self.agrees(enabled),
    {
        match self {
            PolicySetState::Absent => None,
            PolicySetState::Partial => None,
            PolicySetState::Enabled => Some(enabled),
            PolicySetState::Disabled => Some(!enabled),
            PolicySetState::Mixed => Some(false),
        }
    }
}

/// One scope's member policies and aggregate state.
#[derive(Debug, PartialEq, Eq)]
pub struct PolicySetScope {
    /// Deterministically ordered member policy names.
    pub members: Vec<PolicyName>,
    /// Aggregate administrative state.
    pub state: PolicySetState,
}

/// What a `PolicySetScope` models.
#[verifier::ext_equal]
pub struct PolicySetScopeView {
    pub members: Seq<Seq<char>>,
    pub state: PolicySetState,
}

impl DeepView for PolicySetScope {
    type V = PolicySetScopeView;

    open spec fn deep_view(&self) -> PolicySetScopeView {
        PolicySetScopeView {
            members: self.members.deep_view(),
            state: self.state.deep_view(),
        }
    }
}

impl Value for PolicySetScope {
    fn same(&self, other: &Self) -> (r: bool) {
        self.members.same(&other.members) && self.state == other.state
    }

    fn dup(&self) -> (r: Self) {
        PolicySetScope {
            members: self.members.dup(),
            state: self.state,
        }
    }
}

impl Clone for PolicySetScope {
    fn clone(&self) -> (r: Self)
        ensures
            r.deep_view() == self.deep_view(),
    {
        self.dup()
    }
}

/// The policy belongs to the set: its name starts with the set's name and `-`.
pub open spec fn belongs(set: Seq<char>, policy: Seq<char>) -> bool {
    text::occurs_at(policy, set + "-"@, 0)
}

/// The names among the first `n` policies that belong to the set, in order.
pub open spec fn members_of(
    set: Seq<char>,
    policies: Seq<(Seq<char>, PolicyDetailsView)>,
    n: int,
) -> Seq<Seq<char>>
    decreases n,
{
    if n <= 0 {
        Seq::empty()
    } else if belongs(set, policies[n - 1].0) {
        members_of(set, policies, n - 1).push(policies[n - 1].0)
    } else {
        members_of(set, policies, n - 1)
    }
}

/// The number of the first `n` policies that belong to the set and are
/// disabled.
pub open spec fn disabled_members(
    set: Seq<char>,
    policies: Seq<(Seq<char>, PolicyDetailsView)>,
    n: int,
) -> int
    decreases n,
{
    if n <= 0 {
        0
    } else if belongs(set, policies[n - 1].0) && policies[n - 1].1.disabled {
        1 + disabled_members(set, policies, n - 1)
    } else {
        disabled_members(set, policies, n - 1)
    }
}

/// Every policy that the set is documented to have is there, and no other
/// member.
pub open spec fn manifest_complete(
    set: Seq<char>,
    policies: Seq<(Seq<char>, PolicyDetailsView)>,
    members: int,
) -> bool {
    if set == "gateway"@ {
        &&& members == 5
        &&& name_map::lookup(policies, "gateway-dmz-to-HOST"@) is Some
        &&& name_map::lookup(policies, "gateway-lan-to-work"@) is Some
        &&& name_map::lookup(policies, "gateway-lan-to-world"@) is Some
        &&& name_map::lookup(policies, "gateway-lan-to-HOST"@) is Some
        &&& name_map::lookup(policies, "gateway-world-to-HOST"@) is Some
    } else {
        members == 0
    }
}

impl PolicySetScopeView {
    /// The members of a set among the policies of one scope, and what they are
    /// together.
    pub open spec fn of(set: Seq<char>, policies: Seq<(Seq<char>, PolicyDetailsView)>) -> Self {
        let members = members_of(set, policies, policies.len() as int);
        let disabled = disabled_members(set, policies, policies.len() as int);
        PolicySetScopeView {
            members,
            state: if members.len() == 0 {
                PolicySetState::Absent
            } else if !manifest_complete(set, policies, members.len() as int) {
                PolicySetState::Partial
            } else if disabled == 0 {
                PolicySetState::Enabled
            } else if disabled == members.len() {
                PolicySetState::Disabled
            } else {
                PolicySetState::Mixed
            },
        }
    }
}

fn has_policy(policies: &NameMap<PolicyName, PolicyDetails>, name: &str) -> (r: bool)
    ensures
        PolicyName::parsed(name@) is Ok ==> r == (name_map::lookup(policies.deep_view(), name@)
            is Some),
{
    match PolicyName::parse(name) {
        Ok(name) => policies.contains_key(&name),
        Err(_) => false,
    }
}

/// A text of ASCII letters, digits and hyphens that is short enough is a
/// policy name.
proof fn plain_policy_name(s: Seq<char>)
    requires
        0 < s.len() <= 64,
        forall|i: int| 0 <= i < s.len() ==> text::alnum(#[trigger] s[i]) || s[i] == '-',
    ensures
        PolicyName::parsed(s) is Ok,
{
    vstd::utf8::is_ascii_chars_encode_utf8(s);
    let extra = seq!['_', '-'];
    assert(extra[1] == '-');
    no_offender(s, extra, 0);
}

proof fn no_offender(s: Seq<char>, extra: Seq<char>, i: int)
    requires
        0 <= i,
        extra.contains('-'),
        forall|j: int| 0 <= j < s.len() ==> text::alnum(#[trigger] s[j]) || s[j] == '-',
    ensures
        crate::ids::offender_from(s, extra, i) is None,
    decreases s.len() - i,
{
    if i < s.len() {
        assert(text::alnum(s[i]) || s[i] == '-');
        no_offender(s, extra, i + 1);
    }
}

/// The documented member names are policy names.
proof fn gateway_names_are_policies()
    ensures
        PolicyName::parsed("gateway-dmz-to-HOST"@) is Ok,
        PolicyName::parsed("gateway-lan-to-work"@) is Ok,
        PolicyName::parsed("gateway-lan-to-world"@) is Ok,
        PolicyName::parsed("gateway-lan-to-HOST"@) is Ok,
        PolicyName::parsed("gateway-world-to-HOST"@) is Ok,
{
    reveal_strlit("gateway-dmz-to-HOST");
    plain_policy_name("gateway-dmz-to-HOST"@);
    reveal_strlit("gateway-lan-to-work");
    plain_policy_name("gateway-lan-to-work"@);
    reveal_strlit("gateway-lan-to-world");
    plain_policy_name("gateway-lan-to-world"@);
    reveal_strlit("gateway-lan-to-HOST");
    plain_policy_name("gateway-lan-to-HOST"@);
    reveal_strlit("gateway-world-to-HOST");
    plain_policy_name("gateway-world-to-HOST"@);
}

fn is_manifest_complete(
    set: &PolicySetName,
    policies: &NameMap<PolicyName, PolicyDetails>,
    members: usize,
) -> (r: bool)
    ensures
        r == manifest_complete(set.deep_view(), policies.deep_view(), members as int),
{
    proof {
        gateway_names_are_policies();
    }
    if text::same(set.as_str(), "gateway") {
        members == 5 && has_policy(
            policies,
            "gateway-dmz-to-HOST",
        ) && has_policy(
            policies,
            "gateway-lan-to-work",
        ) && has_policy(
            policies,
            "gateway-lan-to-world",
        ) && has_policy(
            policies,
            "gateway-lan-to-HOST",
        ) && has_policy(
            policies,
            "gateway-world-to-HOST",
        )
    } else {
        members == 0
    }
}

impl PolicySetScope {
    fn from_policies(name: &PolicySetName, policies: &NameMap<PolicyName, PolicyDetails>) -> (r:
        Self)
        ensures
            r.deep_view() == PolicySetScopeView::of(name.deep_view(), policies.deep_view()),
    {
        let prefix = text::cat2(name.as_str(), "-");
        let ghost set = name.deep_view();
        let ghost shown = policies.deep_view();
        let mut members: Vec<PolicyName> = lists::none();
        let mut disabled: usize = 0;
        let mut i: usize = 0;
        while i < policies.len()
            invariant
                prefix@ == set + "-"@,
                shown == policies.deep_view(),
                i <= shown.len(),
                members.deep_view() == members_of(set, shown, i as int),
                disabled == disabled_members(set, shown, i as int),
                disabled <= i,
            decreases shown.len() - i,
        {
            let policy = policies.key(i);
            if text::starts_with(policy.as_str(), prefix.as_str()) {
                lists::push(&mut members, policy.dup());
                if policies.value(i).disabled {
                    disabled = disabled + 1;
                }
            }
            i = i + 1;
        }
        let total: usize = members.len();
        assert(total == members.deep_view().len());
        let state = if total == 0 {
            PolicySetState::Absent
        } else if !is_manifest_complete(name, policies, total) {
            PolicySetState::Partial
        } else if disabled == 0 {
            PolicySetState::Enabled
        } else if disabled == total {
            PolicySetState::Disabled
        } else {
            PolicySetState::Mixed
        };
        PolicySetScope { members, state }
    }
}

/// Runtime and permanent state of one predefined policy set.
#[derive(Debug, PartialEq, Eq)]
pub struct PolicySetDetails {
    /// Validated set name used by `--policy-set`.
    pub name: PolicySetName,
    /// Live member policies.
    pub runtime: PolicySetScope,
    /// On-disk member policies.
    pub permanent: PolicySetScope,
}

/// What a `PolicySetDetails` models.
#[verifier::ext_equal]
pub struct PolicySetDetailsView {
    pub name: Seq<char>,
    pub runtime: PolicySetScopeView,
    pub permanent: PolicySetScopeView,
}

impl DeepView for PolicySetDetails {
    type V = PolicySetDetailsView;

    open spec fn deep_view(&self) -> PolicySetDetailsView {
        PolicySetDetailsView {
            name: self.name.deep_view(),
            runtime: self.runtime.deep_view(),
            permanent: self.permanent.deep_view(),
        }
    }
}

impl Value for PolicySetDetails {
    fn same(&self, other: &Self) -> (r: bool) {
        self.name.same(&other.name)
            && self.runtime.same(&other.runtime)
            && self.permanent.same(&other.permanent)
    }

    fn dup(&self) -> (r: Self) {
        PolicySetDetails {
            name: self.name.dup(),
            runtime: self.runtime.dup(),
            permanent: self.permanent.dup(),
        }
    }
}

impl Clone for PolicySetDetails {
    fn clone(&self) -> (r: Self)
        ensures
            r.deep_view() == self.deep_view(),
    {
        self.dup()
    }
}

impl PolicySetDetailsView {
    /// A set as the policies of a snapshot show it.
    pub open spec fn of(s: FirewallSnapshotView, name: Seq<char>) -> PolicySetDetailsView {
        PolicySetDetailsView {
            name,
            runtime: PolicySetScopeView::of(name, s.policies.runtime),
            permanent: PolicySetScopeView::of(name, s.policies.permanent),
        }
    }
}

impl PolicySetDetails {
    /// Derives a set from the policy snapshot.
    pub fn from_snapshot(snapshot: &FirewallSnapshot, name: PolicySetName) -> (r: Self)
        ensures
            r.deep_view() == PolicySetDetailsView::of(snapshot.deep_view(), name.deep_view()),
    {
        PolicySetDetails {
            runtime: PolicySetScope::from_policies(&name, &snapshot.policies.runtime),
            permanent: PolicySetScope::from_policies(&name, &snapshot.policies.permanent),
            name,
        }
    }

    /// Whether `FWDeck` has an upstream manifest for this set.
    pub fn is_known(name: &PolicySetName) -> (r: bool)
        ensures
            r == (name.deep_view() == "gateway"@),
    {
        text::same(name.as_str(), "gateway")
    }

    /// All known set manifests, with absent ones too so the UI can report a
    /// partial/missing installation honestly.
    pub fn known(snapshot: &FirewallSnapshot) -> (r: Vec<Self>)
        ensures
            r.deep_view() == seq![PolicySetDetailsView::of(snapshot.deep_view(), "gateway"@)],
    {
        proof {
            gateway_is_set_name();
        }
        let mut out: Vec<Self> = lists::none();
        if let Ok(name) = PolicySetName::parse("gateway") {
            lists::push(&mut out, Self::from_snapshot(snapshot, name));
        }
        out
    }
}

proof fn gateway_is_set_name()
    ensures
        PolicySetName::parsed("gateway"@) == Ok::<Seq<char>, crate::ids::ValidationErrorView>(
            "gateway"@,
        ),
{
    reveal_strlit("gateway");
    let s = "gateway"@;
    vstd::utf8::is_ascii_chars_encode_utf8(s);
    let extra = seq!['_', '-'];
    assert(extra[1] == '-');
    no_offender(s, extra, 0);
}

proof fn disabled_members_bound(
    set: Seq<char>,
    policies: Seq<(Seq<char>, PolicyDetailsView)>,
    n: int,
)
    requires
        0 <= n <= policies.len(),
    ensures
        0 <= disabled_members(set, policies, n) <= members_of(set, policies, n).len(),
        (disabled_members(set, policies, n) == 0) == (forall|i: int|
            0 <= i < n && belongs(set, (#[trigger] policies[i]).0) ==> !policies[i].1.disabled),
        (disabled_members(set, policies, n) == members_of(set, policies, n).len()) == (forall|
            i: int,
        |
            0 <= i < n && belongs(set, (#[trigger] policies[i]).0) ==> policies[i].1.disabled),
    decreases n,
{
    if n > 0 {
        disabled_members_bound(set, policies, n - 1);
    }
}

/// An enabled set has no disabled member, a disabled set has no enabled one,
/// and a mixed set has both.
pub proof fn state_tells_about_the_members(
    set: Seq<char>,
    policies: Seq<(Seq<char>, PolicyDetailsView)>,
)
    ensures
        PolicySetScopeView::of(set, policies).state is Enabled ==> forall|i: int|
            0 <= i < policies.len() && belongs(set, (#[trigger] policies[i]).0)
                ==> !policies[i].1.disabled,
        PolicySetScopeView::of(set, policies).state is Disabled ==> forall|i: int|
            0 <= i < policies.len() && belongs(set, (#[trigger] policies[i]).0)
                ==> policies[i].1.disabled,
        PolicySetScopeView::of(set, policies).state is Mixed ==> (exists|i: int|
            0 <= i < policies.len() && belongs(set, (#[trigger] policies[i]).0)
                && policies[i].1.disabled) && (exists|i: int|
            0 <= i < policies.len() && belongs(set, (#[trigger] policies[i]).0)
                && !policies[i].1.disabled),
{
    disabled_members_bound(set, policies, policies.len() as int);
}

/// A set never counts as being in both states, and an incomplete set counts as
/// being in neither.
pub proof fn states_exclude_each_other(state: PolicySetState)
    ensures
        !(state.agrees(true) == Some(true) && state.agrees(false) == Some(true)),
        (state.agrees(true) is None) == (state is Absent || state is Partial),
        (state.agrees(true) is None) == (state.agrees(false) is None),
{
}

/// The sets with a manifest are the listed ones.
pub proof fn listed_sets_are_known(name: Seq<char>)
    ensures
        (name == "gateway"@) == (exists|i: int|
            0 <= i < KNOWN_POLICY_SETS@.len() && (#[trigger] KNOWN_POLICY_SETS@[i])@ == name),
{
    assert(KNOWN_POLICY_SETS@.len() == 1);
    assert(KNOWN_POLICY_SETS@[0]@ == "gateway"@);
}

/// The gateway set is complete exactly if it has the listed members and no
/// other.
pub proof fn gateway_has_its_listed_members(
    policies: Seq<(Seq<char>, PolicyDetailsView)>,
    members: int,
)
    ensures
        manifest_complete("gateway"@, policies, members) == (members
            == GATEWAY_POLICY_MEMBERS@.len() && forall|i: int|
            0 <= i < GATEWAY_POLICY_MEMBERS@.len() ==> name_map::lookup(
                policies,
                (#[trigger] GATEWAY_POLICY_MEMBERS@[i])@,
            ) is Some),
{
    let m = GATEWAY_POLICY_MEMBERS@;
    assert(m.len() == 5);
    assert(m[0]@ == "gateway-dmz-to-HOST"@);
    assert(m[1]@ == "gateway-lan-to-work"@);
    assert(m[2]@ == "gateway-lan-to-world"@);
    assert(m[3]@ == "gateway-lan-to-HOST"@);
    assert(m[4]@ == "gateway-world-to-HOST"@);
}

/// Some policy's name starts with the set's name and a dash, with the property.
pub open spec fn some_member(
    set: Seq<char>,
    policies: Seq<(Seq<char>, PolicyDetailsView)>,
    disabled: bool,
) -> bool {
    exists|i: int|
        0 <= i < policies.len() && (set + "-"@).is_prefix_of((#[trigger] policies[i]).0)
            && policies[i].1.disabled == disabled
}

proof fn belonging_is_by_prefix(set: Seq<char>, policy: Seq<char>)
    ensures
        belongs(set, policy) == (set + "-"@).is_prefix_of(policy),
{
    let start = set + "-"@;
    if start.len() <= policy.len() {
        assert(belongs(set, policy) ==> start =~= policy.subrange(0, start.len() as int));
    }
}

proof fn members_counted(
    set: Seq<char>,
    policies: Seq<(Seq<char>, PolicyDetailsView)>,
    n: int,
)
    requires
        0 <= n <= policies.len(),
    ensures
        (members_of(set, policies, n).len() == 0) == (forall|i: int|
            0 <= i < n ==> !belongs(set, (#[trigger] policies[i]).0)),
    decreases n,
{
    if n > 0 {
        members_counted(set, policies, n - 1);
    }
}

/// The state of a set follows from its members, the policies whose name starts
/// with the set's name and a dash: without any it is absent. If it does not
/// have the documented ones and no other, it is partial. Otherwise it is
/// enabled or disabled if all of them are, and mixed if they differ.
pub proof fn set_state_follows_from_its_members(
    set: Seq<char>,
    policies: Seq<(Seq<char>, PolicyDetailsView)>,
)
    ensures
        ({
            let scope = PolicySetScopeView::of(set, policies);
            let off = some_member(set, policies, true);
            let on = some_member(set, policies, false);
            let whole = set == "gateway"@ && scope.members.len() == GATEWAY_POLICY_MEMBERS@.len()
                && forall|i: int|
                0 <= i < GATEWAY_POLICY_MEMBERS@.len() ==> name_map::lookup(
                    policies,
                    (#[trigger] GATEWAY_POLICY_MEMBERS@[i])@,
                ) is Some;
            scope.state == if !on && !off {
                PolicySetState::Absent
            } else if !whole {
                PolicySetState::Partial
            } else if !off {
                PolicySetState::Enabled
            } else if !on {
                PolicySetState::Disabled
            } else {
                PolicySetState::Mixed
            }
        }),
{
    let n = policies.len() as int;
    let scope = PolicySetScopeView::of(set, policies);
    assert forall|name: Seq<char>| #[trigger] belongs(set, name) == (set + "-"@).is_prefix_of(
        name,
    ) by {
        belonging_is_by_prefix(set, name);
    }
    members_counted(set, policies, n);
    disabled_members_bound(set, policies, n);
    gateway_has_its_listed_members(policies, scope.members.len() as int);
    assert forall|i: int| 0 <= i < n && belongs(set, (#[trigger] policies[i]).0) implies (set
        + "-"@).is_prefix_of(policies[i].0) by {}
    if some_member(set, policies, true) {
        let i = choose|i: int|
            0 <= i < policies.len() && (set + "-"@).is_prefix_of((#[trigger] policies[i]).0)
                && policies[i].1.disabled == true;
        assert(belongs(set, policies[i].0));
    }
    if some_member(set, policies, false) {
        let i = choose|i: int|
            0 <= i < policies.len() && (set + "-"@).is_prefix_of((#[trigger] policies[i]).0)
                && policies[i].1.disabled == false;
        assert(belongs(set, policies[i].0));
    }
}

/// A set has the requested state exactly if it is enabled, or disabled, as
/// requested; where members are missing that cannot be told.
pub proof fn requested_states(state: PolicySetState, enabled: bool)
    ensures
        state.agrees(enabled) == Some(true) <==> (enabled && state is Enabled) || (!enabled
            && state is Disabled),
        state.agrees(enabled) is None <==> state is Absent || state is Partial,
{
}

/// A set in a snapshot is looked at in each configuration by itself.
pub proof fn sets_are_seen_per_scope(s: FirewallSnapshotView, name: Seq<char>)
    ensures
        PolicySetDetailsView::of(s, name).name == name,
        PolicySetDetailsView::of(s, name).runtime == PolicySetScopeView::of(
            name,
            s.policies.runtime,
        ),
        PolicySetDetailsView::of(s, name).permanent == PolicySetScopeView::of(
            name,
            s.policies.permanent,
        ),
{
}

} // verus!
