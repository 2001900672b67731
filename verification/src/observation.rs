//! Read-only observations the UI displays: refresh health, parsed kernel-log
//! lines, and nft per-chain hit counters. Pure value types (no I/O) — adapters
//! produce them and the application transports them inward-to-outward.

use vstd::prelude::*;

use std::time::Duration;
use crate::model::Value;

verus! {

/// Logical part of one firewall snapshot refresh.
#[derive(Debug, Clone, Copy, PartialEq, Eq, Hash, PartialOrd, Ord, Structural)]
pub enum RefreshSection {
    /// Daemon state, version, panic mode, and log-denied state.
    Status,
    /// Default zone, active bindings, and runtime/permanent zone data.
    Zones,
    /// Runtime and permanent IP sets.
    IpSets,
    /// Available and referenced service definitions.
    Services,
    /// Runtime and permanent policies.
    Policies,
    /// Deprecated direct-interface rules.
    DirectRules,
}

impl DeepView for RefreshSection {
    type V = RefreshSection;

    open spec fn deep_view(&self) -> RefreshSection {
        *self
    }
}

impl Value for RefreshSection {
    fn same(&self, other: &Self) -> (r: bool) {
        *self == *other
    }

    fn dup(&self) -> (r: Self) {
        *self
    }
}

impl RefreshSection {
    /// The text of each variant.
    pub open spec fn spelled(self) -> Seq<char> {
        match self {
            RefreshSection::Status => "status"@,
            RefreshSection::Zones => "zones"@,
            RefreshSection::IpSets => "ipsets"@,
            RefreshSection::Services => "services"@,
            RefreshSection::Policies => "policies"@,
            RefreshSection::DirectRules => "direct rules"@,
        }
    }

    /// Stable operator-facing label used by Doctor and diagnostics.
    pub fn as_str(self) -> (r: &'static str)
        ensures
            r@ == self.spelled(),
    {
        match self {
            RefreshSection::Status => "status",
            RefreshSection::Zones => "zones",
            RefreshSection::IpSets => "ipsets",
            RefreshSection::Services => "services",
            RefreshSection::Policies => "policies",
            RefreshSection::DirectRules => "direct rules",
        }
    }
}

/// Adapter-reported work for one logical refresh section.
#[derive(Debug, Clone, Copy, PartialEq, Eq)]
pub struct RefreshSectionObservation {
    /// Section that was fetched.
    pub section: RefreshSection,
    /// Aggregate wall time spent fetching this section.
    pub elapsed: Duration,
    /// Number of external processes issued for this section.
    pub process_count: u64,
}

impl DeepView for RefreshSectionObservation {
    type V = RefreshSectionObservation;

    open spec fn deep_view(&self) -> RefreshSectionObservation {
        *self
    }
}

/// The observations of one section, in their order.
pub open spec fn of_section(
    s: Seq<RefreshSectionObservation>,
    section: RefreshSection,
) -> Seq<RefreshSectionObservation>
    decreases s.len(),
{
    if s.len() == 0 {
        s
    } else if s.last().section == section {
        of_section(s.drop_last(), section).push(s.last())
    } else {
        of_section(s.drop_last(), section)
    }
}

/// The observations in section order; those of one section keep their order.
pub open spec fn in_section_order(s: Seq<RefreshSectionObservation>) -> Seq<
    RefreshSectionObservation,
> {
    of_section(s, RefreshSection::Status) + of_section(s, RefreshSection::Zones) + of_section(
        s,
        RefreshSection::IpSets,
    ) + of_section(s, RefreshSection::Services) + of_section(s, RefreshSection::Policies)
        + of_section(s, RefreshSection::DirectRules)
}

/// Operational telemetry for one completed or failed snapshot read.
#[derive(Debug, PartialEq, Eq)]
pub struct RefreshObservation {
    /// End-to-end wall time observed at the backend boundary.
    pub elapsed: Duration,
    /// Total external process count, when the adapter can report it.
    pub process_count: Option<u64>,
    /// Per-section observations in stable section order.
    pub sections: Vec<RefreshSectionObservation>,
}

fn append_section(
    out: &mut Vec<RefreshSectionObservation>,
    sections: &Vec<RefreshSectionObservation>,
    section: RefreshSection,
)
    ensures
        final(out)@ == old(out)@ + of_section(sections@, section),
{
    let ghost start = out@;
    let mut i: usize = 0;
    assert(sections@.take(0) =~= Seq::<RefreshSectionObservation>::empty());
    assert(start + Seq::<RefreshSectionObservation>::empty() =~= start);
    while i < sections.len()
        invariant
            i <= sections@.len(),
            out@ == start + of_section(sections@.take(i as int), section),
        decreases sections.len() - i,
    {
        assert(sections@.take(i + 1).drop_last() =~= sections@.take(i as int));
        if sections[i].section == section {
            out.push(sections[i]);
            assert(out@ =~= start + of_section(sections@.take(i + 1), section));
        }
        i = i + 1;
    }
    assert(sections@.take(i as int) =~= sections@);
}

impl Clone for RefreshObservation {
    fn clone(&self) -> (r: Self)
        ensures
            r.elapsed == self.elapsed,
            r.process_count == self.process_count,
            r.sections@ == self.sections@,
    {
        let mut sections: Vec<RefreshSectionObservation> = Vec::new();
        let mut i: usize = 0;
        while i < self.sections.len()
            invariant
                i <= self.sections@.len(),
                sections@ =~= self.sections@.take(i as int),
            decreases self.sections.len() - i,
        {
            sections.push(self.sections[i]);
            i = i + 1;
        }
        assert(self.sections@.take(i as int) =~= self.sections@);
        RefreshObservation { elapsed: self.elapsed, process_count: self.process_count, sections }
    }
}

impl RefreshObservation {
    /// Creates an adapter-specific observation with stable section ordering.
    pub fn new(
        elapsed: Duration,
        process_count: u64,
        sections: Vec<RefreshSectionObservation>,
    ) -> (r: Self)
        ensures
            r.elapsed == elapsed,
            r.process_count == Some(process_count),
            r.sections@ == in_section_order(sections@),
    {
        let mut out: Vec<RefreshSectionObservation> = Vec::new();
        append_section(&mut out, &sections, RefreshSection::Status);
        append_section(&mut out, &sections, RefreshSection::Zones);
        append_section(&mut out, &sections, RefreshSection::IpSets);
        append_section(&mut out, &sections, RefreshSection::Services);
        append_section(&mut out, &sections, RefreshSection::Policies);
        append_section(&mut out, &sections, RefreshSection::DirectRules);
        assert(out@ =~= in_section_order(sections@));
        RefreshObservation { elapsed, process_count: Some(process_count), sections: out }
    }

    /// Creates a portable total-only observation for adapters without process
    /// or logical-section instrumentation.
    pub fn total_only(elapsed: Duration) -> (r: Self)
        ensures
            r.elapsed == elapsed,
            r.process_count is None,
            r.sections@.len() == 0,
    {
        RefreshObservation { elapsed, process_count: None, sections: Vec::new() }
    }
}

/// Netfilter verdict extracted from a kernel log line's rule-name prefix.
#[derive(Debug, Clone, Copy, PartialEq, Eq, Hash, PartialOrd, Ord, Structural)]
pub enum LogAction {
    /// Packet was accepted (`ACCEPT` / `ALLOW` in the prefix).
    Accept,
    /// Packet was silently dropped (`DROP` / `DENIED`).
    Drop,
    /// Packet was rejected with an error response (`REJECT`).
    Reject,
    /// Line matched the netfilter format but named no known verdict.
    Unknown,
}

impl DeepView for LogAction {
    type V = LogAction;

    open spec fn deep_view(&self) -> LogAction {
        *self
    }
}

impl Value for LogAction {
    fn same(&self, other: &Self) -> (r: bool) {
        *self == *other
    }

    fn dup(&self) -> (r: Self) {
        *self
    }
}

impl LogAction {
    /// The text of each variant.
    pub open spec fn spelled(self) -> Seq<char> {
        match self {
            LogAction::Accept => "ACCEPT"@,
            LogAction::Drop => "DROP"@,
            LogAction::Reject => "REJECT"@,
            LogAction::Unknown => "?"@,
        }
    }

    /// Short display label (`"ACCEPT"`, `"DROP"`, `"REJECT"`, `"?"`).
    pub fn as_str(self) -> (r: &'static str)
        ensures
            r@ == self.spelled(),
    {
        match self {
            LogAction::Accept => "ACCEPT",
            LogAction::Drop => "DROP",
            LogAction::Reject => "REJECT",
            LogAction::Unknown => "?",
        }
    }
}

impl LogAction {
    /// The packet was blocked.
    pub open spec fn denied(self) -> bool {
        self == LogAction::Drop || self == LogAction::Reject
    }

    /// Whether the packet was blocked (`Drop` or `Reject`).
    pub fn is_denied(self) -> (r: bool)
        ensures
            r == self.denied(),
    {
        self == LogAction::Drop || self == LogAction::Reject
    }
}

/// One parsed netfilter log line, ready for the Logs view. Fields keep the
/// kernel's string form; missing fields are empty strings, not errors.
#[derive(Debug, PartialEq, Eq, Hash, PartialOrd, Ord)]
pub struct LogEntry {
    /// `HH:MM:SS` slice of the source timestamp (full token if not ISO-shaped).
    pub time: String,
    /// Verdict inferred from the rule-name prefix.
    pub action: LogAction,
    /// Source address (`SRC=`).
    pub src: String,
    /// Destination address (`DST=`).
    pub dst: String,
    /// Destination port (`DPT=`), empty for portless protocols like ICMP.
    pub dport: String,
    /// Protocol (`PROTO=`), e.g. `TCP`/`UDP`.
    pub proto: String,
    /// Ingress interface (`IN=`).
    pub iface: String,
}

/// What a `LogEntry` models.
#[verifier::ext_equal]
pub struct LogEntryView {
    pub time: Seq<char>,
    pub action: LogAction,
    pub src: Seq<char>,
    pub dst: Seq<char>,
    pub dport: Seq<char>,
    pub proto: Seq<char>,
    pub iface: Seq<char>,
}

impl DeepView for LogEntry {
    type V = LogEntryView;

    open spec fn deep_view(&self) -> LogEntryView {
        LogEntryView {
            time: self.time.deep_view(),
            action: self.action.deep_view(),
            src: self.src.deep_view(),
            dst: self.dst.deep_view(),
            dport: self.dport.deep_view(),
            proto: self.proto.deep_view(),
            iface: self.iface.deep_view(),
        }
    }
}

impl Value for LogEntry {
    fn same(&self, other: &Self) -> (r: bool) {
        self.time.same(&other.time)
            && self.action == other.action
            && self.src.same(&other.src)
            && self.dst.same(&other.dst)
            && self.dport.same(&other.dport)
            && self.proto.same(&other.proto)
            && self.iface.same(&other.iface)
    }

    fn dup(&self) -> (r: Self) {
        LogEntry {
            time: self.time.dup(),
            action: self.action,
            src: self.src.dup(),
            dst: self.dst.dup(),
            dport: self.dport.dup(),
            proto: self.proto.dup(),
            iface: self.iface.dup(),
        }
    }
}

impl Clone for LogEntry {
    fn clone(&self) -> (r: Self)
        ensures
            r.deep_view() == self.deep_view(),
    {
        self.dup()
    }
}

/// Aggregated hit counter for one nft chain in the `firewalld` table.
#[derive(Debug, PartialEq, Eq)]
pub struct ChainCounter {
    /// The nft chain name (e.g. `filter_IN_public`).
    pub chain: String,
    /// Total packets matched by countered rules in this chain.
    pub packets: u64,
    /// Total bytes matched by countered rules in this chain.
    pub bytes: u64,
}

/// What a `ChainCounter` models.
#[verifier::ext_equal]
pub struct ChainCounterView {
    pub chain: Seq<char>,
    pub packets: u64,
    pub bytes: u64,
}

impl DeepView for ChainCounter {
    type V = ChainCounterView;

    open spec fn deep_view(&self) -> ChainCounterView {
        ChainCounterView {
            chain: self.chain.deep_view(),
            packets: self.packets.deep_view(),
            bytes: self.bytes.deep_view(),
        }
    }
}

impl Value for ChainCounter {
    fn same(&self, other: &Self) -> (r: bool) {
        self.chain.same(&other.chain) && self.packets == other.packets && self.bytes == other.bytes
    }

    fn dup(&self) -> (r: Self) {
        ChainCounter {
            chain: self.chain.dup(),
            packets: self.packets,
            bytes: self.bytes,
        }
    }
}

impl Clone for ChainCounter {
    fn clone(&self) -> (r: Self)
        ensures
            r.deep_view() == self.deep_view(),
    {
        self.dup()
    }
}

proof fn section_takes_one(s: Seq<RefreshSectionObservation>, section: RefreshSection)
    requires
        s.len() > 0,
    ensures
        of_section(s, section).to_multiset() == if s.last().section == section {
            of_section(s.drop_last(), section).to_multiset().insert(s.last())
        } else {
            of_section(s.drop_last(), section).to_multiset()
        },
{
    broadcast use vstd::seq_lib::group_to_multiset_ensures;

}

proof fn in_parts(s: Seq<RefreshSectionObservation>)
    ensures
        in_section_order(s).to_multiset() == of_section(s, RefreshSection::Status).to_multiset().add(
            of_section(s, RefreshSection::Zones).to_multiset(),
        ).add(of_section(s, RefreshSection::IpSets).to_multiset()).add(
            of_section(s, RefreshSection::Services).to_multiset(),
        ).add(of_section(s, RefreshSection::Policies).to_multiset()).add(
            of_section(s, RefreshSection::DirectRules).to_multiset(),
        ),
{
    let a = of_section(s, RefreshSection::Status);
    let b = of_section(s, RefreshSection::Zones);
    let c = of_section(s, RefreshSection::IpSets);
    let d = of_section(s, RefreshSection::Services);
    let e = of_section(s, RefreshSection::Policies);
    let f = of_section(s, RefreshSection::DirectRules);
    vstd::seq_lib::lemma_multiset_commutative(a, b);
    vstd::seq_lib::lemma_multiset_commutative(a + b, c);
    vstd::seq_lib::lemma_multiset_commutative(a + b + c, d);
    vstd::seq_lib::lemma_multiset_commutative(a + b + c + d, e);
    vstd::seq_lib::lemma_multiset_commutative(a + b + c + d + e, f);
}

/// Putting the observations in section order loses none and adds none.
pub proof fn section_order_keeps_every_observation(s: Seq<RefreshSectionObservation>)
    ensures
        in_section_order(s).to_multiset() == s.to_multiset(),
    decreases s.len(),
{
    in_parts(s);
    broadcast use vstd::seq_lib::group_to_multiset_ensures;

    if s.len() == 0 {
        assert(in_section_order(s) =~= s);
    } else {
        let rest = s.drop_last();
        section_order_keeps_every_observation(rest);
        in_parts(rest);
        section_takes_one(s, RefreshSection::Status);
        section_takes_one(s, RefreshSection::Zones);
        section_takes_one(s, RefreshSection::IpSets);
        section_takes_one(s, RefreshSection::Services);
        section_takes_one(s, RefreshSection::Policies);
        section_takes_one(s, RefreshSection::DirectRules);
        assert(s =~= rest.push(s.last()));
        assert(s.to_multiset() == rest.to_multiset().insert(s.last()));
        assert(in_section_order(s).to_multiset() =~= in_section_order(rest).to_multiset().insert(
            s.last(),
        ));
    }
}

} // verus!
