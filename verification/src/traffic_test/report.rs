//! Identities, results and reports of traffic-test runs.

use vstd::prelude::*;

use crate::ip;
use crate::model;
use crate::model::Value;
use crate::number;
use crate::text;
use crate::traffic_test::scenario::{
    TrafficScenarioId, TrafficSuiteId, TrafficSuiteRevision, MAX_SCENARIOS_PER_SUITE,
};
use crate::traffic_test::{
    FirewallDecision, TrafficExpectation, TrafficTestStatus, TrafficTraceStep, TrafficTraceStepView,
    UnknownReason, MAX_TRACE_STEPS,
};

verus! {

/// Maximum serialized size of one aggregate report.
pub const MAX_TRAFFIC_REPORT_BYTES: usize = 33_554_432;

/// Process-local identity for one traffic-test run.
#[derive(Debug, Clone, Copy, PartialEq, Eq, PartialOrd, Ord, Hash)]
pub struct TrafficTestRunId {
    value: u64,
}

impl DeepView for TrafficTestRunId {
    type V = u64;

    closed spec fn deep_view(&self) -> u64 {
        self.value
    }
}

impl TrafficTestRunId {
    /// An identity is not zero.
    #[verifier::type_invariant]
    pub open spec fn valid(self) -> bool {
        self.deep_view() != 0
    }

    /// Creates a non-zero process-local identity.
    pub fn new(value: u64) -> (r: Result<Self, TrafficReportError>)
        ensures
            model::outcome(r) == (if value == 0 {
                Err(TrafficReportErrorView::ZeroRunId)
            } else {
                Ok(value)
            }),
    {
        if value == 0 {
            Err(TrafficReportError::ZeroRunId)
        } else {
            Ok(TrafficTestRunId { value })
        }
    }

    /// Returns the numeric identity.
    pub fn get(self) -> (r: u64)
        ensures
            r == self.deep_view(),
            r != 0,
    {
        proof {
            use_type_invariant(&self);
        }
        self.value
    }
}

impl Value for TrafficTestRunId {
    fn same(&self, other: &Self) -> (r: bool) {
        self.value == other.value
    }

    fn dup(&self) -> (r: Self) {
        *self
    }
}

/// Process-local identity for one reviewed mutation intent.
#[derive(Debug, Clone, Copy, PartialEq, Eq, PartialOrd, Ord, Hash)]
pub struct MutationIntentId {
    value: u64,
}

impl DeepView for MutationIntentId {
    type V = u64;

    closed spec fn deep_view(&self) -> u64 {
        self.value
    }
}

impl MutationIntentId {
    /// An identity is not zero.
    #[verifier::type_invariant]
    pub open spec fn valid(self) -> bool {
        self.deep_view() != 0
    }

    /// Creates a non-zero process-local identity.
    pub fn new(value: u64) -> (r: Result<Self, TrafficReportError>)
        ensures
            model::outcome(r) == (if value == 0 {
                Err(TrafficReportErrorView::ZeroMutationIntentId)
            } else {
                Ok(value)
            }),
    {
        if value == 0 {
            Err(TrafficReportError::ZeroMutationIntentId)
        } else {
            Ok(MutationIntentId { value })
        }
    }

    /// Returns the numeric identity.
    pub fn get(self) -> (r: u64)
        ensures
            r == self.deep_view(),
            r != 0,
    {
        proof {
            use_type_invariant(&self);
        }
        self.value
    }
}

impl Value for MutationIntentId {
    fn same(&self, other: &Self) -> (r: bool) {
        self.value == other.value
    }

    fn dup(&self) -> (r: Self) {
        *self
    }
}

/// Domain-safe copy of one authoritative application snapshot identity.
#[derive(Debug, Clone, Copy, PartialEq, Eq, PartialOrd, Ord, Hash)]
pub struct EvaluationSnapshotIdentity {
    refresh_id: u64,
    generation: u64,
}

/// What an `EvaluationSnapshotIdentity` models.
#[verifier::ext_equal]
pub struct EvaluationSnapshotIdentityView {
    pub refresh_id: u64,
    pub generation: u64,
}

impl DeepView for EvaluationSnapshotIdentity {
    type V = EvaluationSnapshotIdentityView;

    closed spec fn deep_view(&self) -> EvaluationSnapshotIdentityView {
        EvaluationSnapshotIdentityView { refresh_id: self.refresh_id, generation: self.generation }
    }
}

impl EvaluationSnapshotIdentity {
    /// A publication generation is not zero.
    #[verifier::type_invariant]
    pub open spec fn valid(self) -> bool {
        self.deep_view().generation != 0
    }

    /// Creates an identity from a refresh lifecycle and publication generation.
    pub fn new(refresh_id: u64, generation: u64) -> (r: Result<Self, TrafficReportError>)
        ensures
            model::outcome(r) == (if generation == 0 {
                Err(TrafficReportErrorView::ZeroSnapshotGeneration)
            } else {
                Ok(EvaluationSnapshotIdentityView { refresh_id, generation })
            }),
    {
        if generation == 0 {
            Err(TrafficReportError::ZeroSnapshotGeneration)
        } else {
            Ok(EvaluationSnapshotIdentity { refresh_id, generation })
        }
    }

    /// Returns the originating refresh identity.
    pub fn refresh_id(self) -> (r: u64)
        ensures
            r == self.deep_view().refresh_id,
    {
        self.refresh_id
    }

    /// Returns the process-local publication generation.
    pub fn generation(self) -> (r: u64)
        ensures
            r == self.deep_view().generation,
            r != 0,
    {
        proof {
            use_type_invariant(&self);
        }
        self.generation
    }
}

impl Value for EvaluationSnapshotIdentity {
    fn same(&self, other: &Self) -> (r: bool) {
        self.refresh_id == other.refresh_id && self.generation == other.generation
    }

    fn dup(&self) -> (r: Self) {
        *self
    }
}

/// Domain-safe copy of an optional staged plan identity.
#[derive(Debug, Clone, Copy, PartialEq, Eq, PartialOrd, Ord, Hash)]
pub struct EvaluationPlanId {
    value: u64,
}

impl DeepView for EvaluationPlanId {
    type V = u64;

    closed spec fn deep_view(&self) -> u64 {
        self.value
    }
}

impl EvaluationPlanId {
    /// Copies an application-owned plan identity into an evaluation context.
    pub fn new(value: u64) -> (r: Self)
        ensures
            r.deep_view() == value,
    {
        EvaluationPlanId { value }
    }

    /// Returns the numeric correlation identity.
    pub fn get(self) -> (r: u64)
        ensures
            r == self.deep_view(),
    {
        self.value
    }
}

impl Value for EvaluationPlanId {
    fn same(&self, other: &Self) -> (r: bool) {
        self.value == other.value
    }

    fn dup(&self) -> (r: Self) {
        *self
    }
}

/// Exact configuration scope evaluated by one run.
#[derive(Debug, Clone, Copy, PartialEq, Eq, Hash, Structural)]
pub enum EvaluationTarget {
    /// Live runtime configuration.
    Runtime,
    /// Stored permanent configuration.
    Permanent,
}

impl DeepView for EvaluationTarget {
    type V = EvaluationTarget;

    open spec fn deep_view(&self) -> EvaluationTarget {
        *self
    }
}

impl Value for EvaluationTarget {
    fn same(&self, other: &Self) -> (r: bool) {
        *self == *other
    }

    fn dup(&self) -> (r: Self) {
        *self
    }
}

/// Lifecycle phase represented by an evaluation context.
#[derive(Debug, Clone, Copy, PartialEq, Eq, Hash, Structural)]
pub enum EvaluationPhase {
    /// Current authoritative configuration.
    Current,
    /// Pure projected configuration before apply.
    StagedCandidate,
    /// Fresh authoritative configuration after apply.
    PostApply,
}

impl DeepView for EvaluationPhase {
    type V = EvaluationPhase;

    open spec fn deep_view(&self) -> EvaluationPhase {
        *self
    }
}

impl Value for EvaluationPhase {
    fn same(&self, other: &Self) -> (r: bool) {
        *self == *other
    }

    fn dup(&self) -> (r: Self) {
        *self
    }
}

impl EvaluationPhase {
    /// The name of the phase.
    pub open spec fn named(self) -> Seq<char> {
        match self {
            EvaluationPhase::Current => "Current"@,
            EvaluationPhase::StagedCandidate => "StagedCandidate"@,
            EvaluationPhase::PostApply => "PostApply"@,
        }
    }

    /// The name of the phase.
    pub fn name(self) -> (r: &'static str)
        ensures
            r@ == self.named(),
    {
        match self {
            EvaluationPhase::Current => "Current",
            EvaluationPhase::StagedCandidate => "StagedCandidate",
            EvaluationPhase::PostApply => "PostApply",
        }
    }
}

// ---------------------------------------------------------------------------
// The digest of an operation sequence
// ---------------------------------------------------------------------------
/// The state of the digest before the first byte.
pub const DIGEST_OFFSET: u64 = 0xcbf2_9ce4_8422_2325;

/// The multiplier of the digest.
pub const DIGEST_PRIME: u64 = 0x0000_0100_0000_01b3;

/// One byte taken into the digest (FNV-1a).
pub open spec fn absorbed(digest: u64, byte: u8) -> u64 {
    (digest ^ (byte as u64)).wrapping_mul(DIGEST_PRIME)
}

/// All bytes taken into the digest, in their order.
pub open spec fn absorbed_all(digest: u64, bytes: Seq<u8>) -> u64
    decreases bytes.len(),
{
    if bytes.len() == 0 {
        digest
    } else {
        absorbed(absorbed_all(digest, bytes.drop_last()), bytes.last())
    }
}

/// The last `k` base-256 digits of `n`, the lowest first.
pub open spec fn low_bytes(n: nat, k: nat) -> Seq<u8>
    decreases k,
{
    if k == 0 {
        Seq::empty()
    } else {
        seq![(n % 256) as u8] + low_bytes(n / 256, (k - 1) as nat)
    }
}

/// An operation's bytes behind their length as eight bytes.
pub open spec fn framed(operation: Seq<u8>) -> Seq<u8> {
    low_bytes(operation.len(), 8) + operation
}

/// The framed operations one behind the other.
pub open spec fn framed_all(operations: Seq<Seq<u8>>) -> Seq<u8>
    decreases operations.len(),
{
    if operations.len() == 0 {
        Seq::empty()
    } else {
        framed_all(operations.drop_last()) + framed(operations.last())
    }
}

/// The digest of an ordered operation sequence.
pub open spec fn digest_of(operations: Seq<Seq<u8>>) -> u64 {
    absorbed_all(DIGEST_OFFSET, framed_all(operations))
}

proof fn absorbed_in_parts(digest: u64, a: Seq<u8>, b: Seq<u8>)
    ensures
        absorbed_all(digest, a + b) == absorbed_all(absorbed_all(digest, a), b),
    decreases b.len(),
{
    if b.len() == 0 {
        assert(a + b =~= a);
    } else {
        assert((a + b).drop_last() =~= a + b.drop_last());
        absorbed_in_parts(digest, a, b.drop_last());
    }
}

proof fn low_bytes_len(n: nat, k: nat)
    ensures
        low_bytes(n, k).len() == k,
    decreases k,
{
    if k > 0 {
        low_bytes_len(n / 256, (k - 1) as nat);
    }
}

proof fn low_bytes_tell(m: nat, n: nat, k: nat, bound: nat)
    requires
        low_bytes(m, k) == low_bytes(n, k),
        m < bound,
        n < bound,
        bound <= vstd::arithmetic::power::pow(256, k),
    ensures
        m == n,
    decreases k,
{
    vstd::arithmetic::power::lemma_pow0(256);
    if k > 0 {
        let j = (k - 1) as nat;
        low_bytes_len(m / 256, j);
        low_bytes_len(n / 256, j);
        assert(low_bytes(m, k).skip(1) =~= low_bytes(m / 256, j));
        assert(low_bytes(n, k).skip(1) =~= low_bytes(n / 256, j));
        assert(low_bytes(m, k)[0] == (m % 256) as u8);
        assert(low_bytes(n, k)[0] == (n % 256) as u8);
        assert(vstd::arithmetic::power::pow(256, k) == 256 * vstd::arithmetic::power::pow(256, j))
            by {
            reveal(vstd::arithmetic::power::pow);
        }
        vstd::arithmetic::power::lemma_pow_positive(256, j);
        low_bytes_tell(m / 256, n / 256, j, vstd::arithmetic::power::pow(256, j) as nat);
    }
}

/// The framed operations, seen from the first one.
proof fn framed_from_first(operations: Seq<Seq<u8>>)
    requires
        operations.len() > 0,
    ensures
        framed_all(operations) == framed(operations[0]) + framed_all(operations.skip(1)),
    decreases operations.len(),
{
    if operations.len() == 1 {
        assert(operations.drop_last() =~= Seq::<Seq<u8>>::empty());
        assert(operations.skip(1) =~= Seq::<Seq<u8>>::empty());
        let nothing = framed_all(Seq::<Seq<u8>>::empty());
        assert(nothing.len() == 0);
        assert(framed_all(operations) == nothing + framed(operations.last()));
        assert(framed_all(operations) =~= framed(operations[0]));
        assert(framed(operations[0]) + framed_all(operations.skip(1)) =~= framed(operations[0]));
    } else {
        framed_from_first(operations.drop_last());
        assert(operations.drop_last().skip(1) =~= operations.skip(1).drop_last());
        assert(framed_all(operations) =~= framed(operations[0]) + framed_all(operations.skip(1)));
    }
}

/// The bytes that the digest takes in tell the operations and their order:
/// two sequences whose framed bytes agree are equal.
pub proof fn framing_tells_operations(a: Seq<Seq<u8>>, b: Seq<Seq<u8>>)
    requires
        forall|i: int| 0 <= i < a.len() ==> (#[trigger] a[i]).len() <= u64::MAX,
        forall|i: int| 0 <= i < b.len() ==> (#[trigger] b[i]).len() <= u64::MAX,
        framed_all(a) == framed_all(b),
    ensures
        a == b,
    decreases a.len(),
{
    if a.len() > 0 {
        framed_from_first(a);
        low_bytes_len(a[0].len(), 8);
    }
    if b.len() > 0 {
        framed_from_first(b);
        low_bytes_len(b[0].len(), 8);
    }
    if a.len() == 0 || b.len() == 0 {
        assert(a.len() == 0 && b.len() == 0);
        assert(a =~= b);
    } else {
        let whole = framed_all(a);
        assert(whole.take(8) =~= low_bytes(a[0].len(), 8));
        assert(whole.take(8) =~= low_bytes(b[0].len(), 8));
        assert(vstd::arithmetic::power::pow(256, 8) == 0x1_0000_0000_0000_0000) by {
            reveal_with_fuel(vstd::arithmetic::power::pow, 9);
        }
        low_bytes_tell(a[0].len(), b[0].len(), 8, 0x1_0000_0000_0000_0000);
        let n = 8 + a[0].len() as int;
        assert(whole.take(n).skip(8) =~= a[0]);
        assert(whole.take(n).skip(8) =~= b[0]);
        assert(whole.skip(n) =~= framed_all(a.skip(1)));
        assert(whole.skip(n) =~= framed_all(b.skip(1)));
        framing_tells_operations(a.skip(1), b.skip(1));
        assert forall|i: int| 0 <= i < a.len() implies a[i] == b[i] by {
            if i > 0 {
                assert(a[i] == a.skip(1)[i - 1]);
                assert(b[i] == b.skip(1)[i - 1]);
            }
        }
        assert(a.len() == a.skip(1).len() + 1);
        assert(a =~= b);
    }
}

/// The `k` lowest hexadecimal digits of `n`, the highest first.
pub open spec fn fixed_hex(n: nat, k: nat) -> Seq<char>
    decreases k,
{
    if k == 0 {
        Seq::empty()
    } else {
        fixed_hex(n / 16, (k - 1) as nat).push(ip::hex_digit_char((n % 16) as int))
    }
}

/// A lower-case hexadecimal digit.
pub open spec fn lower_hex_digit(c: char) -> bool {
    text::digit(c) || ('a' <= c && c <= 'f')
}

/// A fixed-width spelling is made of lower-case hexadecimal digits, and reads
/// back as the number where the width suffices.
pub proof fn fixed_hex_reads_back(n: nat, k: nat)
    ensures
        forall|i: int|
            0 <= i < fixed_hex(n, k).len() ==> lower_hex_digit(#[trigger] fixed_hex(n, k)[i]),
        n < vstd::arithmetic::power::pow(16, k) ==> ip::hex_value(fixed_hex(n, k)) == n,
    decreases k,
{
    vstd::arithmetic::power::lemma_pow0(16);
    if k > 0 {
        let rest = fixed_hex(n / 16, (k - 1) as nat);
        let c = ip::hex_digit_char((n % 16) as int);
        fixed_hex_reads_back(n / 16, (k - 1) as nat);
        vstd::arithmetic::power::lemma_pow1(16);
        vstd::arithmetic::power::lemma_pow_adds(16, 1, (k - 1) as nat);
        let s = fixed_hex(n, k);
        assert(s == rest.push(c));
        assert(s.drop_last() =~= rest);
        assert(s.last() == c);
        assert(lower_hex_digit(c) && ip::hex_digit_value(c) == n % 16);
        assert forall|i: int| 0 <= i < s.len() implies lower_hex_digit(#[trigger] s[i]) by {
            if i < rest.len() {
                assert(s[i] == rest[i]);
            }
        }
    }
}

/// A fixed-width spelling has that width.
pub proof fn fixed_hex_len(n: nat, k: nat)
    ensures
        fixed_hex(n, k).len() == k,
    decreases k,
{
    if k > 0 {
        fixed_hex_len(n / 16, (k - 1) as nat);
    }
}

fn hex_text(n: u64, k: u8) -> (r: String)
    ensures
        r@ == fixed_hex(n as nat, k as nat),
    decreases k,
{
    if k == 0 {
        proof {
            reveal_strlit("");
        }
        assert(""@ =~= Seq::<char>::empty());
        return "".to_owned();
    }
    let mut out = hex_text(n / 16, k - 1);
    let d: u8 = (n % 16) as u8;
    let c: char = if d < 10 {
        (48 + d) as char
    } else {
        (87 + d) as char
    };
    out.push(c);
    out
}

fn absorb(digest: u64, byte: u8) -> (r: u64)
    ensures
        r == absorbed(digest, byte),
{
    (digest ^ (byte as u64)).wrapping_mul(DIGEST_PRIME)
}

fn absorb_length(digest: u64, length: u64) -> (r: u64)
    ensures
        r == absorbed_all(digest, low_bytes(length as nat, 8)),
{
    let mut state: u64 = digest;
    let mut rest: u64 = length;
    let mut k: u64 = 0;
    let ghost mut done: Seq<u8> = Seq::empty();
    assert(done + low_bytes(rest as nat, 8) =~= low_bytes(length as nat, 8));
    while k < 8
        invariant
            k <= 8,
            state == absorbed_all(digest, done),
            done + low_bytes(rest as nat, (8 - k) as nat) == low_bytes(length as nat, 8),
        decreases 8 - k,
    {
        let byte: u8 = (rest % 256) as u8;
        state = absorb(state, byte);
        proof {
            let left = low_bytes((rest / 256) as nat, (7 - k) as nat);
            assert(low_bytes(rest as nat, (8 - k) as nat) == seq![byte] + left);
            assert(done.push(byte) + left =~= done + (seq![byte] + left));
            assert(done.push(byte).drop_last() =~= done);
            done = done.push(byte);
        }
        rest = rest / 256;
        k = k + 1;
    }
    assert(done + low_bytes(rest as nat, 0) =~= done);
    state
}

fn absorb_bytes(digest: u64, bytes: &Vec<u8>) -> (r: u64)
    ensures
        r == absorbed_all(digest, bytes@),
{
    let mut state: u64 = digest;
    let mut i: usize = 0;
    assert(bytes@.take(0) =~= Seq::<u8>::empty());
    while i < bytes.len()
        invariant
            i <= bytes@.len(),
            state == absorbed_all(digest, bytes@.take(i as int)),
        decreases bytes.len() - i,
    {
        assert(bytes@.take(i + 1).drop_last() =~= bytes@.take(i as int));
        state = absorb(state, bytes[i]);
        i = i + 1;
    }
    assert(bytes@.take(i as int) =~= bytes@);
    state
}

/// Stable non-cryptographic digest of one ordered mutation sequence.
#[derive(Debug, Clone, Copy, PartialEq, Eq, PartialOrd, Ord, Hash)]
pub struct OrderedOperationDigest {
    value: u64,
}

impl DeepView for OrderedOperationDigest {
    type V = u64;

    closed spec fn deep_view(&self) -> u64 {
        self.value
    }
}

impl Value for OrderedOperationDigest {
    fn same(&self, other: &Self) -> (r: bool) {
        self.value == other.value
    }

    fn dup(&self) -> (r: Self) {
        *self
    }
}

impl OrderedOperationDigest {
    /// Hashes length-delimited canonical operation bytes with fixed FNV-1a parameters.
    pub fn from_ordered_bytes(operations: &Vec<Vec<u8>>) -> (r: Self)
        ensures
            r.deep_view() == digest_of(operations.deep_view()),
    {
        let ghost all = operations.deep_view();
        let mut digest: u64 = DIGEST_OFFSET;
        let mut i: usize = 0;
        assert(framed_all(all.take(0)) =~= Seq::<u8>::empty());
        while i < operations.len()
            invariant
                i <= operations@.len(),
                all == operations.deep_view(),
                digest == digest_of(all.take(i as int)),
            decreases operations.len() - i,
        {
            let operation = &operations[i];
            let ghost before = framed_all(all.take(i as int));
            let ghost length = low_bytes(operation@.len(), 8);
            proof {
                assert(all.take(i + 1).drop_last() =~= all.take(i as int));
                assert(all[i as int] =~= operation@);
                assert(framed_all(all.take(i + 1)) =~= before + length + operation@);
                absorbed_in_parts(DIGEST_OFFSET, before + length, operation@);
                absorbed_in_parts(DIGEST_OFFSET, before, length);
            }
            digest = absorb_length(digest, operation.len() as u64);
            digest = absorb_bytes(digest, operation);
            i = i + 1;
        }
        assert(all.take(i as int) =~= all);
        OrderedOperationDigest { value: digest }
    }

    /// Returns the fixed-width lowercase diagnostic representation.
    pub fn as_hex(self) -> (r: String)
        ensures
            r@ == fixed_hex(self.deep_view() as nat, 16),
            r@.len() == 16,
            forall|i: int| 0 <= i < 16 ==> lower_hex_digit(#[trigger] r@[i]),
            ip::hex_value(r@) == self.deep_view(),
    {
        proof {
            fixed_hex_len(self.value as nat, 16);
            fixed_hex_reads_back(self.value as nat, 16);
            assert(vstd::arithmetic::power::pow(16, 16) == 0x1_0000_0000_0000_0000) by {
                reveal(vstd::arithmetic::power::pow);
                reveal_with_fuel(vstd::arithmetic::power::pow, 17);
            }
        }
        hex_text(self.value, 16)
    }

    /// Takes back a digest that was recorded earlier.
    pub fn recorded(value: u64) -> (r: Self)
        ensures
            r.deep_view() == value,
    {
        OrderedOperationDigest { value }
    }

    /// Returns the raw deterministic correlation value.
    pub fn get(self) -> (r: u64)
        ensures
            r == self.deep_view(),
    {
        self.value
    }
}

/// Identity of one target-specific immutable candidate projection.
#[derive(Debug, Clone, Copy, PartialEq, Eq, Hash)]
pub struct CandidateIdentity {
    base_snapshot: EvaluationSnapshotIdentity,
    mutation_intent_id: MutationIntentId,
    plan_id: Option<EvaluationPlanId>,
    target: EvaluationTarget,
    ordered_operation_digest: OrderedOperationDigest,
}

/// What a `CandidateIdentity` models.
#[verifier::ext_equal]
pub struct CandidateIdentityView {
    pub base_snapshot: EvaluationSnapshotIdentityView,
    pub mutation_intent_id: u64,
    pub plan_id: Option<u64>,
    pub target: EvaluationTarget,
    pub ordered_operation_digest: u64,
}

impl DeepView for CandidateIdentity {
    type V = CandidateIdentityView;

    closed spec fn deep_view(&self) -> CandidateIdentityView {
        CandidateIdentityView {
            base_snapshot: self.base_snapshot.deep_view(),
            mutation_intent_id: self.mutation_intent_id.deep_view(),
            plan_id: self.plan_id.deep_view(),
            target: self.target.deep_view(),
            ordered_operation_digest: self.ordered_operation_digest.deep_view(),
        }
    }
}

impl Value for CandidateIdentity {
    fn same(&self, other: &Self) -> (r: bool) {
        self.base_snapshot.same(&other.base_snapshot)
            && self.mutation_intent_id.same(&other.mutation_intent_id)
            && self.plan_id.same(&other.plan_id)
            && self.target == other.target
            && self.ordered_operation_digest.same(&other.ordered_operation_digest)
    }

    fn dup(&self) -> (r: Self) {
        *self
    }
}

impl CandidateIdentity {
    /// Binds a candidate to its exact base, reviewed intent, target, and operation order.
    pub fn new(
        base_snapshot: EvaluationSnapshotIdentity,
        mutation_intent_id: MutationIntentId,
        plan_id: Option<EvaluationPlanId>,
        target: EvaluationTarget,
        ordered_operation_digest: OrderedOperationDigest,
    ) -> (r: Self)
        ensures
            r.deep_view() == (CandidateIdentityView {
                base_snapshot: base_snapshot.deep_view(),
                mutation_intent_id: mutation_intent_id.deep_view(),
                plan_id: plan_id.deep_view(),
                target,
                ordered_operation_digest: ordered_operation_digest.deep_view(),
            }),
    {
        CandidateIdentity {
            base_snapshot,
            mutation_intent_id,
            plan_id,
            target,
            ordered_operation_digest,
        }
    }

    /// Returns the authoritative snapshot used as projection input.
    pub fn base_snapshot(self) -> (r: EvaluationSnapshotIdentity)
        ensures
            r.deep_view() == self.deep_view().base_snapshot,
    {
        self.base_snapshot
    }

    /// Returns the reviewed mutation identity.
    pub fn mutation_intent_id(self) -> (r: MutationIntentId)
        ensures
            r.deep_view() == self.deep_view().mutation_intent_id,
    {
        self.mutation_intent_id
    }

    /// Returns the optional staged-plan identity.
    pub fn plan_id(self) -> (r: Option<EvaluationPlanId>)
        ensures
            r.deep_view() == self.deep_view().plan_id,
    {
        self.plan_id
    }

    /// Returns the exact projected target.
    pub fn target(self) -> (r: EvaluationTarget)
        ensures
            r.deep_view() == self.deep_view().target,
    {
        self.target
    }

    /// Returns the ordered-operation correlation digest.
    pub fn ordered_operation_digest(self) -> (r: OrderedOperationDigest)
        ensures
            r.deep_view() == self.deep_view().ordered_operation_digest,
    {
        self.ordered_operation_digest
    }
}

/// Immutable identity boundary carried through one evaluation run.
#[derive(Debug, PartialEq, Eq)]
pub struct EvaluationContext {
    /// Unique run identity.
    pub run_id: TrafficTestRunId,
    /// Suite whose ordered scenarios are being evaluated.
    pub suite_id: TrafficSuiteId,
    /// Exact persisted suite revision.
    pub suite_revision: TrafficSuiteRevision,
    /// Current, candidate, or post-apply lifecycle.
    pub phase: EvaluationPhase,
    /// Runtime or permanent configuration; never both.
    pub target: EvaluationTarget,
    /// Authoritative publication that anchors the evidence.
    pub authoritative_snapshot: EvaluationSnapshotIdentity,
    /// Candidate base publication, when applicable.
    pub base_snapshot: Option<EvaluationSnapshotIdentity>,
    /// Reviewed mutation identity for candidate and post-apply runs.
    pub mutation_intent_id: Option<MutationIntentId>,
    /// Optional staged-plan identity.
    pub plan_id: Option<EvaluationPlanId>,
    /// Exact candidate identity for candidate runs.
    pub candidate_identity: Option<CandidateIdentity>,
}

/// What a `EvaluationContext` models.
#[verifier::ext_equal]
pub struct EvaluationContextView {
    pub run_id: u64,
    pub suite_id: Seq<char>,
    pub suite_revision: u64,
    pub phase: EvaluationPhase,
    pub target: EvaluationTarget,
    pub authoritative_snapshot: EvaluationSnapshotIdentityView,
    pub base_snapshot: Option<EvaluationSnapshotIdentityView>,
    pub mutation_intent_id: Option<u64>,
    pub plan_id: Option<u64>,
    pub candidate_identity: Option<CandidateIdentityView>,
}

impl DeepView for EvaluationContext {
    type V = EvaluationContextView;

    open spec fn deep_view(&self) -> EvaluationContextView {
        EvaluationContextView {
            run_id: self.run_id.deep_view(),
            suite_id: self.suite_id.deep_view(),
            suite_revision: self.suite_revision.deep_view(),
            phase: self.phase.deep_view(),
            target: self.target.deep_view(),
            authoritative_snapshot: self.authoritative_snapshot.deep_view(),
            base_snapshot: self.base_snapshot.deep_view(),
            mutation_intent_id: self.mutation_intent_id.deep_view(),
            plan_id: self.plan_id.deep_view(),
            candidate_identity: self.candidate_identity.deep_view(),
        }
    }
}

impl Value for EvaluationContext {
    fn same(&self, other: &Self) -> (r: bool) {
        self.run_id.same(&other.run_id)
            && self.suite_id.same(&other.suite_id)
            && self.suite_revision.same(&other.suite_revision)
            && self.phase == other.phase
            && self.target == other.target
            && self.authoritative_snapshot.same(&other.authoritative_snapshot)
            && self.base_snapshot.same(&other.base_snapshot)
            && self.mutation_intent_id.same(&other.mutation_intent_id)
            && self.plan_id.same(&other.plan_id)
            && self.candidate_identity.same(&other.candidate_identity)
    }

    fn dup(&self) -> (r: Self) {
        EvaluationContext {
            run_id: self.run_id.dup(),
            suite_id: self.suite_id.dup(),
            suite_revision: self.suite_revision.dup(),
            phase: self.phase,
            target: self.target,
            authoritative_snapshot: self.authoritative_snapshot.dup(),
            base_snapshot: self.base_snapshot.dup(),
            mutation_intent_id: self.mutation_intent_id.dup(),
            plan_id: self.plan_id.dup(),
            candidate_identity: self.candidate_identity.dup(),
        }
    }
}

impl Clone for EvaluationContext {
    fn clone(&self) -> (r: Self)
        ensures
            r.deep_view() == self.deep_view(),
    {
        self.dup()
    }
}

impl EvaluationContextView {
    /// The candidate refers to this context's base, intent, plan and target.
    pub open spec fn binds(self, candidate: CandidateIdentityView) -> bool {
        &&& self.base_snapshot == Some(self.authoritative_snapshot)
        &&& self.base_snapshot == Some(candidate.base_snapshot)
        &&& self.mutation_intent_id == Some(candidate.mutation_intent_id)
        &&& self.plan_id == candidate.plan_id
        &&& self.target == candidate.target
    }

    /// Why the identities do not suit the phase, if they do not.
    pub open spec fn objection(self) -> Option<TrafficReportErrorView> {
        match self.phase {
            EvaluationPhase::Current => if self.mutation_intent_id is Some || self.plan_id is Some
                || self.base_snapshot is Some || self.candidate_identity is Some {
                Some(TrafficReportErrorView::UnexpectedMutationIdentity { phase: self.phase })
            } else {
                None
            },
            EvaluationPhase::StagedCandidate => if self.mutation_intent_id is None {
                Some(TrafficReportErrorView::MissingMutationIdentity { phase: self.phase })
            } else if self.base_snapshot is None || self.candidate_identity is None {
                Some(TrafficReportErrorView::MissingCandidateIdentity)
            } else if !self.binds(self.candidate_identity->0) {
                Some(TrafficReportErrorView::CandidateIdentityMismatch)
            } else {
                None
            },
            EvaluationPhase::PostApply => if self.mutation_intent_id is None {
                Some(TrafficReportErrorView::MissingMutationIdentity { phase: self.phase })
            } else if self.candidate_identity is Some {
                Some(TrafficReportErrorView::UnexpectedCandidateIdentity)
            } else {
                None
            },
        }
    }
}

impl EvaluationContext {
    /// Rejects phase-incoherent or partially bound identities.
    pub fn validate(&self) -> (r: Result<(), TrafficReportError>)
        ensures
            match r {
                Ok(_) => self.deep_view().objection() is None,
                Err(e) => self.deep_view().objection() == Some(e.deep_view()),
            },
    {
        match self.phase {
            EvaluationPhase::Current => {
                if self.mutation_intent_id.is_some() || self.plan_id.is_some()
                    || self.base_snapshot.is_some() || self.candidate_identity.is_some() {
                    return Err(
                        TrafficReportError::UnexpectedMutationIdentity { phase: self.phase },
                    );
                }
            },
            EvaluationPhase::StagedCandidate => {
                let mutation_intent_id = match self.mutation_intent_id {
                    Some(id) => id,
                    None => {
                        return Err(
                            TrafficReportError::MissingMutationIdentity { phase: self.phase },
                        );
                    },
                };
                let base_snapshot = match self.base_snapshot {
                    Some(base) => base,
                    None => {
                        return Err(TrafficReportError::MissingCandidateIdentity);
                    },
                };
                let candidate = match self.candidate_identity {
                    Some(candidate) => candidate,
                    None => {
                        return Err(TrafficReportError::MissingCandidateIdentity);
                    },
                };
                if !self.authoritative_snapshot.same(&base_snapshot)
                    || !candidate.base_snapshot.same(&base_snapshot)
                    || !candidate.mutation_intent_id.same(&mutation_intent_id)
                    || !candidate.plan_id.same(&self.plan_id) || candidate.target != self.target {
                    return Err(TrafficReportError::CandidateIdentityMismatch);
                }
            },
            EvaluationPhase::PostApply => {
                if self.mutation_intent_id.is_none() {
                    return Err(TrafficReportError::MissingMutationIdentity { phase: self.phase });
                }
                if self.candidate_identity.is_some() {
                    return Err(TrafficReportError::UnexpectedCandidateIdentity);
                }
            },
        }
        Ok(())
    }

    /// Requires every active identity and target to match before publication.
    pub fn matches_active(&self, active: &Self) -> (r: bool)
        ensures
            r == (self.deep_view() == active.deep_view()),
    {
        self.same(active)
    }
}

/// One scenario decision bound to an expectation and bounded trace.
#[derive(Debug, PartialEq, Eq)]
pub struct TrafficTestResult {
    scenario_id: TrafficScenarioId,
    expectation: TrafficExpectation,
    decision: FirewallDecision,
    status: TrafficTestStatus,
    unknown_reason: Option<UnknownReason>,
    trace: Vec<TrafficTraceStep>,
}

/// What a `TrafficTestResult` models.
#[verifier::ext_equal]
pub struct TrafficTestResultView {
    pub scenario_id: Seq<char>,
    pub expectation: TrafficExpectation,
    pub decision: FirewallDecision,
    pub status: TrafficTestStatus,
    pub unknown_reason: Option<UnknownReason>,
    pub trace: Seq<TrafficTraceStepView>,
}

impl DeepView for TrafficTestResult {
    type V = TrafficTestResultView;

    closed spec fn deep_view(&self) -> TrafficTestResultView {
        TrafficTestResultView {
            scenario_id: self.scenario_id.deep_view(),
            expectation: self.expectation.deep_view(),
            decision: self.decision.deep_view(),
            status: self.status.deep_view(),
            unknown_reason: self.unknown_reason.deep_view(),
            trace: self.trace.deep_view(),
        }
    }
}

impl Value for TrafficTestResult {
    fn same(&self, other: &Self) -> (r: bool) {
        self.scenario_id.same(&other.scenario_id)
            && self.expectation == other.expectation
            && self.decision == other.decision
            && self.status == other.status
            && self.unknown_reason.same(&other.unknown_reason)
            && self.trace.same(&other.trace)
    }

    fn dup(&self) -> (r: Self) {
        proof {
            use_type_invariant(self);
        }
        TrafficTestResult {
            scenario_id: self.scenario_id.dup(),
            expectation: self.expectation,
            decision: self.decision,
            status: self.status,
            unknown_reason: self.unknown_reason.dup(),
            trace: self.trace.dup(),
        }
    }
}

impl Clone for TrafficTestResult {
    fn clone(&self) -> (r: Self)
        ensures
            r.deep_view() == self.deep_view(),
    {
        self.dup()
    }
}

impl TrafficTestResultView {
    /// The decision is unknown exactly if it has a reason, its status follows
    /// from it, and the trace is within its limit.
    pub open spec fn consistent(self) -> bool {
        &&& self.decision == FirewallDecision::Unknown <==> self.unknown_reason is Some
        &&& self.status == TrafficTestStatus::of(self.decision, self.expectation)
        &&& self.trace.len() <= MAX_TRACE_STEPS
    }

    /// The result of these parts, or why they do not make one.
    pub open spec fn of(
        scenario_id: Seq<char>,
        expectation: TrafficExpectation,
        decision: FirewallDecision,
        unknown_reason: Option<UnknownReason>,
        trace: Seq<TrafficTraceStepView>,
    ) -> Result<TrafficTestResultView, TrafficReportErrorView> {
        if decision == FirewallDecision::Unknown && unknown_reason is None {
            Err(TrafficReportErrorView::MissingUnknownReason)
        } else if decision != FirewallDecision::Unknown && unknown_reason is Some {
            Err(TrafficReportErrorView::UnexpectedUnknownReason)
        } else if trace.len() > MAX_TRACE_STEPS {
            Err(
                TrafficReportErrorView::TraceTooLong {
                    count: trace.len() as usize,
                    max: MAX_TRACE_STEPS,
                },
            )
        } else {
            Ok(
                TrafficTestResultView {
                    scenario_id,
                    expectation,
                    decision,
                    status: TrafficTestStatus::of(decision, expectation),
                    unknown_reason,
                    trace,
                },
            )
        }
    }
}

impl TrafficTestResult {
    /// The parts agree with each other.
    #[verifier::type_invariant]
    pub open spec fn valid(self) -> bool {
        self.deep_view().consistent()
    }

    /// Constructs one internally consistent result.
    pub fn new(
        scenario_id: TrafficScenarioId,
        expectation: TrafficExpectation,
        decision: FirewallDecision,
        unknown_reason: Option<UnknownReason>,
        trace: Vec<TrafficTraceStep>,
    ) -> (r: Result<Self, TrafficReportError>)
        ensures
            model::outcome(r) == TrafficTestResultView::of(
                scenario_id.deep_view(),
                expectation,
                decision,
                unknown_reason.deep_view(),
                trace.deep_view(),
            ),
    {
        match decision {
            FirewallDecision::Unknown => {
                if unknown_reason.is_none() {
                    return Err(TrafficReportError::MissingUnknownReason);
                }
            },
            _ => {
                if unknown_reason.is_some() {
                    return Err(TrafficReportError::UnexpectedUnknownReason);
                }
            },
        }
        if trace.len() > MAX_TRACE_STEPS {
            return Err(
                TrafficReportError::TraceTooLong { count: trace.len(), max: MAX_TRACE_STEPS },
            );
        }
        let status = TrafficTestStatus::from_decision(decision, expectation);
        Ok(
            TrafficTestResult {
                scenario_id,
                expectation,
                decision,
                status,
                unknown_reason,
                trace,
            },
        )
    }

    /// Returns the scenario identity.
    pub fn scenario_id(&self) -> (r: &TrafficScenarioId)
        ensures
            r.deep_view() == self.deep_view().scenario_id,
    {
        &self.scenario_id
    }

    /// Returns the declared expectation.
    pub fn expectation(&self) -> (r: TrafficExpectation)
        ensures
            r == self.deep_view().expectation,
    {
        self.expectation
    }

    /// Returns the proven or unknown decision.
    pub fn decision(&self) -> (r: FirewallDecision)
        ensures
            r == self.deep_view().decision,
    {
        self.decision
    }

    /// Returns the comparison status.
    pub fn status(&self) -> (r: TrafficTestStatus)
        ensures
            r == self.deep_view().status,
            r == TrafficTestStatus::of(self.deep_view().decision, self.deep_view().expectation),
    {
        proof {
            use_type_invariant(self);
        }
        self.status
    }

    /// Returns why no decision could be proven.
    pub fn unknown_reason(&self) -> (r: Option<UnknownReason>)
        ensures
            r == self.deep_view().unknown_reason,
            r is Some <==> self.deep_view().decision == FirewallDecision::Unknown,
    {
        proof {
            use_type_invariant(self);
        }
        self.unknown_reason
    }

    /// Returns the deterministic evidence path.
    pub fn trace(&self) -> (r: &Vec<TrafficTraceStep>)
        ensures
            r.deep_view() == self.deep_view().trace,
            r.deep_view().len() <= MAX_TRACE_STEPS,
    {
        proof {
            use_type_invariant(self);
        }
        &self.trace
    }
}

/// Aggregate status counts for one complete report.
#[derive(Debug, Clone, Copy, PartialEq, Eq, Structural)]
pub struct TrafficTestSummary {
    /// Total retained results.
    pub total: u32,
    /// Proven decisions matching expectations.
    pub passed: u32,
    /// Proven decisions contradicting expectations.
    pub failed: u32,
    /// Unknown decisions.
    pub indeterminate: u32,
    /// Reserved not-run results.
    pub not_run: u32,
    /// Reserved stale historical results.
    pub stale: u32,
}

impl DeepView for TrafficTestSummary {
    type V = TrafficTestSummary;

    open spec fn deep_view(&self) -> TrafficTestSummary {
        *self
    }
}

impl Value for TrafficTestSummary {
    fn same(&self, other: &Self) -> (r: bool) {
        *self == *other
    }

    fn dup(&self) -> (r: Self) {
        *self
    }
}

impl Default for TrafficTestSummary {
    fn default() -> (r: Self)
        ensures
            r == (TrafficTestSummary {
                total: 0,
                passed: 0,
                failed: 0,
                indeterminate: 0,
                not_run: 0,
                stale: 0,
            }),
    {
        TrafficTestSummary {
            total: 0,
            passed: 0,
            failed: 0,
            indeterminate: 0,
            not_run: 0,
            stale: 0,
        }
    }
}

/// The number of results with the given status.
pub open spec fn counted(results: Seq<TrafficTestResultView>, status: TrafficTestStatus) -> nat
    decreases results.len(),
{
    if results.len() == 0 {
        0
    } else {
        counted(results.drop_last(), status) + (if results.last().status == status {
            1nat
        } else {
            0nat
        })
    }
}

proof fn counted_within(results: Seq<TrafficTestResultView>, status: TrafficTestStatus)
    ensures
        counted(results, status) <= results.len(),
    decreases results.len(),
{
    if results.len() > 0 {
        counted_within(results.drop_last(), status);
    }
}

/// Every result has exactly one status, so the counts add up to the total.
pub proof fn counts_add_up(results: Seq<TrafficTestResultView>)
    ensures
        counted(results, TrafficTestStatus::Pass) + counted(results, TrafficTestStatus::Fail)
            + counted(results, TrafficTestStatus::Indeterminate) + counted(
            results,
            TrafficTestStatus::NotRun,
        ) + counted(results, TrafficTestStatus::Stale) == results.len(),
    decreases results.len(),
{
    if results.len() > 0 {
        counts_add_up(results.drop_last());
    }
}

impl TrafficTestSummary {
    /// The summary counts the results by their status.
    pub open spec fn summarizes(self, results: Seq<TrafficTestResultView>) -> bool {
        &&& self.total == results.len()
        &&& self.passed == counted(results, TrafficTestStatus::Pass)
        &&& self.failed == counted(results, TrafficTestStatus::Fail)
        &&& self.indeterminate == counted(results, TrafficTestStatus::Indeterminate)
        &&& self.not_run == counted(results, TrafficTestStatus::NotRun)
        &&& self.stale == counted(results, TrafficTestStatus::Stale)
    }

    /// The counts of the results, as far as they fit.
    pub open spec fn of(results: Seq<TrafficTestResultView>) -> TrafficTestSummary {
        TrafficTestSummary {
            total: results.len() as u32,
            passed: counted(results, TrafficTestStatus::Pass) as u32,
            failed: counted(results, TrafficTestStatus::Fail) as u32,
            indeterminate: counted(results, TrafficTestStatus::Indeterminate) as u32,
            not_run: counted(results, TrafficTestStatus::NotRun) as u32,
            stale: counted(results, TrafficTestStatus::Stale) as u32,
        }
    }

    fn from_results(results: &Vec<TrafficTestResult>) -> (r: Self)
        requires
            results.deep_view().len() <= MAX_SCENARIOS_PER_SUITE,
        ensures
            r == Self::of(results.deep_view()),
            r.summarizes(results.deep_view()),
    {
        let ghost all = results.deep_view();
        let mut summary = TrafficTestSummary {
            total: results.len() as u32,
            ..TrafficTestSummary::default()
        };
        let mut i: usize = 0;
        while i < results.len()
            invariant
                i <= results@.len(),
                all == results.deep_view(),
                all.len() <= MAX_SCENARIOS_PER_SUITE,
                summary.total == all.len(),
                summary.passed == counted(all.take(i as int), TrafficTestStatus::Pass),
                summary.failed == counted(all.take(i as int), TrafficTestStatus::Fail),
                summary.indeterminate == counted(
                    all.take(i as int),
                    TrafficTestStatus::Indeterminate,
                ),
                summary.not_run == counted(all.take(i as int), TrafficTestStatus::NotRun),
                summary.stale == counted(all.take(i as int), TrafficTestStatus::Stale),
            decreases results.len() - i,
        {
            proof {
                assert(all.take(i + 1).drop_last() =~= all.take(i as int));
                assert(all[i as int] == results@[i as int].deep_view());
                counted_within(all.take(i as int), TrafficTestStatus::Pass);
                counted_within(all.take(i as int), TrafficTestStatus::Fail);
                counted_within(all.take(i as int), TrafficTestStatus::Indeterminate);
                counted_within(all.take(i as int), TrafficTestStatus::NotRun);
                counted_within(all.take(i as int), TrafficTestStatus::Stale);
            }
            match results[i].status {
                TrafficTestStatus::Pass => {
                    summary.passed = summary.passed + 1;
                },
                TrafficTestStatus::Fail => {
                    summary.failed = summary.failed + 1;
                },
                TrafficTestStatus::Indeterminate => {
                    summary.indeterminate = summary.indeterminate + 1;
                },
                TrafficTestStatus::NotRun => {
                    summary.not_run = summary.not_run + 1;
                },
                TrafficTestStatus::Stale => {
                    summary.stale = summary.stale + 1;
                },
            }
            i = i + 1;
        }
        assert(all.take(i as int) =~= all);
        summary
    }
}

/// Complete bounded publication unit for one evaluation context.
#[derive(Debug, PartialEq, Eq)]
pub struct TrafficTestReport {
    context: EvaluationContext,
    results: Vec<TrafficTestResult>,
    summary: TrafficTestSummary,
}

/// What a `TrafficTestReport` models.
#[verifier::ext_equal]
pub struct TrafficTestReportView {
    pub context: EvaluationContextView,
    pub results: Seq<TrafficTestResultView>,
    pub summary: TrafficTestSummary,
}

impl DeepView for TrafficTestReport {
    type V = TrafficTestReportView;

    closed spec fn deep_view(&self) -> TrafficTestReportView {
        TrafficTestReportView {
            context: self.context.deep_view(),
            results: self.results.deep_view(),
            summary: self.summary.deep_view(),
        }
    }
}

impl Value for TrafficTestReport {
    fn same(&self, other: &Self) -> (r: bool) {
        self.context.same(&other.context)
            && self.results.same(&other.results)
            && self.summary == other.summary
    }

    fn dup(&self) -> (r: Self) {
        proof {
            use_type_invariant(self);
        }
        TrafficTestReport {
            context: self.context.dup(),
            results: self.results.dup(),
            summary: self.summary,
        }
    }
}

impl Clone for TrafficTestReport {
    fn clone(&self) -> (r: Self)
        ensures
            r.deep_view() == self.deep_view(),
    {
        self.dup()
    }
}

/// An earlier result than the `i`th is about its scenario.
pub open spec fn reported_before(results: Seq<TrafficTestResultView>, i: int) -> bool {
    exists|j: int| 0 <= j < i && (#[trigger] results[j]).scenario_id == results[i].scenario_id
}

/// The first reason to reject one of the results from the `i`th on: its trace,
/// or a scenario that an earlier one is about.
pub open spec fn results_objection(results: Seq<TrafficTestResultView>, i: int) -> Option<
    TrafficReportErrorView,
>
    decreases results.len() - i,
{
    if i < 0 || i >= results.len() {
        None
    } else if results[i].trace.len() > MAX_TRACE_STEPS {
        Some(
            TrafficReportErrorView::TraceTooLong {
                count: results[i].trace.len() as usize,
                max: MAX_TRACE_STEPS,
            },
        )
    } else if reported_before(results, i) {
        Some(TrafficReportErrorView::DuplicateResult(results[i].scenario_id))
    } else {
        results_objection(results, i + 1)
    }
}

proof fn accepted_from(results: Seq<TrafficTestResultView>, k: int)
    requires
        0 <= k <= results.len(),
        results_objection(results, k) is None,
    ensures
        forall|i: int, j: int|
            k <= i < results.len() && 0 <= j < i ==> (#[trigger] results[i]).scenario_id != (
            #[trigger] results[j]).scenario_id,
    decreases results.len() - k,
{
    if k < results.len() {
        accepted_from(results, k + 1);
    }
}

impl TrafficTestReportView {
    /// The identities suit the phase, each scenario has one consistent result,
    /// and the summary counts the results.
    pub open spec fn consistent(self) -> bool {
        &&& self.context.objection() is None
        &&& self.results.len() <= MAX_SCENARIOS_PER_SUITE
        &&& forall|i: int| 0 <= i < self.results.len() ==> (#[trigger] self.results[i]).consistent()
        &&& results_objection(self.results, 0) is None
        &&& self.summary.summarizes(self.results)
    }

    /// The report of these results, or the first reason why they make none.
    pub open spec fn of(
        context: EvaluationContextView,
        results: Seq<TrafficTestResultView>,
    ) -> Result<TrafficTestReportView, TrafficReportErrorView> {
        if context.objection() is Some {
            Err(context.objection()->0)
        } else if results.len() > MAX_SCENARIOS_PER_SUITE {
            Err(
                TrafficReportErrorView::TooManyResults {
                    count: results.len() as usize,
                    max: MAX_SCENARIOS_PER_SUITE,
                },
            )
        } else if results_objection(results, 0) is Some {
            Err(results_objection(results, 0)->0)
        } else {
            Ok(
                TrafficTestReportView {
                    context,
                    results,
                    summary: TrafficTestSummary::of(results),
                },
            )
        }
    }

    /// The report, if its encoding succeeded within the size limit.
    pub open spec fn budgeted(self, encoded: Option<usize>) -> Result<
        TrafficTestReportView,
        TrafficReportErrorView,
    > {
        match encoded {
            None => Err(TrafficReportErrorView::SerializationFailed),
            Some(bytes) => if bytes > MAX_TRAFFIC_REPORT_BYTES {
                Err(
                    TrafficReportErrorView::ReportTooLarge { bytes, max: MAX_TRAFFIC_REPORT_BYTES },
                )
            } else {
                Ok(self)
            },
        }
    }
}

/// Consistent results were run and are current, so none counts as not run or
/// stale.
proof fn consistent_results_were_run(results: Seq<TrafficTestResultView>)
    requires
        forall|i: int| 0 <= i < results.len() ==> (#[trigger] results[i]).consistent(),
    ensures
        counted(results, TrafficTestStatus::NotRun) == 0,
        counted(results, TrafficTestStatus::Stale) == 0,
    decreases results.len(),
{
    if results.len() > 0 {
        let rest = results.drop_last();
        assert forall|i: int| 0 <= i < rest.len() implies (#[trigger] rest[i]).consistent() by {
            assert(rest[i] == results[i]);
        }
        consistent_results_were_run(rest);
        assert(results[results.len() - 1].consistent());
    }
}

/// A consistent report holds no two results about one scenario. Its results
/// passed, failed or stayed open, and these counts add up to their number.
pub proof fn consistent_report(report: TrafficTestReportView)
    requires
        report.consistent(),
    ensures
        forall|i: int, j: int|
            0 <= j < i < report.results.len() ==> (#[trigger] report.results[i]).scenario_id != (
            #[trigger] report.results[j]).scenario_id,
        report.summary.not_run == 0,
        report.summary.stale == 0,
        report.summary.passed + report.summary.failed + report.summary.indeterminate
            == report.summary.total,
        report.summary.total == report.results.len(),
{
    accepted_from(report.results, 0);
    counts_add_up(report.results);
    consistent_results_were_run(report.results);
}

impl TrafficTestReport {
    /// The report is consistent.
    #[verifier::type_invariant]
    pub open spec fn valid(self) -> bool {
        self.deep_view().consistent()
    }

    fn is_reported_before(results: &Vec<TrafficTestResult>, i: usize) -> (r: bool)
        requires
            i < results.deep_view().len(),
        ensures
            r == reported_before(results.deep_view(), i as int),
    {
        let ghost all = results.deep_view();
        let mut j: usize = 0;
        while j < i
            invariant
                j <= i < results@.len(),
                all == results.deep_view(),
                forall|k: int|
                    0 <= k < j ==> (#[trigger] all[k]).scenario_id != all[i as int].scenario_id,
            decreases i - j,
        {
            assert(all[j as int] == results@[j as int].deep_view());
            assert(all[i as int] == results@[i as int].deep_view());
            if results[j].scenario_id.same(&results[i].scenario_id) {
                return true;
            }
            j = j + 1;
        }
        false
    }

    /// Validates identities, uniqueness, counts and traces, and counts the
    /// results by status. The size of the encoded report is not known yet.
    pub fn assemble(context: EvaluationContext, results: Vec<TrafficTestResult>) -> (r: Result<
        Self,
        TrafficReportError,
    >)
        ensures
            model::outcome(r) == TrafficTestReportView::of(
                context.deep_view(),
                results.deep_view(),
            ),
    {
        if let Err(e) = context.validate() {
            return Err(e);
        }
        if results.len() > MAX_SCENARIOS_PER_SUITE {
            return Err(
                TrafficReportError::TooManyResults {
                    count: results.len(),
                    max: MAX_SCENARIOS_PER_SUITE,
                },
            );
        }
        let ghost all = results.deep_view();
        let mut i: usize = 0;
        while i < results.len()
            invariant
                i <= results@.len(),
                all == results.deep_view(),
                all.len() <= MAX_SCENARIOS_PER_SUITE,
                context.deep_view().objection() is None,
                results_objection(all, 0) == results_objection(all, i as int),
                forall|j: int| 0 <= j < i ==> (#[trigger] all[j]).consistent(),
            decreases results.len() - i,
        {
            let result = &results[i];
            proof {
                use_type_invariant(result);
            }
            assert(all[i as int] == results@[i as int].deep_view());
            if results[i].trace.len() > MAX_TRACE_STEPS {
                return Err(
                    TrafficReportError::TraceTooLong {
                        count: results[i].trace.len(),
                        max: MAX_TRACE_STEPS,
                    },
                );
            }
            if Self::is_reported_before(&results, i) {
                return Err(TrafficReportError::DuplicateResult(results[i].scenario_id.dup()));
            }
            i = i + 1;
        }
        let summary = TrafficTestSummary::from_results(&results);
        Ok(TrafficTestReport { context, results, summary })
    }

    /// Keeps the report if its encoding succeeded (`encoded` is the number of
    /// bytes, `None` where encoding failed) and stays within the budget.
    pub fn within_budget(self, encoded: Option<usize>) -> (r: Result<Self, TrafficReportError>)
        ensures
            model::outcome(r) == self.deep_view().budgeted(encoded),
    {
        match encoded {
            None => Err(TrafficReportError::SerializationFailed),
            Some(bytes) => {
                if bytes > MAX_TRAFFIC_REPORT_BYTES {
                    Err(
                        TrafficReportError::ReportTooLarge {
                            bytes,
                            max: MAX_TRAFFIC_REPORT_BYTES,
                        },
                    )
                } else {
                    Ok(self)
                }
            },
        }
    }

    /// Validates identities, uniqueness, counts, traces, and serialized budget.
    /// `encoded` is the size of the encoded report, `None` where encoding failed.
    pub fn new(
        context: EvaluationContext,
        results: Vec<TrafficTestResult>,
        encoded: Option<usize>,
    ) -> (r: Result<Self, TrafficReportError>)
        ensures
            model::outcome(r) == (match TrafficTestReportView::of(
                context.deep_view(),
                results.deep_view(),
            ) {
                Ok(report) => report.budgeted(encoded),
                Err(e) => Err(e),
            }),
    {
        match Self::assemble(context, results) {
            Ok(report) => report.within_budget(encoded),
            Err(e) => Err(e),
        }
    }

    /// Returns the immutable evaluation identity boundary.
    pub fn context(&self) -> (r: &EvaluationContext)
        ensures
            r.deep_view() == self.deep_view().context,
    {
        &self.context
    }

    /// Returns ordered scenario results.
    pub fn results(&self) -> (r: &Vec<TrafficTestResult>)
        ensures
            r.deep_view() == self.deep_view().results,
    {
        &self.results
    }

    /// Returns aggregate status counts.
    pub fn summary(&self) -> (r: TrafficTestSummary)
        ensures
            r == self.deep_view().summary,
            r.summarizes(self.deep_view().results),
            r.not_run == 0,
            r.stale == 0,
            r.passed + r.failed + r.indeterminate == r.total,
    {
        proof {
            use_type_invariant(self);
            consistent_report(self.deep_view());
        }
        self.summary
    }

    /// Whether every identity still matches the active evaluation state.
    pub fn matches_active(&self, active: &EvaluationContext) -> (r: bool)
        ensures
            r == (self.deep_view().context == active.deep_view()),
    {
        self.context.matches_active(active)
    }
}

/// Invalid evaluation identity, result, or report boundary.
#[derive(Debug, PartialEq, Eq)]
pub enum TrafficReportError {
    /// Run identity zero is reserved for absence.
    ZeroRunId,
    /// Mutation identity zero is reserved for absence.
    ZeroMutationIntentId,
    /// Authoritative publication generation zero is invalid.
    ZeroSnapshotGeneration,
    /// Candidate or post-apply phases require one reviewed mutation identity.
    MissingMutationIdentity {
        /// Invalid phase.
        phase: EvaluationPhase,
    },
    /// Current evaluation cannot carry mutation-specific identity.
    UnexpectedMutationIdentity {
        /// Invalid phase.
        phase: EvaluationPhase,
    },
    /// Candidate phase is missing its base or candidate binding.
    MissingCandidateIdentity,
    /// Candidate fields do not all refer to the same base, intent, plan, and target.
    CandidateIdentityMismatch,
    /// Post-apply evidence cannot retain a projected candidate identity.
    UnexpectedCandidateIdentity,
    /// Unknown decision lacks a typed cause.
    MissingUnknownReason,
    /// Proven decision incorrectly carries an unknown cause.
    UnexpectedUnknownReason,
    /// One trace exceeds the per-scenario evidence cap.
    TraceTooLong {
        /// Actual step count.
        count: usize,
        /// Maximum step count.
        max: usize,
    },
    /// One report exceeds the suite execution cap.
    TooManyResults {
        /// Actual result count.
        count: usize,
        /// Maximum result count.
        max: usize,
    },
    /// One scenario appears more than once in a report.
    DuplicateResult(TrafficScenarioId),
    /// The aggregate publication exceeds the hard memory/transport budget.
    ReportTooLarge {
        /// Actual encoded bytes.
        bytes: usize,
        /// Maximum bytes.
        max: usize,
    },
    /// Serialization failed despite validated domain-only fields.
    SerializationFailed,
}

/// What a `TrafficReportError` models.
#[verifier::ext_equal]
pub enum TrafficReportErrorView {
    ZeroRunId,
    ZeroMutationIntentId,
    ZeroSnapshotGeneration,
    MissingMutationIdentity { phase: EvaluationPhase },
    UnexpectedMutationIdentity { phase: EvaluationPhase },
    MissingCandidateIdentity,
    CandidateIdentityMismatch,
    UnexpectedCandidateIdentity,
    MissingUnknownReason,
    UnexpectedUnknownReason,
    TraceTooLong { count: usize, max: usize },
    TooManyResults { count: usize, max: usize },
    DuplicateResult(Seq<char>),
    ReportTooLarge { bytes: usize, max: usize },
    SerializationFailed,
}

impl DeepView for TrafficReportError {
    type V = TrafficReportErrorView;

    open spec fn deep_view(&self) -> TrafficReportErrorView {
        match self {
            TrafficReportError::ZeroRunId => TrafficReportErrorView::ZeroRunId,
            TrafficReportError::ZeroMutationIntentId =>
                TrafficReportErrorView::ZeroMutationIntentId,
            TrafficReportError::ZeroSnapshotGeneration =>
                TrafficReportErrorView::ZeroSnapshotGeneration,
            TrafficReportError::MissingMutationIdentity { phase } =>
                TrafficReportErrorView::MissingMutationIdentity { phase: phase.deep_view() },
            TrafficReportError::UnexpectedMutationIdentity { phase } =>
                TrafficReportErrorView::UnexpectedMutationIdentity { phase: phase.deep_view() },
            TrafficReportError::MissingCandidateIdentity =>
                TrafficReportErrorView::MissingCandidateIdentity,
            TrafficReportError::CandidateIdentityMismatch =>
                TrafficReportErrorView::CandidateIdentityMismatch,
            TrafficReportError::UnexpectedCandidateIdentity =>
                TrafficReportErrorView::UnexpectedCandidateIdentity,
            TrafficReportError::MissingUnknownReason =>
                TrafficReportErrorView::MissingUnknownReason,
            TrafficReportError::UnexpectedUnknownReason =>
                TrafficReportErrorView::UnexpectedUnknownReason,
            TrafficReportError::TraceTooLong { count, max } =>
                TrafficReportErrorView::TraceTooLong {
                    count: count.deep_view(),
                    max: max.deep_view(),
                },
            TrafficReportError::TooManyResults { count, max } =>
                TrafficReportErrorView::TooManyResults {
                    count: count.deep_view(),
                    max: max.deep_view(),
                },
            TrafficReportError::DuplicateResult(x0) => TrafficReportErrorView::DuplicateResult(
                x0.deep_view(),
            ),
            TrafficReportError::ReportTooLarge { bytes, max } =>
                TrafficReportErrorView::ReportTooLarge {
                    bytes: bytes.deep_view(),
                    max: max.deep_view(),
                },
            TrafficReportError::SerializationFailed => TrafficReportErrorView::SerializationFailed,
        }
    }
}

impl Value for TrafficReportError {
    fn same(&self, other: &Self) -> (r: bool) {
        match (self, other) {
            (TrafficReportError::ZeroRunId, TrafficReportError::ZeroRunId) => true,
            (TrafficReportError::ZeroMutationIntentId, TrafficReportError::ZeroMutationIntentId) =>
                true,
            (
                TrafficReportError::ZeroSnapshotGeneration,
                TrafficReportError::ZeroSnapshotGeneration,
            ) => true,
            (
                TrafficReportError::MissingMutationIdentity { phase },
                TrafficReportError::MissingMutationIdentity { phase: phase_other },
            ) => *phase == *phase_other,
            (
                TrafficReportError::UnexpectedMutationIdentity { phase },
                TrafficReportError::UnexpectedMutationIdentity { phase: phase_other },
            ) => *phase == *phase_other,
            (
                TrafficReportError::MissingCandidateIdentity,
                TrafficReportError::MissingCandidateIdentity,
            ) => true,
            (
                TrafficReportError::CandidateIdentityMismatch,
                TrafficReportError::CandidateIdentityMismatch,
            ) => true,
            (
                TrafficReportError::UnexpectedCandidateIdentity,
                TrafficReportError::UnexpectedCandidateIdentity,
            ) => true,
            (TrafficReportError::MissingUnknownReason, TrafficReportError::MissingUnknownReason) =>
                true,
            (
                TrafficReportError::UnexpectedUnknownReason,
                TrafficReportError::UnexpectedUnknownReason,
            ) => true,
            (
                TrafficReportError::TraceTooLong { count, max },
                TrafficReportError::TraceTooLong { count: count_other, max: max_other },
            ) => *count == *count_other && *max == *max_other,
            (
                TrafficReportError::TooManyResults { count, max },
                TrafficReportError::TooManyResults { count: count_other, max: max_other },
            ) => *count == *count_other && *max == *max_other,
            (
                TrafficReportError::DuplicateResult(x0),
                TrafficReportError::DuplicateResult(x0_other),
            ) => x0.same(x0_other),
            (
                TrafficReportError::ReportTooLarge { bytes, max },
                TrafficReportError::ReportTooLarge { bytes: bytes_other, max: max_other },
            ) => *bytes == *bytes_other && *max == *max_other,
            (TrafficReportError::SerializationFailed, TrafficReportError::SerializationFailed) =>
                true,
            _ => false,
        }
    }

    fn dup(&self) -> (r: Self) {
        match self {
            TrafficReportError::ZeroRunId => TrafficReportError::ZeroRunId,
            TrafficReportError::ZeroMutationIntentId => TrafficReportError::ZeroMutationIntentId,
            TrafficReportError::ZeroSnapshotGeneration =>
                TrafficReportError::ZeroSnapshotGeneration,
            TrafficReportError::MissingMutationIdentity { phase } =>
                TrafficReportError::MissingMutationIdentity { phase: *phase },
            TrafficReportError::UnexpectedMutationIdentity { phase } =>
                TrafficReportError::UnexpectedMutationIdentity { phase: *phase },
            TrafficReportError::MissingCandidateIdentity =>
                TrafficReportError::MissingCandidateIdentity,
            TrafficReportError::CandidateIdentityMismatch =>
                TrafficReportError::CandidateIdentityMismatch,
            TrafficReportError::UnexpectedCandidateIdentity =>
                TrafficReportError::UnexpectedCandidateIdentity,
            TrafficReportError::MissingUnknownReason => TrafficReportError::MissingUnknownReason,
            TrafficReportError::UnexpectedUnknownReason =>
                TrafficReportError::UnexpectedUnknownReason,
            TrafficReportError::TraceTooLong { count, max } => TrafficReportError::TraceTooLong {
                count: *count,
                max: *max,
            },
            TrafficReportError::TooManyResults { count, max } =>
                TrafficReportError::TooManyResults { count: *count, max: *max },
            TrafficReportError::DuplicateResult(x0) => TrafficReportError::DuplicateResult(
                x0.dup(),
            ),
            TrafficReportError::ReportTooLarge { bytes, max } =>
                TrafficReportError::ReportTooLarge { bytes: *bytes, max: *max },
            TrafficReportError::SerializationFailed => TrafficReportError::SerializationFailed,
        }
    }
}

impl Clone for TrafficReportError {
    fn clone(&self) -> (r: Self)
        ensures
            r.deep_view() == self.deep_view(),
    {
        self.dup()
    }
}

impl TrafficReportErrorView {
    /// The sentence that describes the failure.
    pub open spec fn message(self) -> Seq<char> {
        match self {
            TrafficReportErrorView::ZeroRunId => "traffic-test run ID must be non-zero"@,
            TrafficReportErrorView::ZeroMutationIntentId => "mutation intent ID must be non-zero"@,
            TrafficReportErrorView::ZeroSnapshotGeneration =>
                "snapshot publication generation must be non-zero"@,
            TrafficReportErrorView::MissingMutationIdentity { phase } => phase.named()
                + " evaluation requires a mutation identity"@,
            TrafficReportErrorView::UnexpectedMutationIdentity { phase } => phase.named()
                + " evaluation cannot carry mutation identity"@,
            TrafficReportErrorView::MissingCandidateIdentity =>
                "candidate evaluation requires base and candidate identities"@,
            TrafficReportErrorView::CandidateIdentityMismatch =>
                "candidate identity does not match its evaluation context"@,
            TrafficReportErrorView::UnexpectedCandidateIdentity =>
                "post-apply evaluation cannot carry a candidate identity"@,
            TrafficReportErrorView::MissingUnknownReason =>
                "unknown decision requires an unknown reason"@,
            TrafficReportErrorView::UnexpectedUnknownReason =>
                "proven decision cannot carry an unknown reason"@,
            TrafficReportErrorView::TraceTooLong { count, max } => "trace contains "@
                + number::decimal(count as nat) + " steps; maximum is "@
                + number::decimal(max as nat),
            TrafficReportErrorView::TooManyResults { count, max } => "report contains "@
                + number::decimal(count as nat) + " results; maximum is "@
                + number::decimal(max as nat),
            TrafficReportErrorView::DuplicateResult(x0) => "duplicate result for scenario `"@ + x0
                + "`"@,
            TrafficReportErrorView::ReportTooLarge { bytes, max } => "serialized report is "@
                + number::decimal(bytes as nat) + " bytes; maximum is "@
                + number::decimal(max as nat),
            TrafficReportErrorView::SerializationFailed =>
                "traffic-test report serialization failed"@,
        }
    }
}

impl TrafficReportError {
    /// The sentence that describes the failure.
    pub fn message(&self) -> (r: String)
        ensures
            r@ == self.deep_view().message(),
    {
        match self {
            TrafficReportError::ZeroRunId => "traffic-test run ID must be non-zero".to_owned(),
            TrafficReportError::ZeroMutationIntentId =>
                "mutation intent ID must be non-zero".to_owned(),
            TrafficReportError::ZeroSnapshotGeneration =>
                "snapshot publication generation must be non-zero".to_owned(),
            TrafficReportError::MissingMutationIdentity { phase } => text::cat2(
                phase.name(),
                " evaluation requires a mutation identity",
            ),
            TrafficReportError::UnexpectedMutationIdentity { phase } => text::cat2(
                phase.name(),
                " evaluation cannot carry mutation identity",
            ),
            TrafficReportError::MissingCandidateIdentity =>
                "candidate evaluation requires base and candidate identities".to_owned(),
            TrafficReportError::CandidateIdentityMismatch =>
                "candidate identity does not match its evaluation context".to_owned(),
            TrafficReportError::UnexpectedCandidateIdentity =>
                "post-apply evaluation cannot carry a candidate identity".to_owned(),
            TrafficReportError::MissingUnknownReason =>
                "unknown decision requires an unknown reason".to_owned(),
            TrafficReportError::UnexpectedUnknownReason =>
                "proven decision cannot carry an unknown reason".to_owned(),
            TrafficReportError::TraceTooLong { count, max } => {
                let count_text = number::show(*count as u64);
                let max_text = number::show(*max as u64);
                text::cat4(
                    "trace contains ",
                    count_text.as_str(),
                    " steps; maximum is ",
                    max_text.as_str(),
                )
            },
            TrafficReportError::TooManyResults { count, max } => {
                let count_text = number::show(*count as u64);
                let max_text = number::show(*max as u64);
                text::cat4(
                    "report contains ",
                    count_text.as_str(),
                    " results; maximum is ",
                    max_text.as_str(),
                )
            },
            TrafficReportError::DuplicateResult(x0) => text::cat3(
                "duplicate result for scenario `",
                x0.as_str(),
                "`",
            ),
            TrafficReportError::ReportTooLarge { bytes, max } => {
                let bytes_text = number::show(*bytes as u64);
                let max_text = number::show(*max as u64);
                text::cat4(
                    "serialized report is ",
                    bytes_text.as_str(),
                    " bytes; maximum is ",
                    max_text.as_str(),
                )
            },
            TrafficReportError::SerializationFailed =>
                "traffic-test report serialization failed".to_owned(),
        }
    }
}

proof fn counted_is_filtered(results: Seq<TrafficTestResultView>, status: TrafficTestStatus)
    ensures
        counted(results, status) == results.filter(
            |r: TrafficTestResultView| r.status == status,
        ).len(),
    decreases results.len(),
{
    reveal(Seq::filter);
    if results.len() > 0 {
        counted_is_filtered(results.drop_last(), status);
    }
}

/// A report counts its results: each count is the number of results with that
/// status, and what a result passes or fails by is its decision against its
/// expectation.
pub proof fn reports_count_their_results(
    context: EvaluationContextView,
    results: Seq<TrafficTestResultView>,
)
    ensures
        TrafficTestReportView::of(context, results) matches Ok(report) ==> {
            &&& report.context == context
            &&& report.results == results
            &&& report.summary.total == results.len()
            &&& report.summary.passed == results.filter(
                |r: TrafficTestResultView| r.status == TrafficTestStatus::Pass,
            ).len()
            &&& report.summary.failed == results.filter(
                |r: TrafficTestResultView| r.status == TrafficTestStatus::Fail,
            ).len()
            &&& report.summary.indeterminate == results.filter(
                |r: TrafficTestResultView| r.status == TrafficTestStatus::Indeterminate,
            ).len()
            &&& report.summary.not_run == results.filter(
                |r: TrafficTestResultView| r.status == TrafficTestStatus::NotRun,
            ).len()
            &&& report.summary.stale == results.filter(
                |r: TrafficTestResultView| r.status == TrafficTestStatus::Stale,
            ).len()
        },
{
    counted_is_filtered(results, TrafficTestStatus::Pass);
    counted_is_filtered(results, TrafficTestStatus::Fail);
    counted_is_filtered(results, TrafficTestStatus::Indeterminate);
    counted_is_filtered(results, TrafficTestStatus::NotRun);
    counted_is_filtered(results, TrafficTestStatus::Stale);
    counted_within(results, TrafficTestStatus::Pass);
    counted_within(results, TrafficTestStatus::Fail);
    counted_within(results, TrafficTestStatus::Indeterminate);
    counted_within(results, TrafficTestStatus::NotRun);
    counted_within(results, TrafficTestStatus::Stale);
}

/// A result passes exactly if traffic is allowed that should be, or blocked
/// that should be, and fails exactly if it is the other way round.
pub proof fn results_pass_as_expected(
    id: Seq<char>,
    expectation: TrafficExpectation,
    decision: FirewallDecision,
    reason: Option<UnknownReason>,
    trace: Seq<TrafficTraceStepView>,
)
    ensures
        TrafficTestResultView::of(id, expectation, decision, reason, trace) is Ok == ((decision
            == FirewallDecision::Unknown) == (reason is Some) && trace.len() <= MAX_TRACE_STEPS),
        TrafficTestResultView::of(id, expectation, decision, reason, trace) matches Ok(r) ==> {
            &&& r.scenario_id == id
            &&& r.expectation == expectation
            &&& r.decision == decision
            &&& r.unknown_reason == reason
            &&& r.trace == trace
            &&& (r.status == TrafficTestStatus::Pass) == ((decision == FirewallDecision::Allow
                && expectation == TrafficExpectation::Allow) || (decision == FirewallDecision::Block
                && expectation == TrafficExpectation::Block))
            &&& (r.status == TrafficTestStatus::Fail) == ((decision == FirewallDecision::Allow
                && expectation == TrafficExpectation::Block) || (decision == FirewallDecision::Block
                && expectation == TrafficExpectation::Allow))
            &&& (r.status == TrafficTestStatus::Indeterminate) == (decision
                == FirewallDecision::Unknown)
        },
{
}

/// An evaluation context is coherent: a look at the current state carries no
/// identity of a change; a staged candidate carries the identity of the change
/// and of the candidate, both name the same base, change, plan and target, and
/// the base is the snapshot that counts;
/// a look after applying carries the identity of the change and no candidate.
pub proof fn contexts_bind_their_identities(c: EvaluationContextView)
    ensures
        c.objection() is None == match c.phase {
            EvaluationPhase::Current => c.mutation_intent_id is None && c.plan_id is None
                && c.base_snapshot is None && c.candidate_identity is None,
            EvaluationPhase::StagedCandidate => c.mutation_intent_id is Some && c.base_snapshot
                == Some(c.authoritative_snapshot) && (c.candidate_identity matches Some(i) && Some(
                i.base_snapshot,
            ) == c.base_snapshot && Some(i.mutation_intent_id) == c.mutation_intent_id
                && i.plan_id == c.plan_id && i.target == c.target),
            EvaluationPhase::PostApply => c.mutation_intent_id is Some && c.candidate_identity
                is None,
        },
{
}

/// A report is within its budget exactly if it was encoded in no more than the
/// limit, and is then the same report.
pub proof fn budgets_keep_the_report(report: TrafficTestReportView, encoded: Option<usize>)
    ensures
        report.budgeted(encoded) is Ok == (encoded matches Some(n) && n
            <= MAX_TRAFFIC_REPORT_BYTES),
        report.budgeted(encoded) matches Ok(r) ==> r == report,
{
}

} // verus!
