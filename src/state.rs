//! Persistent records of the protocol and the checks on the values they hold.
//!
//! Objective market data (`MarketContext`) and the subjective reading of it
//! (`SignalAssessment`) are two separate types, validated separately, and meet
//! only inside a `SignalAccount`.

use vstd::prelude::*;

verus! {

/// Version of the signal format (1.2).
pub const SPEC_VERSION: u8 = 12;

/// Capacity of a provider's enclave allowlist.
pub const MAX_ENCLAVES_PER_PROVIDER: usize = 8;

/// Largest number of slots by which market data may lag the current slot.
pub const MAX_MARKET_DATA_SLOT_DRIFT: u64 = 100;

/// Basis points of a whole (10000 = 100.00%).
pub const BPS_SCALE: u16 = 10000;

/// Scale of prices: eight decimal places.
pub const PRICE_SCALE: u64 = 100_000_000;

/// An account identity: the 32 bytes of a public key.
pub type Pubkey = [u8; 32];

/// An enclave measurement (MR_ENCLAVE).
pub type Measurement = [u8; 32];

// ---------------------------------------------------------------------------
// Bytes
// ---------------------------------------------------------------------------

/// Every byte of `a` is zero.
pub open spec fn is_zeroed<const N: usize>(a: [u8; N]) -> bool {
    forall|i: int| 0 <= i < N ==> #[trigger] a[i] == 0
}

/// The array of `N` zero bytes.
pub open spec fn zero_bytes<const N: usize>() -> [u8; N] {
    vstd::array::spec_array_fill_for_copy_type::<u8, N>(0u8)
}

/// Whether two byte arrays hold the same bytes.
pub fn bytes_eq<const N: usize>(a: &[u8; N], b: &[u8; N]) -> (r: bool)
    ensures
        r == (*a == *b),
{
    let mut i: usize = 0;
    while i < N
        invariant
            i <= N,
            forall|j: int| 0 <= j < i ==> a[j] == b[j],
        decreases N - i,
    {
        if a[i] != b[i] {
            return false;
        }
        i = i + 1;
    }
    assert(*a =~= *b);
    true
}

/// Whether every byte of `a` is zero.
pub fn all_zero<const N: usize>(a: &[u8; N]) -> (r: bool)
    ensures
        r == is_zeroed(*a),
{
    let mut i: usize = 0;
    while i < N
        invariant
            i <= N,
            forall|j: int| 0 <= j < i ==> a[j] == 0,
        decreases N - i,
    {
        if a[i] != 0 {
            return false;
        }
        i = i + 1;
    }
    true
}

// ---------------------------------------------------------------------------
// Population count
// ---------------------------------------------------------------------------

/// Bit `i` of `x`, as 0 or 1.
pub open spec fn bit_of(x: u16, i: nat) -> nat {
    if i < 16 {
        ((x >> (i as u16)) & 1u16) as nat
    } else {
        0
    }
}

/// Number of set bits of `x` among its lowest `k` bits.
pub open spec fn ones_below(x: u16, k: nat) -> nat
    decreases k,
{
    if k == 0 {
        0
    } else {
        ones_below(x, (k - 1) as nat) + bit_of(x, (k - 1) as nat)
    }
}

/// Number of set bits of `x`.
pub open spec fn popcount(x: u16) -> nat {
    ones_below(x, 16)
}

/// Counts the set bits of `x`.
pub fn count_ones(x: u16) -> (r: u8)
    ensures
        r == popcount(x),
{
    let mut n: u8 = 0;
    let mut i: u16 = 0;
    while i < 16
        invariant
            i <= 16,
            n == ones_below(x, i as nat),
            n <= i,
        decreases 16 - i,
    {
        let b: u16 = (x >> i) & 1;
        assert(b <= 1) by (bit_vector)
            requires
                b == (x >> i) & 1u16,
        ;
        n = n + b as u8;
        i = i + 1;
    }
    n
}

// ---------------------------------------------------------------------------
// Market context
// ---------------------------------------------------------------------------

/// Objective market state at the time a signal was generated.
#[derive(Clone, Copy, Debug, PartialEq)]
pub struct MarketContext {
    /// Unix time (seconds) of capture.
    pub timestamp: i64,
    /// Slot of capture.
    pub captured_at_slot: u64,
    /// Price in USD, scaled by `PRICE_SCALE`.
    pub price_usd: u64,
    pub volume_24h_usd: u64,
    pub market_cap_usd: u64,
    /// Signed change over 24 hours, in basis points.
    pub price_change_24h_bps: i32,
    /// Bid-ask spread, in basis points.
    pub spread_bps: u32,
    /// Order book depth at 2% from mid price, in USD.
    pub depth_2pct_usd: u64,
    /// Number of aggregated data sources.
    pub source_count: u8,
    /// One bit per contributing source.
    pub source_bitmap: u16,
    pub asset_symbol: [u8; 8],
    pub _reserved: [u8; 32],
}

impl Default for MarketContext {
    fn default() -> (r: Self)
        ensures
            r.timestamp == 0,
            r.captured_at_slot == 0,
            r.price_usd == 0,
            r.volume_24h_usd == 0,
            r.market_cap_usd == 0,
            r.price_change_24h_bps == 0,
            r.spread_bps == 0,
            r.depth_2pct_usd == 0,
            r.source_count == 0,
            r.source_bitmap == 0,
            is_zeroed(r.asset_symbol),
            is_zeroed(r._reserved),
    {
        MarketContext {
            timestamp: 0,
            captured_at_slot: 0,
            price_usd: 0,
            volume_24h_usd: 0,
            market_cap_usd: 0,
            price_change_24h_bps: 0,
            spread_bps: 0,
            depth_2pct_usd: 0,
            source_count: 0,
            source_bitmap: 0,
            asset_symbol: [0u8; 8],
            _reserved: [0u8; 32],
        }
    }
}

impl MarketContext {
    /// Structural validity: a positive price, at least one source, and a
    /// bitmap with exactly one bit per counted source.
    pub open spec fn is_well_formed(&self) -> bool {
        &&& self.price_usd > 0
        &&& self.source_count > 0
        &&& popcount(self.source_bitmap) == self.source_count
    }

    /// Freshness: captured no later than `current_slot` and at most
    /// `MAX_MARKET_DATA_SLOT_DRIFT` slots before it.
    pub open spec fn is_fresh_at(&self, current_slot: u64) -> bool {
        self.captured_at_slot <= current_slot <= self.captured_at_slot
            + MAX_MARKET_DATA_SLOT_DRIFT
    }

    pub fn validate(&self) -> (r: bool)
        ensures
            r == self.is_well_formed(),
    {
        if self.price_usd == 0 {
            return false;
        }
        if self.source_count == 0 {
            return false;
        }
        let bitmap_count = count_ones(self.source_bitmap);
        bitmap_count == self.source_count
    }

    /// A slot earlier than the capture slot is rejected, not clamped.
    pub fn is_fresh(&self, current_slot: u64) -> (r: bool)
        ensures
            r == self.is_fresh_at(current_slot),
    {
        if current_slot < self.captured_at_slot {
            return false;
        }
        current_slot - self.captured_at_slot <= MAX_MARKET_DATA_SLOT_DRIFT
    }
}

// ---------------------------------------------------------------------------
// Signal assessment
// ---------------------------------------------------------------------------

/// Direction of a signal.
#[derive(Clone, Copy, Debug, PartialEq, Eq, Structural)]
pub enum SignalDirection {
    Neutral,
    Long,
    Short,
}

impl Default for SignalDirection {
    fn default() -> (r: Self)
        ensures
            r == SignalDirection::Neutral,
    {
        SignalDirection::Neutral
    }
}

/// Subjective reading of a market context, bounded in time by slots.
#[derive(Clone, Copy, Debug, PartialEq)]
pub struct SignalAssessment {
    pub direction: SignalDirection,
    /// Strength, 0..=10000 basis points.
    pub strength_bps: u16,
    /// Confidence, 0..=10000 basis points.
    pub confidence_bps: u16,
    /// Expected holding period in slots.
    pub time_horizon_slots: u64,
    /// Last slot at which the signal may be acted on.
    pub valid_until_slot: u64,
    /// Slot at which the assessment was generated.
    pub generated_at_slot: u64,
    /// Risk, 0..=10000 basis points.
    pub risk_score_bps: u16,
    /// Suggested position size, 0..=10000 basis points of a portfolio.
    pub suggested_size_bps: u16,
    pub model_version: u32,
    pub model_params_hash: [u8; 32],
    pub _reserved: [u8; 16],
}

impl Default for SignalAssessment {
    fn default() -> (r: Self)
        ensures
            r.direction == SignalDirection::Neutral,
            r.strength_bps == 0,
            r.confidence_bps == 0,
            r.time_horizon_slots == 0,
            r.valid_until_slot == 0,
            r.generated_at_slot == 0,
            r.risk_score_bps == 0,
            r.suggested_size_bps == 0,
            r.model_version == 0,
            is_zeroed(r.model_params_hash),
            is_zeroed(r._reserved),
    {
        SignalAssessment {
            direction: SignalDirection::Neutral,
            strength_bps: 0,
            confidence_bps: 0,
            time_horizon_slots: 0,
            valid_until_slot: 0,
            generated_at_slot: 0,
            risk_score_bps: 0,
            suggested_size_bps: 0,
            model_version: 0,
            model_params_hash: [0u8; 32],
            _reserved: [0u8; 16],
        }
    }
}

/// Slots left until `valid_until_slot`, or `None` once it has passed.
pub open spec fn remaining_slots(current_slot: u64, valid_until_slot: u64) -> Option<u64> {
    if current_slot <= valid_until_slot {
        Some((valid_until_slot - current_slot) as u64)
    } else {
        None
    }
}

impl SignalAssessment {
    /// Every basis-point field lies in `0..=10000`, the signal has not expired
    /// at `current_slot`, and it was generated no later than its last valid slot.
    pub open spec fn is_valid_at(&self, current_slot: u64) -> bool {
        &&& self.strength_bps <= BPS_SCALE
        &&& self.confidence_bps <= BPS_SCALE
        &&& self.risk_score_bps <= BPS_SCALE
        &&& self.suggested_size_bps <= BPS_SCALE
        &&& current_slot <= self.valid_until_slot
        &&& self.generated_at_slot <= self.valid_until_slot
    }

    pub fn validate(&self, current_slot: u64) -> (r: bool)
        ensures
            r == self.is_valid_at(current_slot),
    {
        if self.strength_bps > BPS_SCALE {
            return false;
        }
        if self.confidence_bps > BPS_SCALE {
            return false;
        }
        if self.risk_score_bps > BPS_SCALE {
            return false;
        }
        if self.suggested_size_bps > BPS_SCALE {
            return false;
        }
        if current_slot > self.valid_until_slot {
            return false;
        }
        self.generated_at_slot <= self.valid_until_slot
    }

    pub fn remaining_validity(&self, current_slot: u64) -> (r: Option<u64>)
        ensures
            r == remaining_slots(current_slot, self.valid_until_slot),
    {
        if current_slot <= self.valid_until_slot {
            Some(self.valid_until_slot - current_slot)
        } else {
            None
        }
    }
}

/// For a market context that counts at least one source: it is well formed
/// exactly when its bitmap has one bit set per counted source and its price
/// is positive.
pub proof fn lemma_market_context_validity(c: MarketContext)
    requires
        c.source_count > 0,
    ensures
        c.is_well_formed() <==> (popcount(c.source_bitmap) == c.source_count && c.price_usd > 0),
{
}

/// An assessment whose last valid slot has passed is invalid, whatever its
/// other fields hold.
pub proof fn lemma_expired_assessment_is_invalid(a: SignalAssessment, current_slot: u64)
    requires
        current_slot > a.valid_until_slot,
    ensures
        !a.is_valid_at(current_slot),
{
}

// ---------------------------------------------------------------------------
// Attestation receipt
// ---------------------------------------------------------------------------

/// Trusted execution platforms.
#[derive(Clone, Copy, Debug, PartialEq, Eq, Structural)]
pub enum TeePlatform {
    Unknown,
    /// AMD SEV-SNP, the only platform currently accepted.
    AmdSevSnp,
    IntelTdx,
    IntelSgx,
}

impl Default for TeePlatform {
    fn default() -> (r: Self)
        ensures
            r == TeePlatform::Unknown,
    {
        TeePlatform::Unknown
    }
}

/// Proof that a signal was produced inside an attested enclave.
#[derive(Clone, Copy, Debug, PartialEq)]
pub struct TeeReceipt {
    /// Measurement of the enclave code: must be on the provider's allowlist.
    pub mr_enclave: Measurement,
    pub mr_signer: [u8; 32],
    pub enclave_signature: [u8; 64],
    pub enclave_pubkey: [u8; 32],
    pub report_data: [u8; 64],
    pub attestation_timestamp: i64,
    pub platform: TeePlatform,
    /// Security version number.
    pub svn: u16,
    pub _reserved: [u8; 13],
}

impl Default for TeeReceipt {
    fn default() -> (r: Self)
        ensures
            is_zeroed(r.mr_enclave),
            is_zeroed(r.mr_signer),
            is_zeroed(r.enclave_signature),
            is_zeroed(r.enclave_pubkey),
            is_zeroed(r.report_data),
            r.attestation_timestamp == 0,
            r.platform == TeePlatform::Unknown,
            r.svn == 0,
            is_zeroed(r._reserved),
    {
        TeeReceipt {
            mr_enclave: [0u8; 32],
            mr_signer: [0u8; 32],
            enclave_signature: [0u8; 64],
            enclave_pubkey: [0u8; 32],
            report_data: [0u8; 64],
            attestation_timestamp: 0,
            platform: TeePlatform::Unknown,
            svn: 0,
            _reserved: [0u8; 13],
        }
    }
}

impl TeeReceipt {
    /// Neither the enclave key nor the signature is all zeros.
    pub open spec fn has_signature_material(&self) -> bool {
        !is_zeroed(self.enclave_pubkey) && !is_zeroed(self.enclave_signature)
    }

    /// Sanity check of the signature fields. The cryptographic check of the
    /// signature over the message belongs to the attestation service, whose
    /// verdict is taken as given; an all-zero key or signature is rejected
    /// here as malformed.
    pub fn verify_signature(&self, _message_hash: &[u8; 32]) -> (r: bool)
        ensures
            r == self.has_signature_material(),
    {
        if all_zero(&self.enclave_pubkey) {
            return false;
        }
        !all_zero(&self.enclave_signature)
    }
}

// ---------------------------------------------------------------------------
// Signal account
// ---------------------------------------------------------------------------

/// Lifecycle of a signal. `Expired` is never stored by an operation: expiry
/// is read from the assessment's last valid slot.
#[derive(Clone, Copy, Debug, PartialEq, Eq, Structural)]
pub enum SignalStatus {
    Uninitialized,
    Active,
    Expired,
    Revoked,
}

impl Default for SignalStatus {
    fn default() -> (r: Self)
        ensures
            r == SignalStatus::Uninitialized,
    {
        SignalStatus::Uninitialized
    }
}

/// One published signal of one provider, kept after revocation for audit.
#[derive(Clone, Copy, Debug, PartialEq)]
pub struct SignalAccount {
    pub provider: Pubkey,
    pub signal_id: [u8; 32],
    pub spec_version: u8,
    pub status: SignalStatus,
    pub market_context: MarketContext,
    pub signal_assessment: SignalAssessment,
    pub tee_receipt: TeeReceipt,
    pub created_at_slot: u64,
    pub updated_at_slot: u64,
    pub update_count: u64,
    pub bump: u8,
    pub _reserved: [u8; 32],
}

impl SignalAccount {
    /// The signal is expired at `current_slot`.
    pub open spec fn expired_at(&self, current_slot: u64) -> bool {
        current_slot > self.signal_assessment.valid_until_slot
    }

    /// Active and not expired at `current_slot`.
    pub fn is_valid_at_slot(&self, current_slot: u64) -> (r: bool)
        ensures
            r == (self.status == SignalStatus::Active && !self.expired_at(current_slot)),
    {
        self.status == SignalStatus::Active && current_slot
            <= self.signal_assessment.valid_until_slot
    }

    pub fn is_expired(&self, current_slot: u64) -> (r: bool)
        ensures
            r == self.expired_at(current_slot),
    {
        current_slot > self.signal_assessment.valid_until_slot
    }

    pub fn remaining_validity(&self, current_slot: u64) -> (r: Option<u64>)
        ensures
            r == remaining_slots(current_slot, self.signal_assessment.valid_until_slot),
    {
        if current_slot <= self.signal_assessment.valid_until_slot {
            Some(self.signal_assessment.valid_until_slot - current_slot)
        } else {
            None
        }
    }
}

// ---------------------------------------------------------------------------
// Provider registry and its enclave allowlist
// ---------------------------------------------------------------------------

/// An allowlist holding `list` has room for `m` and does not hold it yet.
pub open spec fn allowlist_admits(list: Seq<Measurement>, m: Measurement) -> bool {
    list.len() < MAX_ENCLAVES_PER_PROVIDER && !list.contains(m)
}

/// A registered signal provider and the enclave measurements it trusts.
#[derive(Clone, Copy, Debug, PartialEq)]
pub struct ProviderRegistry {
    pub authority: Pubkey,
    /// Human-readable name, zero-terminated.
    pub name: [u8; 32],
    pub is_active: bool,
    pub signal_count: u64,
    pub registered_at_slot: u64,
    pub last_active_slot: u64,
    /// Number of populated allowlist entries.
    pub enclave_count: u8,
    /// The allowlist: entries `0..enclave_count` are in use, in order of
    /// insertion.
    pub allowed_enclaves: [Measurement; MAX_ENCLAVES_PER_PROVIDER],
    pub bump: u8,
    pub _reserved: [u8; 32],
}

impl ProviderRegistry {
    /// Number of allowlist slots that are read as entries.
    pub open spec fn entry_count(&self) -> int {
        if self.enclave_count as int <= MAX_ENCLAVES_PER_PROVIDER as int {
            self.enclave_count as int
        } else {
            MAX_ENCLAVES_PER_PROVIDER as int
        }
    }

    /// The allowlist, in order of insertion.
    pub open spec fn enclaves(&self) -> Seq<Measurement> {
        self.allowed_enclaves@.subrange(0, self.entry_count())
    }

    /// Whether `m` is on the allowlist.
    pub open spec fn allows(&self, m: Measurement) -> bool {
        self.enclaves().contains(m)
    }

    /// The allowlist holds at most its capacity, no entry twice, and zeros
    /// in every unused slot.
    pub open spec fn wf(&self) -> bool {
        &&& self.enclave_count as int <= MAX_ENCLAVES_PER_PROVIDER as int
        &&& self.enclaves().no_duplicates()
        &&& forall|i: int|
            self.enclave_count <= i < MAX_ENCLAVES_PER_PROVIDER as int ==> is_zeroed(
                #[trigger] self.allowed_enclaves[i],
            )
    }

    /// `m` can be added: there is room, and it is not on the list yet.
    pub open spec fn admits(&self, m: Measurement) -> bool {
        allowlist_admits(self.enclaves(), m)
    }

    /// The two records agree on everything but the allowlist.
    pub open spec fn same_except_allowlist(&self, other: ProviderRegistry) -> bool {
        &&& self.authority == other.authority
        &&& self.name == other.name
        &&& self.is_active == other.is_active
        &&& self.signal_count == other.signal_count
        &&& self.registered_at_slot == other.registered_at_slot
        &&& self.last_active_slot == other.last_active_slot
        &&& self.bump == other.bump
        &&& self._reserved == other._reserved
    }

    /// Whether the allowlist is well formed: within capacity, without a
    /// repeated entry, and zeroed past its last entry.
    pub fn is_well_formed(&self) -> (r: bool)
        ensures
            r == self.wf(),
    {
        if self.enclave_count as usize > MAX_ENCLAVES_PER_PROVIDER {
            return false;
        }
        let count = self.enclave_count as usize;
        let ghost list = self.enclaves();
        let mut i: usize = 0;
        while i < count
            invariant
                count == self.enclave_count,
                count <= MAX_ENCLAVES_PER_PROVIDER,
                list == self.enclaves(),
                list.len() == count,
                i <= count,
                forall|a: int, b: int| 0 <= a < i && 0 <= b < i && a != b ==> list[a] != list[b],
            decreases count - i,
        {
            let mut j: usize = 0;
            while j < i
                invariant
                    count == self.enclave_count,
                    count <= MAX_ENCLAVES_PER_PROVIDER,
                    list == self.enclaves(),
                    list.len() == count,
                    i < count,
                    j <= i,
                    forall|a: int, b: int| 0 <= a < i && 0 <= b < i && a != b ==> list[a] != list[b],
                    forall|b: int| 0 <= b < j ==> list[b] != list[i as int],
                decreases i - j,
            {
                if bytes_eq(&self.allowed_enclaves[j], &self.allowed_enclaves[i]) {
                    assert(list[j as int] == list[i as int]);
                    return false;
                }
                j = j + 1;
            }
            i = i + 1;
        }
        let mut k: usize = count;
        while k < MAX_ENCLAVES_PER_PROVIDER
            invariant
                count == self.enclave_count,
                count <= k <= MAX_ENCLAVES_PER_PROVIDER,
                list == self.enclaves(),
                list.no_duplicates(),
                forall|x: int| count <= x < k ==> is_zeroed(#[trigger] self.allowed_enclaves[x]),
            decreases MAX_ENCLAVES_PER_PROVIDER - k,
        {
            if !all_zero(&self.allowed_enclaves[k]) {
                return false;
            }
            k = k + 1;
        }
        true
    }

    /// Linear scan over the populated entries.
    pub fn is_enclave_allowed(&self, mr_enclave: &Measurement) -> (r: bool)
        ensures
            r == self.allows(*mr_enclave),
    {
        let n: usize = if (self.enclave_count as usize) < MAX_ENCLAVES_PER_PROVIDER {
            self.enclave_count as usize
        } else {
            MAX_ENCLAVES_PER_PROVIDER
        };
        let mut i: usize = 0;
        while i < n
            invariant
                i <= n,
                n == self.enclaves().len(),
                forall|j: int| 0 <= j < i ==> self.enclaves()[j] != *mr_enclave,
            decreases n - i,
        {
            if bytes_eq(&self.allowed_enclaves[i], mr_enclave) {
                assert(self.enclaves()[i as int] == *mr_enclave);
                return true;
            }
            i = i + 1;
        }
        false
    }

    /// Appends `mr_enclave` when there is room and it is not listed yet;
    /// otherwise leaves the record as it was and returns false.
    pub fn add_enclave(&mut self, mr_enclave: Measurement) -> (r: bool)
        requires
            old(self).wf(),
        ensures
            final(self).wf(),
            r == old(self).admits(mr_enclave),
            r ==> final(self).enclaves() == old(self).enclaves().push(mr_enclave),
            !r ==> *final(self) == *old(self),
            final(self).same_except_allowlist(*old(self)),
    {
        if self.enclave_count as usize >= MAX_ENCLAVES_PER_PROVIDER {
            return false;
        }
        if self.is_enclave_allowed(&mr_enclave) {
            return false;
        }
        let ghost before = *self;
        let count = self.enclave_count as usize;
        self.allowed_enclaves[count] = mr_enclave;
        self.enclave_count = self.enclave_count + 1;
        assert(self.enclaves() =~= before.enclaves().push(mr_enclave));
        true
    }

    /// Removes `mr_enclave`, moving every later entry one place towards the
    /// front and zeroing the slot that is freed; returns false, leaving the
    /// record as it was, when it is not listed.
    pub fn remove_enclave(&mut self, mr_enclave: &Measurement) -> (r: bool)
        requires
            old(self).wf(),
        ensures
            final(self).wf(),
            r == old(self).allows(*mr_enclave),
            r ==> final(self).enclaves() == old(self).enclaves().remove(
                old(self).enclaves().index_of(*mr_enclave),
            ),
            !r ==> *final(self) == *old(self),
            final(self).same_except_allowlist(*old(self)),
    {
        let ghost before = *self;
        assert(before == *old(self));
        let count = self.enclave_count as usize;
        let mut i: usize = 0;
        while i < count
            invariant
                *self == before,
                before == *old(self),
                before.wf(),
                count == self.enclave_count,
                count == before.enclaves().len(),
                i <= count,
                forall|j: int| 0 <= j < i ==> before.enclaves()[j] != *mr_enclave,
            decreases count - i,
        {
            if bytes_eq(&self.allowed_enclaves[i], mr_enclave) {
                assert(before.enclaves()[i as int] == *mr_enclave);
                let ghost k = before.enclaves().index_of(*mr_enclave);
                assert(before.enclaves().contains(*mr_enclave));
                assert(0 <= k < count && before.enclaves()[k] == *mr_enclave);
                assert(k == i);
                let mut j: usize = i;
                while j + 1 < count
                    invariant
                        before == *old(self),
                        before.wf(),
                        count == before.enclave_count,
                        1 <= count <= MAX_ENCLAVES_PER_PROVIDER,
                        i <= j < count,
                        self.same_except_allowlist(before),
                        self.enclave_count == before.enclave_count,
                        forall|x: int| 0 <= x < i ==> self.allowed_enclaves[x] == before.allowed_enclaves[x],
                        forall|x: int| i <= x < j ==> self.allowed_enclaves[x] == before.allowed_enclaves[x + 1],
                        forall|x: int| j <= x < MAX_ENCLAVES_PER_PROVIDER ==> self.allowed_enclaves[x] == before.allowed_enclaves[x],
                    decreases count - j,
                {
                    let next = self.allowed_enclaves[j + 1];
                    self.allowed_enclaves[j] = next;
                    j = j + 1;
                }
                self.allowed_enclaves[count - 1] = [0u8; 32];
                self.enclave_count = self.enclave_count - 1;
                let ghost removed = before.enclaves().remove(i as int);
                assert(self.enclaves() =~= removed);
                assert(removed.no_duplicates()) by {
                    assert forall|a: int, b: int|
                        0 <= a < removed.len() && 0 <= b < removed.len() && a != b implies
                        removed[a] != removed[b] by {
                        let fa = if a < i { a } else { a + 1 };
                        let fb = if b < i { b } else { b + 1 };
                        assert(removed[a] == before.enclaves()[fa]);
                        assert(removed[b] == before.enclaves()[fb]);
                    }
                }
                assert forall|x: int|
                    self.enclave_count <= x < MAX_ENCLAVES_PER_PROVIDER as int implies is_zeroed(
                        #[trigger] self.allowed_enclaves[x],
                    ) by {
                    if x >= count {
                        assert(is_zeroed(before.allowed_enclaves[x]));
                    }
                }
                assert(before.allows(*mr_enclave));
                return true;
            }
            i = i + 1;
        }
        false
    }
}

// ---------------------------------------------------------------------------
// Global configuration
// ---------------------------------------------------------------------------

/// Protocol-wide policy, owned by the admin.
#[derive(Clone, Copy, Debug, PartialEq)]
pub struct GlobalConfig {
    pub admin: Pubkey,
    /// Shortest validity window a new signal may have, in slots.
    pub min_validity_slots: u64,
    /// Longest validity window a new signal may have, in slots.
    pub max_validity_slots: u64,
    /// Fewest data sources a new signal's market context may have.
    pub min_source_count: u8,
    /// Lowest confidence a new signal may have, in basis points.
    pub min_confidence_bps: u16,
    pub is_paused: bool,
    pub protocol_version: u16,
    /// Signals submitted across all providers.
    pub total_signals: u64,
    pub total_providers: u64,
    pub bump: u8,
    pub _reserved: [u8; 32],
}

impl GlobalConfig {
    /// The policy is consistent: a non-empty validity window range, at least
    /// one required source, and a confidence threshold within basis points.
    pub open spec fn wf(&self) -> bool {
        &&& self.min_validity_slots <= self.max_validity_slots
        &&& self.min_source_count >= 1
        &&& self.min_confidence_bps <= BPS_SCALE
    }
}

/// After a measurement is added, the allowlist contains it.
pub proof fn lemma_added_enclave_is_allowed(
    before: ProviderRegistry,
    after: ProviderRegistry,
    m: Measurement,
)
    requires
        before.wf(),
        before.admits(m),
        after.enclaves() == before.enclaves().push(m),
    ensures
        after.allows(m),
{
    assert(after.enclaves()[before.enclaves().len() as int] == m);
}

/// After a listed measurement is removed, the allowlist no longer contains
/// it, and the other entries keep their relative order in one fewer place.
pub proof fn lemma_removed_enclave_is_gone(
    before: ProviderRegistry,
    after: ProviderRegistry,
    m: Measurement,
)
    requires
        before.wf(),
        before.allows(m),
        after.enclaves() == before.enclaves().remove(before.enclaves().index_of(m)),
    ensures
        !after.allows(m),
        after.enclaves().len() == before.enclaves().len() - 1,
        forall|j: int|
            0 <= j < before.enclaves().index_of(m) ==> after.enclaves()[j] == before.enclaves()[j],
        forall|j: int|
            before.enclaves().index_of(m) <= j < after.enclaves().len() ==> after.enclaves()[j]
                == before.enclaves()[j + 1],
{
    let list = before.enclaves();
    let k = list.index_of(m);
    assert(0 <= k < list.len() && list[k] == m);
    if after.allows(m) {
        let j = choose|j: int| 0 <= j < after.enclaves().len() && after.enclaves()[j] == m;
        if j < k {
            assert(list[j] == list[k]);
        } else {
            assert(list[j + 1] == list[k]);
        }
    }
}

} // verus!
