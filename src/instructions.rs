//! The protocol's operations as state transitions.
//!
//! Each operation is handed the caller's already authenticated identity and
//! the records it may touch (one struct per operation), and either applies
//! all of its effects to them or rejects with an error and changes nothing.
//! A record that the operation creates is `None` when it does not exist yet.

use vstd::prelude::*;
use crate::errors::{check_bps_bounds, check_protocol_active, check_slot_validity, SsoError};
use crate::state::{
    all_zero, bytes_eq, zero_bytes, GlobalConfig, MarketContext, Measurement, ProviderRegistry, Pubkey,
    SignalAccount, SignalAssessment, SignalStatus, TeePlatform, TeeReceipt,
    MAX_ENCLAVES_PER_PROVIDER, SPEC_VERSION,
};

verus! {

/// `v` where an optional value is given, `current` otherwise.
pub open spec fn given_or<T>(v: Option<T>, current: T) -> T {
    match v {
        Some(x) => x,
        None => current,
    }
}

/// Slots between `current_slot` and the assessment's last valid slot, zero
/// once that slot has passed.
pub open spec fn validity_window(a: SignalAssessment, current_slot: u64) -> u64 {
    a.valid_until_slot.saturating_sub(current_slot)
}

// ---------------------------------------------------------------------------
// Attestation policy
// ---------------------------------------------------------------------------

/// Acceptance policy for a receipt presented by `provider`: the platform must
/// be AMD SEV-SNP, the enclave measurement must be on the provider's
/// allowlist, and neither the enclave key nor the signature may be all zeros.
pub open spec fn attestation_policy(receipt: TeeReceipt, provider: ProviderRegistry) -> Result<
    (),
    SsoError,
> {
    if receipt.platform != TeePlatform::AmdSevSnp {
        Err(SsoError::UnsupportedTeePlatform)
    } else if !provider.allows(receipt.mr_enclave) {
        Err(SsoError::EnclaveNotAllowed)
    } else if !receipt.has_signature_material() {
        Err(SsoError::InvalidTeeSignature)
    } else {
        Ok(())
    }
}

pub fn validate_attestation_policy(receipt: &TeeReceipt, provider: &ProviderRegistry) -> (r:
    Result<(), SsoError>)
    ensures
        r == attestation_policy(*receipt, *provider),
{
    if receipt.platform != TeePlatform::AmdSevSnp {
        return Err(SsoError::UnsupportedTeePlatform);
    }
    if !provider.is_enclave_allowed(&receipt.mr_enclave) {
        return Err(SsoError::EnclaveNotAllowed);
    }
    if all_zero(&receipt.enclave_pubkey) || all_zero(&receipt.enclave_signature) {
        return Err(SsoError::InvalidTeeSignature);
    }
    Ok(())
}

// ---------------------------------------------------------------------------
// InitializeConfig
// ---------------------------------------------------------------------------

/// Records handed to `handle_initialize_config`.
#[derive(Clone, Copy, Debug)]
pub struct InitializeConfig {
    /// The caller, who becomes the admin.
    pub admin: Pubkey,
    /// The configuration record, if it exists already.
    pub config: Option<GlobalConfig>,
    /// Bump of the configuration record's address.
    pub config_bump: u8,
}

pub open spec fn initialize_config_check(
    ctx: InitializeConfig,
    min_validity_slots: u64,
    max_validity_slots: u64,
    min_source_count: u8,
    min_confidence_bps: u16,
) -> Result<(), SsoError> {
    if ctx.config is Some {
        Err(SsoError::AlreadyInitialized)
    } else if min_validity_slots > max_validity_slots {
        Err(SsoError::InvalidConfigParameter)
    } else if min_confidence_bps > 10000 {
        Err(SsoError::BasisPointOverflow)
    } else if min_source_count < 1 {
        Err(SsoError::InvalidConfigParameter)
    } else {
        Ok(())
    }
}

pub open spec fn initialize_config_next(
    ctx: InitializeConfig,
    min_validity_slots: u64,
    max_validity_slots: u64,
    min_source_count: u8,
    min_confidence_bps: u16,
) -> InitializeConfig {
    InitializeConfig {
        config: Some(
            GlobalConfig {
                admin: ctx.admin,
                min_validity_slots,
                max_validity_slots,
                min_source_count,
                min_confidence_bps,
                is_paused: false,
                protocol_version: SPEC_VERSION as u16,
                total_signals: 0,
                total_providers: 0,
                bump: ctx.config_bump,
                _reserved: zero_bytes(),
            },
        ),
        ..ctx
    }
}

/// Creates the configuration record, unpaused and with zeroed counters.
pub fn handle_initialize_config(
    ctx: &mut InitializeConfig,
    min_validity_slots: u64,
    max_validity_slots: u64,
    min_source_count: u8,
    min_confidence_bps: u16,
) -> (r: Result<(), SsoError>)
    ensures
        r == initialize_config_check(
            *old(ctx),
            min_validity_slots,
            max_validity_slots,
            min_source_count,
            min_confidence_bps,
        ),
        r is Ok ==> *final(ctx) == initialize_config_next(
            *old(ctx),
            min_validity_slots,
            max_validity_slots,
            min_source_count,
            min_confidence_bps,
        ),
        r is Ok ==> final(ctx).config.unwrap().wf(),
        r is Err ==> *final(ctx) == *old(ctx),
{
    if ctx.config.is_some() {
        return Err(SsoError::AlreadyInitialized);
    }
    if min_validity_slots > max_validity_slots {
        return Err(SsoError::InvalidConfigParameter);
    }
    if let Err(e) = check_bps_bounds(min_confidence_bps) {
        return Err(e);
    }
    if min_source_count < 1 {
        return Err(SsoError::InvalidConfigParameter);
    }
    ctx.config = Some(
        GlobalConfig {
            admin: ctx.admin,
            min_validity_slots,
            max_validity_slots,
            min_source_count,
            min_confidence_bps,
            is_paused: false,
            protocol_version: SPEC_VERSION as u16,
            total_signals: 0,
            total_providers: 0,
            bump: ctx.config_bump,
            _reserved: [0u8; 32],
        },
    );
    Ok(())
}

// ---------------------------------------------------------------------------
// RegisterProvider
// ---------------------------------------------------------------------------

/// Records handed to `handle_register_provider`.
#[derive(Clone, Copy, Debug)]
pub struct RegisterProvider {
    /// The caller, who becomes the provider's authority.
    pub authority: Pubkey,
    /// The caller's provider record, if it exists already.
    pub provider: Option<ProviderRegistry>,
    /// Bump of the provider record's address.
    pub provider_bump: u8,
    pub config: GlobalConfig,
}

/// The allowlist a new provider starts with.
pub open spec fn initial_allowlist(initial_enclave: Option<Measurement>) -> Seq<Measurement> {
    match initial_enclave {
        Some(e) => seq![e],
        None => Seq::empty(),
    }
}

pub open spec fn register_provider_check(ctx: RegisterProvider) -> Result<(), SsoError> {
    if ctx.provider is Some {
        Err(SsoError::AccountAlreadyExists)
    } else if ctx.config.is_paused {
        Err(SsoError::ProtocolPaused)
    } else {
        Ok(())
    }
}

/// `after` holds the freshly registered, active provider record and is
/// otherwise `before`.
pub open spec fn register_provider_next(
    before: RegisterProvider,
    after: RegisterProvider,
    current_slot: u64,
    name: [u8; 32],
    initial_enclave: Option<Measurement>,
) -> bool {
    &&& after.authority == before.authority
    &&& after.provider_bump == before.provider_bump
    &&& after.config == before.config
    &&& after.provider is Some
    &&& {
        let p = after.provider.unwrap();
        &&& p.authority == before.authority
        &&& p.name == name
        &&& p.is_active
        &&& p.signal_count == 0
        &&& p.registered_at_slot == current_slot
        &&& p.last_active_slot == current_slot
        &&& p.bump == before.provider_bump
        &&& p._reserved == zero_bytes::<32>()
        &&& p.wf()
        &&& p.enclaves() == initial_allowlist(initial_enclave)
    }
}

/// Creates the caller's provider record, active, with at most one trusted
/// enclave.
pub fn handle_register_provider(
    ctx: &mut RegisterProvider,
    current_slot: u64,
    name: [u8; 32],
    initial_enclave: Option<Measurement>,
) -> (r: Result<(), SsoError>)
    ensures
        r == register_provider_check(*old(ctx)),
        r is Ok ==> register_provider_next(
            *old(ctx),
            *final(ctx),
            current_slot,
            name,
            initial_enclave,
        ),
        r is Err ==> *final(ctx) == *old(ctx),
{
    if ctx.provider.is_some() {
        return Err(SsoError::AccountAlreadyExists);
    }
    if let Err(e) = check_protocol_active(ctx.config.is_paused) {
        return Err(e);
    }
    let mut provider = ProviderRegistry {
        authority: ctx.authority,
        name,
        is_active: true,
        signal_count: 0,
        registered_at_slot: current_slot,
        last_active_slot: current_slot,
        enclave_count: 0,
        allowed_enclaves: [[0u8; 32]; MAX_ENCLAVES_PER_PROVIDER],
        bump: ctx.provider_bump,
        _reserved: [0u8; 32],
    };
    assert(provider.enclaves() =~= Seq::<Measurement>::empty());
    if let Some(enclave) = initial_enclave {
        let added = provider.add_enclave(enclave);
        assert(added);
        assert(provider.enclaves() =~= seq![enclave]);
    }
    ctx.provider = Some(provider);
    Ok(())
}

// ---------------------------------------------------------------------------
// SubmitSignal
// ---------------------------------------------------------------------------

/// Records handed to `handle_submit_signal`.
#[derive(Clone, Copy, Debug)]
pub struct SubmitSignal {
    /// The caller.
    pub authority: Pubkey,
    /// The caller's provider record.
    pub provider: ProviderRegistry,
    /// The record under the caller and the signal id, if it exists already.
    pub signal: Option<SignalAccount>,
    /// Bump of the signal record's address.
    pub signal_bump: u8,
    pub config: GlobalConfig,
}

pub open spec fn submit_signal_check(
    ctx: SubmitSignal,
    current_slot: u64,
    market_context: MarketContext,
    signal_assessment: SignalAssessment,
    tee_receipt: TeeReceipt,
) -> Result<(), SsoError> {
    let config = ctx.config;
    let window = validity_window(signal_assessment, current_slot);
    if ctx.signal is Some {
        Err(SsoError::AccountAlreadyExists)
    } else if !ctx.provider.is_active {
        Err(SsoError::ProviderNotActive)
    } else if ctx.provider.authority != ctx.authority {
        Err(SsoError::ProviderAuthorityMismatch)
    } else if config.is_paused {
        Err(SsoError::ProtocolPaused)
    } else if !market_context.is_well_formed() {
        Err(SsoError::InvalidMarketContext)
    } else if market_context.source_count < config.min_source_count {
        Err(SsoError::InsufficientSources)
    } else if !market_context.is_fresh_at(current_slot) {
        Err(SsoError::StaleMarketData)
    } else if !signal_assessment.is_valid_at(current_slot) {
        Err(SsoError::InvalidSignalAssessment)
    } else if signal_assessment.confidence_bps < config.min_confidence_bps {
        Err(SsoError::InsufficientConfidence)
    } else if window < config.min_validity_slots {
        Err(SsoError::ValidityPeriodTooShort)
    } else if window > config.max_validity_slots {
        Err(SsoError::ValidityPeriodTooLong)
    } else {
        attestation_policy(tee_receipt, ctx.provider)
    }
}

pub open spec fn submit_signal_next(
    ctx: SubmitSignal,
    current_slot: u64,
    signal_id: [u8; 32],
    market_context: MarketContext,
    signal_assessment: SignalAssessment,
    tee_receipt: TeeReceipt,
) -> SubmitSignal {
    SubmitSignal {
        signal: Some(
            SignalAccount {
                provider: ctx.authority,
                signal_id,
                spec_version: SPEC_VERSION,
                status: SignalStatus::Active,
                market_context,
                signal_assessment,
                tee_receipt,
                created_at_slot: current_slot,
                updated_at_slot: current_slot,
                update_count: 0,
                bump: ctx.signal_bump,
                _reserved: zero_bytes(),
            },
        ),
        provider: ProviderRegistry {
            signal_count: ctx.provider.signal_count.saturating_add(1),
            last_active_slot: current_slot,
            ..ctx.provider
        },
        config: GlobalConfig {
            total_signals: ctx.config.total_signals.saturating_add(1),
            ..ctx.config
        },
        ..ctx
    }
}

/// Publishes a new signal: creates its record, active, and counts it for the
/// provider and the protocol.
pub fn handle_submit_signal(
    ctx: &mut SubmitSignal,
    current_slot: u64,
    signal_id: [u8; 32],
    market_context: MarketContext,
    signal_assessment: SignalAssessment,
    tee_receipt: TeeReceipt,
) -> (r: Result<(), SsoError>)
    ensures
        r == submit_signal_check(
            *old(ctx),
            current_slot,
            market_context,
            signal_assessment,
            tee_receipt,
        ),
        r is Ok ==> *final(ctx) == submit_signal_next(
            *old(ctx),
            current_slot,
            signal_id,
            market_context,
            signal_assessment,
            tee_receipt,
        ),
        r is Err ==> *final(ctx) == *old(ctx),
{
    if ctx.signal.is_some() {
        return Err(SsoError::AccountAlreadyExists);
    }
    if !ctx.provider.is_active {
        return Err(SsoError::ProviderNotActive);
    }
    if !bytes_eq(&ctx.provider.authority, &ctx.authority) {
        return Err(SsoError::ProviderAuthorityMismatch);
    }
    if let Err(e) = check_protocol_active(ctx.config.is_paused) {
        return Err(e);
    }
    if !market_context.validate() {
        return Err(SsoError::InvalidMarketContext);
    }
    if market_context.source_count < ctx.config.min_source_count {
        return Err(SsoError::InsufficientSources);
    }
    if !market_context.is_fresh(current_slot) {
        return Err(SsoError::StaleMarketData);
    }
    if !signal_assessment.validate(current_slot) {
        return Err(SsoError::InvalidSignalAssessment);
    }
    if signal_assessment.confidence_bps < ctx.config.min_confidence_bps {
        return Err(SsoError::InsufficientConfidence);
    }
    let validity_slots = signal_assessment.valid_until_slot.saturating_sub(current_slot);
    if validity_slots < ctx.config.min_validity_slots {
        return Err(SsoError::ValidityPeriodTooShort);
    }
    if validity_slots > ctx.config.max_validity_slots {
        return Err(SsoError::ValidityPeriodTooLong);
    }
    if let Err(e) = validate_attestation_policy(&tee_receipt, &ctx.provider) {
        return Err(e);
    }
    ctx.signal = Some(
        SignalAccount {
            provider: ctx.authority,
            signal_id,
            spec_version: SPEC_VERSION,
            status: SignalStatus::Active,
            market_context,
            signal_assessment,
            tee_receipt,
            created_at_slot: current_slot,
            updated_at_slot: current_slot,
            update_count: 0,
            bump: ctx.signal_bump,
            _reserved: [0u8; 32],
        },
    );
    ctx.provider.signal_count = ctx.provider.signal_count.saturating_add(1);
    ctx.provider.last_active_slot = current_slot;
    ctx.config.total_signals = ctx.config.total_signals.saturating_add(1);
    Ok(())
}

// ---------------------------------------------------------------------------
// UpdateSignal
// ---------------------------------------------------------------------------

/// Records handed to `handle_update_signal`.
#[derive(Clone, Copy, Debug)]
pub struct UpdateSignal {
    /// The caller.
    pub authority: Pubkey,
    /// The caller's provider record.
    pub provider: ProviderRegistry,
    pub signal: SignalAccount,
    pub config: GlobalConfig,
}

/// Thresholds on confidence and source count gate only submission; an update
/// is held to structural and temporal validity. Liveness is first checked
/// against the assessment being replaced.
pub open spec fn update_signal_check(
    ctx: UpdateSignal,
    current_slot: u64,
    market_context: MarketContext,
    signal_assessment: SignalAssessment,
    tee_receipt: TeeReceipt,
) -> Result<(), SsoError> {
    if ctx.signal.status != SignalStatus::Active {
        Err(SsoError::InvalidSignalState)
    } else if !ctx.provider.is_active {
        Err(SsoError::ProviderNotActive)
    } else if ctx.provider.authority != ctx.authority {
        Err(SsoError::ProviderAuthorityMismatch)
    } else if ctx.signal.provider != ctx.authority {
        Err(SsoError::ProviderAuthorityMismatch)
    } else if ctx.config.is_paused {
        Err(SsoError::ProtocolPaused)
    } else if current_slot > ctx.signal.signal_assessment.valid_until_slot {
        Err(SsoError::SignalExpired)
    } else if !market_context.is_well_formed() {
        Err(SsoError::InvalidMarketContext)
    } else if !market_context.is_fresh_at(current_slot) {
        Err(SsoError::StaleMarketData)
    } else if !signal_assessment.is_valid_at(current_slot) {
        Err(SsoError::InvalidSignalAssessment)
    } else {
        attestation_policy(tee_receipt, ctx.provider)
    }
}

pub open spec fn update_signal_next(
    ctx: UpdateSignal,
    current_slot: u64,
    market_context: MarketContext,
    signal_assessment: SignalAssessment,
    tee_receipt: TeeReceipt,
) -> UpdateSignal {
    UpdateSignal {
        signal: SignalAccount {
            market_context,
            signal_assessment,
            tee_receipt,
            updated_at_slot: current_slot,
            update_count: ctx.signal.update_count.saturating_add(1),
            ..ctx.signal
        },
        provider: ProviderRegistry { last_active_slot: current_slot, ..ctx.provider },
        ..ctx
    }
}

/// Replaces the signal's market context, assessment and receipt with a new
/// version.
pub fn handle_update_signal(
    ctx: &mut UpdateSignal,
    current_slot: u64,
    market_context: MarketContext,
    signal_assessment: SignalAssessment,
    tee_receipt: TeeReceipt,
) -> (r: Result<(), SsoError>)
    ensures
        r == update_signal_check(
            *old(ctx),
            current_slot,
            market_context,
            signal_assessment,
            tee_receipt,
        ),
        r is Ok ==> *final(ctx) == update_signal_next(
            *old(ctx),
            current_slot,
            market_context,
            signal_assessment,
            tee_receipt,
        ),
        r is Err ==> *final(ctx) == *old(ctx),
{
    if ctx.signal.status != SignalStatus::Active {
        return Err(SsoError::InvalidSignalState);
    }
    if !ctx.provider.is_active {
        return Err(SsoError::ProviderNotActive);
    }
    if !bytes_eq(&ctx.provider.authority, &ctx.authority) {
        return Err(SsoError::ProviderAuthorityMismatch);
    }
    if !bytes_eq(&ctx.signal.provider, &ctx.authority) {
        return Err(SsoError::ProviderAuthorityMismatch);
    }
    if let Err(e) = check_protocol_active(ctx.config.is_paused) {
        return Err(e);
    }
    if let Err(e) = check_slot_validity(current_slot, ctx.signal.signal_assessment.valid_until_slot) {
        return Err(e);
    }
    if !market_context.validate() {
        return Err(SsoError::InvalidMarketContext);
    }
    if !market_context.is_fresh(current_slot) {
        return Err(SsoError::StaleMarketData);
    }
    if !signal_assessment.validate(current_slot) {
        return Err(SsoError::InvalidSignalAssessment);
    }
    if let Err(e) = validate_attestation_policy(&tee_receipt, &ctx.provider) {
        return Err(e);
    }
    ctx.signal.market_context = market_context;
    ctx.signal.signal_assessment = signal_assessment;
    ctx.signal.tee_receipt = tee_receipt;
    ctx.signal.updated_at_slot = current_slot;
    ctx.signal.update_count = ctx.signal.update_count.saturating_add(1);
    ctx.provider.last_active_slot = current_slot;
    Ok(())
}

// ---------------------------------------------------------------------------
// RevokeSignal
// ---------------------------------------------------------------------------

/// Records handed to `handle_revoke_signal`.
#[derive(Clone, Copy, Debug)]
pub struct RevokeSignal {
    /// The caller.
    pub authority: Pubkey,
    pub signal: SignalAccount,
}

pub open spec fn revoke_signal_check(ctx: RevokeSignal) -> Result<(), SsoError> {
    if ctx.signal.status != SignalStatus::Active {
        Err(SsoError::InvalidSignalState)
    } else if ctx.signal.provider != ctx.authority {
        Err(SsoError::ProviderAuthorityMismatch)
    } else {
        Ok(())
    }
}

pub open spec fn revoke_signal_next(ctx: RevokeSignal, current_slot: u64) -> RevokeSignal {
    RevokeSignal {
        signal: SignalAccount {
            status: SignalStatus::Revoked,
            updated_at_slot: current_slot,
            ..ctx.signal
        },
        ..ctx
    }
}

/// Revokes an active signal for good.
pub fn handle_revoke_signal(ctx: &mut RevokeSignal, current_slot: u64) -> (r: Result<(), SsoError>)
    ensures
        r == revoke_signal_check(*old(ctx)),
        r is Ok ==> *final(ctx) == revoke_signal_next(*old(ctx), current_slot),
        r is Err ==> *final(ctx) == *old(ctx),
{
    if ctx.signal.status != SignalStatus::Active {
        return Err(SsoError::InvalidSignalState);
    }
    if !bytes_eq(&ctx.signal.provider, &ctx.authority) {
        return Err(SsoError::ProviderAuthorityMismatch);
    }
    ctx.signal.status = SignalStatus::Revoked;
    ctx.signal.updated_at_slot = current_slot;
    Ok(())
}

// ---------------------------------------------------------------------------
// AddEnclave and RemoveEnclave
// ---------------------------------------------------------------------------

/// Records handed to `handle_add_enclave`.
#[derive(Clone, Copy, Debug)]
pub struct AddEnclave {
    /// The caller.
    pub authority: Pubkey,
    pub provider: ProviderRegistry,
}

pub open spec fn add_enclave_check(ctx: AddEnclave, mr_enclave: Measurement) -> Result<(), SsoError> {
    if ctx.provider.authority != ctx.authority {
        Err(SsoError::ProviderAuthorityMismatch)
    } else if ctx.provider.enclaves().len() >= MAX_ENCLAVES_PER_PROVIDER {
        Err(SsoError::MaxEnclavesExceeded)
    } else if ctx.provider.allows(mr_enclave) {
        Err(SsoError::EnclaveAlreadyExists)
    } else {
        Ok(())
    }
}

/// Appends a measurement to the caller's allowlist.
pub fn handle_add_enclave(ctx: &mut AddEnclave, mr_enclave: Measurement) -> (r: Result<(), SsoError>)
    requires
        old(ctx).provider.wf(),
    ensures
        final(ctx).provider.wf(),
        r == add_enclave_check(*old(ctx), mr_enclave),
        r is Ok ==> final(ctx).provider.enclaves() == old(ctx).provider.enclaves().push(mr_enclave),
        r is Ok ==> final(ctx).provider.same_except_allowlist(old(ctx).provider),
        r is Ok ==> final(ctx).authority == old(ctx).authority,
        r is Err ==> *final(ctx) == *old(ctx),
{
    if !bytes_eq(&ctx.provider.authority, &ctx.authority) {
        return Err(SsoError::ProviderAuthorityMismatch);
    }
    if ctx.provider.enclave_count as usize >= MAX_ENCLAVES_PER_PROVIDER {
        return Err(SsoError::MaxEnclavesExceeded);
    }
    if ctx.provider.is_enclave_allowed(&mr_enclave) {
        return Err(SsoError::EnclaveAlreadyExists);
    }
    let added = ctx.provider.add_enclave(mr_enclave);
    assert(added);
    Ok(())
}

/// Records handed to `handle_remove_enclave`.
#[derive(Clone, Copy, Debug)]
pub struct RemoveEnclave {
    /// The caller.
    pub authority: Pubkey,
    pub provider: ProviderRegistry,
}

pub open spec fn remove_enclave_check(ctx: RemoveEnclave, mr_enclave: Measurement) -> Result<
    (),
    SsoError,
> {
    if ctx.provider.authority != ctx.authority {
        Err(SsoError::ProviderAuthorityMismatch)
    } else if !ctx.provider.allows(mr_enclave) {
        Err(SsoError::EnclaveNotFound)
    } else {
        Ok(())
    }
}

/// Takes a measurement off the caller's allowlist; the entries after it keep
/// their order.
pub fn handle_remove_enclave(ctx: &mut RemoveEnclave, mr_enclave: Measurement) -> (r: Result<
    (),
    SsoError,
>)
    requires
        old(ctx).provider.wf(),
    ensures
        final(ctx).provider.wf(),
        r == remove_enclave_check(*old(ctx), mr_enclave),
        r is Ok ==> final(ctx).provider.enclaves() == old(ctx).provider.enclaves().remove(
            old(ctx).provider.enclaves().index_of(mr_enclave),
        ),
        r is Ok ==> final(ctx).provider.same_except_allowlist(old(ctx).provider),
        r is Ok ==> final(ctx).authority == old(ctx).authority,
        r is Err ==> *final(ctx) == *old(ctx),
{
    if !bytes_eq(&ctx.provider.authority, &ctx.authority) {
        return Err(SsoError::ProviderAuthorityMismatch);
    }
    if !ctx.provider.is_enclave_allowed(&mr_enclave) {
        return Err(SsoError::EnclaveNotFound);
    }
    let removed = ctx.provider.remove_enclave(&mr_enclave);
    assert(removed);
    Ok(())
}

// ---------------------------------------------------------------------------
// PauseProtocol and UpdateConfig
// ---------------------------------------------------------------------------

/// Records handed to `handle_pause_protocol`.
#[derive(Clone, Copy, Debug)]
pub struct PauseProtocol {
    /// The caller.
    pub admin: Pubkey,
    pub config: GlobalConfig,
}

pub open spec fn pause_protocol_check(ctx: PauseProtocol) -> Result<(), SsoError> {
    if ctx.config.admin != ctx.admin {
        Err(SsoError::AdminRequired)
    } else {
        Ok(())
    }
}

/// Sets or clears the pause flag.
pub fn handle_pause_protocol(ctx: &mut PauseProtocol, paused: bool) -> (r: Result<(), SsoError>)
    ensures
        r == pause_protocol_check(*old(ctx)),
        r is Ok ==> *final(ctx) == (PauseProtocol {
            config: GlobalConfig { is_paused: paused, ..old(ctx).config },
            ..*old(ctx)
        }),
        r is Err ==> *final(ctx) == *old(ctx),
{
    if !bytes_eq(&ctx.config.admin, &ctx.admin) {
        return Err(SsoError::AdminRequired);
    }
    ctx.config.is_paused = paused;
    Ok(())
}

/// Records handed to `handle_update_config`.
#[derive(Clone, Copy, Debug)]
pub struct UpdateConfig {
    /// The caller.
    pub admin: Pubkey,
    pub config: GlobalConfig,
}

pub open spec fn update_config_check(
    ctx: UpdateConfig,
    min_validity_slots: Option<u64>,
    max_validity_slots: Option<u64>,
    min_source_count: Option<u8>,
    min_confidence_bps: Option<u16>,
) -> Result<(), SsoError> {
    if ctx.config.admin != ctx.admin {
        Err(SsoError::AdminRequired)
    } else if min_source_count == Some(0u8) {
        Err(SsoError::InvalidConfigParameter)
    } else if min_confidence_bps is Some && min_confidence_bps.unwrap() > 10000 {
        Err(SsoError::BasisPointOverflow)
    } else if given_or(min_validity_slots, ctx.config.min_validity_slots) > given_or(
        max_validity_slots,
        ctx.config.max_validity_slots,
    ) {
        Err(SsoError::InvalidConfigParameter)
    } else {
        Ok(())
    }
}

pub open spec fn update_config_next(
    ctx: UpdateConfig,
    min_validity_slots: Option<u64>,
    max_validity_slots: Option<u64>,
    min_source_count: Option<u8>,
    min_confidence_bps: Option<u16>,
) -> UpdateConfig {
    UpdateConfig {
        config: GlobalConfig {
            min_validity_slots: given_or(min_validity_slots, ctx.config.min_validity_slots),
            max_validity_slots: given_or(max_validity_slots, ctx.config.max_validity_slots),
            min_source_count: given_or(min_source_count, ctx.config.min_source_count),
            min_confidence_bps: given_or(min_confidence_bps, ctx.config.min_confidence_bps),
            ..ctx.config
        },
        ..ctx
    }
}

/// Overwrites the policy fields that are given and keeps the others.
pub fn handle_update_config(
    ctx: &mut UpdateConfig,
    min_validity_slots: Option<u64>,
    max_validity_slots: Option<u64>,
    min_source_count: Option<u8>,
    min_confidence_bps: Option<u16>,
) -> (r: Result<(), SsoError>)
    ensures
        r == update_config_check(
            *old(ctx),
            min_validity_slots,
            max_validity_slots,
            min_source_count,
            min_confidence_bps,
        ),
        r is Ok ==> *final(ctx) == update_config_next(
            *old(ctx),
            min_validity_slots,
            max_validity_slots,
            min_source_count,
            min_confidence_bps,
        ),
        r is Ok && old(ctx).config.wf() ==> final(ctx).config.wf(),
        r is Err ==> *final(ctx) == *old(ctx),
{
    if !bytes_eq(&ctx.config.admin, &ctx.admin) {
        return Err(SsoError::AdminRequired);
    }
    let mut config = ctx.config;
    if let Some(min) = min_validity_slots {
        config.min_validity_slots = min;
    }
    if let Some(max) = max_validity_slots {
        config.max_validity_slots = max;
    }
    if let Some(count) = min_source_count {
        if count < 1 {
            return Err(SsoError::InvalidConfigParameter);
        }
        config.min_source_count = count;
    }
    if let Some(conf) = min_confidence_bps {
        if let Err(e) = check_bps_bounds(conf) {
            return Err(e);
        }
        config.min_confidence_bps = conf;
    }
    if config.min_validity_slots > config.max_validity_slots {
        return Err(SsoError::InvalidConfigParameter);
    }
    ctx.config = config;
    Ok(())
}

// ---------------------------------------------------------------------------
// DeactivateProvider
// ---------------------------------------------------------------------------

/// Records handed to `handle_deactivate_provider`.
#[derive(Clone, Copy, Debug)]
pub struct DeactivateProvider {
    /// The caller.
    pub authority: Pubkey,
    pub provider: ProviderRegistry,
    pub config: GlobalConfig,
}

/// Who may deactivate a provider: the provider's own authority, or the admin.
pub open spec fn is_deactivation_authority(
    caller: Pubkey,
    provider: ProviderRegistry,
    config: GlobalConfig,
) -> bool {
    caller == provider.authority || caller == config.admin
}

pub fn may_deactivate(caller: &Pubkey, provider: &ProviderRegistry, config: &GlobalConfig) -> (r:
    bool)
    ensures
        r == is_deactivation_authority(*caller, *provider, *config),
{
    bytes_eq(caller, &provider.authority) || bytes_eq(caller, &config.admin)
}

/// Deactivates a provider for good: it can no longer submit or update.
pub fn handle_deactivate_provider(ctx: &mut DeactivateProvider) -> (r: Result<(), SsoError>)
    ensures
        r == (if is_deactivation_authority(old(ctx).authority, old(ctx).provider, old(ctx).config) {
            Ok(())
        } else {
            Err(SsoError::Unauthorized)
        }),
        r is Ok ==> *final(ctx) == (DeactivateProvider {
            provider: ProviderRegistry { is_active: false, ..old(ctx).provider },
            ..*old(ctx)
        }),
        r is Err ==> *final(ctx) == *old(ctx),
{
    if !may_deactivate(&ctx.authority, &ctx.provider, &ctx.config) {
        return Err(SsoError::Unauthorized);
    }
    ctx.provider.is_active = false;
    Ok(())
}

// ---------------------------------------------------------------------------
// Laws across operations
// ---------------------------------------------------------------------------

/// Capacity of the allowlist: with the first `k` of eight distinct
/// measurements listed, adding the next one succeeds while `k < 8`; once all
/// eight are listed, adding any measurement fails with `MaxEnclavesExceeded`.
pub proof fn lemma_allowlist_capacity(
    ctx: AddEnclave,
    ms: Seq<Measurement>,
    k: int,
    m: Measurement,
)
    requires
        ctx.provider.wf(),
        ctx.provider.authority == ctx.authority,
        ms.no_duplicates(),
        ms.len() == MAX_ENCLAVES_PER_PROVIDER,
        0 <= k <= ms.len(),
        ctx.provider.enclaves() == ms.take(k),
    ensures
        k < ms.len() ==> add_enclave_check(ctx, ms[k]) is Ok,
        k == ms.len() ==> add_enclave_check(ctx, m) == Err::<(), SsoError>(
            SsoError::MaxEnclavesExceeded,
        ),
{
    if k < ms.len() {
        if ms.take(k).contains(ms[k]) {
            let j = choose|j: int| 0 <= j < k && ms.take(k)[j] == ms[k];
            assert(ms[j] == ms[k]);
        }
    }
}

/// A signal key is submitted at most once: after a successful submission,
/// a submission handed the record it created fails with
/// `AccountAlreadyExists`, whatever else it carries.
pub proof fn lemma_submit_once(
    ctx: SubmitSignal,
    current_slot: u64,
    signal_id: [u8; 32],
    market_context: MarketContext,
    signal_assessment: SignalAssessment,
    tee_receipt: TeeReceipt,
    again: SubmitSignal,
    later_slot: u64,
    later_context: MarketContext,
    later_assessment: SignalAssessment,
    later_receipt: TeeReceipt,
)
    requires
        submit_signal_check(ctx, current_slot, market_context, signal_assessment, tee_receipt) is Ok,
        again.signal == submit_signal_next(
            ctx,
            current_slot,
            signal_id,
            market_context,
            signal_assessment,
            tee_receipt,
        ).signal,
    ensures
        submit_signal_check(again, later_slot, later_context, later_assessment, later_receipt)
            == Err::<(), SsoError>(SsoError::AccountAlreadyExists),
{
}

/// Revocation is terminal: after a successful revocation, every later
/// update or revocation of that signal fails with `InvalidSignalState`.
pub proof fn lemma_revocation_is_final(
    ctx: RevokeSignal,
    current_slot: u64,
    update: UpdateSignal,
    later_slot: u64,
    market_context: MarketContext,
    signal_assessment: SignalAssessment,
    tee_receipt: TeeReceipt,
    revoke: RevokeSignal,
)
    requires
        revoke_signal_check(ctx) is Ok,
        update.signal == revoke_signal_next(ctx, current_slot).signal,
        revoke.signal == revoke_signal_next(ctx, current_slot).signal,
    ensures
        update_signal_check(update, later_slot, market_context, signal_assessment, tee_receipt)
            == Err::<(), SsoError>(SsoError::InvalidSignalState),
        revoke_signal_check(revoke) == Err::<(), SsoError>(SsoError::InvalidSignalState),
{
}

} // verus!
