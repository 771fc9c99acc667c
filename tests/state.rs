use sso_signal::state::{
    count_ones, MarketContext, ProviderRegistry, SignalAccount, SignalAssessment, SignalStatus,
    TeeReceipt, MAX_ENCLAVES_PER_PROVIDER, SPEC_VERSION,
};

fn empty_provider() -> ProviderRegistry {
    ProviderRegistry {
        authority: [0u8; 32],
        name: [0u8; 32],
        is_active: true,
        signal_count: 0,
        registered_at_slot: 0,
        last_active_slot: 0,
        enclave_count: 0,
        allowed_enclaves: [[0u8; 32]; MAX_ENCLAVES_PER_PROVIDER],
        bump: 0,
        _reserved: [0u8; 32],
    }
}

#[test]
fn test_market_context_validation() {
    let mut ctx = MarketContext::default();

    // Invalid: zero price
    assert!(!ctx.validate());

    // Invalid: zero sources
    ctx.price_usd = 50_000_00000000; // $50,000
    assert!(!ctx.validate());

    // Invalid: source count mismatch
    ctx.source_count = 2;
    ctx.source_bitmap = 0b001; // Only 1 bit set
    assert!(!ctx.validate());

    // Valid
    ctx.source_bitmap = 0b011; // 2 bits set
    assert!(ctx.validate());
}

#[test]
fn test_signal_assessment_validation() {
    let mut assessment = SignalAssessment::default();
    assessment.valid_until_slot = 1000;
    assessment.generated_at_slot = 500;

    // Valid at slot 800
    assert!(assessment.validate(800));

    // Invalid: expired
    assert!(!assessment.validate(1001));

    // Invalid: strength too high
    assessment.strength_bps = 10001;
    assert!(!assessment.validate(800));
}

#[test]
fn test_provider_enclave_management() {
    let mut provider = ProviderRegistry {
        authority: [0u8; 32],
        name: [0u8; 32],
        is_active: true,
        signal_count: 0,
        registered_at_slot: 0,
        last_active_slot: 0,
        enclave_count: 0,
        allowed_enclaves: [[0u8; 32]; MAX_ENCLAVES_PER_PROVIDER],
        bump: 0,
        _reserved: [0u8; 32],
    };

    let enclave1 = [1u8; 32];
    let enclave2 = [2u8; 32];

    // Add enclave
    assert!(provider.add_enclave(enclave1));
    assert_eq!(provider.enclave_count, 1);
    assert!(provider.is_enclave_allowed(&enclave1));

    // Can't add duplicate
    assert!(!provider.add_enclave(enclave1));

    // Add second enclave
    assert!(provider.add_enclave(enclave2));
    assert_eq!(provider.enclave_count, 2);

    // Remove first enclave
    assert!(provider.remove_enclave(&enclave1));
    assert_eq!(provider.enclave_count, 1);
    assert!(!provider.is_enclave_allowed(&enclave1));
    assert!(provider.is_enclave_allowed(&enclave2));
}

#[test]
fn test_signal_validity_check() {
    let signal = SignalAccount {
        provider: [0u8; 32],
        signal_id: [0u8; 32],
        spec_version: SPEC_VERSION,
        status: SignalStatus::Active,
        market_context: MarketContext::default(),
        signal_assessment: SignalAssessment { valid_until_slot: 1000, ..Default::default() },
        tee_receipt: TeeReceipt::default(),
        created_at_slot: 0,
        updated_at_slot: 0,
        update_count: 0,
        bump: 0,
        _reserved: [0u8; 32],
    };

    assert!(signal.is_valid_at_slot(500));
    assert!(signal.is_valid_at_slot(1000));
    assert!(!signal.is_valid_at_slot(1001));
    assert!(signal.is_expired(1001));

    assert_eq!(signal.remaining_validity(500), Some(500));
    assert_eq!(signal.remaining_validity(1001), None);
}

#[test]
fn popcount_of_bitmaps() {
    assert_eq!(count_ones(0), 0);
    assert_eq!(count_ones(0b1), 1);
    assert_eq!(count_ones(0b1011), 3);
    assert_eq!(count_ones(0x8000), 1);
    assert_eq!(count_ones(u16::MAX), 16);
}

#[test]
fn market_context_law_on_values() {
    let mut c = MarketContext::default();
    c.price_usd = 1;
    c.source_count = 16;
    c.source_bitmap = u16::MAX;
    assert!(c.validate());
    c.source_bitmap = 0x7fff;
    assert!(!c.validate());
    // No counted source: rejected although the bitmap agrees.
    c.source_count = 0;
    c.source_bitmap = 0;
    assert!(!c.validate());
}

#[test]
fn freshness_window_edges() {
    let mut c = MarketContext::default();
    c.captured_at_slot = 1000;
    assert!(!c.is_fresh(999));
    assert!(c.is_fresh(1000));
    assert!(c.is_fresh(1100));
    assert!(!c.is_fresh(1101));
    c.captured_at_slot = u64::MAX;
    assert!(c.is_fresh(u64::MAX));
    assert!(!c.is_fresh(0));
}

#[test]
fn expired_assessment_is_invalid_whatever_else() {
    let mut a = SignalAssessment::default();
    a.valid_until_slot = 10;
    a.generated_at_slot = 0;
    assert!(a.validate(10));
    assert!(!a.validate(11));
    a.confidence_bps = 10000;
    a.strength_bps = 10000;
    assert!(!a.validate(u64::MAX));
    assert_eq!(a.remaining_validity(4), Some(6));
    assert_eq!(a.remaining_validity(11), None);
}

#[test]
fn assessment_rejects_each_out_of_range_field() {
    let mut base = SignalAssessment::default();
    base.valid_until_slot = 100;
    let mut a = base;
    a.confidence_bps = 10001;
    assert!(!a.validate(50));
    let mut a = base;
    a.risk_score_bps = 10001;
    assert!(!a.validate(50));
    let mut a = base;
    a.suggested_size_bps = 10001;
    assert!(!a.validate(50));
    let mut a = base;
    a.generated_at_slot = 101;
    assert!(!a.validate(50));
}

#[test]
fn receipt_signature_sanity() {
    let mut r = TeeReceipt::default();
    assert!(!r.verify_signature(&[0u8; 32]));
    r.enclave_pubkey[31] = 1;
    assert!(!r.verify_signature(&[0u8; 32]));
    r.enclave_signature[0] = 1;
    assert!(r.verify_signature(&[0u8; 32]));
}

#[test]
fn allowlist_fills_to_capacity_then_refuses() {
    let mut p = empty_provider();
    for i in 0..8u8 {
        assert!(p.add_enclave([i + 1; 32]));
        assert!(p.is_enclave_allowed(&[i + 1; 32]));
    }
    assert!(!p.add_enclave([9u8; 32]));
    assert_eq!(p.enclave_count, 8);
    assert!(!p.is_enclave_allowed(&[9u8; 32]));
}

#[test]
fn remove_keeps_order_and_clears_tail() {
    let mut p = empty_provider();
    for i in 1..=4u8 {
        assert!(p.add_enclave([i; 32]));
    }
    assert!(p.remove_enclave(&[2u8; 32]));
    assert_eq!(p.enclave_count, 3);
    assert_eq!(p.allowed_enclaves[0], [1u8; 32]);
    assert_eq!(p.allowed_enclaves[1], [3u8; 32]);
    assert_eq!(p.allowed_enclaves[2], [4u8; 32]);
    assert_eq!(p.allowed_enclaves[3], [0u8; 32]);
    assert!(!p.is_enclave_allowed(&[2u8; 32]));
    assert!(!p.remove_enclave(&[2u8; 32]));
    assert_eq!(p.enclave_count, 3);
    // The last entry can be removed too.
    assert!(p.remove_enclave(&[4u8; 32]));
    assert_eq!(p.allowed_enclaves[2], [0u8; 32]);
    assert!(p.is_enclave_allowed(&[3u8; 32]));
}

#[test]
fn allowlist_well_formedness() {
    let mut p = empty_provider();
    assert!(p.is_well_formed());
    assert!(p.add_enclave([1u8; 32]));
    assert!(p.add_enclave([2u8; 32]));
    assert!(p.is_well_formed());

    let mut dup = p;
    dup.allowed_enclaves[1] = [1u8; 32];
    assert!(!dup.is_well_formed());

    let mut dirty_tail = p;
    dirty_tail.allowed_enclaves[5][0] = 1;
    assert!(!dirty_tail.is_well_formed());

    let mut too_many = p;
    too_many.enclave_count = 9;
    assert!(!too_many.is_well_formed());
}
