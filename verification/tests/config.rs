use wattcoin_core::config::{initialize_token, InitializeToken, TokenConfig, BASIS_POINTS};
use wattcoin_core::{ErrorCode, ErrorKind, Identity};

fn name(tag: u8) -> Identity {
    Identity::new([tag; 32])
}

fn fresh() -> InitializeToken {
    InitializeToken { authority: name(1), token_config: None, mint: name(2), utility_vault: name(3) }
}

#[test]
fn initialization_creates_the_configuration() {
    let mut ctx = fresh();
    assert_eq!(initialize_token(&mut ctx, 1_000_000_000, 15), Ok(()));
    assert_eq!(
        ctx.token_config,
        Some(TokenConfig {
            authority: name(1),
            mint: name(2),
            burn_rate: 15,
            total_burned: 0,
            utility_vault: name(3),
        })
    );
    assert_eq!(ctx.authority, name(1));
    assert_eq!(ctx.mint, name(2));
    assert_eq!(ctx.utility_vault, name(3));
}

#[test]
fn supply_has_no_part_in_the_configuration() {
    let mut small = fresh();
    let mut large = fresh();
    initialize_token(&mut small, 0, 15).unwrap();
    initialize_token(&mut large, u64::MAX, 15).unwrap();
    assert_eq!(small, large);
}

#[test]
fn second_initialization_is_refused() {
    let mut ctx = fresh();
    initialize_token(&mut ctx, 1_000, 15).unwrap();
    let held = ctx;
    assert_eq!(initialize_token(&mut ctx, 2_000, 30), Err(ErrorCode::AlreadyInitialized));
    assert_eq!(ctx, held);
    assert_eq!(ctx.token_config.unwrap().burn_rate, 15);
}

#[test]
fn every_burn_rate_is_accepted() {
    assert_eq!(BASIS_POINTS, 10_000);
    for (rate, in_range) in [(0u16, true), (10_000, true), (10_001, false), (u16::MAX, false)] {
        let mut ctx = fresh();
        assert_eq!(initialize_token(&mut ctx, 1, rate), Ok(()));
        let config = ctx.token_config.unwrap();
        assert_eq!(config.burn_rate, rate);
        assert_eq!(config.has_burn_rate_in_range(), in_range);
    }
}

#[test]
fn errors_fall_into_their_classes() {
    assert_eq!(ErrorCode::AlreadyClaimed.kind(), ErrorKind::PreconditionViolation);
    assert_eq!(ErrorCode::StakingPeriodNotComplete.kind(), ErrorKind::PreconditionViolation);
    assert_eq!(ErrorCode::VaultMismatch.kind(), ErrorKind::PreconditionViolation);
    assert_eq!(ErrorCode::ArithmeticUnderflow.kind(), ErrorKind::ArithmeticFault);
    assert_eq!(ErrorCode::Overflow.kind(), ErrorKind::ArithmeticFault);
    assert_eq!(ErrorCode::TransferFailed.kind(), ErrorKind::ExternalTransferFault);
    assert_eq!(ErrorCode::AlreadyInitialized.kind(), ErrorKind::DuplicateInitialization);
}

#[test]
fn errors_have_their_texts() {
    assert_eq!(ErrorCode::AlreadyClaimed.message(), "Energy rebate already claimed");
    assert_eq!(ErrorCode::StakingPeriodNotComplete.message(), "Staking period not complete");
    let all = [
        ErrorCode::AlreadyClaimed,
        ErrorCode::StakingPeriodNotComplete,
        ErrorCode::ArithmeticUnderflow,
        ErrorCode::Overflow,
        ErrorCode::AlreadyInitialized,
        ErrorCode::VaultMismatch,
        ErrorCode::TransferFailed,
    ];
    for (i, a) in all.iter().enumerate() {
        assert!(!a.message().is_empty());
        for b in &all[i + 1..] {
            assert_ne!(a.message(), b.message());
        }
    }
}

#[test]
fn identities_are_compared_byte_by_byte() {
    let a = Identity::new([7; 32]);
    let b = Identity::new([7; 32]);
    assert!(a.same_as(&b));
    assert_eq!(a, b);
    assert_eq!(a.to_bytes(), [7; 32]);
    for i in 0..32 {
        let mut bytes = [7u8; 32];
        bytes[i] = 8;
        let c = Identity::new(bytes);
        assert!(!a.same_as(&c));
        assert!(!c.same_as(&a));
        assert_eq!(c.to_bytes(), bytes);
    }
}
