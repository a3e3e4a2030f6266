use wattcoin_core::config::TokenConfig;
use wattcoin_core::payment::{execute_task_payment, settle_task_payment, ExecuteTaskPayment};
use wattcoin_core::rebate::{claim_energy_rebate, settle_claim, ClaimEnergyRebate};
use wattcoin_core::stake::{stake_for_energy_rebate, StakeAccount, StakeForEnergyRebate};
use wattcoin_core::{ErrorCode, Identity, LedgerOutcome, TransferInstruction, TransferRun};

fn account(tag: u8) -> Identity {
    Identity::new([tag; 32])
}

fn transfer(tag: u8, amount: u64) -> TransferInstruction {
    TransferInstruction {
        from: account(tag),
        to: account(tag + 1),
        authority: account(tag + 2),
        amount,
    }
}

fn matured_claim() -> ClaimEnergyRebate {
    ClaimEnergyRebate {
        owner: account(1),
        authority: account(2),
        stake_account: StakeAccount {
            owner: account(1),
            amount: 100_000_000,
            start_time: 0,
            duration: 86_400,
            claimed: false,
        },
        owner_token_account: account(3),
        stake_vault: account(4),
        rebate_vault: account(5),
    }
}

#[test]
fn run_sends_transfers_in_order() {
    let mut run = TransferRun::new(vec![transfer(10, 1), transfer(20, 2), transfer(30, 3)]);
    assert_eq!(run.outcome(), LedgerOutcome::Failed);
    assert_eq!(run.next_transfer(), Some(transfer(10, 1)));
    assert_eq!(run.next_transfer(), Some(transfer(10, 1)));
    run.record(true);
    assert_eq!(run.next_transfer(), Some(transfer(20, 2)));
    assert_eq!(run.outcome(), LedgerOutcome::Failed);
    run.record(true);
    assert_eq!(run.next_transfer(), Some(transfer(30, 3)));
    run.record(true);
    assert_eq!(run.next_transfer(), None);
    assert_eq!(run.outcome(), LedgerOutcome::Completed);
}

#[test]
fn rejected_transfer_ends_the_run() {
    let mut run = TransferRun::new(vec![transfer(10, 1), transfer(20, 2), transfer(30, 3)]);
    run.record(true);
    run.record(false);
    assert_eq!(run.next_transfer(), None);
    assert_eq!(run.outcome(), LedgerOutcome::Failed);
    run.record(true);
    run.record(true);
    run.record(true);
    assert_eq!(run.next_transfer(), None);
    assert_eq!(run.outcome(), LedgerOutcome::Failed);
}

#[test]
fn answers_after_the_end_are_ignored() {
    let mut run = TransferRun::new(vec![transfer(10, 1)]);
    run.record(true);
    assert_eq!(run.outcome(), LedgerOutcome::Completed);
    run.record(false);
    run.record(true);
    assert_eq!(run.next_transfer(), None);
    assert_eq!(run.outcome(), LedgerOutcome::Completed);
}

#[test]
fn run_without_transfers_is_complete() {
    let mut run = TransferRun::new(Vec::new());
    assert_eq!(run.next_transfer(), None);
    assert_eq!(run.outcome(), LedgerOutcome::Completed);
    run.record(false);
    assert_eq!(run.outcome(), LedgerOutcome::Completed);
}

#[test]
fn payment_sends_the_net_amount_before_the_burn() {
    let ctx = ExecuteTaskPayment {
        authority: account(1),
        token_config: TokenConfig {
            authority: account(9),
            mint: account(8),
            burn_rate: 15,
            total_burned: 0,
            utility_vault: account(4),
        },
        from_token_account: account(2),
        to_token_account: account(3),
        burn_vault: account(4),
    };
    let payment = execute_task_payment(&ctx, 1_000_000, String::from("t")).unwrap();
    assert_eq!(payment.transfers(), vec![payment.net_transfer, payment.burn_transfer]);
    assert_eq!(payment.transfers()[0].to, account(3));
    assert_eq!(payment.transfers()[0].amount, 998_500);
    assert_eq!(payment.transfers()[1].to, account(4));
    assert_eq!(payment.transfers()[1].amount, 1_500);
}

#[test]
fn no_burn_is_sent_after_a_rejected_payment() {
    let mut ctx = ExecuteTaskPayment {
        authority: account(1),
        token_config: TokenConfig {
            authority: account(9),
            mint: account(8),
            burn_rate: 15,
            total_burned: 5,
            utility_vault: account(4),
        },
        from_token_account: account(2),
        to_token_account: account(3),
        burn_vault: account(4),
    };
    let payment = execute_task_payment(&ctx, 1_000_000, String::from("t")).unwrap();
    let mut run = TransferRun::new(payment.transfers());
    assert_eq!(run.next_transfer(), Some(payment.net_transfer));
    run.record(false);
    assert_eq!(run.next_transfer(), None);
    assert_eq!(
        settle_task_payment(&mut ctx, 1_000_000, payment.task_id, run.outcome()),
        Err(ErrorCode::TransferFailed)
    );
    assert_eq!(ctx.token_config.total_burned, 5);
}

#[test]
fn deposit_is_a_single_transfer() {
    let ctx = StakeForEnergyRebate {
        owner: account(1),
        stake_account: None,
        owner_token_account: account(2),
        stake_vault: account(3),
    };
    let deposit = stake_for_energy_rebate(&ctx, 700, 1, 0).unwrap();
    assert_eq!(deposit.transfers(), vec![deposit.transfer]);
}

#[test]
fn claim_sends_the_rebate_before_the_principal() {
    let ctx = matured_claim();
    let claim = claim_energy_rebate(&ctx, 50, 86_400).unwrap();
    assert_eq!(claim.transfers(), vec![claim.rebate_transfer, claim.principal_transfer]);
    assert_eq!(claim.transfers()[0].from, account(5));
    assert_eq!(claim.transfers()[0].amount, 5_000_000);
    assert_eq!(claim.transfers()[1].from, account(4));
    assert_eq!(claim.transfers()[1].amount, 100_000_000);
}

#[test]
fn claim_that_fails_halfway_leaves_the_stake_unclaimed() {
    let mut ctx = matured_claim();
    let before = ctx;
    let claim = claim_energy_rebate(&ctx, 50, 86_400).unwrap();
    let mut run = TransferRun::new(claim.transfers());
    assert_eq!(run.next_transfer(), Some(claim.rebate_transfer));
    run.record(true);
    assert_eq!(run.next_transfer(), Some(claim.principal_transfer));
    run.record(false);
    assert_eq!(run.next_transfer(), None);
    assert_eq!(run.outcome(), LedgerOutcome::Failed);
    assert_eq!(settle_claim(&mut ctx, 86_400, run.outcome()), Err(ErrorCode::TransferFailed));
    assert_eq!(ctx, before);
    assert!(!ctx.stake_account.claimed);
}

#[test]
fn claim_that_runs_through_marks_the_stake() {
    let mut ctx = matured_claim();
    let claim = claim_energy_rebate(&ctx, 50, 86_400).unwrap();
    let mut run = TransferRun::new(claim.transfers());
    let mut sent = Vec::new();
    while let Some(next) = run.next_transfer() {
        sent.push(next);
        run.record(true);
    }
    assert_eq!(sent, claim.transfers());
    assert_eq!(settle_claim(&mut ctx, 86_400, run.outcome()), Ok(()));
    assert!(ctx.stake_account.claimed);
}
