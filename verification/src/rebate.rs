//! Paying out a matured stake together with its energy rebate.

use vstd::prelude::*;
use crate::error::ErrorCode;
use crate::identity::Identity;
use crate::ledger::{LedgerOutcome, TransferInstruction};
use crate::stake::{opened_stake, StakeAccount};

verus! {

/// The rebate earned per kilowatt-hour, in minor units.
pub const REBATE_PER_KWH: u64 = 100_000;

/// The rebate on a stake is capped at the stake divided by this.
pub const REBATE_CAP_DIVISOR: u64 = 10;

/// The rebate earned by `energy_consumed_kwh`, before the cap.
pub open spec fn rebate_amount_of(energy_consumed_kwh: u64) -> int {
    energy_consumed_kwh * REBATE_PER_KWH
}

/// The largest rebate a stake of `stake_amount` can earn.
pub open spec fn max_rebate_of(stake_amount: u64) -> int {
    stake_amount as int / REBATE_CAP_DIVISOR as int
}

/// The rebate paid on a stake of `stake_amount` for `energy_consumed_kwh`:
/// the smaller of what was earned and the cap.
pub open spec fn actual_rebate_of(energy_consumed_kwh: u64, stake_amount: u64) -> int {
    if rebate_amount_of(energy_consumed_kwh) <= max_rebate_of(stake_amount) {
        rebate_amount_of(energy_consumed_kwh)
    } else {
        max_rebate_of(stake_amount)
    }
}

/// The accounts that paying out a stake works on.
#[derive(Clone, Copy, Debug, PartialEq, Eq)]
pub struct ClaimEnergyRebate {
    /// The owner of the stake; one of the two signers.
    pub owner: Identity,
    /// The administrator, who signs for both vaults; the other signer.
    pub authority: Identity,
    /// The record of the stake.
    pub stake_account: StakeAccount,
    /// The token account that receives the rebate and the principal.
    pub owner_token_account: Identity,
    /// The vault that holds staked funds.
    pub stake_vault: Identity,
    /// The vault that rebates are paid from.
    pub rebate_vault: Identity,
}

/// What paying out a stake calls for. The two transfers are carried out in
/// the order given, as one unit.
#[derive(Clone, Copy, Debug, PartialEq, Eq)]
pub struct RebateClaim {
    /// The rebate earned by the energy consumed, before the cap.
    pub rebate_amount: u128,
    /// The cap on the rebate.
    pub max_rebate: u64,
    /// The rebate paid.
    pub actual_rebate: u64,
    /// First: the rebate, from the rebate vault to the owner's token account.
    pub rebate_transfer: TransferInstruction,
    /// Second: the whole principal, from the stake vault to the owner's token
    /// account.
    pub principal_transfer: TransferInstruction,
}

impl RebateClaim {
    /// The transfers of the claim, in the order in which the ledger is to
    /// carry them out: the rebate first, the principal second.
    pub fn transfers(&self) -> (transfers: Vec<TransferInstruction>)
        ensures
            transfers@ == seq![self.rebate_transfer, self.principal_transfer],
    {
        vec![self.rebate_transfer, self.principal_transfer]
    }
}

/// Why `stake` cannot be paid out at `current_time`, if it cannot.
pub open spec fn claim_refusal(stake: StakeAccount, current_time: i64) -> Option<ErrorCode> {
    if stake.claimed {
        Some(ErrorCode::AlreadyClaimed)
    } else if !stake.matured_at(current_time) {
        Some(ErrorCode::StakingPeriodNotComplete)
    } else {
        None
    }
}

/// What paying out the stake in `ctx` for `energy_consumed_kwh` calls for.
pub open spec fn planned_claim(ctx: ClaimEnergyRebate, energy_consumed_kwh: u64) -> RebateClaim {
    let actual_rebate = actual_rebate_of(energy_consumed_kwh, ctx.stake_account.amount) as u64;
    RebateClaim {
        rebate_amount: rebate_amount_of(energy_consumed_kwh) as u128,
        max_rebate: max_rebate_of(ctx.stake_account.amount) as u64,
        actual_rebate,
        rebate_transfer: TransferInstruction {
            from: ctx.rebate_vault,
            to: ctx.owner_token_account,
            authority: ctx.authority,
            amount: actual_rebate,
        },
        principal_transfer: TransferInstruction {
            from: ctx.stake_vault,
            to: ctx.owner_token_account,
            authority: ctx.authority,
            amount: ctx.stake_account.amount,
        },
    }
}

/// The stake record after an attempt at `current_time` to pay it out, to
/// which the ledger answered `outcome`.
pub open spec fn stake_after_claim(
    stake: StakeAccount,
    current_time: i64,
    outcome: LedgerOutcome,
) -> StakeAccount {
    if claim_refusal(stake, current_time) is None && outcome is Completed {
        StakeAccount { claimed: true, ..stake }
    } else {
        stake
    }
}

/// What an attempt at `current_time` to pay out `stake` reports once the
/// ledger has answered `outcome`.
pub open spec fn claim_settlement(
    stake: StakeAccount,
    current_time: i64,
    outcome: LedgerOutcome,
) -> Result<(), ErrorCode> {
    match claim_refusal(stake, current_time) {
        Some(e) => Err(e),
        None => if outcome is Completed {
            Ok(())
        } else {
            Err(ErrorCode::TransferFailed)
        },
    }
}

/// Prepares the payout of the stake in `ctx` at `current_time`.
///
/// Refused with `AlreadyClaimed` if the stake has been paid out, else with
/// `StakingPeriodNotComplete` if `current_time` lies before the start of the
/// stake plus its lock. Otherwise names the rebate, which is the energy
/// consumed times the rate per kilowatt-hour, capped at a tenth of the stake,
/// and the two transfers: the rebate, then the whole principal. No record is
/// changed.
pub fn claim_energy_rebate(
    ctx: &ClaimEnergyRebate,
    energy_consumed_kwh: u64,
    current_time: i64,
) -> (result: Result<RebateClaim, ErrorCode>)
    ensures
        match result {
            Ok(claim) => claim_refusal(ctx.stake_account, current_time) is None && claim
                == planned_claim(*ctx, energy_consumed_kwh),
            Err(e) => claim_refusal(ctx.stake_account, current_time) == Some(e),
        },
        result matches Ok(claim) ==> {
            &&& claim.rebate_amount == energy_consumed_kwh * 100_000
            &&& claim.max_rebate == ctx.stake_account.amount / 10
            &&& claim.actual_rebate == actual_rebate_of(
                energy_consumed_kwh,
                ctx.stake_account.amount,
            )
            &&& claim.rebate_transfer.amount == claim.actual_rebate
            &&& claim.principal_transfer.amount == ctx.stake_account.amount
        },
{
    if ctx.stake_account.claimed {
        return Err(ErrorCode::AlreadyClaimed);
    }
    if !ctx.stake_account.is_matured(current_time) {
        return Err(ErrorCode::StakingPeriodNotComplete);
    }
    assert(energy_consumed_kwh * REBATE_PER_KWH <= u64::MAX * 100_000) by (nonlinear_arith)
        requires
            REBATE_PER_KWH == 100_000,
    ;
    let rebate_amount: u128 = energy_consumed_kwh as u128 * REBATE_PER_KWH as u128;
    let max_rebate: u64 = ctx.stake_account.amount / REBATE_CAP_DIVISOR;
    let actual_rebate: u64 = if rebate_amount <= max_rebate as u128 {
        rebate_amount as u64
    } else {
        max_rebate
    };
    Ok(
        RebateClaim {
            rebate_amount,
            max_rebate,
            actual_rebate,
            rebate_transfer: TransferInstruction {
                from: ctx.rebate_vault,
                to: ctx.owner_token_account,
                authority: ctx.authority,
                amount: actual_rebate,
            },
            principal_transfer: TransferInstruction {
                from: ctx.stake_vault,
                to: ctx.owner_token_account,
                authority: ctx.authority,
                amount: ctx.stake_account.amount,
            },
        },
    )
}

/// Completes the payout of the stake in `ctx` with the ledger's answer to
/// the two transfers of the claim.
///
/// The request is held against the record once more, so a stake that was
/// paid out in the meantime is refused with `AlreadyClaimed`. The stake is
/// marked as paid out if and only if the request stands and the ledger
/// carried out both transfers; a failed transfer leaves the record as it was.
pub fn settle_claim(ctx: &mut ClaimEnergyRebate, current_time: i64, outcome: LedgerOutcome) -> (result:
    Result<(), ErrorCode>)
    ensures
        final(ctx).stake_account == stake_after_claim(
            old(ctx).stake_account,
            current_time,
            outcome,
        ),
        final(ctx).owner == old(ctx).owner,
        final(ctx).authority == old(ctx).authority,
        final(ctx).owner_token_account == old(ctx).owner_token_account,
        final(ctx).stake_vault == old(ctx).stake_vault,
        final(ctx).rebate_vault == old(ctx).rebate_vault,
        result == claim_settlement(old(ctx).stake_account, current_time, outcome),
        result is Err ==> *final(ctx) == *old(ctx),
        result is Ok ==> final(ctx).stake_account.claimed,
{
    if ctx.stake_account.claimed {
        return Err(ErrorCode::AlreadyClaimed);
    }
    if !ctx.stake_account.is_matured(current_time) {
        return Err(ErrorCode::StakingPeriodNotComplete);
    }
    match outcome {
        LedgerOutcome::Completed => {
            ctx.stake_account.claimed = true;
            Ok(())
        },
        LedgerOutcome::Failed => Err(ErrorCode::TransferFailed),
    }
}

/// A stake opened at `start_time` for `duration_days` days can be paid out
/// at `current_time` if and only if `current_time` is at least `start_time`
/// plus that many days of 86 400 seconds; one second before that moment the
/// claim is refused because the staking period is not complete.
pub proof fn lemma_claimable_iff_lock_elapsed(
    owner: Identity,
    amount: u64,
    duration_days: u8,
    start_time: i64,
    current_time: i64,
)
    ensures
        claim_refusal(opened_stake(owner, amount, duration_days, start_time), current_time)
            is None <==> current_time >= start_time + duration_days * 86_400,
        current_time == start_time + duration_days * 86_400 - 1 ==> claim_refusal(
            opened_stake(owner, amount, duration_days, start_time),
            current_time,
        ) == Some(ErrorCode::StakingPeriodNotComplete),
        claim_refusal(opened_stake(owner, amount, duration_days, start_time), current_time)
            != Some(ErrorCode::AlreadyClaimed),
{
}

/// The rebate paid never exceeds a tenth of the stake nor what the energy
/// consumed earned, and is one of the two.
pub proof fn lemma_rebate_is_capped(energy_consumed_kwh: u64, stake_amount: u64)
    ensures
        0 <= actual_rebate_of(energy_consumed_kwh, stake_amount) <= stake_amount / 10,
        actual_rebate_of(energy_consumed_kwh, stake_amount) <= energy_consumed_kwh * 100_000,
        actual_rebate_of(energy_consumed_kwh, stake_amount) == energy_consumed_kwh * 100_000
            || actual_rebate_of(energy_consumed_kwh, stake_amount) == stake_amount / 10,
{
}

/// A stake is paid out at most once: after a payout that went through, every
/// further claim, at any time and whatever the ledger would answer, is
/// refused with `AlreadyClaimed` and leaves the record as it is.
pub proof fn lemma_no_second_claim(
    stake: StakeAccount,
    first_time: i64,
    second_time: i64,
    second_outcome: LedgerOutcome,
)
    requires
        claim_refusal(stake, first_time) is None,
    ensures
        stake_after_claim(stake, first_time, LedgerOutcome::Completed).claimed,
        claim_refusal(
            stake_after_claim(stake, first_time, LedgerOutcome::Completed),
            second_time,
        ) == Some(ErrorCode::AlreadyClaimed),
        claim_settlement(
            stake_after_claim(stake, first_time, LedgerOutcome::Completed),
            second_time,
            second_outcome,
        ) == Err::<(), ErrorCode>(ErrorCode::AlreadyClaimed),
        stake_after_claim(
            stake_after_claim(stake, first_time, LedgerOutcome::Completed),
            second_time,
            second_outcome,
        ) == stake_after_claim(stake, first_time, LedgerOutcome::Completed),
{
}

/// A claim whose transfers the ledger did not carry out leaves the stake
/// record as it was: a stake that was not paid out before is not paid out
/// after, and can be claimed again.
pub proof fn lemma_failed_claim_changes_nothing(stake: StakeAccount, current_time: i64)
    ensures
        stake_after_claim(stake, current_time, LedgerOutcome::Failed) == stake,
        claim_settlement(stake, current_time, LedgerOutcome::Failed) is Err,
        claim_refusal(stake_after_claim(stake, current_time, LedgerOutcome::Failed), current_time)
            == claim_refusal(stake, current_time),
{
}

/// The only change a claim ever makes to a stake record is to mark it as
/// paid out, and a record marked so stays so.
pub proof fn lemma_claimed_is_terminal(
    stake: StakeAccount,
    current_time: i64,
    outcome: LedgerOutcome,
)
    ensures
        stake.claimed ==> stake_after_claim(stake, current_time, outcome) == stake,
        stake.well_formed() ==> stake_after_claim(stake, current_time, outcome).well_formed(),
        stake_after_claim(stake, current_time, outcome).owner == stake.owner,
        stake_after_claim(stake, current_time, outcome).amount == stake.amount,
        stake_after_claim(stake, current_time, outcome).start_time == stake.start_time,
        stake_after_claim(stake, current_time, outcome).duration == stake.duration,
        stake_after_claim(stake, current_time, outcome).claimed ==> stake.claimed || (
        stake.matured_at(current_time) && outcome is Completed),
{
}

} // verus!
