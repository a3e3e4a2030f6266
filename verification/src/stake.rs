//! Opening a time-locked stake.

use vstd::prelude::*;
use crate::error::ErrorCode;
use crate::identity::Identity;
use crate::ledger::{LedgerOutcome, TransferInstruction};

verus! {

/// The length of one day of lock, in seconds.
pub const SECONDS_PER_DAY: i64 = 86_400;

/// The record of one stake.
#[derive(Clone, Copy, Debug, PartialEq, Eq)]
pub struct StakeAccount {
    /// The signer who deposited the stake.
    pub owner: Identity,
    /// The sum deposited, the principal of the stake, in minor units.
    pub amount: u64,
    /// When the stake was opened, in seconds.
    pub start_time: i64,
    /// How long the stake is locked, in seconds.
    pub duration: i64,
    /// Whether the stake has been paid out.
    pub claimed: bool,
}

impl StakeAccount {
    /// The size of the persisted record, in bytes.
    pub const SIZE: usize = 32 + 8 + 8 + 8 + 1;

    /// The moment from which the stake can be paid out.
    pub open spec fn maturity(self) -> int {
        self.start_time + self.duration
    }

    /// Whether the lock is a whole number of days, from none to 255, as
    /// every stake that was opened here has it.
    pub open spec fn well_formed(self) -> bool {
        exists|duration_days: u8| self.duration == lock_seconds_of(duration_days)
    }

    /// Whether the lock has run out at `current_time`.
    pub open spec fn matured_at(self, current_time: i64) -> bool {
        current_time >= self.maturity()
    }

    /// Whether the lock has run out at `current_time`.
    pub fn is_matured(&self, current_time: i64) -> (matured: bool)
        ensures
            matured == self.matured_at(current_time),
    {
        let maturity: i128 = self.start_time as i128 + self.duration as i128;
        current_time as i128 >= maturity
    }
}

/// The lock, in seconds, of a stake made for `duration_days` days.
pub open spec fn lock_seconds_of(duration_days: u8) -> int {
    duration_days * SECONDS_PER_DAY
}

/// The record of a stake of `amount` that `owner` opens at `current_time`
/// for `duration_days` days.
pub open spec fn opened_stake(
    owner: Identity,
    amount: u64,
    duration_days: u8,
    current_time: i64,
) -> StakeAccount {
    StakeAccount {
        owner,
        amount,
        start_time: current_time,
        duration: lock_seconds_of(duration_days) as i64,
        claimed: false,
    }
}

/// The accounts that opening a stake works on.
#[derive(Clone, Copy, Debug, PartialEq, Eq)]
pub struct StakeForEnergyRebate {
    /// The signer who opens the stake and authorizes the deposit.
    pub owner: Identity,
    /// The slot of the stake record: empty until the stake is opened.
    pub stake_account: Option<StakeAccount>,
    /// The token account the deposit is taken from.
    pub owner_token_account: Identity,
    /// The vault that holds staked funds.
    pub stake_vault: Identity,
}

/// What opening a stake calls for: the record to keep and the deposit that
/// must reach the vault before the record may be kept.
#[derive(Clone, Copy, Debug, PartialEq, Eq)]
pub struct StakeDeposit {
    /// The record of the stake.
    pub stake: StakeAccount,
    /// The deposit from the owner's token account into the stake vault.
    pub transfer: TransferInstruction,
}

impl StakeDeposit {
    /// The one transfer of the deposit.
    pub fn transfers(&self) -> (transfers: Vec<TransferInstruction>)
        ensures
            transfers@ == seq![self.transfer],
    {
        vec![self.transfer]
    }
}

/// What opening a stake of `amount` for `duration_days` days at
/// `current_time` calls for.
pub open spec fn planned_deposit(
    ctx: StakeForEnergyRebate,
    amount: u64,
    duration_days: u8,
    current_time: i64,
) -> StakeDeposit {
    StakeDeposit {
        stake: opened_stake(ctx.owner, amount, duration_days, current_time),
        transfer: TransferInstruction {
            from: ctx.owner_token_account,
            to: ctx.stake_vault,
            authority: ctx.owner,
            amount,
        },
    }
}

/// Why a stake cannot be opened in `ctx`, if it cannot.
pub open spec fn stake_refusal(ctx: StakeForEnergyRebate) -> Option<ErrorCode> {
    if ctx.stake_account is Some {
        Some(ErrorCode::AlreadyInitialized)
    } else {
        None
    }
}

/// The accounts after an attempt to open a stake to which the ledger
/// answered `outcome`.
pub open spec fn accounts_after_stake(
    ctx: StakeForEnergyRebate,
    amount: u64,
    duration_days: u8,
    current_time: i64,
    outcome: LedgerOutcome,
) -> StakeForEnergyRebate {
    if stake_refusal(ctx) is None && outcome is Completed {
        StakeForEnergyRebate {
            stake_account: Some(opened_stake(ctx.owner, amount, duration_days, current_time)),
            ..ctx
        }
    } else {
        ctx
    }
}

/// What an attempt to open a stake reports once the ledger has answered
/// `outcome`.
pub open spec fn stake_settlement(ctx: StakeForEnergyRebate, outcome: LedgerOutcome) -> Result<
    (),
    ErrorCode,
> {
    match stake_refusal(ctx) {
        Some(e) => Err(e),
        None => if outcome is Completed {
            Ok(())
        } else {
            Err(ErrorCode::TransferFailed)
        },
    }
}

/// Prepares a stake of `amount` locked for `duration_days` days from
/// `current_time`. Succeeds whenever the slot of the stake record is empty,
/// also for a lock of zero days, and names the record and the deposit; no
/// record is changed.
pub fn stake_for_energy_rebate(
    ctx: &StakeForEnergyRebate,
    amount: u64,
    duration_days: u8,
    current_time: i64,
) -> (result: Result<StakeDeposit, ErrorCode>)
    ensures
        match result {
            Ok(deposit) => stake_refusal(*ctx) is None && deposit == planned_deposit(
                *ctx,
                amount,
                duration_days,
                current_time,
            ),
            Err(e) => stake_refusal(*ctx) == Some(e),
        },
        result matches Ok(deposit) ==> {
            &&& deposit.stake.start_time == current_time
            &&& deposit.stake.duration == duration_days * 86_400
            &&& !deposit.stake.claimed
            &&& deposit.stake.well_formed()
        },
{
    if ctx.stake_account.is_some() {
        return Err(ErrorCode::AlreadyInitialized);
    }
    let duration: i64 = duration_days as i64 * SECONDS_PER_DAY;
    assert(duration == lock_seconds_of(duration_days));
    Ok(
        StakeDeposit {
            stake: StakeAccount {
                owner: ctx.owner,
                amount,
                start_time: current_time,
                duration,
                claimed: false,
            },
            transfer: TransferInstruction {
                from: ctx.owner_token_account,
                to: ctx.stake_vault,
                authority: ctx.owner,
                amount,
            },
        },
    )
}

/// Completes the opening of a stake with the ledger's answer to the deposit.
/// The record is kept if and only if the slot was empty and the deposit was
/// carried out; otherwise the accounts stay as they were.
pub fn settle_stake(
    ctx: &mut StakeForEnergyRebate,
    amount: u64,
    duration_days: u8,
    current_time: i64,
    outcome: LedgerOutcome,
) -> (result: Result<(), ErrorCode>)
    ensures
        *final(ctx) == accounts_after_stake(
            *old(ctx),
            amount,
            duration_days,
            current_time,
            outcome,
        ),
        result == stake_settlement(*old(ctx), outcome),
        result is Err ==> *final(ctx) == *old(ctx),
{
    let deposit = stake_for_energy_rebate(ctx, amount, duration_days, current_time)?;
    match outcome {
        LedgerOutcome::Completed => {
            ctx.stake_account = Some(deposit.stake);
            Ok(())
        },
        LedgerOutcome::Failed => Err(ErrorCode::TransferFailed),
    }
}

/// A stake record comes to be only together with its deposit: after an
/// attempt the slot holds a record only if it held one before or the ledger
/// carried out the deposit, and a record that was there is never replaced.
pub proof fn lemma_no_stake_without_deposit(
    ctx: StakeForEnergyRebate,
    amount: u64,
    duration_days: u8,
    current_time: i64,
    outcome: LedgerOutcome,
)
    ensures
        accounts_after_stake(ctx, amount, duration_days, current_time, outcome).stake_account
            is Some ==> ctx.stake_account is Some || outcome is Completed,
        outcome is Failed ==> accounts_after_stake(
            ctx,
            amount,
            duration_days,
            current_time,
            outcome,
        ) == ctx,
        ctx.stake_account is Some ==> accounts_after_stake(
            ctx,
            amount,
            duration_days,
            current_time,
            outcome,
        ) == ctx,
        ctx.stake_account is None && outcome is Completed ==> accounts_after_stake(
            ctx,
            amount,
            duration_days,
            current_time,
            outcome,
        ).stake_account == Some(opened_stake(ctx.owner, amount, duration_days, current_time)),
{
}

} // verus!
