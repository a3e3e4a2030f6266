//! Task payments: the split into burn and net amount, and the burn counter.

use vstd::prelude::*;
use crate::config::{TokenConfig, BASIS_POINTS};
use crate::error::ErrorCode;
use crate::identity::Identity;
use crate::ledger::{LedgerOutcome, TransferInstruction};

verus! {

/// The part of a payment of `amount` that is burned at `burn_rate` basis
/// points: the product divided by ten thousand, rounded down.
pub open spec fn burn_amount_of(amount: u64, burn_rate: u16) -> int {
    (amount as int * burn_rate as int) / (BASIS_POINTS as int)
}

/// The part of a payment of `amount` that reaches the recipient.
pub open spec fn net_amount_of(amount: u64, burn_rate: u16) -> int {
    amount - burn_amount_of(amount, burn_rate)
}

/// Why a payment of `amount` cannot be made under `config`, if it cannot:
/// the burn exceeds the amount, or the burn counter cannot take the burn.
pub open spec fn payment_refusal(config: TokenConfig, amount: u64) -> Option<ErrorCode> {
    if burn_amount_of(amount, config.burn_rate) > amount {
        Some(ErrorCode::ArithmeticUnderflow)
    } else if config.total_burned + burn_amount_of(amount, config.burn_rate) > u64::MAX {
        Some(ErrorCode::Overflow)
    } else {
        None
    }
}

/// The accounts that a task payment works on.
#[derive(Clone, Copy, Debug, PartialEq, Eq)]
pub struct ExecuteTaskPayment {
    /// The signer for the paying account.
    pub authority: Identity,
    /// The configuration of the token.
    pub token_config: TokenConfig,
    /// The token account that pays.
    pub from_token_account: Identity,
    /// The token account of the recipient.
    pub to_token_account: Identity,
    /// The vault that receives the burn of this payment.
    pub burn_vault: Identity,
}

/// What a task payment calls for. The two transfers are carried out in the
/// order given, as one unit.
#[derive(Debug, PartialEq, Eq)]
pub struct TaskPayment {
    /// The amount that reaches the recipient.
    pub net_amount: u64,
    /// The amount burned.
    pub burn_amount: u64,
    /// The caller's name for the task paid for.
    pub task_id: String,
    /// First: the net amount, from the paying account to the recipient.
    pub net_transfer: TransferInstruction,
    /// Second: the burn, from the paying account to the burn vault.
    pub burn_transfer: TransferInstruction,
}

impl TaskPayment {
    /// The transfers of the payment, in the order in which the ledger is to
    /// carry them out: the net amount first, the burn second.
    pub fn transfers(&self) -> (transfers: Vec<TransferInstruction>)
        ensures
            transfers@ == seq![self.net_transfer, self.burn_transfer],
    {
        vec![self.net_transfer, self.burn_transfer]
    }
}

/// The record of a payment that went through, for outside observers.
#[derive(Debug, PartialEq, Eq)]
pub struct PaymentEvent {
    /// The amount that reached the recipient.
    pub net_amount: u64,
    /// The amount burned.
    pub burn_amount: u64,
    /// The caller's name for the task paid for.
    pub task_id: String,
}

/// The transfer of the net amount of a payment of `amount` in `ctx`.
pub open spec fn net_transfer_of(ctx: ExecuteTaskPayment, amount: u64) -> TransferInstruction {
    TransferInstruction {
        from: ctx.from_token_account,
        to: ctx.to_token_account,
        authority: ctx.authority,
        amount: net_amount_of(amount, ctx.token_config.burn_rate) as u64,
    }
}

/// The transfer of the burn of a payment of `amount` in `ctx`.
pub open spec fn burn_transfer_of(ctx: ExecuteTaskPayment, amount: u64) -> TransferInstruction {
    TransferInstruction {
        from: ctx.from_token_account,
        to: ctx.burn_vault,
        authority: ctx.authority,
        amount: burn_amount_of(amount, ctx.token_config.burn_rate) as u64,
    }
}

/// Whether a payment attempt of `amount` under `config`, to which the ledger
/// answered `outcome`, went through.
pub open spec fn payment_went_through(
    config: TokenConfig,
    amount: u64,
    outcome: LedgerOutcome,
) -> bool {
    payment_refusal(config, amount) is None && outcome is Completed
}

/// The configuration after a payment attempt: the burn is added to the
/// counter if the payment went through, and nothing changes if it did not.
pub open spec fn config_after_payment(
    config: TokenConfig,
    amount: u64,
    outcome: LedgerOutcome,
) -> TokenConfig {
    if payment_went_through(config, amount, outcome) {
        TokenConfig {
            total_burned: (config.total_burned + burn_amount_of(amount, config.burn_rate)) as u64,
            ..config
        }
    } else {
        config
    }
}

/// Why a payment attempt did not go through, if it did not.
pub open spec fn payment_failure(
    config: TokenConfig,
    amount: u64,
    outcome: LedgerOutcome,
) -> Option<ErrorCode> {
    match payment_refusal(config, amount) {
        Some(e) => Some(e),
        None => if outcome is Completed {
            None
        } else {
            Some(ErrorCode::TransferFailed)
        },
    }
}

/// Splits `amount` into burn and net amount under `config`.
fn split_payment(config: &TokenConfig, amount: u64) -> (result: Result<(u64, u64), ErrorCode>)
    ensures
        match result {
            Ok((burn_amount, net_amount)) => {
                &&& payment_refusal(*config, amount) is None
                &&& burn_amount == burn_amount_of(amount, config.burn_rate)
                &&& net_amount == net_amount_of(amount, config.burn_rate)
            },
            Err(e) => payment_refusal(*config, amount) == Some(e),
        },
{
    assert(amount * config.burn_rate <= u64::MAX * u16::MAX) by (nonlinear_arith);
    let product: u128 = amount as u128 * config.burn_rate as u128;
    let burn: u128 = product / BASIS_POINTS as u128;
    if burn > amount as u128 {
        return Err(ErrorCode::ArithmeticUnderflow);
    }
    let burn_amount: u64 = burn as u64;
    let net_amount: u64 = amount - burn_amount;
    match config.total_burned.checked_add(burn_amount) {
        Some(_) => Ok((burn_amount, net_amount)),
        None => Err(ErrorCode::Overflow),
    }
}

/// Prepares a payment of `amount` for the task `task_id`.
///
/// The burn is `amount` times the configured rate divided by ten thousand,
/// rounded down; the rest is the net amount. Refused with
/// `ArithmeticUnderflow` if the burn exceeds `amount`, which only a rate
/// above ten thousand can cause, else with `Overflow` if the burn counter
/// could not take the burn. Otherwise names both amounts and the two
/// transfers: the net amount to the recipient, then the burn to the burn
/// vault of `ctx`. `task_id` is carried along as it is. No record is changed.
pub fn execute_task_payment(ctx: &ExecuteTaskPayment, amount: u64, task_id: String) -> (result:
    Result<TaskPayment, ErrorCode>)
    ensures
        match result {
            Ok(payment) => {
                &&& payment_refusal(ctx.token_config, amount) is None
                &&& payment.burn_amount == burn_amount_of(amount, ctx.token_config.burn_rate)
                &&& payment.net_amount == net_amount_of(amount, ctx.token_config.burn_rate)
                &&& payment.burn_amount + payment.net_amount == amount
                &&& payment.task_id == task_id
                &&& payment.task_id@ == task_id@
                &&& payment.net_transfer == net_transfer_of(*ctx, amount)
                &&& payment.burn_transfer == burn_transfer_of(*ctx, amount)
            },
            Err(e) => payment_refusal(ctx.token_config, amount) == Some(e),
        },
        ctx.token_config.burn_rate_in_range() ==> result != Err::<TaskPayment, ErrorCode>(
            ErrorCode::ArithmeticUnderflow,
        ),
{
    proof {
        if ctx.token_config.burn_rate_in_range() {
            lemma_burn_and_net_make_amount(ctx.token_config, amount);
        }
    }
    let (burn_amount, net_amount) = split_payment(&ctx.token_config, amount)?;
    Ok(
        TaskPayment {
            net_amount,
            burn_amount,
            task_id,
            net_transfer: TransferInstruction {
                from: ctx.from_token_account,
                to: ctx.to_token_account,
                authority: ctx.authority,
                amount: net_amount,
            },
            burn_transfer: TransferInstruction {
                from: ctx.from_token_account,
                to: ctx.burn_vault,
                authority: ctx.authority,
                amount: burn_amount,
            },
        },
    )
}

/// Completes a payment of `amount` with the ledger's answer to its two
/// transfers.
///
/// The request is held against the current configuration once more. The burn
/// is added to the burn counter, and the event of the payment is returned,
/// if and only if the request stands and the ledger carried out both
/// transfers; otherwise the configuration stays as it was.
pub fn settle_task_payment(
    ctx: &mut ExecuteTaskPayment,
    amount: u64,
    task_id: String,
    outcome: LedgerOutcome,
) -> (result: Result<PaymentEvent, ErrorCode>)
    ensures
        final(ctx).token_config == config_after_payment(old(ctx).token_config, amount, outcome),
        final(ctx).authority == old(ctx).authority,
        final(ctx).from_token_account == old(ctx).from_token_account,
        final(ctx).to_token_account == old(ctx).to_token_account,
        final(ctx).burn_vault == old(ctx).burn_vault,
        final(ctx).token_config.total_burned >= old(ctx).token_config.total_burned,
        match result {
            Ok(event) => {
                &&& payment_went_through(old(ctx).token_config, amount, outcome)
                &&& event.burn_amount == burn_amount_of(amount, old(ctx).token_config.burn_rate)
                &&& event.net_amount == net_amount_of(amount, old(ctx).token_config.burn_rate)
                &&& event.task_id == task_id
                &&& event.task_id@ == task_id@
                &&& final(ctx).token_config.total_burned == old(ctx).token_config.total_burned
                    + event.burn_amount
            },
            Err(e) => payment_failure(old(ctx).token_config, amount, outcome) == Some(e)
                && *final(ctx) == *old(ctx),
        },
{
    let (burn_amount, net_amount) = split_payment(&ctx.token_config, amount)?;
    match outcome {
        LedgerOutcome::Completed => {
            ctx.token_config.total_burned = ctx.token_config.total_burned + burn_amount;
            Ok(PaymentEvent { net_amount, burn_amount, task_id })
        },
        LedgerOutcome::Failed => Err(ErrorCode::TransferFailed),
    }
}

/// Holds the burn vault of a payment against the vault that the
/// configuration names. Payments themselves burn into whatever vault their
/// accounts give; a deployment that wants the two to agree calls this first.
pub fn check_burn_vault(ctx: &ExecuteTaskPayment) -> (result: Result<(), ErrorCode>)
    ensures
        ctx.burn_vault == ctx.token_config.utility_vault ==> result == Ok::<(), ErrorCode>(()),
        ctx.burn_vault != ctx.token_config.utility_vault ==> result == Err::<(), ErrorCode>(
            ErrorCode::VaultMismatch,
        ),
{
    if ctx.burn_vault.same_as(&ctx.token_config.utility_vault) {
        Ok(())
    } else {
        Err(ErrorCode::VaultMismatch)
    }
}

/// With a burn rate of at most ten thousand basis points, burn and net
/// amount of every payment are both within the amount and add up to it
/// exactly, and no payment is refused because the burn exceeds the amount.
pub proof fn lemma_burn_and_net_make_amount(config: TokenConfig, amount: u64)
    requires
        config.burn_rate <= 10_000,
    ensures
        burn_amount_of(amount, config.burn_rate) == (amount * config.burn_rate) / 10_000,
        0 <= burn_amount_of(amount, config.burn_rate) <= amount,
        0 <= net_amount_of(amount, config.burn_rate) <= amount,
        burn_amount_of(amount, config.burn_rate) + net_amount_of(amount, config.burn_rate)
            == amount,
        payment_refusal(config, amount) != Some(ErrorCode::ArithmeticUnderflow),
{
    let rate = config.burn_rate as int;
    let a = amount as int;
    assert(0 <= (a * rate) / 10_000 <= a) by (nonlinear_arith)
        requires
            0 <= a,
            0 <= rate <= 10_000,
    ;
}

/// One payment attempt in a history of attempts.
#[derive(Clone, Copy, Debug, PartialEq, Eq, Structural)]
pub struct PaymentAttempt {
    /// The amount to be paid.
    pub amount: u64,
    /// What the ledger answered to the transfers of the attempt.
    pub outcome: LedgerOutcome,
}

/// What a payment attempt burns: the burn of the payment if it went through,
/// nothing if it did not.
pub open spec fn burned_by_payment(config: TokenConfig, attempt: PaymentAttempt) -> int {
    if payment_went_through(config, attempt.amount, attempt.outcome) {
        burn_amount_of(attempt.amount, config.burn_rate)
    } else {
        0
    }
}

/// The configuration after a history of payment attempts, first to last.
pub open spec fn config_after_payments(
    config: TokenConfig,
    attempts: Seq<PaymentAttempt>,
) -> TokenConfig
    decreases attempts.len(),
{
    if attempts.len() == 0 {
        config
    } else {
        config_after_payment(
            config_after_payments(config, attempts.drop_last()),
            attempts.last().amount,
            attempts.last().outcome,
        )
    }
}

/// The sum of what the attempts of a history burn, each under the
/// configuration that the attempts before it left.
pub open spec fn burned_by_payments(config: TokenConfig, attempts: Seq<PaymentAttempt>) -> int
    decreases attempts.len(),
{
    if attempts.len() == 0 {
        0
    } else {
        burned_by_payments(config, attempts.drop_last()) + burned_by_payment(
            config_after_payments(config, attempts.drop_last()),
            attempts.last(),
        )
    }
}

/// After any history of payment attempts the burn counter stands at its
/// starting value plus the sum of the burns of the payments that went
/// through, and nothing else in the configuration has changed.
pub proof fn lemma_total_burned_is_sum_of_burns(config: TokenConfig, attempts: Seq<PaymentAttempt>)
    ensures
        config_after_payments(config, attempts).total_burned == config.total_burned
            + burned_by_payments(config, attempts),
        burned_by_payments(config, attempts) >= 0,
        config_after_payments(config, attempts).burn_rate == config.burn_rate,
        config_after_payments(config, attempts).authority == config.authority,
        config_after_payments(config, attempts).mint == config.mint,
        config_after_payments(config, attempts).utility_vault == config.utility_vault,
    decreases attempts.len(),
{
    if attempts.len() > 0 {
        lemma_total_burned_is_sum_of_burns(config, attempts.drop_last());
        let before = config_after_payments(config, attempts.drop_last());
        lemma_burn_is_not_negative(attempts.last().amount, before.burn_rate);
    }
}

/// The burn of a payment is never negative.
pub proof fn lemma_burn_is_not_negative(amount: u64, burn_rate: u16)
    ensures
        burn_amount_of(amount, burn_rate) >= 0,
{
    let rate = burn_rate as int;
    let a = amount as int;
    assert((a * rate) / 10_000 >= 0) by (nonlinear_arith)
        requires
            0 <= a,
            0 <= rate,
    ;
}

/// The burn counter never decreases: it stands at least as high after a
/// history of payment attempts as after any of its beginnings.
pub proof fn lemma_total_burned_never_decreases(
    config: TokenConfig,
    attempts: Seq<PaymentAttempt>,
    seen: int,
)
    requires
        0 <= seen <= attempts.len(),
    ensures
        config_after_payments(config, attempts.take(seen)).total_burned <= config_after_payments(
            config,
            attempts,
        ).total_burned,
    decreases attempts.len(),
{
    if seen == attempts.len() {
        assert(attempts.take(seen) =~= attempts);
    } else {
        assert(attempts.drop_last().take(seen) =~= attempts.take(seen));
        lemma_total_burned_never_decreases(config, attempts.drop_last(), seen);
        let before = config_after_payments(config, attempts.drop_last());
        lemma_burn_is_not_negative(attempts.last().amount, before.burn_rate);
    }
}

} // verus!
