//! Rules of the WattCoin token economy: fee-bearing task payments, the
//! cumulative burn counter, and time-locked stakes with an energy rebate.
//!
//! Token balances live in an external ledger, which carries out the
//! transfers of one operation as a unit. Every operation that moves value is
//! therefore a pair of functions. The first holds a request against the
//! current records and names the transfers it calls for, changing nothing.
//! The second takes what the ledger answered, holds the request against the
//! records once more, and updates them if and only if the request stands and
//! the ledger carried out the transfers.

pub mod config;
pub mod error;
pub mod identity;
pub mod ledger;
pub mod payment;
pub mod rebate;
pub mod stake;

pub use config::{initialize_token, InitializeToken, TokenConfig};
pub use error::{ErrorCode, ErrorKind};
pub use identity::Identity;
pub use ledger::{LedgerOutcome, TransferInstruction, TransferRun};
pub use payment::{
    check_burn_vault, execute_task_payment, settle_task_payment, ExecuteTaskPayment, PaymentEvent,
    TaskPayment,
};
pub use rebate::{claim_energy_rebate, settle_claim, ClaimEnergyRebate, RebateClaim};
pub use stake::{
    settle_stake, stake_for_energy_rebate, StakeAccount, StakeDeposit, StakeForEnergyRebate,
};
