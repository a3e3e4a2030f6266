//! The token configuration and its one-time initialization.

use vstd::prelude::*;
use crate::error::ErrorCode;
use crate::identity::Identity;

verus! {

/// The number of basis points in the whole: a rate of this many burns all.
pub const BASIS_POINTS: u16 = 10_000;

/// The configuration of the token, one per deployment.
#[derive(Clone, Copy, Debug, PartialEq, Eq)]
pub struct TokenConfig {
    /// The signer who administers the token.
    pub authority: Identity,
    /// The asset.
    pub mint: Identity,
    /// The share of every payment that is burned, in basis points.
    pub burn_rate: u16,
    /// Everything burned so far, in minor units.
    pub total_burned: u64,
    /// The vault named at initialization to receive burns.
    pub utility_vault: Identity,
}

impl TokenConfig {
    /// The size of the persisted record, in bytes.
    pub const SIZE: usize = 32 + 32 + 2 + 8 + 32;

    /// Whether the burn rate is at most the whole.
    pub open spec fn burn_rate_in_range(self) -> bool {
        self.burn_rate <= BASIS_POINTS
    }

    /// Whether the burn rate is at most the whole. Initialization accepts
    /// any rate; with one out of range, payments large enough to make the
    /// burn exceed the amount are refused.
    pub fn has_burn_rate_in_range(&self) -> (in_range: bool)
        ensures
            in_range == self.burn_rate_in_range(),
    {
        self.burn_rate <= BASIS_POINTS
    }
}

/// The accounts that initialization works on.
#[derive(Clone, Copy, Debug, PartialEq, Eq)]
pub struct InitializeToken {
    /// The signer who becomes the administrator.
    pub authority: Identity,
    /// The slot of the configuration: empty until initialized.
    pub token_config: Option<TokenConfig>,
    /// The asset.
    pub mint: Identity,
    /// The vault to receive burns.
    pub utility_vault: Identity,
}

/// The configuration that initialization in `ctx` with `burn_rate` creates.
pub open spec fn initial_config(ctx: InitializeToken, burn_rate: u16) -> TokenConfig {
    TokenConfig {
        authority: ctx.authority,
        mint: ctx.mint,
        burn_rate,
        total_burned: 0,
        utility_vault: ctx.utility_vault,
    }
}

/// The accounts after an attempt to initialize in `ctx` with `burn_rate`.
pub open spec fn accounts_after_initialize(ctx: InitializeToken, burn_rate: u16) -> InitializeToken {
    if ctx.token_config is None {
        InitializeToken { token_config: Some(initial_config(ctx, burn_rate)), ..ctx }
    } else {
        ctx
    }
}

/// Creates the configuration in the empty slot of `ctx`, with nothing burned
/// yet and with the authority, mint and vault of `ctx`. Every burn rate is
/// accepted. `total_supply` is informational and has no part in any rule.
/// A slot that holds a configuration is left as it is and the call is
/// refused with `AlreadyInitialized`.
#[allow(unused_variables)]
pub fn initialize_token(
    ctx: &mut InitializeToken,
    total_supply: u64,
    burn_rate_basis_points: u16,
) -> (result: Result<(), ErrorCode>)
    ensures
        *final(ctx) == accounts_after_initialize(*old(ctx), burn_rate_basis_points),
        old(ctx).token_config is None ==> result == Ok::<(), ErrorCode>(()),
        old(ctx).token_config is Some ==> result == Err::<(), ErrorCode>(
            ErrorCode::AlreadyInitialized,
        ) && *final(ctx) == *old(ctx),
{
    if ctx.token_config.is_some() {
        return Err(ErrorCode::AlreadyInitialized);
    }
    ctx.token_config = Some(
        TokenConfig {
            authority: ctx.authority,
            mint: ctx.mint,
            burn_rate: burn_rate_basis_points,
            total_burned: 0,
            utility_vault: ctx.utility_vault,
        },
    );
    Ok(())
}

/// A configuration is created once: initializing again, with whatever
/// supply and rate, is refused and changes nothing.
pub proof fn lemma_initialized_once(ctx: InitializeToken, first_rate: u16, second_rate: u16)
    ensures
        accounts_after_initialize(ctx, first_rate).token_config is Some,
        accounts_after_initialize(accounts_after_initialize(ctx, first_rate), second_rate)
            == accounts_after_initialize(ctx, first_rate),
        ctx.token_config is None ==> accounts_after_initialize(ctx, first_rate).token_config
            == Some(initial_config(ctx, first_rate)) && initial_config(ctx, first_rate).total_burned
            == 0,
{
}

} // verus!
