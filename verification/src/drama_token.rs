//! The point ledger: grants and spends, the supply counters, and the users'
//! balances.

use vstd::prelude::*;
use anchor_lang::prelude::Pubkey;
use crate::drama_token::error::TokenError;
use crate::drama_token::instructions::burn_spend::BurnSpend;
use crate::drama_token::instructions::initialize_token::{is_initialized, InitializeToken};
use crate::drama_token::instructions::mint_reward::MintReward;
use crate::drama_token::state::{
    conserved,
    Balances,
    RewardMinted,
    RewardType,
    SpendBurned,
    SpendType,
    TokenConfig,
    TokenInitialized,
};

pub mod costs;
pub mod error;
pub mod instructions;
pub mod rewards;
pub mod state;

verus! {

/// Initializes the ledger. It can be done once.
pub fn initialize_token(ctx: &InitializeToken, token_config: &mut TokenConfig) -> (r: Result<
    TokenInitialized,
    TokenError,
>)
    ensures
        old(token_config).initialized ==> r == Err::<TokenInitialized, TokenError>(
            TokenError::AlreadyInitialized,
        ) && *final(token_config) == *old(token_config),
        !old(token_config).initialized ==> is_initialized(*final(token_config), *ctx) && r is Ok
            && r->Ok_0.mint == ctx.mint && r->Ok_0.authority == ctx.authority && r->Ok_0.name@
            == "DRAMA Points"@ && r->Ok_0.symbol@ == "DRAP"@,
{
    instructions::initialize_token::handler(ctx, token_config)
}

/// Grants points to a user.
pub fn mint_reward(
    ctx: &MintReward,
    token_config: &mut TokenConfig,
    balances: &mut Balances,
    amount: u64,
    reward_type: RewardType,
) -> (r: Result<RewardMinted, TokenError>)
    requires
        old(balances).wf(),
    ensures
        final(balances).wf(),
        conserved(*old(token_config), *old(balances)) ==> conserved(
            *final(token_config),
            *final(balances),
        ),
        match instructions::mint_reward::rejection(
            *old(token_config),
            ctx.authority,
            old(balances).amount(ctx.user),
            amount,
        ) {
            Some(e) => r == Err::<RewardMinted, TokenError>(e) && *final(token_config) == *old(token_config) && *final(balances) == *old(balances),
            None => r == Ok::<RewardMinted, TokenError>(
                RewardMinted {
                    user: ctx.user,
                    amount: amount,
                    reward_type: reward_type,
                    total_minted: (old(token_config).total_minted + amount) as u64,
                },
            ) && *final(token_config) == (TokenConfig {
                total_minted: (old(token_config).total_minted + amount) as u64,
                ..*old(token_config)
            }) && final(balances)@ == old(balances)@.insert(
                ctx.user,
                (old(balances).amount(ctx.user) + amount) as u64,
            ),
        },
{
    instructions::mint_reward::handler(ctx, token_config, balances, amount, reward_type)
}

/// Spends a user's points.
pub fn burn_spend(
    ctx: &BurnSpend,
    token_config: &mut TokenConfig,
    balances: &mut Balances,
    amount: u64,
    spend_type: SpendType,
) -> (r: Result<SpendBurned, TokenError>)
    requires
        old(balances).wf(),
    ensures
        final(balances).wf(),
        conserved(*old(token_config), *old(balances)) ==> conserved(
            *final(token_config),
            *final(balances),
        ),
        match instructions::burn_spend::rejection(
            *old(token_config),
            old(balances).amount(ctx.user),
            amount,
        ) {
            Some(e) => r == Err::<SpendBurned, TokenError>(e) && *final(token_config) == *old(token_config) && *final(balances) == *old(balances),
            None => r == Ok::<SpendBurned, TokenError>(
                SpendBurned {
                    user: ctx.user,
                    amount: amount,
                    spend_type: spend_type,
                    total_burned: (old(token_config).total_burned + amount) as u64,
                },
            ) && *final(token_config) == (TokenConfig {
                total_burned: (old(token_config).total_burned + amount) as u64,
                ..*old(token_config)
            }) && final(balances)@ == old(balances)@.insert(
                ctx.user,
                (old(balances).amount(ctx.user) - amount) as u64,
            ),
        },
{
    instructions::burn_spend::handler(ctx, token_config, balances, amount, spend_type)
}

/// A ledger that has just been initialized, with no balances yet, is
/// conserved. Every grant and every spend keeps it so.
pub proof fn lemma_conserved_at_start(config: TokenConfig, ctx: InitializeToken, balances: Balances)
    requires
        is_initialized(config, ctx),
        balances.accounts.items@.len() == 0,
    ensures
        conserved(config, balances),
{
}

/// In a conserved ledger the grants cover the spends, and no user holds
/// more than the points outstanding.
pub proof fn lemma_conserved_bounds(config: TokenConfig, balances: Balances, user: Pubkey)
    requires
        balances.wf(),
        conserved(config, balances),
    ensures
        config.total_burned <= config.total_minted,
        balances.amount(user) <= config.total_minted - config.total_burned,
{
    balances.lemma_amount_bounds(user);
}

/// A spend of more than the user holds is refused for want of balance.
pub proof fn lemma_overdraw_refused(config: TokenConfig, held: u64, amount: u64)
    requires
        amount > held,
    ensures
        instructions::burn_spend::rejection(config, held, amount) == Some(
            TokenError::InsufficientBalance,
        ),
{
}

/// A grant of a positive amount by a caller other than the authority is
/// refused as unauthorized.
pub proof fn lemma_unauthorized_refused(
    config: TokenConfig,
    caller: Pubkey,
    held: u64,
    amount: u64,
)
    requires
        caller != config.authority,
        amount > 0,
    ensures
        instructions::mint_reward::rejection(config, caller, held, amount) == Some(
            TokenError::Unauthorized,
        ),
{
}

} // verus!
