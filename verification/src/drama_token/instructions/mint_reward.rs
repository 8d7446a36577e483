use vstd::prelude::*;
use anchor_lang::prelude::Pubkey;
use crate::drama_token::error::TokenError;
use crate::drama_token::state::{conserved, Balances, RewardMinted, RewardType, TokenConfig};
use crate::keys::same_key;

verus! {

/// What a grant names: the user who receives the points and the caller, who
/// must be the ledger's authority.
#[derive(Clone, Copy, Debug, PartialEq, Eq)]
pub struct MintReward {
    pub user: Pubkey,
    pub authority: Pubkey,
}

/// The reason for which a grant is refused, if it is. `held` is what the
/// receiving user holds.
pub open spec fn rejection(config: TokenConfig, caller: Pubkey, held: u64, amount: u64) -> Option<
    TokenError,
> {
    if amount == 0 {
        Some(TokenError::InvalidAmount)
    } else if caller != config.authority {
        Some(TokenError::Unauthorized)
    } else if config.total_minted + amount > u64::MAX || held + amount > u64::MAX {
        Some(TokenError::Overflow)
    } else {
        None
    }
}

/// Grants `amount` points to a user. A refused grant changes nothing.
pub fn handler(
    ctx: &MintReward,
    token_config: &mut TokenConfig,
    balances: &mut Balances,
    amount: u64,
    reward_type: RewardType,
) -> (r: Result<RewardMinted, TokenError>)
    requires
        old(balances).wf(),
    ensures
        final(balances).wf(),
        conserved(*old(token_config), *old(balances)) ==> conserved(
            *final(token_config),
            *final(balances),
        ),
        final(token_config).total_minted >= old(token_config).total_minted,
        final(token_config).total_burned == old(token_config).total_burned,
        match rejection(*old(token_config), ctx.authority, old(balances).amount(ctx.user), amount) {
            Some(e) => r == Err::<RewardMinted, TokenError>(e) && *final(token_config) == *old(token_config) && *final(balances) == *old(balances),
            None => r == Ok::<RewardMinted, TokenError>(
                RewardMinted {
                    user: ctx.user,
                    amount: amount,
                    reward_type: reward_type,
                    total_minted: (old(token_config).total_minted + amount) as u64,
                },
            ) && *final(token_config) == (TokenConfig {
                total_minted: (old(token_config).total_minted + amount) as u64,
                ..*old(token_config)
            }) && final(balances)@ == old(balances)@.insert(
                ctx.user,
                (old(balances).amount(ctx.user) + amount) as u64,
            ),
        },
{
    if amount == 0 {
        return Err(TokenError::InvalidAmount);
    }
    if !same_key(&ctx.authority, &token_config.authority) {
        return Err(TokenError::Unauthorized);
    }
    let total_minted = match token_config.total_minted.checked_add(amount) {
        Some(total) => total,
        None => { return Err(TokenError::Overflow); },
    };
    let held = match balances.balance_of(&ctx.user).checked_add(amount) {
        Some(held) => held,
        None => { return Err(TokenError::Overflow); },
    };
    token_config.total_minted = total_minted;
    balances.set_balance(ctx.user, held);
    Ok(RewardMinted { user: ctx.user, amount, reward_type, total_minted })
}

} // verus!
