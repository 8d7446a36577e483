use vstd::prelude::*;
use anchor_lang::prelude::Pubkey;
use crate::drama_token::error::TokenError;
use crate::drama_token::state::{conserved, Balances, SpendBurned, SpendType, TokenConfig};

verus! {

/// What a spend names: the user who spends.
#[derive(Clone, Copy, Debug, PartialEq, Eq)]
pub struct BurnSpend {
    pub user: Pubkey,
}

/// The reason for which a spend is refused, if it is. `held` is what the
/// spending user holds.
pub open spec fn rejection(config: TokenConfig, held: u64, amount: u64) -> Option<TokenError> {
    if amount == 0 {
        Some(TokenError::InvalidAmount)
    } else if held < amount {
        Some(TokenError::InsufficientBalance)
    } else if config.total_burned + amount > u64::MAX {
        Some(TokenError::Overflow)
    } else {
        None
    }
}

/// Spends `amount` of a user's points. A refused spend changes nothing.
pub fn handler(
    ctx: &BurnSpend,
    token_config: &mut TokenConfig,
    balances: &mut Balances,
    amount: u64,
    spend_type: SpendType,
) -> (r: Result<SpendBurned, TokenError>)
    requires
        old(balances).wf(),
    ensures
        final(balances).wf(),
        conserved(*old(token_config), *old(balances)) ==> conserved(
            *final(token_config),
            *final(balances),
        ),
        final(token_config).total_minted == old(token_config).total_minted,
        final(token_config).total_burned >= old(token_config).total_burned,
        match rejection(*old(token_config), old(balances).amount(ctx.user), amount) {
            Some(e) => r == Err::<SpendBurned, TokenError>(e) && *final(token_config) == *old(token_config) && *final(balances) == *old(balances),
            None => r == Ok::<SpendBurned, TokenError>(
                SpendBurned {
                    user: ctx.user,
                    amount: amount,
                    spend_type: spend_type,
                    total_burned: (old(token_config).total_burned + amount) as u64,
                },
            ) && *final(token_config) == (TokenConfig {
                total_burned: (old(token_config).total_burned + amount) as u64,
                ..*old(token_config)
            }) && final(balances)@ == old(balances)@.insert(
                ctx.user,
                (old(balances).amount(ctx.user) - amount) as u64,
            ),
        },
{
    if amount == 0 {
        return Err(TokenError::InvalidAmount);
    }
    let held = balances.balance_of(&ctx.user);
    if held < amount {
        return Err(TokenError::InsufficientBalance);
    }
    let total_burned = match token_config.total_burned.checked_add(amount) {
        Some(total) => total,
        None => { return Err(TokenError::Overflow); },
    };
    token_config.total_burned = total_burned;
    balances.set_balance(ctx.user, held - amount);
    Ok(SpendBurned { user: ctx.user, amount, spend_type, total_burned })
}

} // verus!
