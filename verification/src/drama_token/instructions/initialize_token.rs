use vstd::prelude::*;
use anchor_lang::prelude::Pubkey;
use crate::drama_token::error::TokenError;
use crate::drama_token::state::{TokenConfig, TokenInitialized};

verus! {

/// What an initialization names: the point currency's identifier and the
/// authority that will grant points.
#[derive(Clone, Copy, Debug, PartialEq, Eq)]
pub struct InitializeToken {
    pub mint: Pubkey,
    pub authority: Pubkey,
    pub bump: u8,
}

/// `config` is the configuration that `ctx` initializes: six decimals, both
/// counters at zero.
pub open spec fn is_initialized(config: TokenConfig, ctx: InitializeToken) -> bool {
    &&& config.authority == ctx.authority
    &&& config.mint == ctx.mint
    &&& config.name@ == "DRAMA Points"@
    &&& config.symbol@ == "DRAP"@
    &&& config.decimals == 6
    &&& config.total_minted == 0
    &&& config.total_burned == 0
    &&& config.initialized
    &&& config.bump == ctx.bump
}

/// Initializes the ledger. It can be done once.
pub fn handler(ctx: &InitializeToken, token_config: &mut TokenConfig) -> (r: Result<
    TokenInitialized,
    TokenError,
>)
    ensures
        old(token_config).initialized ==> r == Err::<TokenInitialized, TokenError>(
            TokenError::AlreadyInitialized,
        ) && *final(token_config) == *old(token_config),
        !old(token_config).initialized ==> is_initialized(*final(token_config), *ctx) && r is Ok
            && r->Ok_0.mint == ctx.mint && r->Ok_0.authority == ctx.authority && r->Ok_0.name@
            == "DRAMA Points"@ && r->Ok_0.symbol@ == "DRAP"@,
{
    if token_config.initialized {
        return Err(TokenError::AlreadyInitialized);
    }
    token_config.authority = ctx.authority;
    token_config.mint = ctx.mint;
    token_config.name = "DRAMA Points".to_owned();
    token_config.symbol = "DRAP".to_owned();
    token_config.decimals = TokenConfig::DECIMALS;
    token_config.total_minted = 0;
    token_config.total_burned = 0;
    token_config.initialized = true;
    token_config.bump = ctx.bump;
    Ok(
        TokenInitialized {
            mint: ctx.mint,
            authority: ctx.authority,
            name: token_config.name.clone(),
            symbol: token_config.symbol.clone(),
        },
    )
}

} // verus!
