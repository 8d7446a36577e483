use anchor_lang::prelude::Pubkey;
use drama_ledger::drama_token::error::TokenError;
use drama_ledger::drama_token::instructions::burn_spend::BurnSpend;
use drama_ledger::drama_token::instructions::initialize_token::InitializeToken;
use drama_ledger::drama_token::instructions::mint_reward::MintReward;
use drama_ledger::drama_token::state::{
    Balances, RewardMinted, RewardType, SpendBurned, SpendType, TokenConfig, TokenInitialized,
};
use drama_ledger::drama_token::{burn_spend, costs, initialize_token, mint_reward, rewards};

fn token_key(n: u8) -> Pubkey {
    Pubkey::new_from_array([n; 32])
}

fn token_blank() -> TokenConfig {
    TokenConfig {
        authority: Pubkey::new_from_array([0; 32]),
        mint: Pubkey::new_from_array([0; 32]),
        name: String::new(),
        symbol: String::new(),
        decimals: 0,
        total_minted: 0,
        total_burned: 0,
        initialized: false,
        bump: 0,
    }
}

fn token_ready() -> TokenConfig {
    let mut config = token_blank();
    let ctx = InitializeToken { mint: token_key(50), authority: token_key(51), bump: 251 };
    initialize_token(&ctx, &mut config).unwrap();
    config
}

fn token_grant(user: u8) -> MintReward {
    MintReward { user: token_key(user), authority: token_key(51) }
}

fn token_sum(balances: &Balances) -> u128 {
    balances.accounts.items.iter().map(|a| u128::from(*a)).sum()
}

#[test]
fn initialize_fixes_the_configuration() {
    let mut config = token_blank();
    let ctx = InitializeToken { mint: token_key(50), authority: token_key(51), bump: 251 };
    let r = initialize_token(&ctx, &mut config);
    assert_eq!(
        r,
        Ok(TokenInitialized {
            mint: token_key(50),
            authority: token_key(51),
            name: "DRAMA Points".to_string(),
            symbol: "DRAP".to_string(),
        })
    );
    assert_eq!(
        config,
        TokenConfig {
            authority: token_key(51),
            mint: token_key(50),
            name: "DRAMA Points".to_string(),
            symbol: "DRAP".to_string(),
            decimals: 6,
            total_minted: 0,
            total_burned: 0,
            initialized: true,
            bump: 251,
        }
    );
    assert!(config.name.len() <= TokenConfig::MAX_NAME_LEN);
    assert!(config.symbol.len() <= TokenConfig::MAX_SYMBOL_LEN);
}

#[test]
fn initialize_twice_fails() {
    let mut config = token_ready();
    let mut balances = Balances::new();
    mint_reward(&token_grant(60), &mut config, &mut balances, 9, RewardType::Bonus).unwrap();
    let before = config.clone();
    let ctx = InitializeToken { mint: token_key(70), authority: token_key(71), bump: 1 };
    let r = drama_ledger::drama_token::instructions::initialize_token::handler(&ctx, &mut config);
    assert_eq!(r, Err(TokenError::AlreadyInitialized));
    assert_eq!(config, before);
    assert_eq!(config.total_minted, 9);
}

#[test]
fn mint_adds_to_balance_and_supply() {
    let mut config = token_ready();
    let mut balances = Balances::new();
    assert_eq!(balances.balance_of(&token_key(60)), 0);
    let r = mint_reward(
        &token_grant(60),
        &mut config,
        &mut balances,
        rewards::CONFIRM_NODE,
        RewardType::ConfirmNode,
    );
    assert_eq!(
        r,
        Ok(RewardMinted {
            user: token_key(60),
            amount: 10_000_000,
            reward_type: RewardType::ConfirmNode,
            total_minted: 10_000_000,
        })
    );
    let r = mint_reward(
        &token_grant(60),
        &mut config,
        &mut balances,
        rewards::WATCH_AD,
        RewardType::WatchAd,
    );
    assert_eq!(r.unwrap().total_minted, 12_000_000);
    assert_eq!(balances.balance_of(&token_key(60)), 12_000_000);
    assert_eq!(balances.balance_of(&token_key(61)), 0);
    assert_eq!(config.total_minted, 12_000_000);
    assert_eq!(config.total_burned, 0);
}

#[test]
fn mint_rejects_zero_amount() {
    let mut config = token_ready();
    let mut balances = Balances::new();
    let r = mint_reward(&token_grant(60), &mut config, &mut balances, 0, RewardType::Bonus);
    assert_eq!(r, Err(TokenError::InvalidAmount));
    assert_eq!(config, token_ready());
    assert_eq!(balances.accounts.items.len(), 0);
}

#[test]
fn mint_by_another_caller_is_unauthorized() {
    let mut config = token_ready();
    let mut balances = Balances::new();
    mint_reward(&token_grant(60), &mut config, &mut balances, 5, RewardType::Bonus).unwrap();
    let before = config.clone();
    let ctx = MintReward { user: token_key(60), authority: token_key(60) };
    let r = mint_reward(&ctx, &mut config, &mut balances, 7, RewardType::CreateAsset);
    assert_eq!(r, Err(TokenError::Unauthorized));
    assert_eq!(config, before);
    assert_eq!(config.total_minted, 5);
    assert_eq!(balances.balance_of(&token_key(60)), 5);
}

#[test]
fn mint_checks_the_amount_before_the_caller() {
    let mut config = token_ready();
    let mut balances = Balances::new();
    let ctx = MintReward { user: token_key(60), authority: token_key(60) };
    let r = drama_ledger::drama_token::instructions::mint_reward::handler(
        &ctx,
        &mut config,
        &mut balances,
        0,
        RewardType::Bonus,
    );
    assert_eq!(r, Err(TokenError::InvalidAmount));
}

#[test]
fn mint_fails_on_supply_overflow() {
    let mut config = token_ready();
    let mut balances = Balances::new();
    mint_reward(&token_grant(60), &mut config, &mut balances, u64::MAX - 1, RewardType::Bonus)
        .unwrap();
    let before = config.clone();
    let r = mint_reward(&token_grant(61), &mut config, &mut balances, 2, RewardType::Bonus);
    assert_eq!(r, Err(TokenError::Overflow));
    assert_eq!(config, before);
    assert_eq!(balances.balance_of(&token_key(61)), 0);
    assert_eq!(balances.balance_of(&token_key(60)), u64::MAX - 1);
    let r = mint_reward(&token_grant(61), &mut config, &mut balances, 1, RewardType::Bonus);
    assert_eq!(r.unwrap().total_minted, u64::MAX);
}

#[test]
fn mint_fails_on_balance_overflow() {
    let mut config = token_ready();
    let mut balances = Balances::new();
    balances.set_balance(token_key(60), u64::MAX);
    let r = mint_reward(&token_grant(60), &mut config, &mut balances, 1, RewardType::Bonus);
    assert_eq!(r, Err(TokenError::Overflow));
    assert_eq!(config.total_minted, 0);
    assert_eq!(balances.balance_of(&token_key(60)), u64::MAX);
}

#[test]
fn burn_takes_from_balance_and_adds_to_burned() {
    let mut config = token_ready();
    let mut balances = Balances::new();
    mint_reward(&token_grant(60), &mut config, &mut balances, 12_000_000, RewardType::Bonus)
        .unwrap();
    let ctx = BurnSpend { user: token_key(60) };
    let r = burn_spend(&ctx, &mut config, &mut balances, costs::REFRESH_FRAME, SpendType::RefreshFrame);
    assert_eq!(
        r,
        Ok(SpendBurned {
            user: token_key(60),
            amount: 5_000_000,
            spend_type: SpendType::RefreshFrame,
            total_burned: 5_000_000,
        })
    );
    assert_eq!(balances.balance_of(&token_key(60)), 7_000_000);
    assert_eq!(config.total_minted, 12_000_000);
    assert_eq!(config.total_burned, 5_000_000);
    let r = burn_spend(&ctx, &mut config, &mut balances, 7_000_000, SpendType::Other);
    assert_eq!(r.unwrap().total_burned, 12_000_000);
    assert_eq!(balances.balance_of(&token_key(60)), 0);
}

#[test]
fn burn_rejects_zero_amount() {
    let mut config = token_ready();
    let mut balances = Balances::new();
    let ctx = BurnSpend { user: token_key(60) };
    let r = burn_spend(&ctx, &mut config, &mut balances, 0, SpendType::SkipAd);
    assert_eq!(r, Err(TokenError::InvalidAmount));
}

#[test]
fn burn_beyond_balance_fails_and_changes_nothing() {
    let mut config = token_ready();
    let mut balances = Balances::new();
    mint_reward(&token_grant(60), &mut config, &mut balances, 100, RewardType::Bonus).unwrap();
    mint_reward(&token_grant(61), &mut config, &mut balances, 500, RewardType::Bonus).unwrap();
    let before = config.clone();
    let ctx = BurnSpend { user: token_key(60) };
    let r = burn_spend(&ctx, &mut config, &mut balances, 101, SpendType::CustomFrame);
    assert_eq!(r, Err(TokenError::InsufficientBalance));
    assert_eq!(config, before);
    assert_eq!(balances.balance_of(&token_key(60)), 100);
    assert_eq!(balances.balance_of(&token_key(61)), 500);
    let r = drama_ledger::drama_token::instructions::burn_spend::handler(
        &BurnSpend { user: token_key(62) },
        &mut config,
        &mut balances,
        1,
        SpendType::SkipAd,
    );
    assert_eq!(r, Err(TokenError::InsufficientBalance));
    assert_eq!(balances.accounts.items, vec![100, 500]);
}

#[test]
fn burn_fails_on_burned_overflow() {
    let mut config = token_ready();
    config.total_burned = u64::MAX;
    let mut balances = Balances::new();
    balances.set_balance(token_key(60), 10);
    let ctx = BurnSpend { user: token_key(60) };
    let r = burn_spend(&ctx, &mut config, &mut balances, 1, SpendType::Other);
    assert_eq!(r, Err(TokenError::Overflow));
    assert_eq!(config.total_burned, u64::MAX);
    assert_eq!(balances.balance_of(&token_key(60)), 10);
}

#[test]
fn supply_equals_the_sum_of_balances() {
    let mut config = token_ready();
    let mut balances = Balances::new();
    let steps: [(bool, u8, u64); 10] = [
        (true, 60, 10_000_000),
        (true, 61, 5_000_000),
        (false, 60, 3_000_000),
        (true, 62, 2_000_000),
        (false, 61, 5_000_000),
        (false, 62, 2_000_001),
        (true, 60, 1),
        (false, 60, 7_000_001),
        (false, 63, 1),
        (true, 61, 44),
    ];
    for (grant, user, amount) in steps {
        if grant {
            let _ = mint_reward(&token_grant(user), &mut config, &mut balances, amount, RewardType::Bonus);
        } else {
            let ctx = BurnSpend { user: token_key(user) };
            let _ = burn_spend(&ctx, &mut config, &mut balances, amount, SpendType::Other);
        }
        assert_eq!(
            u128::from(config.total_minted) - u128::from(config.total_burned),
            token_sum(&balances)
        );
    }
    assert_eq!(config.total_minted, 17_000_045);
    assert_eq!(config.total_burned, 15_000_001);
    assert_eq!(balances.balance_of(&token_key(60)), 0);
    assert_eq!(balances.balance_of(&token_key(61)), 44);
    assert_eq!(balances.balance_of(&token_key(62)), 2_000_000);
    assert_eq!(balances.balance_of(&token_key(63)), 0);
}

#[test]
fn kind_does_not_change_the_accounting() {
    for kind in [RewardType::ConfirmNode, RewardType::CreateAsset, RewardType::WatchAd, RewardType::Bonus] {
        let mut config = token_ready();
        let mut balances = Balances::new();
        let r = mint_reward(&token_grant(60), &mut config, &mut balances, 3, kind).unwrap();
        assert_eq!(r.reward_type, kind);
        assert_eq!(config.total_minted, 3);
        assert_eq!(balances.balance_of(&token_key(60)), 3);
    }
}

#[test]
fn nominal_amounts() {
    assert_eq!(rewards::CONFIRM_NODE, 10_000_000);
    assert_eq!(rewards::CREATE_ASSET, 5_000_000);
    assert_eq!(rewards::WATCH_AD, 2_000_000);
    assert_eq!(costs::REFRESH_FRAME, 5_000_000);
    assert_eq!(costs::SKIP_AD, 3_000_000);
    assert_eq!(costs::CUSTOM_FRAME, 10_000_000);
    assert_eq!(TokenConfig::DECIMALS, 6);
}

#[test]
fn token_config_space() {
    assert_eq!(TokenConfig::MAX_NAME_LEN, 32);
    assert_eq!(TokenConfig::MAX_SYMBOL_LEN, 10);
    assert_eq!(TokenConfig::SPACE, 141);
}

#[test]
fn token_error_messages() {
    assert_eq!(TokenError::AlreadyInitialized.message(), "Token already initialized");
    assert_eq!(TokenError::Unauthorized.message(), "Not authorized to perform this action");
    assert_eq!(TokenError::InsufficientBalance.message(), "Insufficient balance");
    assert_eq!(TokenError::InvalidRewardType.message(), "Invalid reward type");
    assert_eq!(TokenError::InvalidSpendType.message(), "Invalid spend type");
    assert_eq!(TokenError::InvalidAmount.message(), "Amount must be greater than 0");
    assert_eq!(TokenError::Overflow.message(), "Overflow error");
}
