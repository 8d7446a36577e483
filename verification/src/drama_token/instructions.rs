pub mod burn_spend;
pub mod initialize_token;
pub mod mint_reward;
