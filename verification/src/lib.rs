//! Consistency rules of a collaborative serialized-fiction ledger: drama
//! lifecycle, story nodes, asset usage and reward points.

pub mod arena;
pub mod asset_registry;
pub mod drama_hub;
pub mod drama_token;
pub mod keys;
pub mod story_node;
pub mod text;
