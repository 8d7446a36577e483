pub mod record_usage;
pub mod register_asset;
