pub mod complete_drama;
pub mod create_drama;
pub mod update_duration;
