pub mod confirm_node;
pub mod record_visit;
