pub mod matcher;
pub mod queue;
pub mod types;
