pub mod engine;
pub mod setup;
