use vstd::prelude::*;

pub mod approval;
pub mod audio;
pub mod bridge;
pub mod cli;
pub mod config;
pub mod input;
pub mod json;
pub mod session;
pub mod state;
pub mod text;
pub mod transcribe;
pub mod ui;

verus! {
}
