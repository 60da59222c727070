use vstd::prelude::*;

pub mod api;
pub mod batch;
pub mod commands;
pub mod daemon;
pub mod deletions;
pub mod delivery;
pub mod digest;
pub mod help;
pub mod inbound;
pub mod json;
pub mod laws;
pub mod number;
pub mod outgoing;
pub mod path;
pub mod questions;
pub mod render;
pub mod service;
pub mod setup;
pub mod text;
pub mod turns;
pub mod types;
pub mod updates;

verus! {

} // verus!
