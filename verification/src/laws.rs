//! What the library promises as a whole.

use vstd::prelude::*;

pub mod answers;
pub mod asking;
pub mod commanding;
pub mod daemons;
pub mod deliveries;
pub mod handling;
pub mod incoming;
pub mod names;
pub mod notifications;
pub mod numbers;
pub mod paths;
pub mod sending;
pub mod services;
pub mod telegram;
pub mod texts;
pub mod values;
pub mod wording;

verus! {

} // verus!
