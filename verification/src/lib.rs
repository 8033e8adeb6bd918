use vstd::prelude::*;

pub mod calendar;
pub mod controller;
pub mod daemon;
pub mod error;
pub mod model;
pub mod netbird;
pub mod platform;
pub mod scheduler;
pub mod state;
pub mod text;

pub use error::HawkError;

verus! {

pub type Result<T> = core::result::Result<T, HawkError>;

} // verus!
