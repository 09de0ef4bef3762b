//! Verified core of a temperature relay: it authenticates against a
//! fermentation-device service, extracts the latest temperature sample from a
//! loosely structured history payload, decides whether the sample should be
//! forwarded to a brewing-log sink, and keeps per-device memory of what was
//! already submitted.

use vstd::prelude::*;

pub mod brewfather;
pub mod bytes;
pub mod config;
pub mod errors;
pub mod extract;
pub mod filter;
pub mod grainfather;
pub mod json;
pub mod poll;

verus! {

} // verus!
