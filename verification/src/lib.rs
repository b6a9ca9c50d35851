//! Verified core of a GraphQL gateway extension that serves two schema
//! directives: one echoes a field argument back verbatim, and one turns a
//! subscription field into a synthetic stream of simulated bank transfers
//! filtered through a jq-like selection expression.
//!
//! The host gateway drives the extension; the glue that implements the host's
//! traits lives outside this crate. Here stand the parts with real content:
//! the subscription identity key, the event generator, the event stream's
//! pull step, and the batch built from the selection engine's results.

use vstd::prelude::*;

pub mod batch;
pub mod bytes;
pub mod doc;
pub mod engine;
pub mod event;
pub mod json;
pub mod keys;
pub mod random;
pub mod stream;

verus! {

/// Inclusive lower bound of a simulated transfer amount.
pub const AMOUNT_MIN: i32 = 1;

/// Inclusive upper bound of a simulated transfer amount.
pub const AMOUNT_MAX: i32 = 2000;

/// Milliseconds between consecutive events of one subscription stream.
/// The suspension itself is the host-side driver's duty, before each pull.
pub const INTER_EVENT_MILLIS: u64 = 500;

} // verus!
