//! Transaction-signing core of a hardware wallet: wire-payload decoding,
//! display-string formatting, review-field assembly, and the command
//! dispatcher state machine that ties holder approval to signing.

pub mod dispatcher;
pub mod format;
pub mod keys;
pub mod review;
pub mod tx;

use vstd::prelude::*;

verus! {

/// Longest coin symbol, in bytes, that a transaction may carry.
pub const MAX_COIN_LENGTH: usize = 10;

} // verus!
