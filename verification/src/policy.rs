//! How often a connection is tried and how long the pause between tries is.

use vstd::prelude::*;

verus! {

/// The most attempts one call makes.
pub const MAX_RETRIES: u32 = 5;

/// The pause after a failed attempt that is not the last, in seconds.
pub const RETRY_DELAY_SECS: u64 = 5;

} // verus!
