//! Expiration markers and the execution context they are judged against.
//!
//! An approval or operator grant carries a marker that names a block height,
//! a block time (in nanoseconds), or never.  The marker has passed once the
//! current block reaches it; an expired grant is treated as absent but is
//! never deleted eagerly.

use vstd::prelude::*;

verus! {

/// The point in the chain's history at which a grant stops applying.
#[derive(Clone, Copy, Debug, PartialEq, Eq, Structural)]
pub enum Expiration {
    /// Expires once the chain reaches this block height.
    AtHeight(u64),
    /// Expires once the block time reaches this many nanoseconds.
    AtTime(u64),
    /// Never expires.
    Never,
}

/// The block against which expirations are judged.
#[derive(Clone, Copy, Debug, PartialEq, Eq, Structural)]
pub struct BlockInfo {
    /// Height of the block being executed.
    pub height: u64,
    /// Time of the block being executed, in nanoseconds.
    pub time: u64,
}

/// The execution context a command or query runs in.
#[derive(Clone, Copy, Debug, PartialEq, Eq, Structural)]
pub struct Env {
    /// The current block.
    pub block: BlockInfo,
}

/// Whether `e` has passed at block `b`.
pub open spec fn spec_is_expired(e: Expiration, b: BlockInfo) -> bool {
    match e {
        Expiration::AtHeight(h) => b.height >= h,
        Expiration::AtTime(t) => b.time >= t,
        Expiration::Never => false,
    }
}

impl Expiration {
    /// Whether the marker has passed at the given block.
    pub fn is_expired(&self, block: &BlockInfo) -> (r: bool)
        ensures
            r == spec_is_expired(*self, *block),
    {
        match self {
            Expiration::AtHeight(h) => block.height >= *h,
            Expiration::AtTime(t) => block.time >= *t,
            Expiration::Never => false,
        }
    }
}

impl Default for Expiration {
    /// An unspecified expiration defaults to never expiring.
    fn default() -> (r: Self)
        ensures
            r == Expiration::Never,
    {
        Expiration::Never
    }
}

} // verus!
