//! Points in time at which a grant ends, and the block they are measured
//! against.

use vstd::prelude::*;

verus! {

/// The block an operation runs in.
#[derive(Debug, PartialEq, Eq)]
pub struct BlockInfo {
    /// Number of blocks before this one.
    pub height: u64,
    /// Creation time of the block, in nanoseconds since the UNIX epoch.
    pub time: u64,
    /// Name of the chain the block belongs to.
    pub chain_id: String,
}

impl Clone for BlockInfo {
    fn clone(&self) -> (r: Self)
        ensures
            r.height == self.height,
            r.time == self.time,
            r.chain_id@ == self.chain_id@,
    {
        BlockInfo { height: self.height, time: self.time, chain_id: self.chain_id.clone() }
    }
}

/// When a grant ends.
#[derive(Clone, Copy, Debug, PartialEq, Eq, Structural)]
pub enum Expiration {
    /// Ends once the block height has reached the given height.
    AtHeight(u64),
    /// Ends once the block time has reached the given time, in nanoseconds
    /// since the UNIX epoch.
    AtTime(u64),
    /// Never ends.
    Never,
}

impl Expiration {
    /// Whether the expiration has been reached in a block of the given
    /// height and time.
    pub open spec fn expired_at(self, height: u64, time: u64) -> bool {
        match self {
            Expiration::AtHeight(h) => height >= h,
            Expiration::AtTime(t) => time >= t,
            Expiration::Never => false,
        }
    }

    /// Whether the expiration has been reached in `block`.
    pub fn is_expired(&self, block: &BlockInfo) -> (r: bool)
        ensures
            r == self.expired_at(block.height, block.time),
    {
        outside_is_expired(self, block)
    }
}

/// Calls `cw_utils::Expiration::is_expired` on the same expiration and block.
/// The contract claims what that function's source shows: a height is
/// reached when the block's height is at least it, a time when the block's
/// time is at least it, and `Never` is not reached.
#[verifier::external_body]
fn outside_is_expired(expiration: &Expiration, block: &BlockInfo) -> (r: bool)
    ensures
        r == expiration.expired_at(block.height, block.time),
{
    let outside = match expiration {
        Expiration::AtHeight(h) => cw_utils::Expiration::AtHeight(*h),
        Expiration::AtTime(t) => cw_utils::Expiration::AtTime(cosmwasm_std::Timestamp::from_nanos(*t)),
        Expiration::Never => cw_utils::Expiration::Never {},
    };
    outside.is_expired(&cosmwasm_std::BlockInfo {
        height: block.height,
        time: cosmwasm_std::Timestamp::from_nanos(block.time),
        chain_id: block.chain_id.clone(),
    })
}

} // verus!
