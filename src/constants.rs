use vstd::prelude::*;

verus! {

/// Basis points in one whole: fees and profit-or-loss rates are out of this.
pub const BPS_DENOMINATOR: u64 = 10000;

/// Longest group id, fund name or member label, in bytes (a group id is also an
/// address seed, and a seed holds at most 32 bytes).
pub const MAX_LABEL_LEN: usize = 32;

/// Longest trade description, in bytes.
pub const MAX_DESCRIPTION_LEN: usize = 200;

/// Most identities that a roster (approved traders, a proposal's approvals) holds.
pub const MAX_ROSTER_LEN: usize = 10;

/// Seconds for which a trade proposal can collect approvals.
pub const PROPOSAL_LIFETIME_SECS: i64 = 86400;

} // verus!
