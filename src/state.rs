use vstd::prelude::*;

use crate::constants::{BPS_DENOMINATOR, MAX_LABEL_LEN};
use crate::identity::Identity;
use crate::roster::IdentitySet;

verus! {

/// What a member may do besides contributing.
#[derive(Clone, Copy, Debug, PartialEq, Eq, Structural)]
pub enum Role {
    Contributor,
    Trader,
    Manager,
}

/// The pooled fund of one group.
#[derive(Clone, Debug)]
pub struct Fund {
    pub authority: Identity,
    pub group_id: String,
    pub fund_name: String,
    /// Shares outstanding over all members.
    pub total_shares: u64,
    /// Value that the books hold for the pool.
    pub total_value: u64,
    pub min_contribution: u64,
    /// Fee on profit, in basis points.
    pub trading_fee_bps: u16,
    pub is_active: bool,
    /// The bump seed of the fund's address.
    pub bump: u8,
    /// Identities that may trade for the pool, given a trading role.
    pub approved_traders: IdentitySet,
    /// Distinct approvals, besides the proposer, that a proposal needs.
    pub required_approvals: u8,
    /// The id that the next proposal of this fund gets.
    pub next_proposal_id: u64,
}

/// One member's stake in one fund.
#[derive(Clone, Debug)]
pub struct Member {
    pub wallet: Identity,
    pub telegram_id: String,
    pub role: Role,
    pub shares: u64,
    /// What the member has put in: the cost basis of their shares.
    pub total_contributed: u64,
    pub successful_trades: u32,
    pub failed_trades: u32,
    pub reputation_score: u64,
    pub is_active: bool,
}

/// Length in bytes of a text as stored.
pub open spec fn text_len(s: Seq<char>) -> nat {
    vstd::utf8::encode_utf8(s).len()
}

/// Whether `s` is at most `bound` bytes long.
pub fn text_fits(s: &String, bound: usize) -> (r: bool)
    ensures
        r == (text_len(s@) <= bound),
{
    s.as_str().as_bytes().len() <= bound
}

impl Fund {
    /// The fee is at most the whole, the roster is a bounded set, the
    /// threshold is positive, and the labels fit.
    pub open spec fn wf(&self) -> bool {
        &&& self.trading_fee_bps <= BPS_DENOMINATOR
        &&& self.approved_traders.wf()
        &&& self.required_approvals >= 1
        &&& text_len(self.group_id@) <= MAX_LABEL_LEN
        &&& text_len(self.fund_name@) <= MAX_LABEL_LEN
    }
}

impl Member {
    pub open spec fn wf(&self) -> bool {
        text_len(self.telegram_id@) <= MAX_LABEL_LEN
    }
}

} // verus!
