use vstd::prelude::*;

verus! {

/// Every way an operation can be refused. A refused operation changes nothing.
#[derive(Clone, Copy, Debug, PartialEq, Eq, Structural)]
pub enum ErrorCode {
    /// The fund is paused.
    FundNotActive,
    /// The member record is deactivated.
    MemberNotActive,
    /// A contribution is below the fund's minimum.
    BelowMinContribution,
    /// The caller is not the fund authority, in an operation that moves trade value.
    UnauthorizedTrader,
    /// The vault, or the fund's recorded value, cannot cover the amount.
    InsufficientFunds,
    /// The member holds fewer shares than the operation needs.
    InsufficientShares,
    /// The caller is not the fund authority, in an attempt to close the fund.
    UnauthorizedClose,
    /// The fund still holds value and cannot be closed.
    FundNotEmpty,
    /// Shares are still outstanding, or there are none to price against.
    SharesRemaining,
    /// A computation left the range of its integer type, or divided by zero.
    ArithmeticOverflow,
    /// The member's holding is not worth more than they put in.
    NoProfit,
    /// The caller is not the fund authority.
    NotAuthority,
    /// The member's role does not allow trading.
    InsufficientRole,
    /// The member is not on the fund's roster of approved traders.
    NotApprovedTrader,
    /// The roster of approved traders is full.
    TraderRosterFull,
    /// The identity is already on the roster of approved traders.
    TraderAlreadyApproved,
    /// The approval threshold is zero or larger than the roster.
    InvalidThreshold,
    /// A fee above one hundred percent.
    InvalidFee,
    /// A label or description is longer than its bound.
    TextTooLong,
    /// The proposal is no longer pending.
    ProposalNotPending,
    /// The proposal's approval window has closed.
    ProposalExpired,
    /// The proposer cannot approve their own proposal.
    SelfApproval,
    /// The approver has already approved this proposal.
    AlreadyApproved,
    /// The proposal's list of approvals is full.
    ApprovalsFull,
    /// The proposal has not reached its quorum.
    ProposalNotApproved,
    /// The trade has already been settled.
    TradeAlreadySettled,
}

} // verus!
