use vstd::prelude::*;

use crate::access::{check_authority, check_fund_active, check_trading_capability, trading_refusal};
use crate::constants::PROPOSAL_LIFETIME_SECS;
use crate::errors::ErrorCode;
use crate::identity::Identity;
use crate::roster::IdentitySet;
use crate::state::{Fund, Member};

verus! {

/// Where a proposal stands. `Pending` leads to `Approved` or `Rejected`, and
/// `Approved` to `Executed`. Expiry is never stored: a pending proposal past
/// its deadline reads as `Expired` only through `status_at`.
#[derive(Clone, Copy, Debug, PartialEq, Eq, Structural)]
pub enum ProposalStatus {
    Pending,
    Approved,
    Rejected,
    Executed,
    Expired,
}

/// A trade that waits for a quorum of approvals before it runs.
#[derive(Clone, Debug)]
pub struct TradeProposal {
    /// The address of the fund the proposal belongs to.
    pub fund: Identity,
    pub proposer: Identity,
    /// Unique within the fund.
    pub proposal_id: u64,
    pub from_token: Identity,
    pub to_token: Identity,
    pub amount: u64,
    pub minimum_out: u64,
    /// Traders other than the proposer who approved, each once.
    pub approvals: IdentitySet,
    pub status: ProposalStatus,
    pub created_at: i64,
    pub expires_at: i64,
}

impl TradeProposal {
    /// Approvals form a bounded set that leaves out the proposer.
    pub open spec fn wf(&self) -> bool {
        &&& self.approvals.wf()
        &&& !self.approvals@.contains(self.proposer)
    }

    /// The status as an observer at time `now` sees it.
    pub open spec fn spec_status_at(&self, now: i64) -> ProposalStatus {
        if self.status == ProposalStatus::Pending && now >= self.expires_at {
            ProposalStatus::Expired
        } else {
            self.status
        }
    }

    /// The stored status, with a pending proposal past its deadline read as
    /// expired.
    pub fn status_at(&self, now: i64) -> (r: ProposalStatus)
        ensures
            r == self.spec_status_at(now),
    {
        if self.status == ProposalStatus::Pending && now >= self.expires_at {
            ProposalStatus::Expired
        } else {
            self.status
        }
    }
}

/// Why `proposer` may not propose a trade of `amount` on `fund` at `now`, if
/// they may not.
pub open spec fn proposal_refusal(fund: Fund, proposer: Member, amount: u64, now: i64) -> Option<
    ErrorCode,
> {
    if !fund.is_active {
        Some(ErrorCode::FundNotActive)
    } else if trading_refusal(fund, proposer) is Some {
        trading_refusal(fund, proposer)
    } else if amount > fund.total_value {
        Some(ErrorCode::InsufficientFunds)
    } else if fund.next_proposal_id == u64::MAX || now + PROPOSAL_LIFETIME_SECS > i64::MAX {
        Some(ErrorCode::ArithmeticOverflow)
    } else {
        None
    }
}

/// Opens a pending proposal under the fund's next proposal id, which then
/// advances; it can collect approvals for a day from `now`.
pub fn propose_trade(
    fund: &mut Fund,
    proposer: &Member,
    fund_key: Identity,
    from_token: Identity,
    to_token: Identity,
    amount: u64,
    minimum_out: u64,
    now: i64,
) -> (r: Result<TradeProposal, ErrorCode>)
    ensures
        match r {
            Ok(p) => {
                &&& proposal_refusal(*old(fund), *proposer, amount, now) is None
                &&& *final(fund) == (Fund {
                    next_proposal_id: (old(fund).next_proposal_id + 1) as u64,
                    ..*old(fund)
                })
                &&& p.fund == fund_key
                &&& p.proposer == proposer.wallet
                &&& p.proposal_id == old(fund).next_proposal_id
                &&& p.from_token == from_token
                &&& p.to_token == to_token
                &&& p.amount == amount
                &&& p.minimum_out == minimum_out
                &&& p.approvals@ == Seq::<Identity>::empty()
                &&& p.status == ProposalStatus::Pending
                &&& p.created_at == now
                &&& p.expires_at == now + PROPOSAL_LIFETIME_SECS
                &&& p.wf()
            },
            Err(e) => {
                &&& proposal_refusal(*old(fund), *proposer, amount, now) == Some(e)
                &&& *final(fund) == *old(fund)
            },
        },
        old(fund).wf() ==> final(fund).wf(),
{
    if let Err(e) = check_fund_active(fund) {
        return Err(e);
    }
    if let Err(e) = check_trading_capability(fund, proposer) {
        return Err(e);
    }
    if amount > fund.total_value {
        return Err(ErrorCode::InsufficientFunds);
    }
    if fund.next_proposal_id == u64::MAX || now > i64::MAX - PROPOSAL_LIFETIME_SECS {
        return Err(ErrorCode::ArithmeticOverflow);
    }
    let proposal_id = fund.next_proposal_id;
    fund.next_proposal_id = proposal_id + 1;
    Ok(
        TradeProposal {
            fund: fund_key,
            proposer: proposer.wallet,
            proposal_id,
            from_token,
            to_token,
            amount,
            minimum_out,
            approvals: IdentitySet::new(),
            status: ProposalStatus::Pending,
            created_at: now,
            expires_at: now + PROPOSAL_LIFETIME_SECS,
        },
    )
}

/// Why `approver` may not approve `proposal` at `now`, if they may not.
pub open spec fn approval_refusal(
    fund: Fund,
    approver: Member,
    proposal: TradeProposal,
    now: i64,
) -> Option<ErrorCode> {
    if trading_refusal(fund, approver) is Some {
        trading_refusal(fund, approver)
    } else if proposal.status != ProposalStatus::Pending {
        Some(ErrorCode::ProposalNotPending)
    } else if now >= proposal.expires_at {
        Some(ErrorCode::ProposalExpired)
    } else if approver.wallet == proposal.proposer {
        Some(ErrorCode::SelfApproval)
    } else if proposal.approvals@.contains(approver.wallet) {
        Some(ErrorCode::AlreadyApproved)
    } else if proposal.approvals@.len() >= crate::constants::MAX_ROSTER_LEN {
        Some(ErrorCode::ApprovalsFull)
    } else {
        None
    }
}

/// Adds `approver`'s approval to a pending, unexpired proposal; once the
/// approvals reach the fund's threshold the proposal is approved.
pub fn approve_proposal(fund: &Fund, approver: &Member, proposal: &mut TradeProposal, now: i64) -> (r:
    Result<(), ErrorCode>)
    ensures
        match r {
            Ok(()) => {
                &&& approval_refusal(*fund, *approver, *old(proposal), now) is None
                &&& final(proposal).approvals@ == old(proposal).approvals@.push(approver.wallet)
                &&& *final(proposal) == (TradeProposal {
                    approvals: final(proposal).approvals,
                    status: if final(proposal).approvals@.len() >= fund.required_approvals {
                        ProposalStatus::Approved
                    } else {
                        ProposalStatus::Pending
                    },
                    ..*old(proposal)
                })
            },
            Err(e) => {
                &&& approval_refusal(*fund, *approver, *old(proposal), now) == Some(e)
                &&& *final(proposal) == *old(proposal)
            },
        },
        old(proposal).wf() ==> final(proposal).wf(),
{
    if let Err(e) = check_trading_capability(fund, approver) {
        return Err(e);
    }
    if proposal.status != ProposalStatus::Pending {
        return Err(ErrorCode::ProposalNotPending);
    }
    if now >= proposal.expires_at {
        return Err(ErrorCode::ProposalExpired);
    }
    if approver.wallet == proposal.proposer {
        return Err(ErrorCode::SelfApproval);
    }
    if proposal.approvals.contains(approver.wallet) {
        return Err(ErrorCode::AlreadyApproved);
    }
    if proposal.approvals.is_full() {
        return Err(ErrorCode::ApprovalsFull);
    }
    proposal.approvals.insert(approver.wallet);
    if proposal.approvals.len() >= fund.required_approvals as usize {
        proposal.status = ProposalStatus::Approved;
    }
    Ok(())
}

/// Rejects a pending proposal, expired or not. Authority only.
pub fn reject_proposal(fund: &Fund, caller: Identity, proposal: &mut TradeProposal) -> (r: Result<
    (),
    ErrorCode,
>)
    ensures
        r == (if fund.authority != caller {
            Err(ErrorCode::NotAuthority)
        } else if old(proposal).status != ProposalStatus::Pending {
            Err(ErrorCode::ProposalNotPending)
        } else {
            Ok(())
        }),
        *final(proposal) == (if r is Ok {
            TradeProposal { status: ProposalStatus::Rejected, ..*old(proposal) }
        } else {
            *old(proposal)
        }),
        old(proposal).wf() ==> final(proposal).wf(),
{
    if let Err(e) = check_authority(fund, caller, ErrorCode::NotAuthority) {
        return Err(e);
    }
    if proposal.status != ProposalStatus::Pending {
        return Err(ErrorCode::ProposalNotPending);
    }
    proposal.status = ProposalStatus::Rejected;
    Ok(())
}

/// Marks an approved, unexpired proposal of an active fund as executed. The
/// caller moves `amount` from the vault to the pool and `minimum_out` back,
/// at the price agreed elsewhere; if either move fails, the whole operation
/// is void.
pub fn execute_proposal(fund: &Fund, proposal: &mut TradeProposal, now: i64) -> (r: Result<
    (),
    ErrorCode,
>)
    ensures
        r == (if old(proposal).status != ProposalStatus::Approved {
            Err(ErrorCode::ProposalNotApproved)
        } else if !fund.is_active {
            Err(ErrorCode::FundNotActive)
        } else if now >= old(proposal).expires_at {
            Err(ErrorCode::ProposalExpired)
        } else {
            Ok(())
        }),
        *final(proposal) == (if r is Ok {
            TradeProposal { status: ProposalStatus::Executed, ..*old(proposal) }
        } else {
            *old(proposal)
        }),
        old(proposal).wf() ==> final(proposal).wf(),
{
    if proposal.status != ProposalStatus::Approved {
        return Err(ErrorCode::ProposalNotApproved);
    }
    if let Err(e) = check_fund_active(fund) {
        return Err(e);
    }
    if now >= proposal.expires_at {
        return Err(ErrorCode::ProposalExpired);
    }
    proposal.status = ProposalStatus::Executed;
    Ok(())
}

} // verus!
