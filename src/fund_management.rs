use vstd::prelude::*;

use crate::access::check_authority;
use crate::constants::{BPS_DENOMINATOR, MAX_LABEL_LEN};
use crate::errors::ErrorCode;
use crate::identity::Identity;
use crate::roster::IdentitySet;
use crate::state::{text_fits, text_len, Fund};

verus! {

/// Creates an active, empty fund run by `authority`, with no approved
/// traders and a threshold of one approval.
pub fn initialize_fund(
    authority: Identity,
    group_id: String,
    fund_name: String,
    min_contribution: u64,
    trading_fee_bps: u16,
    bump: u8,
) -> (r: Result<Fund, ErrorCode>)
    ensures
        match r {
            Ok(f) => {
                &&& text_len(group_id@) <= MAX_LABEL_LEN
                &&& text_len(fund_name@) <= MAX_LABEL_LEN
                &&& trading_fee_bps <= BPS_DENOMINATOR
                &&& f.authority == authority
                &&& f.group_id@ == group_id@
                &&& f.fund_name@ == fund_name@
                &&& f.total_shares == 0
                &&& f.total_value == 0
                &&& f.min_contribution == min_contribution
                &&& f.trading_fee_bps == trading_fee_bps
                &&& f.is_active
                &&& f.bump == bump
                &&& f.approved_traders@ == Seq::<Identity>::empty()
                &&& f.required_approvals == 1
                &&& f.next_proposal_id == 0
                &&& f.wf()
            },
            Err(e) => e == (if text_len(group_id@) > MAX_LABEL_LEN || text_len(fund_name@)
                > MAX_LABEL_LEN {
                ErrorCode::TextTooLong
            } else {
                ErrorCode::InvalidFee
            }) && (text_len(group_id@) > MAX_LABEL_LEN || text_len(fund_name@) > MAX_LABEL_LEN
                || trading_fee_bps > BPS_DENOMINATOR),
        },
{
    if !text_fits(&group_id, MAX_LABEL_LEN) || !text_fits(&fund_name, MAX_LABEL_LEN) {
        return Err(ErrorCode::TextTooLong);
    }
    if trading_fee_bps as u64 > BPS_DENOMINATOR {
        return Err(ErrorCode::InvalidFee);
    }
    Ok(
        Fund {
            authority,
            group_id,
            fund_name,
            total_shares: 0,
            total_value: 0,
            min_contribution,
            trading_fee_bps,
            is_active: true,
            bump,
            approved_traders: IdentitySet::new(),
            required_approvals: 1,
            next_proposal_id: 0,
        },
    )
}

/// Whether the authority may close the fund: only once it holds no value
/// and no shares are out.
pub fn close_fund(fund: &Fund, caller: Identity) -> (r: Result<(), ErrorCode>)
    ensures
        r == (if fund.authority != caller {
            Err(ErrorCode::UnauthorizedClose)
        } else if fund.total_value != 0 {
            Err(ErrorCode::FundNotEmpty)
        } else if fund.total_shares != 0 {
            Err(ErrorCode::SharesRemaining)
        } else {
            Ok(())
        }),
{
    if let Err(e) = check_authority(fund, caller, ErrorCode::UnauthorizedClose) {
        return Err(e);
    }
    if fund.total_value != 0 {
        return Err(ErrorCode::FundNotEmpty);
    }
    if fund.total_shares != 0 {
        return Err(ErrorCode::SharesRemaining);
    }
    Ok(())
}

/// Stops contributions, exits and trading until the fund is resumed.
/// Authority only.
pub fn pause_fund(fund: &mut Fund, caller: Identity) -> (r: Result<(), ErrorCode>)
    ensures
        r == (if old(fund).authority == caller {
            Ok::<(), ErrorCode>(())
        } else {
            Err(ErrorCode::NotAuthority)
        }),
        *final(fund) == (if r is Ok {
            Fund { is_active: false, ..*old(fund) }
        } else {
            *old(fund)
        }),
        old(fund).wf() ==> final(fund).wf(),
{
    if let Err(e) = check_authority(fund, caller, ErrorCode::NotAuthority) {
        return Err(e);
    }
    fund.is_active = false;
    Ok(())
}

/// Makes a paused fund active again. Authority only.
pub fn resume_fund(fund: &mut Fund, caller: Identity) -> (r: Result<(), ErrorCode>)
    ensures
        r == (if old(fund).authority == caller {
            Ok::<(), ErrorCode>(())
        } else {
            Err(ErrorCode::NotAuthority)
        }),
        *final(fund) == (if r is Ok {
            Fund { is_active: true, ..*old(fund) }
        } else {
            *old(fund)
        }),
        old(fund).wf() ==> final(fund).wf(),
{
    if let Err(e) = check_authority(fund, caller, ErrorCode::NotAuthority) {
        return Err(e);
    }
    fund.is_active = true;
    Ok(())
}

/// Why the roster change asked by `caller` is refused, if it is.
pub open spec fn roster_change_refusal(fund: Fund, caller: Identity, trader: Identity, add: bool) -> Option<
    ErrorCode,
> {
    if fund.authority != caller {
        Some(ErrorCode::NotAuthority)
    } else if add && fund.approved_traders@.len() >= crate::constants::MAX_ROSTER_LEN {
        Some(ErrorCode::TraderRosterFull)
    } else if add && fund.approved_traders@.contains(trader) {
        Some(ErrorCode::TraderAlreadyApproved)
    } else {
        None
    }
}

/// Adds `trader` to the roster of approved traders (`add`), or takes them
/// off it (removing an absent trader is no error). Authority only.
pub fn manage_trader(fund: &mut Fund, caller: Identity, trader: Identity, add: bool) -> (r: Result<
    (),
    ErrorCode,
>)
    ensures
        match roster_change_refusal(*old(fund), caller, trader, add) {
            Some(e) => r == Err::<(), ErrorCode>(e) && *final(fund) == *old(fund),
            None => {
                &&& r is Ok
                &&& final(fund).approved_traders@ == if add {
                    old(fund).approved_traders@.push(trader)
                } else {
                    old(fund).approved_traders@.remove_value(trader)
                }
                &&& *final(fund) == (Fund {
                    approved_traders: final(fund).approved_traders,
                    ..*old(fund)
                })
            },
        },
        old(fund).wf() ==> final(fund).wf(),
{
    if let Err(e) = check_authority(fund, caller, ErrorCode::NotAuthority) {
        return Err(e);
    }
    if add {
        if fund.approved_traders.is_full() {
            return Err(ErrorCode::TraderRosterFull);
        }
        if fund.approved_traders.contains(trader) {
            return Err(ErrorCode::TraderAlreadyApproved);
        }
        fund.approved_traders.insert(trader);
    } else {
        fund.approved_traders.remove(trader);
    }
    Ok(())
}

/// Sets how many approvals a proposal needs: at least one, and no more than
/// there are approved traders. Authority only.
pub fn set_approval_threshold(fund: &mut Fund, caller: Identity, n: u8) -> (r: Result<
    (),
    ErrorCode,
>)
    ensures
        r == (if old(fund).authority != caller {
            Err(ErrorCode::NotAuthority)
        } else if n < 1 || n > old(fund).approved_traders@.len() {
            Err(ErrorCode::InvalidThreshold)
        } else {
            Ok(())
        }),
        *final(fund) == (if r is Ok {
            Fund { required_approvals: n, ..*old(fund) }
        } else {
            *old(fund)
        }),
        old(fund).wf() ==> final(fund).wf(),
{
    if let Err(e) = check_authority(fund, caller, ErrorCode::NotAuthority) {
        return Err(e);
    }
    if n < 1 || n as usize > fund.approved_traders.len() {
        return Err(ErrorCode::InvalidThreshold);
    }
    fund.required_approvals = n;
    Ok(())
}

} // verus!
