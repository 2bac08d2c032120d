use vstd::prelude::*;

use crate::errors::ErrorCode;
use crate::identity::Identity;
use crate::state::{Fund, Member, Role};

verus! {

/// Why `member` may not trade for `fund`, if they may not: trading takes a
/// trading role and a place on the fund's roster, the role alone is not enough.
pub open spec fn trading_refusal(fund: Fund, member: Member) -> Option<ErrorCode> {
    if member.role == Role::Contributor {
        Some(ErrorCode::InsufficientRole)
    } else if !fund.approved_traders@.contains(member.wallet) {
        Some(ErrorCode::NotApprovedTrader)
    } else {
        None
    }
}

/// `Err(e)` for `Some(e)`, `Ok(())` for `None`.
pub open spec fn refusal_result(refusal: Option<ErrorCode>) -> Result<(), ErrorCode> {
    match refusal {
        Some(e) => Err(e),
        None => Ok(()),
    }
}

/// Passes when `caller` is the fund's authority, else fails with `err`.
pub fn check_authority(fund: &Fund, caller: Identity, err: ErrorCode) -> (r: Result<(), ErrorCode>)
    ensures
        r == (if fund.authority == caller {
            Ok::<(), ErrorCode>(())
        } else {
            Err(err)
        }),
{
    if fund.authority == caller {
        Ok(())
    } else {
        Err(err)
    }
}

pub fn check_fund_active(fund: &Fund) -> (r: Result<(), ErrorCode>)
    ensures
        r == (if fund.is_active {
            Ok::<(), ErrorCode>(())
        } else {
            Err(ErrorCode::FundNotActive)
        }),
{
    if fund.is_active {
        Ok(())
    } else {
        Err(ErrorCode::FundNotActive)
    }
}

pub fn check_member_active(member: &Member) -> (r: Result<(), ErrorCode>)
    ensures
        r == (if member.is_active {
            Ok::<(), ErrorCode>(())
        } else {
            Err(ErrorCode::MemberNotActive)
        }),
{
    if member.is_active {
        Ok(())
    } else {
        Err(ErrorCode::MemberNotActive)
    }
}

/// Passes when `member` holds a trading role and is on the fund's roster.
pub fn check_trading_capability(fund: &Fund, member: &Member) -> (r: Result<(), ErrorCode>)
    ensures
        r == refusal_result(trading_refusal(*fund, *member)),
{
    match member.role {
        Role::Contributor => Err(ErrorCode::InsufficientRole),
        Role::Trader | Role::Manager => {
            if fund.approved_traders.contains(member.wallet) {
                Ok(())
            } else {
                Err(ErrorCode::NotApprovedTrader)
            }
        },
    }
}

} // verus!
