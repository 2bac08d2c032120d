use vstd::prelude::*;

use crate::errors::ErrorCode;
use crate::shares::{minted_shares, mint_for_contribution, share_value, value_of_shares};
use crate::state::{Fund, Member};

verus! {

/// The books after `member` puts `amount` into `fund`, with the shares minted
/// for it, or why the contribution is refused.
pub open spec fn contribution(fund: Fund, member: Member, amount: u64) -> Result<
    (Fund, Member, u64),
    ErrorCode,
> {
    if !fund.is_active {
        Err(ErrorCode::FundNotActive)
    } else if !member.is_active {
        Err(ErrorCode::MemberNotActive)
    } else if amount < fund.min_contribution {
        Err(ErrorCode::BelowMinContribution)
    } else {
        match minted_shares(amount, fund.total_shares, fund.total_value) {
            None => Err(ErrorCode::ArithmeticOverflow),
            Some(minted) => {
                if member.shares + minted > u64::MAX || member.total_contributed + amount
                    > u64::MAX || fund.total_shares + minted > u64::MAX || fund.total_value
                    + amount > u64::MAX {
                    Err(ErrorCode::ArithmeticOverflow)
                } else {
                    Ok(
                        (
                            Fund {
                                total_shares: (fund.total_shares + minted) as u64,
                                total_value: (fund.total_value + amount) as u64,
                                ..fund
                            },
                            Member {
                                shares: (member.shares + minted) as u64,
                                total_contributed: (member.total_contributed + amount) as u64,
                                ..member
                            },
                            minted,
                        ),
                    )
                }
            },
        }
    }
}

/// The books after `member` burns `shares_to_burn` of their shares, with the
/// value paid out for them, or why the withdrawal is refused.
pub open spec fn withdrawal(fund: Fund, member: Member, shares_to_burn: u64) -> Result<
    (Fund, Member, u64),
    ErrorCode,
> {
    if member.shares < shares_to_burn {
        Err(ErrorCode::InsufficientShares)
    } else {
        match share_value(shares_to_burn, fund.total_value, fund.total_shares) {
            None => Err(ErrorCode::ArithmeticOverflow),
            Some(payout) => {
                if fund.total_shares < shares_to_burn || fund.total_value < payout {
                    Err(ErrorCode::ArithmeticOverflow)
                } else {
                    Ok(
                        (
                            Fund {
                                total_shares: (fund.total_shares - shares_to_burn) as u64,
                                total_value: (fund.total_value - payout) as u64,
                                ..fund
                            },
                            Member { shares: (member.shares - shares_to_burn) as u64, ..member },
                            payout,
                        ),
                    )
                }
            },
        }
    }
}

/// Puts `amount` into the fund for `member` and mints shares for it at the
/// prevailing price. Returns the shares minted. The caller moves `amount` into
/// the vault; if that move fails, the whole operation is void.
pub fn contribute(fund: &mut Fund, member: &mut Member, amount: u64) -> (r: Result<u64, ErrorCode>)
    ensures
        contribution(*old(fund), *old(member), amount) == (match r {
            Ok(minted) => Ok((*final(fund), *final(member), minted)),
            Err(e) => Err(e),
        }),
        r is Err ==> *final(fund) == *old(fund) && *final(member) == *old(member),
        old(fund).wf() ==> final(fund).wf(),
        old(member).wf() ==> final(member).wf(),
{
    if !fund.is_active {
        return Err(ErrorCode::FundNotActive);
    }
    if !member.is_active {
        return Err(ErrorCode::MemberNotActive);
    }
    if amount < fund.min_contribution {
        return Err(ErrorCode::BelowMinContribution);
    }
    let minted = match mint_for_contribution(amount, fund.total_shares, fund.total_value) {
        Some(m) => m,
        None => return Err(ErrorCode::ArithmeticOverflow),
    };
    let (member_shares, contributed, total_shares, total_value) = match (
        member.shares.checked_add(minted),
        member.total_contributed.checked_add(amount),
        fund.total_shares.checked_add(minted),
        fund.total_value.checked_add(amount),
    ) {
        (Some(a), Some(b), Some(c), Some(d)) => (a, b, c, d),
        _ => return Err(ErrorCode::ArithmeticOverflow),
    };
    member.shares = member_shares;
    member.total_contributed = contributed;
    fund.total_shares = total_shares;
    fund.total_value = total_value;
    Ok(minted)
}

/// Burns `shares_to_burn` of `member`'s shares and returns what they were
/// worth, which the caller pays out of the vault.
pub fn withdraw(fund: &mut Fund, member: &mut Member, shares_to_burn: u64) -> (r: Result<
    u64,
    ErrorCode,
>)
    ensures
        withdrawal(*old(fund), *old(member), shares_to_burn) == (match r {
            Ok(payout) => Ok((*final(fund), *final(member), payout)),
            Err(e) => Err(e),
        }),
        r is Err ==> *final(fund) == *old(fund) && *final(member) == *old(member),
        old(fund).wf() ==> final(fund).wf(),
        old(member).wf() ==> final(member).wf(),
{
    if member.shares < shares_to_burn {
        return Err(ErrorCode::InsufficientShares);
    }
    let payout = match value_of_shares(shares_to_burn, fund.total_value, fund.total_shares) {
        Some(p) => p,
        None => return Err(ErrorCode::ArithmeticOverflow),
    };
    if fund.total_shares < shares_to_burn || fund.total_value < payout {
        return Err(ErrorCode::ArithmeticOverflow);
    }
    member.shares = member.shares - shares_to_burn;
    fund.total_shares = fund.total_shares - shares_to_burn;
    fund.total_value = fund.total_value - payout;
    Ok(payout)
}

} // verus!
