use vstd::prelude::*;

use crate::errors::ErrorCode;
use crate::shares::{fee_for, fee_on, share_value, value_of_shares};
use crate::state::{Fund, Member};

verus! {

/// What an exit paid a member, and how it was arrived at.
#[derive(Clone, Copy, Debug, PartialEq, Eq, Structural)]
pub struct Payout {
    /// The member's holding at the fund's price.
    pub holding_value: u64,
    /// The fee kept back from the profit; it stays in the vault.
    pub fee: u64,
    /// What the member is paid.
    pub amount: u64,
}

/// What a full exit pays for a holding worth `current` with cost basis
/// `contributed`: the whole holding less the fee on its profit, if any.
pub open spec fn exit_payout(current: u64, contributed: u64, bps: u16) -> Option<Payout> {
    if current > contributed {
        match fee_on((current - contributed) as u64, bps) {
            None => None,
            Some(fee) => if fee > current {
                None
            } else {
                Some(Payout { holding_value: current, fee, amount: (current - fee) as u64 })
            },
        }
    } else {
        Some(Payout { holding_value: current, fee: 0, amount: current })
    }
}

/// The books after `member` leaves `fund` with all their shares, and what they
/// are paid, or why the exit is refused. `vault_balance` is what the vault holds.
pub open spec fn value_distribution(fund: Fund, member: Member, vault_balance: u64) -> Result<
    (Fund, Member, Payout),
    ErrorCode,
> {
    if !fund.is_active {
        Err(ErrorCode::FundNotActive)
    } else if !member.is_active {
        Err(ErrorCode::MemberNotActive)
    } else if member.shares == 0 {
        Err(ErrorCode::InsufficientShares)
    } else if fund.total_shares == 0 {
        Err(ErrorCode::SharesRemaining)
    } else {
        match share_value(member.shares, fund.total_value, fund.total_shares) {
            None => Err(ErrorCode::ArithmeticOverflow),
            Some(current) => {
                if current == 0 {
                    Err(ErrorCode::InsufficientFunds)
                } else {
                    match exit_payout(current, member.total_contributed, fund.trading_fee_bps) {
                        None => Err(ErrorCode::ArithmeticOverflow),
                        Some(payout) => {
                            if vault_balance < payout.amount {
                                Err(ErrorCode::InsufficientFunds)
                            } else if fund.total_value < payout.amount || fund.total_shares
                                < member.shares {
                                Err(ErrorCode::ArithmeticOverflow)
                            } else {
                                Ok(
                                    (
                                        Fund {
                                            total_value: (fund.total_value
                                                - payout.amount) as u64,
                                            total_shares: (fund.total_shares
                                                - member.shares) as u64,
                                            ..fund
                                        },
                                        Member { shares: 0, ..member },
                                        payout,
                                    ),
                                )
                            }
                        },
                    }
                }
            },
        }
    }
}

/// What `member` is paid out of the profit on their holding, shares kept, or
/// why nothing is. `vault_balance` is what the vault holds.
pub open spec fn profit_distribution(fund: Fund, member: Member, vault_balance: u64) -> Result<
    Payout,
    ErrorCode,
> {
    if !fund.is_active {
        Err(ErrorCode::FundNotActive)
    } else if !member.is_active {
        Err(ErrorCode::MemberNotActive)
    } else if member.shares == 0 {
        Err(ErrorCode::InsufficientShares)
    } else if fund.total_shares == 0 {
        Err(ErrorCode::SharesRemaining)
    } else {
        match share_value(member.shares, fund.total_value, fund.total_shares) {
            None => Err(ErrorCode::ArithmeticOverflow),
            Some(current) => {
                if current <= member.total_contributed {
                    Err(ErrorCode::NoProfit)
                } else {
                    let profit = (current - member.total_contributed) as u64;
                    match fee_on(profit, fund.trading_fee_bps) {
                        None => Err(ErrorCode::ArithmeticOverflow),
                        Some(fee) => {
                            if fee > profit {
                                Err(ErrorCode::ArithmeticOverflow)
                            } else if vault_balance < profit - fee {
                                Err(ErrorCode::InsufficientFunds)
                            } else {
                                Ok(
                                    Payout {
                                        holding_value: current,
                                        fee,
                                        amount: (profit - fee) as u64,
                                    },
                                )
                            }
                        },
                    }
                }
            },
        }
    }
}

/// Pays `member` out in full: burns all their shares and pays their holding's
/// value less the fee on its profit. The fee is not taken out of the fund's
/// value: it stays in the vault for the members who remain. The caller moves
/// the payout out of the vault.
pub fn distribute_value(fund: &mut Fund, member: &mut Member, vault_balance: u64) -> (r: Result<
    Payout,
    ErrorCode,
>)
    ensures
        value_distribution(*old(fund), *old(member), vault_balance) == (match r {
            Ok(p) => Ok((*final(fund), *final(member), p)),
            Err(e) => Err(e),
        }),
        r is Err ==> *final(fund) == *old(fund) && *final(member) == *old(member),
        old(fund).wf() ==> final(fund).wf(),
        old(member).wf() ==> final(member).wf(),
{
    if !fund.is_active {
        return Err(ErrorCode::FundNotActive);
    }
    if !member.is_active {
        return Err(ErrorCode::MemberNotActive);
    }
    if member.shares == 0 {
        return Err(ErrorCode::InsufficientShares);
    }
    if fund.total_shares == 0 {
        return Err(ErrorCode::SharesRemaining);
    }
    let current = match value_of_shares(member.shares, fund.total_value, fund.total_shares) {
        Some(v) => v,
        None => return Err(ErrorCode::ArithmeticOverflow),
    };
    if current == 0 {
        return Err(ErrorCode::InsufficientFunds);
    }
    let payout = if current > member.total_contributed {
        let fee = match fee_for(current - member.total_contributed, fund.trading_fee_bps) {
            Some(f) => f,
            None => return Err(ErrorCode::ArithmeticOverflow),
        };
        if fee > current {
            return Err(ErrorCode::ArithmeticOverflow);
        }
        Payout { holding_value: current, fee, amount: current - fee }
    } else {
        Payout { holding_value: current, fee: 0, amount: current }
    };
    if vault_balance < payout.amount {
        return Err(ErrorCode::InsufficientFunds);
    }
    if fund.total_value < payout.amount || fund.total_shares < member.shares {
        return Err(ErrorCode::ArithmeticOverflow);
    }
    fund.total_value = fund.total_value - payout.amount;
    fund.total_shares = fund.total_shares - member.shares;
    member.shares = 0;
    Ok(payout)
}

/// Pays `member` the profit on their holding less the fee, and keeps their
/// shares, their cost basis and the fund's totals as they are. The caller
/// moves the payout out of the vault.
pub fn distribute_profits(fund: &Fund, member: &Member, vault_balance: u64) -> (r: Result<
    Payout,
    ErrorCode,
>)
    ensures
        r == profit_distribution(*fund, *member, vault_balance),
{
    if !fund.is_active {
        return Err(ErrorCode::FundNotActive);
    }
    if !member.is_active {
        return Err(ErrorCode::MemberNotActive);
    }
    if member.shares == 0 {
        return Err(ErrorCode::InsufficientShares);
    }
    if fund.total_shares == 0 {
        return Err(ErrorCode::SharesRemaining);
    }
    let current = match value_of_shares(member.shares, fund.total_value, fund.total_shares) {
        Some(v) => v,
        None => return Err(ErrorCode::ArithmeticOverflow),
    };
    if current <= member.total_contributed {
        return Err(ErrorCode::NoProfit);
    }
    let profit = current - member.total_contributed;
    let fee = match fee_for(profit, fund.trading_fee_bps) {
        Some(f) => f,
        None => return Err(ErrorCode::ArithmeticOverflow),
    };
    if fee > profit {
        return Err(ErrorCode::ArithmeticOverflow);
    }
    if vault_balance < profit - fee {
        return Err(ErrorCode::InsufficientFunds);
    }
    Ok(Payout { holding_value: current, fee, amount: profit - fee })
}

} // verus!
