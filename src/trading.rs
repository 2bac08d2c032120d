use vstd::prelude::*;

use crate::access::{check_authority, check_fund_active, check_trading_capability, trading_refusal};
use crate::constants::MAX_DESCRIPTION_LEN;
use crate::errors::ErrorCode;
use crate::identity::Identity;
use crate::shares::{pnl_of, trade_pnl};
use crate::state::{text_fits, text_len, Fund, Member};

verus! {

/// A trade that a trader opened for the pool; its result is settled once.
#[derive(Clone, Debug)]
pub struct Trade {
    pub trader: Identity,
    pub description: String,
    pub amount: u64,
    /// The outcome the trader expects, in basis points; for information only.
    pub expected_outcome: i64,
    /// The outcome at settlement, in basis points.
    pub actual_pnl: i64,
    pub timestamp: i64,
    pub is_settled: bool,
}

/// `value` moved by `delta`, if the result is a `u64`: below zero the pool
/// cannot cover it, above the range it overflows.
pub open spec fn shifted_value(value: u64, delta: int) -> Result<u64, ErrorCode> {
    if value + delta < 0 {
        Err(ErrorCode::InsufficientFunds)
    } else if value + delta > u64::MAX {
        Err(ErrorCode::ArithmeticOverflow)
    } else {
        Ok((value + delta) as u64)
    }
}

/// The fund's value after a swap that sent `amount_in` and brought back
/// `amount_out`, recorded by the authority, or why it is refused.
pub open spec fn swap_result(fund: Fund, caller: Identity, amount_in: u64, amount_out: u64) -> Result<
    u64,
    ErrorCode,
> {
    if !fund.is_active {
        Err(ErrorCode::FundNotActive)
    } else if fund.authority != caller {
        Err(ErrorCode::UnauthorizedTrader)
    } else if fund.total_value < amount_in {
        Err(ErrorCode::InsufficientFunds)
    } else if fund.total_value - amount_in + amount_out > u64::MAX {
        Err(ErrorCode::ArithmeticOverflow)
    } else {
        Ok((fund.total_value - amount_in + amount_out) as u64)
    }
}

/// Records a swap done elsewhere: `amount_in` left the pool and `amount_out`
/// came back. Only the fund's value changes.
pub fn record_swap(fund: &mut Fund, caller: Identity, amount_in: u64, amount_out: u64) -> (r: Result<
    (),
    ErrorCode,
>)
    ensures
        match swap_result(*old(fund), caller, amount_in, amount_out) {
            Ok(v) => r is Ok && *final(fund) == (Fund { total_value: v, ..*old(fund) }),
            Err(e) => r == Err::<(), ErrorCode>(e) && *final(fund) == *old(fund),
        },
        old(fund).wf() ==> final(fund).wf(),
{
    if let Err(e) = check_fund_active(fund) {
        return Err(e);
    }
    if let Err(e) = check_authority(fund, caller, ErrorCode::UnauthorizedTrader) {
        return Err(e);
    }
    let after_in = match fund.total_value.checked_sub(amount_in) {
        Some(v) => v,
        None => return Err(ErrorCode::InsufficientFunds),
    };
    let after_out = match after_in.checked_add(amount_out) {
        Some(v) => v,
        None => return Err(ErrorCode::ArithmeticOverflow),
    };
    fund.total_value = after_out;
    Ok(())
}

/// Books a simulated swap of `amount` for `minimum_out` without moving any
/// value: the fund's recorded value changes as if it had happened.
pub fn execute_trade_mock(fund: &mut Fund, caller: Identity, amount: u64, minimum_out: u64) -> (r:
    Result<(), ErrorCode>)
    ensures
        match swap_result(*old(fund), caller, amount, minimum_out) {
            Ok(v) => r is Ok && *final(fund) == (Fund { total_value: v, ..*old(fund) }),
            Err(e) => r == Err::<(), ErrorCode>(e) && *final(fund) == *old(fund),
        },
        old(fund).wf() ==> final(fund).wf(),
{
    if let Err(e) = check_fund_active(fund) {
        return Err(e);
    }
    if let Err(e) = check_authority(fund, caller, ErrorCode::UnauthorizedTrader) {
        return Err(e);
    }
    if amount > fund.total_value {
        return Err(ErrorCode::InsufficientFunds);
    }
    let after = match (fund.total_value - amount).checked_add(minimum_out) {
        Some(v) => v,
        None => return Err(ErrorCode::ArithmeticOverflow),
    };
    fund.total_value = after;
    Ok(())
}

/// Whether the authority may send `amount_in` from a vault that holds
/// `vault_balance` to an outside swap; the swap itself happens elsewhere.
pub fn execute_jupiter_swap(fund: &Fund, caller: Identity, amount_in: u64, vault_balance: u64) -> (r:
    Result<(), ErrorCode>)
    ensures
        r == (if !fund.is_active {
            Err(ErrorCode::FundNotActive)
        } else if fund.authority != caller {
            Err(ErrorCode::UnauthorizedTrader)
        } else if amount_in > vault_balance {
            Err(ErrorCode::InsufficientFunds)
        } else {
            Ok(())
        }),
{
    if let Err(e) = check_fund_active(fund) {
        return Err(e);
    }
    if let Err(e) = check_authority(fund, caller, ErrorCode::UnauthorizedTrader) {
        return Err(e);
    }
    if amount_in > vault_balance {
        return Err(ErrorCode::InsufficientFunds);
    }
    Ok(())
}

/// Why `trader` may not open a trade of `amount` described by `description`
/// on `fund`, if they may not.
pub open spec fn trade_refusal(fund: Fund, trader: Member, description: Seq<char>, amount: u64) -> Option<
    ErrorCode,
> {
    if !fund.is_active {
        Some(ErrorCode::FundNotActive)
    } else if trading_refusal(fund, trader) is Some {
        trading_refusal(fund, trader)
    } else if text_len(description) > MAX_DESCRIPTION_LEN {
        Some(ErrorCode::TextTooLong)
    } else if amount > fund.total_value {
        Some(ErrorCode::InsufficientFunds)
    } else {
        None
    }
}

/// Opens an unsettled trade record for `trader`; no value moves.
pub fn execute_trade(
    fund: &Fund,
    trader: &Member,
    description: String,
    amount: u64,
    expected_outcome: i64,
    now: i64,
) -> (r: Result<Trade, ErrorCode>)
    ensures
        match r {
            Ok(t) => {
                &&& trade_refusal(*fund, *trader, description@, amount) is None
                &&& t.trader == trader.wallet
                &&& t.description@ == description@
                &&& t.amount == amount
                &&& t.expected_outcome == expected_outcome
                &&& t.actual_pnl == 0
                &&& t.timestamp == now
                &&& !t.is_settled
            },
            Err(e) => trade_refusal(*fund, *trader, description@, amount) == Some(e),
        },
{
    if let Err(e) = check_fund_active(fund) {
        return Err(e);
    }
    if let Err(e) = check_trading_capability(fund, trader) {
        return Err(e);
    }
    if !text_fits(&description, MAX_DESCRIPTION_LEN) {
        return Err(ErrorCode::TextTooLong);
    }
    if amount > fund.total_value {
        return Err(ErrorCode::InsufficientFunds);
    }
    Ok(
        Trade {
            trader: trader.wallet,
            description,
            amount,
            expected_outcome,
            actual_pnl: 0,
            timestamp: now,
            is_settled: false,
        },
    )
}

/// A trader's reputation after a trade that returned `actual_pnl` basis
/// points: a gain adds a tenth of it, a loss or a flat trade takes away a
/// fifth of its size, and the score stays within `0..=u64::MAX`.
pub open spec fn reputation_after(score: u64, actual_pnl: i64) -> u64 {
    if actual_pnl > 0 {
        if score + actual_pnl / 10 > u64::MAX {
            u64::MAX
        } else {
            (score + actual_pnl / 10) as u64
        }
    } else {
        if score - (-actual_pnl) / 5 < 0 {
            0
        } else {
            (score - (-actual_pnl) / 5) as u64
        }
    }
}

/// The books after `trade` is settled at `actual_pnl` basis points, with the
/// value gained or lost, or why the settlement is refused.
pub open spec fn settlement(
    fund: Fund,
    trader: Member,
    trade: Trade,
    caller: Identity,
    actual_pnl: i64,
) -> Result<(Fund, Member, Trade, int), ErrorCode> {
    if fund.authority != caller {
        Err(ErrorCode::NotAuthority)
    } else if trade.is_settled {
        Err(ErrorCode::TradeAlreadySettled)
    } else {
        let pnl = pnl_of(trade.amount, actual_pnl);
        match shifted_value(fund.total_value, pnl) {
            Err(e) => Err(e),
            Ok(value) => {
                if actual_pnl > 0 && trader.successful_trades == u32::MAX {
                    Err(ErrorCode::ArithmeticOverflow)
                } else if actual_pnl <= 0 && trader.failed_trades == u32::MAX {
                    Err(ErrorCode::ArithmeticOverflow)
                } else {
                    Ok(
                        (
                            Fund { total_value: value, ..fund },
                            Member {
                                successful_trades: if actual_pnl > 0 {
                                    (trader.successful_trades + 1) as u32
                                } else {
                                    trader.successful_trades
                                },
                                failed_trades: if actual_pnl > 0 {
                                    trader.failed_trades
                                } else {
                                    (trader.failed_trades + 1) as u32
                                },
                                reputation_score: reputation_after(
                                    trader.reputation_score,
                                    actual_pnl,
                                ),
                                ..trader
                            },
                            Trade { actual_pnl, is_settled: true, ..trade },
                            pnl,
                        ),
                    )
                }
            },
        }
    }
}

/// Settles `trade` at `actual_pnl` basis points: the value gained or lost,
/// rounded toward zero, goes straight to the fund's value, and the trader's
/// record and reputation are updated. Returns that value. Authority only, and
/// once per trade.
pub fn settle_trade(
    fund: &mut Fund,
    trader: &mut Member,
    trade: &mut Trade,
    caller: Identity,
    actual_pnl: i64,
) -> (r: Result<i128, ErrorCode>)
    ensures
        settlement(*old(fund), *old(trader), *old(trade), caller, actual_pnl) == (match r {
            Ok(pnl) => Ok((*final(fund), *final(trader), *final(trade), pnl as int)),
            Err(e) => Err(e),
        }),
        r is Err ==> *final(fund) == *old(fund) && *final(trader) == *old(trader) && *final(trade)
            == *old(trade),
        old(fund).wf() ==> final(fund).wf(),
        old(trader).wf() ==> final(trader).wf(),
{
    if let Err(e) = check_authority(fund, caller, ErrorCode::NotAuthority) {
        return Err(e);
    }
    if trade.is_settled {
        return Err(ErrorCode::TradeAlreadySettled);
    }
    let pnl = trade_pnl(trade.amount, actual_pnl);
    let value = (fund.total_value as i128) + pnl;
    if value < 0 {
        return Err(ErrorCode::InsufficientFunds);
    }
    if value > u64::MAX as i128 {
        return Err(ErrorCode::ArithmeticOverflow);
    }
    if actual_pnl > 0 {
        if trader.successful_trades == u32::MAX {
            return Err(ErrorCode::ArithmeticOverflow);
        }
        trader.successful_trades = trader.successful_trades + 1;
        trader.reputation_score = trader.reputation_score.saturating_add((actual_pnl as u64) / 10);
    } else {
        if trader.failed_trades == u32::MAX {
            return Err(ErrorCode::ArithmeticOverflow);
        }
        trader.failed_trades = trader.failed_trades + 1;
        let loss = (-(actual_pnl as i128)) as u64;
        trader.reputation_score = trader.reputation_score.saturating_sub(loss / 5);
    }
    fund.total_value = value as u64;
    trade.actual_pnl = actual_pnl;
    trade.is_settled = true;
    Ok(pnl)
}

} // verus!
