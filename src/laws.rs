//! Properties that relate several operations, or hold over every state that
//! the operations can reach.
use vstd::prelude::*;

use crate::contributions::{contribution, withdrawal};
use crate::distribution::value_distribution;
use crate::errors::ErrorCode;
use crate::state::{Fund, Member};

verus! {

/// The shares held over `members`.
pub open spec fn shares_held(members: Seq<Member>) -> int
    decreases members.len(),
{
    if members.len() == 0 {
        0
    } else {
        shares_held(members.drop_last()) + members.last().shares
    }
}

/// The fund's share total is the sum of its members' shares.
pub open spec fn shares_balanced(fund: Fund, members: Seq<Member>) -> bool {
    fund.total_shares == shares_held(members)
}

proof fn lemma_shares_held_update(members: Seq<Member>, i: int, m: Member)
    requires
        0 <= i < members.len(),
    ensures
        shares_held(members.update(i, m)) == shares_held(members) - members[i].shares + m.shares,
    decreases members.len(),
{
    if i == members.len() - 1 {
        assert(members.update(i, m).drop_last() =~= members.drop_last());
    } else {
        lemma_shares_held_update(members.drop_last(), i, m);
        assert(members.update(i, m).drop_last() =~= members.drop_last().update(i, m));
    }
}

/// A fund with no members yet, as `initialize_fund` makes it, is balanced.
pub proof fn lemma_new_fund_balanced(fund: Fund)
    requires
        fund.total_shares == 0,
    ensures
        shares_balanced(fund, Seq::<Member>::empty()),
{
}

/// Registering a member, who starts with no shares, keeps the fund balanced.
pub proof fn lemma_add_member_keeps_balance(fund: Fund, members: Seq<Member>, new_member: Member)
    requires
        shares_balanced(fund, members),
        new_member.shares == 0,
    ensures
        shares_balanced(fund, members.push(new_member)),
{
    assert(members.push(new_member).drop_last() =~= members);
}

/// An operation that changes neither the fund's share total nor the shares
/// of the member it touches keeps the fund balanced: pausing, resuming,
/// roster and threshold changes, role changes, swaps, settlements, proposals.
pub proof fn lemma_share_neutral_step_keeps_balance(
    fund: Fund,
    members: Seq<Member>,
    i: int,
    new_fund: Fund,
    new_member: Member,
)
    requires
        shares_balanced(fund, members),
        0 <= i < members.len(),
        new_fund.total_shares == fund.total_shares,
        new_member.shares == members[i].shares,
    ensures
        shares_balanced(new_fund, members.update(i, new_member)),
{
    lemma_shares_held_update(members, i, new_member);
}

/// A contribution by any member keeps the fund balanced.
pub proof fn lemma_contribute_keeps_balance(fund: Fund, members: Seq<Member>, i: int, amount: u64)
    requires
        shares_balanced(fund, members),
        0 <= i < members.len(),
    ensures
        match contribution(fund, members[i], amount) {
            Ok((f, m, _)) => shares_balanced(f, members.update(i, m)),
            Err(_) => true,
        },
{
    if let Ok((f, m, _)) = contribution(fund, members[i], amount) {
        lemma_shares_held_update(members, i, m);
    }
}

/// A withdrawal by any member keeps the fund balanced.
pub proof fn lemma_withdraw_keeps_balance(fund: Fund, members: Seq<Member>, i: int, shares: u64)
    requires
        shares_balanced(fund, members),
        0 <= i < members.len(),
    ensures
        match withdrawal(fund, members[i], shares) {
            Ok((f, m, _)) => shares_balanced(f, members.update(i, m)),
            Err(_) => true,
        },
{
    if let Ok((f, m, _)) = withdrawal(fund, members[i], shares) {
        lemma_shares_held_update(members, i, m);
    }
}

/// A full exit by any member keeps the fund balanced.
pub proof fn lemma_distribute_value_keeps_balance(
    fund: Fund,
    members: Seq<Member>,
    i: int,
    vault_balance: u64,
)
    requires
        shares_balanced(fund, members),
        0 <= i < members.len(),
    ensures
        match value_distribution(fund, members[i], vault_balance) {
            Ok((f, m, _)) => shares_balanced(f, members.update(i, m)),
            Err(_) => true,
        },
{
    if let Ok((f, m, _)) = value_distribution(fund, members[i], vault_balance) {
        lemma_shares_held_update(members, i, m);
    }
}

/// A contribution into a fund with shares out keeps the price of a share:
/// it never falls, and it rises by less than the value of one share minted
/// more, which is the rounding of the mint.
pub proof fn lemma_contribution_keeps_price(fund: Fund, member: Member, amount: u64)
    requires
        fund.total_shares > 0,
    ensures
        match contribution(fund, member, amount) {
            Ok((f, _, _)) => {
                &&& fund.total_value * f.total_shares <= f.total_value * fund.total_shares
                &&& f.total_value * fund.total_shares < fund.total_value * (f.total_shares + 1)
            },
            Err(_) => true,
        },
{
    if let Ok((f, _, minted)) = contribution(fund, member, amount) {
        let s = fund.total_shares as int;
        let v = fund.total_value as int;
        let a = amount as int;
        let m = minted as int;
        assert(m == a * s / v);
        assert(v * m <= a * s < v * (m + 1)) by (nonlinear_arith)
            requires
                v > 0,
                m == a * s / v,
        ;
        assert(v * (s + m) <= (v + a) * s) by (nonlinear_arith)
            requires
                v * m <= a * s,
        ;
        assert((v + a) * s < v * (s + m + 1)) by (nonlinear_arith)
            requires
                a * s < v * (m + 1),
        ;
    }
}

/// Contributing and then withdrawing every share that the contribution
/// minted returns no more than was put in, and exactly that when the mint
/// did not round. This needs a fund whose value is priced by shares: one
/// with value left but no shares out hands that value to the next member in.
pub proof fn lemma_contribute_then_withdraw(fund: Fund, member: Member, amount: u64)
    requires
        fund.total_shares > 0 || fund.total_value == 0,
    ensures
        match contribution(fund, member, amount) {
            Ok((f, m, minted)) => {
                &&& f.total_shares > 0 ==> withdrawal(f, m, minted) is Ok
                &&& match withdrawal(f, m, minted) {
                    Ok((_, _, payout)) => {
                        &&& payout <= amount
                        &&& (fund.total_shares == 0 || (amount * fund.total_shares)
                            % (fund.total_value as int) == 0) ==> payout == amount
                    },
                    Err(_) => true,
                }
            },
            Err(_) => true,
        },
{
    if let Ok((f, m, minted)) = contribution(fund, member, amount) {
        let s = fund.total_shares as int;
        let v = fund.total_value as int;
        let a = amount as int;
        let k = minted as int;
        if s == 0 {
            assert(k == a);
            if a > 0 {
                assert(a * a / a == a) by (nonlinear_arith)
                    requires
                        a > 0,
                ;
            }
        } else {
            assert(k == a * s / v);
            assert(v * k <= a * s) by (nonlinear_arith)
                requires
                    v > 0,
                    k == a * s / v,
            ;
            assert(k * (v + a) <= a * (s + k)) by (nonlinear_arith)
                requires
                    v * k <= a * s,
            ;
            assert(k * (v + a) / (s + k) <= a) by (nonlinear_arith)
                requires
                    k * (v + a) <= a * (s + k),
                    s + k > 0,
            ;
            assert(0 <= k * (v + a) / (s + k)) by (nonlinear_arith)
                requires
                    k >= 0,
                    v + a >= 0,
                    s + k > 0,
            ;
            if (a * s) % v == 0 {
                assert(v * k == a * s) by (nonlinear_arith)
                    requires
                        v > 0,
                        k == a * s / v,
                        (a * s) % v == 0,
                ;
                assert(k * (v + a) == a * (s + k)) by (nonlinear_arith)
                    requires
                        v * k == a * s,
                ;
                assert(k * (v + a) / (s + k) == a) by (nonlinear_arith)
                    requires
                        k * (v + a) == a * (s + k),
                        s + k > 0,
                ;
            }
        }
    }
}

/// A second full exit right after a first one fails for want of shares: the
/// first burned them all.
pub proof fn lemma_second_exit_fails(fund: Fund, member: Member, vault_first: u64, vault_second: u64)
    ensures
        match value_distribution(fund, member, vault_first) {
            Ok((f, m, _)) => value_distribution(f, m, vault_second) == Err::<
                (Fund, Member, crate::distribution::Payout),
                ErrorCode,
            >(ErrorCode::InsufficientShares),
            Err(_) => true,
        },
{
}

/// In an active fund, an active member's contribution of exactly the
/// minimum can fail only on arithmetic, and one unit less is refused as
/// below the minimum.
pub proof fn lemma_minimum_contribution_boundary(fund: Fund, member: Member)
    requires
        fund.is_active,
        member.is_active,
    ensures
        contribution(fund, member, fund.min_contribution) is Err ==> contribution(
            fund,
            member,
            fund.min_contribution,
        ) == Err::<(Fund, Member, u64), ErrorCode>(ErrorCode::ArithmeticOverflow),
        fund.min_contribution > 0 ==> contribution(
            fund,
            member,
            (fund.min_contribution - 1) as u64,
        ) == Err::<(Fund, Member, u64), ErrorCode>(ErrorCode::BelowMinContribution),
{
}

} // verus!
