use groupchat_fund::contributions::{contribute, withdraw};
use groupchat_fund::distribution::distribute_value;
use groupchat_fund::errors::ErrorCode;
use groupchat_fund::fund_management::{initialize_fund, pause_fund};
use groupchat_fund::identity::Identity;
use groupchat_fund::membership::add_member;
use groupchat_fund::state::{Fund, Member};

fn id(n: u8) -> Identity {
    Identity::new([n; 32])
}

fn new_fund(min_contribution: u64, fee_bps: u16) -> Fund {
    initialize_fund(id(1), String::from("group"), String::from("Group fund"), min_contribution, fee_bps, 254)
        .unwrap()
}

fn new_member(n: u8) -> Member {
    add_member(id(n), format!("user{}", n)).unwrap()
}

#[test]
fn fresh_fund_two_contributions() {
    let mut fund = new_fund(100, 0);
    let mut a = new_member(2);
    let mut b = new_member(3);
    assert_eq!(contribute(&mut fund, &mut a, 100), Ok(100));
    assert_eq!(a.shares, 100);
    assert_eq!(a.total_contributed, 100);
    assert_eq!(fund.total_shares, 100);
    assert_eq!(fund.total_value, 100);
    assert_eq!(contribute(&mut fund, &mut b, 300), Ok(300));
    assert_eq!(b.shares, 300);
    assert_eq!(fund.total_shares, 400);
    assert_eq!(fund.total_value, 400);
}

#[test]
fn contribution_at_minimum_succeeds_and_below_fails() {
    let mut fund = new_fund(100, 0);
    let mut a = new_member(2);
    assert_eq!(contribute(&mut fund, &mut a, 99), Err(ErrorCode::BelowMinContribution));
    assert_eq!(fund.total_shares, 0);
    assert_eq!(a.shares, 0);
    assert_eq!(contribute(&mut fund, &mut a, 100), Ok(100));
}

#[test]
fn contribution_mints_at_prevailing_price_rounded_down() {
    let mut fund = new_fund(1, 0);
    fund.total_shares = 3;
    fund.total_value = 10;
    let mut a = new_member(2);
    assert_eq!(contribute(&mut fund, &mut a, 5), Ok(1));
    assert_eq!(fund.total_shares, 4);
    assert_eq!(fund.total_value, 15);
    assert_eq!(a.total_contributed, 5);
}

#[test]
fn contribution_does_not_lower_share_price() {
    let mut fund = new_fund(1, 0);
    fund.total_shares = 3;
    fund.total_value = 10;
    let (s0, v0) = (fund.total_shares as u128, fund.total_value as u128);
    let mut a = new_member(2);
    contribute(&mut fund, &mut a, 7).unwrap();
    let (s1, v1) = (fund.total_shares as u128, fund.total_value as u128);
    assert!(v0 * s1 <= v1 * s0);
    assert!(v1 * s0 < v0 * (s1 + 1));
}

#[test]
fn contribution_refused_when_fund_paused() {
    let mut fund = new_fund(1, 0);
    pause_fund(&mut fund, id(1)).unwrap();
    let mut a = new_member(2);
    assert_eq!(contribute(&mut fund, &mut a, 10), Err(ErrorCode::FundNotActive));
}

#[test]
fn contribution_refused_when_member_inactive() {
    let mut fund = new_fund(1, 0);
    let mut a = new_member(2);
    a.is_active = false;
    assert_eq!(contribute(&mut fund, &mut a, 10), Err(ErrorCode::MemberNotActive));
}

#[test]
fn contribution_refused_when_shares_have_no_value() {
    let mut fund = new_fund(1, 0);
    fund.total_shares = 10;
    fund.total_value = 0;
    let mut a = new_member(2);
    assert_eq!(contribute(&mut fund, &mut a, 10), Err(ErrorCode::ArithmeticOverflow));
    assert_eq!(fund.total_shares, 10);
}

#[test]
fn contribution_refused_on_overflow() {
    let mut fund = new_fund(1, 0);
    fund.total_shares = u64::MAX - 5;
    fund.total_value = u64::MAX - 5;
    let mut a = new_member(2);
    assert_eq!(contribute(&mut fund, &mut a, 10), Err(ErrorCode::ArithmeticOverflow));
    assert_eq!(fund.total_value, u64::MAX - 5);
    assert_eq!(a.total_contributed, 0);
}

#[test]
fn withdrawal_pays_proportional_value() {
    let mut fund = new_fund(1, 0);
    let mut a = new_member(2);
    contribute(&mut fund, &mut a, 400).unwrap();
    fund.total_value = 600;
    assert_eq!(withdraw(&mut fund, &mut a, 100), Ok(150));
    assert_eq!(a.shares, 300);
    assert_eq!(fund.total_shares, 300);
    assert_eq!(fund.total_value, 450);
}

#[test]
fn withdrawal_refused_beyond_holding() {
    let mut fund = new_fund(1, 0);
    let mut a = new_member(2);
    contribute(&mut fund, &mut a, 50).unwrap();
    assert_eq!(withdraw(&mut fund, &mut a, 51), Err(ErrorCode::InsufficientShares));
    assert_eq!(a.shares, 50);
}

#[test]
fn contribute_then_withdraw_returns_at_most_amount() {
    let mut fund = new_fund(1, 0);
    fund.total_shares = 3;
    fund.total_value = 10;
    let mut a = new_member(2);
    let minted = contribute(&mut fund, &mut a, 5).unwrap();
    let payout = withdraw(&mut fund, &mut a, minted).unwrap();
    assert_eq!(payout, 3);
    assert!(payout <= 5);
}

#[test]
fn contribute_then_withdraw_without_rounding_returns_amount() {
    let mut fund = new_fund(1, 0);
    fund.total_shares = 100;
    fund.total_value = 200;
    let mut a = new_member(2);
    let minted = contribute(&mut fund, &mut a, 50).unwrap();
    assert_eq!(minted, 25);
    assert_eq!(withdraw(&mut fund, &mut a, minted), Ok(50));
}

#[test]
fn residual_value_without_shares_goes_to_next_member() {
    let mut fund = new_fund(1, 1000);
    let mut a = new_member(2);
    let mut b = new_member(3);
    contribute(&mut fund, &mut a, 100).unwrap();
    fund.total_value = 150;
    distribute_value(&mut fund, &mut a, 150).unwrap();
    assert_eq!(fund.total_shares, 0);
    assert_eq!(fund.total_value, 5);
    assert_eq!(contribute(&mut fund, &mut b, 100), Ok(100));
    assert_eq!(withdraw(&mut fund, &mut b, 100), Ok(105));
}

#[test]
fn share_total_matches_member_shares_across_operations() {
    let mut fund = new_fund(1, 500);
    let mut members = vec![new_member(2), new_member(3), new_member(4)];
    contribute(&mut fund, &mut members[0], 100).unwrap();
    contribute(&mut fund, &mut members[1], 250).unwrap();
    fund.total_value += 70;
    contribute(&mut fund, &mut members[2], 33).unwrap();
    withdraw(&mut fund, &mut members[1], 40).unwrap();
    distribute_value(&mut fund, &mut members[0], u64::MAX).unwrap();
    let sum: u64 = members.iter().map(|m| m.shares).sum();
    assert_eq!(fund.total_shares, sum);
}
