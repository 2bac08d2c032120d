use groupchat_fund::contributions::contribute;
use groupchat_fund::errors::ErrorCode;
use groupchat_fund::fund_management::{
    close_fund, initialize_fund, manage_trader, pause_fund, resume_fund, set_approval_threshold,
};
use groupchat_fund::identity::Identity;
use groupchat_fund::membership::{add_member, set_member_role};
use groupchat_fund::roster::IdentitySet;
use groupchat_fund::state::{Fund, Role};

fn id(n: u8) -> Identity {
    Identity::new([n; 32])
}

fn new_fund() -> Fund {
    initialize_fund(id(1), String::from("group-42"), String::from("Lunch money"), 10, 250, 7).unwrap()
}

#[test]
fn new_fund_is_active_and_empty() {
    let fund = new_fund();
    assert_eq!(fund.authority, id(1));
    assert_eq!(fund.group_id, "group-42");
    assert_eq!(fund.fund_name, "Lunch money");
    assert_eq!(fund.total_shares, 0);
    assert_eq!(fund.total_value, 0);
    assert_eq!(fund.min_contribution, 10);
    assert_eq!(fund.trading_fee_bps, 250);
    assert!(fund.is_active);
    assert_eq!(fund.bump, 7);
    assert_eq!(fund.approved_traders.len(), 0);
    assert_eq!(fund.required_approvals, 1);
    assert_eq!(fund.next_proposal_id, 0);
}

#[test]
fn fund_refuses_fee_above_whole() {
    let r = initialize_fund(id(1), String::from("g"), String::from("f"), 1, 10001, 0);
    assert_eq!(r.err(), Some(ErrorCode::InvalidFee));
    assert!(initialize_fund(id(1), String::from("g"), String::from("f"), 1, 10000, 0).is_ok());
}

#[test]
fn fund_labels_are_bounded_in_bytes() {
    assert!(initialize_fund(id(1), "g".repeat(32), String::from("f"), 1, 0, 0).is_ok());
    let r = initialize_fund(id(1), "g".repeat(33), String::from("f"), 1, 0, 0);
    assert_eq!(r.err(), Some(ErrorCode::TextTooLong));
    let r = initialize_fund(id(1), String::from("g"), "é".repeat(17), 1, 0, 0);
    assert_eq!(r.err(), Some(ErrorCode::TextTooLong));
    assert!(initialize_fund(id(1), String::from("g"), "é".repeat(16), 1, 0, 0).is_ok());
}

#[test]
fn member_starts_as_contributor() {
    let m = add_member(id(5), String::from("@alice")).unwrap();
    assert_eq!(m.wallet, id(5));
    assert_eq!(m.telegram_id, "@alice");
    assert_eq!(m.role, Role::Contributor);
    assert_eq!(m.shares, 0);
    assert_eq!(m.total_contributed, 0);
    assert_eq!(m.reputation_score, 0);
    assert!(m.is_active);
    assert_eq!(add_member(id(5), "x".repeat(33)).err(), Some(ErrorCode::TextTooLong));
}

#[test]
fn only_authority_sets_roles() {
    let fund = new_fund();
    let mut m = add_member(id(5), String::from("bob")).unwrap();
    assert_eq!(set_member_role(&fund, id(5), &mut m, Role::Manager), Err(ErrorCode::NotAuthority));
    assert_eq!(m.role, Role::Contributor);
    assert_eq!(set_member_role(&fund, id(1), &mut m, Role::Manager), Ok(()));
    assert_eq!(m.role, Role::Manager);
}

#[test]
fn roster_capacity_and_threshold_bounds() {
    let mut fund = new_fund();
    for n in 10..20u8 {
        assert_eq!(manage_trader(&mut fund, id(1), id(n), true), Ok(()));
    }
    assert_eq!(fund.approved_traders.len(), 10);
    assert_eq!(manage_trader(&mut fund, id(1), id(20), true), Err(ErrorCode::TraderRosterFull));
    assert_eq!(fund.approved_traders.len(), 10);
    assert_eq!(set_approval_threshold(&mut fund, id(1), 0), Err(ErrorCode::InvalidThreshold));
    assert_eq!(set_approval_threshold(&mut fund, id(1), 11), Err(ErrorCode::InvalidThreshold));
    assert_eq!(fund.required_approvals, 1);
    assert_eq!(set_approval_threshold(&mut fund, id(1), 10), Ok(()));
    assert_eq!(fund.required_approvals, 10);
}

#[test]
fn roster_changes_need_authority_and_refuse_duplicates() {
    let mut fund = new_fund();
    assert_eq!(manage_trader(&mut fund, id(2), id(3), true), Err(ErrorCode::NotAuthority));
    manage_trader(&mut fund, id(1), id(3), true).unwrap();
    assert_eq!(manage_trader(&mut fund, id(1), id(3), true), Err(ErrorCode::TraderAlreadyApproved));
    assert!(fund.approved_traders.contains(id(3)));
    assert_eq!(manage_trader(&mut fund, id(1), id(4), false), Ok(()));
    assert_eq!(manage_trader(&mut fund, id(1), id(3), false), Ok(()));
    assert!(!fund.approved_traders.contains(id(3)));
    assert_eq!(set_approval_threshold(&mut fund, id(2), 1), Err(ErrorCode::NotAuthority));
}

#[test]
fn identity_set_keeps_order_and_removes_one() {
    let mut set = IdentitySet::new();
    set.insert(id(1));
    set.insert(id(2));
    set.insert(id(3));
    set.remove(id(2));
    assert_eq!(set.len(), 2);
    assert!(set.contains(id(1)));
    assert!(!set.contains(id(2)));
    assert!(set.contains(id(3)));
    assert!(!set.is_full());
}

#[test]
fn pause_and_resume_need_authority() {
    let mut fund = new_fund();
    assert_eq!(pause_fund(&mut fund, id(2)), Err(ErrorCode::NotAuthority));
    assert!(fund.is_active);
    assert_eq!(pause_fund(&mut fund, id(1)), Ok(()));
    assert!(!fund.is_active);
    assert_eq!(resume_fund(&mut fund, id(2)), Err(ErrorCode::NotAuthority));
    assert_eq!(resume_fund(&mut fund, id(1)), Ok(()));
    assert!(fund.is_active);
}

#[test]
fn fund_closes_only_when_empty() {
    let mut fund = new_fund();
    assert_eq!(close_fund(&fund, id(2)), Err(ErrorCode::UnauthorizedClose));
    assert_eq!(close_fund(&fund, id(1)), Ok(()));
    let mut m = add_member(id(5), String::from("bob")).unwrap();
    contribute(&mut fund, &mut m, 10).unwrap();
    assert_eq!(close_fund(&fund, id(1)), Err(ErrorCode::FundNotEmpty));
    fund.total_value = 0;
    assert_eq!(close_fund(&fund, id(1)), Err(ErrorCode::SharesRemaining));
}

#[test]
fn identities_compare_by_every_byte() {
    let mut bytes = [7u8; 32];
    let a = Identity::new(bytes);
    bytes[31] = 8;
    let b = Identity::new(bytes);
    assert!(a != b);
    assert!(a == Identity::new([7u8; 32]));
}

#[test]
fn identity_set_from_list_checks_duplicates_and_bound() {
    let set = IdentitySet::from_vec(vec![id(3), id(1), id(2)]).unwrap();
    assert_eq!(set.to_vec(), vec![id(3), id(1), id(2)]);
    assert!(IdentitySet::from_vec(vec![id(3), id(1), id(3)]).is_none());
    let eleven: Vec<Identity> = (0..11u8).map(id).collect();
    assert!(IdentitySet::from_vec(eleven).is_none());
    let ten: Vec<Identity> = (0..10u8).map(id).collect();
    assert!(IdentitySet::from_vec(ten).unwrap().is_full());
}
