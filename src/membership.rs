use vstd::prelude::*;

use crate::access::check_authority;
use crate::constants::MAX_LABEL_LEN;
use crate::errors::ErrorCode;
use crate::identity::Identity;
use crate::state::{text_fits, text_len, Fund, Member, Role};

verus! {

/// Registers `wallet` as an active contributor with no shares, labelled by
/// `telegram_id`.
pub fn add_member(wallet: Identity, telegram_id: String) -> (r: Result<Member, ErrorCode>)
    ensures
        match r {
            Ok(m) => {
                &&& text_len(telegram_id@) <= MAX_LABEL_LEN
                &&& m.wallet == wallet
                &&& m.telegram_id@ == telegram_id@
                &&& m.role == Role::Contributor
                &&& m.shares == 0
                &&& m.total_contributed == 0
                &&& m.successful_trades == 0
                &&& m.failed_trades == 0
                &&& m.reputation_score == 0
                &&& m.is_active
                &&& m.wf()
            },
            Err(e) => e == ErrorCode::TextTooLong && text_len(telegram_id@) > MAX_LABEL_LEN,
        },
{
    if !text_fits(&telegram_id, MAX_LABEL_LEN) {
        return Err(ErrorCode::TextTooLong);
    }
    Ok(
        Member {
            wallet,
            telegram_id,
            role: Role::Contributor,
            shares: 0,
            total_contributed: 0,
            successful_trades: 0,
            failed_trades: 0,
            reputation_score: 0,
            is_active: true,
        },
    )
}

/// Gives `member` a new role. A trading role alone does not let them trade:
/// they must also be on the fund's roster. Authority only.
pub fn set_member_role(fund: &Fund, caller: Identity, member: &mut Member, role: Role) -> (r: Result<
    (),
    ErrorCode,
>)
    ensures
        r == (if fund.authority == caller {
            Ok::<(), ErrorCode>(())
        } else {
            Err(ErrorCode::NotAuthority)
        }),
        *final(member) == (if r is Ok {
            Member { role, ..*old(member) }
        } else {
            *old(member)
        }),
        old(member).wf() ==> final(member).wf(),
{
    if let Err(e) = check_authority(fund, caller, ErrorCode::NotAuthority) {
        return Err(e);
    }
    member.role = role;
    Ok(())
}

} // verus!
