//! Accounting and governance engine for a pooled treasury shared by a group:
//! members buy proportional shares, approved traders act for the pool, trades
//! can require a quorum of approvals, and profit or loss flows back to members.
pub mod access;
pub mod constants;
pub mod contributions;
pub mod distribution;
pub mod errors;
pub mod fund_management;
pub mod identity;
pub mod laws;
pub mod membership;
pub mod proposals;
pub mod roster;
pub mod shares;
pub mod state;
pub mod trading;
