//! The wall clock, and settlement planning against it.

use vstd::prelude::*;
use crate::domain::{AuctionRow, ListingRow, BidRow, UserRow};
use crate::settle::{ListingOutcome, plan_settlement, plan_matches};

verus! {

/// Relies on chrono::Utc::now and chrono::DateTime::timestamp: the current
/// wall-clock time as whole seconds since the Unix epoch, non-negative
/// (chrono refuses a system clock set before the epoch). Nothing more is
/// promised of it: the clock moves between calls.
#[verifier::external_body]
fn current_unix_seconds() -> (t: i64)
    ensures
        t >= 0,
{
    chrono::Utc::now().timestamp()
}

/// Plans one settlement pass against the wall clock: reads the time once and
/// plans as [`plan_settlement`] does at that instant. Returns the instant
/// used, so the caller can log it and so the plan's meaning is pinned to it.
pub fn plan_settlement_at_current_time(
    auctions: &Vec<AuctionRow>,
    listings: &Vec<ListingRow>,
    bids: &Vec<BidRow>,
    users: &Vec<UserRow>,
    settled: &Vec<i32>,
) -> (r: (i64, Vec<ListingOutcome>))
    ensures
        r.0 >= 0,
        plan_matches(r.1@, listings@, auctions@, bids@, users@, settled@, r.0),
{
    let now = current_unix_seconds();
    let plan = plan_settlement(now, auctions, listings, bids, users, settled);
    (now, plan)
}

} // verus!
