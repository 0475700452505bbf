//! Settlement planning: which listings of the closed auctions get settled,
//! and with what outcome.
//!
//! One pass settles every live listing whose auction is live and closed
//! (`end_time < now`) and that has no recorded result yet. Per listing the
//! outcome is either the winning bid joined with the winner's name, or "no
//! bids". The planner is pure; recording and notifying are driven through
//! [`crate::pass`].

use vstd::prelude::*;
use vstd::seq_lib::group_seq_properties;
use crate::domain::{AuctionRow, ListingRow, BidRow, UserRow, has_closed_live_auction, contains_closed_live_auction, contains_id};
use crate::winner::{winning_bid, select_winner, competes};
use crate::winner::lemma_winning_bid_characterization;

verus! {

/// The winning side of a settled listing: the bid, its user, and the name
/// the notification will carry.
#[derive(Clone, Debug, PartialEq)]
pub struct WinnerInfo {
    pub bid_id: i32,
    pub user_id: i32,
    pub amount_cents: u64,
    pub user_name: String,
}

/// One listing's planned outcome in a settlement pass.
#[derive(Clone, Debug, PartialEq)]
pub struct ListingOutcome {
    pub listing_id: i32,
    pub auction_id: i32,
    pub title: String,
    pub winner: Option<WinnerInfo>,
}

/// The name carried by the notification for `user_id`: the name of the first
/// user row with that identity, or a fixed fallback when none is known.
pub open spec fn user_name_of(users: Seq<UserRow>, user_id: i32) -> Seq<char>
    decreases users.len(),
{
    if users.len() == 0 {
        "Unknown User"@
    } else if users[0].id == user_id {
        users[0].name@
    } else {
        user_name_of(users.drop_first(), user_id)
    }
}

/// Looks up the notification name for `user_id` among `users`.
pub fn find_user_name(users: &Vec<UserRow>, user_id: i32) -> (name: String)
    ensures
        name@ == user_name_of(users@, user_id),
{
    let mut k: usize = 0;
    proof {
        assert(users@.skip(0) =~= users@);
    }
    while k < users.len()
        invariant
            k <= users.len(),
            user_name_of(users@, user_id) == user_name_of(users@.skip(k as int), user_id),
        decreases users.len() - k,
    {
        proof {
            assert(users@.skip(k as int).drop_first() =~= users@.skip(k + 1 as int));
            assert(users@.skip(k as int)[0] == users@[k as int]);
        }
        if users[k].id == user_id {
            return users[k].name.clone();
        }
        k += 1;
    }
    proof {
        assert(users@.skip(users@.len() as int) =~= Seq::<UserRow>::empty());
    }
    String::from_str("Unknown User")
}

/// A listing is due for settlement: it is live, some live auction with its
/// `auction_id` is closed at `now`, and no result for it is recorded yet.
pub open spec fn eligible(l: ListingRow, auctions: Seq<AuctionRow>, settled: Seq<i32>, now: i64) -> bool {
    l.is_live() && has_closed_live_auction(auctions, l.auction_id, now) && !settled.contains(l.id)
}

/// The listings due for settlement, in their given order.
pub open spec fn eligible_listings(
    listings: Seq<ListingRow>,
    auctions: Seq<AuctionRow>,
    settled: Seq<i32>,
    now: i64,
) -> Seq<ListingRow> {
    listings.filter(|l: ListingRow| eligible(l, auctions, settled, now))
}

/// `o` is the correct outcome for listing `l`: same identity and title, and
/// the winner is the winning bid among `bids` joined with its user's name —
/// or absent exactly when the listing drew no live bid.
pub open spec fn outcome_for(l: ListingRow, bids: Seq<BidRow>, users: Seq<UserRow>, o: ListingOutcome) -> bool {
    &&& o.listing_id == l.id
    &&& o.auction_id == l.auction_id
    &&& o.title@ == l.title@
    &&& match winning_bid(bids, l.id) {
        None => o.winner is None,
        Some(b) => o.winner matches Some(w) && w.bid_id == b.id && w.user_id == b.user_id
            && w.amount_cents == b.amount_cents && w.user_name@ == user_name_of(users, b.user_id),
    }
}

/// `plan` settles exactly the eligible listings, in order, each with its
/// correct outcome.
pub open spec fn plan_matches(
    plan: Seq<ListingOutcome>,
    listings: Seq<ListingRow>,
    auctions: Seq<AuctionRow>,
    bids: Seq<BidRow>,
    users: Seq<UserRow>,
    settled: Seq<i32>,
    now: i64,
) -> bool {
    let el = eligible_listings(listings, auctions, settled, now);
    &&& plan.len() == el.len()
    &&& forall|i: int| 0 <= i < plan.len() ==> outcome_for(el[i], bids, users, #[trigger] plan[i])
}

/// Plans one settlement pass at time `now`: for every live listing under a
/// live, closed auction that is not in `settled` (the listings whose result
/// is already recorded), computes the winning bid among the live bids — ties
/// going to the bid earliest in `bids` order — joined with the winner's name,
/// or a "no bids" outcome when no live bid exists.
pub fn plan_settlement(
    now: i64,
    auctions: &Vec<AuctionRow>,
    listings: &Vec<ListingRow>,
    bids: &Vec<BidRow>,
    users: &Vec<UserRow>,
    settled: &Vec<i32>,
) -> (plan: Vec<ListingOutcome>)
    ensures
        plan_matches(plan@, listings@, auctions@, bids@, users@, settled@, now),
{
    let ghost pred = |l: ListingRow| eligible(l, auctions@, settled@, now);
    let mut plan: Vec<ListingOutcome> = Vec::new();
    let mut k: usize = 0;
    while k < listings.len()
        invariant
            k <= listings.len(),
            plan_matches(plan@, listings@.subrange(0, k as int), auctions@, bids@, users@, settled@, now),
            pred == (|l: ListingRow| eligible(l, auctions@, settled@, now)),
        decreases listings.len() - k,
    {
        let l = &listings[k];
        proof {
            reveal(Seq::filter);
            let pre = listings@.subrange(0, k as int);
            let ext = listings@.subrange(0, k + 1 as int);
            assert(ext.drop_last() =~= pre);
            assert(ext.last() == listings@[k as int]);
        }
        let is_eligible = l.deleted_at.is_none()
            && contains_closed_live_auction(auctions, l.auction_id, now)
            && !contains_id(settled, l.id);
        if is_eligible {
            let winner = match select_winner(bids, l.id) {
                None => None,
                Some(b) => Some(WinnerInfo {
                    bid_id: b.id,
                    user_id: b.user_id,
                    amount_cents: b.amount_cents,
                    user_name: find_user_name(users, b.user_id),
                }),
            };
            let outcome = ListingOutcome {
                listing_id: l.id,
                auction_id: l.auction_id,
                title: l.title.clone(),
                winner,
            };
            proof {
                assert(outcome_for(listings@[k as int], bids@, users@, outcome));
            }
            plan.push(outcome);
        }
        k += 1;
    }
    proof {
        assert(listings@.subrange(0, listings@.len() as int) =~= listings@);
    }
    plan
}

/// A listing of an auction that has not yet closed — every live auction row
/// with its identity still has `end_time >= now` — is never part of a
/// settlement pass.
pub proof fn lemma_open_auction_excluded(
    listings: Seq<ListingRow>,
    auctions: Seq<AuctionRow>,
    settled: Seq<i32>,
    now: i64,
    l: ListingRow,
)
    requires
        forall|i: int|
            0 <= i < auctions.len() && #[trigger] auctions[i].id == l.auction_id
                ==> !(auctions[i].is_live() && auctions[i].is_closed(now)),
    ensures
        !eligible_listings(listings, auctions, settled, now).contains(l),
{
    broadcast use group_seq_properties;

    let pred = |x: ListingRow| eligible(x, auctions, settled, now);
    let el = eligible_listings(listings, auctions, settled, now);
    assert(!pred(l));
    if el.contains(l) {
        let i = choose|i: int| 0 <= i < el.len() && el[i] == l;
        listings.lemma_filter_pred(pred, i);
    }
}

/// A listing whose result is already recorded is never planned again: every
/// planned listing's identity is outside `settled`.
pub proof fn lemma_planned_listings_not_yet_settled(
    listings: Seq<ListingRow>,
    auctions: Seq<AuctionRow>,
    settled: Seq<i32>,
    now: i64,
)
    ensures
        forall|i: int|
            0 <= i < eligible_listings(listings, auctions, settled, now).len()
                ==> !settled.contains(#[trigger] eligible_listings(listings, auctions, settled, now)[i].id),
{
    let pred = |x: ListingRow| eligible(x, auctions, settled, now);
    let el = eligible_listings(listings, auctions, settled, now);
    assert forall|i: int| 0 <= i < el.len() implies !settled.contains(#[trigger] el[i].id) by {
        listings.lemma_filter_pred(pred, i);
    }
}

/// A listing on which no live bid was placed has no winning bid.
pub proof fn lemma_no_live_bids_no_winner(bids: Seq<BidRow>, listing_id: i32)
    requires
        forall|i: int| 0 <= i < bids.len() ==> !competes(#[trigger] bids[i], listing_id),
    ensures
        winning_bid(bids, listing_id) is None,
{
    lemma_winning_bid_characterization(bids, listing_id);
}

} // verus!
