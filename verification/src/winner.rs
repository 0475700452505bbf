//! Winner selection: given the bids placed on a listing, pick the winning
//! bid, if any.
//!
//! Only live (not soft-deleted) bids compete. Within one listing the bid with
//! the strictly greatest amount wins; when several bids share the maximum
//! amount, the tie resolves deterministically to the one that comes first in
//! the order the bids are given (a new maximum is recorded only when it is
//! strictly greater than the one already held). Listings with no live bids
//! have no winner — a distinct "no bids" outcome, not an error.

use vstd::prelude::*;
use crate::domain::BidRow;

verus! {

/// Whether `b` competes for `listing_id`: it belongs to that listing and is
/// not soft-deleted.
pub open spec fn competes(b: BidRow, listing_id: i32) -> bool {
    b.listing_id == listing_id && b.is_live()
}

/// The winning bid for `listing_id` among `bids`, processed in order: a
/// competing bid replaces the bid held so far only when its amount is
/// strictly greater, so of several bids tied at the maximum the earliest
/// wins.
pub open spec fn winning_bid(bids: Seq<BidRow>, listing_id: i32) -> Option<BidRow>
    decreases bids.len(),
{
    if bids.len() == 0 {
        None
    } else {
        let held = winning_bid(bids.drop_last(), listing_id);
        let b = bids.last();
        if competes(b, listing_id) {
            match held {
                None => Some(b),
                Some(c) => if b.amount_cents > c.amount_cents {
                    Some(b)
                } else {
                    Some(c)
                },
            }
        } else {
            held
        }
    }
}

/// The bid at index `i` is a winner for `listing_id`: it competes, no
/// competing bid beats its amount, and every competing bid before it stays
/// strictly below (it is the first to reach the maximum).
pub open spec fn winner_at(bids: Seq<BidRow>, listing_id: i32, i: int) -> bool {
    &&& 0 <= i < bids.len()
    &&& competes(bids[i], listing_id)
    &&& forall|j: int|
        0 <= j < bids.len() && competes(#[trigger] bids[j], listing_id)
            ==> bids[j].amount_cents <= bids[i].amount_cents
    &&& forall|j: int|
        0 <= j < i && competes(#[trigger] bids[j], listing_id)
            ==> bids[j].amount_cents < bids[i].amount_cents
}

/// The winning bid exists exactly when some live bid was placed on the
/// listing, and it is the first competing bid to reach the maximum amount.
pub proof fn lemma_winning_bid_characterization(bids: Seq<BidRow>, listing_id: i32)
    ensures
        (winning_bid(bids, listing_id) is None) <==> (forall|i: int|
            0 <= i < bids.len() ==> !competes(#[trigger] bids[i], listing_id)),
        winning_bid(bids, listing_id) matches Some(w) ==> exists|i: int|
            #[trigger] winner_at(bids, listing_id, i) && bids[i] == w,
    decreases bids.len(),
{
    if bids.len() == 0 {
    } else {
        let prefix = bids.drop_last();
        lemma_winning_bid_characterization(prefix, listing_id);
        let b = bids.last();
        assert(forall|j: int| 0 <= j < prefix.len() ==> prefix[j] == bids[j]);
        if competes(b, listing_id) {
            match winning_bid(prefix, listing_id) {
                None => {
                    assert(winner_at(bids, listing_id, bids.len() - 1));
                }
                Some(c) => {
                    let ci = choose|i: int|
                        #[trigger] winner_at(prefix, listing_id, i) && prefix[i] == c;
                    if b.amount_cents > c.amount_cents {
                        assert(winner_at(bids, listing_id, bids.len() - 1));
                    } else {
                        assert(winner_at(bids, listing_id, ci));
                    }
                }
            }
        } else {
            match winning_bid(prefix, listing_id) {
                None => {}
                Some(c) => {
                    let ci = choose|i: int|
                        #[trigger] winner_at(prefix, listing_id, i) && prefix[i] == c;
                    assert(winner_at(bids, listing_id, ci));
                }
            }
        }
    }
}

/// A soft-deleted bid never changes the outcome, however large its amount.
pub proof fn lemma_deleted_bid_irrelevant(bids: Seq<BidRow>, b: BidRow, listing_id: i32)
    requires
        !b.is_live(),
    ensures
        winning_bid(bids.push(b), listing_id) == winning_bid(bids, listing_id),
{
    assert(bids.push(b).drop_last() =~= bids);
}

/// Computes the winning bid for `listing_id` among `bids`, in the given
/// order.
pub fn select_winner(bids: &Vec<BidRow>, listing_id: i32) -> (r: Option<BidRow>)
    ensures
        r == winning_bid(bids@, listing_id),
{
    let mut held: Option<BidRow> = None;
    let mut k: usize = 0;
    while k < bids.len()
        invariant
            k <= bids.len(),
            held == winning_bid(bids@.subrange(0, k as int), listing_id),
        decreases bids.len() - k,
    {
        let b = bids[k];
        let replace = b.deleted_at.is_none() && b.listing_id == listing_id && match held {
            None => true,
            Some(c) => b.amount_cents > c.amount_cents,
        };
        proof {
            let pre = bids@.subrange(0, k as int);
            let ext = bids@.subrange(0, k + 1 as int);
            assert(ext.drop_last() =~= pre);
            assert(ext.last() == bids@[k as int]);
        }
        if replace {
            held = Some(b);
        }
        k += 1;
    }
    proof {
        assert(bids@.subrange(0, bids@.len() as int) =~= bids@);
    }
    held
}

} // verus!
