//! The data model: auctions, listings, bids, users and settlement results,
//! as plain values.
//!
//! Timestamps are seconds since the Unix epoch; monetary amounts are integer
//! cents (two decimal places of the currency). Every record that the store
//! can soft-delete carries an optional deletion timestamp: the record is
//! "live" iff that timestamp is unset. An auction is never closed by a stored
//! flag; "closed" is the derived predicate `end_time < now`.

use vstd::prelude::*;

verus! {

/// A titled time window grouping listings for bidding.
#[derive(Clone, Debug, PartialEq)]
pub struct AuctionRow {
    pub id: i32,
    pub name: String,
    pub start_time: i64,
    pub end_time: i64,
    pub updated_at: i64,
    pub deleted_at: Option<i64>,
}

/// An item within an auction, carrying a base price and an informational
/// available volume (settlement never reads either).
#[derive(Clone, Debug, PartialEq)]
pub struct ListingRow {
    pub id: i32,
    pub auction_id: i32,
    pub title: String,
    pub description: Option<String>,
    pub base_price_cents: u64,
    pub available_volume: i32,
    pub updated_at: i64,
    pub deleted_at: Option<i64>,
}

/// A user's monetary offer on a listing. Immutable once created, aside from
/// soft deletion.
#[derive(Clone, Copy, Debug, PartialEq)]
pub struct BidRow {
    pub id: i32,
    pub listing_id: i32,
    pub user_id: i32,
    pub amount_cents: u64,
    pub created_at: i64,
    pub deleted_at: Option<i64>,
}

/// A registered bidder, keyed by phone number.
#[derive(Clone, Debug, PartialEq)]
pub struct UserRow {
    pub id: i32,
    pub name: String,
    pub phone_number: String,
    pub updated_at: i64,
    pub deleted_at: Option<i64>,
}

/// The write-once settlement outcome for one listing: which bid won and
/// whose it was. Listings with no live bids get no row at all.
#[derive(Clone, Copy, Debug, PartialEq)]
pub struct ResultRow {
    pub listing_id: i32,
    pub winning_bid_id: i32,
    pub winning_user_id: i32,
}

/// A settlement outcome as read back from the store: the identity and
/// timestamps the store gave the row on insert.
#[derive(Clone, Copy, Debug, PartialEq)]
pub struct ResultRecord {
    pub id: i32,
    pub listing_id: i32,
    pub winning_bid_id: i32,
    pub winning_user_id: i32,
    pub created_at: i64,
    pub deleted_at: Option<i64>,
}

impl ResultRecord {
    pub open spec fn is_live(&self) -> bool {
        self.deleted_at is None
    }
}

impl AuctionRow {
    /// A record is live iff its soft-deletion timestamp is unset.
    pub open spec fn is_live(&self) -> bool {
        self.deleted_at is None
    }

    /// "Closed" is derived from the time window, never stored.
    pub open spec fn is_closed(&self, now: i64) -> bool {
        self.end_time < now
    }
}

impl ListingRow {
    pub open spec fn is_live(&self) -> bool {
        self.deleted_at is None
    }

    /// Field-for-field agreement with `o`, text compared by content.
    pub open spec fn same_as(&self, o: ListingRow) -> bool {
        &&& self.id == o.id
        &&& self.auction_id == o.auction_id
        &&& self.title@ == o.title@
        &&& (self.description matches Some(d) ==> (o.description matches Some(e) && d@ == e@))
        &&& (self.description is None <==> o.description is None)
        &&& self.base_price_cents == o.base_price_cents
        &&& self.available_volume == o.available_volume
        &&& self.updated_at == o.updated_at
        &&& self.deleted_at == o.deleted_at
    }
}

impl BidRow {
    pub open spec fn is_live(&self) -> bool {
        self.deleted_at is None
    }
}

impl UserRow {
    pub open spec fn is_live(&self) -> bool {
        self.deleted_at is None
    }
}

/// Some auction in `auctions` with identity `auction_id` is live and closed
/// at `now`: its listings are due for settlement.
pub open spec fn has_closed_live_auction(auctions: Seq<AuctionRow>, auction_id: i32, now: i64) -> bool {
    exists|i: int|
        0 <= i < auctions.len() && #[trigger] auctions[i].id == auction_id
            && auctions[i].is_live() && auctions[i].is_closed(now)
}

/// Whether `ids` holds `x`.
pub fn contains_id(ids: &Vec<i32>, x: i32) -> (r: bool)
    ensures
        r == ids@.contains(x),
{
    let mut k: usize = 0;
    while k < ids.len()
        invariant
            k <= ids.len(),
            forall|i: int| 0 <= i < k ==> ids@[i] != x,
        decreases ids.len() - k,
    {
        if ids[k] == x {
            return true;
        }
        k += 1;
    }
    false
}

/// Whether some live, closed auction with identity `auction_id` stands in
/// `auctions`.
pub fn contains_closed_live_auction(auctions: &Vec<AuctionRow>, auction_id: i32, now: i64) -> (r: bool)
    ensures
        r == has_closed_live_auction(auctions@, auction_id, now),
{
    let mut k: usize = 0;
    while k < auctions.len()
        invariant
            k <= auctions.len(),
            forall|i: int|
                0 <= i < k ==> !(#[trigger] auctions@[i].id == auction_id
                    && auctions@[i].is_live() && auctions@[i].is_closed(now)),
        decreases auctions.len() - k,
    {
        let a = &auctions[k];
        if a.id == auction_id && a.deleted_at.is_none() && a.end_time < now {
            return true;
        }
        k += 1;
    }
    false
}

} // verus!
