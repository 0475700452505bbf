//! Read-side computations behind the browsing endpoints: the per-listing
//! overview a bidder sees, the bids on currently running auctions, a
//! listing directory per auction, and the user lookup by phone number.

use vstd::prelude::*;
use crate::domain::{AuctionRow, ListingRow, BidRow, UserRow, ResultRecord, contains_id};

verus! {

/// The first auction row carrying `auction_id`, if any.
pub open spec fn auction_with_id(auctions: Seq<AuctionRow>, auction_id: i32) -> Option<AuctionRow>
    decreases auctions.len(),
{
    if auctions.len() == 0 {
        None
    } else if auctions[0].id == auction_id {
        Some(auctions[0])
    } else {
        auction_with_id(auctions.drop_first(), auction_id)
    }
}

/// Finds the first auction row carrying `auction_id`.
pub fn find_auction<'a>(auctions: &'a Vec<AuctionRow>, auction_id: i32) -> (r: Option<
    &'a AuctionRow,
>)
    ensures
        match r {
            Some(a) => auction_with_id(auctions@, auction_id) == Some(*a),
            None => auction_with_id(auctions@, auction_id) is None,
        },
{
    let mut k: usize = 0;
    proof {
        assert(auctions@.skip(0) =~= auctions@);
    }
    while k < auctions.len()
        invariant
            k <= auctions.len(),
            auction_with_id(auctions@, auction_id) == auction_with_id(
                auctions@.skip(k as int),
                auction_id,
            ),
        decreases auctions.len() - k,
    {
        proof {
            assert(auctions@.skip(k as int).drop_first() =~= auctions@.skip(k + 1 as int));
            assert(auctions@.skip(k as int)[0] == auctions@[k as int]);
        }
        if auctions[k].id == auction_id {
            return Some(&auctions[k]);
        }
        k += 1;
    }
    proof {
        assert(auctions@.skip(auctions@.len() as int) =~= Seq::<AuctionRow>::empty());
    }
    None
}

/// The greatest amount among the bids on `listing_id` — restricted to one
/// bidder when `by_user` names one — or zero when there are none.
pub open spec fn max_amount_where(bids: Seq<BidRow>, listing_id: i32, by_user: Option<i32>) -> u64
    decreases bids.len(),
{
    if bids.len() == 0 {
        0u64
    } else {
        let m = max_amount_where(bids.drop_last(), listing_id, by_user);
        let b = bids.last();
        if b.listing_id == listing_id && (by_user matches Some(u) ==> b.user_id == u)
            && b.amount_cents > m {
            b.amount_cents
        } else {
            m
        }
    }
}

/// How many bids stand on `listing_id`.
pub open spec fn bid_count(bids: Seq<BidRow>, listing_id: i32) -> int
    decreases bids.len(),
{
    if bids.len() == 0 {
        0
    } else {
        bid_count(bids.drop_last(), listing_id) + (if bids.last().listing_id == listing_id {
            1int
        } else {
            0int
        })
    }
}

/// Computes [`max_amount_where`] over the given bids.
pub fn max_bid_amount(bids: &Vec<BidRow>, listing_id: i32, by_user: Option<i32>) -> (m: u64)
    ensures
        m == max_amount_where(bids@, listing_id, by_user),
{
    let mut m: u64 = 0;
    let mut k: usize = 0;
    while k < bids.len()
        invariant
            k <= bids.len(),
            m == max_amount_where(bids@.subrange(0, k as int), listing_id, by_user),
        decreases bids.len() - k,
    {
        let b = bids[k];
        proof {
            let pre = bids@.subrange(0, k as int);
            let ext = bids@.subrange(0, k + 1 as int);
            assert(ext.drop_last() =~= pre);
            assert(ext.last() == bids@[k as int]);
        }
        let user_fits = match by_user {
            Some(u) => b.user_id == u,
            None => true,
        };
        if b.listing_id == listing_id && user_fits && b.amount_cents > m {
            m = b.amount_cents;
        }
        k += 1;
    }
    proof {
        assert(bids@.subrange(0, bids@.len() as int) =~= bids@);
    }
    m
}

/// Counts the bids on `listing_id`.
pub fn count_bids(bids: &Vec<BidRow>, listing_id: i32) -> (n: usize)
    ensures
        n as int == bid_count(bids@, listing_id),
{
    let mut n: usize = 0;
    let mut k: usize = 0;
    while k < bids.len()
        invariant
            k <= bids.len(),
            n <= k,
            n as int == bid_count(bids@.subrange(0, k as int), listing_id),
        decreases bids.len() - k,
    {
        proof {
            let pre = bids@.subrange(0, k as int);
            let ext = bids@.subrange(0, k + 1 as int);
            assert(ext.drop_last() =~= pre);
            assert(ext.last() == bids@[k as int]);
        }
        if bids[k].listing_id == listing_id {
            n += 1;
        }
        k += 1;
    }
    proof {
        assert(bids@.subrange(0, bids@.len() as int) =~= bids@);
    }
    n
}

/// Where a listing's auction stands at the time of the overview.
#[derive(Clone, Copy, Debug, PartialEq, Eq, Structural)]
pub enum ListingStatus {
    /// The auction's window has not opened yet.
    NotStarted,
    /// The window is open (or already past; ended listings are filtered out
    /// before the status is taken).
    Active,
}

/// The status text shown to a bidder.
pub open spec fn status_text(s: ListingStatus) -> Seq<char> {
    match s {
        ListingStatus::NotStarted => "Not Started"@,
        ListingStatus::Active => "Active"@,
    }
}

/// Builds the status text shown to a bidder.
pub fn status_label(s: ListingStatus) -> (t: String)
    ensures
        t@ == status_text(s),
{
    match s {
        ListingStatus::NotStarted => String::from_str("Not Started"),
        ListingStatus::Active => String::from_str("Active"),
    }
}

/// One row of the per-listing overview a bidder sees: the listing joined with
/// its auction's window, the bidder's own best amount, the best amount
/// overall, and how many bids stand.
#[derive(Clone, Debug, PartialEq)]
pub struct ListingSummary {
    pub listing_id: i32,
    pub end_time: i64,
    pub title: String,
    pub description: Option<String>,
    pub base_price_cents: u64,
    pub available_volume: i32,
    pub status: ListingStatus,
    pub highest_user_bid_cents: u64,
    pub highest_anyone_bid_cents: u64,
    pub total_bids: usize,
}

/// A listing appears in the overview iff its auction exists and has not ended
/// before `now`.
pub open spec fn overview_includes(l: ListingRow, auctions: Seq<AuctionRow>, now: i64) -> bool {
    auction_with_id(auctions, l.auction_id) matches Some(a) && a.end_time >= now
}

/// `s` is the correct overview row for listing `l` under auction `a`.
pub open spec fn summary_for(
    l: ListingRow,
    a: AuctionRow,
    bids: Seq<BidRow>,
    user_id: i32,
    now: i64,
    s: ListingSummary,
) -> bool {
    &&& s.listing_id == l.id
    &&& s.end_time == a.end_time
    &&& s.title@ == l.title@
    &&& (l.description matches Some(d) ==> (s.description matches Some(e) && e@ == d@))
    &&& (l.description is None <==> s.description is None)
    &&& s.base_price_cents == l.base_price_cents
    &&& s.available_volume == l.available_volume
    &&& s.status == (if a.start_time > now {
        ListingStatus::NotStarted
    } else {
        ListingStatus::Active
    })
    &&& s.highest_user_bid_cents == max_amount_where(bids, l.id, Some(user_id))
    &&& s.highest_anyone_bid_cents == max_amount_where(bids, l.id, None)
    &&& s.total_bids as int == bid_count(bids, l.id)
}

/// Builds the overview for `user_id` at `now`: one row per listing whose
/// auction has not ended, carrying the listing, its window status, the
/// bidder's best amount on it, the best amount overall, and the bid count.
pub fn summarize_listings(
    now: i64,
    auctions: &Vec<AuctionRow>,
    listings: &Vec<ListingRow>,
    bids: &Vec<BidRow>,
    user_id: i32,
) -> (out: Vec<ListingSummary>)
    ensures
        ({
            let incl = listings@.filter(|l: ListingRow| overview_includes(l, auctions@, now));
            &&& out@.len() == incl.len()
            &&& forall|i: int|
                0 <= i < out@.len() ==> (auction_with_id(auctions@, incl[i].auction_id) matches Some(
                    a,
                ) && summary_for(incl[i], a, bids@, user_id, now, #[trigger] out@[i]))
        }),
{
    let ghost pred = |l: ListingRow| overview_includes(l, auctions@, now);
    let mut out: Vec<ListingSummary> = Vec::new();
    let mut k: usize = 0;
    while k < listings.len()
        invariant
            k <= listings.len(),
            pred == (|l: ListingRow| overview_includes(l, auctions@, now)),
            ({
                let incl = listings@.subrange(0, k as int).filter(pred);
                &&& out@.len() == incl.len()
                &&& forall|i: int|
                    0 <= i < out@.len() ==> (auction_with_id(auctions@, incl[i].auction_id) matches Some(
                        a,
                    ) && summary_for(incl[i], a, bids@, user_id, now, #[trigger] out@[i]))
            }),
        decreases listings.len() - k,
    {
        let l = &listings[k];
        proof {
            reveal(Seq::filter);
            let pre = listings@.subrange(0, k as int);
            let ext = listings@.subrange(0, k + 1 as int);
            assert(ext.drop_last() =~= pre);
            assert(ext.last() == listings@[k as int]);
        }
        if let Some(a) = find_auction(auctions, l.auction_id) {
            if a.end_time >= now {
                let status = if a.start_time > now {
                    ListingStatus::NotStarted
                } else {
                    ListingStatus::Active
                };
                let summary = ListingSummary {
                    listing_id: l.id,
                    end_time: a.end_time,
                    title: l.title.clone(),
                    description: match &l.description {
                        Some(d) => Some(d.clone()),
                        None => None,
                    },
                    base_price_cents: l.base_price_cents,
                    available_volume: l.available_volume,
                    status,
                    highest_user_bid_cents: max_bid_amount(bids, l.id, Some(user_id)),
                    highest_anyone_bid_cents: max_bid_amount(bids, l.id, None),
                    total_bids: count_bids(bids, l.id),
                };
                out.push(summary);
            }
        }
        k += 1;
    }
    proof {
        assert(listings@.subrange(0, listings@.len() as int) =~= listings@);
    }
    out
}

/// A listing is open for bidding at `now`: its auction's window has started
/// and has not ended.
pub open spec fn running_at(l: ListingRow, auctions: Seq<AuctionRow>, now: i64) -> bool {
    auction_with_id(auctions, l.auction_id) matches Some(a) && a.start_time <= now && a.end_time
        >= now
}

/// The identities of the listings open for bidding at `now`, in listing
/// order.
pub fn active_listing_ids(now: i64, auctions: &Vec<AuctionRow>, listings: &Vec<ListingRow>) -> (out:
    Vec<i32>)
    ensures
        ({
            let incl = listings@.filter(|l: ListingRow| running_at(l, auctions@, now));
            &&& out@.len() == incl.len()
            &&& forall|i: int| 0 <= i < out@.len() ==> #[trigger] out@[i] == incl[i].id
        }),
{
    let ghost pred = |l: ListingRow| running_at(l, auctions@, now);
    let mut out: Vec<i32> = Vec::new();
    let mut k: usize = 0;
    while k < listings.len()
        invariant
            k <= listings.len(),
            pred == (|l: ListingRow| running_at(l, auctions@, now)),
            ({
                let incl = listings@.subrange(0, k as int).filter(pred);
                &&& out@.len() == incl.len()
                &&& forall|i: int| 0 <= i < out@.len() ==> #[trigger] out@[i] == incl[i].id
            }),
        decreases listings.len() - k,
    {
        let l = &listings[k];
        proof {
            reveal(Seq::filter);
            let pre = listings@.subrange(0, k as int);
            let ext = listings@.subrange(0, k + 1 as int);
            assert(ext.drop_last() =~= pre);
            assert(ext.last() == listings@[k as int]);
        }
        if let Some(a) = find_auction(auctions, l.auction_id) {
            if a.start_time <= now && a.end_time >= now {
                out.push(l.id);
            }
        }
        k += 1;
    }
    proof {
        assert(listings@.subrange(0, listings@.len() as int) =~= listings@);
    }
    out
}

/// The live bids standing on any of the given listings, in bid order.
pub fn live_bids_on(bids: &Vec<BidRow>, listing_ids: &Vec<i32>) -> (out: Vec<BidRow>)
    ensures
        out@ == bids@.filter(
            |b: BidRow| b.is_live() && listing_ids@.contains(b.listing_id),
        ),
{
    let ghost pred = |b: BidRow| b.is_live() && listing_ids@.contains(b.listing_id);
    let mut out: Vec<BidRow> = Vec::new();
    let mut k: usize = 0;
    while k < bids.len()
        invariant
            k <= bids.len(),
            pred == (|b: BidRow| b.is_live() && listing_ids@.contains(b.listing_id)),
            out@ == bids@.subrange(0, k as int).filter(pred),
        decreases bids.len() - k,
    {
        let b = bids[k];
        proof {
            reveal(Seq::filter);
            let pre = bids@.subrange(0, k as int);
            let ext = bids@.subrange(0, k + 1 as int);
            assert(ext.drop_last() =~= pre);
            assert(ext.last() == bids@[k as int]);
        }
        if b.deleted_at.is_none() && contains_id(listing_ids, b.listing_id) {
            out.push(b);
        }
        k += 1;
    }
    proof {
        assert(bids@.subrange(0, bids@.len() as int) =~= bids@);
    }
    out
}

/// The live listings under `auction_id`, in listing order.
pub fn listings_of_auction(listings: &Vec<ListingRow>, auction_id: i32) -> (out: Vec<ListingRow>)
    ensures
        ({
            let incl = listings@.filter(
                |l: ListingRow| l.auction_id == auction_id && l.is_live(),
            );
            &&& out@.len() == incl.len()
            &&& forall|i: int| 0 <= i < out@.len() ==> (#[trigger] out@[i]).same_as(incl[i])
        }),
{
    let ghost pred = |l: ListingRow| l.auction_id == auction_id && l.is_live();
    let mut out: Vec<ListingRow> = Vec::new();
    let mut k: usize = 0;
    while k < listings.len()
        invariant
            k <= listings.len(),
            pred == (|l: ListingRow| l.auction_id == auction_id && l.is_live()),
            ({
                let incl = listings@.subrange(0, k as int).filter(pred);
                &&& out@.len() == incl.len()
                &&& forall|i: int| 0 <= i < out@.len() ==> (#[trigger] out@[i]).same_as(incl[i])
            }),
        decreases listings.len() - k,
    {
        let l = &listings[k];
        proof {
            reveal(Seq::filter);
            let pre = listings@.subrange(0, k as int);
            let ext = listings@.subrange(0, k + 1 as int);
            assert(ext.drop_last() =~= pre);
            assert(ext.last() == listings@[k as int]);
        }
        if l.auction_id == auction_id && l.deleted_at.is_none() {
            let copy = ListingRow {
                id: l.id,
                auction_id: l.auction_id,
                title: l.title.clone(),
                description: match &l.description {
                    Some(d) => Some(d.clone()),
                    None => None,
                },
                base_price_cents: l.base_price_cents,
                available_volume: l.available_volume,
                updated_at: l.updated_at,
                deleted_at: l.deleted_at,
            };
            out.push(copy);
        }
        k += 1;
    }
    proof {
        assert(listings@.subrange(0, listings@.len() as int) =~= listings@);
    }
    out
}

/// The first listing row carrying `listing_id`, if any.
pub open spec fn listing_with_id(listings: Seq<ListingRow>, listing_id: i32) -> Option<ListingRow>
    decreases listings.len(),
{
    if listings.len() == 0 {
        None
    } else if listings[0].id == listing_id {
        Some(listings[0])
    } else {
        listing_with_id(listings.drop_first(), listing_id)
    }
}

/// Finds the first listing row carrying `listing_id`.
pub fn find_listing<'a>(listings: &'a Vec<ListingRow>, listing_id: i32) -> (r: Option<
    &'a ListingRow,
>)
    ensures
        match r {
            Some(l) => listing_with_id(listings@, listing_id) == Some(*l),
            None => listing_with_id(listings@, listing_id) is None,
        },
{
    let mut k: usize = 0;
    proof {
        assert(listings@.skip(0) =~= listings@);
    }
    while k < listings.len()
        invariant
            k <= listings.len(),
            listing_with_id(listings@, listing_id) == listing_with_id(
                listings@.skip(k as int),
                listing_id,
            ),
        decreases listings.len() - k,
    {
        proof {
            assert(listings@.skip(k as int).drop_first() =~= listings@.skip(k + 1 as int));
            assert(listings@.skip(k as int)[0] == listings@[k as int]);
        }
        if listings[k].id == listing_id {
            return Some(&listings[k]);
        }
        k += 1;
    }
    proof {
        assert(listings@.skip(listings@.len() as int) =~= Seq::<ListingRow>::empty());
    }
    None
}

/// The first user row carrying `user_id`, if any.
pub open spec fn user_with_id(users: Seq<UserRow>, user_id: i32) -> Option<UserRow>
    decreases users.len(),
{
    if users.len() == 0 {
        None
    } else if users[0].id == user_id {
        Some(users[0])
    } else {
        user_with_id(users.drop_first(), user_id)
    }
}

/// Finds the first user row carrying `user_id`.
pub fn find_user<'a>(users: &'a Vec<UserRow>, user_id: i32) -> (r: Option<&'a UserRow>)
    ensures
        match r {
            Some(u) => user_with_id(users@, user_id) == Some(*u),
            None => user_with_id(users@, user_id) is None,
        },
{
    let mut k: usize = 0;
    proof {
        assert(users@.skip(0) =~= users@);
    }
    while k < users.len()
        invariant
            k <= users.len(),
            user_with_id(users@, user_id) == user_with_id(users@.skip(k as int), user_id),
        decreases users.len() - k,
    {
        proof {
            assert(users@.skip(k as int).drop_first() =~= users@.skip(k + 1 as int));
            assert(users@.skip(k as int)[0] == users@[k as int]);
        }
        if users[k].id == user_id {
            return Some(&users[k]);
        }
        k += 1;
    }
    proof {
        assert(users@.skip(users@.len() as int) =~= Seq::<UserRow>::empty());
    }
    None
}

/// One row of the bid board: a live bid joined with its bidder's name and its
/// listing's title.
#[derive(Clone, Debug, PartialEq)]
pub struct BidView {
    pub name: String,
    pub listing_title: String,
    pub amount_cents: u64,
    pub created_at: i64,
}

/// A bid appears on the board iff it is live and both its listing and its
/// user exist.
pub open spec fn board_includes(b: BidRow, listings: Seq<ListingRow>, users: Seq<UserRow>) -> bool {
    b.is_live() && listing_with_id(listings, b.listing_id) is Some && user_with_id(
        users,
        b.user_id,
    ) is Some
}

/// `v` is the correct board row for bid `b`.
pub open spec fn bid_view_for(
    b: BidRow,
    listings: Seq<ListingRow>,
    users: Seq<UserRow>,
    v: BidView,
) -> bool {
    &&& (user_with_id(users, b.user_id) matches Some(u) && v.name@ == u.name@)
    &&& (listing_with_id(listings, b.listing_id) matches Some(l) && v.listing_title@ == l.title@)
    &&& v.amount_cents == b.amount_cents
    &&& v.created_at == b.created_at
}

/// Builds the bid board: every live bid whose listing and user exist, in bid
/// order, joined with the bidder's name and the listing's title.
pub fn bid_board(
    bids: &Vec<BidRow>,
    listings: &Vec<ListingRow>,
    users: &Vec<UserRow>,
) -> (out: Vec<BidView>)
    ensures
        ({
            let incl = bids@.filter(|b: BidRow| board_includes(b, listings@, users@));
            &&& out@.len() == incl.len()
            &&& forall|i: int|
                0 <= i < out@.len() ==> bid_view_for(incl[i], listings@, users@, #[trigger] out@[i])
        }),
{
    let ghost pred = |b: BidRow| board_includes(b, listings@, users@);
    let mut out: Vec<BidView> = Vec::new();
    let mut k: usize = 0;
    while k < bids.len()
        invariant
            k <= bids.len(),
            pred == (|b: BidRow| board_includes(b, listings@, users@)),
            ({
                let incl = bids@.subrange(0, k as int).filter(pred);
                &&& out@.len() == incl.len()
                &&& forall|i: int|
                    0 <= i < out@.len() ==> bid_view_for(
                        incl[i],
                        listings@,
                        users@,
                        #[trigger] out@[i],
                    )
            }),
        decreases bids.len() - k,
    {
        let b = bids[k];
        proof {
            reveal(Seq::filter);
            let pre = bids@.subrange(0, k as int);
            let ext = bids@.subrange(0, k + 1 as int);
            assert(ext.drop_last() =~= pre);
            assert(ext.last() == bids@[k as int]);
        }
        if b.deleted_at.is_none() {
            if let Some(l) = find_listing(listings, b.listing_id) {
                if let Some(u) = find_user(users, b.user_id) {
                    let view_row = BidView {
                        name: u.name.clone(),
                        listing_title: l.title.clone(),
                        amount_cents: b.amount_cents,
                        created_at: b.created_at,
                    };
                    out.push(view_row);
                }
            }
        }
        k += 1;
    }
    proof {
        assert(bids@.subrange(0, bids@.len() as int) =~= bids@);
    }
    out
}

/// The first bid row carrying `bid_id`, if any.
pub open spec fn bid_with_id(bids: Seq<BidRow>, bid_id: i32) -> Option<BidRow>
    decreases bids.len(),
{
    if bids.len() == 0 {
        None
    } else if bids[0].id == bid_id {
        Some(bids[0])
    } else {
        bid_with_id(bids.drop_first(), bid_id)
    }
}

/// Finds the first bid row carrying `bid_id`.
pub fn find_bid(bids: &Vec<BidRow>, bid_id: i32) -> (r: Option<BidRow>)
    ensures
        r == bid_with_id(bids@, bid_id),
{
    let mut k: usize = 0;
    proof {
        assert(bids@.skip(0) =~= bids@);
    }
    while k < bids.len()
        invariant
            k <= bids.len(),
            bid_with_id(bids@, bid_id) == bid_with_id(bids@.skip(k as int), bid_id),
        decreases bids.len() - k,
    {
        proof {
            assert(bids@.skip(k as int).drop_first() =~= bids@.skip(k + 1 as int));
            assert(bids@.skip(k as int)[0] == bids@[k as int]);
        }
        if bids[k].id == bid_id {
            return Some(bids[k]);
        }
        k += 1;
    }
    proof {
        assert(bids@.skip(bids@.len() as int) =~= Seq::<BidRow>::empty());
    }
    None
}

/// One row of the results board: a settled listing joined with the winner's
/// name, the winning amount and the listing's title.
#[derive(Clone, Debug, PartialEq)]
pub struct ResultView {
    pub id: i32,
    pub name: String,
    pub amount_cents: u64,
    pub title: String,
    pub created_at: i64,
}

/// A result appears on the board iff it is live and its listing, winning user
/// and winning bid all exist.
pub open spec fn result_board_includes(
    r: ResultRecord,
    listings: Seq<ListingRow>,
    users: Seq<UserRow>,
    bids: Seq<BidRow>,
) -> bool {
    &&& r.is_live()
    &&& listing_with_id(listings, r.listing_id) is Some
    &&& user_with_id(users, r.winning_user_id) is Some
    &&& bid_with_id(bids, r.winning_bid_id) is Some
}

/// `v` is the correct board row for result `r`.
pub open spec fn result_view_for(
    r: ResultRecord,
    listings: Seq<ListingRow>,
    users: Seq<UserRow>,
    bids: Seq<BidRow>,
    v: ResultView,
) -> bool {
    &&& v.id == r.id
    &&& (user_with_id(users, r.winning_user_id) matches Some(u) && v.name@ == u.name@)
    &&& (bid_with_id(bids, r.winning_bid_id) matches Some(b) && v.amount_cents == b.amount_cents)
    &&& (listing_with_id(listings, r.listing_id) matches Some(l) && v.title@ == l.title@)
    &&& v.created_at == r.created_at
}

/// Builds the results board: every live settlement result whose listing,
/// winner and winning bid exist, in result order, joined with the winner's
/// name, the winning amount and the listing's title.
pub fn result_board(
    results: &Vec<ResultRecord>,
    listings: &Vec<ListingRow>,
    users: &Vec<UserRow>,
    bids: &Vec<BidRow>,
) -> (out: Vec<ResultView>)
    ensures
        ({
            let incl = results@.filter(
                |r: ResultRecord| result_board_includes(r, listings@, users@, bids@),
            );
            &&& out@.len() == incl.len()
            &&& forall|i: int|
                0 <= i < out@.len() ==> result_view_for(
                    incl[i],
                    listings@,
                    users@,
                    bids@,
                    #[trigger] out@[i],
                )
        }),
{
    let ghost pred = |r: ResultRecord| result_board_includes(r, listings@, users@, bids@);
    let mut out: Vec<ResultView> = Vec::new();
    let mut k: usize = 0;
    while k < results.len()
        invariant
            k <= results.len(),
            pred == (|r: ResultRecord| result_board_includes(r, listings@, users@, bids@)),
            ({
                let incl = results@.subrange(0, k as int).filter(pred);
                &&& out@.len() == incl.len()
                &&& forall|i: int|
                    0 <= i < out@.len() ==> result_view_for(
                        incl[i],
                        listings@,
                        users@,
                        bids@,
                        #[trigger] out@[i],
                    )
            }),
        decreases results.len() - k,
    {
        let r = results[k];
        proof {
            reveal(Seq::filter);
            let pre = results@.subrange(0, k as int);
            let ext = results@.subrange(0, k + 1 as int);
            assert(ext.drop_last() =~= pre);
            assert(ext.last() == results@[k as int]);
        }
        if r.deleted_at.is_none() {
            if let Some(l) = find_listing(listings, r.listing_id) {
                if let Some(u) = find_user(users, r.winning_user_id) {
                    if let Some(b) = find_bid(bids, r.winning_bid_id) {
                        let view_row = ResultView {
                            id: r.id,
                            name: u.name.clone(),
                            amount_cents: b.amount_cents,
                            title: l.title.clone(),
                            created_at: r.created_at,
                        };
                        out.push(view_row);
                    }
                }
            }
        }
        k += 1;
    }
    proof {
        assert(results@.subrange(0, results@.len() as int) =~= results@);
    }
    out
}

/// The first live user holding `phone_number`, if any.
pub open spec fn user_with_phone(users: Seq<UserRow>, phone_number: Seq<char>) -> Option<UserRow>
    decreases users.len(),
{
    if users.len() == 0 {
        None
    } else if users[0].is_live() && users[0].phone_number@ == phone_number {
        Some(users[0])
    } else {
        user_with_phone(users.drop_first(), phone_number)
    }
}

/// Finds the live user registered under `phone_number`.
pub fn find_user_by_phone<'a>(users: &'a Vec<UserRow>, phone_number: &String) -> (r: Option<
    &'a UserRow,
>)
    ensures
        match r {
            Some(u) => user_with_phone(users@, phone_number@) == Some(*u),
            None => user_with_phone(users@, phone_number@) is None,
        },
{
    let mut k: usize = 0;
    proof {
        assert(users@.skip(0) =~= users@);
    }
    while k < users.len()
        invariant
            k <= users.len(),
            user_with_phone(users@, phone_number@) == user_with_phone(
                users@.skip(k as int),
                phone_number@,
            ),
        decreases users.len() - k,
    {
        proof {
            assert(users@.skip(k as int).drop_first() =~= users@.skip(k + 1 as int));
            assert(users@.skip(k as int)[0] == users@[k as int]);
        }
        if users[k].deleted_at.is_none() && users[k].phone_number.eq(phone_number) {
            return Some(&users[k]);
        }
        k += 1;
    }
    proof {
        assert(users@.skip(users@.len() as int) =~= Seq::<UserRow>::empty());
    }
    None
}

} // verus!
