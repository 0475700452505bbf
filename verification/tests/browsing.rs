use auction_settlement::browse::{
    active_listing_ids, bid_board, find_user_by_phone, listings_of_auction, live_bids_on,
    result_board, status_label, summarize_listings, ListingStatus,
};
use auction_settlement::domain::{AuctionRow, BidRow, ListingRow, ResultRecord, UserRow};
use auction_settlement::winner::select_winner;

fn auction(id: i32, start: i64, end: i64) -> AuctionRow {
    AuctionRow {
        id,
        name: format!("Auction {}", id),
        start_time: start,
        end_time: end,
        updated_at: 0,
        deleted_at: None,
    }
}

fn listing(id: i32, auction_id: i32, title: &str) -> ListingRow {
    ListingRow {
        id,
        auction_id,
        title: title.to_string(),
        description: Some(format!("About {}", title)),
        base_price_cents: 2500,
        available_volume: 4,
        updated_at: 0,
        deleted_at: None,
    }
}

fn bid(id: i32, listing_id: i32, user_id: i32, amount_cents: u64) -> BidRow {
    BidRow { id, listing_id, user_id, amount_cents, created_at: 0, deleted_at: None }
}

#[test]
fn overview_shows_windows_and_best_bids() {
    // Auction 1 not started, auction 2 running, auction 3 ended.
    let auctions = vec![auction(1, 300, 400), auction(2, 0, 250), auction(3, 0, 100)];
    let listings =
        vec![listing(10, 1, "Future lot"), listing(20, 2, "Running lot"), listing(30, 3, "Past lot")];
    let bids = vec![
        bid(1, 20, 5, 1000),
        bid(2, 20, 6, 3000),
        bid(3, 20, 5, 2000),
        bid(4, 30, 5, 9000),
    ];

    let out = summarize_listings(200, &auctions, &listings, &bids, 5);
    assert_eq!(out.len(), 2);

    assert_eq!(out[0].listing_id, 10);
    assert_eq!(out[0].status, ListingStatus::NotStarted);
    assert_eq!(out[0].end_time, 400);
    assert_eq!(out[0].title, "Future lot");
    assert_eq!(out[0].description.as_deref(), Some("About Future lot"));
    assert_eq!(out[0].base_price_cents, 2500);
    assert_eq!(out[0].available_volume, 4);
    assert_eq!(out[0].highest_user_bid_cents, 0);
    assert_eq!(out[0].highest_anyone_bid_cents, 0);
    assert_eq!(out[0].total_bids, 0);

    assert_eq!(out[1].listing_id, 20);
    assert_eq!(out[1].status, ListingStatus::Active);
    assert_eq!(out[1].highest_user_bid_cents, 2000);
    assert_eq!(out[1].highest_anyone_bid_cents, 3000);
    assert_eq!(out[1].total_bids, 3);

    assert_eq!(status_label(ListingStatus::NotStarted), "Not Started");
    assert_eq!(status_label(ListingStatus::Active), "Active");
}

#[test]
fn active_bids_cover_running_windows_only() {
    let auctions = vec![auction(1, 0, 100), auction(2, 50, 300)];
    let listings = vec![listing(10, 1, "Ended"), listing(20, 2, "Running")];
    let ids = active_listing_ids(200, &auctions, &listings);
    assert_eq!(ids, vec![20]);

    let mut removed = bid(3, 20, 6, 500);
    removed.deleted_at = Some(120);
    let bids = vec![bid(1, 10, 5, 1000), bid(2, 20, 5, 700), removed, bid(4, 20, 6, 900)];
    let active = live_bids_on(&bids, &ids);
    let got: Vec<i32> = active.iter().map(|b| b.id).collect();
    assert_eq!(got, vec![2, 4]);
}

#[test]
fn listing_directory_per_auction() {
    let mut gone = listing(30, 1, "Gone");
    gone.deleted_at = Some(10);
    let listings = vec![listing(10, 1, "A"), listing(20, 2, "B"), gone, listing(40, 1, "C")];
    let out = listings_of_auction(&listings, 1);
    let got: Vec<i32> = out.iter().map(|l| l.id).collect();
    assert_eq!(got, vec![10, 40]);
    assert_eq!(out[0].title, "A");
    assert_eq!(out[1].title, "C");
}

// The bid board joins each live bid with its bidder's name and listing title;
// deleted bids and bids whose listing or user is missing stay off the board.
#[test]
fn bid_board_joins_names_and_titles() {
    let listings = vec![listing(10, 1, "Radio"), listing(20, 1, "Lamp")];
    let users = vec![
        UserRow {
            id: 5,
            name: "Alice".to_string(),
            phone_number: "+254792000005".to_string(),
            updated_at: 0,
            deleted_at: None,
        },
    ];
    let mut erased = bid(2, 10, 5, 800);
    erased.deleted_at = Some(9);
    let bids = vec![
        bid(1, 10, 5, 700),
        erased,
        bid(3, 99, 5, 900),  // no such listing
        bid(4, 20, 6, 950),  // no such user
        bid(5, 20, 5, 1000),
    ];
    let board = bid_board(&bids, &listings, &users);
    assert_eq!(board.len(), 2);
    assert_eq!(board[0].name, "Alice");
    assert_eq!(board[0].listing_title, "Radio");
    assert_eq!(board[0].amount_cents, 700);
    assert_eq!(board[1].listing_title, "Lamp");
    assert_eq!(board[1].amount_cents, 1000);
}

// The results board joins each live settlement result with the winner's
// name, the winning amount and the listing's title.
#[test]
fn result_board_joins_results() {
    let listings = vec![listing(10, 1, "Radio")];
    let users = vec![
        UserRow {
            id: 5,
            name: "Alice".to_string(),
            phone_number: "+254792000005".to_string(),
            updated_at: 0,
            deleted_at: None,
        },
    ];
    let bids = vec![bid(1, 10, 5, 700)];
    let results = vec![
        ResultRecord {
            id: 100,
            listing_id: 10,
            winning_bid_id: 1,
            winning_user_id: 5,
            created_at: 250,
            deleted_at: None,
        },
        ResultRecord {
            id: 101,
            listing_id: 10,
            winning_bid_id: 1,
            winning_user_id: 5,
            created_at: 260,
            deleted_at: Some(300),
        },
        ResultRecord {
            id: 102,
            listing_id: 99,
            winning_bid_id: 1,
            winning_user_id: 5,
            created_at: 270,
            deleted_at: None,
        },
    ];
    let board = result_board(&results, &listings, &users, &bids);
    assert_eq!(board.len(), 1);
    assert_eq!(board[0].id, 100);
    assert_eq!(board[0].name, "Alice");
    assert_eq!(board[0].amount_cents, 700);
    assert_eq!(board[0].title, "Radio");
    assert_eq!(board[0].created_at, 250);
}

#[test]
fn user_lookup_by_phone() {
    let mut gone = UserRow {
        id: 1,
        name: "Old Alice".to_string(),
        phone_number: "+254792315642".to_string(),
        updated_at: 0,
        deleted_at: Some(9),
    };
    let alice = UserRow {
        id: 2,
        name: "Alice".to_string(),
        phone_number: "+254792315642".to_string(),
        updated_at: 0,
        deleted_at: None,
    };
    let users = vec![gone.clone(), alice.clone()];
    let found = find_user_by_phone(&users, &"+254792315642".to_string()).expect("live user found");
    assert_eq!(found.id, 2);
    assert_eq!(found.name, "Alice");
    assert!(find_user_by_phone(&users, &"+254700000000".to_string()).is_none());
    gone.deleted_at = None;
    let both = vec![gone, alice];
    let first = find_user_by_phone(&both, &"+254792315642".to_string()).expect("first live match");
    assert_eq!(first.id, 1);
}

#[test]
fn winner_selection_orders_and_filters() {
    // No bids on the listing at all.
    assert!(select_winner(&vec![], 7).is_none());
    // Bids on other listings do not count.
    let bids = vec![bid(1, 8, 1, 1000)];
    assert!(select_winner(&bids, 7).is_none());
    // The strictly greatest amount wins; a tie goes to the earliest bid.
    let bids = vec![bid(1, 7, 1, 1000), bid(2, 7, 2, 1500), bid(3, 7, 3, 1500)];
    let w = select_winner(&bids, 7).expect("winner");
    assert_eq!(w.id, 2);
    // A later strictly greater bid replaces the held one.
    let bids = vec![bid(1, 7, 1, 1500), bid(2, 7, 2, 1600)];
    assert_eq!(select_winner(&bids, 7).unwrap().id, 2);
    // A soft-deleted bid never wins.
    let mut dead = bid(9, 7, 9, 9999);
    dead.deleted_at = Some(1);
    let bids = vec![dead, bid(1, 7, 1, 10)];
    assert_eq!(select_winner(&bids, 7).unwrap().id, 1);
}
