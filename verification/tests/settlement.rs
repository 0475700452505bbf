use auction_settlement::domain::{AuctionRow, BidRow, ListingRow, UserRow};
use auction_settlement::pass::{InsertStatus, PassAction, PassRun, SendStatus};
use auction_settlement::settle::plan_settlement;

fn auction(id: i32, start: i64, end: i64) -> AuctionRow {
    AuctionRow {
        id,
        name: format!("Auction {}", id),
        start_time: start,
        end_time: end,
        updated_at: 0,
        deleted_at: None,
    }
}

fn listing(id: i32, auction_id: i32, title: &str) -> ListingRow {
    ListingRow {
        id,
        auction_id,
        title: title.to_string(),
        description: None,
        base_price_cents: 5000,
        available_volume: 1,
        updated_at: 0,
        deleted_at: None,
    }
}

fn bid(id: i32, listing_id: i32, user_id: i32, amount_cents: u64) -> BidRow {
    BidRow { id, listing_id, user_id, amount_cents, created_at: 0, deleted_at: None }
}

fn user(id: i32, name: &str) -> UserRow {
    UserRow {
        id,
        name: name.to_string(),
        phone_number: format!("+25479200000{}", id),
        updated_at: 0,
        deleted_at: None,
    }
}

// One closed auction, one listing with a tie at the maximum and one listing
// with no bids: the first bid at the maximum wins, the empty listing gets a
// "no bids" notification and no result row.
#[test]
fn one_pass_settles_tie_and_no_bids() {
    let auctions = vec![auction(1, 0, 100)];
    let listings = vec![listing(10, 1, "Lot one"), listing(20, 1, "Lot two")];
    let bids = vec![bid(1, 10, 1, 10000), bid(2, 10, 2, 15000), bid(3, 10, 3, 15000)];
    let users = vec![user(1, "Alice"), user(2, "Bob"), user(3, "Carol")];
    let settled: Vec<i32> = vec![];

    let plan = plan_settlement(200, &auctions, &listings, &bids, &users, &settled);
    assert_eq!(plan.len(), 2);
    let w = plan[0].winner.as_ref().expect("lot one has a winner");
    assert_eq!(w.bid_id, 2);
    assert_eq!(w.user_id, 2);
    assert_eq!(w.amount_cents, 15000);
    assert_eq!(w.user_name, "Bob");
    assert!(plan[1].winner.is_none());

    let mut run = PassRun::new(plan);

    match run.next_action() {
        PassAction::Insert(row) => {
            assert_eq!(row.listing_id, 10);
            assert_eq!(row.winning_bid_id, 2);
            assert_eq!(row.winning_user_id, 2);
        },
        _ => panic!("expected an insert for lot one"),
    }
    run.note_insert(InsertStatus::Inserted);

    match run.next_action() {
        PassAction::Send(m) => {
            assert_eq!(
                m,
                "Auction Result:\nAuction ID: 1\nListing: Lot one\nWinning Bid: 150.00\nWinner: Bob"
            );
        },
        _ => panic!("expected the winner notification for lot one"),
    }
    run.note_send(SendStatus::Sent);

    match run.next_action() {
        PassAction::Send(m) => {
            assert_eq!(m, "Auction Result:\nAuction ID: 1\nListing: Lot two\nNo bids were placed.");
        },
        _ => panic!("expected the no-bids notification for lot two"),
    }
    run.note_send(SendStatus::Sent);

    assert!(run.done());
    assert!(matches!(run.next_action(), PassAction::Done));
    assert_eq!(run.recorded, vec![10]);
    assert_eq!(run.notified, vec![10, 20]);
    assert!(run.skipped.is_empty());
    assert!(run.send_failed.is_empty());
    assert!(!run.aborted);
}

// A soft-deleted bid is excluded from winner computation even if numerically
// highest.
#[test]
fn soft_deleted_bid_never_wins() {
    let auctions = vec![auction(1, 0, 100)];
    let listings = vec![listing(10, 1, "Lot one")];
    let mut ghost_bid = bid(9, 10, 9, 99999);
    ghost_bid.deleted_at = Some(50);
    let bids = vec![ghost_bid, bid(1, 10, 1, 10000)];
    let users = vec![user(1, "Alice"), user(9, "Mallory")];
    let settled: Vec<i32> = vec![];

    let plan = plan_settlement(200, &auctions, &listings, &bids, &users, &settled);
    assert_eq!(plan.len(), 1);
    let w = plan[0].winner.as_ref().expect("the live bid wins");
    assert_eq!(w.bid_id, 1);
    assert_eq!(w.user_id, 1);
    assert_eq!(w.amount_cents, 10000);
    assert_eq!(w.user_name, "Alice");
}

// An auction whose end time has not passed is never part of a pass; the
// boundary instant itself (end_time == now) stays open.
#[test]
fn open_auctions_never_settled() {
    let auctions = vec![auction(1, 0, 100), auction(2, 0, 300)];
    let listings = vec![listing(10, 1, "Closed lot"), listing(20, 2, "Open lot")];
    let bids = vec![bid(1, 10, 1, 1000), bid(2, 20, 1, 2000)];
    let users = vec![user(1, "Alice")];
    let settled: Vec<i32> = vec![];

    let plan = plan_settlement(200, &auctions, &listings, &bids, &users, &settled);
    assert_eq!(plan.len(), 1);
    assert_eq!(plan[0].listing_id, 10);

    // At the boundary the window is still open: nothing settles at
    // now == end_time, everything one second later.
    let at_boundary = plan_settlement(100, &auctions, &listings, &bids, &users, &settled);
    assert!(at_boundary.is_empty());
    let just_after = plan_settlement(101, &auctions, &listings, &bids, &users, &settled);
    assert_eq!(just_after.len(), 1);
    assert_eq!(just_after[0].listing_id, 10);
}

// A soft-deleted auction or listing is not settled.
#[test]
fn deleted_records_are_skipped() {
    let mut dead_auction = auction(1, 0, 100);
    dead_auction.deleted_at = Some(150);
    let auctions = vec![dead_auction, auction(2, 0, 100)];
    let mut dead_listing = listing(20, 2, "Gone");
    dead_listing.deleted_at = Some(150);
    let listings = vec![listing(10, 1, "Under dead auction"), dead_listing, listing(30, 2, "Live")];
    let bids = vec![bid(1, 10, 1, 1000), bid(2, 20, 1, 1000), bid(3, 30, 1, 1000)];
    let users = vec![user(1, "Alice")];
    let settled: Vec<i32> = vec![];

    let plan = plan_settlement(200, &auctions, &listings, &bids, &users, &settled);
    assert_eq!(plan.len(), 1);
    assert_eq!(plan[0].listing_id, 30);
}

// Running the pass twice produces exactly one result per listing: the second
// pass, told what the first recorded, plans nothing for those listings.
#[test]
fn second_pass_writes_nothing() {
    let auctions = vec![auction(1, 0, 100)];
    let listings = vec![listing(10, 1, "Lot one"), listing(20, 1, "Lot two")];
    let bids = vec![bid(1, 10, 1, 10000), bid(2, 20, 2, 20000)];
    let users = vec![user(1, "Alice"), user(2, "Bob")];
    let settled: Vec<i32> = vec![];

    let plan = plan_settlement(200, &auctions, &listings, &bids, &users, &settled);
    let mut run = PassRun::new(plan);
    while !run.done() {
        match run.next_action() {
            PassAction::Insert(_) => run.note_insert(InsertStatus::Inserted),
            PassAction::Send(_) => run.note_send(SendStatus::Sent),
            PassAction::Done => break,
        }
    }
    assert_eq!(run.recorded, vec![10, 20]);

    let plan2 = plan_settlement(260, &auctions, &listings, &bids, &users, &run.recorded);
    assert!(plan2.is_empty());
    let mut run2 = PassRun::new(plan2);
    assert!(run2.done());
    assert!(matches!(run2.next_action(), PassAction::Done));
    assert!(run2.recorded.is_empty());
}

// A racing writer that got its row in first is a benign skip at insert time:
// the pass neither fails nor records nor re-notifies that listing, and goes
// on with the next one.
#[test]
fn duplicate_insert_is_a_benign_skip() {
    let auctions = vec![auction(1, 0, 100)];
    let listings = vec![listing(10, 1, "Lot one"), listing(20, 1, "Lot two")];
    let bids = vec![bid(1, 10, 1, 10000), bid(2, 20, 2, 20000)];
    let users = vec![user(1, "Alice"), user(2, "Bob")];
    let settled: Vec<i32> = vec![];

    let plan = plan_settlement(200, &auctions, &listings, &bids, &users, &settled);
    let mut run = PassRun::new(plan);

    assert!(matches!(run.next_action(), PassAction::Insert(_)));
    run.note_insert(InsertStatus::AlreadySettled);

    // Straight to the second listing: no send for the skipped one.
    match run.next_action() {
        PassAction::Insert(row) => assert_eq!(row.listing_id, 20),
        _ => panic!("expected the insert for lot two"),
    }
    run.note_insert(InsertStatus::Inserted);
    run.note_send(SendStatus::Sent);

    assert!(run.done());
    assert_eq!(run.skipped, vec![10]);
    assert_eq!(run.recorded, vec![20]);
    assert_eq!(run.notified, vec![20]);
    assert!(!run.aborted);
}

// A transient storage failure aborts the remainder of the pass; the next tick
// retries from scratch.
#[test]
fn storage_failure_aborts_the_pass() {
    let auctions = vec![auction(1, 0, 100)];
    let listings = vec![listing(10, 1, "Lot one"), listing(20, 1, "Lot two")];
    let bids = vec![bid(1, 10, 1, 10000), bid(2, 20, 2, 20000)];
    let users = vec![user(1, "Alice"), user(2, "Bob")];
    let settled: Vec<i32> = vec![];

    let plan = plan_settlement(200, &auctions, &listings, &bids, &users, &settled);
    let mut run = PassRun::new(plan);

    assert!(matches!(run.next_action(), PassAction::Insert(_)));
    run.note_insert(InsertStatus::StoreFailed);

    assert!(run.aborted);
    assert!(run.done());
    assert!(matches!(run.next_action(), PassAction::Done));
    assert!(run.recorded.is_empty());
    assert!(run.notified.is_empty());
}

// A notification failure neither rolls back the recorded result nor stops
// the remaining listings.
#[test]
fn send_failure_does_not_block_settlement() {
    let auctions = vec![auction(1, 0, 100)];
    let listings = vec![listing(10, 1, "Lot one"), listing(20, 1, "Lot two")];
    let bids = vec![bid(1, 10, 1, 10000), bid(2, 20, 2, 20000)];
    let users = vec![user(1, "Alice"), user(2, "Bob")];
    let settled: Vec<i32> = vec![];

    let plan = plan_settlement(200, &auctions, &listings, &bids, &users, &settled);
    let mut run = PassRun::new(plan);

    run.note_insert(InsertStatus::Inserted);
    run.note_send(SendStatus::SendFailed);

    // The failed send cost lot one nothing and lot two is still processed.
    match run.next_action() {
        PassAction::Insert(row) => assert_eq!(row.listing_id, 20),
        _ => panic!("expected the insert for lot two"),
    }
    run.note_insert(InsertStatus::Inserted);
    run.note_send(SendStatus::Sent);

    assert!(run.done());
    assert_eq!(run.recorded, vec![10, 20]);
    assert_eq!(run.send_failed, vec![10]);
    assert_eq!(run.notified, vec![20]);
    assert!(!run.aborted);
}

// A winner whose user row is missing is announced under the fixed fallback
// name, as the join does not fail the pass.
#[test]
fn missing_user_gets_fallback_name() {
    let auctions = vec![auction(1, 0, 100)];
    let listings = vec![listing(10, 1, "Lot one")];
    let bids = vec![bid(1, 10, 77, 10000)];
    let users = vec![user(1, "Alice")];
    let settled: Vec<i32> = vec![];

    let plan = plan_settlement(200, &auctions, &listings, &bids, &users, &settled);
    let w = plan[0].winner.as_ref().expect("a winner exists");
    assert_eq!(w.user_name, "Unknown User");
}
