use auction_settlement::text::{no_bids_message, push_dec, push_int, push_money, winner_message};

#[test]
fn decimal_rendering() {
    let mut s = String::new();
    push_dec(&mut s, 0);
    assert_eq!(s, "0");
    let mut s = String::new();
    push_dec(&mut s, 7);
    assert_eq!(s, "7");
    let mut s = String::new();
    push_dec(&mut s, 15000);
    assert_eq!(s, "15000");
    let mut s = String::from("x=");
    push_dec(&mut s, 10);
    assert_eq!(s, "x=10");
}

#[test]
fn signed_rendering() {
    let mut s = String::new();
    push_int(&mut s, -42);
    assert_eq!(s, "-42");
    let mut s = String::new();
    push_int(&mut s, 42);
    assert_eq!(s, "42");
    let mut s = String::new();
    push_int(&mut s, i64::MIN);
    assert_eq!(s, "-9223372036854775808");
}

#[test]
fn money_rendering() {
    let mut s = String::new();
    push_money(&mut s, 15000);
    assert_eq!(s, "150.00");
    let mut s = String::new();
    push_money(&mut s, 12345);
    assert_eq!(s, "123.45");
    let mut s = String::new();
    push_money(&mut s, 5);
    assert_eq!(s, "0.05");
    let mut s = String::new();
    push_money(&mut s, 99);
    assert_eq!(s, "0.99");
    let mut s = String::new();
    push_money(&mut s, 100);
    assert_eq!(s, "1.00");
}

#[test]
fn notification_texts() {
    assert_eq!(
        winner_message(3, "Vintage radio", 15000, "Bob"),
        "Auction Result:\nAuction ID: 3\nListing: Vintage radio\nWinning Bid: 150.00\nWinner: Bob"
    );
    assert_eq!(
        no_bids_message(3, "Vintage radio"),
        "Auction Result:\nAuction ID: 3\nListing: Vintage radio\nNo bids were placed."
    );
}
