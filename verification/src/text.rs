//! Settlement notification text.
//!
//! The messages announce one listing's outcome on the operator channel. A won
//! listing names the auction, the listing title, the winning amount and the
//! winner; a listing with no live bids names the auction and title and states
//! that no bids were placed. Amounts are integer cents rendered with two
//! decimal places.

use vstd::prelude::*;

verus! {

/// The decimal digit character for `d`.
pub open spec fn digit_char(d: int) -> char {
    if d == 0 {
        '0'
    } else if d == 1 {
        '1'
    } else if d == 2 {
        '2'
    } else if d == 3 {
        '3'
    } else if d == 4 {
        '4'
    } else if d == 5 {
        '5'
    } else if d == 6 {
        '6'
    } else if d == 7 {
        '7'
    } else if d == 8 {
        '8'
    } else {
        '9'
    }
}

/// The decimal rendering of `n`, without sign or leading zeros.
pub open spec fn dec_str(n: nat) -> Seq<char>
    decreases n,
{
    if n < 10 {
        seq![digit_char(n as int)]
    } else {
        dec_str(n / 10) + seq![digit_char((n % 10) as int)]
    }
}

/// The decimal rendering of `n`, with a leading minus sign when negative.
pub open spec fn int_str(n: int) -> Seq<char> {
    if n < 0 {
        seq!['-'] + dec_str((-n) as nat)
    } else {
        dec_str(n as nat)
    }
}

/// `cents` rendered as a currency amount with two decimal places.
pub open spec fn money_str(cents: nat) -> Seq<char> {
    dec_str(cents / 100) + seq!['.', digit_char(((cents % 100) / 10) as int), digit_char((cents % 10) as int)]
}

/// The message announcing a won listing.
pub open spec fn winner_message_text(
    auction_id: i32,
    title: Seq<char>,
    amount_cents: u64,
    winner_name: Seq<char>,
) -> Seq<char> {
    "Auction Result:\nAuction ID: "@ + int_str(auction_id as int) + "\nListing: "@ + title
        + "\nWinning Bid: "@ + money_str(amount_cents as nat) + "\nWinner: "@ + winner_name
}

/// The message announcing a listing that closed with no live bids.
pub open spec fn no_bids_message_text(auction_id: i32, title: Seq<char>) -> Seq<char> {
    "Auction Result:\nAuction ID: "@ + int_str(auction_id as int) + "\nListing: "@ + title
        + "\nNo bids were placed."@
}

/// The one-character string for digit `d`.
fn digit_literal(d: u64) -> (s: &'static str)
    requires
        d < 10,
    ensures
        s@ == seq![digit_char(d as int)],
{
    proof {
        reveal_strlit("0");
        reveal_strlit("1");
        reveal_strlit("2");
        reveal_strlit("3");
        reveal_strlit("4");
        reveal_strlit("5");
        reveal_strlit("6");
        reveal_strlit("7");
        reveal_strlit("8");
        reveal_strlit("9");
    }
    let s = match d {
        0 => "0",
        1 => "1",
        2 => "2",
        3 => "3",
        4 => "4",
        5 => "5",
        6 => "6",
        7 => "7",
        8 => "8",
        _ => "9",
    };
    proof {
        assert(s@ =~= seq![digit_char(d as int)]);
    }
    s
}

/// Appends the decimal rendering of `n` to `out`.
pub fn push_dec(out: &mut String, n: u64)
    ensures
        final(out)@ == old(out)@ + dec_str(n as nat),
    decreases n,
{
    if n < 10 {
        out.append(digit_literal(n));
    } else {
        push_dec(out, n / 10);
        out.append(digit_literal(n % 10));
        proof {
            assert(old(out)@ + dec_str((n / 10) as nat) + seq![digit_char((n % 10) as int)]
                =~= old(out)@ + dec_str(n as nat));
        }
    }
}

/// Appends the signed decimal rendering of `n` to `out`.
pub fn push_int(out: &mut String, n: i64)
    ensures
        final(out)@ == old(out)@ + int_str(n as int),
{
    if n < 0 {
        proof {
            reveal_strlit("-");
        }
        out.append("-");
        let m: u64 = (-(n as i128)) as u64;
        push_dec(out, m);
        proof {
            assert(old(out)@ + "-"@ + dec_str(m as nat) =~= old(out)@ + int_str(n as int));
        }
    } else {
        push_dec(out, n as u64);
    }
}

/// Appends `cents` rendered as a currency amount with two decimal places.
pub fn push_money(out: &mut String, cents: u64)
    ensures
        final(out)@ == old(out)@ + money_str(cents as nat),
{
    push_dec(out, cents / 100);
    proof {
        reveal_strlit(".");
    }
    out.append(".");
    out.append(digit_literal((cents % 100) / 10));
    out.append(digit_literal(cents % 10));
    proof {
        assert(old(out)@ + dec_str((cents / 100) as nat) + "."@ + seq![digit_char(
            (((cents % 100) / 10)) as int,
        )] + seq![digit_char((cents % 10) as int)] =~= old(out)@ + money_str(cents as nat));
    }
}

/// Builds the message announcing a won listing.
pub fn winner_message(auction_id: i32, title: &str, amount_cents: u64, winner_name: &str) -> (m:
    String)
    ensures
        m@ == winner_message_text(auction_id, title@, amount_cents, winner_name@),
{
    let mut m = String::new();
    m.append("Auction Result:\nAuction ID: ");
    push_int(&mut m, auction_id as i64);
    m.append("\nListing: ");
    m.append(title);
    m.append("\nWinning Bid: ");
    push_money(&mut m, amount_cents);
    m.append("\nWinner: ");
    m.append(winner_name);
    proof {
        assert(m@ =~= winner_message_text(auction_id, title@, amount_cents, winner_name@));
    }
    m
}

/// Builds the message announcing a listing that closed with no live bids.
pub fn no_bids_message(auction_id: i32, title: &str) -> (m: String)
    ensures
        m@ == no_bids_message_text(auction_id, title@),
{
    let mut m = String::new();
    m.append("Auction Result:\nAuction ID: ");
    push_int(&mut m, auction_id as i64);
    m.append("\nListing: ");
    m.append(title);
    m.append("\nNo bids were placed.");
    proof {
        assert(m@ =~= no_bids_message_text(auction_id, title@));
    }
    m
}

} // verus!
