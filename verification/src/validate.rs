//! Validation of incoming create/update requests, and the small decisions the
//! write paths make before touching the store.
//!
//! Each `*Data` type carries one request body; `validate` accepts or rejects
//! it with the exact error message of the endpoint. The planners decide what
//! the store call should be — create or refresh a user, accept or reject a
//! bid — from plain values the caller fetched.

use vstd::prelude::*;
use crate::domain::{AuctionRow, ListingRow, UserRow};

verus! {

/// A decimal digit.
pub open spec fn is_digit_char(c: char) -> bool {
    '0' <= c && c <= '9'
}

/// A valid phone number: the fixed national prefix `+254` followed by exactly
/// nine digits.
pub open spec fn valid_phone(s: Seq<char>) -> bool {
    &&& s.len() == 13
    &&& s[0] == '+'
    &&& s[1] == '2'
    &&& s[2] == '5'
    &&& s[3] == '4'
    &&& forall|i: int| 4 <= i < 13 ==> is_digit_char(#[trigger] s[i])
}

/// A user create/upsert request.
#[derive(Clone, Debug, PartialEq)]
pub struct UserData {
    pub phone_number: String,
    pub name: String,
}

impl UserData {
    /// Accepts the request iff the name is present and the phone number has
    /// the national format; rejects with the endpoint's exact message.
    pub fn validate(&self) -> (r: Result<(), String>)
        ensures
            r is Ok <==> (self.name@.len() > 0 && valid_phone(self.phone_number@)),
            self.name@.len() == 0 ==> (r matches Err(e) && e@ == "Name is required"@),
            self.name@.len() > 0 && self.phone_number@.len() == 0 ==> (r matches Err(e) && e@
                == "Phone number is required"@),
            self.name@.len() > 0 && self.phone_number@.len() > 0 && !valid_phone(
                self.phone_number@,
            ) ==> (r matches Err(e) && e@ == "Phone number is not valid."@),
    {
        if self.name.as_str().is_empty() {
            return Err(String::from_str("Name is required"));
        }
        if self.phone_number.as_str().is_empty() {
            return Err(String::from_str("Phone number is required"));
        }
        if !Self::validate_phone_number(self.phone_number.as_str()) {
            return Err(String::from_str("Phone number is not valid."));
        }
        Ok(())
    }

    /// Whether `phone_number` is `+254` followed by exactly nine digits.
    pub fn validate_phone_number(phone_number: &str) -> (r: bool)
        ensures
            r == valid_phone(phone_number@),
    {
        let n = phone_number.unicode_len();
        if n != 13 {
            return false;
        }
        if phone_number.get_char(0) != '+' {
            return false;
        }
        if phone_number.get_char(1) != '2' {
            return false;
        }
        if phone_number.get_char(2) != '5' {
            return false;
        }
        if phone_number.get_char(3) != '4' {
            return false;
        }
        let mut i: usize = 4;
        while i < 13
            invariant
                4 <= i <= 13,
                phone_number@.len() == 13,
                forall|j: int| 4 <= j < i ==> is_digit_char(#[trigger] phone_number@[j]),
            decreases 13 - i,
        {
            let c = phone_number.get_char(i);
            if !(c >= '0' && c <= '9') {
                return false;
            }
            i += 1;
        }
        true
    }
}

/// How a validated user request is applied: a fresh row, or a refresh of the
/// live row already holding the phone number.
#[derive(Clone, Copy, Debug, PartialEq, Eq)]
pub enum UserUpsert {
    /// No live user holds the phone number: insert one.
    Create,
    /// A live user holds it: rewrite name and phone number, touching the
    /// update timestamp only when both differ from the stored values.
    Refresh { touch_updated_at: bool },
}

/// Decides how to apply a user request, given the live user found under its
/// phone number, if any.
pub fn plan_user_upsert(existing: &Option<UserRow>, data: &UserData) -> (r: UserUpsert)
    ensures
        existing is None ==> r == UserUpsert::Create,
        existing matches Some(u) ==> r == (UserUpsert::Refresh {
            touch_updated_at: u.name@ != data.name@ && u.phone_number@ != data.phone_number@,
        }),
{
    match existing {
        None => UserUpsert::Create,
        Some(u) => UserUpsert::Refresh {
            touch_updated_at: !u.name.eq(&data.name) && !u.phone_number.eq(&data.phone_number),
        },
    }
}

/// The response message of a user upsert.
pub open spec fn upsert_message_text(r: UserUpsert) -> Seq<char> {
    match r {
        UserUpsert::Create => "User created successfully"@,
        UserUpsert::Refresh { touch_updated_at } => if touch_updated_at {
            "User updated successfully. Continue to auction"@
        } else {
            "User exists, continue to auction"@
        },
    }
}

/// Builds the response message of a user upsert.
pub fn upsert_message(r: &UserUpsert) -> (m: String)
    ensures
        m@ == upsert_message_text(*r),
{
    match r {
        UserUpsert::Create => String::from_str("User created successfully"),
        UserUpsert::Refresh { touch_updated_at } => if *touch_updated_at {
            String::from_str("User updated successfully. Continue to auction")
        } else {
            String::from_str("User exists, continue to auction")
        },
    }
}

impl UserRow {
    /// The stored row after a refresh at `now`: name and phone number taken
    /// from the request; the update timestamp touched only when the plan says
    /// so.
    pub fn apply_refresh(&self, data: &UserData, touch_updated_at: bool, now: i64) -> (r: UserRow)
        ensures
            r.id == self.id,
            r.name@ == data.name@,
            r.phone_number@ == data.phone_number@,
            r.updated_at == if touch_updated_at { now } else { self.updated_at },
            r.deleted_at == self.deleted_at,
    {
        UserRow {
            id: self.id,
            name: data.name.clone(),
            phone_number: data.phone_number.clone(),
            updated_at: if touch_updated_at { now } else { self.updated_at },
            deleted_at: self.deleted_at,
        }
    }
}

/// An auction create/update request.
#[derive(Clone, Debug, PartialEq)]
pub struct AuctionData {
    pub name: String,
    pub start_time: i64,
    pub end_time: i64,
}

impl AuctionData {
    /// Accepts the request iff the name is present and the window is
    /// non-empty (`start_time < end_time`); rejects with the endpoint's exact
    /// message — a reversed window by the first message, an empty one by the
    /// second.
    pub fn validate(&self) -> (r: Result<(), String>)
        ensures
            r is Ok <==> (self.name@.len() > 0 && self.start_time < self.end_time),
            self.name@.len() == 0 ==> (r matches Err(e) && e@ == "Name is required"@),
            self.name@.len() > 0 && self.start_time > self.end_time ==> (r matches Err(e) && e@
                == "Start time must be before end time"@),
            self.name@.len() > 0 && self.start_time == self.end_time ==> (r matches Err(e) && e@
                == "End time must be after start time"@),
    {
        if self.name.as_str().is_empty() {
            return Err(String::from_str("Name is required"));
        }
        if self.start_time > self.end_time {
            return Err(String::from_str("Start time must be before end time"));
        }
        if self.end_time <= self.start_time {
            return Err(String::from_str("End time must be after start time"));
        }
        Ok(())
    }
}

impl AuctionRow {
    /// The stored row after an update at `now`: every request field rewritten
    /// and the update timestamp set; identity and deletion state untouched.
    pub fn apply_update(&self, data: &AuctionData, now: i64) -> (r: AuctionRow)
        ensures
            r.id == self.id,
            r.name@ == data.name@,
            r.start_time == data.start_time,
            r.end_time == data.end_time,
            r.updated_at == now,
            r.deleted_at == self.deleted_at,
    {
        AuctionRow {
            id: self.id,
            name: data.name.clone(),
            start_time: data.start_time,
            end_time: data.end_time,
            updated_at: now,
            deleted_at: self.deleted_at,
        }
    }
}

/// A listing create/update request.
#[derive(Clone, Debug, PartialEq)]
pub struct ListingData {
    pub title: String,
    pub description: Option<String>,
    pub base_price_cents: u64,
    pub available_volume: Option<i32>,
    pub auction_id: i32,
}

impl ListingData {
    /// Accepts the request iff the title is present and the base price is
    /// positive; rejects with the endpoint's exact message.
    pub fn validate(&self) -> (r: Result<(), String>)
        ensures
            r is Ok <==> (self.title@.len() > 0 && self.base_price_cents > 0),
            self.title@.len() == 0 ==> (r matches Err(e) && e@ == "Title is required"@),
            self.title@.len() > 0 && self.base_price_cents == 0 ==> (r matches Err(e) && e@
                == "Base price must be greater than zero"@),
    {
        if self.title.as_str().is_empty() {
            return Err(String::from_str("Title is required"));
        }
        if self.base_price_cents == 0 {
            return Err(String::from_str("Base price must be greater than zero"));
        }
        Ok(())
    }

    /// The available volume a stored listing gets: the requested one, or the
    /// default of one unit.
    pub fn normalized_volume(&self) -> (v: i32)
        ensures
            v == match self.available_volume {
                Some(x) => x,
                None => 1i32,
            },
    {
        match self.available_volume {
            Some(x) => x,
            None => 1,
        }
    }
}

impl ListingRow {
    /// The stored row after an update at `now`: every request field rewritten
    /// (the volume defaulted to one unit when absent) and the update
    /// timestamp set; identity and deletion state untouched.
    pub fn apply_update(&self, data: &ListingData, now: i64) -> (r: ListingRow)
        ensures
            r.id == self.id,
            r.auction_id == data.auction_id,
            r.title@ == data.title@,
            match data.description {
                Some(_) => r.description matches Some(d) && data.description matches Some(e) && d@
                    == e@,
                None => r.description is None,
            },
            r.base_price_cents == data.base_price_cents,
            r.available_volume == match data.available_volume {
                Some(x) => x,
                None => 1i32,
            },
            r.updated_at == now,
            r.deleted_at == self.deleted_at,
    {
        ListingRow {
            id: self.id,
            auction_id: data.auction_id,
            title: data.title.clone(),
            description: match &data.description {
                Some(d) => Some(d.clone()),
                None => None,
            },
            base_price_cents: data.base_price_cents,
            available_volume: data.normalized_volume(),
            updated_at: now,
            deleted_at: self.deleted_at,
        }
    }
}

/// A bid create request.
#[derive(Clone, Copy, Debug, PartialEq, Eq)]
pub struct BidData {
    pub listing_id: i32,
    pub user_id: i32,
    pub amount_cents: u64,
}

impl BidData {
    /// Accepts the request iff both identities are positive and the amount is
    /// greater than zero; rejects with the endpoint's exact message.
    pub fn validate(&self) -> (r: Result<(), String>)
        ensures
            r is Ok <==> (self.listing_id > 0 && self.user_id > 0 && self.amount_cents > 0),
            self.listing_id <= 0 ==> (r matches Err(e) && e@ == "Invalid Listing ID"@),
            self.listing_id > 0 && self.user_id <= 0 ==> (r matches Err(e) && e@
                == "Invalid User ID"@),
            self.listing_id > 0 && self.user_id > 0 && self.amount_cents == 0 ==> (r matches Err(e)
                && e@ == "Bid amount must be greater than zero"@),
    {
        if self.listing_id <= 0 {
            return Err(String::from_str("Invalid Listing ID"));
        }
        if self.user_id <= 0 {
            return Err(String::from_str("Invalid User ID"));
        }
        if self.amount_cents == 0 {
            return Err(String::from_str("Bid amount must be greater than zero"));
        }
        Ok(())
    }
}

/// Decides whether a bid may be placed: the request must validate, the
/// listing must exist (`listing_end_time` is its auction's closing time, when
/// found live), and the window must still be open. A bid at the closing
/// second itself still counts; one second later the window has closed.
pub fn plan_bid_creation(data: &BidData, listing_end_time: &Option<i64>, now: i64) -> (r: Result<
    (),
    String,
>)
    ensures
        r is Ok <==> (data.listing_id > 0 && data.user_id > 0 && data.amount_cents > 0
            && (listing_end_time matches Some(e) && e >= now)),
        data.listing_id > 0 && data.user_id > 0 && data.amount_cents > 0 ==> {
            &&& (listing_end_time is None ==> (r matches Err(e) && e@ == "Listing not found"@))
            &&& (listing_end_time matches Some(t) && t < now ==> (r matches Err(e) && e@
                == "Bidding is closed. The auction has already ended."@))
        },
{
    if let Err(e) = data.validate() {
        return Err(e);
    }
    match listing_end_time {
        None => Err(String::from_str("Listing not found")),
        Some(end_time) => if *end_time < now {
            Err(String::from_str("Bidding is closed. The auction has already ended."))
        } else {
            Ok(())
        },
    }
}

} // verus!
