//! Auction marketplace settlement core.
//!
//! Users place bids on listings grouped into time-boxed auctions. Once an
//! auction's bidding window has closed, a periodic settlement pass determines
//! the winning bid per listing, records the outcome exactly once, and builds
//! a notification message per listing. This crate holds that core logic —
//! winner selection, settlement planning, the pass execution state machine,
//! message text, and the request validators — verified with Verus. Storage
//! and the outbound notification channel are collaborators driven by an
//! unverified shell around this library.

pub mod browse;
pub mod clock;
pub mod domain;
pub mod laws;
pub mod pass;
pub mod scheduler;
pub mod settle;
pub mod text;
pub mod validate;
pub mod winner;
