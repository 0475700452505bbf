//! Execution of one settlement pass over a plan.
//!
//! The pass walks the planned outcomes in order. For a listing with a winner
//! it first asks the driver to insert the result row, then — only if the row
//! went in — to send the winner notification; for a listing with no live bids
//! it asks only for the "no bids" notification. The driver performs each
//! action against the store or the notification channel and reports a
//! answer:
//!
//! - a failed insert (a transient storage error) aborts the rest of the pass;
//!   the next pass retries from scratch;
//! - an insert refused because a result for the listing already exists (a
//!   duplicate settlement) is a benign skip, not a failure: the pass moves to
//!   the next listing without sending again;
//! - a failed send (a notification error) never rolls back the recorded
//!   result and never stops the remaining listings.
//!
//! Every state the machine can reach is the replay of its event history, so
//! the laws proved over [`replay`] hold of any driver, however its inserts
//! and sends turn out.

use vstd::prelude::*;
use crate::domain::ResultRow;
use crate::settle::ListingOutcome;
use crate::text::{winner_message, no_bids_message, winner_message_text, no_bids_message_text};

verus! {

/// What the store answered to one result-row insert.
#[derive(Clone, Copy, Debug, PartialEq, Eq)]
pub enum InsertStatus {
    /// The row is durably recorded.
    Inserted,
    /// A result for the listing already exists: a benign skip.
    AlreadySettled,
    /// A transient storage failure: nothing durable, the pass aborts.
    StoreFailed,
}

/// What the notification channel answered to one send.
#[derive(Clone, Copy, Debug, PartialEq, Eq)]
pub enum SendStatus {
    Sent,
    /// Delivery failed; the recorded result stands and the pass goes on.
    SendFailed,
}

/// One driver report to the machine.
#[derive(Clone, Copy, Debug, PartialEq, Eq)]
pub enum PassEvent {
    Insert(InsertStatus),
    Send(SendStatus),
}

/// What the machine asks the driver to do next.
#[derive(Debug, PartialEq)]
pub enum PassAction {
    /// Insert this result row, transactionally.
    Insert(ResultRow),
    /// Deliver this message to the operator channel.
    Send(String),
    /// The pass is over.
    Done,
}

/// The abstract state of a pass: a cursor into the plan and the listing
/// identities recorded, skipped and notified so far.
pub ghost struct PassState {
    pub pos: int,
    /// The current listing's result row is in and its notification is owed.
    pub pending_send: bool,
    /// Listings whose result row was inserted in this pass.
    pub recorded: Seq<i32>,
    /// Listings found already settled at insert time.
    pub skipped: Seq<i32>,
    /// Listings whose notification was delivered.
    pub notified: Seq<i32>,
    /// Listings whose notification failed.
    pub send_failed: Seq<i32>,
    /// A storage failure ended the pass early.
    pub aborted: bool,
}

pub open spec fn init_state() -> PassState {
    PassState {
        pos: 0,
        pending_send: false,
        recorded: seq![],
        skipped: seq![],
        notified: seq![],
        send_failed: seq![],
        aborted: false,
    }
}

/// The pass is over: every listing handled, or a storage failure hit.
pub open spec fn pass_done(plan: Seq<ListingOutcome>, s: PassState) -> bool {
    s.aborted || s.pos >= plan.len()
}

/// The machine is waiting for an insert answer.
pub open spec fn expects_insert(plan: Seq<ListingOutcome>, s: PassState) -> bool {
    !pass_done(plan, s) && !s.pending_send && plan[s.pos].winner is Some
}

/// The machine is waiting for a send answer.
pub open spec fn expects_send(plan: Seq<ListingOutcome>, s: PassState) -> bool {
    !pass_done(plan, s) && (s.pending_send || plan[s.pos].winner is None)
}

/// One transition of the pass machine; `None` when the event does not answer
/// the action the machine asked for.
pub open spec fn sstep(plan: Seq<ListingOutcome>, s: PassState, ev: PassEvent) -> Option<PassState> {
    match ev {
        PassEvent::Insert(v) => if expects_insert(plan, s) {
            let lid = plan[s.pos].listing_id;
            match v {
                InsertStatus::Inserted => Some(
                    PassState { pending_send: true, recorded: s.recorded.push(lid), ..s },
                ),
                InsertStatus::AlreadySettled => Some(
                    PassState { pos: s.pos + 1, skipped: s.skipped.push(lid), ..s },
                ),
                InsertStatus::StoreFailed => Some(PassState { aborted: true, ..s }),
            }
        } else {
            None
        },
        PassEvent::Send(v) => if expects_send(plan, s) {
            let lid = plan[s.pos].listing_id;
            match v {
                SendStatus::Sent => Some(
                    PassState {
                        pos: s.pos + 1,
                        pending_send: false,
                        notified: s.notified.push(lid),
                        ..s
                    },
                ),
                SendStatus::SendFailed => Some(
                    PassState {
                        pos: s.pos + 1,
                        pending_send: false,
                        send_failed: s.send_failed.push(lid),
                        ..s
                    },
                ),
            }
        } else {
            None
        },
    }
}

/// The state after replaying `evs` from the start of the pass; `None` when
/// some event did not answer the machine.
pub open spec fn replay(plan: Seq<ListingOutcome>, evs: Seq<PassEvent>) -> Option<PassState>
    decreases evs.len(),
{
    if evs.len() == 0 {
        Some(init_state())
    } else {
        match replay(plan, evs.drop_last()) {
            None => None,
            Some(s) => sstep(plan, s, evs.last()),
        }
    }
}

/// The result row a winner outcome asks the store for.
pub open spec fn result_row_of(o: ListingOutcome) -> ResultRow
    recommends
        o.winner is Some,
{
    match o.winner {
        Some(w) => ResultRow {
            listing_id: o.listing_id,
            winning_bid_id: w.bid_id,
            winning_user_id: w.user_id,
        },
        None => ResultRow { listing_id: o.listing_id, winning_bid_id: 0, winning_user_id: 0 },
    }
}

/// The notification text an outcome asks the channel for.
pub open spec fn outcome_message(o: ListingOutcome) -> Seq<char> {
    match o.winner {
        Some(w) => winner_message_text(o.auction_id, o.title@, w.amount_cents, w.user_name@),
        None => no_bids_message_text(o.auction_id, o.title@),
    }
}

/// A settlement pass in progress. Drive it with [`PassRun::next_action`],
/// perform the action, and report the answer with [`PassRun::note_insert`]
/// or [`PassRun::note_send`], until [`PassRun::done`].
pub struct PassRun {
    pub plan: Vec<ListingOutcome>,
    pub pos: usize,
    pub pending_send: bool,
    pub recorded: Vec<i32>,
    pub skipped: Vec<i32>,
    pub notified: Vec<i32>,
    pub send_failed: Vec<i32>,
    pub aborted: bool,
    /// The answers reported so far.
    pub events: Ghost<Seq<PassEvent>>,
}

impl PassRun {
    /// The abstract state this run is in.
    pub open spec fn state(&self) -> PassState {
        PassState {
            pos: self.pos as int,
            pending_send: self.pending_send,
            recorded: self.recorded@,
            skipped: self.skipped@,
            notified: self.notified@,
            send_failed: self.send_failed@,
            aborted: self.aborted,
        }
    }

    /// The run is the replay of the answers reported so far.
    pub open spec fn wf(&self) -> bool {
        replay(self.plan@, self.events@) == Some(self.state())
    }

    /// Starts a pass over `plan`.
    pub fn new(plan: Vec<ListingOutcome>) -> (m: PassRun)
        ensures
            m.wf(),
            m.plan == plan,
            m.state() == init_state(),
            m.events@ == Seq::<PassEvent>::empty(),
    {
        let m = PassRun {
            plan,
            pos: 0,
            pending_send: false,
            recorded: Vec::new(),
            skipped: Vec::new(),
            notified: Vec::new(),
            send_failed: Vec::new(),
            aborted: false,
            events: Ghost(Seq::empty()),
        };
        proof {
            assert(m.state() == init_state());
        }
        m
    }

    /// Whether the pass is over.
    pub fn done(&self) -> (r: bool)
        ensures
            r == pass_done(self.plan@, self.state()),
    {
        self.aborted || self.pos >= self.plan.len()
    }

    /// What the driver must do next.
    pub fn next_action(&self) -> (a: PassAction)
        ensures
            pass_done(self.plan@, self.state()) ==> a == PassAction::Done,
            expects_insert(self.plan@, self.state()) ==> (a matches PassAction::Insert(r)
                && r == result_row_of(self.plan@[self.state().pos])),
            expects_send(self.plan@, self.state()) ==> (a matches PassAction::Send(m)
                && m@ == outcome_message(self.plan@[self.state().pos])),
    {
        if self.aborted || self.pos >= self.plan.len() {
            return PassAction::Done;
        }
        let o = &self.plan[self.pos];
        if !self.pending_send {
            if let Some(w) = &o.winner {
                return PassAction::Insert(
                    ResultRow {
                        listing_id: o.listing_id,
                        winning_bid_id: w.bid_id,
                        winning_user_id: w.user_id,
                    },
                );
            }
        }
        let m = match &o.winner {
            Some(w) => winner_message(
                o.auction_id,
                o.title.as_str(),
                w.amount_cents,
                w.user_name.as_str(),
            ),
            None => no_bids_message(o.auction_id, o.title.as_str()),
        };
        PassAction::Send(m)
    }

    /// Reports the store's answer on the insert the machine asked for.
    pub fn note_insert(&mut self, v: InsertStatus)
        requires
            old(self).wf(),
            expects_insert(old(self).plan@, old(self).state()),
        ensures
            final(self).wf(),
            final(self).plan == old(self).plan,
            final(self).events@ == old(self).events@.push(PassEvent::Insert(v)),
            Some(final(self).state()) == sstep(
                old(self).plan@,
                old(self).state(),
                PassEvent::Insert(v),
            ),
    {
        let n = self.plan.len();
        proof {
            assert(self.pos < n);
        }
        let lid = self.plan[self.pos].listing_id;
        match v {
            InsertStatus::Inserted => {
                self.recorded.push(lid);
                self.pending_send = true;
            },
            InsertStatus::AlreadySettled => {
                self.skipped.push(lid);
                self.pos += 1;
            },
            InsertStatus::StoreFailed => {
                self.aborted = true;
            },
        }
        proof {
            self.events@ = self.events@.push(PassEvent::Insert(v));
            assert(self.events@.drop_last() =~= old(self).events@);
        }
    }

    /// Reports the channel's answer on the send the machine asked for.
    pub fn note_send(&mut self, v: SendStatus)
        requires
            old(self).wf(),
            expects_send(old(self).plan@, old(self).state()),
        ensures
            final(self).wf(),
            final(self).plan == old(self).plan,
            final(self).events@ == old(self).events@.push(PassEvent::Send(v)),
            Some(final(self).state()) == sstep(
                old(self).plan@,
                old(self).state(),
                PassEvent::Send(v),
            ),
            // A notification failure never aborts the pass and never takes a
            // recorded result back: the pass simply moves on.
            final(self).aborted == old(self).aborted,
            final(self).recorded == old(self).recorded,
            final(self).pos == old(self).pos + 1,
    {
        let n = self.plan.len();
        proof {
            assert(self.pos < n);
        }
        let lid = self.plan[self.pos].listing_id;
        match v {
            SendStatus::Sent => {
                self.notified.push(lid);
            },
            SendStatus::SendFailed => {
                self.send_failed.push(lid);
            },
        }
        self.pending_send = false;
        self.pos += 1;
        proof {
            self.events@ = self.events@.push(PassEvent::Send(v));
            assert(self.events@.drop_last() =~= old(self).events@);
        }
    }
}

} // verus!
