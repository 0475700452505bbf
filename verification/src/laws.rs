//! Laws of the settlement pass, proved over every possible run of the pass
//! machine: whatever answers the store and the notification channel return,
//! a run is a replay of its events, and these lemmas hold of every replay.

use vstd::prelude::*;
use crate::domain::{AuctionRow, ListingRow, BidRow, UserRow};
use crate::winner::winning_bid;
use crate::settle::{
    ListingOutcome, outcome_for, plan_matches, eligible_listings, eligible,
    lemma_planned_listings_not_yet_settled,
};
use crate::pass::{PassEvent, InsertStatus, SendStatus, PassState, replay, pass_done};

verus! {

/// The listing identities of the outcomes in `plan`, in order.
pub open spec fn plan_ids(plan: Seq<ListingOutcome>) -> Seq<i32>
    decreases plan.len(),
{
    if plan.len() == 0 {
        seq![]
    } else {
        plan_ids(plan.drop_last()).push(plan.last().listing_id)
    }
}

/// The listing identities of the outcomes in `plan` that have a winner, in
/// order: the listings whose result row the pass asks the store for.
pub open spec fn winner_ids(plan: Seq<ListingOutcome>) -> Seq<i32>
    decreases plan.len(),
{
    if plan.len() == 0 {
        seq![]
    } else {
        let rest = winner_ids(plan.drop_last());
        if plan.last().winner is Some {
            rest.push(plan.last().listing_id)
        } else {
            rest
        }
    }
}

/// An identity is asked for insertion exactly when some outcome with a winner
/// carries it.
pub proof fn lemma_winner_ids_membership(plan: Seq<ListingOutcome>, id: i32)
    ensures
        winner_ids(plan).contains(id) <==> exists|i: int|
            0 <= i < plan.len() && (#[trigger] plan[i]).winner is Some && plan[i].listing_id == id,
    decreases plan.len(),
{
    if plan.len() == 0 {
    } else {
        let pre = plan.drop_last();
        lemma_winner_ids_membership(pre, id);
        assert(forall|i: int| 0 <= i < pre.len() ==> pre[i] == plan[i]);
        if winner_ids(plan).contains(id) {
            if plan.last().winner is Some && winner_ids(plan) == winner_ids(pre).push(
                plan.last().listing_id,
            ) {
                let j = choose|j: int| 0 <= j < winner_ids(plan).len() && winner_ids(plan)[j] == id;
                if j == winner_ids(plan).len() - 1 {
                    assert(plan[plan.len() - 1].winner is Some && plan[plan.len() - 1].listing_id
                        == id);
                } else {
                    assert(winner_ids(pre).contains(id));
                }
            }
        }
        if exists|i: int|
            0 <= i < plan.len() && (#[trigger] plan[i]).winner is Some && plan[i].listing_id
                == id {
            let i = choose|i: int|
                0 <= i < plan.len() && (#[trigger] plan[i]).winner is Some && plan[i].listing_id
                    == id;
            if i < plan.len() - 1 {
                assert(pre[i].winner is Some && pre[i].listing_id == id);
                assert(winner_ids(pre).contains(id));
                if plan.last().winner is Some {
                    let j = choose|j: int|
                        0 <= j < winner_ids(pre).len() && winner_ids(pre)[j] == id;
                    assert(winner_ids(plan)[j] == id);
                }
            } else {
                assert(winner_ids(plan).last() == id);
            }
        }
    }
}

/// Every reachable state stays within the plan: the cursor is in bounds, a
/// pending notification always belongs to a winner outcome whose row was just
/// recorded, and only winner outcomes are ever recorded or skipped.
pub proof fn lemma_replay_bounds(plan: Seq<ListingOutcome>, evs: Seq<PassEvent>, s: PassState)
    requires
        replay(plan, evs) == Some(s),
    ensures
        0 <= s.pos <= plan.len(),
        s.pending_send ==> s.pos < plan.len() && plan[s.pos].winner is Some,
        forall|j: int| 0 <= j < s.recorded.len() ==> winner_ids(plan).contains(#[trigger] s.recorded[j]),
        forall|j: int| 0 <= j < s.skipped.len() ==> winner_ids(plan).contains(#[trigger] s.skipped[j]),
    decreases evs.len(),
{
    if evs.len() == 0 {
    } else {
        let s0 = replay(plan, evs.drop_last()).unwrap();
        lemma_replay_bounds(plan, evs.drop_last(), s0);
        match evs.last() {
            PassEvent::Insert(v) => {
                let lid = plan[s0.pos].listing_id;
                lemma_winner_ids_membership(plan, lid);
                match v {
                    InsertStatus::Inserted => {
                        assert(s.recorded == s0.recorded.push(lid));
                    },
                    InsertStatus::AlreadySettled => {
                        assert(s.skipped == s0.skipped.push(lid));
                    },
                    InsertStatus::StoreFailed => {},
                }
            },
            PassEvent::Send(_) => {},
        }
    }
}

/// A run in which every insert went through — no storage failure, no listing
/// already settled — records exactly the winner outcomes handled so far, in
/// plan order, and (when every send also went through) announces every
/// handled listing, whatever else the channel did. This is the shape of one
/// successful pass.
pub proof fn lemma_replay_all_ok(plan: Seq<ListingOutcome>, evs: Seq<PassEvent>, s: PassState)
    requires
        replay(plan, evs) == Some(s),
        forall|i: int| 0 <= i < evs.len() ==> #[trigger] evs[i] != PassEvent::Insert(
            InsertStatus::StoreFailed,
        ) && evs[i] != PassEvent::Insert(InsertStatus::AlreadySettled) && evs[i]
            != PassEvent::Send(SendStatus::SendFailed),
    ensures
        !s.aborted,
        s.recorded == winner_ids(plan.take(s.pos + (if s.pending_send { 1int } else { 0int }))),
        s.notified == plan_ids(plan.take(s.pos)),
        s.skipped == Seq::<i32>::empty(),
        s.send_failed == Seq::<i32>::empty(),
    decreases evs.len(),
{
    if evs.len() == 0 {
        assert(plan.take(0) =~= Seq::<ListingOutcome>::empty());
    } else {
        let pre = evs.drop_last();
        let s0 = replay(plan, pre).unwrap();
        assert(forall|i: int| 0 <= i < pre.len() ==> pre[i] == evs[i]);
        lemma_replay_all_ok(plan, pre, s0);
        lemma_replay_bounds(plan, pre, s0);
        match evs.last() {
            PassEvent::Insert(v) => {
                assert(v == InsertStatus::Inserted);
                let lid = plan[s0.pos].listing_id;
                assert(plan.take(s0.pos + 1).drop_last() =~= plan.take(s0.pos));
                assert(plan.take(s0.pos + 1).last() == plan[s0.pos]);
                assert(s.recorded == winner_ids(plan.take(s0.pos)).push(lid));
            },
            PassEvent::Send(v) => {
                assert(v == SendStatus::Sent);
                let lid = plan[s0.pos].listing_id;
                assert(plan.take(s0.pos + 1).drop_last() =~= plan.take(s0.pos));
                assert(plan.take(s0.pos + 1).last() == plan[s0.pos]);
                if s0.pending_send {
                    assert(s.recorded == winner_ids(plan.take(s0.pos + 1)));
                } else {
                    assert(plan[s0.pos].winner is None);
                    assert(winner_ids(plan.take(s0.pos + 1)) == winner_ids(plan.take(s0.pos)));
                }
                assert(s.notified == plan_ids(plan.take(s0.pos)).push(lid));
            },
        }
    }
}

/// The store's answers alone decide what gets recorded: two runs whose insert
/// answers agree step for step record and skip the same listings and reach
/// the same cursor, however their notification sends turn out. A notification
/// failure for one listing neither takes its recorded result back nor stops
/// the listings after it.
pub proof fn lemma_sends_do_not_affect_recording(
    plan: Seq<ListingOutcome>,
    evs1: Seq<PassEvent>,
    evs2: Seq<PassEvent>,
    s1: PassState,
    s2: PassState,
)
    requires
        replay(plan, evs1) == Some(s1),
        replay(plan, evs2) == Some(s2),
        evs1.len() == evs2.len(),
        forall|i: int|
            0 <= i < evs1.len() ==> ((#[trigger] evs1[i]) is Insert ==> evs2[i] == evs1[i])
                && (evs1[i] is Send ==> evs2[i] is Send),
    ensures
        s1.pos == s2.pos,
        s1.pending_send == s2.pending_send,
        s1.aborted == s2.aborted,
        s1.recorded == s2.recorded,
        s1.skipped == s2.skipped,
    decreases evs1.len(),
{
    if evs1.len() == 0 {
    } else {
        let p1 = evs1.drop_last();
        let p2 = evs2.drop_last();
        let t1 = replay(plan, p1).unwrap();
        let t2 = replay(plan, p2).unwrap();
        assert(forall|i: int| 0 <= i < p1.len() ==> p1[i] == evs1[i] && p2[i] == evs2[i]);
        lemma_sends_do_not_affect_recording(plan, p1, p2, t1, t2);
        match evs1.last() {
            PassEvent::Insert(_) => {
                assert(evs2.last() == evs1.last());
            },
            PassEvent::Send(_) => {},
        }
    }
}

/// The identities of the listings in `el` that drew a live bid, in order:
/// the listings owed a result row.
pub open spec fn settleable_ids(el: Seq<ListingRow>, bids: Seq<BidRow>) -> Seq<i32>
    decreases el.len(),
{
    if el.len() == 0 {
        seq![]
    } else {
        let rest = settleable_ids(el.drop_last(), bids);
        if winning_bid(bids, el.last().id) is Some {
            rest.push(el.last().id)
        } else {
            rest
        }
    }
}

/// A plan that matches its listings asks the store for exactly the listings
/// that drew a live bid, in order.
pub proof fn lemma_plan_winner_ids(
    plan: Seq<ListingOutcome>,
    el: Seq<ListingRow>,
    bids: Seq<BidRow>,
    users: Seq<UserRow>,
)
    requires
        plan.len() == el.len(),
        forall|i: int| 0 <= i < plan.len() ==> outcome_for(el[i], bids, users, #[trigger] plan[i]),
    ensures
        winner_ids(plan) == settleable_ids(el, bids),
    decreases plan.len(),
{
    if plan.len() == 0 {
    } else {
        let pp = plan.drop_last();
        let ep = el.drop_last();
        assert(forall|i: int| 0 <= i < pp.len() ==> pp[i] == plan[i] && ep[i] == el[i]);
        lemma_plan_winner_ids(pp, ep, bids, users);
        assert(outcome_for(el[plan.len() - 1], bids, users, plan[plan.len() - 1]));
    }
}

/// One complete, trouble-free pass — every insert went in, every send was
/// delivered — records a result for exactly the eligible listings that drew a
/// live bid, in order, and announces every eligible listing.
pub proof fn lemma_pass_settles_winners(
    listings: Seq<ListingRow>,
    auctions: Seq<AuctionRow>,
    bids: Seq<BidRow>,
    users: Seq<UserRow>,
    settled: Seq<i32>,
    now: i64,
    plan: Seq<ListingOutcome>,
    evs: Seq<PassEvent>,
    s: PassState,
)
    requires
        plan_matches(plan, listings, auctions, bids, users, settled, now),
        replay(plan, evs) == Some(s),
        pass_done(plan, s),
        forall|i: int| 0 <= i < evs.len() ==> #[trigger] evs[i] != PassEvent::Insert(
            InsertStatus::StoreFailed,
        ) && evs[i] != PassEvent::Insert(InsertStatus::AlreadySettled) && evs[i]
            != PassEvent::Send(SendStatus::SendFailed),
    ensures
        s.recorded == settleable_ids(eligible_listings(listings, auctions, settled, now), bids),
        s.notified == plan_ids(plan),
{
    lemma_replay_all_ok(plan, evs, s);
    lemma_replay_bounds(plan, evs, s);
    assert(s.pos == plan.len());
    assert(!s.pending_send);
    assert(plan.take(plan.len() as int) =~= plan);
    lemma_plan_winner_ids(plan, eligible_listings(listings, auctions, settled, now), bids, users);
}

/// With pairwise distinct listing identities, one complete, trouble-free pass
/// records each listing at most once: exactly one result row per settled
/// listing.
pub proof fn lemma_pass_records_each_listing_once(
    listings: Seq<ListingRow>,
    auctions: Seq<AuctionRow>,
    bids: Seq<BidRow>,
    users: Seq<UserRow>,
    settled: Seq<i32>,
    now: i64,
    plan: Seq<ListingOutcome>,
    evs: Seq<PassEvent>,
    s: PassState,
)
    requires
        forall|i: int, j: int|
            0 <= i < j < listings.len() ==> (#[trigger] listings[i]).id != (#[trigger] listings[j]).id,
        plan_matches(plan, listings, auctions, bids, users, settled, now),
        replay(plan, evs) == Some(s),
        pass_done(plan, s),
        forall|i: int| 0 <= i < evs.len() ==> #[trigger] evs[i] != PassEvent::Insert(
            InsertStatus::StoreFailed,
        ) && evs[i] != PassEvent::Insert(InsertStatus::AlreadySettled) && evs[i]
            != PassEvent::Send(SendStatus::SendFailed),
    ensures
        s.recorded.no_duplicates(),
{
    lemma_pass_settles_winners(listings, auctions, bids, users, settled, now, plan, evs, s);
    lemma_eligible_ids_distinct(listings, auctions, settled, now);
    lemma_settleable_ids_distinct(eligible_listings(listings, auctions, settled, now), bids);
}

/// A listing whose result is already recorded — its identity stands in
/// `settled` — is never recorded again, whatever the run: its outcome is not
/// planned at all.
pub proof fn lemma_settled_never_recorded_again(
    listings: Seq<ListingRow>,
    auctions: Seq<AuctionRow>,
    bids: Seq<BidRow>,
    users: Seq<UserRow>,
    settled: Seq<i32>,
    now: i64,
    plan: Seq<ListingOutcome>,
    evs: Seq<PassEvent>,
    s: PassState,
    id: i32,
)
    requires
        plan_matches(plan, listings, auctions, bids, users, settled, now),
        replay(plan, evs) == Some(s),
        settled.contains(id),
    ensures
        !s.recorded.contains(id),
{
    lemma_replay_bounds(plan, evs, s);
    lemma_winner_ids_membership(plan, id);
    lemma_planned_listings_not_yet_settled(listings, auctions, settled, now);
    let el = eligible_listings(listings, auctions, settled, now);
    if s.recorded.contains(id) {
        let j = choose|j: int| 0 <= j < s.recorded.len() && s.recorded[j] == id;
        assert(winner_ids(plan).contains(s.recorded[j]));
        let i = choose|i: int|
            0 <= i < plan.len() && (#[trigger] plan[i]).winner is Some && plan[i].listing_id == id;
        assert(outcome_for(el[i], bids, users, plan[i]));
        assert(!settled.contains(el[i].id));
    }
}

/// Settlement is idempotent: whatever a first pass recorded, a second pass
/// over the same data that sees those listings as settled records none of
/// them again — the duplicate writes are not even attempted.
pub proof fn lemma_settlement_idempotent(
    listings: Seq<ListingRow>,
    auctions: Seq<AuctionRow>,
    bids: Seq<BidRow>,
    users: Seq<UserRow>,
    now: i64,
    first_recorded: Seq<i32>,
    settled: Seq<i32>,
    plan: Seq<ListingOutcome>,
    evs: Seq<PassEvent>,
    s: PassState,
)
    requires
        forall|j: int| 0 <= j < first_recorded.len() ==> settled.contains(#[trigger] first_recorded[j]),
        plan_matches(plan, listings, auctions, bids, users, settled, now),
        replay(plan, evs) == Some(s),
    ensures
        forall|j: int|
            0 <= j < first_recorded.len() ==> !s.recorded.contains(#[trigger] first_recorded[j]),
{
    assert forall|j: int|
        0 <= j < first_recorded.len() implies !s.recorded.contains(
        #[trigger] first_recorded[j],
    ) by {
        lemma_settled_never_recorded_again(
            listings,
            auctions,
            bids,
            users,
            settled,
            now,
            plan,
            evs,
            s,
            first_recorded[j],
        );
    }
}

/// Every identity owed a result row belongs to some listing of `el`.
pub proof fn lemma_settleable_ids_membership(el: Seq<ListingRow>, bids: Seq<BidRow>, id: i32)
    ensures
        settleable_ids(el, bids).contains(id) ==> exists|i: int|
            0 <= i < el.len() && (#[trigger] el[i]).id == id,
    decreases el.len(),
{
    if el.len() == 0 {
    } else {
        let pre = el.drop_last();
        lemma_settleable_ids_membership(pre, bids, id);
        assert(forall|i: int| 0 <= i < pre.len() ==> pre[i] == el[i]);
        if settleable_ids(el, bids).contains(id) {
            let s = settleable_ids(el, bids);
            let j = choose|j: int| 0 <= j < s.len() && s[j] == id;
            if winning_bid(bids, el.last().id) is Some && j == s.len() - 1 {
                assert(el[el.len() - 1].id == id);
            } else {
                assert(settleable_ids(pre, bids).contains(id));
            }
        }
    }
}

/// Filtering keeps only elements of the source.
proof fn lemma_filter_subset<A>(s: Seq<A>, pred: spec_fn(A) -> bool, x: A)
    requires
        s.filter(pred).contains(x),
    ensures
        s.contains(x),
    decreases s.len(),
{
    reveal(Seq::filter);
    if s.len() == 0 {
    } else {
        let pre = s.drop_last();
        assert(forall|i: int| 0 <= i < pre.len() ==> pre[i] == s[i]);
        if pred(s.last()) && x == s.last() {
            assert(s[s.len() - 1] == x);
        } else {
            let f = s.filter(pred);
            let j = choose|j: int| 0 <= j < f.len() && f[j] == x;
            if pred(s.last()) {
                assert(f == pre.filter(pred).push(s.last()));
                assert(j < f.len() - 1);
                assert(pre.filter(pred)[j] == x);
                assert(pre.filter(pred).contains(x));
            } else {
                assert(f == pre.filter(pred));
                assert(pre.filter(pred).contains(x));
            }
            lemma_filter_subset(pre, pred, x);
            let k = choose|k: int| 0 <= k < pre.len() && pre[k] == x;
            assert(s[k] == x);
        }
    }
}

/// When the listings carry pairwise distinct identities, so do the listings
/// due for settlement.
pub proof fn lemma_eligible_ids_distinct(
    listings: Seq<ListingRow>,
    auctions: Seq<AuctionRow>,
    settled: Seq<i32>,
    now: i64,
)
    requires
        forall|i: int, j: int|
            0 <= i < j < listings.len() ==> (#[trigger] listings[i]).id != (#[trigger] listings[j]).id,
    ensures
        forall|i: int, j: int|
            0 <= i < j < eligible_listings(listings, auctions, settled, now).len()
                ==> (#[trigger] eligible_listings(listings, auctions, settled, now)[i]).id
                != (#[trigger] eligible_listings(listings, auctions, settled, now)[j]).id,
    decreases listings.len(),
{
    reveal(Seq::filter);
    let pred = |l: ListingRow| eligible(l, auctions, settled, now);
    if listings.len() == 0 {
    } else {
        let pre = listings.drop_last();
        assert(forall|i: int| 0 <= i < pre.len() ==> pre[i] == listings[i]);
        lemma_eligible_ids_distinct(pre, auctions, settled, now);
        let elp = eligible_listings(pre, auctions, settled, now);
        let el = eligible_listings(listings, auctions, settled, now);
        if pred(listings.last()) {
            assert(el == elp.push(listings.last()));
            assert forall|i: int| 0 <= i < elp.len() implies (#[trigger] elp[i]).id
                != listings.last().id by {
                assert(elp.contains(elp[i]));
                lemma_filter_subset(pre, pred, elp[i]);
                let k = choose|k: int| 0 <= k < pre.len() && pre[k] == elp[i];
                assert(listings[k].id != listings[listings.len() - 1].id);
            }
        } else {
            assert(el == elp);
        }
    }
}

/// With pairwise distinct listing identities, each listing is owed at most
/// one result row: the identities asked for insertion repeat nowhere.
pub proof fn lemma_settleable_ids_distinct(el: Seq<ListingRow>, bids: Seq<BidRow>)
    requires
        forall|i: int, j: int|
            0 <= i < j < el.len() ==> (#[trigger] el[i]).id != (#[trigger] el[j]).id,
    ensures
        settleable_ids(el, bids).no_duplicates(),
    decreases el.len(),
{
    if el.len() == 0 {
    } else {
        let pre = el.drop_last();
        assert(forall|i: int| 0 <= i < pre.len() ==> pre[i] == el[i]);
        lemma_settleable_ids_distinct(pre, bids);
        if winning_bid(bids, el.last().id) is Some {
            let rest = settleable_ids(pre, bids);
            assert forall|j: int| 0 <= j < rest.len() implies rest[j] != el.last().id by {
                if rest[j] == el.last().id {
                    assert(rest.contains(rest[j]));
                    lemma_settleable_ids_membership(pre, bids, rest[j]);
                    let i = choose|i: int| 0 <= i < pre.len() && (#[trigger] pre[i]).id == rest[j];
                    assert(el[i].id != el[el.len() - 1].id);
                }
            }
        }
    }
}

/// A listing every one of whose planned outcomes has no winner — it drew no
/// live bid — is never recorded, whatever the run.
pub proof fn lemma_no_bids_never_recorded(
    plan: Seq<ListingOutcome>,
    evs: Seq<PassEvent>,
    s: PassState,
    listing_id: i32,
)
    requires
        replay(plan, evs) == Some(s),
        forall|i: int|
            0 <= i < plan.len() && (#[trigger] plan[i]).listing_id == listing_id
                ==> plan[i].winner is None,
    ensures
        !s.recorded.contains(listing_id),
{
    lemma_replay_bounds(plan, evs, s);
    lemma_winner_ids_membership(plan, listing_id);
    if s.recorded.contains(listing_id) {
        let j = choose|j: int| 0 <= j < s.recorded.len() && s.recorded[j] == listing_id;
        assert(winner_ids(plan).contains(s.recorded[j]));
    }
}

} // verus!
