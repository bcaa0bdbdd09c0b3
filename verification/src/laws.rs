//! The laws of the protocol, proved once and for all from the same spec
//! functions the executable operations are verified against: handle
//! exclusivity, the round trip of a request and its response, both
//! cancellation races, single delivery of a response, pool exhaustion, and
//! monotonicity of the state within a transaction.

use crate::channel::Channel;
use crate::pool::first_free_in;
use crate::pool::free_count;
use crate::pool::lemma_first_free_in_some_exists;
use crate::pool::lemma_rotation_first_free;
use crate::pool::rotation_first_free;
use crate::pool::seq_after_claim;
use crate::state::State;
use crate::state::cycle_rank;
use crate::state::step_allowed;
use vstd::prelude::*;

verus! {

/// Exclusivity of the requester handle: claiming it succeeds on a channel
/// whose requester end is free, after which every further claim fails —
/// among many callers exactly the first one wins — until the handle is
/// released, when a claim succeeds again.
pub proof fn lemma_requester_exclusive<Rq, Rp>(c: Channel<Rq, Rp>)
    requires
        c.can_claim_requester(),
    ensures
        !c.after_claim_requester().can_claim_requester(),
        c.after_claim_requester().after_release_requester().can_claim_requester(),
{
}

/// The channel after a run of attempts to claim the requester handle, one
/// caller after the other.
pub open spec fn requester_attempts<Rq, Rp>(c: Channel<Rq, Rp>, k: nat) -> Channel<Rq, Rp>
    decreases k,
{
    if k == 0 {
        c
    } else {
        requester_attempts(c, (k - 1) as nat).after_requester_attempt()
    }
}

/// Exclusivity among any number of callers: however many claim attempts
/// run on a channel whose requester handle is free, the first succeeds and
/// all the later ones fail, leaving the channel exactly as the one success
/// left it.
pub proof fn lemma_exactly_one_claim_succeeds<Rq, Rp>(c: Channel<Rq, Rp>, k: nat)
    requires
        c.can_claim_requester(),
        k >= 1,
    ensures
        requester_attempts(c, k) == c.after_claim_requester(),
        !requester_attempts(c, k).can_claim_requester(),
    decreases k,
{
    if k == 1 {
        assert(requester_attempts(c, 0nat) == c);
    } else {
        lemma_exactly_one_claim_succeeds(c, (k - 1) as nat);
    }
}

/// Exclusivity of the responder handle, exactly as for the requester
/// handle.
pub proof fn lemma_responder_exclusive<Rq, Rp>(c: Channel<Rq, Rp>)
    requires
        c.can_claim_responder(),
    ensures
        !c.after_claim_responder().can_claim_responder(),
        c.after_claim_responder().after_release_responder().can_claim_responder(),
{
}

/// The round trip: on an idle channel a request is accepted, the responder
/// takes out exactly the value that was sent, its response is accepted, the
/// requester takes out exactly the value that was responded, and the
/// channel ends idle.
pub proof fn lemma_round_trip<Rq, Rp>(c: Channel<Rq, Rp>, v: Rq, w: Rp)
    requires
        c.wf(),
        c.state == State::Idle,
    ensures
        ({
            let c1 = c.after_request(v);
            let c2 = c1.after_take_request();
            let c3 = c2.after_respond(w);
            let c4 = c3.after_take_response();
            &&& c.can_request()
            &&& c1.can_take_request()
            &&& c1.request_value() == v
            &&& c2.can_respond()
            &&& c3.can_take_response()
            &&& c3.response_value() == w
            &&& c4.state == State::Idle
        }),
{
}

/// Cancel before take: while the request is still pending, cancel catches
/// it early and returns exactly the value that was sent; afterwards there
/// is nothing for the responder to take and the channel is idle.
pub proof fn lemma_cancel_before_take<Rq, Rp>(c: Channel<Rq, Rp>, v: Rq)
    requires
        c.wf(),
        c.state == State::Idle,
    ensures
        ({
            let c1 = c.after_request(v);
            let c2 = c1.after_cancel();
            &&& c1.can_cancel()
            &&& c1.cancel_is_early()
            &&& c1.request_value() == v
            &&& !c2.can_take_request()
            &&& c2.state == State::Idle
        }),
{
}

/// Cancel after take: once the responder has taken the request, cancel is
/// late and returns no value; the responder observes the cancellation,
/// responding fails, and acknowledging the cancellation makes the channel
/// idle again.
pub proof fn lemma_cancel_after_take<Rq, Rp>(c: Channel<Rq, Rp>, v: Rq)
    requires
        c.wf(),
        c.state == State::Idle,
    ensures
        ({
            let c1 = c.after_request(v);
            let c2 = c1.after_take_request();
            let c3 = c2.after_cancel();
            &&& c2.can_cancel()
            &&& !c2.cancel_is_early()
            &&& c3.is_canceled_spec()
            &&& !c3.can_respond()
            &&& c3.can_acknowledge_cancel()
            &&& c3.after_acknowledge_cancel().state == State::Idle
        }),
{
}

/// No double delivery: taking a response hands it out exactly once; a
/// second take before a new response was produced finds nothing, and so
/// does every peek.
pub proof fn lemma_no_double_delivery<Rq, Rp>(c: Channel<Rq, Rp>)
    requires
        c.wf(),
        c.can_take_response(),
    ensures
        !c.after_take_response().can_take_response(),
{
}

/// Monotonicity of one step: every transition the protocol permits either
/// stays where it is, advances in the transaction cycle, or closes the
/// transaction by returning to idle — the cycle position never drops
/// otherwise, not even on the cancellation branch.
pub proof fn lemma_state_monotonic(pre: State, post: State)
    requires
        step_allowed(pre, post),
    ensures
        post == pre || cycle_rank(post) > cycle_rank(pre) || post == State::Idle,
{
}

/// Monotonicity of a whole transaction: along any trace of permitted steps
/// that does not return to idle after its start, the cycle position never
/// decreases, so no sequence of calls ever observes the cycle move
/// backwards within one transaction.
pub proof fn lemma_trace_monotonic(trace: Seq<State>)
    requires
        forall|k: int|
            0 <= k < trace.len() - 1 ==> #[trigger] step_allowed(trace[k], trace[k + 1]),
        forall|k: int| 0 < k < trace.len() ==> #[trigger] trace[k] != State::Idle,
    ensures
        forall|a: int, b: int|
            0 <= a <= b < trace.len() ==> cycle_rank(#[trigger] trace[a]) <= cycle_rank(
                #[trigger] trace[b],
            ),
{
    assert forall|a: int, b: int|
        0 <= a <= b < trace.len() implies cycle_rank(#[trigger] trace[a]) <= cycle_rank(
        #[trigger] trace[b],
    ) by {
        lemma_trace_monotonic_pair(trace, a, b);
    }
}

proof fn lemma_trace_monotonic_pair(trace: Seq<State>, a: int, b: int)
    requires
        forall|k: int|
            0 <= k < trace.len() - 1 ==> #[trigger] step_allowed(trace[k], trace[k + 1]),
        forall|k: int| 0 < k < trace.len() ==> #[trigger] trace[k] != State::Idle,
        0 <= a <= b < trace.len(),
    ensures
        cycle_rank(trace[a]) <= cycle_rank(trace[b]),
    decreases b - a,
{
    if a < b {
        lemma_trace_monotonic_pair(trace, a, b - 1);
        assert(step_allowed(trace[b - 1], trace[(b - 1) + 1]));
        lemma_state_monotonic(trace[b - 1], trace[b]);
    }
}

/// A claim finds a channel exactly when the pool has one with both handles
/// free.
pub proof fn lemma_claim_succeeds_iff<Rq, Rp>(s: Seq<Channel<Rq, Rp>>, start: int)
    requires
        0 <= start <= s.len(),
    ensures
        rotation_first_free(s, start) is Some <==> free_count(s) > 0,
{
    lemma_rotation_first_free(s, start);
    lemma_free_count_positive(s);
    if free_count(s) > 0 && rotation_first_free(s, start) is None {
        let w = choose|i: int| 0 <= i < s.len() && (#[trigger] s[i]).can_split();
        assert(!s[w].can_split());
    }
}

/// A successful claim takes exactly one free channel: the count of free
/// channels drops by one and the pool keeps its size.
pub proof fn lemma_claim_decrements<Rq, Rp>(s: Seq<Channel<Rq, Rp>>, start: int)
    requires
        0 <= start <= s.len(),
        rotation_first_free(s, start) is Some,
    ensures
        seq_after_claim(s, start).len() == s.len(),
        free_count(seq_after_claim(s, start)) as int == free_count(s) as int - 1,
{
    lemma_rotation_first_free(s, start);
    let i = rotation_first_free(s, start)->0;
    lemma_free_count_update(s, i, s[i].after_split());
}

/// An exhausted pool turns every claim away, unchanged.
pub proof fn lemma_claim_exhausted<Rq, Rp>(s: Seq<Channel<Rq, Rp>>, start: int)
    requires
        0 <= start <= s.len(),
        free_count(s) == 0,
    ensures
        rotation_first_free(s, start) is None,
        seq_after_claim(s, start) == s,
{
    lemma_claim_succeeds_iff(s, start);
}

/// Releasing both handles of any channel reopens the pool: the next claim
/// finds a channel again, wherever its scan starts.
pub proof fn lemma_release_reopens_pool<Rq, Rp>(s: Seq<Channel<Rq, Rp>>, i: int, start: int)
    requires
        0 <= i < s.len(),
        0 <= start <= s.len(),
    ensures
        ({
            let t = s.update(i, s[i].after_release_requester().after_release_responder());
            rotation_first_free(t, start) is Some
        }),
{
    let t = s.update(i, s[i].after_release_requester().after_release_responder());
    if i >= start {
        lemma_first_free_in_some_exists(t, start, t.len() as int, i);
    } else {
        if first_free_in(t, start, t.len() as int) is None {
            lemma_first_free_in_some_exists(t, 0, start, i);
        }
    }
}

/// The pool contents after a sequence of claims, each scanning from
/// wherever its cursor then pointed.
pub open spec fn seq_after_claims<Rq, Rp>(s: Seq<Channel<Rq, Rp>>, starts: Seq<int>) -> Seq<
    Channel<Rq, Rp>,
>
    decreases starts.len(),
{
    if starts.len() == 0 {
        s
    } else {
        seq_after_claims(seq_after_claim(s, starts[0]), starts.subrange(1, starts.len() as int))
    }
}

/// As long as free channels remain, claims keep succeeding: a sequence of
/// claims no longer than the count of free channels succeeds at every step
/// and lowers that count by exactly its length.
pub proof fn lemma_pool_exhaustion<Rq, Rp>(s: Seq<Channel<Rq, Rp>>, starts: Seq<int>)
    requires
        starts.len() <= free_count(s),
        forall|k: int| 0 <= k < starts.len() ==> 0 <= #[trigger] starts[k] <= s.len(),
    ensures
        seq_after_claims(s, starts).len() == s.len(),
        free_count(seq_after_claims(s, starts)) as int == free_count(s) as int - starts.len(),
        forall|k: int|
            0 <= k < starts.len() ==> #[trigger] rotation_first_free(
                seq_after_claims(s, starts.subrange(0, k)),
                starts[k],
            ) is Some,
    decreases starts.len(),
{
    lemma_free_count_bounded(s);
    if starts.len() > 0 {
        lemma_claim_succeeds_iff(s, starts[0]);
        lemma_claim_decrements(s, starts[0]);
        let s1 = seq_after_claim(s, starts[0]);
        let rest = starts.subrange(1, starts.len() as int);
        lemma_pool_exhaustion(s1, rest);
        assert forall|k: int|
            0 <= k < starts.len() implies #[trigger] rotation_first_free(
            seq_after_claims(s, starts.subrange(0, k)),
            starts[k],
        ) is Some by {
            if k == 0 {
                assert(starts.subrange(0, 0).len() == 0);
                assert(seq_after_claims(s, starts.subrange(0, 0)) == s);
            } else {
                let p = starts.subrange(0, k);
                assert(p[0] == starts[0]);
                assert(p.subrange(1, p.len() as int) =~= rest.subrange(0, k - 1));
                assert(rest[k - 1] == starts[k]);
                assert(seq_after_claims(s, p) == seq_after_claims(s1, rest.subrange(0, k - 1)));
            }
        }
    }
}

/// Exactly as many claims as channels: from a pool whose channels are all
/// free, every one of the first `n` claims succeeds, wherever each scan
/// starts, and the claim after that returns nothing, leaving the pool
/// unchanged.
pub proof fn lemma_fresh_pool_exhaustion<Rq, Rp>(
    s: Seq<Channel<Rq, Rp>>,
    starts: Seq<int>,
    next: int,
)
    requires
        forall|i: int| 0 <= i < s.len() ==> (#[trigger] s[i]).can_split(),
        starts.len() == s.len(),
        forall|k: int| 0 <= k < starts.len() ==> 0 <= #[trigger] starts[k] <= s.len(),
        0 <= next <= s.len(),
    ensures
        forall|k: int|
            0 <= k < starts.len() ==> #[trigger] rotation_first_free(
                seq_after_claims(s, starts.subrange(0, k)),
                starts[k],
            ) is Some,
        rotation_first_free(seq_after_claims(s, starts), next) is None,
        seq_after_claim(seq_after_claims(s, starts), next) == seq_after_claims(s, starts),
{
    lemma_free_count_full(s);
    lemma_pool_exhaustion(s, starts);
    lemma_claim_exhausted(seq_after_claims(s, starts), next);
}

/// A pool of entirely free channels has as many free channels as channels.
pub proof fn lemma_free_count_full<Rq, Rp>(s: Seq<Channel<Rq, Rp>>)
    requires
        forall|i: int| 0 <= i < s.len() ==> (#[trigger] s[i]).can_split(),
    ensures
        free_count(s) == s.len(),
    decreases s.len(),
{
    if s.len() > 0 {
        lemma_free_count_full(s.drop_last());
    }
}

/// There cannot be more free channels than channels.
proof fn lemma_free_count_bounded<Rq, Rp>(s: Seq<Channel<Rq, Rp>>)
    ensures
        free_count(s) <= s.len(),
    decreases s.len(),
{
    if s.len() > 0 {
        lemma_free_count_bounded(s.drop_last());
    }
}

/// The count of free channels is positive exactly when a free channel
/// exists.
proof fn lemma_free_count_positive<Rq, Rp>(s: Seq<Channel<Rq, Rp>>)
    ensures
        free_count(s) > 0 <==> exists|i: int|
            0 <= i < s.len() && (#[trigger] s[i]).can_split(),
    decreases s.len(),
{
    if s.len() > 0 {
        lemma_free_count_positive(s.drop_last());
        if s.last().can_split() {
            assert(s[s.len() - 1].can_split());
        } else {
            if free_count(s) > 0 {
                let w = choose|i: int|
                    0 <= i < s.drop_last().len() && (#[trigger] s.drop_last()[i]).can_split();
                assert(s[w].can_split());
            }
            if exists|i: int| 0 <= i < s.len() && (#[trigger] s[i]).can_split() {
                let w = choose|i: int| 0 <= i < s.len() && (#[trigger] s[i]).can_split();
                assert(w < s.len() - 1);
                assert(s.drop_last()[w].can_split());
            }
        }
    }
}

/// Replacing one channel changes the count of free channels by the
/// difference the replacement makes at that position.
proof fn lemma_free_count_update<Rq, Rp>(s: Seq<Channel<Rq, Rp>>, i: int, c: Channel<Rq, Rp>)
    requires
        0 <= i < s.len(),
    ensures
        free_count(s.update(i, c)) as int == free_count(s) as int - (if s[i].can_split() {
            1int
        } else {
            0int
        }) + (if c.can_split() {
            1int
        } else {
            0int
        }),
    decreases s.len(),
{
    let t = s.update(i, c);
    if i == s.len() - 1 {
        assert(t.drop_last() =~= s.drop_last());
    } else {
        lemma_free_count_update(s.drop_last(), i, c);
        assert(t.drop_last() =~= s.drop_last().update(i, c));
    }
}

} // verus!
