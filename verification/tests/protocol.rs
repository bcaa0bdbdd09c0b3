use interchange::Channel;
use interchange::Interchange;
use interchange::Message;
use interchange::State;

#[test]
fn requester_handle_is_exclusive() {
    let mut ch: Channel<u64, u32> = Channel::new();
    let rq = ch.requester().unwrap();
    assert!(ch.requester().is_none());
    assert!(ch.requester().is_none());
    rq.release(&mut ch);
    assert!(ch.requester().is_some());
}

#[test]
fn responder_handle_is_exclusive() {
    let mut ch: Channel<u64, u32> = Channel::new();
    let rp = ch.responder().unwrap();
    assert!(ch.responder().is_none());
    rp.release(&mut ch);
    assert!(ch.responder().is_some());
}

#[test]
fn split_fails_when_one_end_is_out() {
    let mut ch: Channel<u64, u32> = Channel::new();
    let rq = ch.requester().unwrap();
    assert!(ch.split().is_none());
    rq.release(&mut ch);
    let (rq, rp) = ch.split().unwrap();
    assert!(ch.split().is_none());
    rq.release(&mut ch);
    rp.release(&mut ch);
    assert!(ch.split().is_some());
}

#[test]
fn round_trip_returns_the_values_sent() {
    let mut ch: Channel<u64, u32> = Channel::new();
    let (mut rq, mut rp) = ch.split().unwrap();
    assert_eq!(rq.state(&ch), State::Idle);
    assert!(rq.request(&mut ch, 53).is_ok());
    assert_eq!(rq.state(&ch), State::Requested);
    assert_eq!(rp.take_request(&mut ch), Some(53));
    assert_eq!(rp.state(&ch), State::BuildingResponse);
    assert!(rp.respond(&mut ch, 63).is_ok());
    assert_eq!(rq.state(&ch), State::Responded);
    assert_eq!(rq.take_response(&mut ch), Some(63));
    assert_eq!(rq.state(&ch), State::Idle);
}

#[test]
fn cancel_before_take_returns_the_request() {
    let mut ch: Channel<u64, u32> = Channel::new();
    let (mut rq, mut rp) = ch.split().unwrap();
    assert!(rq.request(&mut ch, 7).is_ok());
    assert_eq!(rq.cancel(&mut ch), Ok(Some(7)));
    assert!(rp.take_request(&mut ch).is_none());
    assert_eq!(rq.state(&ch), State::Idle);
}

#[test]
fn cancel_after_take_is_acknowledged() {
    let mut ch: Channel<u64, u32> = Channel::new();
    let (mut rq, mut rp) = ch.split().unwrap();
    assert!(rq.request(&mut ch, 7).is_ok());
    assert_eq!(rp.take_request(&mut ch), Some(7));
    assert_eq!(rq.cancel(&mut ch), Ok(None));
    assert!(rp.is_canceled(&ch));
    assert!(rp.respond(&mut ch, 1).is_err());
    assert!(rp.acknowledge_cancel(&mut ch).is_ok());
    assert_eq!(rq.state(&ch), State::Idle);
    assert!(!rp.is_canceled(&ch));
}

#[test]
fn a_response_is_delivered_only_once() {
    let mut ch: Channel<u64, u32> = Channel::new();
    let (mut rq, mut rp) = ch.split().unwrap();
    assert!(rq.request(&mut ch, 1).is_ok());
    assert_eq!(rp.take_request(&mut ch), Some(1));
    assert!(rp.respond(&mut ch, 42).is_ok());
    assert_eq!(rq.take_response(&mut ch), Some(42));
    assert_eq!(rq.take_response(&mut ch), None);
    assert!(rq.response(&ch).is_err());
}

#[test]
fn response_peeks_are_repeatable_until_taken() {
    let mut ch: Channel<u64, u32> = Channel::new();
    let (mut rq, mut rp) = ch.split().unwrap();
    assert!(rq.request(&mut ch, 1).is_ok());
    assert_eq!(rp.take_request(&mut ch), Some(1));
    assert!(rp.respond(&mut ch, 42).is_ok());
    assert_eq!(rq.response(&ch), Ok(&42));
    assert_eq!(rq.response(&ch), Ok(&42));
    assert_eq!(rq.with_response(&ch, |rp| *rp + 1), Ok(43));
    assert_eq!(rq.take_response(&mut ch), Some(42));
}

#[test]
fn request_peek_hands_over_the_exchange() {
    let mut ch: Channel<u64, u32> = Channel::new();
    let (mut rq, mut rp) = ch.split().unwrap();
    assert!(rq.request(&mut ch, 51).is_ok());
    assert_eq!(rp.request(&mut ch), Ok(&51));
    // the exchange now belongs to the responder: a second peek or a take
    // finds no pending request any more
    assert!(rp.request(&mut ch).is_err());
    assert!(rp.take_request(&mut ch).is_none());
    // but the value is still in the slot and a response can be produced
    assert!(rp.respond(&mut ch, 2).is_ok());
    assert_eq!(rq.take_response(&mut ch), Some(2));
}

#[test]
fn with_request_runs_on_the_pending_value() {
    let mut ch: Channel<u64, u32> = Channel::new();
    let (mut rq, rp) = ch.split().unwrap();
    assert!(rp.with_request(&mut ch, |v| *v + 1).is_err());
    assert!(rq.request(&mut ch, 10).is_ok());
    assert_eq!(rp.with_request(&mut ch, |v| *v + 1), Ok(11));
    assert!(rp.with_request(&mut ch, |v| *v + 1).is_err());
}

#[test]
fn wrong_state_operations_fail() {
    let mut ch: Channel<u64, u32> = Channel::new();
    let (mut rq, mut rp) = ch.split().unwrap();
    // nothing to cancel, take, peek, complete or acknowledge on an idle
    // channel
    assert!(rq.cancel(&mut ch).is_err());
    assert!(rq.response(&ch).is_err());
    assert!(rq.take_response(&mut ch).is_none());
    assert!(rq.send_request(&mut ch).is_err());
    assert!(rp.take_request(&mut ch).is_none());
    assert!(rp.respond(&mut ch, 0).is_err());
    assert!(rp.send_response(&mut ch).is_err());
    assert!(rp.acknowledge_cancel(&mut ch).is_err());
    assert!(rp.with_response_mut(&mut ch, |v| v).is_err());
    assert!(rp.response_mut(&mut ch).is_err());
    // a pending request blocks a second one
    assert!(rq.request(&mut ch, 1).is_ok());
    assert!(rq.request(&mut ch, 2).is_err());
    assert!(rq.with_request_mut(&mut ch, |v| v).is_err());
    assert!(rq.request_mut(&mut ch).is_err());
    // and cancel clears it
    assert_eq!(rq.cancel(&mut ch), Ok(Some(1)));
}

#[test]
fn requests_are_built_in_place() {
    let mut ch: Channel<u64, u32> = Channel::new();
    let (mut rq, mut rp) = ch.split().unwrap();
    // building starts from the default value and may run in several steps
    assert!(rq.with_request_mut(&mut ch, |v| v + 1).is_ok());
    assert_eq!(rq.state(&ch), State::BuildingRequest);
    assert!(rq.with_request_mut(&mut ch, |v| v + 10).is_ok());
    assert!(rq.send_request(&mut ch).is_ok());
    assert_eq!(rp.take_request(&mut ch), Some(11));
}

#[test]
fn requests_are_built_through_the_borrow() {
    let mut ch: Channel<u64, u32> = Channel::new();
    let (mut rq, mut rp) = ch.split().unwrap();
    *rq.request_mut(&mut ch).unwrap() = 77;
    assert_eq!(rq.state(&ch), State::BuildingRequest);
    *rq.request_mut(&mut ch).unwrap() += 1;
    assert!(rq.send_request(&mut ch).is_ok());
    assert_eq!(rp.take_request(&mut ch), Some(78));
}

#[test]
fn responses_are_built_in_place() {
    let mut ch: Channel<u64, u32> = Channel::new();
    let (mut rq, mut rp) = ch.split().unwrap();
    assert!(rq.request(&mut ch, 5).is_ok());
    // entering from a pending request discards it and starts from default
    assert!(rp.with_response_mut(&mut ch, |v| v + 3).is_ok());
    assert_eq!(rp.state(&ch), State::BuildingResponse);
    assert!(rp.with_response_mut(&mut ch, |v| v * 2).is_ok());
    assert!(rp.send_response(&mut ch).is_ok());
    assert_eq!(rq.take_response(&mut ch), Some(6));
}

#[test]
fn responses_are_built_through_the_borrow() {
    let mut ch: Channel<u64, u32> = Channel::new();
    let (mut rq, mut rp) = ch.split().unwrap();
    assert!(rq.request(&mut ch, 5).is_ok());
    *rp.response_mut(&mut ch).unwrap() = 9;
    assert!(rp.send_response(&mut ch).is_ok());
    assert_eq!(rq.take_response(&mut ch), Some(9));
}

#[test]
fn send_response_needs_a_staged_response() {
    let mut ch: Channel<u64, u32> = Channel::new();
    let (mut rq, mut rp) = ch.split().unwrap();
    assert!(rq.request(&mut ch, 5).is_ok());
    assert_eq!(rp.take_request(&mut ch), Some(5));
    // the exchange is with the responder, but nothing has been staged yet
    assert!(rp.send_response(&mut ch).is_err());
    assert!(rp.with_response_mut(&mut ch, |_| 30).is_ok());
    assert!(rp.send_response(&mut ch).is_ok());
    assert_eq!(rq.take_response(&mut ch), Some(30));
}

#[test]
fn canceling_a_building_request_fails() {
    let mut ch: Channel<u64, u32> = Channel::new();
    let (mut rq, _rp) = ch.split().unwrap();
    assert!(rq.with_request_mut(&mut ch, |v| v).is_ok());
    assert!(rq.cancel(&mut ch).is_err());
    assert_eq!(rq.state(&ch), State::BuildingRequest);
}

#[test]
fn state_decodes_from_bytes() {
    assert_eq!(State::from(0), State::Idle);
    assert_eq!(State::from(1), State::BuildingRequest);
    assert_eq!(State::from(2), State::Requested);
    assert_eq!(State::from(3), State::BuildingResponse);
    assert_eq!(State::from(4), State::Responded);
    assert_eq!(State::from(12), State::Canceled);
    assert_eq!(State::from(5), State::Idle);
    assert_eq!(State::from(255), State::Idle);
}

#[test]
fn message_operations_move_the_payload() {
    let mut m: Message<u64, u32> = Message::from_rq(8);
    assert!(m.is_request_state());
    assert!(!m.is_response_state());
    assert_eq!(*m.rq_ref(), 8);
    *m.rq_mut() = 9;
    assert_eq!(m.take_rq(), 9);
    assert!(!m.is_request_state());
    let mut m: Message<u64, u32> = Message::from_rp(4);
    assert!(m.is_response_state());
    assert_eq!(*m.rp_ref(), 4);
    *m.rp_mut() = 5;
    assert_eq!(m.take_rp(), 5);
    assert!(!m.is_response_state());
}

#[test]
fn pool_yields_its_size_in_claims() {
    let mut pool: Interchange<u64, u32> = Interchange::new(3);
    assert_eq!(pool.capacity(), 3);
    let a = pool.claim().unwrap();
    let b = pool.claim().unwrap();
    let c = pool.claim().unwrap();
    assert!(pool.claim().is_none());
    assert!(pool.claim().is_none());
    // releasing one claimed pair reopens the pool
    let (i, rq, rp) = b;
    rq.release(pool.channel_mut(i));
    rp.release(pool.channel_mut(i));
    let d = pool.claim().unwrap();
    assert_eq!(d.0, i);
    assert!(pool.claim().is_none());
    let _ = (a, c);
}

#[test]
fn empty_pool_never_claims() {
    let mut pool: Interchange<u64, u32> = Interchange::new(0);
    assert_eq!(pool.capacity(), 0);
    assert!(pool.claim().is_none());
    assert!(pool.claim().is_none());
}

#[test]
fn claims_rotate_over_the_pool() {
    let mut pool: Interchange<u64, u32> = Interchange::new(2);
    let (i0, rq, rp) = pool.claim().unwrap();
    assert_eq!(i0, 0);
    rq.release(pool.channel_mut(i0));
    rp.release(pool.channel_mut(i0));
    // both channels are free again, but the cursor has moved on
    let (i1, _rq, _rp) = pool.claim().unwrap();
    assert_eq!(i1, 1);
    let (i2, _rq, _rp) = pool.claim().unwrap();
    assert_eq!(i2, 0);
}

#[test]
fn cursor_wraps_at_the_integer_end() {
    let mut pool: Interchange<u64, u32> = Interchange::new(2);
    pool.last_claimed = usize::MAX;
    let (i, _rq, _rp) = pool.claim().unwrap();
    assert_eq!(i, usize::MAX % 2);
    assert_eq!(pool.last_claimed, 0);
}

#[test]
fn building_continues_from_a_stale_request() {
    let mut ch: Channel<u64, u32> = Channel::new();
    let (mut rq, mut rp) = ch.split().unwrap();
    // a late cancellation after a peek leaves the request value in the slot
    assert!(rq.request(&mut ch, 7).is_ok());
    assert_eq!(rp.request(&mut ch), Ok(&7));
    assert_eq!(rq.cancel(&mut ch), Ok(None));
    assert!(rp.acknowledge_cancel(&mut ch).is_ok());
    // building then starts from that value, not from the default
    assert!(rq.with_request_mut(&mut ch, |v| v + 1).is_ok());
    assert!(rq.send_request(&mut ch).is_ok());
    assert_eq!(rp.take_request(&mut ch), Some(8));
}

#[test]
fn pool_channels_run_exchanges_independently() {
    let mut pool: Interchange<u64, u32> = Interchange::new(2);
    let (ia, mut rqa, mut rpa) = pool.claim().unwrap();
    let (ib, mut rqb, mut rpb) = pool.claim().unwrap();
    assert!(rqa.request(pool.channel_mut(ia), 1).is_ok());
    assert!(rqb.request(pool.channel_mut(ib), 2).is_ok());
    assert_eq!(rpb.take_request(pool.channel_mut(ib)), Some(2));
    assert_eq!(rpa.take_request(pool.channel_mut(ia)), Some(1));
    assert!(rpa.respond(pool.channel_mut(ia), 10).is_ok());
    assert!(rpb.respond(pool.channel_mut(ib), 20).is_ok());
    assert_eq!(rqa.take_response(pool.channel_mut(ia)), Some(10));
    assert_eq!(rqb.take_response(pool.channel_mut(ib)), Some(20));
}

#[test]
fn default_channel_is_fresh() {
    let mut ch: Channel<u64, u32> = Channel::default();
    let (rq, rp) = ch.split().unwrap();
    assert_eq!(rq.state(&ch), State::Idle);
    assert!(!rp.is_canceled(&ch));
}

fn rank(s: State) -> u8 {
    match s {
        State::Idle => 0,
        State::BuildingRequest => 1,
        State::Requested => 2,
        State::BuildingResponse => 3,
        State::Responded => 4,
        State::Canceled => 5,
    }
}

#[test]
fn states_only_advance_within_a_transaction() {
    let mut ch: Channel<u64, u32> = Channel::new();
    let (mut rq, mut rp) = ch.split().unwrap();
    let mut observed = Vec::new();
    observed.push(rq.state(&ch));
    assert!(rq.with_request_mut(&mut ch, |v| v).is_ok());
    observed.push(rq.state(&ch));
    assert!(rq.send_request(&mut ch).is_ok());
    observed.push(rq.state(&ch));
    assert_eq!(rp.take_request(&mut ch), Some(0));
    observed.push(rq.state(&ch));
    assert_eq!(rq.cancel(&mut ch), Ok(None));
    observed.push(rq.state(&ch));
    // the whole transaction, cancellation branch included, never moved the
    // cycle backwards
    for pair in observed.windows(2) {
        assert!(rank(pair[0]) <= rank(pair[1]));
    }
    assert!(rp.acknowledge_cancel(&mut ch).is_ok());
    assert_eq!(rq.state(&ch), State::Idle);
}
