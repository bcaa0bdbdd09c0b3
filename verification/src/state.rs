use vstd::prelude::*;

verus! {

/// Phase of one request/response exchange on a channel.
///
/// The state is the sole synchronization point of a channel: it acts as a
/// baton handing exclusive access to the payload slot from one side to the
/// other. The cycle is `Idle -> BuildingRequest -> Requested ->
/// BuildingResponse -> Responded -> Idle`, with the side branch
/// `Requested | BuildingResponse -> Canceled -> Idle` for cancellation.
#[derive(Copy, Clone, Debug, Eq, PartialEq, Structural)]
pub enum State {
    /// The requester may open a new exchange.
    Idle,
    /// The requester is building a request in place in the slot.
    BuildingRequest,
    /// A request is pending: the responder may take it, the requester may
    /// still cancel it.
    Requested,
    /// The responder has taken the request and is producing the response.
    /// The requester may still cancel, opportunistically.
    BuildingResponse,
    /// The responder published a response; it waits for the requester.
    Responded,
    /// The requester canceled after the responder had taken the request.
    Canceled,
}

/// The state a byte decodes to: the inverse of the on-wire encoding
/// (`Idle` = 0, then 1 to 4 in cycle order, `Canceled` = 12), with every
/// unassigned byte falling back to `Idle`.
pub open spec fn state_of_byte(byte: u8) -> State {
    match byte {
        1u8 => State::BuildingRequest,
        2u8 => State::Requested,
        3u8 => State::BuildingResponse,
        4u8 => State::Responded,
        12u8 => State::Canceled,
        _ => State::Idle,
    }
}

impl From<u8> for State {
    /// Decode a state from its byte encoding; unassigned bytes decode to
    /// `Idle`.
    fn from(byte: u8) -> (r: Self)
        ensures
            r == state_of_byte(byte),
    {
        match byte {
            1 => State::BuildingRequest,
            2 => State::Requested,
            3 => State::BuildingResponse,
            4 => State::Responded,
            12 => State::Canceled,
            _ => State::Idle,
        }
    }
}

impl vstd::std_specs::convert::FromSpecImpl<u8> for State {
    open spec fn obeys_from_spec() -> bool {
        true
    }

    open spec fn from_spec(byte: u8) -> State {
        state_of_byte(byte)
    }
}

/// Position of a state in the transaction cycle. `Canceled` ranks above
/// `Responded`: it is reached from `BuildingResponse` and only ever leads
/// back to `Idle`, so it never orders below a state it can follow.
pub open spec fn cycle_rank(s: State) -> nat {
    match s {
        State::Idle => 0,
        State::BuildingRequest => 1,
        State::Requested => 2,
        State::BuildingResponse => 3,
        State::Responded => 4,
        State::Canceled => 5,
    }
}

/// The transitions the protocol permits, including staying put (every
/// operation that fails leaves the state where it was). Each mutating
/// channel operation ensures that the states before and after it satisfy
/// this relation.
pub open spec fn step_allowed(pre: State, post: State) -> bool {
    ||| post == pre
    ||| (pre == State::Idle && post == State::BuildingRequest)
    ||| (pre == State::Idle && post == State::Requested)
    ||| (pre == State::BuildingRequest && post == State::Requested)
    ||| (pre == State::Requested && post == State::BuildingResponse)
    ||| (pre == State::BuildingResponse && post == State::Responded)
    ||| (pre == State::Requested && post == State::Idle)
    ||| (pre == State::BuildingResponse && post == State::Canceled)
    ||| (pre == State::Canceled && post == State::Idle)
    ||| (pre == State::Responded && post == State::Idle)
}

} // verus!
