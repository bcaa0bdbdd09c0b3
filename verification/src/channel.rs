use crate::message::Message;
use crate::state::State;
use vstd::prelude::*;

verus! {

/// The single failure of every fallible operation: it was attempted from a
/// state that does not permit it. Repeating the call without an intervening
/// state change by the peer fails identically.
#[derive(Clone, Copy, Debug, PartialEq, Eq)]
pub struct Error;

/// One request/response channel: a state, the payload slot it guards, and
/// one claim flag per handle kind.
///
/// The channel itself only hands out and takes back handles; every exchange
/// operation lives on [`Requester`](crate::Requester) and
/// [`Responder`](crate::Responder) and receives the channel it works on by
/// reference.
pub struct Channel<Rq, Rp> {
    /// Phase of the current exchange: the baton that decides which side may
    /// touch the slot.
    pub state: State,
    /// The payload slot.
    pub data: Message<Rq, Rp>,
    /// Whether the requester handle is currently out.
    pub requester_claimed: bool,
    /// Whether the responder handle is currently out.
    pub responder_claimed: bool,
}

/// Capability to drive the requesting side of a channel. At most one exists
/// per channel at a time; it is handed out by [`Channel::requester`] or
/// [`Channel::split`] and taken back by [`Requester::release`](crate::Requester::release).
pub struct Requester {
    pub(crate) marker: (),
}

/// Capability to drive the responding side of a channel. At most one exists
/// per channel at a time; it is handed out by [`Channel::responder`] or
/// [`Channel::split`] and taken back by [`Responder::release`](crate::Responder::release).
pub struct Responder {
    pub(crate) marker: (),
}

impl<Rq, Rp> Channel<Rq, Rp> {
    /// The invariant tying the slot to the state: a request value sits in
    /// the slot while one is being built or is pending, and a response
    /// value sits in it once one has been published. Every operation
    /// preserves it; extraction relies on it.
    pub open spec fn wf(self) -> bool {
        &&& self.state == State::BuildingRequest ==> self.data is Request
        &&& self.state == State::Requested ==> self.data is Request
        &&& self.state == State::Responded ==> self.data is Response
    }

    /// A channel as it leaves the constructor: idle, empty, both handles
    /// available.
    pub open spec fn fresh(self) -> bool {
        &&& self.state == State::Idle
        &&& self.data is Empty
        &&& !self.requester_claimed
        &&& !self.responder_claimed
    }

    /// Whether a requester handle is available.
    pub open spec fn can_claim_requester(self) -> bool {
        !self.requester_claimed
    }

    /// The channel after its requester handle was claimed.
    pub open spec fn after_claim_requester(self) -> Self {
        Self { requester_claimed: true, ..self }
    }

    /// The channel after one attempt to claim the requester handle: the
    /// attempt succeeds exactly when the handle is free, and a failed
    /// attempt changes nothing.
    pub open spec fn after_requester_attempt(self) -> Self {
        if self.can_claim_requester() {
            self.after_claim_requester()
        } else {
            self
        }
    }

    /// Whether a responder handle is available.
    pub open spec fn can_claim_responder(self) -> bool {
        !self.responder_claimed
    }

    /// The channel after its responder handle was claimed.
    pub open spec fn after_claim_responder(self) -> Self {
        Self { responder_claimed: true, ..self }
    }

    /// Whether both handles are available, so a split can succeed.
    pub open spec fn can_split(self) -> bool {
        !self.requester_claimed && !self.responder_claimed
    }

    /// The channel after both handles were claimed at once.
    pub open spec fn after_split(self) -> Self {
        Self { requester_claimed: true, responder_claimed: true, ..self }
    }

    /// The channel after its requester handle was released.
    pub open spec fn after_release_requester(self) -> Self {
        Self { requester_claimed: false, ..self }
    }

    /// The channel after its responder handle was released.
    pub open spec fn after_release_responder(self) -> Self {
        Self { responder_claimed: false, ..self }
    }

    /// Create an idle, empty, unclaimed channel.
    pub fn new() -> (r: Self)
        ensures
            r.fresh(),
            r.wf(),
    {
        Self {
            state: State::Idle,
            data: Message::Empty,
            requester_claimed: false,
            responder_claimed: false,
        }
    }

    /// Obtain the requester end of the channel if it is not out already.
    ///
    /// Can be called again once a previously obtained handle has been
    /// released.
    pub fn requester(&mut self) -> (r: Option<Requester>)
        ensures
            r is Some <==> old(self).can_claim_requester(),
            old(self).can_claim_requester() ==> *final(self) == old(self).after_claim_requester(),
            !old(self).can_claim_requester() ==> *final(self) == *old(self),
    {
        if !self.requester_claimed {
            self.requester_claimed = true;
            Some(Requester { marker: () })
        } else {
            None
        }
    }

    /// Obtain the responder end of the channel if it is not out already.
    ///
    /// Can be called again once a previously obtained handle has been
    /// released.
    pub fn responder(&mut self) -> (r: Option<Responder>)
        ensures
            r is Some <==> old(self).can_claim_responder(),
            old(self).can_claim_responder() ==> *final(self) == old(self).after_claim_responder(),
            !old(self).can_claim_responder() ==> *final(self) == *old(self),
    {
        if !self.responder_claimed {
            self.responder_claimed = true;
            Some(Responder { marker: () })
        } else {
            None
        }
    }

    /// Obtain both ends of the channel at once; fails, leaving the claims
    /// as they were, if either end is already out.
    pub fn split(&mut self) -> (r: Option<(Requester, Responder)>)
        ensures
            r is Some <==> old(self).can_split(),
            old(self).can_split() ==> *final(self) == old(self).after_split(),
            !old(self).can_split() ==> *final(self) == *old(self),
    {
        if !self.requester_claimed && !self.responder_claimed {
            self.requester_claimed = true;
            self.responder_claimed = true;
            Some((Requester { marker: () }, Responder { marker: () }))
        } else {
            None
        }
    }

    /// Move the state from `from` to `to` exactly when it currently is
    /// `from`, reporting whether the move happened: the sequential face of
    /// the protocol's compare-and-swap.
    pub(crate) fn transition(&mut self, from: State, to: State) -> (r: bool)
        ensures
            r == (old(self).state == from),
            final(self).state == if old(self).state == from {
                to
            } else {
                old(self).state
            },
            final(self).data == old(self).data,
            final(self).requester_claimed == old(self).requester_claimed,
            final(self).responder_claimed == old(self).responder_claimed,
    {
        if self.state == from {
            self.state = to;
            true
        } else {
            false
        }
    }
}

impl<Rq, Rp> Default for Channel<Rq, Rp> {
    /// Same as [`Channel::new`].
    fn default() -> (r: Self)
        ensures
            r.fresh(),
            r.wf(),
    {
        Self::new()
    }
}

} // verus!
