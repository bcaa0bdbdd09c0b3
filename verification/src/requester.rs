use crate::channel::Channel;
use crate::channel::Error;
use crate::channel::Requester;
use crate::message::Message;
use crate::state::State;
use crate::state::step_allowed;
use vstd::prelude::*;

verus! {

impl<Rq, Rp> Channel<Rq, Rp> {
    /// Whether `request` succeeds: only an idle channel accepts a new
    /// request.
    pub open spec fn can_request(self) -> bool {
        self.state == State::Idle
    }

    /// The channel after a successful `request(v)`: the request is pending.
    pub open spec fn after_request(self, v: Rq) -> Self {
        Self { state: State::Requested, data: Message::Request(v), ..self }
    }

    /// Whether `cancel` succeeds: there is a pending or an already taken
    /// request to call back.
    pub open spec fn can_cancel(self) -> bool {
        self.state == State::Requested || self.state == State::BuildingResponse
    }

    /// Whether a successful `cancel` catches the request before the
    /// responder took it, so the request value comes back.
    pub open spec fn cancel_is_early(self) -> bool {
        self.state == State::Requested
    }

    /// The request value a successful early `cancel` returns.
    pub open spec fn request_value(self) -> Rq {
        self.data->Request_0
    }

    /// The channel after `cancel`: an early cancel empties the channel, a
    /// late one marks it canceled for the responder to acknowledge, and a
    /// failed one changes nothing.
    pub open spec fn after_cancel(self) -> Self {
        if self.state == State::Requested {
            Self { state: State::Idle, data: Message::Empty, ..self }
        } else if self.state == State::BuildingResponse {
            Self { state: State::Canceled, ..self }
        } else {
            self
        }
    }

    /// Whether a response is waiting, so the peeking and taking operations
    /// on the requester side succeed.
    pub open spec fn can_take_response(self) -> bool {
        self.state == State::Responded
    }

    /// The response value waiting for the requester.
    pub open spec fn response_value(self) -> Rp {
        self.data->Response_0
    }

    /// The channel after a successful `take_response`: back to idle, slot
    /// empty.
    pub open spec fn after_take_response(self) -> Self {
        if self.state == State::Responded {
            Self { state: State::Idle, data: Message::Empty, ..self }
        } else {
            self
        }
    }

    /// Whether the in-place building operations on the requester side
    /// succeed: a building transaction can be opened from idle or re-entered.
    pub open spec fn can_build_request(self) -> bool {
        self.state == State::Idle || self.state == State::BuildingRequest
    }

    /// Whether the in-place building operations find a request value in the
    /// slot to continue from; otherwise they start from `Rq::default()`.
    pub open spec fn builds_on_request(self) -> bool {
        self.data is Request
    }

    /// Whether `send_request` succeeds: only a building transaction can be
    /// completed.
    pub open spec fn can_send_request(self) -> bool {
        self.state == State::BuildingRequest
    }

    /// The channel after a successful `send_request`: the built request is
    /// pending.
    pub open spec fn after_send_request(self) -> Self {
        if self.state == State::BuildingRequest {
            Self { state: State::Requested, ..self }
        } else {
            self
        }
    }
}

impl Requester {
    /// Current state of the channel.
    ///
    /// Informational only: with the responder running in another context,
    /// the state may change between this read and the next call.
    pub fn state<Rq, Rp>(&self, channel: &Channel<Rq, Rp>) -> (r: State)
        ensures
            r == channel.state,
    {
        channel.state
    }

    /// Send a request to the responder.
    ///
    /// Succeeds exactly on an idle channel, leaving the request pending;
    /// from any other state it fails and changes nothing.
    pub fn request<Rq, Rp>(&mut self, channel: &mut Channel<Rq, Rp>, request: Rq) -> (r: Result<
        (),
        Error,
    >)
        requires
            old(channel).wf(),
        ensures
            final(channel).wf(),
            r is Ok <==> old(channel).can_request(),
            old(channel).can_request() ==> *final(channel) == old(channel).after_request(request),
            !old(channel).can_request() ==> *final(channel) == *old(channel),
            step_allowed(old(channel).state, final(channel).state),
    {
        if channel.state == State::Idle {
            channel.data = Message::from_rq(request);
            channel.state = State::Requested;
            Ok(())
        } else {
            Err(Error)
        }
    }

    /// Attempt to cancel a request, best-effort.
    ///
    /// If the responder has not taken the request yet, this succeeds and
    /// returns the request value, with the channel idle again. If the
    /// responder has taken it and is building the response, this succeeds
    /// with `None` and marks the channel canceled, for the responder to
    /// acknowledge. Otherwise there is nothing to cancel and it fails.
    pub fn cancel<Rq, Rp>(&mut self, channel: &mut Channel<Rq, Rp>) -> (r: Result<
        Option<Rq>,
        Error,
    >)
        requires
            old(channel).wf(),
        ensures
            final(channel).wf(),
            *final(channel) == old(channel).after_cancel(),
            r is Ok <==> old(channel).can_cancel(),
            old(channel).cancel_is_early() ==> r == Ok::<Option<Rq>, Error>(
                Some(old(channel).request_value()),
            ),
            old(channel).can_cancel() && !old(channel).cancel_is_early() ==> r == Ok::<
                Option<Rq>,
                Error,
            >(None),
            step_allowed(old(channel).state, final(channel).state),
    {
        if channel.transition(State::BuildingResponse, State::Canceled) {
            // Canceled after the responder took the request but before it
            // answered: the request value is gone.
            return Ok(None);
        }

        if channel.transition(State::Requested, State::Idle) {
            // Canceled before the responder was aware of the request.
            return Ok(Some(channel.data.take_rq()));
        }

        Err(Error)
    }

    /// If a response is waiting, borrow it.
    ///
    /// May be called repeatedly; the response stays in the slot until
    /// `take_response`.
    pub fn response<'a, Rq, Rp>(&self, channel: &'a Channel<Rq, Rp>) -> (r: Result<&'a Rp, Error>)
        requires
            channel.wf(),
        ensures
            r is Ok <==> channel.can_take_response(),
            r matches Ok(rp) ==> *rp == channel.response_value(),
    {
        if channel.state == State::Responded {
            Ok(channel.data.rp_ref())
        } else {
            Err(Error)
        }
    }

    /// If a response is waiting, run `f` on a borrow of it.
    ///
    /// May be called repeatedly; the response stays in the slot until
    /// `take_response`.
    pub fn with_response<Rq, Rp, R, F: FnOnce(&Rp) -> R>(
        &self,
        channel: &Channel<Rq, Rp>,
        f: F,
    ) -> (r: Result<R, Error>)
        requires
            channel.wf(),
            channel.can_take_response() ==> call_requires(f, (&channel.response_value(),)),
        ensures
            r is Ok <==> channel.can_take_response(),
            r matches Ok(out) ==> call_ensures(f, (&channel.response_value(),), out),
    {
        if channel.state == State::Responded {
            Ok(f(channel.data.rp_ref()))
        } else {
            Err(Error)
        }
    }

    /// If a response is waiting, move it out, closing the exchange: the
    /// channel is idle again.
    ///
    /// A given response comes back at most once; a second call before a new
    /// response was produced returns nothing.
    pub fn take_response<Rq, Rp>(&mut self, channel: &mut Channel<Rq, Rp>) -> (r: Option<Rp>)
        requires
            old(channel).wf(),
        ensures
            final(channel).wf(),
            *final(channel) == old(channel).after_take_response(),
            r is Some <==> old(channel).can_take_response(),
            old(channel).can_take_response() ==> r == Some(old(channel).response_value()),
            step_allowed(old(channel).state, final(channel).state),
    {
        if channel.transition(State::Responded, State::Idle) {
            Some(channel.data.take_rp())
        } else {
            None
        }
    }

    /// Open or re-enter a request-building transaction and rework the
    /// staged request in place with `f`.
    ///
    /// Succeeds from an idle channel or one already building a request;
    /// `f` starts from the staged request value if one is in the slot,
    /// otherwise from `Rq::default()`. Useful to build large payloads in
    /// several steps without a temporary copy; complete the transaction
    /// with `send_request`.
    pub fn with_request_mut<Rq: Default, Rp, F: FnOnce(Rq) -> Rq>(
        &mut self,
        channel: &mut Channel<Rq, Rp>,
        f: F,
    ) -> (r: Result<(), Error>)
        requires
            old(channel).wf(),
            old(channel).can_build_request() && old(channel).builds_on_request()
                ==> call_requires(f, (old(channel).request_value(),)),
            old(channel).can_build_request() && !old(channel).builds_on_request() ==> forall|
                d: Rq,
            |
                call_ensures(Rq::default, (), d) ==> call_requires(f, (d,)),
        ensures
            final(channel).wf(),
            r is Ok <==> old(channel).can_build_request(),
            !old(channel).can_build_request() ==> *final(channel) == *old(channel),
            old(channel).can_build_request() ==> {
                &&& final(channel).state == State::BuildingRequest
                &&& final(channel).data is Request
                &&& final(channel).requester_claimed == old(channel).requester_claimed
                &&& final(channel).responder_claimed == old(channel).responder_claimed
            },
            old(channel).can_build_request() && old(channel).builds_on_request()
                ==> call_ensures(
                f,
                (old(channel).request_value(),),
                final(channel).data->Request_0,
            ),
            old(channel).can_build_request() && !old(channel).builds_on_request() ==> exists|
                d: Rq,
            |
                call_ensures(Rq::default, (), d) && call_ensures(
                    f,
                    (d,),
                    final(channel).data->Request_0,
                ),
            step_allowed(old(channel).state, final(channel).state),
    {
        if channel.state == State::Idle || channel.state == State::BuildingRequest {
            channel.state = State::BuildingRequest;
            if !channel.data.is_request_state() {
                channel.data = Message::from_rq(Rq::default());
            }
            let value = channel.data.take_rq();
            channel.data = Message::from_rq(f(value));
            Ok(())
        } else {
            Err(Error)
        }
    }

    /// Open or re-enter a request-building transaction and borrow the
    /// staged request mutably.
    ///
    /// Succeeds from an idle channel or one already building a request; the
    /// borrow starts at the staged request value if one is in the slot,
    /// otherwise at `Rq::default()`. Complete the transaction with
    /// `send_request`.
    pub fn request_mut<'a, Rq: Default, Rp>(&mut self, channel: &'a mut Channel<Rq, Rp>) -> (r:
        Result<&'a mut Rq, Error>)
        requires
            old(channel).wf(),
        ensures
            r is Ok <==> old(channel).can_build_request(),
            !old(channel).can_build_request() ==> *final(channel) == *old(channel)
                && final(channel).wf(),
            old(channel).can_build_request() && old(channel).builds_on_request() ==> (r matches Ok(
                rq,
            ) && *rq == old(channel).request_value()),
            old(channel).can_build_request() && !old(channel).builds_on_request() ==> (r matches Ok(
                rq,
            ) && call_ensures(Rq::default, (), *rq)),
            r matches Ok(rq) ==> *final(channel) == (Channel {
                state: State::BuildingRequest,
                data: Message::Request(*final(rq)),
                ..*old(channel)
            }) && final(channel).wf(),
            step_allowed(old(channel).state, final(channel).state),
    {
        if channel.state == State::Idle || channel.state == State::BuildingRequest {
            channel.state = State::BuildingRequest;
            if !channel.data.is_request_state() {
                channel.data = Message::from_rq(Rq::default());
            }
            Ok(channel.data.rq_mut())
        } else {
            Err(Error)
        }
    }

    /// Complete a request-building transaction: the staged request becomes
    /// pending for the responder.
    ///
    /// Fails, changing nothing, unless a request is currently being built.
    pub fn send_request<Rq: Default, Rp>(&mut self, channel: &mut Channel<Rq, Rp>) -> (r: Result<
        (),
        Error,
    >)
        requires
            old(channel).wf(),
        ensures
            final(channel).wf(),
            r is Ok <==> old(channel).can_send_request(),
            *final(channel) == old(channel).after_send_request(),
            step_allowed(old(channel).state, final(channel).state),
    {
        if channel.transition(State::BuildingRequest, State::Requested) {
            Ok(())
        } else {
            Err(Error)
        }
    }

    /// Give the handle back: the requester end of the channel may be
    /// claimed again.
    ///
    /// Releasing never touches the channel's state; giving a handle back
    /// mid-transaction leaves that transaction where it was.
    pub fn release<Rq, Rp>(self, channel: &mut Channel<Rq, Rp>)
        ensures
            *final(channel) == old(channel).after_release_requester(),
    {
        channel.requester_claimed = false;
    }
}

} // verus!
