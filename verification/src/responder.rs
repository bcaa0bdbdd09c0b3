use crate::channel::Channel;
use crate::channel::Error;
use crate::channel::Responder;
use crate::message::Message;
use crate::state::State;
use crate::state::step_allowed;
use vstd::prelude::*;

verus! {

impl<Rq, Rp> Channel<Rq, Rp> {
    /// Whether a request is pending, so the taking and peeking operations
    /// on the responder side succeed.
    pub open spec fn can_take_request(self) -> bool {
        self.state == State::Requested
    }

    /// The channel after a successful `take_request`: the responder owns
    /// the exchange and the request value has left the slot.
    pub open spec fn after_take_request(self) -> Self {
        if self.state == State::Requested {
            Self { state: State::BuildingResponse, data: Message::Empty, ..self }
        } else {
            self
        }
    }

    /// The channel after a successful `request` or `with_request` peek: the
    /// responder owns the exchange, the request value still in the slot.
    pub open spec fn after_peek_request(self) -> Self {
        if self.state == State::Requested {
            Self { state: State::BuildingResponse, ..self }
        } else {
            self
        }
    }

    /// Whether the requester canceled the exchange after the responder took
    /// the request.
    pub open spec fn is_canceled_spec(self) -> bool {
        self.state == State::Canceled
    }

    /// Whether `acknowledge_cancel` succeeds: there is a cancellation to
    /// acknowledge.
    pub open spec fn can_acknowledge_cancel(self) -> bool {
        self.state == State::Canceled
    }

    /// The channel after a successful `acknowledge_cancel`: idle again.
    pub open spec fn after_acknowledge_cancel(self) -> Self {
        if self.state == State::Canceled {
            Self { state: State::Idle, ..self }
        } else {
            self
        }
    }

    /// Whether `respond` succeeds: the responder holds the exchange and the
    /// requester has not canceled it.
    pub open spec fn can_respond(self) -> bool {
        self.state == State::BuildingResponse
    }

    /// The channel after a successful `respond(w)`: the response is
    /// published for the requester.
    pub open spec fn after_respond(self, w: Rp) -> Self {
        Self { state: State::Responded, data: Message::Response(w), ..self }
    }

    /// Whether the in-place building operations on the responder side
    /// succeed: a response can be built once a request is pending or while
    /// a response is already being built.
    pub open spec fn can_build_response(self) -> bool {
        self.state == State::Requested || self.state == State::BuildingResponse
    }

    /// Whether the in-place building operations find a response value in
    /// the slot to continue from; otherwise they start from
    /// `Rp::default()`, discarding a request value still in the slot.
    pub open spec fn builds_on_response(self) -> bool {
        self.data is Response
    }

    /// Whether `send_response` succeeds: a response has been staged in the
    /// slot and can be published.
    pub open spec fn can_send_response(self) -> bool {
        self.state == State::BuildingResponse && self.data is Response
    }

    /// The channel after a successful `send_response`: the staged response
    /// is published.
    pub open spec fn after_send_response(self) -> Self {
        if self.state == State::BuildingResponse && self.data is Response {
            Self { state: State::Responded, ..self }
        } else {
            self
        }
    }
}

impl Responder {
    /// Current state of the channel.
    ///
    /// Informational only: with the requester running in another context,
    /// the state may change between this read and the next call.
    pub fn state<Rq, Rp>(&self, channel: &Channel<Rq, Rp>) -> (r: State)
        ensures
            r == channel.state,
    {
        channel.state
    }

    /// If a request is pending, run `f` on a borrow of it, taking over the
    /// exchange.
    ///
    /// The request value stays in the slot, for `take_request` to extract
    /// later or for the building operations to overwrite.
    pub fn with_request<Rq, Rp, R, F: FnOnce(&Rq) -> R>(
        &self,
        channel: &mut Channel<Rq, Rp>,
        f: F,
    ) -> (r: Result<R, Error>)
        requires
            old(channel).wf(),
            old(channel).can_take_request() ==> call_requires(
                f,
                (&old(channel).request_value(),),
            ),
        ensures
            final(channel).wf(),
            *final(channel) == old(channel).after_peek_request(),
            r is Ok <==> old(channel).can_take_request(),
            r matches Ok(out) ==> call_ensures(f, (&old(channel).request_value(),), out),
            step_allowed(old(channel).state, final(channel).state),
    {
        if channel.transition(State::Requested, State::BuildingResponse) {
            Ok(f(channel.data.rq_ref()))
        } else {
            Err(Error)
        }
    }

    /// If a request is pending, borrow it, taking over the exchange.
    ///
    /// The request value stays in the slot, for `take_request` to extract
    /// later or for the building operations to overwrite.
    pub fn request<'a, Rq, Rp>(&self, channel: &'a mut Channel<Rq, Rp>) -> (r: Result<
        &'a Rq,
        Error,
    >)
        requires
            old(channel).wf(),
        ensures
            final(channel).wf(),
            *final(channel) == old(channel).after_peek_request(),
            r is Ok <==> old(channel).can_take_request(),
            r matches Ok(rq) ==> *rq == old(channel).request_value(),
            step_allowed(old(channel).state, final(channel).state),
    {
        if channel.transition(State::Requested, State::BuildingResponse) {
            Ok(channel.data.rq_ref())
        } else {
            Err(Error)
        }
    }

    /// If a request is pending, move it out, taking over the exchange.
    pub fn take_request<Rq, Rp>(&mut self, channel: &mut Channel<Rq, Rp>) -> (r: Option<Rq>)
        requires
            old(channel).wf(),
        ensures
            final(channel).wf(),
            *final(channel) == old(channel).after_take_request(),
            r is Some <==> old(channel).can_take_request(),
            old(channel).can_take_request() ==> r == Some(old(channel).request_value()),
            step_allowed(old(channel).state, final(channel).state),
    {
        if channel.transition(State::Requested, State::BuildingResponse) {
            Some(channel.data.take_rq())
        } else {
            None
        }
    }

    /// Whether the requester canceled the exchange after this side took the
    /// request.
    ///
    /// Informational only; never mutates. After observing a cancellation,
    /// call `acknowledge_cancel`.
    pub fn is_canceled<Rq, Rp>(&self, channel: &Channel<Rq, Rp>) -> (r: bool)
        ensures
            r == channel.is_canceled_spec(),
    {
        channel.state == State::Canceled
    }

    /// Acknowledge a cancellation, making the channel idle again.
    ///
    /// Fails, changing nothing, if no cancellation is pending.
    pub fn acknowledge_cancel<Rq, Rp>(&self, channel: &mut Channel<Rq, Rp>) -> (r: Result<
        (),
        Error,
    >)
        requires
            old(channel).wf(),
        ensures
            final(channel).wf(),
            *final(channel) == old(channel).after_acknowledge_cancel(),
            r is Ok <==> old(channel).can_acknowledge_cancel(),
            step_allowed(old(channel).state, final(channel).state),
    {
        if channel.transition(State::Canceled, State::Idle) {
            Ok(())
        } else {
            Err(Error)
        }
    }

    /// Respond to the request taken earlier, publishing the response.
    ///
    /// Fails, changing nothing, unless this side holds the exchange — in
    /// particular, if the requester raced ahead and canceled, so a failure
    /// here must be answered by checking `is_canceled`.
    pub fn respond<Rq, Rp>(&mut self, channel: &mut Channel<Rq, Rp>, response: Rp) -> (r: Result<
        (),
        Error,
    >)
        requires
            old(channel).wf(),
        ensures
            final(channel).wf(),
            r is Ok <==> old(channel).can_respond(),
            old(channel).can_respond() ==> *final(channel) == old(channel).after_respond(response),
            !old(channel).can_respond() ==> *final(channel) == *old(channel),
            step_allowed(old(channel).state, final(channel).state),
    {
        if channel.state == State::BuildingResponse {
            channel.data = Message::from_rp(response);
            channel.state = State::Responded;
            Ok(())
        } else {
            Err(Error)
        }
    }

    /// Open or re-enter a response-building transaction and rework the
    /// staged response in place with `f`.
    ///
    /// Succeeds once a request is pending or while a response is being
    /// built; `f` starts from the staged response value if one is in the
    /// slot, otherwise from `Rp::default()` — a request value still in the
    /// slot is discarded. Complete the transaction with `send_response`.
    pub fn with_response_mut<Rq, Rp: Default, F: FnOnce(Rp) -> Rp>(
        &mut self,
        channel: &mut Channel<Rq, Rp>,
        f: F,
    ) -> (r: Result<(), Error>)
        requires
            old(channel).wf(),
            old(channel).can_build_response() && old(channel).builds_on_response()
                ==> call_requires(f, (old(channel).response_value(),)),
            old(channel).can_build_response() && !old(channel).builds_on_response() ==> forall|
                d: Rp,
            |
                call_ensures(Rp::default, (), d) ==> call_requires(f, (d,)),
        ensures
            final(channel).wf(),
            r is Ok <==> old(channel).can_build_response(),
            !old(channel).can_build_response() ==> *final(channel) == *old(channel),
            old(channel).can_build_response() ==> {
                &&& final(channel).state == State::BuildingResponse
                &&& final(channel).data is Response
                &&& final(channel).requester_claimed == old(channel).requester_claimed
                &&& final(channel).responder_claimed == old(channel).responder_claimed
            },
            old(channel).can_build_response() && old(channel).builds_on_response()
                ==> call_ensures(
                f,
                (old(channel).response_value(),),
                final(channel).data->Response_0,
            ),
            old(channel).can_build_response() && !old(channel).builds_on_response() ==> exists|
                d: Rp,
            |
                call_ensures(Rp::default, (), d) && call_ensures(
                    f,
                    (d,),
                    final(channel).data->Response_0,
                ),
            step_allowed(old(channel).state, final(channel).state),
    {
        if channel.state == State::Requested || channel.state == State::BuildingResponse {
            channel.state = State::BuildingResponse;
            if !channel.data.is_response_state() {
                channel.data = Message::from_rp(Rp::default());
            }
            let value = channel.data.take_rp();
            channel.data = Message::from_rp(f(value));
            Ok(())
        } else {
            Err(Error)
        }
    }

    /// Open or re-enter a response-building transaction and borrow the
    /// staged response mutably.
    ///
    /// Succeeds once a request is pending or while a response is being
    /// built; the borrow starts at the staged response value if one is in
    /// the slot, otherwise at `Rp::default()` — a request value still in
    /// the slot is discarded. Complete the transaction with
    /// `send_response`.
    pub fn response_mut<'a, Rq, Rp: Default>(&mut self, channel: &'a mut Channel<Rq, Rp>) -> (r:
        Result<&'a mut Rp, Error>)
        requires
            old(channel).wf(),
        ensures
            r is Ok <==> old(channel).can_build_response(),
            !old(channel).can_build_response() ==> *final(channel) == *old(channel)
                && final(channel).wf(),
            old(channel).can_build_response() && old(channel).builds_on_response() ==> (r matches Ok(
                rp,
            ) && *rp == old(channel).response_value()),
            old(channel).can_build_response() && !old(channel).builds_on_response() ==> (r matches Ok(
                rp,
            ) && call_ensures(Rp::default, (), *rp)),
            r matches Ok(rp) ==> *final(channel) == (Channel {
                state: State::BuildingResponse,
                data: Message::Response(*final(rp)),
                ..*old(channel)
            }) && final(channel).wf(),
            step_allowed(old(channel).state, final(channel).state),
    {
        if channel.state == State::Requested || channel.state == State::BuildingResponse {
            channel.state = State::BuildingResponse;
            if !channel.data.is_response_state() {
                channel.data = Message::from_rp(Rp::default());
            }
            Ok(channel.data.rp_mut())
        } else {
            Err(Error)
        }
    }

    /// Complete a response-building transaction: the staged response is
    /// published for the requester.
    ///
    /// Fails, changing nothing, unless a response is actually staged; in
    /// particular, it fails when the requester canceled the exchange, and
    /// when no building operation has run, which keeps the slot and the
    /// state consistent.
    pub fn send_response<Rq, Rp: Default>(&mut self, channel: &mut Channel<Rq, Rp>) -> (r: Result<
        (),
        Error,
    >)
        requires
            old(channel).wf(),
        ensures
            final(channel).wf(),
            r is Ok <==> old(channel).can_send_response(),
            *final(channel) == old(channel).after_send_response(),
            step_allowed(old(channel).state, final(channel).state),
    {
        if channel.state == State::BuildingResponse && channel.data.is_response_state() {
            channel.state = State::Responded;
            Ok(())
        } else {
            Err(Error)
        }
    }

    /// Give the handle back: the responder end of the channel may be
    /// claimed again.
    ///
    /// Releasing never touches the channel's state; giving a handle back
    /// mid-transaction leaves that transaction where it was.
    pub fn release<Rq, Rp>(self, channel: &mut Channel<Rq, Rp>)
        ensures
            *final(channel) == old(channel).after_release_responder(),
    {
        channel.responder_claimed = false;
    }
}

} // verus!
