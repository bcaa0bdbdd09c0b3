use vstd::prelude::*;

verus! {

/// Contents of a channel's payload slot: nothing, a request value, or a
/// response value — never more than one at a time.
///
/// Which variant the slot holds is tied to the channel's state by the
/// channel's well-formedness invariant, so the extraction operations below,
/// which demand the matching variant, are always called on the right one.
pub enum Message<Rq, Rp> {
    /// The slot holds no payload.
    Empty,
    /// The slot holds a request value.
    Request(Rq),
    /// The slot holds a response value.
    Response(Rp),
}

impl<Rq, Rp> Message<Rq, Rp> {
    /// Whether the slot currently holds a request value.
    pub fn is_request_state(&self) -> (r: bool)
        ensures
            r == (self is Request),
    {
        match self {
            Message::Request(_) => true,
            _ => false,
        }
    }

    /// Whether the slot currently holds a response value.
    pub fn is_response_state(&self) -> (r: bool)
        ensures
            r == (self is Response),
    {
        match self {
            Message::Response(_) => true,
            _ => false,
        }
    }

    /// Move the request value out, leaving the slot empty.
    pub fn take_rq(&mut self) -> (r: Rq)
        requires
            *old(self) is Request,
        ensures
            r == (*old(self))->Request_0,
            *final(self) is Empty,
    {
        let mut this = Message::Empty;
        core::mem::swap(self, &mut this);
        match this {
            Message::Request(request) => request,
            _ => vstd::pervasive::unreached(),
        }
    }

    /// Borrow the request value, leaving it in the slot.
    pub fn rq_ref(&self) -> (r: &Rq)
        requires
            self is Request,
        ensures
            *r == self->Request_0,
    {
        match self {
            Message::Request(request) => request,
            _ => vstd::pervasive::unreached(),
        }
    }

    /// Borrow the request value mutably, in place.
    pub fn rq_mut(&mut self) -> (r: &mut Rq)
        requires
            *old(self) is Request,
        ensures
            *r == (*old(self))->Request_0,
            *final(self) == Message::<Rq, Rp>::Request(*final(r)),
    {
        match self {
            Message::Request(request) => request,
            _ => vstd::pervasive::unreached(),
        }
    }

    /// Move the response value out, leaving the slot empty.
    pub fn take_rp(&mut self) -> (r: Rp)
        requires
            *old(self) is Response,
        ensures
            r == (*old(self))->Response_0,
            *final(self) is Empty,
    {
        let mut this = Message::Empty;
        core::mem::swap(self, &mut this);
        match this {
            Message::Response(response) => response,
            _ => vstd::pervasive::unreached(),
        }
    }

    /// Borrow the response value, leaving it in the slot.
    pub fn rp_ref(&self) -> (r: &Rp)
        requires
            self is Response,
        ensures
            *r == self->Response_0,
    {
        match self {
            Message::Response(response) => response,
            _ => vstd::pervasive::unreached(),
        }
    }

    /// Borrow the response value mutably, in place.
    pub fn rp_mut(&mut self) -> (r: &mut Rp)
        requires
            *old(self) is Response,
        ensures
            *r == (*old(self))->Response_0,
            *final(self) == Message::<Rq, Rp>::Response(*final(r)),
    {
        match self {
            Message::Response(response) => response,
            _ => vstd::pervasive::unreached(),
        }
    }

    /// Wrap a request value for the slot.
    pub fn from_rq(rq: Rq) -> (r: Self)
        ensures
            r == Message::<Rq, Rp>::Request(rq),
    {
        Message::Request(rq)
    }

    /// Wrap a response value for the slot.
    pub fn from_rp(rp: Rp) -> (r: Self)
        ensures
            r == Message::<Rq, Rp>::Response(rp),
    {
        Message::Response(rp)
    }
}

} // verus!
