//! The order of the exchange, as a state machine that does no I/O.
//!
//! A [`Session`] says what to do with the stream next; the driver that owns
//! the stream does it and reports what happened. The session never touches
//! a socket, so the same machine runs under any kind of I/O.

use crate::connector::{
    connect_reply_outcome, connect_request, encode_connect_request, parse_connect_reply,
    CONNECT_REPLY_LEN,
};
use crate::model::{
    AuthMethod, BoundAddress, ConnectOutcome, HandshakeError, HandshakeOutcome, TargetEndpoint,
};
use crate::negotiator::{
    encode_method_request, method_reply_outcome, method_request, offer_is_valid,
    parse_method_reply, valid_offer, METHOD_REPLY_LEN,
};
use vstd::prelude::*;

verus! {

/// Where a session stands.
#[derive(Clone, Copy, Debug, PartialEq, Eq)]
pub enum State {
    /// Nothing has been sent.
    Start,
    /// The offer of methods is on its way; its answer is awaited.
    MethodsSent,
    /// The proxy has answered the offer. After a rejection the session is
    /// over.
    MethodChosen(HandshakeOutcome),
    /// The connection request is on its way; its answer is awaited.
    RequestSent,
    /// The proxy refused the connection request with this reply code. The
    /// session is over.
    ConnectFailed(u8),
    /// The proxy granted the connection request and relays from now on:
    /// the stream belongs to the application. The session is over.
    TunnelOpen(BoundAddress),
    /// The link broke or the peer left the protocol. The session is over.
    Aborted(HandshakeError),
}

/// What the driver reports to the session.
#[derive(Debug, PartialEq, Eq)]
pub enum Event {
    /// Every byte of the last [`Action::Send`] has been written.
    Sent,
    /// The bytes read for the last [`Action::Receive`].
    Received(Vec<u8>),
    /// The write or the read failed, or the driver gave up waiting for it.
    TransportFailed,
}

/// An [`Event`] as a plain value.
pub enum EventView {
    Sent,
    Received(Seq<u8>),
    TransportFailed,
}

impl View for Event {
    type V = EventView;

    open spec fn view(&self) -> EventView {
        match *self {
            Event::Sent => EventView::Sent,
            Event::Received(bytes) => EventView::Received(bytes@),
            Event::TransportFailed => EventView::TransportFailed,
        }
    }
}

/// What the session asks of the driver.
#[derive(Debug, PartialEq, Eq)]
pub enum Action {
    /// Write all of these bytes to the stream, then report [`Event::Sent`].
    Send(Vec<u8>),
    /// Read exactly this many bytes from the stream, then report them with
    /// [`Event::Received`].
    Receive(usize),
    /// The tunnel is open: payload may flow. Nothing more is asked.
    Relay(BoundAddress),
    /// The exchange has failed for this reason. Nothing more is asked, no
    /// payload may be written, and the stream is to be closed.
    Stop(HandshakeError),
}

/// An [`Action`] as a plain value.
pub enum ActionView {
    Send(Seq<u8>),
    Receive(usize),
    Relay(BoundAddress),
    Stop(HandshakeError),
}

impl View for Action {
    type V = ActionView;

    open spec fn view(&self) -> ActionView {
        match *self {
            Action::Send(bytes) => ActionView::Send(bytes@),
            Action::Receive(count) => ActionView::Receive(count),
            Action::Relay(bound) => ActionView::Relay(bound),
            Action::Stop(error) => ActionView::Stop(error),
        }
    }
}

/// Whether a session in `state` is over.
pub open spec fn is_terminal(state: State) -> bool {
    match state {
        State::Start => false,
        State::MethodsSent => false,
        State::MethodChosen(HandshakeOutcome::Negotiated(_)) => false,
        State::MethodChosen(HandshakeOutcome::Rejected) => true,
        State::RequestSent => false,
        State::ConnectFailed(_) => true,
        State::TunnelOpen(_) => true,
        State::Aborted(_) => true,
    }
}

/// The state that follows `state` when the driver reports `event`.
///
/// A finished write moves a session that was sending on to await the
/// answer; the bytes of an answer move it on by what they mean. A failed
/// write or read aborts with a transport error, and so does a report that
/// does not answer what was asked. A session that is over stays as it is.
pub open spec fn next_state(state: State, event: EventView) -> State {
    match state {
        State::Start => match event {
            EventView::Sent => State::MethodsSent,
            _ => State::Aborted(HandshakeError::TransportError),
        },
        State::MethodsSent => match event {
            EventView::Received(reply) => match method_reply_outcome(reply) {
                Ok(outcome) => State::MethodChosen(outcome),
                Err(error) => State::Aborted(error),
            },
            _ => State::Aborted(HandshakeError::TransportError),
        },
        State::MethodChosen(HandshakeOutcome::Negotiated(_)) => match event {
            EventView::Sent => State::RequestSent,
            _ => State::Aborted(HandshakeError::TransportError),
        },
        State::RequestSent => match event {
            EventView::Received(reply) => match connect_reply_outcome(reply) {
                Ok(ConnectOutcome::Established(bound)) => State::TunnelOpen(bound),
                Ok(ConnectOutcome::Failed(code)) => State::ConnectFailed(code),
                Err(error) => State::Aborted(error),
            },
            _ => State::Aborted(HandshakeError::TransportError),
        },
        _ => state,
    }
}

/// A [`Session`] as a plain value: what it offers, where it wants to go,
/// and where it stands.
pub struct SessionView {
    pub offer: Seq<AuthMethod>,
    pub target: TargetEndpoint,
    pub state: State,
}

impl SessionView {
    /// Whether the offer is one that a request can hold, as it is in every
    /// [`Session`].
    pub open spec fn wf(self) -> bool {
        valid_offer(self.offer)
    }

    /// What the session asks of the driver as it stands.
    pub open spec fn pending(self) -> ActionView
        recommends
            self.wf(),
    {
        match self.state {
            State::Start => ActionView::Send(method_request(self.offer)),
            State::MethodsSent => ActionView::Receive(METHOD_REPLY_LEN),
            State::MethodChosen(HandshakeOutcome::Negotiated(_)) => ActionView::Send(
                connect_request(self.target),
            ),
            State::MethodChosen(HandshakeOutcome::Rejected) => ActionView::Stop(
                HandshakeError::NegotiationRejected,
            ),
            State::RequestSent => ActionView::Receive(CONNECT_REPLY_LEN),
            State::ConnectFailed(code) => ActionView::Stop(HandshakeError::ConnectFailed(code)),
            State::TunnelOpen(bound) => ActionView::Relay(bound),
            State::Aborted(error) => ActionView::Stop(error),
        }
    }

    /// The session after the driver has reported `event`.
    pub open spec fn after(self, event: EventView) -> SessionView {
        SessionView { state: next_state(self.state, event), ..self }
    }

    /// The session after the driver has reported `events`, one after the
    /// other.
    pub open spec fn run(self, events: Seq<EventView>) -> SessionView
        decreases events.len(),
    {
        if events.len() == 0 {
            self
        } else {
            self.run(events.drop_last()).after(events.last())
        }
    }

    /// The frames that the session has asked the driver to write by the
    /// time the driver has reported `events`, in the order asked. Each
    /// report answers what was pending before it.
    pub open spec fn sends(self, events: Seq<EventView>) -> Seq<Seq<u8>>
        decreases events.len(),
    {
        if events.len() == 0 {
            Seq::empty()
        } else {
            let earlier = self.sends(events.drop_last());
            match self.run(events.drop_last()).pending() {
                ActionView::Send(frame) => earlier.push(frame),
                _ => earlier,
            }
        }
    }
}

/// Whether `events`, reported to a session from its start, account for the
/// session standing in `state` with `sends` asked of the driver.
///
/// Each state has one history. The offer was sent before anything was
/// read; a method was chosen by a reply that says so; the connection
/// request was sent only after the proxy agreed; and a tunnel is open, or a
/// connection refused, only once a second reply has said so. A session
/// aborts for a transport error or a protocol violation and for nothing
/// else. Along the way the driver was asked to write the offer, then,
/// once the proxy had agreed to a method, the connection request, each at
/// most once, and never anything else.
pub open spec fn accounts_for(
    start: SessionView,
    events: Seq<EventView>,
    state: State,
    sends: Seq<Seq<u8>>,
) -> bool
    recommends
        start.wf(),
{
    let offer = method_request(start.offer);
    let request = connect_request(start.target);
    let offered = events.len() >= 1 && events[0] == EventView::Sent;
    let agreed = {
        &&& offered
        &&& events.len() >= 2
        &&& events[1] matches EventView::Received(reply)
        &&& method_reply_outcome(reply) matches Ok(HandshakeOutcome::Negotiated(_))
    };
    let requested = agreed && events.len() >= 3 && events[2] == EventView::Sent;
    match state {
        State::Start => events.len() == 0 && sends == Seq::<Seq<u8>>::empty(),
        State::MethodsSent => offered && events.len() == 1 && sends == seq![offer],
        State::MethodChosen(outcome) => {
            &&& offered
            &&& events.len() >= 2
            &&& outcome is Negotiated ==> events.len() == 2
            &&& events[1] matches EventView::Received(reply)
            &&& method_reply_outcome(reply) matches Ok(answer)
            &&& answer == outcome
            &&& sends == seq![offer]
        },
        State::RequestSent => requested && events.len() == 3 && sends == seq![offer, request],
        State::ConnectFailed(code) => {
            &&& requested
            &&& events.len() >= 4
            &&& events[3] matches EventView::Received(reply)
            &&& connect_reply_outcome(reply) matches Ok(ConnectOutcome::Failed(refused))
            &&& refused == code
            &&& sends == seq![offer, request]
        },
        State::TunnelOpen(bound) => {
            &&& requested
            &&& events.len() >= 4
            &&& events[3] matches EventView::Received(reply)
            &&& connect_reply_outcome(reply) matches Ok(ConnectOutcome::Established(granted))
            &&& granted == bound
            &&& sends == seq![offer, request]
        },
        State::Aborted(error) => {
            &&& events.len() >= 1
            &&& error is TransportError || error is ProtocolViolation
            &&& sends == seq![offer] || {
                &&& sends == seq![offer, request]
                &&& agreed
                &&& events.len() >= 3
            }
        },
    }
}

/// One run of the exchange over one stream: method selection, then the
/// connection request, each once and in that order.
///
/// A session cannot be rewound. To negotiate again, open a new stream and
/// start a new session on it.
#[derive(Debug)]
pub struct Session {
    offer: Vec<AuthMethod>,
    target: TargetEndpoint,
    state: State,
}

impl View for Session {
    type V = SessionView;

    closed spec fn view(&self) -> SessionView {
        SessionView { offer: self.offer@, target: self.target, state: self.state }
    }
}

impl Session {
    #[verifier::type_invariant]
    spec fn offer_fits(self) -> bool {
        valid_offer(self.offer@)
    }

    /// A session at its start, which will offer `offer` and ask for a
    /// relay to `target`; `None` when `offer` is empty or longer than one
    /// request can hold.
    pub fn new(offer: Vec<AuthMethod>, target: TargetEndpoint) -> (session: Option<Session>)
        ensures
            session is Some <==> valid_offer(offer@),
            session matches Some(s) ==> s@ == (SessionView {
                offer: offer@,
                target,
                state: State::Start,
            }),
    {
        if offer_is_valid(offer.as_slice()) {
            Some(Session { offer, target, state: State::Start })
        } else {
            None
        }
    }

    /// Where the session stands.
    pub fn state(&self) -> (state: State)
        ensures
            state == self@.state,
            self@.wf(),
    {
        proof {
            use_type_invariant(self);
        }
        self.state
    }

    /// What the driver is to do now.
    pub fn action(&self) -> (action: Action)
        ensures
            action@ == self@.pending(),
    {
        proof {
            use_type_invariant(self);
        }
        match self.state {
            State::Start => Action::Send(encode_method_request(self.offer.as_slice())),
            State::MethodsSent => Action::Receive(METHOD_REPLY_LEN),
            State::MethodChosen(HandshakeOutcome::Negotiated(_)) => Action::Send(
                encode_connect_request(&self.target),
            ),
            State::MethodChosen(HandshakeOutcome::Rejected) => Action::Stop(
                HandshakeError::NegotiationRejected,
            ),
            State::RequestSent => Action::Receive(CONNECT_REPLY_LEN),
            State::ConnectFailed(code) => Action::Stop(HandshakeError::ConnectFailed(code)),
            State::TunnelOpen(bound) => Action::Relay(bound),
            State::Aborted(error) => Action::Stop(error),
        }
    }

    /// Takes in what the driver reports and moves on.
    pub fn advance(&mut self, event: Event)
        ensures
            final(self)@ == old(self)@.after(event@),
    {
        proof {
            use_type_invariant(&*self);
        }
        let next: State = match self.state {
            State::Start => match event {
                Event::Sent => State::MethodsSent,
                _ => State::Aborted(HandshakeError::TransportError),
            },
            State::MethodsSent => match event {
                Event::Received(reply) => match parse_method_reply(reply.as_slice()) {
                    Ok(outcome) => State::MethodChosen(outcome),
                    Err(error) => State::Aborted(error),
                },
                _ => State::Aborted(HandshakeError::TransportError),
            },
            State::MethodChosen(HandshakeOutcome::Negotiated(_)) => match event {
                Event::Sent => State::RequestSent,
                _ => State::Aborted(HandshakeError::TransportError),
            },
            State::RequestSent => match event {
                Event::Received(reply) => match parse_connect_reply(reply.as_slice()) {
                    Ok(ConnectOutcome::Established(bound)) => State::TunnelOpen(bound),
                    Ok(ConnectOutcome::Failed(code)) => State::ConnectFailed(code),
                    Err(error) => State::Aborted(error),
                },
                _ => State::Aborted(HandshakeError::TransportError),
            },
            state => state,
        };
        self.state = next;
    }
}

/// A session keeps its offer and its target through whatever is reported
/// to it.
pub proof fn session_keeps_its_errand(start: SessionView, events: Seq<EventView>)
    ensures
        start.run(events).offer == start.offer,
        start.run(events).target == start.target,
    decreases events.len(),
{
    if events.len() > 0 {
        session_keeps_its_errand(start, events.drop_last());
    }
}

/// A session that is over stays where it is, whatever is reported to it,
/// and asks for no more I/O. Payload may flow in the one state in which
/// the tunnel is open, and in no other.
pub proof fn finished_session_rests(session: SessionView, event: EventView)
    ensures
        is_terminal(session.state) ==> session.after(event) == session,
        is_terminal(session.state) <==> (session.pending() is Relay || session.pending() is Stop),
        session.pending() is Relay <==> session.state is TunnelOpen,
{
}

/// A failed write or read aborts a session that is under way with a
/// transport error, at either step. So does an answer that is cut short:
/// it is never read as an outcome.
pub proof fn broken_link_aborts(session: SessionView, reply: Seq<u8>)
    requires
        !is_terminal(session.state),
    ensures
        session.after(EventView::TransportFailed).state == State::Aborted(
            HandshakeError::TransportError,
        ),
        session.state is MethodsSent && reply.len() != METHOD_REPLY_LEN ==> session.after(
            EventView::Received(reply),
        ).state == State::Aborted(HandshakeError::TransportError),
        session.state is RequestSent && reply.len() != CONNECT_REPLY_LEN ==> session.after(
            EventView::Received(reply),
        ).state == State::Aborted(HandshakeError::TransportError),
{
}

/// Whatever is reported to a session from its start, the state it reaches
/// has the history that `accounts_for` tells.
pub proof fn every_state_has_its_history(start: SessionView, events: Seq<EventView>)
    requires
        start.wf(),
        start.state == State::Start,
    ensures
        accounts_for(start, events, start.run(events).state, start.sends(events)),
    decreases events.len(),
{
    if events.len() > 0 {
        let earlier = events.drop_last();
        every_state_has_its_history(start, earlier);
        session_keeps_its_errand(start, earlier);
        // What the session asked for last is added to what it had asked
        // for before.
        let offer = method_request(start.offer);
        let request = connect_request(start.target);
        match start.run(earlier).state {
            State::Start => {
                assert(start.sends(events) =~= seq![offer]);
            },
            State::MethodChosen(HandshakeOutcome::Negotiated(_)) => {
                assert(start.sends(events) =~= seq![offer, request]);
            },
            _ => {},
        }
    }
}

/// The driver is asked to write the offer, then the connection request,
/// each at most once and in that order, and nothing else; the connection
/// request only after the proxy has agreed to a method. No session sends
/// its offer a second time.
pub proof fn requests_go_out_once_and_in_order(start: SessionView, events: Seq<EventView>)
    requires
        start.wf(),
        start.state == State::Start,
    ensures
        ({
            let sends = start.sends(events);
            let offer = method_request(start.offer);
            let request = connect_request(start.target);
            &&& sends == Seq::<Seq<u8>>::empty() || sends == seq![offer] || sends == seq![
                offer,
                request,
            ]
            &&& sends.len() == 2 ==> {
                &&& events.len() >= 3
                &&& events[1] matches EventView::Received(reply)
                &&& method_reply_outcome(reply) matches Ok(HandshakeOutcome::Negotiated(_))
            }
        }),
{
    every_state_has_its_history(start, events);
}

/// Payload may flow only once the proxy has granted the connection
/// request: when the session lets the driver relay, the offer and the
/// connection request have been written, the proxy has agreed to a method,
/// and its second reply has granted the relay at the address that the
/// session hands over.
pub proof fn payload_waits_for_the_grant(start: SessionView, events: Seq<EventView>)
    requires
        start.wf(),
        start.state == State::Start,
        start.run(events).pending() is Relay,
    ensures
        events.len() >= 4,
        events[0] == EventView::Sent,
        events[1] matches EventView::Received(reply) && method_reply_outcome(reply) matches Ok(
            HandshakeOutcome::Negotiated(_),
        ),
        events[2] == EventView::Sent,
        events[3] matches EventView::Received(reply) && connect_reply_outcome(reply) matches Ok(
            ConnectOutcome::Established(bound),
        ) && start.run(events).pending() == ActionView::Relay(bound),
        start.sends(events) == seq![method_request(start.offer), connect_request(start.target)],
{
    every_state_has_its_history(start, events);
}

/// A session is over after four reports at the latest: it asks for two
/// writes and two reads, and retries none of them.
pub proof fn session_ends_within_four_reports(start: SessionView, events: Seq<EventView>)
    requires
        start.wf(),
        start.state == State::Start,
        events.len() >= 4,
    ensures
        is_terminal(start.run(events).state),
{
    every_state_has_its_history(start, events);
}

/// The exchange that opens a tunnel: the offer is written, the proxy
/// agrees, the connection request is written, the proxy grants it. After
/// these four reports, and whatever is reported later, the session stands
/// at an open tunnel bound as the second reply says, and has asked for the
/// offer and the connection request to be written, in that order, and for
/// nothing else.
pub proof fn granted_exchange_opens_tunnel(
    start: SessionView,
    events: Seq<EventView>,
    first: Seq<u8>,
    second: Seq<u8>,
    bound: BoundAddress,
)
    requires
        start.wf(),
        start.state == State::Start,
        events.len() >= 4,
        events[0] == EventView::Sent,
        events[1] == EventView::Received(first),
        events[2] == EventView::Sent,
        events[3] == EventView::Received(second),
        method_reply_outcome(first) matches Ok(HandshakeOutcome::Negotiated(_)),
        connect_reply_outcome(second) == Ok::<ConnectOutcome, HandshakeError>(
            ConnectOutcome::Established(bound),
        ),
    ensures
        start.run(events).state == State::TunnelOpen(bound),
        start.sends(events) == seq![method_request(start.offer), connect_request(start.target)],
    decreases events.len(),
{
    if events.len() == 4 {
        // The session after one, two and three of the four reports.
        let three = events.drop_last();
        let two = three.drop_last();
        let one = two.drop_last();
        assert(start.run(one.drop_last()) == start);
        assert(start.run(one).state == State::MethodsSent);
        assert(start.run(two).state is MethodChosen);
        assert(start.run(three).state == State::RequestSent);
    } else {
        granted_exchange_opens_tunnel(start, events.drop_last(), first, second, bound);
    }
    every_state_has_its_history(start, events);
}

} // verus!
