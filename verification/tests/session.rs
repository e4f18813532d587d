use socks5_client::model::{
    Address, AuthMethod, BoundAddress, HandshakeError, HandshakeOutcome, TargetEndpoint,
};
use socks5_client::session::{Action, Event, Session, State};

const DEMO_TARGET: TargetEndpoint =
    TargetEndpoint { address: Address::Ipv4([35, 224, 248, 232]), port: 3000 };

const METHOD_REQUEST: [u8; 3] = [0x05, 0x01, 0x00];

const CONNECT_REQUEST: [u8; 10] = [0x05, 0x01, 0x00, 0x01, 35, 224, 248, 232, 0x0B, 0xB8];

const GRANTED: [u8; 10] = [0x05, 0x00, 0x00, 0x01, 127, 0, 0, 1, 0x0B, 0xB8];

const LOOPBACK_3000: BoundAddress =
    BoundAddress { address: Address::Ipv4([127, 0, 0, 1]), port: 3000 };

fn demo_session() -> Session {
    Session::new(vec![AuthMethod::NoAuthentication], DEMO_TARGET).expect("a valid offer")
}

/// A stand-in for the proxy's side of the stream: it hands out `script`
/// read by read, and keeps what was written. A read that finds too few
/// bytes left fails, as a read on a dropped connection does.
struct FakeProxy {
    script: Vec<u8>,
    cursor: usize,
    written: Vec<u8>,
    writes_that_succeed: usize,
}

impl FakeProxy {
    fn replying(script: &[u8]) -> FakeProxy {
        FakeProxy { script: script.to_vec(), cursor: 0, written: Vec::new(), writes_that_succeed: usize::MAX }
    }

    fn perform(&mut self, action: &Action) -> Option<Event> {
        match action {
            Action::Send(bytes) => {
                if self.writes_that_succeed == 0 {
                    return Some(Event::TransportFailed);
                }
                self.writes_that_succeed -= 1;
                self.written.extend_from_slice(bytes);
                Some(Event::Sent)
            }
            Action::Receive(count) => {
                if self.script.len() - self.cursor < *count {
                    self.cursor = self.script.len();
                    return Some(Event::TransportFailed);
                }
                let bytes = self.script[self.cursor..self.cursor + count].to_vec();
                self.cursor += count;
                Some(Event::Received(bytes))
            }
            Action::Relay(_) | Action::Stop(_) => None,
        }
    }

    /// Drives `session` until it asks for no more I/O; returns its last
    /// action.
    fn drive(&mut self, session: &mut Session) -> Action {
        loop {
            let action = session.action();
            match self.perform(&action) {
                Some(event) => session.advance(event),
                None => return action,
            }
        }
    }
}

#[test]
fn new_session_stands_at_start_and_sends_the_offer() {
    let session = demo_session();
    assert_eq!(session.state(), State::Start);
    assert_eq!(session.action(), Action::Send(METHOD_REQUEST.to_vec()));
}

#[test]
fn session_refuses_an_empty_offer() {
    assert!(Session::new(Vec::new(), DEMO_TARGET).is_none());
}

#[test]
fn session_refuses_an_offer_of_256_methods() {
    assert!(Session::new(vec![AuthMethod::NoAuthentication; 256], DEMO_TARGET).is_none());
    assert!(Session::new(vec![AuthMethod::NoAuthentication; 255], DEMO_TARGET).is_some());
}

#[test]
fn session_walks_through_every_state_to_the_open_tunnel() {
    let mut session = demo_session();
    assert_eq!(session.action(), Action::Send(METHOD_REQUEST.to_vec()));

    session.advance(Event::Sent);
    assert_eq!(session.state(), State::MethodsSent);
    assert_eq!(session.action(), Action::Receive(2));

    session.advance(Event::Received(vec![0x05, 0x00]));
    assert_eq!(
        session.state(),
        State::MethodChosen(HandshakeOutcome::Negotiated(AuthMethod::NoAuthentication))
    );
    assert_eq!(session.action(), Action::Send(CONNECT_REQUEST.to_vec()));

    session.advance(Event::Sent);
    assert_eq!(session.state(), State::RequestSent);
    assert_eq!(session.action(), Action::Receive(10));

    session.advance(Event::Received(GRANTED.to_vec()));
    assert_eq!(session.state(), State::TunnelOpen(LOOPBACK_3000));
    assert_eq!(session.action(), Action::Relay(LOOPBACK_3000));
}

#[test]
fn fake_proxy_that_grants_everything_yields_an_open_tunnel() {
    let mut script = vec![0x05, 0x00];
    script.extend_from_slice(&GRANTED);
    let mut proxy = FakeProxy::replying(&script);
    let mut session = demo_session();

    let last = proxy.drive(&mut session);

    assert_eq!(last, Action::Relay(LOOPBACK_3000));
    assert_eq!(session.state(), State::TunnelOpen(LOOPBACK_3000));
    // Only the two requests went out: no payload byte before the tunnel opened.
    let mut requests = METHOD_REQUEST.to_vec();
    requests.extend_from_slice(&CONNECT_REQUEST);
    assert_eq!(proxy.written, requests);
    assert_eq!(proxy.cursor, script.len());
}

#[test]
fn nothing_is_written_beyond_the_offer_when_the_proxy_rejects() {
    let mut proxy = FakeProxy::replying(&[0x05, 0xFF]);
    let mut session = demo_session();

    let last = proxy.drive(&mut session);

    assert_eq!(last, Action::Stop(HandshakeError::NegotiationRejected));
    assert_eq!(session.state(), State::MethodChosen(HandshakeOutcome::Rejected));
    assert_eq!(proxy.written, METHOD_REQUEST.to_vec());
}

#[test]
fn refused_connection_stops_with_the_reply_code() {
    let mut proxy =
        FakeProxy::replying(&[0x05, 0x00, 0x05, 0x05, 0x00, 0x01, 0, 0, 0, 0, 0, 0]);
    let mut session = demo_session();

    let last = proxy.drive(&mut session);

    assert_eq!(last, Action::Stop(HandshakeError::ConnectFailed(0x05)));
    assert_eq!(session.state(), State::ConnectFailed(0x05));
}

#[test]
fn wrong_version_in_the_method_reply_aborts_with_a_protocol_violation() {
    let mut proxy = FakeProxy::replying(&[0x04, 0x00]);
    let mut session = demo_session();

    let last = proxy.drive(&mut session);

    assert_eq!(last, Action::Stop(HandshakeError::ProtocolViolation));
    assert_eq!(session.state(), State::Aborted(HandshakeError::ProtocolViolation));
    assert_eq!(proxy.written, METHOD_REQUEST.to_vec());
}

#[test]
fn wrong_version_in_the_connect_reply_aborts_with_a_protocol_violation() {
    let mut proxy =
        FakeProxy::replying(&[0x05, 0x00, 0x04, 0x00, 0x00, 0x01, 127, 0, 0, 1, 0x0B, 0xB8]);
    let mut session = demo_session();

    let last = proxy.drive(&mut session);

    assert_eq!(last, Action::Stop(HandshakeError::ProtocolViolation));
    assert_eq!(session.state(), State::Aborted(HandshakeError::ProtocolViolation));
}

#[test]
fn connection_dropped_during_the_method_reply_is_a_transport_error() {
    for script in [&[][..], &[0x05][..]] {
        let mut proxy = FakeProxy::replying(script);
        let mut session = demo_session();

        let last = proxy.drive(&mut session);

        assert_eq!(last, Action::Stop(HandshakeError::TransportError));
        assert_eq!(session.state(), State::Aborted(HandshakeError::TransportError));
    }
}

#[test]
fn connection_dropped_during_the_connect_reply_is_a_transport_error() {
    let whole = [0x05, 0x00, 0x05, 0x00, 0x00, 0x01, 127, 0, 0, 1, 0x0B, 0xB8];
    for len in 2..whole.len() {
        let mut proxy = FakeProxy::replying(&whole[..len]);
        let mut session = demo_session();

        let last = proxy.drive(&mut session);

        assert_eq!(last, Action::Stop(HandshakeError::TransportError));
        assert_eq!(session.state(), State::Aborted(HandshakeError::TransportError));
    }
}

#[test]
fn failed_write_of_either_request_is_a_transport_error() {
    for writes_that_succeed in [0usize, 1] {
        let mut script = vec![0x05, 0x00];
        script.extend_from_slice(&GRANTED);
        let mut proxy = FakeProxy::replying(&script);
        proxy.writes_that_succeed = writes_that_succeed;
        let mut session = demo_session();

        let last = proxy.drive(&mut session);

        assert_eq!(last, Action::Stop(HandshakeError::TransportError));
        assert_eq!(session.state(), State::Aborted(HandshakeError::TransportError));
    }
}

#[test]
fn short_reply_handed_over_is_not_read_as_an_outcome() {
    let mut session = demo_session();
    session.advance(Event::Sent);
    session.advance(Event::Received(vec![0x05]));
    assert_eq!(session.state(), State::Aborted(HandshakeError::TransportError));

    let mut session = demo_session();
    session.advance(Event::Sent);
    session.advance(Event::Received(vec![0x05, 0x00]));
    session.advance(Event::Sent);
    session.advance(Event::Received(GRANTED[..9].to_vec()));
    assert_eq!(session.state(), State::Aborted(HandshakeError::TransportError));
}

#[test]
fn report_that_does_not_answer_the_action_aborts() {
    let mut session = demo_session();
    session.advance(Event::Received(vec![0x05, 0x00]));
    assert_eq!(session.state(), State::Aborted(HandshakeError::TransportError));

    // A second `Sent` does not send the offer again.
    let mut session = demo_session();
    session.advance(Event::Sent);
    session.advance(Event::Sent);
    assert_eq!(session.state(), State::Aborted(HandshakeError::TransportError));

    let mut session = demo_session();
    session.advance(Event::Sent);
    session.advance(Event::Received(vec![0x05, 0x00]));
    session.advance(Event::Received(GRANTED.to_vec()));
    assert_eq!(session.state(), State::Aborted(HandshakeError::TransportError));
}

#[test]
fn finished_session_stays_where_it_is() {
    let mut script = vec![0x05, 0x00];
    script.extend_from_slice(&GRANTED);
    let mut open = demo_session();
    FakeProxy::replying(&script).drive(&mut open);
    let mut rejected = demo_session();
    FakeProxy::replying(&[0x05, 0xFF]).drive(&mut rejected);
    let mut aborted = demo_session();
    FakeProxy::replying(&[]).drive(&mut aborted);

    for session in [&mut open, &mut rejected, &mut aborted] {
        let state = session.state();
        session.advance(Event::Sent);
        assert_eq!(session.state(), state);
        session.advance(Event::Received(vec![0x05, 0x00]));
        assert_eq!(session.state(), state);
        session.advance(Event::TransportFailed);
        assert_eq!(session.state(), state);
    }
}

#[test]
fn session_offers_all_its_methods_in_order() {
    let offer = vec![AuthMethod::UsernamePassword, AuthMethod::NoAuthentication];
    let session = Session::new(offer, DEMO_TARGET).expect("a valid offer");
    assert_eq!(session.action(), Action::Send(vec![0x05, 0x02, 0x02, 0x00]));
}

fn report(kind: usize) -> Event {
    match kind {
        0 => Event::Sent,
        1 => Event::Received(vec![0x05, 0x00]),
        2 => Event::Received(vec![0x05, 0xFF]),
        3 => Event::Received(GRANTED.to_vec()),
        4 => Event::Received(vec![0x05, 0x05, 0x00, 0x01, 0, 0, 0, 0, 0, 0]),
        5 => Event::Received(vec![0x04, 0x00]),
        _ => Event::TransportFailed,
    }
}

#[test]
fn any_four_reports_end_the_session_and_ask_for_each_request_at_most_once() {
    let over = |action: &Action| matches!(action, Action::Relay(_) | Action::Stop(_));
    for code in 0..7usize.pow(4) {
        let kinds = [code % 7, code / 7 % 7, code / 49 % 7, code / 343];
        let mut session = demo_session();
        let mut sends: Vec<Vec<u8>> = Vec::new();
        for kind in kinds {
            if let Action::Send(frame) = session.action() {
                sends.push(frame);
            }
            session.advance(report(kind));
        }
        assert!(over(&session.action()), "still under way after {:?}", kinds);
        let both = [METHOD_REQUEST.to_vec(), CONNECT_REQUEST.to_vec()];
        assert!(sends.len() <= 2 && sends[..] == both[..sends.len()], "sent {:?}", sends);
        // Only the one granted exchange opens the tunnel.
        let open = matches!(session.action(), Action::Relay(_));
        assert_eq!(open, kinds == [0, 1, 0, 3]);
    }
}
