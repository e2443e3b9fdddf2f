use deston::layer4::{Connection, ConnectionAction, ConnectionEvent, Direction, Relay};
use deston::layer7::{Action, Event, Phase, Request};
use deston::listener::{on_listener_event, ListenerAction, ListenerEvent, ListenerPhase};

fn run(request: Request, events: &[Event]) -> (Request, Vec<Action>) {
    let mut request = request;
    let mut actions = Vec::new();
    for event in events {
        let (next, action) = request.advance(*event);
        request = next;
        actions.push(action);
    }
    (request, actions)
}

#[test]
fn request_that_succeeds_at_once() {
    let request = Request::new(2);
    assert_eq!(request.phase(), Phase::Reading);
    let (request, actions) = run(
        request,
        &[Event::BodyBuffered, Event::Picked(1), Event::UpstreamAnswered, Event::ResponseSent],
    );
    assert_eq!(actions, vec![Action::Choose, Action::Forward(1), Action::Relay, Action::Finish]);
    assert_eq!(request.phase(), Phase::Done);
    assert_eq!(request.attempts(), 1);
}

#[test]
fn request_is_retried_on_the_second_backend() {
    let (request, actions) = run(
        Request::new(2),
        &[
            Event::BodyBuffered,
            Event::Picked(0),
            Event::UpstreamFailed,
            Event::Picked(1),
            Event::UpstreamAnswered,
        ],
    );
    assert_eq!(
        actions,
        vec![
            Action::Choose,
            Action::Forward(0),
            Action::Choose,
            Action::Forward(1),
            Action::Relay
        ]
    );
    assert_eq!(request.phase(), Phase::Responding);
    assert_eq!(request.attempts(), 2);
}

#[test]
fn request_phases_in_order() {
    let request = Request::new(3);
    assert_eq!(request.phase(), Phase::Reading);
    let (request, _) = request.advance(Event::BodyBuffered);
    assert_eq!(request.phase(), Phase::Buffered);
    let (request, _) = request.advance(Event::Picked(2));
    assert_eq!(request.phase(), Phase::Forwarding);
    let (request, _) = request.advance(Event::UpstreamFailed);
    assert_eq!(request.phase(), Phase::Dispatching);
    let (request, _) = request.advance(Event::Picked(0));
    assert_eq!(request.phase(), Phase::Forwarding);
    let (request, _) = request.advance(Event::UpstreamAnswered);
    assert_eq!(request.phase(), Phase::Responding);
    let (request, _) = request.advance(Event::ResponseSent);
    assert_eq!(request.phase(), Phase::Done);
}

#[test]
fn request_gives_up_when_every_backend_failed() {
    let (request, actions) = run(
        Request::new(2),
        &[
            Event::BodyBuffered,
            Event::Picked(0),
            Event::UpstreamFailed,
            Event::Picked(1),
            Event::UpstreamFailed,
        ],
    );
    assert_eq!(actions[4], Action::BadGateway);
    assert_eq!(request.phase(), Phase::Responding);
    assert_eq!(request.attempts(), 2);
}

#[test]
fn request_never_tries_a_backend_twice() {
    // a scheduler that keeps naming the same backend
    let (request, actions) = run(
        Request::new(3),
        &[
            Event::BodyBuffered,
            Event::Picked(1),
            Event::UpstreamFailed,
            Event::Picked(1),
            Event::Picked(1),
        ],
    );
    assert_eq!(
        actions,
        vec![
            Action::Choose,
            Action::Forward(1),
            Action::Choose,
            Action::Choose,
            Action::BadGateway
        ]
    );
    assert_eq!(request.attempts(), 3);
    assert_eq!(request.phase(), Phase::Responding);
}

#[test]
fn request_on_a_single_backend_does_not_spin() {
    let (request, actions) =
        run(Request::new(1), &[Event::BodyBuffered, Event::Picked(0), Event::UpstreamFailed]);
    assert_eq!(actions, vec![Action::Choose, Action::Forward(0), Action::BadGateway]);
    assert_eq!(request.phase(), Phase::Responding);
}

#[test]
fn request_without_a_backend_gets_bad_gateway() {
    let (request, actions) = run(Request::new(2), &[Event::BodyBuffered, Event::NoBackend]);
    assert_eq!(actions, vec![Action::Choose, Action::BadGateway]);
    assert_eq!(request.phase(), Phase::Responding);
    let (_, actions) = run(Request::new(0), &[Event::BodyBuffered, Event::Picked(0)]);
    assert_eq!(actions, vec![Action::Choose, Action::BadGateway]);
    let (_, actions) = run(Request::new(2), &[Event::BodyBuffered, Event::Picked(2)]);
    assert_eq!(actions, vec![Action::Choose, Action::BadGateway]);
    let (request, actions) = run(
        Request::new(2),
        &[Event::BodyBuffered, Event::Picked(0), Event::UpstreamFailed, Event::NoBackend],
    );
    assert_eq!(actions[3], Action::BadGateway);
    assert_eq!(request.attempts(), 1);
}

#[test]
fn request_refuses_events_out_of_order() {
    let (request, actions) = run(
        Request::new(2),
        &[Event::Picked(0), Event::UpstreamAnswered, Event::ResponseSent, Event::NoBackend],
    );
    assert_eq!(actions, vec![Action::Refused; 4]);
    assert_eq!(request.phase(), Phase::Reading);
    assert_eq!(request.attempts(), 0);
    let (request, actions) = run(
        request,
        &[Event::BodyBuffered, Event::BodyBuffered, Event::UpstreamFailed, Event::Picked(0)],
    );
    assert_eq!(
        actions,
        vec![Action::Choose, Action::Refused, Action::Refused, Action::Forward(0)]
    );
    let (request, actions) = run(request, &[Event::Picked(1), Event::ResponseSent]);
    assert_eq!(actions, vec![Action::Refused; 2]);
    assert_eq!(request.phase(), Phase::Forwarding);
}

#[test]
fn request_ends_when_the_client_fails() {
    for events in [
        vec![Event::ClientFailed],
        vec![Event::BodyBuffered, Event::ClientFailed],
        vec![Event::BodyBuffered, Event::Picked(0), Event::ClientFailed],
        vec![Event::BodyBuffered, Event::Picked(0), Event::UpstreamAnswered, Event::ClientFailed],
    ] {
        let (request, actions) = run(Request::new(2), &events);
        assert_eq!(actions.last(), Some(&Action::Finish));
        assert_eq!(request.phase(), Phase::Done);
        let (request, actions) = run(request, &[Event::ClientFailed, Event::BodyBuffered]);
        assert_eq!(actions, vec![Action::Refused; 2]);
        assert_eq!(request.phase(), Phase::Done);
    }
}

#[test]
fn listener_serves_until_the_signal() {
    let mut phase = ListenerPhase::Accepting;
    let mut actions = Vec::new();
    for event in [
        ListenerEvent::Accepted,
        ListenerEvent::Signal(false),
        ListenerEvent::Accepted,
        ListenerEvent::Signal(true),
        ListenerEvent::Accepted,
        ListenerEvent::Signal(false),
        ListenerEvent::AcceptFailed,
        ListenerEvent::Signal(true),
    ] {
        let (next, action) = on_listener_event(phase, event);
        phase = next;
        actions.push(action);
    }
    assert_eq!(
        actions,
        vec![
            ListenerAction::Serve,
            ListenerAction::Wait,
            ListenerAction::Serve,
            ListenerAction::Stop,
            ListenerAction::Discard,
            ListenerAction::Stop,
            ListenerAction::Stop,
            ListenerAction::Stop,
        ]
    );
    assert_eq!(phase, ListenerPhase::Stopped);
}

#[test]
fn listener_stops_on_accept_failure() {
    assert_eq!(
        on_listener_event(ListenerPhase::Accepting, ListenerEvent::AcceptFailed),
        (ListenerPhase::Stopped, ListenerAction::Fail)
    );
}

#[test]
fn connection_relays_and_half_closes_both_ways() {
    let mut connection = Connection::new();
    let mut actions = Vec::new();
    for event in [
        ConnectionEvent::Picked,
        ConnectionEvent::Connected,
        ConnectionEvent::CopyEnded(Direction::ToBackend),
        ConnectionEvent::ShutDown(Direction::ToBackend),
        ConnectionEvent::CopyEnded(Direction::ToClient),
        ConnectionEvent::ShutDown(Direction::ToClient),
    ] {
        let (next, action) = connection.advance(event);
        connection = next;
        actions.push(action);
    }
    assert_eq!(
        actions,
        vec![
            ConnectionAction::Connect,
            ConnectionAction::Relay,
            ConnectionAction::HalfClose(Direction::ToBackend),
            ConnectionAction::Wait,
            ConnectionAction::HalfClose(Direction::ToClient),
            ConnectionAction::Finish,
        ]
    );
    assert!(connection.closed);
    assert_eq!(connection.to_backend, Relay::Ended);
    assert_eq!(connection.to_client, Relay::Ended);
    assert_eq!(connection.advance(ConnectionEvent::Picked).1, ConnectionAction::Refused);
}

#[test]
fn connection_directions_are_independent() {
    let (connection, _) = Connection::new().advance(ConnectionEvent::Picked);
    let (connection, _) = connection.advance(ConnectionEvent::Connected);
    let (connection, action) = connection.advance(ConnectionEvent::CopyEnded(Direction::ToClient));
    assert_eq!(action, ConnectionAction::HalfClose(Direction::ToClient));
    assert_eq!(connection.to_backend, Relay::Copying);
    let (connection, action) =
        connection.advance(ConnectionEvent::CopyEnded(Direction::ToBackend));
    assert_eq!(action, ConnectionAction::HalfClose(Direction::ToBackend));
    let (connection, action) = connection.advance(ConnectionEvent::ShutDown(Direction::ToClient));
    assert_eq!(action, ConnectionAction::Wait);
    assert!(!connection.closed);
    let (connection, action) = connection.advance(ConnectionEvent::ShutDown(Direction::ToBackend));
    assert_eq!(action, ConnectionAction::Finish);
    assert!(connection.closed);
}

#[test]
fn connection_is_dropped_without_a_backend() {
    let (connection, action) = Connection::new().advance(ConnectionEvent::NoBackend);
    assert_eq!(action, ConnectionAction::Drop);
    assert!(connection.closed);
    let (connection, _) = Connection::new().advance(ConnectionEvent::Picked);
    let (connection, action) = connection.advance(ConnectionEvent::ConnectFailed);
    assert_eq!(action, ConnectionAction::Drop);
    assert!(connection.closed);
    assert_eq!(connection.to_backend, Relay::Idle);
}

#[test]
fn connection_refuses_events_out_of_order() {
    let fresh = Connection::new();
    for event in [
        ConnectionEvent::Connected,
        ConnectionEvent::ConnectFailed,
        ConnectionEvent::CopyEnded(Direction::ToBackend),
        ConnectionEvent::ShutDown(Direction::ToClient),
    ] {
        assert_eq!(fresh.advance(event), (fresh, ConnectionAction::Refused));
    }
    let (picked, _) = fresh.advance(ConnectionEvent::Picked);
    assert_eq!(picked.advance(ConnectionEvent::Picked), (picked, ConnectionAction::Refused));
    assert_eq!(picked.advance(ConnectionEvent::NoBackend), (picked, ConnectionAction::Refused));
    let (relaying, _) = picked.advance(ConnectionEvent::Connected);
    assert_eq!(
        relaying.advance(ConnectionEvent::ShutDown(Direction::ToBackend)),
        (relaying, ConnectionAction::Refused)
    );
    assert_eq!(relaying.advance(ConnectionEvent::Connected), (relaying, ConnectionAction::Refused));
}
