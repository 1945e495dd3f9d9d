use gefolge_websocket::event::{Delta, Event, EventFile, Key, State};
use gefolge_websocket::node::Node;
use gefolge_websocket::session::{
    Connection, ConnectionAction, ConnectionInput, ConnectionPhase, Phase, ServerMessage, Session, SessionEvent,
    SessionPurpose,
};
use gefolge_websocket::zone::EventJson;
use gefolge_websocket::Error;

fn event(id: &str) -> Event {
    Event { id: id.to_string(), timezone: "Europe/Berlin".to_string() }
}

fn state(event: Option<Event>, version: u8) -> State {
    State { event, latest_version: [version; 20] }
}

fn event_id_of(s: &State) -> Option<String> {
    s.event.as_ref().map(|e| e.id.clone())
}

fn replay(deltas: &[Delta]) -> Result<State, Error> {
    let mut s = Ok(state(Some(event("stale")), 0));
    for d in deltas {
        d.apply(&mut s);
    }
    s
}

#[test]
fn ping_leaves_state_unchanged() {
    let mut s = Ok(state(Some(event("party")), 3));
    Delta::Ping.apply(&mut s);
    let s = s.unwrap();
    assert_eq!(event_id_of(&s), Some("party".to_string()));
    assert_eq!(s.latest_version, [3; 20]);
}

#[test]
fn no_event_twice_is_no_event_once() {
    let mut once = Ok(state(Some(event("party")), 3));
    Delta::NoEvent.apply(&mut once);
    let mut twice = Ok(state(Some(event("party")), 3));
    Delta::NoEvent.apply(&mut twice);
    Delta::NoEvent.apply(&mut twice);
    let (once, twice) = (once.unwrap(), twice.unwrap());
    assert!(once.event.is_none() && twice.event.is_none());
    assert_eq!(once.latest_version, twice.latest_version);
}

#[test]
fn current_event_and_version_deltas_replace_fields() {
    let mut s = Ok(state(None, 1));
    Delta::CurrentEvent(event("party")).apply(&mut s);
    Delta::LatestVersion([9; 20]).apply(&mut s);
    let s = s.unwrap();
    assert_eq!(event_id_of(&s), Some("party".to_string()));
    assert_eq!(s.latest_version, [9; 20]);
}

#[test]
fn deltas_leave_failed_state_failed() {
    let mut s: Result<State, Error> = Err(Error::MultipleCurrentEvents);
    Delta::NoEvent.apply(&mut s);
    Delta::Error { debug: "d".to_string(), display: "e".to_string() }.apply(&mut s);
    assert!(matches!(s, Err(Error::MultipleCurrentEvents)));
}

#[test]
fn init_deltas_send_version_first() {
    let with_event = state(Some(event("party")), 4).to_init_deltas();
    assert_eq!(with_event.len(), 2);
    assert!(matches!(with_event[0], Delta::LatestVersion(v) if v == [4; 20]));
    assert!(matches!(&with_event[1], Delta::CurrentEvent(e) if e.id == "party"));
    let without = state(None, 4).to_init_deltas();
    assert!(matches!(without[1], Delta::NoEvent));
}

#[test]
fn subscribers_joining_at_different_points_converge() {
    let mut node = Node::start(Ok(state(None, 1)));
    let (snap_a, a) = node.subscribe();
    node.publish(Delta::CurrentEvent(event("party")));
    let (snap_b, b) = node.subscribe();
    node.publish(Delta::LatestVersion([2; 20]));
    node.publish(Delta::Ping);
    let (snap_c, c) = node.subscribe();
    node.publish(Delta::NoEvent);
    node.publish(Delta::CurrentEvent(event("afterparty")));

    let mut finals = Vec::new();
    for (snap, id) in [(snap_a, a), (snap_b, b), (snap_c, c)] {
        let mut deltas = snap.unwrap().to_init_deltas();
        deltas.extend(node.take(id));
        finals.push(replay(&deltas).unwrap());
    }
    for s in &finals {
        assert_eq!(event_id_of(s), Some("afterparty".to_string()));
        assert_eq!(s.latest_version, [2; 20]);
    }
    let node_state = node.snapshot().unwrap();
    assert_eq!(event_id_of(&node_state), Some("afterparty".to_string()));
    // A second take hands nothing twice.
    assert!(node.take(a).is_empty());
}

#[test]
fn failed_node_ignores_deltas() {
    let mut node = Node::start(Err(Error::MultipleCurrentEvents));
    node.publish(Delta::NoEvent);
    let (snap, id) = node.subscribe();
    assert!(matches!(snap, Err(Error::MultipleCurrentEvents)));
    assert!(node.take(id).is_empty());
}

#[test]
fn scenario_overlap_client_gets_one_error_delta() {
    let party = EventJson { end: Some(1704110400), location: None, start: Some(1704103200), timezone: None };
    let brunch = EventJson { end: Some(1704114000), location: None, start: Some(1704105000), timezone: None };
    let files = vec![
        EventFile { name: "party.json".to_string(), loaded: Ok(party) },
        EventFile { name: "brunch.json".to_string(), loaded: Ok(brunch) },
    ];
    let mut node = Key.maintain(&files, &Vec::new(), 1704103200, Ok([1; 20]));
    let (snapshot, _) = node.subscribe();
    let mut session = Session::new();
    let sent = session.step(SessionEvent::Joined(snapshot));
    assert_eq!(sent.len(), 1);
    match &sent[0] {
        Delta::Error { debug, display } => {
            assert_eq!(debug, "MultipleCurrentEvents");
            assert_eq!(display, "there are multiple events currently ongoing");
        }
        other => panic!("unexpected {:?}", other),
    }
    assert!(session.is_stopped());
    assert!(session.step(SessionEvent::Received(Delta::Ping)).is_empty());
}

#[test]
fn scenario_client_leaves_after_snapshot() {
    let mut node = Key.maintain(&Vec::new(), &Vec::new(), 0, Ok([5; 20]));
    let (snapshot, _) = node.subscribe();
    let mut session = Session::new();
    let sent = session.step(SessionEvent::Joined(snapshot));
    assert_eq!(sent.len(), 2);
    assert!(matches!(sent[0], Delta::LatestVersion(v) if v == [5; 20]));
    assert!(matches!(sent[1], Delta::NoEvent));
    assert_eq!(session.phase, Phase::Streaming);
    assert!(session.step(SessionEvent::Closed).is_empty());
    assert!(session.is_stopped());
    assert!(session.step(SessionEvent::Received(Delta::NoEvent)).is_empty());
}

#[test]
fn session_forwards_live_deltas_until_error() {
    let mut session = Session::new();
    session.step(SessionEvent::Joined(Ok(state(None, 1))));
    let sent = session.step(SessionEvent::Received(Delta::CurrentEvent(event("party"))));
    assert!(matches!(&sent[..], [Delta::CurrentEvent(e)] if e.id == "party"));
    let sent = session.step(SessionEvent::Received(Delta::Error { debug: "x".to_string(), display: "y".to_string() }));
    assert_eq!(sent.len(), 1);
    assert!(session.is_stopped());
    assert!(session.step(SessionEvent::Received(Delta::Ping)).is_empty());
}

#[test]
fn session_stops_when_send_fails() {
    let mut session = Session::new();
    session.step(SessionEvent::Joined(Ok(state(None, 1))));
    assert!(session.step(SessionEvent::SendFailed).is_empty());
    assert!(session.is_stopped());
}

#[test]
fn server_message_from_error_carries_both_texts() {
    match ServerMessage::from_error(&Error::UnknownApiKey) {
        ServerMessage::Error { debug, display } => {
            assert_eq!(debug, "UnknownApiKey");
            assert_eq!(display, "unknown API key");
        }
        ServerMessage::Ping => panic!("expected an error message"),
    }
}

#[test]
fn error_texts() {
    assert_eq!(Error::Io("denied".to_string(), Some("/a/b.json".to_string())).to_string(), "I/O error at /a/b.json: denied");
    assert_eq!(Error::Io("denied".to_string(), None).to_string(), "I/O error: denied");
    assert_eq!(Error::Json("eof".to_string(), None).to_debug_string(), "Json(eof)");
    assert_eq!(Error::Git("bad ref".to_string()).to_string(), "git error: bad ref");
    assert_eq!(Error::InvalidTimestamp.to_string(), "invalid timestamp");
    assert_eq!(Error::NonJsonEventFile.to_string(), "events dir contains a non-.json file");
    assert_eq!(Error::LocationNotFound("atlantis".to_string()).to_string(), "unknown location: atlantis");
    assert_eq!(Error::Write("closed".to_string()).to_string(), "error writing to websocket: closed");
}

#[test]
fn ambiguous_timestamp_text_names_both_instants() {
    let e = Error::AmbiguousTimestamp(1729989000, 1729992600);
    assert_eq!(e.to_string(), "ambiguous timestamp: could refer to 2024-10-27 00:30:00 or 2024-10-27 01:30:00 UTC");
    assert_eq!(e.to_debug_string(), "AmbiguousTimestamp(2024-10-27 00:30:00, 2024-10-27 01:30:00)");
}

#[test]
fn connection_with_known_key_runs_event_session() {
    let mut connection = Connection::new();
    assert!(matches!(connection.advance(ConnectionInput::Credential { known: true }), ConnectionAction::StartHeartbeat));
    assert!(matches!(connection.advance(ConnectionInput::Purpose(SessionPurpose::CurrentEvent)), ConnectionAction::RunEvents));
    assert_eq!(connection.phase, ConnectionPhase::Events);
}

#[test]
fn connection_with_game_purpose_runs_game() {
    let mut connection = Connection::new();
    connection.advance(ConnectionInput::Credential { known: true });
    assert!(matches!(connection.advance(ConnectionInput::Purpose(SessionPurpose::RicochetRobots)), ConnectionAction::RunGame));
    assert_eq!(connection.phase, ConnectionPhase::Game);
}

#[test]
fn connection_with_unknown_key_reports_and_closes() {
    let mut connection = Connection::new();
    match connection.advance(ConnectionInput::Credential { known: false }) {
        ConnectionAction::Report(ServerMessage::Error { display, .. }) => assert_eq!(display, "unknown API key"),
        _ => panic!("expected an error report"),
    }
    assert_eq!(connection.phase, ConnectionPhase::Closed);
    assert!(matches!(connection.advance(ConnectionInput::Purpose(SessionPurpose::CurrentEvent)), ConnectionAction::Close));
}

#[test]
fn connection_reports_session_failure() {
    let mut connection = Connection::new();
    connection.advance(ConnectionInput::Credential { known: true });
    connection.advance(ConnectionInput::Purpose(SessionPurpose::CurrentEvent));
    match connection.advance(ConnectionInput::Failed(Error::Write("broken pipe".to_string()))) {
        ConnectionAction::Report(ServerMessage::Error { debug, display }) => {
            assert_eq!(debug, "Write(broken pipe)");
            assert_eq!(display, "error writing to websocket: broken pipe");
        }
        _ => panic!("expected an error report"),
    }
}

#[test]
fn connection_out_of_order_input_closes() {
    let mut connection = Connection::new();
    assert!(matches!(connection.advance(ConnectionInput::Purpose(SessionPurpose::CurrentEvent)), ConnectionAction::Close));
    assert_eq!(connection.phase, ConnectionPhase::Closed);
}

#[test]
fn session_output_rebuilds_node_state() {
    let mut node = Node::start(Ok(state(None, 1)));
    node.publish(Delta::CurrentEvent(event("party")));
    let (snapshot, id) = node.subscribe();
    node.publish(Delta::LatestVersion([3; 20]));
    node.publish(Delta::NoEvent);
    let mut session = Session::new();
    let mut sent = session.step(SessionEvent::Joined(snapshot));
    for delta in node.take(id) {
        sent.extend(session.step(SessionEvent::Received(delta)));
    }
    assert_eq!(session.phase, Phase::Streaming);
    assert_eq!(sent.len(), 4);
    let client = replay(&sent).unwrap();
    let node_state = node.snapshot().unwrap();
    assert_eq!(event_id_of(&client), event_id_of(&node_state));
    assert_eq!(client.latest_version, node_state.latest_version);
    assert_eq!(client.latest_version, [3; 20]);
}
