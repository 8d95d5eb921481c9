//! Tests for the Server Supervisor's decisions: configuration, start and
//! stop, bind failure, connection-id assignment, observer-side
//! subscription operations, and send routing.

use relay_core::codec::CommandWithClientId;
use relay_core::events::Event;
use relay_core::idgen::IdGen;
use relay_core::server::Server;
use relay_core::server::ServerOptions;
use relay_core::server::ServerState;

#[test]
fn default_options_port() {
    assert_eq!(ServerOptions::default().port, 9090);
}

#[test]
fn default_state_not_started() {
    let s = ServerState::default();
    assert!(!s.started);
    assert_eq!(s.options.port, 9090);
}

#[test]
fn configure_replaces_options() {
    let mut s = Server::new();
    s.configure(ServerOptions { port: 4000 });
    assert_eq!(s.state.options.port, 4000);
    assert!(!s.state.started);
}

#[test]
fn start_emits_start_and_marks_started() {
    let mut s = Server::new();
    let ev = s.begin_start();
    assert!(matches!(ev, Event::Start));
    assert!(s.state.started);
}

#[test]
fn bind_conflict_reports_port_and_resets_started() {
    let mut s = Server::new();
    s.configure(ServerOptions { port: 9091 });
    s.begin_start();
    let ev = s.bind_failed(9091, true);
    match ev {
        Some(Event::PortUnavailable(p)) => assert_eq!(p, 9091),
        _ => panic!("expected a portUnavailable event"),
    }
    assert!(!s.state.started);
}

#[test]
fn bind_conflict_reports_the_attempted_port() {
    let mut s = Server::new();
    s.begin_start();
    // Reconfiguring after the bind was attempted does not change which
    // port the failure event names.
    s.configure(ServerOptions { port: 7777 });
    match s.bind_failed(9090, true) {
        Some(Event::PortUnavailable(p)) => assert_eq!(p, 9090),
        _ => panic!("expected a portUnavailable event"),
    }
}

#[test]
fn other_bind_failure_changes_nothing() {
    let mut s = Server::new();
    s.begin_start();
    assert!(s.bind_failed(9090, false).is_none());
    assert!(s.state.started);
}

#[test]
fn connection_ids_strictly_increase() {
    let mut s = Server::new();
    s.begin_start();
    assert_eq!(s.accept_connection(), 1);
    assert_eq!(s.accept_connection(), 2);
    assert_eq!(s.accept_connection(), 3);
}

#[test]
fn stop_clears_and_restart_resets_ids() {
    let mut s = Server::new();
    s.begin_start();
    s.accept_connection();
    s.accept_connection();
    s.subscribe_path(String::from("app.state"));
    let ev = s.complete_stop();
    assert!(matches!(ev, Event::Stop));
    assert!(!s.state.started);
    assert_eq!(s.registry.len(), 0);
    assert_eq!(s.subscriptions.len(), 0);
    s.begin_start();
    assert_eq!(s.accept_connection(), 1);
}

#[test]
fn subscribe_path_broadcasts_snapshot() {
    let mut s = Server::new();
    let msg = s.subscribe_path(String::from("app.state")).unwrap();
    assert_eq!(
        msg,
        "{\"type\":\"state.values.subscribe\",\"payload\":{\"paths\":[\"app.state\"]}}"
    );
    assert!(s.subscribe_path(String::from("app.state")).is_none());
}

#[test]
fn subscribe_wildcard_stores_sentinel() {
    let mut s = Server::new();
    let msg = s.subscribe_path(String::from("*")).unwrap();
    assert_eq!(msg, "{\"type\":\"state.values.subscribe\",\"payload\":{\"paths\":[\"\"]}}");
}

#[test]
fn unsubscribe_path_broadcasts_remaining() {
    let mut s = Server::new();
    s.subscribe_path(String::from("a"));
    s.subscribe_path(String::from("b"));
    let msg = s.unsubscribe_path("a").unwrap();
    assert_eq!(msg, "{\"type\":\"state.values.subscribe\",\"payload\":{\"paths\":[\"b\"]}}");
    assert!(s.unsubscribe_path("zzz").is_none());
}

#[test]
fn clear_subscriptions_broadcasts_empty_list() {
    let mut s = Server::new();
    s.subscribe_path(String::from("a"));
    let msg = s.clear_subscriptions();
    assert_eq!(msg, "{\"type\":\"state.values.subscribe\",\"payload\":{\"paths\":[]}}");
    assert_eq!(s.subscriptions.len(), 0);
}

#[test]
fn route_send_renders_envelope() {
    let s = Server::new();
    let cmd = CommandWithClientId {
        kind: String::from("log"),
        payload: serde_json::from_str("{\"msg\":\"hi\"}").unwrap(),
        client_id: String::new(),
        important: false,
        date: None,
        delta_time: None,
    };
    let (targets, text) = s.route_send(&cmd);
    assert!(targets.is_empty());
    assert_eq!(text, "{\"type\":\"log\",\"payload\":{\"msg\":\"hi\"}}");
}

#[test]
fn custom_message_builds_and_encodes() {
    let s = Server::new();
    let cmd = relay_core::codec::custom_message(String::from("hello"), None);
    assert_eq!(cmd.kind, "custom");
    assert_eq!(cmd.client_id, "");
    let (_, text) = s.route_send(&cmd);
    assert_eq!(text, "{\"type\":\"custom\",\"payload\":\"hello\"}");
    let cmd = relay_core::codec::custom_message(String::from("x"), Some(String::from("c9")));
    assert_eq!(cmd.client_id, "c9");
}

#[test]
fn generated_ids_are_distinct() {
    let mut g = IdGen::new();
    let mut seen: Vec<String> = Vec::new();
    for _ in 0..100 {
        let id = g.fresh();
        assert_eq!(id.len(), 36);
        assert!(!seen.contains(&id));
        seen.push(id);
    }
    assert_eq!(g.issued_count(), 100);
}
