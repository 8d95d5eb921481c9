//! Tests for the Client Registry: insert-replacing-old, lookup, removal,
//! and routing of broadcasts and single-target sends.

use relay_core::events::Outbound;
use relay_core::registry::ClientConnection;
use relay_core::registry::Registry;

fn conn(id: u32, client_id: &str) -> (ClientConnection, tokio::sync::mpsc::Receiver<Outbound>) {
    let (tx, rx) = tokio::sync::mpsc::channel::<Outbound>(32);
    (
        ClientConnection {
            id,
            address: format!("::ffff:127.0.0.1:{}", 50000 + id),
            client_id: String::from(client_id),
            sender: tx,
        },
        rx,
    )
}

#[test]
fn upsert_new_returns_none() {
    let mut r = Registry::new();
    let (c, _rx) = conn(1, "a");
    assert!(r.upsert(c).is_none());
    assert_eq!(r.len(), 1);
}

#[test]
fn upsert_existing_replaces_and_returns_old() {
    let mut r = Registry::new();
    let (c1, _rx1) = conn(1, "a");
    let (c2, _rx2) = conn(2, "a");
    r.upsert(c1);
    let old = r.upsert(c2).unwrap();
    assert_eq!(old.id, 1);
    assert_eq!(r.len(), 1);
    assert_eq!(r.get("a").unwrap().id, 2);
}

#[test]
fn get_absent_is_none() {
    let r = Registry::new();
    assert!(r.get("nobody").is_none());
}

#[test]
fn remove_returns_entry() {
    let mut r = Registry::new();
    let (c, _rx) = conn(3, "a");
    r.upsert(c);
    let gone = r.remove("a").unwrap();
    assert_eq!(gone.id, 3);
    assert!(r.get("a").is_none());
    assert!(r.remove("a").is_none());
}

#[test]
fn clear_empties_registry() {
    let mut r = Registry::new();
    let (c1, _rx1) = conn(1, "a");
    let (c2, _rx2) = conn(2, "b");
    r.upsert(c1);
    r.upsert(c2);
    r.clear();
    assert_eq!(r.len(), 0);
}

#[test]
fn broadcast_targets_cover_everyone() {
    let mut r = Registry::new();
    let (c1, _rx1) = conn(1, "a");
    let (c2, _rx2) = conn(2, "b");
    let (c3, _rx3) = conn(3, "c");
    r.upsert(c1);
    r.upsert(c2);
    r.upsert(c3);
    assert_eq!(r.targets(""), vec![0, 1, 2]);
}

#[test]
fn single_target_resolves_to_newest() {
    let mut r = Registry::new();
    let (c1, _rx1) = conn(1, "a");
    let (c2, _rx2) = conn(2, "b");
    let (c3, _rx3) = conn(3, "a");
    r.upsert(c1);
    r.upsert(c2);
    r.upsert(c3);
    let t = r.targets("a");
    assert_eq!(t.len(), 1);
    assert_eq!(r.entry_at(t[0]).id, 3);
}

#[test]
fn unknown_target_gets_nothing() {
    let mut r = Registry::new();
    let (c1, _rx1) = conn(1, "a");
    r.upsert(c1);
    assert!(r.targets("zzz").is_empty());
}

#[test]
fn delivery_reaches_the_registered_queue() {
    let mut r = Registry::new();
    let (c, mut rx) = conn(1, "a");
    r.upsert(c);
    let t = r.targets("a");
    let entry = r.entry_at(t[0]);
    entry.sender.try_send(Outbound::Text(String::from("hello"))).unwrap();
    match rx.try_recv().unwrap() {
        Outbound::Text(s) => assert_eq!(s, "hello"),
        _ => panic!("expected a text message"),
    }
}
