use libdvb::ca::apdu::{Notice, SessionState, SessionTable, MMI, RESOURCE_MANAGER};
use libdvb::error::Error;

fn table() -> SessionTable {
    SessionTable::new(SessionTable::standard_resources())
}

#[test]
fn init_allocates_distinct_ids() {
    let mut t = table();
    let mut ids = Vec::new();
    for _ in 0..100 {
        ids.push(t.init(RESOURCE_MANAGER).unwrap());
    }
    for i in 0..ids.len() {
        for j in i + 1..ids.len() {
            assert_ne!(ids[i], ids[j]);
        }
    }
    assert_eq!(ids[0], 1);
    assert_eq!(ids[99], 100);
    assert!(t.sessions().iter().all(|s| s.state == SessionState::Pending));
}

#[test]
fn init_rejects_unregistered_resource() {
    let mut t = table();
    assert_eq!(t.init(0x0099_0041), Err(Error::UnsupportedResource(0x0099_0041)));
    assert!(t.sessions().is_empty());
}

#[test]
fn init_skips_ids_still_open() {
    let mut t = SessionTable::new(vec![MMI]);
    let first = t.init(MMI).unwrap();
    for _ in 0..0xFFFE {
        let id = t.init(MMI).unwrap();
        t.close(id).unwrap();
    }
    // The counter has come round to the first id, which is still open.
    let id = t.init(MMI).unwrap();
    assert_ne!(id, first);
    assert_ne!(id, 0);
}

#[test]
fn close_twice_succeeds() {
    let mut t = table();
    let id = t.init(RESOURCE_MANAGER).unwrap();
    assert_eq!(t.close(id), Ok(()));
    assert_eq!(t.close(id), Ok(()));
    assert!(t.sessions().is_empty());
    assert_eq!(
        t.take_notices(),
        vec![Notice::Closed { session_id: id, resource_id: RESOURCE_MANAGER }]
    );
}

#[test]
fn close_unknown_id_succeeds() {
    let mut t = table();
    assert_eq!(t.close(77), Ok(()));
    assert!(t.take_notices().is_empty());
}

#[test]
fn open_activates_pending_session_once() {
    let mut t = table();
    let id = t.init(MMI).unwrap();
    assert_eq!(t.open(id), Ok(()));
    assert_eq!(t.sessions()[0].state, SessionState::Active);
    assert_eq!(t.open(id), Err(Error::UnknownSession(id)));
    assert_eq!(t.open(999), Err(Error::UnknownSession(999)));
}

#[test]
fn handle_routes_to_active_session_only() {
    let mut t = table();
    let id = t.init(MMI).unwrap();
    assert_eq!(t.handle(id, &[1, 2]), Err(Error::UnknownSession(id)));
    t.open(id).unwrap();
    t.take_notices();
    assert_eq!(t.handle(id, &[1, 2]), Ok(()));
    assert_eq!(
        t.take_notices(),
        vec![Notice::Apdu { session_id: id, resource_id: MMI, data: vec![1, 2] }]
    );
    assert_eq!(t.handle(id + 1, &[3]), Err(Error::UnknownSession(id + 1)));
}

#[test]
fn manage_turns_active_sessions() {
    let mut t = table();
    let a = t.init(MMI).unwrap();
    let b = t.init(RESOURCE_MANAGER).unwrap();
    t.open(b).unwrap();
    t.take_notices();
    assert_eq!(t.manage(a), Err(Error::UnknownSession(a)));
    t.manage_all();
    assert_eq!(
        t.take_notices(),
        vec![Notice::Manage { session_id: b, resource_id: RESOURCE_MANAGER }]
    );
}

#[test]
fn close_all_closes_in_order() {
    let mut t = table();
    let a = t.init(MMI).unwrap();
    let b = t.init(RESOURCE_MANAGER).unwrap();
    t.close_all();
    assert!(t.sessions().is_empty());
    assert_eq!(
        t.take_notices(),
        vec![
            Notice::Closed { session_id: a, resource_id: MMI },
            Notice::Closed { session_id: b, resource_id: RESOURCE_MANAGER },
        ]
    );
}
