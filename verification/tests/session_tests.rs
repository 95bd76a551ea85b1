use portal_core::auth::{AuthConfig, AuthMode, User};
use portal_core::headers::{HeaderEntry, Headers};
use portal_core::maintenance::{classify_sweep, SweepReport};
use portal_core::session::{SessionStore, StoreError};

const HOUR: u64 = 3600;

fn cfg() -> AuthConfig {
    AuthConfig {
        mode: AuthMode::StatefulSession,
        username_header: "x-portal-username".to_string(),
        display_name_header: "x-portal-user-display-name".to_string(),
        roles_header: "x-portal-user-roles".to_string(),
        session_cookie: "session".to_string(),
        moderator_role: "ROLE_MODERATOR".to_string(),
        upload_role: "ROLE_UPLOAD".to_string(),
        studio_role: "ROLE_STUDIO".to_string(),
        editor_role: "ROLE_EDITOR".to_string(),
        session_duration_secs: HOUR,
    }
}

fn alice() -> User {
    User {
        username: "alice".to_string(),
        display_name: "Alice A.".to_string(),
        roles: vec!["ROLE_ANONYMOUS".to_string(), "ROLE_USER".to_string()],
    }
}

#[test]
fn create_then_lookup_within_duration_round_trips() {
    let mut store = SessionStore::new();
    store.create(&alice(), b"id-1".to_vec(), 100).expect("fresh id");
    let u = store.lookup(&b"id-1".to_vec(), 100 + HOUR - 1, HOUR).expect("live session");
    assert_eq!(u.username, "alice");
    assert_eq!(u.display_name, "Alice A.");
    assert_eq!(u.roles, vec!["ROLE_ANONYMOUS", "ROLE_USER"]);
}

#[test]
fn lookup_of_unknown_id_is_none() {
    let mut store = SessionStore::new();
    store.create(&alice(), b"id-1".to_vec(), 100).expect("fresh id");
    assert!(store.lookup(&b"id-2".to_vec(), 100, HOUR).is_none());
}

#[test]
fn lookup_of_expired_session_is_none() {
    let mut store = SessionStore::new();
    store.create(&alice(), b"id-1".to_vec(), 0).expect("fresh id");
    assert!(store.lookup(&b"id-1".to_vec(), HOUR + 1, HOUR).is_none());
}

#[test]
fn lookup_at_exact_duration_boundary_is_none_but_not_yet_collected() {
    let mut store = SessionStore::new();
    store.create(&alice(), b"id-1".to_vec(), 0).expect("fresh id");
    // now - created == duration: no longer served...
    assert!(store.lookup(&b"id-1".to_vec(), HOUR, HOUR).is_none());
    // ...but the sweep's strict "older than" does not collect it yet.
    assert_eq!(store.delete_expired(HOUR, HOUR), 0);
    assert_eq!(store.sessions.len(), 1);
}

#[test]
fn delete_expired_removes_old_and_keeps_new() {
    let mut store = SessionStore::new();
    store.create(&alice(), b"old-1".to_vec(), 0).expect("fresh id");
    store.create(&alice(), b"new-1".to_vec(), 2 * HOUR).expect("fresh id");
    store.create(&alice(), b"old-2".to_vec(), 10).expect("fresh id");
    let removed = store.delete_expired(2 * HOUR + 10, HOUR);
    assert_eq!(removed, 2);
    assert_eq!(store.sessions.len(), 1);
    assert_eq!(store.sessions[0].id, b"new-1".to_vec());
    // the survivor still resolves
    assert!(store.lookup(&b"new-1".to_vec(), 2 * HOUR + 10, HOUR).is_some());
    assert!(store.lookup(&b"old-1".to_vec(), 2 * HOUR + 10, HOUR).is_none());
}

#[test]
fn id_collision_is_a_hard_error_and_changes_nothing() {
    let mut store = SessionStore::new();
    store.create(&alice(), b"id-1".to_vec(), 100).expect("fresh id");
    let r = store.create(&alice(), b"id-1".to_vec(), 200);
    assert!(matches!(r, Err(StoreError::IdCollision)));
    assert_eq!(store.sessions.len(), 1);
    assert_eq!(store.sessions[0].created, 100);
}

#[test]
fn login_cookie_resolves_then_expires() {
    // The stateful scenario end to end: a login creates a session, the
    // returned id travels in the cookie, the next request resolves to
    // the same identity, and once the duration has elapsed the same
    // cookie resolves to anonymous.
    let c = cfg();
    let mut store = SessionStore::new();
    let session_id = b"tok-3f2a".to_vec();
    store.create(&alice(), session_id.clone(), 1000).expect("fresh id");

    let h = Headers {
        entries: vec![
            HeaderEntry { name: "accept".to_string(), value: b"*/*".to_vec() },
            HeaderEntry {
                name: "cookie".to_string(),
                value: b"theme=dark; session=tok-3f2a".to_vec(),
            },
        ],
    };
    let u = User::new(&h, &c, &store, 1000 + 5).expect("live session");
    assert_eq!(u.username, "alice");
    assert_eq!(u.roles, vec!["ROLE_ANONYMOUS", "ROLE_USER"]);

    // after the session duration the same cookie is anonymous
    assert!(User::new(&h, &c, &store, 1000 + HOUR).is_none());

    // and a sweep then collects the row
    let mut store = store;
    assert_eq!(store.delete_expired(1000 + HOUR + 1, HOUR), 1);
    assert_eq!(store.sessions.len(), 0);
}

#[test]
fn request_without_cookie_is_anonymous_in_stateful_mode() {
    let c = cfg();
    let mut store = SessionStore::new();
    store.create(&alice(), b"id-1".to_vec(), 0).expect("fresh id");
    let h = Headers { entries: vec![] };
    assert!(User::new(&h, &c, &store, 1).is_none());
}

#[test]
fn persist_new_session_stores_the_identity_once() {
    let mut store = SessionStore::new();
    let u = alice();
    u.persist_new_session(&mut store, b"fresh".to_vec(), 42).expect("fresh id");
    let r = u.persist_new_session(&mut store, b"fresh".to_vec(), 43);
    assert!(matches!(r, Err(StoreError::IdCollision)));
    let back = store.lookup(&b"fresh".to_vec(), 50, HOUR).expect("live session");
    assert_eq!(back.username, "alice");
}

#[test]
fn cookie_pairs_are_trimmed_and_searched_in_order() {
    let c = cfg();
    let mut store = SessionStore::new();
    store.create(&alice(), b"tok".to_vec(), 0).expect("fresh id");
    let h = Headers {
        entries: vec![HeaderEntry {
            name: "cookie".to_string(),
            value: b"a=b ;  session=tok ; session=other".to_vec(),
        }],
    };
    let u = User::new(&h, &c, &store, 10).expect("live session");
    assert_eq!(u.username, "alice");
}

#[test]
fn classify_sweep_reports_each_outcome() {
    assert!(matches!(classify_sweep(&None), SweepReport::SweepFailed));
    assert!(matches!(classify_sweep(&Some(0)), SweepReport::NothingDeleted));
    assert!(matches!(classify_sweep(&Some(7)), SweepReport::Deleted(7)));
}
