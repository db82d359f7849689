use chirper::auth::{current_account, login, logout};
use chirper::error::AuthError;
use chirper::session::Session;
use chirper::user::{User, UserMessage, UserStore};

fn msg(handle: &str, email: &str, password: &str) -> UserMessage {
    UserMessage {
        handle: handle.to_string(),
        email: email.to_string(),
        password: password.to_string(),
    }
}

#[test]
fn register_stores_account_without_plaintext() {
    let mut store = UserStore::new();
    let alice = User::create(&mut store, msg("alice", "a@x.com", "pw1")).unwrap();
    assert_eq!(alice.handle, "alice");
    assert_eq!(alice.email, "a@x.com");
    assert_ne!(alice.password, "pw1");
    assert!(alice.password.len() > 0);
    assert!(alice.updated_at.is_none());
}

#[test]
fn register_duplicate_handle_is_conflict_and_changes_nothing() {
    let mut store = UserStore::new();
    let alice = User::create(&mut store, msg("alice", "a@x.com", "pw1")).unwrap();
    let before = alice.password.clone();

    let r = User::create(&mut store, msg("alice", "other@x.com", "pw2"));
    assert_eq!(r.unwrap_err(), AuthError::Conflict);

    let r = User::create(&mut store, msg("alice2", "a@x.com", "pw2"));
    assert_eq!(r.unwrap_err(), AuthError::Conflict);

    let still = User::find_by_handle(&store, &"alice".to_string()).unwrap();
    assert_eq!(still.password, before);
    assert_eq!(User::find_all(&store).len(), 1);
}

#[test]
fn login_unknown_handle_and_wrong_password_yield_identical_error() {
    let mut store = UserStore::new();
    User::create(&mut store, msg("alice", "a@x.com", "pw1")).unwrap();

    let mut s1 = Session::new(1);
    let e_missing = login(&store, &"ghost".to_string(), &"pw1".to_string(), &mut s1).unwrap_err();

    let mut s2 = Session::new(2);
    let e_wrong = login(&store, &"alice".to_string(), &"bad".to_string(), &mut s2).unwrap_err();

    assert_eq!(e_missing, e_wrong);
    assert_eq!(e_missing, AuthError::InvalidCredentials);
    assert_eq!(e_missing.status_code(), 401);
    assert_eq!(e_missing.message(), e_wrong.message());
    assert_eq!(s1.get_account_id(), None);
    assert_eq!(s2.get_account_id(), None);
}

#[test]
fn login_then_current_account_then_logout() {
    let mut store = UserStore::new();
    let alice = User::create(&mut store, msg("alice", "a@x.com", "pw1")).unwrap();

    let mut session = Session::new(10);
    let old_token = session.token;
    let logged = login(&store, &"alice".to_string(), &"pw1".to_string(), &mut session).unwrap();
    assert_eq!(logged.id, alice.id);
    assert_eq!(session.get_account_id(), Some(alice.id));

    let me = current_account(&store, &session).unwrap();
    assert_eq!(me.id, alice.id);
    assert_eq!(me.handle, "alice");
    let _ = old_token;

    logout(&mut session).unwrap();
    assert_eq!(
        current_account(&store, &session).unwrap_err(),
        AuthError::Unauthorized
    );
}

#[test]
fn purged_session_never_resolves_and_double_logout_fails() {
    let mut store = UserStore::new();
    let alice = User::create(&mut store, msg("alice", "a@x.com", "pw1")).unwrap();

    let mut session = Session::new(11);
    login(&store, &"alice".to_string(), &"pw1".to_string(), &mut session).unwrap();
    assert_eq!(session.get_account_id(), Some(alice.id));

    logout(&mut session).unwrap();
    assert_eq!(session.get_account_id(), None);
    assert_eq!(logout(&mut session).unwrap_err(), AuthError::Unauthorized);
    assert_eq!(session.get_account_id(), None);
}

#[test]
fn login_by_email_binds_the_same_account() {
    let mut store = UserStore::new();
    let alice = User::create(&mut store, msg("alice", "a@x.com", "pw1")).unwrap();

    let mut session = Session::new(13);
    let logged = login(&store, &"a@x.com".to_string(), &"pw1".to_string(), &mut session).unwrap();
    assert_eq!(logged.id, alice.id);
    assert_eq!(session.get_account_id(), Some(alice.id));

    let mut other = Session::new(14);
    let wrong = login(&store, &"a@x.com".to_string(), &"nope".to_string(), &mut other);
    assert_eq!(wrong.unwrap_err(), AuthError::InvalidCredentials);
}

#[test]
fn current_account_of_deleted_account_is_not_found() {
    let mut store = UserStore::new();
    let alice = User::create(&mut store, msg("alice", "a@x.com", "pw1")).unwrap();

    let mut session = Session::new(12);
    login(&store, &"alice".to_string(), &"pw1".to_string(), &mut session).unwrap();

    assert_eq!(User::delete(&mut store, alice.id), Ok(1));
    assert_eq!(
        current_account(&store, &session).unwrap_err(),
        AuthError::NotFound
    );
}

#[test]
fn find_by_email_and_update_profile() {
    let mut store = UserStore::new();
    let alice = User::create(&mut store, msg("alice", "a@x.com", "pw1")).unwrap();
    User::create(&mut store, msg("bob", "b@x.com", "pw2")).unwrap();

    let by_email = User::find_by_email(&store, &"a@x.com".to_string()).unwrap();
    assert_eq!(by_email.id, alice.id);

    // Taking bob's handle is refused; a fresh one is accepted.
    let clash = User::update(&mut store, alice.id, msg("bob", "a@x.com", ""));
    assert_eq!(clash.unwrap_err(), AuthError::Conflict);

    let renamed = User::update(&mut store, alice.id, msg("alice2", "a2@x.com", "")).unwrap();
    assert_eq!(renamed.handle, "alice2");
    assert_eq!(renamed.email, "a2@x.com");
    assert_eq!(renamed.password, alice.password);
    assert!(renamed.updated_at.is_some());

    let ghost = User::update(&mut store, alice.id ^ 0x5a5a, msg("x", "y", ""));
    assert_eq!(ghost.unwrap_err(), AuthError::NotFound);
}

#[test]
fn hash_password_method_rehashes_in_place() {
    let mut u = User {
        id: 1,
        email: "a@x.com".to_string(),
        handle: "alice".to_string(),
        password: "plaintext".to_string(),
        created_at: 0,
        updated_at: None,
    };
    u.hash_password().unwrap();
    assert_ne!(u.password, "plaintext");
    assert_eq!(u.verify_password("plaintext"), Ok(true));
    assert_eq!(u.verify_password("other"), Ok(false));
}
