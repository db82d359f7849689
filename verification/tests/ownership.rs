use chirper::auth::{login, logout};
use chirper::error::AuthError;
use chirper::guard::{authorize_owner, create_post, delete_post, update_post};
use chirper::session::Session;
use chirper::tweet::{Tweet, TweetMessage, TweetStore};
use chirper::user::{User, UserMessage, UserStore};

fn register(store: &mut UserStore, handle: &str, email: &str, password: &str) -> User {
    User::create(
        store,
        UserMessage {
            handle: handle.to_string(),
            email: email.to_string(),
            password: password.to_string(),
        },
    )
    .unwrap()
}

fn tmsg(content: &str, handle: &str) -> TweetMessage {
    TweetMessage {
        content: content.to_string(),
        handle: handle.to_string(),
    }
}

#[test]
fn owner_may_mutate_others_are_forbidden() {
    let mut users = UserStore::new();
    let mut tweets = TweetStore::new();
    register(&mut users, "alice", "a@x.com", "pw-a");
    register(&mut users, "bob", "b@x.com", "pw-b");

    let mut alice_session = Session::new(1);
    login(&users, &"alice".to_string(), &"pw-a".to_string(), &mut alice_session).unwrap();
    let post = create_post(&users, &mut tweets, &alice_session, "hello".to_string()).unwrap();
    assert_eq!(post.handle, "alice");

    let mut bob_session = Session::new(2);
    login(&users, &"bob".to_string(), &"pw-b".to_string(), &mut bob_session).unwrap();

    let as_bob_update = update_post(&users, &mut tweets, &bob_session, post.id, tmsg("hacked", "bob"));
    assert_eq!(as_bob_update.unwrap_err(), AuthError::Forbidden);
    let as_bob_delete = delete_post(&users, &mut tweets, &bob_session, post.id);
    assert_eq!(as_bob_delete.unwrap_err(), AuthError::Forbidden);

    // The refused mutations left the post untouched.
    let untouched = Tweet::find(&tweets, post.id).unwrap();
    assert_eq!(untouched.content, "hello");

    let as_alice = update_post(&users, &mut tweets, &alice_session, post.id, tmsg("edited", "alice")).unwrap();
    assert_eq!(as_alice.content, "edited");
    assert_eq!(as_alice.handle, "alice");
    assert_eq!(delete_post(&users, &mut tweets, &alice_session, post.id), Ok(1));
    assert_eq!(
        Tweet::find(&tweets, post.id).unwrap_err(),
        AuthError::NotFound
    );
}

#[test]
fn guard_distinguishes_unauthorized_from_forbidden() {
    let mut users = UserStore::new();
    register(&mut users, "alice", "a@x.com", "pw-a");
    let bob = register(&mut users, "bob", "b@x.com", "pw-b");

    let mut tweets = TweetStore::new();
    let mut alice_session = Session::new(3);
    login(&users, &"alice".to_string(), &"pw-a".to_string(), &mut alice_session).unwrap();
    let post = create_post(&users, &mut tweets, &alice_session, "mine".to_string()).unwrap();
    let target = Tweet::find(&tweets, post.id).unwrap();

    // Anonymous caller.
    let anon = Session::new(4);
    assert_eq!(
        authorize_owner(&users, &anon, &target).unwrap_err(),
        AuthError::Unauthorized
    );

    // Authenticated non-owner.
    let mut bob_session = Session::new(5);
    login(&users, &"bob".to_string(), &"pw-b".to_string(), &mut bob_session).unwrap();
    assert_eq!(
        authorize_owner(&users, &bob_session, &target).unwrap_err(),
        AuthError::Forbidden
    );

    // The owner.
    assert_eq!(authorize_owner(&users, &alice_session, &target), Ok(()));

    // A bound account that has since disappeared is unauthorized, not leaked.
    User::delete(&mut users, bob.id).unwrap();
    assert_eq!(
        authorize_owner(&users, &bob_session, &target).unwrap_err(),
        AuthError::Unauthorized
    );
}

#[test]
fn anonymous_post_creation_is_unauthorized() {
    let users = UserStore::new();
    let mut tweets = TweetStore::new();
    let anon = Session::new(6);
    assert_eq!(
        create_post(&users, &mut tweets, &anon, "nope".to_string()).unwrap_err(),
        AuthError::Unauthorized
    );
    assert!(Tweet::find_all(&tweets).is_empty());
}

#[test]
fn tweet_store_find_update_delete_and_filter() {
    let mut tweets = TweetStore::new();
    let a = Tweet::create(&mut tweets, tmsg("one", "alice")).unwrap();
    let b = Tweet::create(&mut tweets, tmsg("two", "bob")).unwrap();
    let c = Tweet::create(&mut tweets, tmsg("three", "alice")).unwrap();

    assert_eq!(Tweet::find_all(&tweets).len(), 3);
    assert_eq!(Tweet::find(&tweets, b.id).unwrap().content, "two");

    let of_alice = Tweet::tweets_with_handle(&tweets, &"alice".to_string());
    assert_eq!(of_alice.len(), 2);
    assert_eq!(of_alice[0].content, "one");
    assert_eq!(of_alice[1].content, "three");

    // Update replaces the text, stamps a time, and never moves ownership.
    let updated = Tweet::update(&mut tweets, a.id, tmsg("ONE", "mallory")).unwrap();
    assert_eq!(updated.content, "ONE");
    assert_eq!(updated.handle, "alice");
    assert!(updated.updated_at.is_some());

    assert_eq!(Tweet::delete(&mut tweets, c.id), Ok(1));
    assert_eq!(Tweet::delete(&mut tweets, c.id), Ok(0));
    assert_eq!(
        Tweet::update(&mut tweets, c.id, tmsg("gone", "alice")).unwrap_err(),
        AuthError::NotFound
    );
}

#[test]
fn full_scenario_register_login_post_logout_relogin_update() {
    let mut users = UserStore::new();
    let mut tweets = TweetStore::new();

    // register("alice","a@x.com","pw1") succeeds
    let alice = register(&mut users, "alice", "a@x.com", "pw1");

    // login("alice","pw1") succeeds with a session binding
    let mut session = Session::new(7);
    let logged = login(&users, &"alice".to_string(), &"pw1".to_string(), &mut session).unwrap();
    assert_eq!(logged.id, alice.id);

    // create a post through that session
    let post = create_post(&users, &mut tweets, &session, "first!".to_string()).unwrap();
    assert_eq!(post.handle, "alice");

    // logout, then an anonymous update attempt is refused with 401
    logout(&mut session).unwrap();
    let anon_attempt = update_post(&users, &mut tweets, &session, post.id, tmsg("edit", "alice"));
    let err = anon_attempt.unwrap_err();
    assert_eq!(err, AuthError::Unauthorized);
    assert_eq!(err.status_code(), 401);
    assert_eq!(Tweet::find(&tweets, post.id).unwrap().content, "first!");

    // login as alice again; now the update succeeds with the new content
    let mut session = Session::new(8);
    login(&users, &"alice".to_string(), &"pw1".to_string(), &mut session).unwrap();
    let edited = update_post(&users, &mut tweets, &session, post.id, tmsg("edited", "alice")).unwrap();
    assert_eq!(edited.content, "edited");
    assert_eq!(Tweet::find(&tweets, post.id).unwrap().content, "edited");
}
