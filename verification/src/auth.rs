use vstd::prelude::*;
use crate::ambient;
use crate::error::AuthError;
use crate::hash::argon2_verify;
use crate::session::Session;
use crate::user::{
    User, UserStore, email_taken, handle_taken, id_taken, lemma_user_with_email_unique,
    lemma_user_with_handle_unique, lemma_user_with_id_unique, user_with_id, users_wf,
};

verus! {

/// The outcome owed when resolving the acting account of a session: the
/// account bound to it; `Unauthorized` when no identity is bound; and
/// `NotFound` when the bound account has since disappeared.
pub open spec fn spec_current(users: Seq<User>, s: Session) -> Result<User, AuthError> {
    match s.identity() {
        None => Err(AuthError::Unauthorized),
        Some(id) => if id_taken(users, id) {
            Ok(user_with_id(users, id))
        } else {
            Err(AuthError::NotFound)
        },
    }
}

/// Authenticates an identifier (a handle, or failing that an email) and a
/// plaintext password against the account store; on success binds the
/// account's id into the session and rotates the session token under a
/// freshly drawn value. An identifier that resolves to no account and a
/// password that fails verification yield the identical
/// `InvalidCredentials` error, so account existence never leaks; a stored
/// credential record that does not even parse is a `Hashing` error, as
/// distinct from "password incorrect". The session changes only on success.
pub fn login(
    store: &UserStore,
    identifier: &String,
    password: &String,
    session: &mut Session,
) -> (r: Result<User, AuthError>)
    requires
        store.wf(),
        old(session).live,
        password@.len() <= 0x3FFF_FFFF,
    ensures
        final(session).live,
        (!handle_taken(store@, identifier@) && !email_taken(store@, identifier@)) ==> r == Err::<
            User,
            AuthError,
        >(AuthError::InvalidCredentials) && *final(session) == *old(session),
        forall |i: int| 0 <= i < store@.len() && (#[trigger] store@[i]).handle@ == identifier@
            ==> (match argon2_verify(store@[i].password@, password@) {
                Some(true) => r == Ok::<User, AuthError>(store@[i]),
                Some(false) => r == Err::<User, AuthError>(AuthError::InvalidCredentials),
                None => r == Err::<User, AuthError>(AuthError::Hashing),
            }),
        !handle_taken(store@, identifier@) ==> (forall |i: int| 0 <= i < store@.len()
            && (#[trigger] store@[i]).email@ == identifier@
            ==> (match argon2_verify(store@[i].password@, password@) {
                Some(true) => r == Ok::<User, AuthError>(store@[i]),
                Some(false) => r == Err::<User, AuthError>(AuthError::InvalidCredentials),
                None => r == Err::<User, AuthError>(AuthError::Hashing),
            })),
        r matches Ok(u) ==> store@.contains(u) && (u.handle@ == identifier@ || u.email@
            == identifier@) && final(session).identity() == Some(u.id),
        r is Err ==> *final(session) == *old(session),
{
    let by_handle = User::find_by_handle(store, identifier);
    let user = match by_handle {
        Ok(u) => {
            proof {
                lemma_user_with_handle_unique(store@, u, identifier@);
            }
            u
        },
        Err(_) => {
            match User::find_by_email(store, identifier) {
                Ok(u) => {
                    proof {
                        lemma_user_with_email_unique(store@, u, identifier@);
                    }
                    u
                },
                Err(_) => {
                    return Err(AuthError::InvalidCredentials);
                },
            }
        },
    };
    let valid = match user.verify_password(password.as_str()) {
        Ok(b) => b,
        Err(e) => {
            return Err(e);
        },
    };
    if valid {
        session.set_account_id(user.id);
        let token = ambient::fresh_id();
        session.renew(token);
        Ok(user)
    } else {
        Err(AuthError::InvalidCredentials)
    }
}

/// Ends the session's authenticated identity: with an identity bound the
/// session is purged (binding cleared, token invalidated); without one the
/// call is refused with `Unauthorized`, so a second logout on the same
/// session fails rather than succeed.
pub fn logout(session: &mut Session) -> (r: Result<(), AuthError>)
    ensures
        old(session).identity() is Some ==> r == Ok::<(), AuthError>(()) && !final(session).live
            && final(session).account_id is None && final(session).identity() is None,
        old(session).identity() is None ==> r == Err::<(), AuthError>(AuthError::Unauthorized)
            && *final(session) == *old(session),
{
    match session.get_account_id() {
        Some(_) => {
            session.purge();
            Ok(())
        },
        None => Err(AuthError::Unauthorized),
    }
}

/// Resolves the acting account of the session: exactly `spec_current`.
pub fn current_account(store: &UserStore, session: &Session) -> (r: Result<User, AuthError>)
    requires
        store.wf(),
    ensures
        r == spec_current(store@, *session),
{
    let id = match session.get_account_id() {
        Some(id) => id,
        None => {
            return Err(AuthError::Unauthorized);
        },
    };
    match User::find(store, id) {
        Ok(u) => {
            proof {
                lemma_user_with_id_unique(store@, u, id);
            }
            Ok(u)
        },
        Err(_) => Err(AuthError::NotFound),
    }
}

/// A session bound to a stored account resolves to exactly that account;
/// this is what holds of `current_account` right after a successful login.
pub proof fn lemma_identity_resolves(users: Seq<User>, s: Session, u: User)
    requires
        users_wf(users),
        users.contains(u),
        s.identity() == Some(u.id),
    ensures
        spec_current(users, s) == Ok::<User, AuthError>(u),
{
    lemma_user_with_id_unique(users, u, u.id);
}

/// A session with no bound identity — in particular any session right
/// after logout — resolves to `Unauthorized`.
pub proof fn lemma_anonymous_unauthorized(users: Seq<User>, s: Session)
    requires
        s.identity() is None,
    ensures
        spec_current(users, s) == Err::<User, AuthError>(AuthError::Unauthorized),
{
}

} // verus!
