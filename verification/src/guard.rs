use vstd::prelude::*;
use crate::error::AuthError;
use crate::session::Session;
use crate::tweet;
use crate::tweet::{Tweet, TweetMessage, TweetStore, lemma_tweet_with_id_unique};
use crate::user;
use crate::user::{User, UserStore, lemma_user_with_id_unique, user_with_id, users_wf};

verus! {

/// The authorization decision owed before any mutation of an owned post:
/// `Unauthorized` without an identity, or when the bound account no longer
/// exists (its disappearance is not leaked as a distinct signal);
/// `Forbidden` when the acting account is not the owner; `Ok` only for the
/// owner.
pub open spec fn spec_authorize(users: Seq<User>, s: Session, owner_handle: Seq<char>) -> Result<
    (),
    AuthError,
> {
    match s.identity() {
        None => Err(AuthError::Unauthorized),
        Some(id) => if !user::id_taken(users, id) {
            Err(AuthError::Unauthorized)
        } else if user_with_id(users, id).handle@ == owner_handle {
            Ok(())
        } else {
            Err(AuthError::Forbidden)
        },
    }
}

/// Resolves the acting account from the session and admits the operation
/// only when that account's handle is the post's owning handle: exactly
/// `spec_authorize`.
pub fn authorize_owner(store: &UserStore, session: &Session, target: &Tweet) -> (r: Result<
    (),
    AuthError,
>)
    requires
        store.wf(),
    ensures
        r == spec_authorize(store@, *session, target.handle@),
{
    let id = match session.get_account_id() {
        Some(id) => id,
        None => {
            return Err(AuthError::Unauthorized);
        },
    };
    let user = match User::find(store, id) {
        Ok(u) => u,
        Err(_) => {
            return Err(AuthError::Unauthorized);
        },
    };
    proof {
        lemma_user_with_id_unique(store@, user, id);
    }
    if user.handle == target.handle {
        Ok(())
    } else {
        Err(AuthError::Forbidden)
    }
}

/// An authenticated account passes the ownership guard exactly on its own
/// posts: the guard admits the owner and refuses every other account with
/// `Forbidden`.
pub proof fn lemma_owner_gates_mutation(
    users: Seq<User>,
    s: Session,
    u: User,
    owner_handle: Seq<char>,
)
    requires
        users_wf(users),
        users.contains(u),
        s.identity() == Some(u.id),
    ensures
        u.handle@ == owner_handle ==> spec_authorize(users, s, owner_handle) == Ok::<
            (),
            AuthError,
        >(()),
        u.handle@ != owner_handle ==> spec_authorize(users, s, owner_handle) == Err::<
            (),
            AuthError,
        >(AuthError::Forbidden),
{
    lemma_user_with_id_unique(users, u, u.id);
}

/// Stores a new post on behalf of the session's account, owned by that
/// account's handle. Refused with `Unauthorized` when no identity is bound
/// or the bound account no longer exists; with both present the post is
/// stored unless the freshly drawn identifier collides (`Conflict`, see
/// `Tweet::create_with_id`). The store changes only on success.
pub fn create_post(
    users: &UserStore,
    tweets: &mut TweetStore,
    session: &Session,
    content: String,
) -> (r: Result<Tweet, AuthError>)
    requires
        users.wf(),
        old(tweets).wf(),
    ensures
        final(tweets).wf(),
        r is Err ==> final(tweets)@ == old(tweets)@,
        session.identity() is None ==> r == Err::<Tweet, AuthError>(AuthError::Unauthorized),
        (session.identity() matches Some(id) && !user::id_taken(users@, id)) ==> r == Err::<
            Tweet,
            AuthError,
        >(AuthError::Unauthorized),
        (session.identity() matches Some(id) && user::id_taken(users@, id)) ==> (r is Ok || r
            == Err::<Tweet, AuthError>(AuthError::Conflict)),
        r matches Err(e) ==> e == AuthError::Unauthorized || e == AuthError::Conflict,
        r matches Ok(t) ==> (session.identity() matches Some(id) && user::id_taken(users@, id)
            && t.handle@ == user_with_id(users@, id).handle@ && t.content@ == content@
            && t.updated_at is None && !tweet::id_taken(old(tweets)@, t.id)
            && final(tweets)@ == old(tweets)@.push(t)),
{
    let id = match session.get_account_id() {
        Some(id) => id,
        None => {
            return Err(AuthError::Unauthorized);
        },
    };
    let user = match User::find(users, id) {
        Ok(u) => u,
        Err(_) => {
            return Err(AuthError::Unauthorized);
        },
    };
    proof {
        lemma_user_with_id_unique(users@, user, id);
    }
    let msg = TweetMessage { content, handle: user.handle };
    Tweet::create(tweets, msg)
}

/// Replaces the text of the post with this id on behalf of the session's
/// account. The ownership guard is evaluated first and any failure aborts
/// the operation before the store is touched: `Unauthorized` without an
/// identity (or with a vanished account), `NotFound` when no post has the
/// id, `Forbidden` for an authenticated non-owner. Only the owner's call
/// mutates the store, replacing exactly the target post's text and update
/// time.
pub fn update_post(
    users: &UserStore,
    tweets: &mut TweetStore,
    session: &Session,
    id: u128,
    msg: TweetMessage,
) -> (r: Result<Tweet, AuthError>)
    requires
        users.wf(),
        old(tweets).wf(),
    ensures
        final(tweets).wf(),
        r is Err ==> final(tweets)@ == old(tweets)@,
        session.identity() is None ==> r == Err::<Tweet, AuthError>(AuthError::Unauthorized),
        (session.identity() is Some && !tweet::id_taken(old(tweets)@, id)) ==> r == Err::<
            Tweet,
            AuthError,
        >(AuthError::NotFound),
        forall |k: int| 0 <= k < old(tweets)@.len() && (#[trigger] old(tweets)@[k]).id == id
            && session.identity() is Some
            ==> (match spec_authorize(users@, *session, old(tweets)@[k].handle@) {
                Err(e) => r == Err::<Tweet, AuthError>(e),
                Ok(_) => r is Ok,
            }),
        r matches Ok(t) ==> (exists |k: int| 0 <= k < old(tweets)@.len()
            && (#[trigger] old(tweets)@[k]).id == id
            && spec_authorize(users@, *session, old(tweets)@[k].handle@) is Ok
            && t.id == id
            && t.content@ == msg.content@
            && t.handle == old(tweets)@[k].handle
            && t.created_at == old(tweets)@[k].created_at
            && t.updated_at is Some
            && final(tweets)@ == old(tweets)@.update(k, t)),
    {
    if session.get_account_id().is_none() {
        return Err(AuthError::Unauthorized);
    }
    let target = match Tweet::find(tweets, id) {
        Ok(t) => t,
        Err(e) => {
            return Err(e);
        },
    };
    proof {
        lemma_tweet_with_id_unique(tweets@, target, id);
    }
    match authorize_owner(users, session, &target) {
        Ok(_) => {},
        Err(e) => {
            return Err(e);
        },
    }
    let r = Tweet::update(tweets, id, msg);
    proof {
        if r is Ok {
            let t = r->Ok_0;
            let k = choose |k: int| 0 <= k < old(tweets)@.len()
                && (#[trigger] old(tweets)@[k]).id == id && t.id == id
                && t.content@ == msg.content@ && t.handle == old(tweets)@[k].handle
                && t.created_at == old(tweets)@[k].created_at && t.updated_at is Some
                && final(tweets)@ == old(tweets)@.update(k, t);
            assert(old(tweets)@[k] == target);
        }
    }
    r
}

/// Removes the post with this id on behalf of the session's account, under
/// the same ownership guard as `update_post`: any guard failure aborts the
/// operation before the store is touched, and only the owner's call removes
/// the post (always exactly one record, reported in the count).
pub fn delete_post(users: &UserStore, tweets: &mut TweetStore, session: &Session, id: u128) -> (r:
    Result<usize, AuthError>)
    requires
        users.wf(),
        old(tweets).wf(),
    ensures
        final(tweets).wf(),
        r is Err ==> final(tweets)@ == old(tweets)@,
        session.identity() is None ==> r == Err::<usize, AuthError>(AuthError::Unauthorized),
        (session.identity() is Some && !tweet::id_taken(old(tweets)@, id)) ==> r == Err::<
            usize,
            AuthError,
        >(AuthError::NotFound),
        forall |k: int| 0 <= k < old(tweets)@.len() && (#[trigger] old(tweets)@[k]).id == id
            && session.identity() is Some
            ==> (match spec_authorize(users@, *session, old(tweets)@[k].handle@) {
                Err(e) => r == Err::<usize, AuthError>(e),
                Ok(_) => r is Ok,
            }),
        r matches Ok(c) ==> c == 1 && !tweet::id_taken(final(tweets)@, id)
            && (exists |k: int| 0 <= k < old(tweets)@.len()
            && (#[trigger] old(tweets)@[k]).id == id
            && spec_authorize(users@, *session, old(tweets)@[k].handle@) is Ok
            && final(tweets)@ == old(tweets)@.remove(k)),
{
    if session.get_account_id().is_none() {
        return Err(AuthError::Unauthorized);
    }
    let target = match Tweet::find(tweets, id) {
        Ok(t) => t,
        Err(e) => {
            return Err(e);
        },
    };
    proof {
        lemma_tweet_with_id_unique(tweets@, target, id);
    }
    match authorize_owner(users, session, &target) {
        Ok(_) => {},
        Err(e) => {
            return Err(e);
        },
    }
    let r = Tweet::delete(tweets, id);
    proof {
        if r is Ok {
            let k = choose |k: int| 0 <= k < old(tweets)@.len()
                && (#[trigger] old(tweets)@[k]).id == id
                && final(tweets)@ == old(tweets)@.remove(k);
            assert(old(tweets)@[k] == target);
        }
    }
    r
}

} // verus!
