use vstd::prelude::*;
use crate::ambient;
use crate::error::AuthError;

verus! {

/// Creation payload for a post: its text and the owning handle.
pub struct TweetMessage {
    pub content: String,
    pub handle: String,
}

/// A short text post owned, via `handle`, by exactly one account. The
/// owning handle never changes after creation.
#[derive(Debug)]
pub struct Tweet {
    pub id: u128,
    pub content: String,
    pub handle: String,
    pub created_at: i64,
    pub updated_at: Option<i64>,
}

impl Tweet {
    /// An exact copy of the post record.
    pub fn duplicate(&self) -> (r: Tweet)
        ensures
            r == *self,
    {
        Tweet {
            id: self.id,
            content: self.content.clone(),
            handle: self.handle.clone(),
            created_at: self.created_at,
            updated_at: self.updated_at,
        }
    }
}

/// Some stored post has this id.
pub open spec fn id_taken(tweets: Seq<Tweet>, id: u128) -> bool {
    exists |i: int| 0 <= i < tweets.len() && (#[trigger] tweets[i]).id == id
}

/// The store's invariant: post ids are unique.
pub open spec fn tweets_wf(tweets: Seq<Tweet>) -> bool {
    forall |i: int, j: int| #![trigger tweets[i], tweets[j]]
        0 <= i < j < tweets.len() ==> tweets[i].id != tweets[j].id
}

/// In-memory post store: the record storage the mutating endpoints drive.
pub struct TweetStore {
    pub tweets: Vec<Tweet>,
}

impl View for TweetStore {
    type V = Seq<Tweet>;

    open spec fn view(&self) -> Seq<Tweet> {
        self.tweets@
    }
}

impl TweetStore {
    pub open spec fn wf(&self) -> bool {
        tweets_wf(self@)
    }

    /// An empty store.
    pub fn new() -> (s: TweetStore)
        ensures
            s@ == Seq::<Tweet>::empty(),
            s.wf(),
    {
        TweetStore { tweets: Vec::new() }
    }

    /// Whether some post has this id.
    #[verifier::loop_isolation(false)]
    pub fn id_exists(&self, id: u128) -> (r: bool)
        ensures
            r == id_taken(self@, id),
    {
        let n = self.tweets.len();
        let mut i: usize = 0;
        while i < n
            invariant
                i <= n,
                forall |j: int| 0 <= j < i ==> (#[trigger] self.tweets@[j]).id != id,
            decreases n - i,
        {
            if self.tweets[i].id == id {
                return true;
            }
            i += 1;
        }
        false
    }
}

/// Appending a post with a fresh id preserves the store invariant.
proof fn lemma_push_preserves_wf(tweets: Seq<Tweet>, t: Tweet)
    requires
        tweets_wf(tweets),
        !id_taken(tweets, t.id),
    ensures
        tweets_wf(tweets.push(t)),
{
    let s = tweets.push(t);
    assert forall |i: int, j: int| #![trigger s[i], s[j]]
        0 <= i < j < s.len() implies s[i].id != s[j].id
    by {
        if j < tweets.len() {
            assert(s[i] == tweets[i] && s[j] == tweets[j]);
        } else {
            assert(s[i] == tweets[i] && s[j] == t);
        }
    }
}

/// Removing a post preserves the store invariant, and no post with the
/// removed post's id remains.
proof fn lemma_remove_preserves_wf(tweets: Seq<Tweet>, k: int)
    requires
        tweets_wf(tweets),
        0 <= k < tweets.len(),
    ensures
        tweets_wf(tweets.remove(k)),
        !id_taken(tweets.remove(k), tweets[k].id),
{
    let s = tweets.remove(k);
    assert forall |i: int, j: int| #![trigger s[i], s[j]]
        0 <= i < j < s.len() implies s[i].id != s[j].id
    by {
        let i0 = if i < k { i } else { i + 1 };
        let j0 = if j < k { j } else { j + 1 };
        assert(s[i] == tweets[i0] && s[j] == tweets[j0]);
    }
    assert forall |i: int| 0 <= i < s.len() implies (#[trigger] s[i]).id != tweets[k].id by {
        let i0 = if i < k { i } else { i + 1 };
        assert(s[i] == tweets[i0]);
    }
}

/// Replacing the post at `k` by one with the same id preserves the store
/// invariant.
proof fn lemma_update_preserves_wf(tweets: Seq<Tweet>, k: int, t: Tweet)
    requires
        tweets_wf(tweets),
        0 <= k < tweets.len(),
        t.id == tweets[k].id,
    ensures
        tweets_wf(tweets.update(k, t)),
{
    let s = tweets.update(k, t);
    assert forall |i: int, j: int| #![trigger s[i], s[j]]
        0 <= i < j < s.len() implies s[i].id != s[j].id
    by {
        if i == k {
            assert(s[j] == tweets[j] && tweets[j].id != tweets[k].id);
        } else if j == k {
            assert(s[i] == tweets[i] && tweets[i].id != tweets[k].id);
        } else {
            assert(s[i] == tweets[i] && s[j] == tweets[j]);
        }
    }
}

/// Under the store invariant an id picks out one post: any stored post
/// carrying it is that post.
pub proof fn lemma_tweet_with_id_unique(tweets: Seq<Tweet>, t: Tweet, id: u128)
    requires
        tweets_wf(tweets),
        tweets.contains(t),
        t.id == id,
    ensures
        id_taken(tweets, id),
        forall |i: int| 0 <= i < tweets.len() && (#[trigger] tweets[i]).id == id ==> tweets[i] == t,
{
    let j = choose |j: int| 0 <= j < tweets.len() && tweets[j] == t;
    assert(tweets[j].id == id);
    assert forall |i: int| 0 <= i < tweets.len() && (#[trigger] tweets[i]).id == id
        implies tweets[i] == t
    by {
        if i < j {
            assert(tweets[i].id != tweets[j].id);
        } else if j < i {
            assert(tweets[j].id != tweets[i].id);
        }
    }
}

impl Tweet {
    /// Every stored post, in store order.
    #[verifier::loop_isolation(false)]
    pub fn find_all(store: &TweetStore) -> (r: Vec<Tweet>)
        ensures
            r@ == store@,
    {
        let n = store.tweets.len();
        let mut out: Vec<Tweet> = Vec::new();
        let mut i: usize = 0;
        while i < n
            invariant
                i <= n,
                out@ == store@.subrange(0, i as int),
            decreases n - i,
        {
            out.push(store.tweets[i].duplicate());
            proof {
                assert(store@.subrange(0, i as int + 1)
                    =~= store@.subrange(0, i as int).push(store@[i as int]));
            }
            i += 1;
        }
        proof {
            assert(store@.subrange(0, n as int) =~= store@);
        }
        out
    }

    /// The post with this id, if any.
    #[verifier::loop_isolation(false)]
    pub fn find(store: &TweetStore, id: u128) -> (r: Result<Tweet, AuthError>)
        requires
            store.wf(),
        ensures
            (r is Ok) == id_taken(store@, id),
            r matches Ok(t) ==> store@.contains(t) && t.id == id,
            r matches Err(e) ==> e == AuthError::NotFound,
    {
        let n = store.tweets.len();
        let mut i: usize = 0;
        while i < n
            invariant
                i <= n,
                forall |j: int| 0 <= j < i ==> (#[trigger] store.tweets@[j]).id != id,
            decreases n - i,
        {
            if store.tweets[i].id == id {
                let t = store.tweets[i].duplicate();
                proof {
                    assert(store@[i as int] == t);
                }
                return Ok(t);
            }
            i += 1;
        }
        Err(AuthError::NotFound)
    }

    /// Every post owned by this handle, in store order.
    #[verifier::loop_isolation(false)]
    pub fn tweets_with_handle(store: &TweetStore, handle: &String) -> (r: Vec<Tweet>)
        ensures
            r@ == store@.filter(|t: Tweet| t.handle@ == handle@),
    {
        let n = store.tweets.len();
        let mut out: Vec<Tweet> = Vec::new();
        let mut i: usize = 0;
        while i < n
            invariant
                i <= n,
                out@ == store@.subrange(0, i as int).filter(|t: Tweet| t.handle@ == handle@),
            decreases n - i,
        {
            proof {
                reveal(Seq::filter);
                assert(store@.subrange(0, i as int + 1).drop_last()
                    =~= store@.subrange(0, i as int));
                assert(store@.subrange(0, i as int + 1).last() == store@[i as int]);
            }
            if store.tweets[i].handle == *handle {
                out.push(store.tweets[i].duplicate());
            }
            i += 1;
        }
        proof {
            assert(store@.subrange(0, n as int) =~= store@);
        }
        out
    }

    /// The creation decision for a given identifier and creation time: the
    /// exact outcome for every value of `id`. Rejected with `Conflict`
    /// exactly when the id is already stored; otherwise the post is
    /// appended, owned by the handle in the message.
    pub fn create_with_id(store: &mut TweetStore, msg: TweetMessage, id: u128, now: i64) -> (r:
        Result<Tweet, AuthError>)
        requires
            old(store).wf(),
        ensures
            final(store).wf(),
            (r is Err) == id_taken(old(store)@, id),
            r matches Err(e) ==> e == AuthError::Conflict && final(store)@ == old(store)@,
            r matches Ok(t) ==> ({
                &&& t.id == id
                &&& t.content@ == msg.content@
                &&& t.handle@ == msg.handle@
                &&& t.created_at == now
                &&& t.updated_at is None
                &&& final(store)@ == old(store)@.push(t)
            }),
    {
        if store.id_exists(id) {
            return Err(AuthError::Conflict);
        }
        let t = Tweet {
            id,
            content: msg.content,
            handle: msg.handle,
            created_at: now,
            updated_at: None,
        };
        let ret = t.duplicate();
        proof {
            lemma_push_preserves_wf(store@, t);
        }
        store.tweets.push(t);
        Ok(ret)
    }

    /// Stores a new post under a freshly drawn random identifier and the
    /// current time. Succeeds unless the random identifier collides with a
    /// stored one; `create_with_id` gives the exact outcome for each
    /// identifier value.
    pub fn create(store: &mut TweetStore, msg: TweetMessage) -> (r: Result<Tweet, AuthError>)
        requires
            old(store).wf(),
        ensures
            final(store).wf(),
            r matches Err(e) ==> e == AuthError::Conflict && final(store)@ == old(store)@,
            r matches Ok(t) ==> ({
                &&& !id_taken(old(store)@, t.id)
                &&& t.content@ == msg.content@
                &&& t.handle@ == msg.handle@
                &&& t.updated_at is None
                &&& final(store)@ == old(store)@.push(t)
            }),
    {
        let id = ambient::fresh_id();
        let now = ambient::now_micros();
        Tweet::create_with_id(store, msg, id, now)
    }

    /// Removes the post with this id, reporting how many records were
    /// removed: one when the id was stored, none otherwise.
    #[verifier::loop_isolation(false)]
    pub fn delete(store: &mut TweetStore, id: u128) -> (r: Result<usize, AuthError>)
        requires
            old(store).wf(),
        ensures
            final(store).wf(),
            r is Ok,
            r matches Ok(c) ==> c == (if id_taken(old(store)@, id) { 1int } else { 0int }),
            !id_taken(final(store)@, id),
            !id_taken(old(store)@, id) ==> final(store)@ == old(store)@,
            id_taken(old(store)@, id) ==> (exists |k: int| 0 <= k < old(store)@.len()
                && (#[trigger] old(store)@[k]).id == id
                && final(store)@ == old(store)@.remove(k)),
    {
        let n = store.tweets.len();
        let mut i: usize = 0;
        while i < n
            invariant
                i <= n,
                store@ == old(store)@,
                forall |j: int| 0 <= j < i ==> (#[trigger] store.tweets@[j]).id != id,
            decreases n - i,
        {
            if store.tweets[i].id == id {
                proof {
                    lemma_remove_preserves_wf(store@, i as int);
                }
                store.tweets.remove(i);
                return Ok(1);
            }
            i += 1;
        }
        Ok(0)
    }

    /// Replaces the text of the post with this id, stamping an update
    /// time; the id, the owning handle (ownership is not transferable) and
    /// the creation time are untouched. `NotFound` when no post has the
    /// id; nothing changes then.
    #[verifier::loop_isolation(false)]
    pub fn update(store: &mut TweetStore, id: u128, msg: TweetMessage) -> (r: Result<
        Tweet,
        AuthError,
    >)
        requires
            old(store).wf(),
        ensures
            final(store).wf(),
            (r is Ok) == id_taken(old(store)@, id),
            r matches Err(e) ==> e == AuthError::NotFound && final(store)@ == old(store)@,
            r matches Ok(t) ==> (exists |k: int| 0 <= k < old(store)@.len()
                && (#[trigger] old(store)@[k]).id == id
                && t.id == id
                && t.content@ == msg.content@
                && t.handle == old(store)@[k].handle
                && t.created_at == old(store)@[k].created_at
                && t.updated_at is Some
                && final(store)@ == old(store)@.update(k, t)),
    {
        let n = store.tweets.len();
        let mut i: usize = 0;
        while i < n
            invariant
                i <= n,
                store@ == old(store)@,
                forall |j: int| 0 <= j < i ==> (#[trigger] store.tweets@[j]).id != id,
            decreases n - i,
        {
            if store.tweets[i].id == id {
                let now = ambient::now_micros();
                let t = Tweet {
                    id,
                    content: msg.content,
                    handle: store.tweets[i].handle.clone(),
                    created_at: store.tweets[i].created_at,
                    updated_at: Some(now),
                };
                let ret = t.duplicate();
                proof {
                    lemma_update_preserves_wf(store@, i as int, t);
                }
                store.tweets[i] = t;
                return Ok(ret);
            }
            i += 1;
        }
        Err(AuthError::NotFound)
    }
}

} // verus!
