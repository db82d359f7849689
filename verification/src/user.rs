use vstd::prelude::*;
use crate::ambient;
use crate::error::AuthError;
use crate::hash;
use crate::hash::{argon2_salt, argon2_verify};

verus! {

/// Registration payload: handle, email and the plaintext password. The
/// plaintext is consumed by hashing and never stored.
pub struct UserMessage {
    pub handle: String,
    pub email: String,
    pub password: String,
}

/// A registered account. `password` holds the encoded credential record,
/// never the plaintext; it is nonempty for every stored account.
#[derive(Debug)]
pub struct User {
    pub id: u128,
    pub email: String,
    pub handle: String,
    pub password: String,
    pub created_at: i64,
    pub updated_at: Option<i64>,
}

impl User {
    /// An exact copy of the account record.
    pub fn duplicate(&self) -> (r: User)
        ensures
            r == *self,
    {
        User {
            id: self.id,
            email: self.email.clone(),
            handle: self.handle.clone(),
            password: self.password.clone(),
            created_at: self.created_at,
            updated_at: self.updated_at,
        }
    }
}

/// Some stored account has this id.
pub open spec fn id_taken(users: Seq<User>, id: u128) -> bool {
    exists |i: int| 0 <= i < users.len() && (#[trigger] users[i]).id == id
}

/// Some stored account has this handle.
pub open spec fn handle_taken(users: Seq<User>, handle: Seq<char>) -> bool {
    exists |i: int| 0 <= i < users.len() && (#[trigger] users[i]).handle@ == handle
}

/// Some stored account has this email.
pub open spec fn email_taken(users: Seq<User>, email: Seq<char>) -> bool {
    exists |i: int| 0 <= i < users.len() && (#[trigger] users[i]).email@ == email
}

/// An account other than the one with id `id` has this handle.
pub open spec fn handle_taken_by_other(users: Seq<User>, handle: Seq<char>, id: u128) -> bool {
    exists |i: int| 0 <= i < users.len() && (#[trigger] users[i]).handle@ == handle
        && users[i].id != id
}

/// An account other than the one with id `id` has this email.
pub open spec fn email_taken_by_other(users: Seq<User>, email: Seq<char>, id: u128) -> bool {
    exists |i: int| 0 <= i < users.len() && (#[trigger] users[i]).email@ == email
        && users[i].id != id
}

/// The stored account with this id; meaningful under `users_wf` when
/// `id_taken` holds.
pub open spec fn user_with_id(users: Seq<User>, id: u128) -> User {
    users[choose |i: int| 0 <= i < users.len() && (#[trigger] users[i]).id == id]
}

/// The store's invariant: ids, handles and emails are each unique across
/// all accounts, and no stored credential record is empty.
pub open spec fn users_wf(users: Seq<User>) -> bool {
    &&& forall |i: int, j: int| #![trigger users[i], users[j]]
            0 <= i < j < users.len() ==> users[i].id != users[j].id
                && users[i].handle@ != users[j].handle@ && users[i].email@ != users[j].email@
    &&& forall |i: int| 0 <= i < users.len() ==> (#[trigger] users[i]).password@.len() > 0
}

/// In-memory account store: the record storage the core drives, holding
/// every registered account under the uniqueness invariant.
pub struct UserStore {
    pub users: Vec<User>,
}

impl View for UserStore {
    type V = Seq<User>;

    open spec fn view(&self) -> Seq<User> {
        self.users@
    }
}

impl UserStore {
    pub open spec fn wf(&self) -> bool {
        users_wf(self@)
    }

    /// An empty store.
    pub fn new() -> (s: UserStore)
        ensures
            s@ == Seq::<User>::empty(),
            s.wf(),
    {
        UserStore { users: Vec::new() }
    }

    /// Whether some account has this handle.
    #[verifier::loop_isolation(false)]
    pub fn handle_exists(&self, handle: &String) -> (r: bool)
        ensures
            r == handle_taken(self@, handle@),
    {
        let n = self.users.len();
        let mut i: usize = 0;
        while i < n
            invariant
                i <= n,
                forall |j: int| 0 <= j < i ==> (#[trigger] self.users@[j]).handle@ != handle@,
            decreases n - i,
        {
            if self.users[i].handle == *handle {
                return true;
            }
            i += 1;
        }
        false
    }

    /// Whether some account has this email.
    #[verifier::loop_isolation(false)]
    pub fn email_exists(&self, email: &String) -> (r: bool)
        ensures
            r == email_taken(self@, email@),
    {
        let n = self.users.len();
        let mut i: usize = 0;
        while i < n
            invariant
                i <= n,
                forall |j: int| 0 <= j < i ==> (#[trigger] self.users@[j]).email@ != email@,
            decreases n - i,
        {
            if self.users[i].email == *email {
                return true;
            }
            i += 1;
        }
        false
    }

    /// Whether some account has this id.
    #[verifier::loop_isolation(false)]
    pub fn id_exists(&self, id: u128) -> (r: bool)
        ensures
            r == id_taken(self@, id),
    {
        let n = self.users.len();
        let mut i: usize = 0;
        while i < n
            invariant
                i <= n,
                forall |j: int| 0 <= j < i ==> (#[trigger] self.users@[j]).id != id,
            decreases n - i,
        {
            if self.users[i].id == id {
                return true;
            }
            i += 1;
        }
        false
    }
}

/// Appending an account whose id, handle and email are all fresh, and whose
/// credential record is nonempty, preserves the store invariant.
proof fn lemma_push_preserves_wf(users: Seq<User>, u: User)
    requires
        users_wf(users),
        !id_taken(users, u.id),
        !handle_taken(users, u.handle@),
        !email_taken(users, u.email@),
        u.password@.len() > 0,
    ensures
        users_wf(users.push(u)),
{
    let t = users.push(u);
    assert forall |i: int, j: int| #![trigger t[i], t[j]]
        0 <= i < j < t.len() implies t[i].id != t[j].id && t[i].handle@ != t[j].handle@
            && t[i].email@ != t[j].email@
    by {
        if j < users.len() {
            assert(t[i] == users[i] && t[j] == users[j]);
        } else {
            assert(t[i] == users[i] && t[j] == u);
        }
    }
    assert forall |i: int| 0 <= i < t.len() implies (#[trigger] t[i]).password@.len() > 0 by {
        if i < users.len() {
            assert(t[i] == users[i]);
        }
    }
}

/// Removing an account preserves the store invariant, and no account with
/// the removed account's id remains.
proof fn lemma_remove_preserves_wf(users: Seq<User>, k: int)
    requires
        users_wf(users),
        0 <= k < users.len(),
    ensures
        users_wf(users.remove(k)),
        !id_taken(users.remove(k), users[k].id),
{
    let t = users.remove(k);
    assert forall |i: int, j: int| #![trigger t[i], t[j]]
        0 <= i < j < t.len() implies t[i].id != t[j].id && t[i].handle@ != t[j].handle@
            && t[i].email@ != t[j].email@
    by {
        let i0 = if i < k { i } else { i + 1 };
        let j0 = if j < k { j } else { j + 1 };
        assert(t[i] == users[i0] && t[j] == users[j0]);
    }
    assert forall |i: int| 0 <= i < t.len() implies (#[trigger] t[i]).password@.len() > 0 by {
        let i0 = if i < k { i } else { i + 1 };
        assert(t[i] == users[i0]);
    }
    assert forall |i: int| 0 <= i < t.len() implies (#[trigger] t[i]).id != users[k].id by {
        let i0 = if i < k { i } else { i + 1 };
        assert(t[i] == users[i0]);
    }
}

/// Replacing the account at `k` by one with the same id, a handle and email
/// no other account holds, and a nonempty credential record preserves the
/// store invariant.
proof fn lemma_update_preserves_wf(users: Seq<User>, k: int, u: User)
    requires
        users_wf(users),
        0 <= k < users.len(),
        u.id == users[k].id,
        !handle_taken_by_other(users, u.handle@, u.id),
        !email_taken_by_other(users, u.email@, u.id),
        u.password@.len() > 0,
    ensures
        users_wf(users.update(k, u)),
{
    let t = users.update(k, u);
    assert forall |i: int, j: int| #![trigger t[i], t[j]]
        0 <= i < j < t.len() implies t[i].id != t[j].id && t[i].handle@ != t[j].handle@
            && t[i].email@ != t[j].email@
    by {
        if i == k {
            assert(t[i] == u && t[j] == users[j]);
            assert(users[j].id != users[k].id);
        } else if j == k {
            assert(t[i] == users[i] && t[j] == u);
            assert(users[i].id != users[k].id);
        } else {
            assert(t[i] == users[i] && t[j] == users[j]);
        }
    }
    assert forall |i: int| 0 <= i < t.len() implies (#[trigger] t[i]).password@.len() > 0 by {
        if i != k {
            assert(t[i] == users[i]);
        }
    }
}

/// Under the store invariant an id picks out one account: any stored
/// account carrying it is that account.
pub proof fn lemma_user_with_id_unique(users: Seq<User>, u: User, id: u128)
    requires
        users_wf(users),
        users.contains(u),
        u.id == id,
    ensures
        id_taken(users, id),
        user_with_id(users, id) == u,
        forall |i: int| 0 <= i < users.len() && (#[trigger] users[i]).id == id ==> users[i] == u,
{
    let j = choose |j: int| 0 <= j < users.len() && users[j] == u;
    assert(users[j].id == id);
    assert forall |i: int| 0 <= i < users.len() && (#[trigger] users[i]).id == id
        implies users[i] == u
    by {
        if i < j {
            assert(users[i].id != users[j].id);
        } else if j < i {
            assert(users[j].id != users[i].id);
        }
    }
    let k = choose |i: int| 0 <= i < users.len() && (#[trigger] users[i]).id == id;
    assert(users[k] == u);
}

/// Under the store invariant a handle picks out one account: any stored
/// account carrying it is that account.
pub proof fn lemma_user_with_handle_unique(users: Seq<User>, u: User, handle: Seq<char>)
    requires
        users_wf(users),
        users.contains(u),
        u.handle@ == handle,
    ensures
        handle_taken(users, handle),
        forall |i: int| 0 <= i < users.len() && (#[trigger] users[i]).handle@ == handle
            ==> users[i] == u,
{
    let j = choose |j: int| 0 <= j < users.len() && users[j] == u;
    assert(users[j].handle@ == handle);
    assert forall |i: int| 0 <= i < users.len() && (#[trigger] users[i]).handle@ == handle
        implies users[i] == u
    by {
        if i < j {
            assert(users[i].handle@ != users[j].handle@);
        } else if j < i {
            assert(users[j].handle@ != users[i].handle@);
        }
    }
}

/// Under the store invariant an email picks out one account: any stored
/// account carrying it is that account.
pub proof fn lemma_user_with_email_unique(users: Seq<User>, u: User, email: Seq<char>)
    requires
        users_wf(users),
        users.contains(u),
        u.email@ == email,
    ensures
        email_taken(users, email),
        forall |i: int| 0 <= i < users.len() && (#[trigger] users[i]).email@ == email
            ==> users[i] == u,
{
    let j = choose |j: int| 0 <= j < users.len() && users[j] == u;
    assert(users[j].email@ == email);
    assert forall |i: int| 0 <= i < users.len() && (#[trigger] users[i]).email@ == email
        implies users[i] == u
    by {
        if i < j {
            assert(users[i].email@ != users[j].email@);
        } else if j < i {
            assert(users[j].email@ != users[i].email@);
        }
    }
}

impl User {
    /// Every stored account, in store order.
    #[verifier::loop_isolation(false)]
    pub fn find_all(store: &UserStore) -> (r: Vec<User>)
        ensures
            r@ == store@,
    {
        let n = store.users.len();
        let mut out: Vec<User> = Vec::new();
        let mut i: usize = 0;
        while i < n
            invariant
                i <= n,
                out@ == store@.subrange(0, i as int),
            decreases n - i,
        {
            out.push(store.users[i].duplicate());
            proof {
                assert(store@.subrange(0, i as int + 1)
                    =~= store@.subrange(0, i as int).push(store@[i as int]));
            }
            i += 1;
        }
        proof {
            assert(store@.subrange(0, n as int) =~= store@);
        }
        out
    }

    /// The account with this id, if any.
    #[verifier::loop_isolation(false)]
    pub fn find(store: &UserStore, id: u128) -> (r: Result<User, AuthError>)
        requires
            store.wf(),
        ensures
            (r is Ok) == id_taken(store@, id),
            r matches Ok(u) ==> store@.contains(u) && u.id == id,
            r matches Err(e) ==> e == AuthError::NotFound,
    {
        let n = store.users.len();
        let mut i: usize = 0;
        while i < n
            invariant
                i <= n,
                forall |j: int| 0 <= j < i ==> (#[trigger] store.users@[j]).id != id,
            decreases n - i,
        {
            if store.users[i].id == id {
                let u = store.users[i].duplicate();
                proof {
                    assert(store@[i as int] == u);
                }
                return Ok(u);
            }
            i += 1;
        }
        Err(AuthError::NotFound)
    }

    /// The account with this handle, if any.
    #[verifier::loop_isolation(false)]
    pub fn find_by_handle(store: &UserStore, handle: &String) -> (r: Result<User, AuthError>)
        requires
            store.wf(),
        ensures
            (r is Ok) == handle_taken(store@, handle@),
            r matches Ok(u) ==> store@.contains(u) && u.handle@ == handle@,
            r matches Err(e) ==> e == AuthError::NotFound,
    {
        let n = store.users.len();
        let mut i: usize = 0;
        while i < n
            invariant
                i <= n,
                forall |j: int| 0 <= j < i ==> (#[trigger] store.users@[j]).handle@ != handle@,
            decreases n - i,
        {
            if store.users[i].handle == *handle {
                let u = store.users[i].duplicate();
                proof {
                    assert(store@[i as int] == u);
                }
                return Ok(u);
            }
            i += 1;
        }
        Err(AuthError::NotFound)
    }

    /// The account with this email, if any.
    #[verifier::loop_isolation(false)]
    pub fn find_by_email(store: &UserStore, email: &String) -> (r: Result<User, AuthError>)
        requires
            store.wf(),
        ensures
            (r is Ok) == email_taken(store@, email@),
            r matches Ok(u) ==> store@.contains(u) && u.email@ == email@,
            r matches Err(e) ==> e == AuthError::NotFound,
    {
        let n = store.users.len();
        let mut i: usize = 0;
        while i < n
            invariant
                i <= n,
                forall |j: int| 0 <= j < i ==> (#[trigger] store.users@[j]).email@ != email@,
            decreases n - i,
        {
            if store.users[i].email == *email {
                let u = store.users[i].duplicate();
                proof {
                    assert(store@[i as int] == u);
                }
                return Ok(u);
            }
            i += 1;
        }
        Err(AuthError::NotFound)
    }

    /// The registration decision for a given identifier and creation time:
    /// the exact outcome for every value of `id`. Rejected with `Conflict`
    /// exactly when the handle, the email or the id is already stored;
    /// otherwise the password is hashed with a fresh salt and the account
    /// is appended. Nothing already stored changes either way.
    pub fn create_with_id(store: &mut UserStore, msg: UserMessage, id: u128, now: i64) -> (r:
        Result<User, AuthError>)
        requires
            old(store).wf(),
            msg.password@.len() <= 0x3FFF_FFFF,
        ensures
            final(store).wf(),
            (r is Err) == (handle_taken(old(store)@, msg.handle@)
                || email_taken(old(store)@, msg.email@) || id_taken(old(store)@, id)),
            r matches Err(e) ==> e == AuthError::Conflict && final(store)@ == old(store)@,
            r matches Ok(u) ==> ({
                &&& u.id == id
                &&& u.handle@ == msg.handle@
                &&& u.email@ == msg.email@
                &&& u.created_at == now
                &&& u.password@.len() > 0
                &&& argon2_verify(u.password@, msg.password@) == Some(true)
                &&& argon2_salt(u.password@).len() == 32
                &&& u.updated_at is None
                &&& final(store)@ == old(store)@.push(u)
            }),
    {
        if store.handle_exists(&msg.handle) {
            return Err(AuthError::Conflict);
        }
        if store.email_exists(&msg.email) {
            return Err(AuthError::Conflict);
        }
        if store.id_exists(id) {
            return Err(AuthError::Conflict);
        }
        let hashed = match hash::hash_password(msg.password.as_str()) {
            Ok(h) => h,
            Err(e) => {
                return Err(e);
            },
        };
        let u = User {
            id,
            email: msg.email,
            handle: msg.handle,
            password: hashed,
            created_at: now,
            updated_at: None,
        };
        let ret = u.duplicate();
        proof {
            lemma_push_preserves_wf(store@, u);
        }
        store.users.push(u);
        Ok(ret)
    }

    /// Registers a new account under a freshly drawn random identifier and
    /// the current time. A taken handle or email is rejected with
    /// `Conflict`; with both free the registration succeeds unless the
    /// random identifier itself collides with a stored one, and nothing
    /// already stored changes either way. `create_with_id` gives the exact
    /// outcome for each identifier value.
    pub fn create(store: &mut UserStore, msg: UserMessage) -> (r: Result<User, AuthError>)
        requires
            old(store).wf(),
            msg.password@.len() <= 0x3FFF_FFFF,
        ensures
            final(store).wf(),
            r matches Err(e) ==> e == AuthError::Conflict && final(store)@ == old(store)@,
            (handle_taken(old(store)@, msg.handle@) || email_taken(old(store)@, msg.email@))
                ==> r is Err,
            r matches Ok(u) ==> ({
                &&& !handle_taken(old(store)@, msg.handle@)
                &&& !email_taken(old(store)@, msg.email@)
                &&& !id_taken(old(store)@, u.id)
                &&& u.handle@ == msg.handle@
                &&& u.email@ == msg.email@
                &&& u.password@.len() > 0
                &&& argon2_verify(u.password@, msg.password@) == Some(true)
                &&& argon2_salt(u.password@).len() == 32
                &&& u.updated_at is None
                &&& final(store)@ == old(store)@.push(u)
            }),
    {
        let id = ambient::fresh_id();
        let now = ambient::now_micros();
        User::create_with_id(store, msg, id, now)
    }

    /// Removes the account with this id, reporting how many records were
    /// removed: one when the id was stored, none otherwise.
    #[verifier::loop_isolation(false)]
    pub fn delete(store: &mut UserStore, id: u128) -> (r: Result<usize, AuthError>)
        requires
            old(store).wf(),
        ensures
            final(store).wf(),
            r is Ok,
            r matches Ok(c) ==> c == (if id_taken(old(store)@, id) { 1int } else { 0int }),
            !id_taken(final(store)@, id),
            !id_taken(old(store)@, id) ==> final(store)@ == old(store)@,
            id_taken(old(store)@, id) ==> (exists |k: int| 0 <= k < old(store)@.len()
                && (#[trigger] old(store)@[k]).id == id
                && final(store)@ == old(store)@.remove(k)),
    {
        let n = store.users.len();
        let mut i: usize = 0;
        while i < n
            invariant
                i <= n,
                store@ == old(store)@,
                forall |j: int| 0 <= j < i ==> (#[trigger] store.users@[j]).id != id,
            decreases n - i,
        {
            if store.users[i].id == id {
                proof {
                    lemma_remove_preserves_wf(store@, i as int);
                }
                store.users.remove(i);
                return Ok(1);
            }
            i += 1;
        }
        Ok(0)
    }

    /// Replaces the handle and email of the account with this id, stamping
    /// an update time; the credential record and creation time are
    /// untouched. The new handle or email may not belong to another account
    /// (`Conflict`); `NotFound` when no account has the id. Nothing changes
    /// on failure.
    #[verifier::loop_isolation(false)]
    pub fn update(store: &mut UserStore, id: u128, msg: UserMessage) -> (r: Result<
        User,
        AuthError,
    >)
        requires
            old(store).wf(),
        ensures
            final(store).wf(),
            (r is Ok) == (id_taken(old(store)@, id)
                && !handle_taken_by_other(old(store)@, msg.handle@, id)
                && !email_taken_by_other(old(store)@, msg.email@, id)),
            r is Err ==> final(store)@ == old(store)@,
            !id_taken(old(store)@, id) ==> r == Err::<User, AuthError>(AuthError::NotFound),
            r matches Err(e) ==> e == AuthError::NotFound || e == AuthError::Conflict,
            (id_taken(old(store)@, id) && r is Err) ==> r == Err::<User, AuthError>(
                AuthError::Conflict,
            ),
            r matches Ok(u) ==> (exists |k: int| 0 <= k < old(store)@.len()
                && (#[trigger] old(store)@[k]).id == id
                && u.id == id
                && u.handle@ == msg.handle@
                && u.email@ == msg.email@
                && u.password == old(store)@[k].password
                && u.created_at == old(store)@[k].created_at
                && u.updated_at is Some
                && final(store)@ == old(store)@.update(k, u)),
    {
        let n = store.users.len();

        // Any other account holding the new handle or email is a conflict.
        let mut j: usize = 0;
        while j < n
            invariant
                j <= n,
                store@ == old(store)@,
                forall |k: int| 0 <= k < j ==> ((#[trigger] store.users@[k]).id != id
                    ==> store.users@[k].handle@ != msg.handle@
                        && store.users@[k].email@ != msg.email@),
            decreases n - j,
        {
            if store.users[j].id != id
                && (store.users[j].handle == msg.handle || store.users[j].email == msg.email) {
                if store.id_exists(id) {
                    return Err(AuthError::Conflict);
                } else {
                    return Err(AuthError::NotFound);
                }
            }
            j += 1;
        }

        let mut i: usize = 0;
        while i < n
            invariant
                i <= n,
                store@ == old(store)@,
                forall |k: int| 0 <= k < i ==> (#[trigger] store.users@[k]).id != id,
                forall |k: int| 0 <= k < n ==> ((#[trigger] store.users@[k]).id != id
                    ==> store.users@[k].handle@ != msg.handle@
                        && store.users@[k].email@ != msg.email@),
            decreases n - i,
        {
            if store.users[i].id == id {
                let now = ambient::now_micros();
                let u = User {
                    id,
                    email: msg.email,
                    handle: msg.handle,
                    password: store.users[i].password.clone(),
                    created_at: store.users[i].created_at,
                    updated_at: Some(now),
                };
                let ret = u.duplicate();
                proof {
                    lemma_update_preserves_wf(store@, i as int, u);
                }
                store.users[i] = u;
                return Ok(ret);
            }
            i += 1;
        }
        Err(AuthError::NotFound)
    }

    /// Replaces the plaintext held in `password` by its salted credential
    /// record; everything else is untouched. The record embeds a fresh
    /// 32-byte salt and always verifies against the plaintext it replaced,
    /// which is no longer stored.
    pub fn hash_password(&mut self) -> (r: Result<(), AuthError>)
        requires
            old(self).password@.len() <= 0x3FFF_FFFF,
        ensures
            r is Ok,
            final(self).password@.len() > 0,
            argon2_verify(final(self).password@, old(self).password@) == Some(true),
            argon2_salt(final(self).password@).len() == 32,
            final(self).id == old(self).id,
            final(self).email == old(self).email,
            final(self).handle == old(self).handle,
            final(self).created_at == old(self).created_at,
            final(self).updated_at == old(self).updated_at,
    {
        let hashed = match hash::hash_password(self.password.as_str()) {
            Ok(h) => h,
            Err(e) => {
                return Err(e);
            },
        };
        self.password = hashed;
        Ok(())
    }

    /// Whether the plaintext matches this account's stored credential
    /// record; a malformed record is a `Hashing` error, never a boolean.
    pub fn verify_password(&self, password: &str) -> (r: Result<bool, AuthError>)
        requires
            password@.len() <= 0x3FFF_FFFF,
        ensures
            (match argon2_verify(self.password@, password@) {
                Some(b) => r == Ok::<bool, AuthError>(b),
                None => r == Err::<bool, AuthError>(AuthError::Hashing),
            }),
    {
        hash::verify_password(self.password.as_str(), password)
    }
}

} // verus!
