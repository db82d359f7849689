use vstd::prelude::*;

verus! {

/// The logical state the session manager keeps for one client token: the
/// opaque token, the optionally bound account id, and whether the token is
/// still valid (`live`).
///
/// A session is created live and anonymous on first client contact; a
/// successful login binds an account id and rotates the token; logout purges
/// the session, which both clears the binding and invalidates the token.
/// The transport layer hands every request either a live session or a fresh
/// empty one, never a purged one; accordingly the operations that bind or
/// rotate require a live session, so a purged token can never be revived.
#[derive(Clone, Copy, Debug, PartialEq, Eq, Structural)]
pub struct Session {
    pub token: u128,
    pub account_id: Option<u128>,
    pub live: bool,
}

impl Session {
    /// A purged session retains no stale binding.
    pub open spec fn wf(self) -> bool {
        !self.live ==> self.account_id is None
    }

    /// The authenticated identity this session grants: the bound account id,
    /// and none at all once the token has been invalidated.
    pub open spec fn identity(self) -> Option<u128> {
        if self.live {
            self.account_id
        } else {
            None
        }
    }

    /// A fresh, live, anonymous session for a newly issued token.
    pub fn new(token: u128) -> (s: Session)
        ensures
            s.wf(),
            s.live,
            s.token == token,
            s.identity() is None,
    {
        Session { token, account_id: None, live: true }
    }

    /// Read-only lookup of the acting account id.
    pub fn get_account_id(&self) -> (r: Option<u128>)
        ensures
            r == self.identity(),
    {
        if self.live {
            self.account_id
        } else {
            None
        }
    }

    /// Binds an identity to a live session; paired with `renew` on login.
    pub fn set_account_id(&mut self, id: u128)
        requires
            old(self).live,
        ensures
            final(self).live,
            final(self).token == old(self).token,
            final(self).account_id == Some(id),
            final(self).wf(),
    {
        self.account_id = Some(id);
    }

    /// Rotates the underlying token while preserving the bound identity.
    /// The caller supplies the freshly generated token; at the transport the
    /// old token is invalidated the moment the new one is issued.
    pub fn renew(&mut self, new_token: u128)
        requires
            old(self).live,
        ensures
            final(self).live,
            final(self).token == new_token,
            final(self).account_id == old(self).account_id,
            final(self).identity() == old(self).identity(),
            final(self).wf(),
    {
        self.token = new_token;
    }

    /// Clears the bound identity and invalidates the token. Purging an
    /// already purged session changes nothing.
    pub fn purge(&mut self)
        ensures
            !final(self).live,
            final(self).account_id is None,
            final(self).token == old(self).token,
            final(self).identity() is None,
            final(self).wf(),
    {
        self.account_id = None;
        self.live = false;
    }
}

/// An invalidated token never again resolves to an account id: a session
/// that is not live grants no identity, and the operations that bind one
/// (`set_account_id`, `renew`) require a live session, so no sequence of
/// operations brings a purged token back.
pub proof fn lemma_purged_never_resolves(s: Session)
    requires
        !s.live,
    ensures
        s.identity() is None,
{
}

} // verus!
