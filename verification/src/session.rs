//! The state of one visitor's session.
//!
//! A session begins anonymous. A login in flight is the one attempt that the
//! session holds: a new login takes the place of whatever waited before. A
//! finished login binds the session to a user and captures the user's
//! invalidation signal. Logout, or a signal that no longer matches, makes the
//! session anonymous again.

use vstd::prelude::*;
use crate::pending::{taken, PendingAuth, PendingModel, PendingStore};
use crate::text::text_of;
use crate::user::{User, UserModel};

verus! {

/// The user that a session is bound to, and the invalidation signal that the
/// user had at login.
pub struct Binding {
    pub user_id: int,
    pub signal: Seq<u8>,
}

/// A session as plain values.
pub struct SessionModel {
    pub pending: Map<Seq<char>, PendingModel>,
    pub binding: Option<Binding>,
}

/// Where a session stands.
pub enum Phase {
    Anonymous,
    PendingLogin,
    Authenticated { user_id: int },
}

/// The invalidation signal of a user: the bytes of the access token.
pub open spec fn signal_of(user: UserModel) -> Seq<u8> {
    vstd::utf8::encode_utf8(user.access_token)
}

impl SessionModel {
    /// A session that holds nothing.
    pub open spec fn anonymous() -> SessionModel {
        SessionModel { pending: Map::empty(), binding: None }
    }

    /// Where the session stands.
    pub open spec fn phase(self) -> Phase {
        match self.binding {
            Some(binding) => Phase::Authenticated { user_id: binding.user_id },
            None => if self.pending =~= Map::empty() {
                Phase::Anonymous
            } else {
                Phase::PendingLogin
            },
        }
    }

    /// The session after a login of `user`.
    pub open spec fn logged_in(self, user: UserModel) -> SessionModel {
        SessionModel {
            pending: self.pending,
            binding: Some(Binding { user_id: user.id, signal: signal_of(user) }),
        }
    }

    /// The session after a logout.
    pub open spec fn logged_out(self) -> SessionModel {
        SessionModel::anonymous()
    }

    /// Whether `found`, the user that the storage holds under the bound
    /// identifier, is still the principal of the session.
    pub open spec fn admits(self, found: Option<UserModel>) -> bool {
        match (self.binding, found) {
            (Some(binding), Some(user)) => user.id == binding.user_id && signal_of(user)
                == binding.signal,
            _ => false,
        }
    }

    /// The session after a protected-route check. A bound session that is
    /// shown a user it does not admit becomes anonymous. Every other session
    /// stays as it is.
    pub open spec fn checked(self, found: Option<UserModel>) -> SessionModel {
        if self.binding is Some && found is Some && !self.admits(found) {
            SessionModel::anonymous()
        } else {
            self
        }
    }
}

/// The characters of an optional user.
pub open spec fn user_view(user: Option<User>) -> Option<UserModel> {
    match user {
        Some(u) => Some(u@),
        None => None,
    }
}

struct Bound {
    user_id: i32,
    signal: Vec<u8>,
}

/// One visitor's session: the login attempt in flight, and the user that the
/// session is bound to.
pub struct Session {
    pending: PendingStore,
    bound: Option<Bound>,
}

impl View for Session {
    type V = SessionModel;

    closed spec fn view(&self) -> SessionModel {
        SessionModel {
            pending: self.pending@,
            binding: match self.bound {
                Some(bound) => Some(Binding { user_id: bound.user_id as int, signal: bound.signal@ }),
                None => None,
            },
        }
    }
}

fn same_bytes(left: &[u8], right: &[u8]) -> (same: bool)
    ensures
        same == (left@ == right@),
{
    if left.len() != right.len() {
        return false;
    }
    let mut i: usize = 0;
    while i < left.len()
        invariant
            i <= left.len(),
            left.len() == right.len(),
            forall|j: int| 0 <= j < i ==> left[j] == right[j],
        decreases left.len() - i,
    {
        if left[i] != right[i] {
            return false;
        }
        i += 1;
    }
    assert(left@ =~= right@);
    true
}

fn copy_bytes(bytes: &[u8]) -> (copy: Vec<u8>)
    ensures
        copy@ == bytes@,
{
    let mut copy: Vec<u8> = Vec::new();
    let mut i: usize = 0;
    while i < bytes.len()
        invariant
            i <= bytes.len(),
            copy@ == bytes@.take(i as int),
        decreases bytes.len() - i,
    {
        copy.push(bytes[i]);
        assert(bytes@.take(i + 1) =~= bytes@.take(i as int).push(bytes[i as int]));
        i += 1;
    }
    assert(bytes@.take(bytes.len() as int) =~= bytes@);
    copy
}

impl Session {
    /// A session that holds nothing.
    pub fn new() -> (session: Self)
        ensures
            session@ == SessionModel::anonymous(),
    {
        Session { pending: PendingStore::new(), bound: None }
    }

    /// Restores a session from what the session storage held: the pending
    /// logins, and the binding if there was one.
    pub fn restore(pending: PendingStore, bound: Option<(i32, Vec<u8>)>) -> (session: Self)
        ensures
            session@.pending == pending@,
            session@.binding == match bound {
                Some(pair) => Some(Binding { user_id: pair.0 as int, signal: pair.1@ }),
                None => None,
            },
    {
        let bound = match bound {
            Some((user_id, signal)) => Some(Bound { user_id, signal }),
            None => None,
        };
        Session { pending, bound }
    }

    /// What waits in the session: the login attempt in flight, or whatever the
    /// session storage handed back in its place.
    pub fn pending(&self) -> (store: &PendingStore)
        ensures
            store@ == self@.pending,
    {
        &self.pending
    }

    /// The binding of the session: the user's identifier and the invalidation
    /// signal captured at login.
    pub fn binding(&self) -> (bound: Option<(i32, &[u8])>)
        ensures
            match bound {
                Some(pair) => self@.binding == Some(
                    Binding { user_id: pair.0 as int, signal: pair.1@ },
                ),
                None => self@.binding is None,
            },
    {
        match &self.bound {
            Some(bound) => Some((bound.user_id, bound.signal.as_slice())),
            None => None,
        }
    }

    /// Whether any login attempt waits in the session.
    pub fn has_pending(&self) -> (waiting: bool)
        ensures
            waiting == !(self@.pending =~= Map::empty()),
    {
        let count = self.pending.len();
        proof {
            if count == 0 {
                assert(self@.pending.dom() =~= Set::empty());
                assert(self@.pending =~= Map::empty());
            } else {
                assert(self@.pending.dom().len() != 0);
            }
        }
        count != 0
    }

    /// Begins a login attempt. It is the only one that the session holds
    /// from now on: whatever waited before is gone, with its return path.
    pub fn begin(&mut self, csrf_state: String, nonce: String, return_path: Option<String>)
        ensures
            final(self)@.binding == old(self)@.binding,
            final(self)@.pending == Map::<Seq<char>, PendingModel>::empty().insert(
                csrf_state@,
                PendingModel { nonce: Some(nonce@), return_path: text_of(return_path) },
            ),
    {
        self.pending = PendingStore::new();
        self.pending.put(csrf_state, nonce, return_path);
    }

    /// Consumes the login attempt that waits under the state token.
    pub fn take(&mut self, csrf_state: &str) -> (entry: Option<PendingAuth>)
        ensures
            final(self)@.binding == old(self)@.binding,
            final(self)@.pending == taken(old(self)@.pending, csrf_state@).0,
            match entry {
                Some(pending) => {
                    &&& pending.csrf_state@ == csrf_state@
                    &&& taken(old(self)@.pending, csrf_state@).1 == Some(pending.model())
                },
                None => taken(old(self)@.pending, csrf_state@).1 is None,
            },
    {
        self.pending.take(csrf_state)
    }

    /// Binds the session to the user and captures the user's invalidation
    /// signal.
    pub fn login(&mut self, user: &User)
        ensures
            final(self)@ == old(self)@.logged_in(user@),
    {
        self.bound = Some(Bound { user_id: user.id, signal: copy_bytes(user.session_auth_hash()) });
    }

    /// Clears the binding and everything else that the session held.
    pub fn logout(&mut self)
        ensures
            final(self)@ == old(self)@.logged_out(),
    {
        self.pending = PendingStore::new();
        self.bound = None;
    }

    /// The identifier of the user that the session is bound to.
    pub fn user_id(&self) -> (id: Option<i32>)
        ensures
            match id {
                Some(id) => self@.binding matches Some(binding) && binding.user_id == id,
                None => self@.binding is None,
            },
    {
        match &self.bound {
            Some(bound) => Some(bound.user_id),
            None => None,
        }
    }

    /// The check before a protected route. `found` is the user that the
    /// storage holds under the identifier the session is bound to. The check
    /// admits the user if the session is bound to it and its invalidation
    /// signal is still the one captured at login. A bound session that is shown
    /// a user it does not admit becomes anonymous.
    pub fn authorize(&mut self, found: Option<User>) -> (principal: Option<User>)
        ensures
            final(self)@ == old(self)@.checked(user_view(found)),
            principal == if old(self)@.admits(user_view(found)) {
                found
            } else {
                None
            },
    {
        let admitted = match (&self.bound, &found) {
            (Some(bound), Some(user)) => user.id == bound.user_id && same_bytes(
                user.session_auth_hash(),
                bound.signal.as_slice(),
            ),
            _ => false,
        };
        if admitted {
            found
        } else {
            if self.bound.is_some() && found.is_some() {
                self.logout();
            }
            None
        }
    }
}

/// After a logout the check before a protected route admits nobody.
pub proof fn law_logout_then_check(session: SessionModel, found: Option<UserModel>)
    ensures
        !session.logged_out().admits(found),
        session.logged_out().checked(found).phase() == Phase::Anonymous,
{
}

/// A session admits the user it was just bound to, and stops admitting the
/// user once the access token has changed.
pub proof fn law_login_then_check(session: SessionModel, user: UserModel, later: UserModel)
    requires
        later.id == user.id,
    ensures
        session.logged_in(user).admits(Some(user)),
        session.logged_in(user).phase() == (Phase::Authenticated { user_id: user.id }),
        signal_of(later) != signal_of(user) ==> {
            &&& !session.logged_in(user).admits(Some(later))
            &&& session.logged_in(user).checked(Some(later)).phase() == Phase::Anonymous
        },
{
}

} // verus!
