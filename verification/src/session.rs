//! The session of a request, as the service reads and changes it.
//!
//! The session store keeps two entries for a caller: the user's identifier
//! and a flag that says whether the login is active. The store itself and
//! its expiry are outside this library. A request comes with what the store
//! holds for it ([`SessionData`]) and leaves with what is to be done to it
//! ([`SessionChange`]).
//!
//! The caller holds no more than an opaque session identifier, and the store
//! mints it. What the library asks of the identifiers is said over a store
//! seen as a map from identifiers to sessions: a login is written under an
//! identifier that was minted for it, and the identifier that the caller
//! came with is given up.

use crate::models::users::{AuthenticatedUser, UserSession};
use uuid::Uuid;
use vstd::prelude::*;

verus! {

/// One entry of a session as it was read from the store.
#[derive(Clone, Copy, Debug, PartialEq, Eq)]
pub enum Stored<T> {
    /// The session has no such entry.
    Absent,
    /// The entry and its value.
    Present(T),
    /// There is an entry, but it does not hold a value of the expected kind.
    Unreadable,
}

/// What the store holds for the caller. A caller without a session, or with
/// one that has expired, comes with both entries absent.
#[derive(Clone, Copy, Debug, PartialEq, Eq)]
pub struct SessionData {
    pub user_id: Stored<Uuid>,
    pub logged_in: Stored<bool>,
}

/// What is to be done to the caller's session once the request is answered.
#[derive(Clone, Copy, Debug, PartialEq, Eq)]
pub enum SessionChange {
    /// Leave it as it is.
    Keep,
    /// Give up the identifier that the caller came with, have a new one
    /// minted, and write the record of a fresh login under the new one.
    Establish(UserSession),
    /// Remove the session from the store.
    Purge,
}

impl SessionData {
    /// The session of a caller who has none.
    pub open spec fn none() -> SessionData {
        SessionData { user_id: Stored::Absent, logged_in: Stored::Absent }
    }

    /// The user that the session authenticates: the one it names, if the
    /// login flag is set.
    pub open spec fn identity(self) -> Option<Uuid> {
        match (self.logged_in, self.user_id) {
            (Stored::Present(true), Stored::Present(id)) => Some(id),
            _ => None,
        }
    }

    /// The session after `change`.
    pub open spec fn after(self, change: SessionChange) -> SessionData {
        match change {
            SessionChange::Keep => self,
            SessionChange::Establish(record) => SessionData {
                user_id: Stored::Present(record.user_id),
                logged_in: Stored::Present(record.is_active),
            },
            SessionChange::Purge => SessionData::none(),
        }
    }

    /// The session of a caller who has none.
    pub fn empty() -> (r: SessionData)
        ensures
            r == SessionData::none(),
    {
        SessionData { user_id: Stored::Absent, logged_in: Stored::Absent }
    }

    /// Applies `change`, as the store does when the request is answered.
    pub fn apply(self, change: SessionChange) -> (r: SessionData)
        ensures
            r == self.after(change),
    {
        match change {
            SessionChange::Keep => self,
            SessionChange::Establish(record) => SessionData {
                user_id: Stored::Present(record.user_id),
                logged_in: Stored::Present(record.is_active),
            },
            SessionChange::Purge => SessionData::empty(),
        }
    }
}

/// What `store` holds under `id`: that session, or the session of a caller
/// who has none where the store knows no such identifier.
pub open spec fn held(store: Map<Seq<char>, SessionData>, id: Option<Seq<char>>) -> SessionData {
    match id {
        Some(key) => if store.dom().contains(key) {
            store[key]
        } else {
            SessionData::none()
        },
        None => SessionData::none(),
    }
}

/// `store` without what it holds under `id`.
pub open spec fn forgotten(
    store: Map<Seq<char>, SessionData>,
    id: Option<Seq<char>>,
) -> Map<Seq<char>, SessionData> {
    match id {
        Some(key) => store.remove(key),
        None => store,
    }
}

impl SessionChange {
    /// Whether the change moves the caller's session to a newly minted
    /// identifier before anything is written: a login does, and nothing
    /// else.
    pub open spec fn renews(self) -> bool {
        self is Establish
    }

    /// The identifier that the caller holds after the change, `minted` being
    /// the identifier that the store mints where the change asks for one.
    pub open spec fn identifier_after(
        self,
        caller: Option<Seq<char>>,
        minted: Seq<char>,
    ) -> Option<Seq<char>> {
        match self {
            SessionChange::Keep => caller,
            SessionChange::Establish(_) => Some(minted),
            SessionChange::Purge => None,
        }
    }

    /// The store after the change was made for the caller who came with the
    /// identifier `caller`. A login removes what was held under that
    /// identifier and writes its record under `minted`; a purge removes what
    /// was held and writes nothing.
    pub open spec fn store_after(
        self,
        store: Map<Seq<char>, SessionData>,
        caller: Option<Seq<char>>,
        minted: Seq<char>,
    ) -> Map<Seq<char>, SessionData> {
        match self {
            SessionChange::Keep => store,
            SessionChange::Establish(_) => forgotten(store, caller).insert(
                minted,
                held(store, caller).after(self),
            ),
            SessionChange::Purge => forgotten(store, caller),
        }
    }

    /// Whether a new identifier is to be minted for the caller's session
    /// before the change is written.
    pub fn renews_identifier(&self) -> (r: bool)
        ensures
            r == self.renews(),
    {
        match self {
            SessionChange::Establish(_) => true,
            _ => false,
        }
    }
}

/// The change that logs `user_id` in: an active record that names the user.
pub fn create_session(user_id: Uuid) -> (r: SessionChange)
    ensures
        r == SessionChange::Establish(UserSession { user_id, is_active: true }),
{
    SessionChange::Establish(UserSession { user_id, is_active: true })
}

/// The caller that `session` authenticates, if any: none when an entry is
/// absent or unreadable, or when the login is not active.
pub fn resolve_session(session: &SessionData) -> (r: Option<AuthenticatedUser>)
    ensures
        r == match session.identity() {
            Some(id) => Some(AuthenticatedUser(id)),
            None => None,
        },
{
    match session.logged_in {
        Stored::Present(true) => match session.user_id {
            Stored::Present(id) => Some(AuthenticatedUser(id)),
            _ => None,
        },
        _ => None,
    }
}

/// The change that ends a session. It can be applied to any session, also to
/// one that is already gone.
pub fn destroy_session() -> (r: SessionChange)
    ensures
        r == SessionChange::Purge,
{
    SessionChange::Purge
}

/// A session that was created for a user resolves to that user.
pub proof fn created_session_resolves(session: SessionData, user_id: Uuid)
    ensures
        session.after(
            SessionChange::Establish(UserSession { user_id, is_active: true }),
        ).identity() == Some(user_id),
{
}

/// Whatever the change, the caller finds under the identifier held after it
/// what the change made of the session held before.
pub proof fn change_reaches_caller(
    store: Map<Seq<char>, SessionData>,
    caller: Option<Seq<char>>,
    minted: Seq<char>,
    change: SessionChange,
)
    ensures
        held(
            change.store_after(store, caller, minted),
            change.identifier_after(caller, minted),
        ) == held(store, caller).after(change),
{
}

/// A login is stored under a newly minted identifier. The identifier that
/// the caller came with resolves to nobody afterwards, the new one resolves
/// to the user of the login, and no other session of the store is touched.
pub proof fn login_moves_session(
    store: Map<Seq<char>, SessionData>,
    old: Seq<char>,
    minted: Seq<char>,
    user_id: Uuid,
)
    requires
        minted != old,
        !store.dom().contains(minted),
    ensures
        ({
            let change = SessionChange::Establish(UserSession { user_id, is_active: true });
            let after = change.store_after(store, Some(old), minted);
            &&& change.renews()
            &&& change.identifier_after(Some(old), minted) == Some(minted)
            &&& !after.dom().contains(old)
            &&& held(after, Some(old)).identity() is None
            &&& held(after, Some(minted)).identity() == Some(user_id)
            &&& forall|other: Seq<char>|
                other != old && other != minted ==> held(after, Some(other)) == held(
                    store,
                    Some(other),
                )
        }),
{
}

/// A session that was destroyed resolves to nobody, and destroying it again
/// changes nothing.
pub proof fn destroyed_session_is_gone(session: SessionData)
    ensures
        session.after(SessionChange::Purge).identity() is None,
        session.after(SessionChange::Purge).after(SessionChange::Purge) == session.after(
            SessionChange::Purge,
        ),
{
}

} // verus!
