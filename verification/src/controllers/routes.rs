//! The routes of the service, and which of them need a session.

use crate::middleware::auth::{auth_middleware, gate, Gate, GateView};
use crate::models::users::UserId;
use crate::session::SessionData;
use vstd::prelude::*;

verus! {

/// A route of the service.
#[derive(Clone, Copy, Debug, PartialEq, Eq, Structural)]
pub enum Route {
    /// `GET /health`
    Health,
    /// `POST /auth/register`
    Register,
    /// `POST /auth/login`
    Login,
    /// `POST /auth/logout`
    Logout,
    /// `GET /auth/me`
    Me,
    /// `GET /notes`
    ListNotes,
    /// `GET /notes/{note_id}`
    GetNote,
    /// `POST /notes`
    CreateNote,
    /// `PUT /notes/{note_id}`
    UpdateNote,
    /// `DELETE /notes/{note_id}`
    DeleteNote,
}

impl Route {
    /// Whether the route is open to callers without a session: the health
    /// check, registration and login are, and nothing else.
    pub open spec fn is_public(self) -> bool {
        self == Route::Health || self == Route::Register || self == Route::Login
    }

    /// Whether the route is reached only with a valid session.
    pub fn is_protected(&self) -> (r: bool)
        ensures
            r == !self.is_public(),
    {
        match self {
            Route::Health | Route::Register | Route::Login => false,
            _ => true,
        }
    }
}

impl Route {
    /// What is decided of a request to the route that comes with `session`:
    /// a public route is reached in any case and sees no identity, a
    /// protected one is reached only by the caller that the session
    /// authenticates.
    pub open spec fn decision(self, session: SessionData) -> GateView {
        if self.is_public() {
            GateView::Forward(UserId(None))
        } else {
            gate(session)
        }
    }

    /// Decides whether a request to the route reaches its handler.
    pub fn check(&self, session: &SessionData) -> (r: Gate)
        ensures
            r@ == self.decision(*session),
    {
        if self.is_protected() {
            auth_middleware(session)
        } else {
            Gate::Forward(UserId(None))
        }
    }
}

} // verus!
