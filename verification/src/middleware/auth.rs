//! The authentication gate.
//!
//! Every protected route is reached through [`auth_middleware`]. It resolves
//! the caller from the session and either lets the request pass, with the
//! caller's identity attached, or answers it at once.

use crate::models::responses::{Outcome, OutcomeView, Status};
use crate::models::users::{AuthenticatedUser, UserId};
use crate::session::{resolve_session, SessionData};
use vstd::prelude::*;

verus! {

/// What is decided of a request to a protected route.
#[derive(Debug, PartialEq, Eq)]
pub enum Gate {
    /// Call the route's handler, with this identity attached to the request.
    Forward(UserId),
    /// Do not call the handler; send this answer.
    Reject(Outcome),
}

/// The contents of [`Gate`], as mathematical values.
pub enum GateView {
    Forward(UserId),
    Reject(OutcomeView),
}

impl View for Gate {
    type V = GateView;

    open spec fn view(&self) -> GateView {
        match self {
            Gate::Forward(id) => GateView::Forward(*id),
            Gate::Reject(outcome) => GateView::Reject(outcome@),
        }
    }
}

/// The answer to a request without a valid session.
pub open spec fn not_authenticated() -> OutcomeView {
    OutcomeView::message(Status::Unauthorized, "Not Authenticated"@)
}

/// The decision for a caller with `session`.
pub open spec fn gate(session: SessionData) -> GateView {
    match session.identity() {
        Some(id) => GateView::Forward(UserId(Some(id))),
        None => GateView::Reject(not_authenticated()),
    }
}

/// Decides whether a request with `session` may reach a protected route.
pub fn auth_middleware(session: &SessionData) -> (r: Gate)
    ensures
        r@ == gate(*session),
{
    match resolve_session(session) {
        Some(caller) => Gate::Forward(UserId(Some(caller.0))),
        None => Gate::Reject(Outcome::message(Status::Unauthorized, "Not Authenticated")),
    }
}

impl UserId {
    /// The identity that was attached to the request, given what the
    /// request carries. A request that was not forwarded carries none.
    pub fn from_request(attached: Option<UserId>) -> (r: Result<UserId, Outcome>)
        ensures
            attached matches Some(id) ==> r == Ok::<UserId, Outcome>(id),
            attached is None ==> r is Err && r->Err_0@ == OutcomeView::message(
                Status::Unauthorized,
                "Missing user ID"@,
            ),
    {
        match attached {
            Some(id) => Ok(id),
            None => Err(Outcome::message(Status::Unauthorized, "Missing user ID")),
        }
    }
}

impl AuthenticatedUser {
    /// The caller of a protected route, given what the request carries.
    pub fn from_request(attached: Option<UserId>) -> (r: Result<AuthenticatedUser, Outcome>)
        ensures
            attached matches Some(UserId(Some(id))) ==> r == Ok::<AuthenticatedUser, Outcome>(
                AuthenticatedUser(id),
            ),
            !(attached matches Some(UserId(Some(_)))) ==> r is Err && r->Err_0@
                == OutcomeView::message(Status::Unauthorized, "Authentication required"@),
    {
        match attached {
            Some(UserId(Some(id))) => Ok(AuthenticatedUser(id)),
            _ => Err(Outcome::message(Status::Unauthorized, "Authentication required")),
        }
    }
}

/// A request that was forwarded yields its caller: the handler of a
/// protected route is called with the user that the session names.
pub proof fn forwarded_caller_is_session_user(session: SessionData)
    requires
        session.identity() is Some,
    ensures
        gate(session) == GateView::Forward(UserId(session.identity())),
{
}

} // verus!
