//! The handlers of the routes under `/auth`. Registration and login are
//! public; logout and the current user are behind the authentication gate.

use crate::models::users::{LoginRequest, RegistrationRequest};
use crate::services::users::{
    current_user_begun, logged_out, login_begun, registration_begun, UserService, UserStep,
};
use crate::session::SessionData;
use vstd::prelude::*;

verus! {

/// `POST /auth/login`.
pub fn login(service: &UserService, payload: LoginRequest) -> (r: UserStep)
    ensures
        r@ == login_begun(payload@),
{
    service.login_user(payload)
}

/// `POST /auth/logout`.
pub fn logout(service: &UserService) -> (r: UserStep)
    ensures
        r@ == logged_out(),
{
    service.logout_user()
}

/// `POST /auth/register`.
pub fn register(service: &UserService, payload: RegistrationRequest) -> (r: UserStep)
    ensures
        r@ == registration_begun(payload@),
{
    service.register_user(payload)
}

/// `GET /auth/me`.
pub fn me(session: &SessionData, service: &UserService) -> (r: UserStep)
    ensures
        r@ == current_user_begun(*session),
{
    service.get_current_user(session)
}

} // verus!
