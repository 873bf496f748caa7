use notes_api::controllers::routes::Route;
use notes_api::middleware::auth::{auth_middleware, Gate};
use notes_api::models::responses::{Body, Outcome, Status};
use notes_api::models::users::{AuthenticatedUser, UserId, UserSession};
use notes_api::services::users::{UserService, UserStep};
use notes_api::session::{
    create_session, destroy_session, resolve_session, SessionChange, SessionData, Stored,
};
use std::collections::HashMap;
use uuid::Uuid;

fn active(id: u128) -> SessionData {
    SessionData {
        user_id: Stored::Present(Uuid::from_u128(id)),
        logged_in: Stored::Present(true),
    }
}

fn unauthorized(text: &str) -> Outcome {
    Outcome { status: Status::Unauthorized, body: Body::Message(text.to_string()) }
}

#[test]
fn created_session_resolves_to_its_user() {
    let id = Uuid::from_u128(42);
    let change = create_session(id);
    assert_eq!(change, SessionChange::Establish(UserSession { user_id: id, is_active: true }));
    let session = SessionData::empty().apply(change);
    assert_eq!(session, active(42));
    assert_eq!(resolve_session(&session), Some(AuthenticatedUser(id)));
    // A login replaces whatever the session held.
    assert_eq!(active(1).apply(change), active(42));
}

#[test]
fn session_without_an_active_login_resolves_to_nobody() {
    let id = Uuid::from_u128(42);
    for session in [
        SessionData::empty(),
        SessionData { user_id: Stored::Present(id), logged_in: Stored::Present(false) },
        SessionData { user_id: Stored::Present(id), logged_in: Stored::Absent },
        SessionData { user_id: Stored::Present(id), logged_in: Stored::Unreadable },
        SessionData { user_id: Stored::Absent, logged_in: Stored::Present(true) },
        SessionData { user_id: Stored::Unreadable, logged_in: Stored::Present(true) },
    ] {
        assert_eq!(resolve_session(&session), None);
    }
}

#[test]
fn inactive_record_does_not_authenticate() {
    let id = Uuid::from_u128(42);
    let session = SessionData::empty()
        .apply(SessionChange::Establish(UserSession { user_id: id, is_active: false }));
    assert_eq!(resolve_session(&session), None);
}

#[test]
fn destroying_a_session_is_idempotent() {
    assert_eq!(destroy_session(), SessionChange::Purge);
    let once = active(42).apply(destroy_session());
    assert_eq!(once, SessionData::empty());
    assert_eq!(once.apply(destroy_session()), SessionData::empty());
    assert_eq!(resolve_session(&once), None);
}

/// A session store keyed by identifier that does what a change asks of it.
/// Returns the identifier that the caller holds afterwards.
fn store_apply(
    store: &mut HashMap<String, SessionData>,
    cookie: Option<String>,
    minted: &str,
    change: SessionChange,
) -> Option<String> {
    let held = cookie.as_ref().and_then(|id| store.get(id).copied()).unwrap_or(SessionData::empty());
    if change.renews_identifier() {
        if let Some(id) = &cookie {
            store.remove(id);
        }
        store.insert(minted.to_string(), held.apply(change));
        return Some(minted.to_string());
    }
    match change {
        SessionChange::Purge => {
            if let Some(id) = &cookie {
                store.remove(id);
            }
            None
        }
        _ => cookie,
    }
}

fn resolve_in(store: &HashMap<String, SessionData>, id: &str) -> Option<AuthenticatedUser> {
    resolve_session(&store.get(id).copied().unwrap_or(SessionData::empty()))
}

#[test]
fn login_is_stored_under_a_new_identifier() {
    let alice = Uuid::from_u128(1);
    let bob = Uuid::from_u128(2);
    let mut store = HashMap::new();
    store.insert("sid0".to_string(), active(1));
    store.insert("other".to_string(), active(3));

    // Bob logs in on a request that came with Alice's identifier.
    let cookie = store_apply(&mut store, Some("sid0".to_string()), "sid1", create_session(bob));
    assert_eq!(cookie, Some("sid1".to_string()));
    assert_eq!(resolve_in(&store, "sid1"), Some(AuthenticatedUser(bob)));
    assert_eq!(resolve_in(&store, "sid0"), None);
    assert!(!store.contains_key("sid0"));
    assert_eq!(resolve_in(&store, "other"), Some(AuthenticatedUser(Uuid::from_u128(3))));

    // A login without a session gets an identifier too.
    let cookie = store_apply(&mut store, None, "sid2", create_session(alice));
    assert_eq!(cookie, Some("sid2".to_string()));
    assert_eq!(resolve_in(&store, "sid2"), Some(AuthenticatedUser(alice)));
    assert_eq!(resolve_in(&store, "sid1"), Some(AuthenticatedUser(bob)));

    // A logout gives the identifier up; a request that keeps the session
    // keeps the identifier.
    assert_eq!(
        store_apply(&mut store, Some("sid2".to_string()), "unused", SessionChange::Keep),
        Some("sid2".to_string())
    );
    assert_eq!(
        store_apply(&mut store, Some("sid2".to_string()), "unused", destroy_session()),
        None
    );
    assert_eq!(resolve_in(&store, "sid2"), None);
    assert!(!store.contains_key("unused"));
}

#[test]
fn only_a_login_asks_for_a_new_identifier() {
    assert!(create_session(Uuid::from_u128(42)).renews_identifier());
    assert!(SessionChange::Establish(UserSession {
        user_id: Uuid::from_u128(42),
        is_active: false,
    })
    .renews_identifier());
    assert!(!SessionChange::Keep.renews_identifier());
    assert!(!destroy_session().renews_identifier());
}

#[test]
fn keeping_a_session_changes_nothing() {
    assert_eq!(active(42).apply(SessionChange::Keep), active(42));
    assert_eq!(SessionData::empty().apply(SessionChange::Keep), SessionData::empty());
}

#[test]
fn auth_middleware_forwards_with_the_identity_attached() {
    assert_eq!(
        auth_middleware(&active(42)),
        Gate::Forward(UserId(Some(Uuid::from_u128(42))))
    );
}

#[test]
fn auth_middleware_rejects_with_a_fixed_message() {
    let id = Uuid::from_u128(42);
    for session in [
        SessionData::empty(),
        SessionData { user_id: Stored::Present(id), logged_in: Stored::Present(false) },
        SessionData { user_id: Stored::Absent, logged_in: Stored::Present(true) },
        SessionData { user_id: Stored::Unreadable, logged_in: Stored::Unreadable },
    ] {
        assert_eq!(auth_middleware(&session), Gate::Reject(unauthorized("Not Authenticated")));
    }
}

#[test]
fn after_logout_the_session_is_rejected() {
    let service = UserService::new();
    let session = active(42);
    assert_eq!(
        auth_middleware(&session),
        Gate::Forward(UserId(Some(Uuid::from_u128(42))))
    );
    let change = match service.logout_user() {
        UserStep::Done(outcome, change) => {
            assert_eq!(outcome.status, Status::Success);
            change
        }
        other => panic!("unexpected step {:?}", other),
    };
    let replayed = session.apply(change);
    assert_eq!(auth_middleware(&replayed), Gate::Reject(unauthorized("Not Authenticated")));
    for route in [
        Route::Logout,
        Route::Me,
        Route::ListNotes,
        Route::GetNote,
        Route::CreateNote,
        Route::UpdateNote,
        Route::DeleteNote,
    ] {
        assert_eq!(route.check(&replayed), Gate::Reject(unauthorized("Not Authenticated")));
    }
}

#[test]
fn public_routes_are_open_and_see_no_identity() {
    for route in [Route::Health, Route::Register, Route::Login] {
        assert!(!route.is_protected());
        assert_eq!(route.check(&SessionData::empty()), Gate::Forward(UserId(None)));
        assert_eq!(route.check(&active(42)), Gate::Forward(UserId(None)));
    }
}

#[test]
fn protected_routes_need_a_session() {
    for route in [
        Route::Logout,
        Route::Me,
        Route::ListNotes,
        Route::GetNote,
        Route::CreateNote,
        Route::UpdateNote,
        Route::DeleteNote,
    ] {
        assert!(route.is_protected());
        assert_eq!(
            route.check(&SessionData::empty()),
            Gate::Reject(unauthorized("Not Authenticated"))
        );
        assert_eq!(route.check(&active(42)), Gate::Forward(UserId(Some(Uuid::from_u128(42)))));
    }
}

#[test]
fn authenticated_user_from_request() {
    let id = Uuid::from_u128(42);
    assert_eq!(AuthenticatedUser::from_request(Some(UserId(Some(id)))), Ok(AuthenticatedUser(id)));
    assert_eq!(
        AuthenticatedUser::from_request(Some(UserId(None))),
        Err(unauthorized("Authentication required"))
    );
    assert_eq!(
        AuthenticatedUser::from_request(None),
        Err(unauthorized("Authentication required"))
    );
}

#[test]
fn user_id_from_request() {
    let id = Uuid::from_u128(42);
    assert_eq!(UserId::from_request(Some(UserId(Some(id)))), Ok(UserId(Some(id))));
    assert_eq!(UserId::from_request(Some(UserId(None))), Ok(UserId(None)));
    assert_eq!(UserId::from_request(None), Err(unauthorized("Missing user ID")));
}

#[test]
fn status_codes() {
    assert_eq!(Status::Success.code(), 200);
    assert_eq!(Status::Created.code(), 201);
    assert_eq!(Status::NoContent.code(), 204);
    assert_eq!(Status::BadRequest.code(), 400);
    assert_eq!(Status::Unauthorized.code(), 401);
    assert_eq!(Status::NotFound.code(), 404);
    assert_eq!(Status::Conflict.code(), 409);
    assert_eq!(Status::InternalServerError.code(), 500);
}
