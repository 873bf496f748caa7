use notes_api::controllers::routes::Route;
use notes_api::controllers::users::{login, logout, me, register};
use notes_api::middleware::auth::Gate;
use notes_api::models::responses::{Body, Outcome, Status};
use notes_api::models::users::{LoginRequest, RegistrationRequest, User};
use notes_api::models::Timestamp;
use notes_api::repositories::users::{UserAnswer, UserQuery};
use notes_api::services::users::{UserService, UserStep};
use notes_api::session::SessionData;
use uuid::Uuid;

/// A table of users that answers queries as a repository has to.
fn answer(table: &mut Vec<User>, query: UserQuery) -> UserAnswer {
    match query {
        UserQuery::FindById(id) => UserAnswer::Found(table.iter().find(|u| u.id == id).cloned()),
        UserQuery::FindByEmail(email) => {
            UserAnswer::Found(table.iter().find(|u| u.email == email).cloned())
        }
        UserQuery::FindByUsername(name) => {
            UserAnswer::Found(table.iter().find(|u| u.username == name).cloned())
        }
        UserQuery::Create(new_user) => {
            if table.iter().any(|u| u.email == new_user.email || u.username == new_user.username)
            {
                return UserAnswer::Duplicate;
            }
            let user = User {
                id: Uuid::from_u128(1000 + table.len() as u128),
                username: new_user.username,
                email: new_user.email,
                password_hash: new_user.password_hash,
                created_at: Timestamp { seconds: 1_700_000_000, nanos: 0 },
                updated_at: Timestamp { seconds: 1_700_000_000, nanos: 0 },
            };
            table.push(user.clone());
            UserAnswer::Created(user)
        }
        UserQuery::Update(..) => UserAnswer::Failed,
        UserQuery::Delete(id) => {
            let before = table.len();
            table.retain(|u| u.id != id);
            UserAnswer::Deleted((before - table.len()) as u64)
        }
    }
}

/// Handles one request: passes the route's check, runs the steps against the
/// table, and applies the change to the session.
fn handle(
    route: Route,
    table: &mut Vec<User>,
    session: &mut SessionData,
    first: impl FnOnce(&UserService, &SessionData) -> UserStep,
) -> Outcome {
    if let Gate::Reject(outcome) = route.check(session) {
        return outcome;
    }
    let service = UserService::new();
    let mut step = first(&service, session);
    loop {
        match step {
            UserStep::Ask(query, flow) => {
                let reply = answer(table, query);
                step = service.resume(flow, reply);
            }
            UserStep::Done(outcome, change) => {
                *session = session.apply(change);
                return outcome;
            }
        }
    }
}

fn registration(username: &str, email: &str, password: &str) -> RegistrationRequest {
    RegistrationRequest {
        username: username.to_string(),
        email: email.to_string(),
        password: password.to_string(),
    }
}

fn credentials(email: &str, password: &str) -> LoginRequest {
    LoginRequest { email: email.to_string(), password: password.to_string() }
}

fn user_id_of(outcome: &Outcome) -> Uuid {
    match &outcome.body {
        Body::User(user) => user.id,
        other => panic!("unexpected body {:?}", other),
    }
}

fn text_of(outcome: &Outcome) -> &str {
    match &outcome.body {
        Body::Message(text) => text,
        other => panic!("unexpected body {:?}", other),
    }
}

#[test]
fn register_login_me_logout_me() {
    let mut table = Vec::new();
    let mut session = SessionData::empty();

    let registered = handle(Route::Register, &mut table, &mut session, |s, _| {
        register(s, registration("al", "A@B.com", "Abcdef1!"))
    });
    assert_eq!(registered.status.code(), 201);
    let id = user_id_of(&registered);
    match &registered.body {
        Body::User(user) => {
            assert_eq!(user.email, "a@b.com");
            assert_eq!(user.username, "al");
        }
        other => panic!("unexpected body {:?}", other),
    }
    assert_eq!(session, SessionData::empty());

    let logged_in = handle(Route::Login, &mut table, &mut session, |s, _| {
        login(s, credentials("a@b.com", "Abcdef1!"))
    });
    assert_eq!(logged_in.status.code(), 200);
    assert_eq!(user_id_of(&logged_in), id);
    assert_ne!(session, SessionData::empty());

    let current = handle(Route::Me, &mut table, &mut session, |s, session| me(session, s));
    assert_eq!(current.status.code(), 200);
    assert_eq!(user_id_of(&current), id);

    let logged_out = handle(Route::Logout, &mut table, &mut session, |s, _| logout(s));
    assert_eq!(logged_out.status.code(), 200);
    assert_eq!(text_of(&logged_out), "Successfully logged out");
    assert_eq!(session, SessionData::empty());

    let after = handle(Route::Me, &mut table, &mut session, |s, session| me(session, s));
    assert_eq!(after.status.code(), 401);
    assert_eq!(text_of(&after), "Not Authenticated");
}

#[test]
fn registering_the_same_email_twice_conflicts() {
    let mut table = Vec::new();
    let mut session = SessionData::empty();
    let first = handle(Route::Register, &mut table, &mut session, |s, _| {
        register(s, registration("al", "a@b.com", "Abcdef1!"))
    });
    assert_eq!(first.status, Status::Created);
    for email in ["a@b.com", "A@B.COM", "a@B.com"] {
        let second = handle(Route::Register, &mut table, &mut session, |s, _| {
            register(s, registration("bob", email, "Xyz12345!"))
        });
        assert_eq!(second.status, Status::Conflict);
        assert_eq!(second.status.code(), 409);
        assert_eq!(text_of(&second), "User already exists");
    }
    assert_eq!(table.len(), 1);
}

#[test]
fn registration_that_loses_the_race_conflicts() {
    // Two registrations of one address pass the lookup before either
    // inserts: the table refuses the second insert.
    let mut table = Vec::new();
    let service = UserService::new();
    let (query_a, flow_a) = match register(&service, registration("al", "a@b.com", "Abcdef1!")) {
        UserStep::Ask(query, flow) => (query, flow),
        other => panic!("unexpected step {:?}", other),
    };
    let (query_b, flow_b) = match register(&service, registration("al2", "A@b.com", "Abcdef1!")) {
        UserStep::Ask(query, flow) => (query, flow),
        other => panic!("unexpected step {:?}", other),
    };
    let found_a = answer(&mut table, query_a);
    let found_b = answer(&mut table, query_b);
    let mut finish = |step: UserStep| -> Outcome {
        let mut step = step;
        loop {
            match step {
                UserStep::Ask(query, flow) => {
                    let reply = answer(&mut table, query);
                    step = service.resume(flow, reply);
                }
                UserStep::Done(outcome, _) => return outcome,
            }
        }
    };
    let a = finish(service.resume(flow_a, found_a));
    let b = finish(service.resume(flow_b, found_b));
    assert_eq!(a.status, Status::Created);
    assert_eq!(b.status, Status::Conflict);
}

#[test]
fn failed_logins_are_indistinguishable() {
    let mut table = Vec::new();
    let mut session = SessionData::empty();
    handle(Route::Register, &mut table, &mut session, |s, _| {
        register(s, registration("al", "a@b.com", "Abcdef1!"))
    });
    let wrong_password = handle(Route::Login, &mut table, &mut session, |s, _| {
        login(s, credentials("a@b.com", "Abcdef1?"))
    });
    let unknown = handle(Route::Login, &mut table, &mut session, |s, _| {
        login(s, credentials("nobody@b.com", "Abcdef1!"))
    });
    assert_eq!(wrong_password, unknown);
    assert_eq!(wrong_password.status.code(), 401);
    assert_eq!(text_of(&wrong_password), "Invalid credentials");
    assert_eq!(session, SessionData::empty());
}

#[test]
fn weak_password_is_rejected_and_nothing_is_stored() {
    let mut table = Vec::new();
    let mut session = SessionData::empty();
    let outcome = handle(Route::Register, &mut table, &mut session, |s, _| {
        register(s, registration("al", "a@b.com", "short1!"))
    });
    assert_eq!(outcome.status.code(), 400);
    assert_eq!(text_of(&outcome), "Invalid password");
    assert!(table.is_empty());
}

#[test]
fn session_of_a_deleted_user_is_destroyed() {
    let mut table = Vec::new();
    let mut session = SessionData::empty();
    let registered = handle(Route::Register, &mut table, &mut session, |s, _| {
        register(s, registration("al", "a@b.com", "Abcdef1!"))
    });
    handle(Route::Login, &mut table, &mut session, |s, _| {
        login(s, credentials("a@b.com", "Abcdef1!"))
    });
    assert_eq!(answer(&mut table, UserQuery::Delete(user_id_of(&registered))), UserAnswer::Deleted(1));
    let stale = handle(Route::Me, &mut table, &mut session, |s, session| me(session, s));
    assert_eq!(stale.status.code(), 401);
    assert_eq!(text_of(&stale), "Session invalid");
    assert_eq!(session, SessionData::empty());
    let next = handle(Route::Me, &mut table, &mut session, |s, session| me(session, s));
    assert_eq!(text_of(&next), "Not Authenticated");
}

#[test]
fn two_logins_are_two_sessions() {
    let mut table = Vec::new();
    let mut phone = SessionData::empty();
    let mut laptop = SessionData::empty();
    handle(Route::Register, &mut table, &mut phone, |s, _| {
        register(s, registration("al", "a@b.com", "Abcdef1!"))
    });
    handle(Route::Login, &mut table, &mut phone, |s, _| {
        login(s, credentials("a@b.com", "Abcdef1!"))
    });
    handle(Route::Login, &mut table, &mut laptop, |s, _| {
        login(s, credentials("a@b.com", "Abcdef1!"))
    });
    handle(Route::Logout, &mut table, &mut phone, |s, _| logout(s));
    let on_laptop = handle(Route::Me, &mut table, &mut laptop, |s, session| me(session, s));
    assert_eq!(on_laptop.status.code(), 200);
    let on_phone = handle(Route::Me, &mut table, &mut phone, |s, session| me(session, s));
    assert_eq!(on_phone.status.code(), 401);
}
