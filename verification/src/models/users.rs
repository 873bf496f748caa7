//! Users, the requests that create and authenticate them, and what is shown
//! of them.

use crate::models::Timestamp;
use crate::utils::text::optional_text;
use uuid::Uuid;
use vstd::prelude::*;

verus! {

/// A stored user, password hash included.
#[derive(Debug, PartialEq, Eq)]
pub struct User {
    pub id: Uuid,
    pub username: String,
    pub email: String,
    pub password_hash: String,
    pub created_at: Timestamp,
    pub updated_at: Timestamp,
}

/// The contents of [`User`], as mathematical values.
pub struct UserView {
    pub id: Uuid,
    pub username: Seq<char>,
    pub email: Seq<char>,
    pub password_hash: Seq<char>,
    pub created_at: Timestamp,
    pub updated_at: Timestamp,
}

impl View for User {
    type V = UserView;

    open spec fn view(&self) -> UserView {
        UserView {
            id: self.id,
            username: self.username@,
            email: self.email@,
            password_hash: self.password_hash@,
            created_at: self.created_at,
            updated_at: self.updated_at,
        }
    }
}

/// The view of a user that may be missing.
pub open spec fn view_of(found: Option<User>) -> Option<UserView> {
    match found {
        Some(user) => Some(user@),
        None => None,
    }
}

impl Clone for User {
    fn clone(&self) -> (r: Self)
        ensures
            r@ == self@,
    {
        User {
            id: self.id,
            username: self.username.clone(),
            email: self.email.clone(),
            password_hash: self.password_hash.clone(),
            created_at: self.created_at,
            updated_at: self.updated_at,
        }
    }
}

/// The row to insert for a new user.
#[derive(Debug, PartialEq, Eq)]
pub struct NewUser {
    pub username: String,
    pub email: String,
    pub password_hash: String,
}

/// The contents of [`NewUser`], as mathematical values.
pub struct NewUserView {
    pub username: Seq<char>,
    pub email: Seq<char>,
    pub password_hash: Seq<char>,
}

impl View for NewUser {
    type V = NewUserView;

    open spec fn view(&self) -> NewUserView {
        NewUserView {
            username: self.username@,
            email: self.email@,
            password_hash: self.password_hash@,
        }
    }
}

impl NewUser {
    pub fn new(username: String, email: String, password_hash: String) -> (r: Self)
        ensures
            r == (NewUser { username, email, password_hash }),
    {
        Self { username, email, password_hash }
    }
}

/// A partial update of a user: a field that is `None` is left as it is.
#[derive(Debug, PartialEq, Eq)]
pub struct UpdateUser {
    pub username: Option<String>,
    pub email: Option<String>,
    pub password_hash: Option<String>,
}

/// The contents of [`UpdateUser`], as mathematical values.
pub struct UpdateUserView {
    pub username: Option<Seq<char>>,
    pub email: Option<Seq<char>>,
    pub password_hash: Option<Seq<char>>,
}

impl View for UpdateUser {
    type V = UpdateUserView;

    open spec fn view(&self) -> UpdateUserView {
        UpdateUserView {
            username: optional_text(self.username),
            email: optional_text(self.email),
            password_hash: optional_text(self.password_hash),
        }
    }
}

impl UpdateUser {
    /// The update that changes nothing.
    pub fn new() -> (r: Self)
        ensures
            r.username is None,
            r.email is None,
            r.password_hash is None,
    {
        Self { username: None, email: None, password_hash: None }
    }

    pub fn with_username(self, username: String) -> (r: Self)
        ensures
            r == (UpdateUser { username: Some(username), ..self }),
    {
        let mut this = self;
        this.username = Some(username);
        this
    }

    pub fn with_email(self, email: String) -> (r: Self)
        ensures
            r == (UpdateUser { email: Some(email), ..self }),
    {
        let mut this = self;
        this.email = Some(email);
        this
    }

    pub fn with_password_hash(self, password_hash: String) -> (r: Self)
        ensures
            r == (UpdateUser { password_hash: Some(password_hash), ..self }),
    {
        let mut this = self;
        this.password_hash = Some(password_hash);
        this
    }
}

/// The body of a registration request.
#[derive(Debug, PartialEq, Eq)]
pub struct RegistrationRequest {
    pub username: String,
    pub email: String,
    pub password: String,
}

/// The contents of [`RegistrationRequest`], as mathematical values.
pub struct RegistrationRequestView {
    pub username: Seq<char>,
    pub email: Seq<char>,
    pub password: Seq<char>,
}

impl View for RegistrationRequest {
    type V = RegistrationRequestView;

    open spec fn view(&self) -> RegistrationRequestView {
        RegistrationRequestView {
            username: self.username@,
            email: self.email@,
            password: self.password@,
        }
    }
}

/// The body of a login request.
#[derive(Debug, PartialEq, Eq)]
pub struct LoginRequest {
    pub email: String,
    pub password: String,
}

/// The contents of [`LoginRequest`], as mathematical values.
pub struct LoginRequestView {
    pub email: Seq<char>,
    pub password: Seq<char>,
}

impl View for LoginRequest {
    type V = LoginRequestView;

    open spec fn view(&self) -> LoginRequestView {
        LoginRequestView { email: self.email@, password: self.password@ }
    }
}

impl Clone for LoginRequest {
    fn clone(&self) -> (r: Self)
        ensures
            r@ == self@,
    {
        LoginRequest { email: self.email.clone(), password: self.password.clone() }
    }
}

/// What the session store keeps for a logged-in user.
#[derive(Clone, Copy, Debug, PartialEq, Eq)]
pub struct UserSession {
    pub user_id: Uuid,
    pub is_active: bool,
}

/// What is shown of a user: everything but the password hash.
#[derive(Debug, PartialEq, Eq)]
pub struct UserResponse {
    pub id: Uuid,
    pub username: String,
    pub email: String,
    pub created_at: Timestamp,
    pub updated_at: Timestamp,
}

/// The contents of [`UserResponse`], as mathematical values.
pub struct UserResponseView {
    pub id: Uuid,
    pub username: Seq<char>,
    pub email: Seq<char>,
    pub created_at: Timestamp,
    pub updated_at: Timestamp,
}

impl View for UserResponse {
    type V = UserResponseView;

    open spec fn view(&self) -> UserResponseView {
        UserResponseView {
            id: self.id,
            username: self.username@,
            email: self.email@,
            created_at: self.created_at,
            updated_at: self.updated_at,
        }
    }
}

impl UserView {
    /// The public projection of a user.
    pub open spec fn response(self) -> UserResponseView {
        UserResponseView {
            id: self.id,
            username: self.username,
            email: self.email,
            created_at: self.created_at,
            updated_at: self.updated_at,
        }
    }
}

impl From<User> for UserResponse {
    fn from(user: User) -> (r: Self)
        ensures
            r@ == user@.response(),
    {
        Self {
            id: user.id,
            username: user.username,
            email: user.email,
            created_at: user.created_at,
            updated_at: user.updated_at,
        }
    }
}

impl vstd::std_specs::convert::FromSpecImpl<User> for UserResponse {
    open spec fn obeys_from_spec() -> bool {
        true
    }

    open spec fn from_spec(user: User) -> Self {
        UserResponse {
            id: user.id,
            username: user.username,
            email: user.email,
            created_at: user.created_at,
            updated_at: user.updated_at,
        }
    }
}

impl From<User> for UserSession {
    fn from(user: User) -> (r: Self)
        ensures
            r == (UserSession { user_id: user.id, is_active: true }),
    {
        Self { user_id: user.id, is_active: true }
    }
}

impl vstd::std_specs::convert::FromSpecImpl<User> for UserSession {
    open spec fn obeys_from_spec() -> bool {
        true
    }

    open spec fn from_spec(user: User) -> Self {
        UserSession { user_id: user.id, is_active: true }
    }
}

/// The identity that the authentication gate attaches to a request, if any.
#[derive(Clone, Copy, Debug, PartialEq, Eq)]
pub struct UserId(pub Option<Uuid>);

/// The caller of a protected route.
#[derive(Clone, Copy, Debug, PartialEq, Eq)]
pub struct AuthenticatedUser(pub Uuid);

} // verus!
