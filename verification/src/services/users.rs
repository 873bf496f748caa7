//! Registration, login, logout and the current user.

use crate::middleware::auth::{gate, not_authenticated, GateView};
use crate::models::responses::{BodyView, Outcome, OutcomeView, Status};
use crate::models::users::{
    view_of, LoginRequest, LoginRequestView, NewUser, NewUserView, RegistrationRequest,
    RegistrationRequestView, User, UserResponse, UserSession, UserView,
};
use crate::repositories::users::{UserAnswer, UserAnswerView, UserQuery, UserQueryView};
use crate::session::{held, resolve_session, SessionChange, SessionData};
use crate::utils::passwords::{
    hash_password, hash_text, hashed_with_salt, phc_salt, verification, verify_password,
    HashingError,
};
use crate::utils::text::{
    char_is_lowercase, char_is_uppercase, is_digit, is_lowercase, is_uppercase, lowercase_of,
    to_lowercase, trim, trimmed,
};
use email_address::EmailAddress;
use vstd::prelude::*;
use vstd::string::StringSliceAdditionalSpecFns;

verus! {

/// Whether `EmailAddress::is_valid` accepts `address`.
pub uninterp spec fn email_is_valid(address: Seq<char>) -> bool;

/// Calls `EmailAddress::is_valid`, which parses `address` by the grammar of
/// RFC 5322 with the crate's default options. Trusted: the result depends on
/// the characters of `address` alone.
#[verifier::external_body]
fn email_address_is_valid(address: &str) -> (r: bool)
    ensures
        r == email_is_valid(address@),
{
    EmailAddress::is_valid(address)
}

/// Whether `c` is one of the symbols that the password policy counts.
pub open spec fn is_symbol(c: char) -> bool {
    c == '!' || c == '@' || c == '#' || c == '$' || c == '%' || c == '^' || c == '&' || c == '*'
}

/// Whether some character of `s` satisfies `wanted`.
pub open spec fn has(s: Seq<char>, wanted: spec_fn(char) -> bool) -> bool {
    exists|i: int| 0 <= i < s.len() && wanted(#[trigger] s[i])
}

/// The password policy: at least eight bytes long in UTF-8, with an
/// uppercase letter, a lowercase letter, a decimal digit and a symbol.
pub open spec fn password_is_acceptable(password: Seq<char>) -> bool {
    &&& vstd::utf8::encode_utf8(password).len() >= 8
    &&& has(password, |c: char| char_is_uppercase(c))
    &&& has(password, |c: char| char_is_lowercase(c))
    &&& has(password, |c: char| is_digit(c))
    &&& has(password, |c: char| is_symbol(c))
}

/// What the service is waiting for.
#[derive(Debug, PartialEq, Eq)]
pub enum UserFlow {
    /// A registration waits to learn whether the address is taken.
    RegisterLookup(RegistrationRequest),
    /// A registration waits for the new row.
    RegisterInsert,
    /// A login waits for the user with the given address.
    LoginLookup(LoginRequest),
    /// A request for the current user waits for the user of the session.
    CurrentUserLookup,
}

/// The contents of [`UserFlow`], as mathematical values.
pub enum UserFlowView {
    RegisterLookup(RegistrationRequestView),
    RegisterInsert,
    LoginLookup(LoginRequestView),
    CurrentUserLookup,
}

impl View for UserFlow {
    type V = UserFlowView;

    open spec fn view(&self) -> UserFlowView {
        match self {
            UserFlow::RegisterLookup(info) => UserFlowView::RegisterLookup(info@),
            UserFlow::RegisterInsert => UserFlowView::RegisterInsert,
            UserFlow::LoginLookup(credentials) => UserFlowView::LoginLookup(credentials@),
            UserFlow::CurrentUserLookup => UserFlowView::CurrentUserLookup,
        }
    }
}

/// One step of handling a request.
#[derive(Debug, PartialEq, Eq)]
pub enum UserStep {
    /// Put the query to the repository and resume with its answer.
    Ask(UserQuery, UserFlow),
    /// The request is answered; apply the change to the caller's session.
    Done(Outcome, SessionChange),
}

/// The contents of [`UserStep`], as mathematical values.
pub enum UserStepView {
    Ask(UserQueryView, UserFlowView),
    Done(OutcomeView, SessionChange),
}

impl View for UserStep {
    type V = UserStepView;

    open spec fn view(&self) -> UserStepView {
        match self {
            UserStep::Ask(query, flow) => UserStepView::Ask(query@, flow@),
            UserStep::Done(outcome, change) => UserStepView::Done(outcome@, *change),
        }
    }
}

impl UserStepView {
    /// The step that answers with a message and leaves the session alone.
    pub open spec fn refuse(status: Status, text: Seq<char>) -> UserStepView {
        UserStepView::Done(OutcomeView::message(status, text), SessionChange::Keep)
    }

    /// The step that answers with `user`'s public projection.
    pub open spec fn show(status: Status, user: UserView, change: SessionChange) -> UserStepView {
        UserStepView::Done(
            OutcomeView { status, body: BodyView::User(user.response()) },
            change,
        )
    }
}

/// The row that registers `info` with the password hash `password_hash`:
/// the name without the whitespace around it, the address in lowercase.
pub open spec fn new_user_of(
    info: RegistrationRequestView,
    password_hash: Seq<char>,
) -> NewUserView {
    NewUserView {
        username: trimmed(info.username),
        email: lowercase_of(info.email),
        password_hash,
    }
}

/// The first step of a registration: ask for the user with the address, in
/// lowercase.
pub open spec fn registration_begun(info: RegistrationRequestView) -> UserStepView {
    UserStepView::Ask(
        UserQueryView::FindByEmail(lowercase_of(info.email)),
        UserFlowView::RegisterLookup(info),
    )
}

/// Why a registration ends once the lookup is answered, if it does. The
/// checks come in this order: the lookup itself, the address being taken,
/// the form of the address, the password policy.
pub open spec fn registration_refusal(
    info: RegistrationRequestView,
    answer: UserAnswerView,
) -> Option<UserStepView> {
    match answer {
        UserAnswerView::Found(Some(_)) => Some(
            UserStepView::refuse(Status::Conflict, "User already exists"@),
        ),
        UserAnswerView::Found(None) => if !email_is_valid(info.email) {
            Some(UserStepView::refuse(Status::BadRequest, "Invalid email"@))
        } else if !password_is_acceptable(info.password) {
            Some(UserStepView::refuse(Status::BadRequest, "Invalid password"@))
        } else {
            None
        },
        _ => Some(UserStepView::refuse(Status::InternalServerError, "Internal server error"@)),
    }
}

/// The step of a registration that passed its checks, given what hashing
/// the password returned.
pub open spec fn enrolled(
    info: RegistrationRequestView,
    hashed: Result<Seq<char>, HashingError>,
) -> UserStepView {
    match hashed {
        Ok(password_hash) => UserStepView::Ask(
            UserQueryView::Create(new_user_of(info, password_hash)),
            UserFlowView::RegisterInsert,
        ),
        Err(_) => UserStepView::refuse(Status::InternalServerError, "Failed to create user"@),
    }
}

/// The user that `credentials` authenticate, given the user found under
/// their address: that user, if the password matches the stored hash. A
/// stored hash that cannot be read matches no password.
pub open spec fn authenticated(
    credentials: LoginRequestView,
    found: Option<UserView>,
) -> Option<UserView> {
    match found {
        Some(user) => if verification(credentials.password, user.password_hash) == Ok::<
            bool,
            HashingError,
        >(true) {
            Some(user)
        } else {
            None
        },
        None => None,
    }
}

/// The first step of a login: ask for the user with the address as given.
pub open spec fn login_begun(credentials: LoginRequestView) -> UserStepView {
    UserStepView::Ask(
        UserQueryView::FindByEmail(credentials.email),
        UserFlowView::LoginLookup(credentials),
    )
}

/// The answer to a logout.
pub open spec fn logged_out() -> UserStepView {
    UserStepView::Done(
        OutcomeView::message(Status::Success, "Successfully logged out"@),
        SessionChange::Purge,
    )
}

/// The first step of a request for the current user.
pub open spec fn current_user_begun(session: SessionData) -> UserStepView {
    match session.identity() {
        Some(id) => UserStepView::Ask(
            UserQueryView::FindById(id),
            UserFlowView::CurrentUserLookup,
        ),
        None => UserStepView::refuse(Status::Unauthorized, "Not logged in"@),
    }
}

/// The registration whose password is hashed in the step after `answer`, if
/// there is one: a registration that waited for its lookup and passed every
/// check.
pub open spec fn enrolling(flow: UserFlowView, answer: UserAnswerView) -> Option<
    RegistrationRequestView,
> {
    match flow {
        UserFlowView::RegisterLookup(info) => if registration_refusal(info, answer) is None {
            Some(info)
        } else {
            None
        },
        _ => None,
    }
}

/// The step that follows `answer`. Where a password is hashed in that step
/// (see [`enrolling`]) the hash decides, and this is the step for a hash
/// that failed.
pub open spec fn resumed(flow: UserFlowView, answer: UserAnswerView) -> UserStepView {
    match flow {
        UserFlowView::RegisterLookup(info) => match registration_refusal(info, answer) {
            Some(step) => step,
            None => enrolled(info, Err(HashingError::HashingFailed)),
        },
        UserFlowView::RegisterInsert => match answer {
            UserAnswerView::Created(user) => UserStepView::show(
                Status::Created,
                user,
                SessionChange::Keep,
            ),
            UserAnswerView::Duplicate => UserStepView::refuse(
                Status::Conflict,
                "User already exists"@,
            ),
            _ => UserStepView::refuse(Status::InternalServerError, "Failed to create user"@),
        },
        UserFlowView::LoginLookup(credentials) => match answer {
            UserAnswerView::Found(found) => match authenticated(credentials, found) {
                Some(user) => UserStepView::show(
                    Status::Success,
                    user,
                    SessionChange::Establish(UserSession { user_id: user.id, is_active: true }),
                ),
                None => UserStepView::refuse(Status::Unauthorized, "Invalid credentials"@),
            },
            _ => UserStepView::refuse(Status::InternalServerError, "Internal server error"@),
        },
        UserFlowView::CurrentUserLookup => match answer {
            UserAnswerView::Found(Some(user)) => UserStepView::show(
                Status::Success,
                user,
                SessionChange::Keep,
            ),
            UserAnswerView::Found(None) => UserStepView::Done(
                OutcomeView::message(Status::Unauthorized, "Session invalid"@),
                SessionChange::Purge,
            ),
            _ => UserStepView::refuse(
                Status::InternalServerError,
                "Internal server error. Check logs."@,
            ),
        },
    }
}

/// Whether `step` is a step that a registration which passed its checks may
/// take: the request to insert `info` with the hash of its password and
/// some salt, which verifies against the password, or the answer that the
/// user could not be created.
pub open spec fn is_enrollment(info: RegistrationRequestView, step: UserStepView) -> bool {
    ||| step == enrolled(info, Err(HashingError::HashingFailed))
    ||| {
        &&& step matches UserStepView::Ask(
            UserQueryView::Create(new_user),
            UserFlowView::RegisterInsert,
        )
        &&& new_user == new_user_of(info, new_user.password_hash)
        &&& verification(info.password, new_user.password_hash) == Ok::<bool, HashingError>(true)
        &&& phc_salt(new_user.password_hash) matches Some(salt) && hashed_with_salt(
            info.password,
            salt,
        ) == Ok::<Seq<char>, HashingError>(new_user.password_hash)
    }
}

impl NewUser {
    /// The row that registers `value` with the password hash `password_hash`.
    pub fn from_registration(value: RegistrationRequest, password_hash: String) -> (r: NewUser)
        ensures
            r@ == new_user_of(value@, password_hash@),
    {
        NewUser {
            username: trim(value.username.as_str()),
            email: to_lowercase(value.email.as_str()),
            password_hash,
        }
    }

    /// Hashes the password of `value` and builds the row that registers it.
    ///
    /// Whatever salt the hash was made with, a row that comes back holds a
    /// hash that verifies against the password. The only error is the text
    /// "Failed to hash password".
    pub fn try_from(value: RegistrationRequest) -> (r: Result<NewUser, String>)
        ensures
            r matches Ok(new_user) ==> {
                &&& new_user@ == new_user_of(value@, new_user.password_hash@)
                &&& verification(value.password@, new_user.password_hash@) == Ok::<
                    bool,
                    HashingError,
                >(true)
                &&& phc_salt(new_user.password_hash@) matches Some(salt) && hashed_with_salt(
                    value.password@,
                    salt,
                ) == Ok::<Seq<char>, HashingError>(new_user.password_hash@)
            },
            r matches Err(text) ==> text@ == "Failed to hash password"@,
    {
        match hash_password(value.password.as_str()) {
            Ok(password_hash) => Ok(NewUser::from_registration(value, password_hash)),
            Err(_) => Err("Failed to hash password".to_owned()),
        }
    }
}

/// The registration, login and session rules.
#[derive(Clone, Copy, Debug, PartialEq, Eq, Structural)]
pub struct UserService {}

impl UserService {
    /// The service. It holds nothing: what it decides depends on what it is
    /// asked and told alone.
    pub fn new() -> (r: Self)
        ensures
            r == (UserService {  }),
    {
        UserService {  }
    }

    /// Whether `email` has the form of an email address.
    pub fn validate_email(&self, email: &str) -> (r: bool)
        ensures
            r == email_is_valid(email@),
    {
        email_address_is_valid(email)
    }

    /// Whether `password` meets the password policy.
    pub fn validate_password(&self, password: &str) -> (r: bool)
        ensures
            r == password_is_acceptable(password@),
    {
        let mut upper = false;
        let mut lower = false;
        let mut digit = false;
        let mut symbol = false;
        for c in it: password.chars()
            invariant
                it.seq() == password@,
                upper == has(password@.take(it.index() as int), |c: char| char_is_uppercase(c)),
                lower == has(password@.take(it.index() as int), |c: char| char_is_lowercase(c)),
                digit == has(password@.take(it.index() as int), |c: char| is_digit(c)),
                symbol == has(password@.take(it.index() as int), |c: char| is_symbol(c)),
        {
            let ghost seen = password@.take(it.index() as int);
            let ghost next = password@.take(it.index() + 1);
            assert(next.drop_last() == seen);
            assert(next.last() == c);
            proof {
                has_push(seen, next, |c: char| char_is_uppercase(c));
                has_push(seen, next, |c: char| char_is_lowercase(c));
                has_push(seen, next, |c: char| is_digit(c));
                has_push(seen, next, |c: char| is_symbol(c));
            }
            upper = upper || is_uppercase(c);
            lower = lower || is_lowercase(c);
            digit = digit || ('0' <= c && c <= '9');
            symbol = symbol || c == '!' || c == '@' || c == '#' || c == '$' || c == '%' || c == '^'
                || c == '&' || c == '*';
        }
        assert(password@.take(password@.len() as int) == password@);
        password.as_bytes().len() >= 8 && upper && lower && digit && symbol
    }

    /// The user that `credentials` authenticate, given the user that was
    /// found under their address.
    pub fn authenticate_user(&self, credentials: &LoginRequest, found: Option<User>) -> (r: Option<
        User,
    >)
        ensures
            view_of(r) == authenticated(credentials@, view_of(found)),
            r is Some ==> r == found,
    {
        match found {
            Some(user) => match verify_password(
                credentials.password.as_str(),
                user.password_hash.as_str(),
            ) {
                Ok(true) => Some(user),
                _ => None,
            },
            None => None,
        }
    }

    /// The step of a registration that passed its checks, given what hashing
    /// its password returned.
    pub fn enroll(
        &self,
        user_info: RegistrationRequest,
        hashed: Result<String, HashingError>,
    ) -> (r: UserStep)
        ensures
            r@ == enrolled(user_info@, hash_text(hashed)),
    {
        match hashed {
            Ok(password_hash) => UserStep::Ask(
                UserQuery::Create(NewUser::from_registration(user_info, password_hash)),
                UserFlow::RegisterInsert,
            ),
            Err(_) => refuse(Status::InternalServerError, "Failed to create user"),
        }
    }

    /// Begins a registration: asks whether the address, in lowercase, is
    /// taken.
    pub fn register_user(&self, user_info: RegistrationRequest) -> (r: UserStep)
        ensures
            r@ == registration_begun(user_info@),
    {
        let email = to_lowercase(user_info.email.as_str());
        UserStep::Ask(UserQuery::FindByEmail(email), UserFlow::RegisterLookup(user_info))
    }

    /// Begins a login: asks for the user with the address as it was given.
    pub fn login_user(&self, credentials: LoginRequest) -> (r: UserStep)
        ensures
            r@ == login_begun(credentials@),
    {
        let email = credentials.email.clone();
        UserStep::Ask(UserQuery::FindByEmail(email), UserFlow::LoginLookup(credentials))
    }

    /// Ends the caller's session. A logout succeeds whatever the session
    /// holds.
    pub fn logout_user(&self) -> (r: UserStep)
        ensures
            r@ == logged_out(),
    {
        UserStep::Done(
            Outcome::message(Status::Success, "Successfully logged out"),
            SessionChange::Purge,
        )
    }

    /// Begins a request for the current user: asks for the user that the
    /// session names, or answers at once that nobody is logged in.
    pub fn get_current_user(&self, session: &SessionData) -> (r: UserStep)
        ensures
            r@ == current_user_begun(*session),
    {
        match resolve_session(session) {
            Some(caller) => UserStep::Ask(
                UserQuery::FindById(caller.0),
                UserFlow::CurrentUserLookup,
            ),
            None => refuse(Status::Unauthorized, "Not logged in"),
        }
    }

    /// Continues a request with the repository's answer.
    ///
    /// The step is the one that [`resumed`] gives, but where the password of
    /// a registration is hashed: there it is an enrollment of that
    /// registration, whatever salt the hash was made with.
    pub fn resume(&self, flow: UserFlow, answer: UserAnswer) -> (r: UserStep)
        ensures
            match enrolling(flow@, answer@) {
                Some(info) => is_enrollment(info, r@),
                None => r@ == resumed(flow@, answer@),
            },
    {
        match flow {
            UserFlow::RegisterLookup(user_info) => match answer {
                UserAnswer::Found(Some(_)) => refuse(Status::Conflict, "User already exists"),
                UserAnswer::Found(None) => {
                    if !self.validate_email(user_info.email.as_str()) {
                        refuse(Status::BadRequest, "Invalid email")
                    } else if !self.validate_password(user_info.password.as_str()) {
                        refuse(Status::BadRequest, "Invalid password")
                    } else {
                        let hashed = hash_password(user_info.password.as_str());
                        self.enroll(user_info, hashed)
                    }
                },
                _ => refuse(Status::InternalServerError, "Internal server error"),
            },
            UserFlow::RegisterInsert => match answer {
                UserAnswer::Created(user) => UserStep::Done(
                    Outcome::user(Status::Created, UserResponse::from(user)),
                    SessionChange::Keep,
                ),
                UserAnswer::Duplicate => refuse(Status::Conflict, "User already exists"),
                _ => refuse(Status::InternalServerError, "Failed to create user"),
            },
            UserFlow::LoginLookup(credentials) => match answer {
                UserAnswer::Found(found) => match self.authenticate_user(&credentials, found) {
                    Some(user) => {
                        let change = SessionChange::Establish(UserSession::from(user.clone()));
                        UserStep::Done(
                            Outcome::user(Status::Success, UserResponse::from(user)),
                            change,
                        )
                    },
                    None => refuse(Status::Unauthorized, "Invalid credentials"),
                },
                _ => refuse(Status::InternalServerError, "Internal server error"),
            },
            UserFlow::CurrentUserLookup => match answer {
                UserAnswer::Found(Some(user)) => UserStep::Done(
                    Outcome::user(Status::Success, UserResponse::from(user)),
                    SessionChange::Keep,
                ),
                UserAnswer::Found(None) => UserStep::Done(
                    Outcome::message(Status::Unauthorized, "Session invalid"),
                    SessionChange::Purge,
                ),
                _ => refuse(Status::InternalServerError, "Internal server error. Check logs."),
            },
        }
    }
}

/// The step that answers with a message and leaves the session alone.
fn refuse(status: Status, text: &str) -> (r: UserStep)
    ensures
        r@ == UserStepView::refuse(status, text@),
{
    UserStep::Done(Outcome::message(status, text), SessionChange::Keep)
}

/// A text with one more character holds a wanted one if the text without
/// it does, or if that character is wanted.
pub proof fn has_push(seen: Seq<char>, next: Seq<char>, wanted: spec_fn(char) -> bool)
    requires
        next.len() > 0,
        next.drop_last() == seen,
    ensures
        has(next, wanted) == (has(seen, wanted) || wanted(next.last())),
{
    if has(seen, wanted) {
        let i = choose|i: int| 0 <= i < seen.len() && wanted(#[trigger] seen[i]);
        assert(next[i] == seen[i]);
    }
    if wanted(next.last()) {
        assert(wanted(next[next.len() - 1]));
    }
    if has(next, wanted) {
        let i = choose|i: int| 0 <= i < next.len() && wanted(#[trigger] next[i]);
        if i < seen.len() {
            assert(seen[i] == next[i]);
        }
    }
}

/// An address can be registered once. When a registration has been stored,
/// a later registration of the same address, in whatever case it is written,
/// is refused as a conflict, as long as the stored row is still in the table
/// and the repository answers the lookup.
pub proof fn second_registration_conflicts(
    first: RegistrationRequestView,
    password_hash: Seq<char>,
    before: Seq<UserView>,
    created: UserView,
    stored: Seq<UserView>,
    second: RegistrationRequestView,
    later: Seq<UserView>,
    answer: UserAnswerView,
)
    requires
        UserQueryView::Create(new_user_of(first, password_hash)).admits(
            before,
            UserAnswerView::Created(created),
            stored,
        ),
        lowercase_of(second.email) == lowercase_of(first.email),
        later.contains(created),
        UserQueryView::FindByEmail(lowercase_of(second.email)).admits(later, answer, later),
        answer != UserAnswerView::Failed,
    ensures
        resumed(UserFlowView::RegisterInsert, UserAnswerView::Created(created))
            == UserStepView::show(Status::Created, created, SessionChange::Keep),
        registration_begun(second) == UserStepView::Ask(
            UserQueryView::FindByEmail(lowercase_of(second.email)),
            UserFlowView::RegisterLookup(second),
        ),
        enrolling(UserFlowView::RegisterLookup(second), answer) is None,
        resumed(UserFlowView::RegisterLookup(second), answer) == UserStepView::refuse(
            Status::Conflict,
            "User already exists"@,
        ),
{
    let i = choose|i: int| 0 <= i < later.len() && later[i] == created;
    assert(later[i].email == lowercase_of(second.email));
}

/// An account that was registered can be used. Once the table has stored
/// the row of a registration, a login with the registered address, in
/// lowercase, and the registered password finds that row, succeeds, and
/// establishes a session under which the current user is the registered
/// one, as long as the repository answers the two lookups.
pub proof fn registered_user_logs_in(
    info: RegistrationRequestView,
    new_user: NewUserView,
    before: Seq<UserView>,
    created: UserView,
    table: Seq<UserView>,
    credentials: LoginRequestView,
    found: UserAnswerView,
    session: SessionData,
    current: UserAnswerView,
)
    requires
        is_enrollment(
            info,
            UserStepView::Ask(UserQueryView::Create(new_user), UserFlowView::RegisterInsert),
        ),
        UserQueryView::Create(new_user).admits(before, UserAnswerView::Created(created), table),
        credentials.email == lowercase_of(info.email),
        credentials.password == info.password,
        UserQueryView::FindByEmail(credentials.email).admits(table, found, table),
        found != UserAnswerView::Failed,
        UserQueryView::FindById(created.id).admits(table, current, table),
        current != UserAnswerView::Failed,
    ensures
        found == UserAnswerView::Found(Some(created)),
        resumed(UserFlowView::LoginLookup(credentials), found) == UserStepView::show(
            Status::Success,
            created,
            SessionChange::Establish(UserSession { user_id: created.id, is_active: true }),
        ),
        current_user_begun(
            session.after(
                SessionChange::Establish(UserSession { user_id: created.id, is_active: true }),
            ),
        ) == UserStepView::Ask(
            UserQueryView::FindById(created.id),
            UserFlowView::CurrentUserLookup,
        ),
        current == UserAnswerView::Found(Some(created)),
        resumed(UserFlowView::CurrentUserLookup, current) == UserStepView::show(
            Status::Success,
            created,
            SessionChange::Keep,
        ),
{
    let last = before.len() as int;
    assert(table[last] == created);
    match found {
        UserAnswerView::Found(Some(other)) => {
            let j = choose|j: int| 0 <= j < table.len() && table[j] == other;
            assert(table[j].email == table[last].email);
            assert(j == last);
        },
        _ => {},
    }
    match current {
        UserAnswerView::Found(Some(other)) => {
            let j = choose|j: int| 0 <= j < table.len() && table[j] == other;
            assert(table[j].id == table[last].id);
            assert(j == last);
        },
        _ => {},
    }
}

/// A login that fails says the same thing whether the address is unknown or
/// the password is wrong, and leaves the session alone.
pub proof fn login_failures_are_uniform(
    credentials: LoginRequestView,
    user: UserView,
    unknown: LoginRequestView,
)
    requires
        verification(credentials.password, user.password_hash) != Ok::<bool, HashingError>(true),
    ensures
        resumed(UserFlowView::LoginLookup(credentials), UserAnswerView::Found(Some(user)))
            == UserStepView::refuse(Status::Unauthorized, "Invalid credentials"@),
        resumed(UserFlowView::LoginLookup(unknown), UserAnswerView::Found(None))
            == UserStepView::refuse(Status::Unauthorized, "Invalid credentials"@),
{
}

/// A login with the password that was hashed at registration succeeds, and
/// the session it establishes names the user. The session is moved to a
/// newly minted identifier: under the identifier that the caller came with,
/// the store holds nothing afterwards.
pub proof fn login_establishes_session(
    credentials: LoginRequestView,
    user: UserView,
    session: SessionData,
    store: Map<Seq<char>, SessionData>,
    old: Seq<char>,
    minted: Seq<char>,
)
    requires
        verification(credentials.password, user.password_hash) == Ok::<bool, HashingError>(true),
        minted != old,
        !store.dom().contains(minted),
    ensures
        resumed(UserFlowView::LoginLookup(credentials), UserAnswerView::Found(Some(user)))
            matches UserStepView::Done(outcome, change) && {
            &&& change.renews()
            &&& held(change.store_after(store, Some(old), minted), Some(old)).identity() is None
            &&& held(change.store_after(store, Some(old), minted), Some(minted)).identity()
                == Some(user.id)
            &&& outcome == OutcomeView {
                status: Status::Success,
                body: BodyView::User(user.response()),
            }
            &&& session.after(change).identity() == Some(user.id)
            &&& current_user_begun(session.after(change)) == UserStepView::Ask(
                UserQueryView::FindById(user.id),
                UserFlowView::CurrentUserLookup,
            )
        },
{
}

/// After a logout the session authenticates nobody, whatever it held
/// before: the store holds nothing under its identifier, and a request that
/// comes with it is turned away from every protected route as unauthorized.
pub proof fn logout_ends_session(
    session: SessionData,
    store: Map<Seq<char>, SessionData>,
    old: Seq<char>,
    minted: Seq<char>,
)
    ensures
        logged_out() matches UserStepView::Done(outcome, change) && {
            &&& outcome.status == Status::Success
            &&& session.after(change).identity() is None
            &&& change.identifier_after(Some(old), minted) is None
            &&& held(change.store_after(store, Some(old), minted), Some(old))
                == SessionData::none()
            &&& gate(session.after(change)) == GateView::Reject(not_authenticated())
            &&& current_user_begun(session.after(change)) == UserStepView::refuse(
                Status::Unauthorized,
                "Not logged in"@,
            )
        },
{
}

/// A session whose user is gone is destroyed by the request that finds it
/// so, and the next request with it is unauthorized.
pub proof fn stale_session_is_destroyed(session: SessionData)
    ensures
        resumed(UserFlowView::CurrentUserLookup, UserAnswerView::Found(None))
            matches UserStepView::Done(outcome, change) && {
            &&& outcome.status == Status::Unauthorized
            &&& session.after(change).identity() is None
        },
{
}

/// No failure of the service tells more than a fixed message: every step
/// that does not succeed carries a message body.
pub proof fn failures_carry_messages(flow: UserFlowView, answer: UserAnswerView)
    ensures
        resumed(flow, answer) matches UserStepView::Done(outcome, _) ==> (
        outcome.status.is_success() || outcome.text() is Some),
{
}

} // verus!
