//! Queries on the table of users.

use crate::models::users::{
    view_of, NewUser, NewUserView, UpdateUser, UpdateUserView, User, UserView,
};
use uuid::Uuid;
use vstd::prelude::*;

verus! {

/// What the service asks of the table of users.
#[derive(Debug, PartialEq, Eq)]
pub enum UserQuery {
    /// The user with this identifier.
    FindById(Uuid),
    /// The user with this email address.
    FindByEmail(String),
    /// The user with this name.
    FindByUsername(String),
    /// Insert this user.
    Create(NewUser),
    /// Change the user with this identifier.
    Update(Uuid, UpdateUser),
    /// Delete the user with this identifier.
    Delete(Uuid),
}

/// What the table answers.
#[derive(Debug, PartialEq, Eq)]
pub enum UserAnswer {
    /// The result of a lookup.
    Found(Option<User>),
    /// The row that was inserted.
    Created(User),
    /// The row as it is after a change.
    Updated(User),
    /// The number of rows that a delete removed.
    Deleted(u64),
    /// The table refused the row: the email address or the name is taken.
    Duplicate,
    /// The query could not be carried out.
    Failed,
}

/// The contents of [`UserQuery`], as mathematical values.
pub enum UserQueryView {
    FindById(Uuid),
    FindByEmail(Seq<char>),
    FindByUsername(Seq<char>),
    Create(NewUserView),
    Update(Uuid, UpdateUserView),
    Delete(Uuid),
}

impl View for UserQuery {
    type V = UserQueryView;

    open spec fn view(&self) -> UserQueryView {
        match self {
            UserQuery::FindById(id) => UserQueryView::FindById(*id),
            UserQuery::FindByEmail(email) => UserQueryView::FindByEmail(email@),
            UserQuery::FindByUsername(name) => UserQueryView::FindByUsername(name@),
            UserQuery::Create(new_user) => UserQueryView::Create(new_user@),
            UserQuery::Update(id, changes) => UserQueryView::Update(*id, changes@),
            UserQuery::Delete(id) => UserQueryView::Delete(*id),
        }
    }
}

/// The contents of [`UserAnswer`], as mathematical values.
pub enum UserAnswerView {
    Found(Option<UserView>),
    Created(UserView),
    Updated(UserView),
    Deleted(u64),
    Duplicate,
    Failed,
}

impl View for UserAnswer {
    type V = UserAnswerView;

    open spec fn view(&self) -> UserAnswerView {
        match self {
            UserAnswer::Found(found) => UserAnswerView::Found(view_of(*found)),
            UserAnswer::Created(user) => UserAnswerView::Created(user@),
            UserAnswer::Updated(user) => UserAnswerView::Updated(user@),
            UserAnswer::Deleted(rows) => UserAnswerView::Deleted(*rows),
            UserAnswer::Duplicate => UserAnswerView::Duplicate,
            UserAnswer::Failed => UserAnswerView::Failed,
        }
    }
}

/// The table's own rule: no two rows share an identifier, an email address
/// or a name.
pub open spec fn users_distinct(table: Seq<UserView>) -> bool {
    forall|i: int, j: int|
        0 <= i < table.len() && 0 <= j < table.len() && i != j ==> {
            &&& #[trigger] table[i].id != #[trigger] table[j].id
            &&& table[i].email != table[j].email
            &&& table[i].username != table[j].username
        }
}

/// Whether `found` is what a lookup for the rows that satisfy `wanted`
/// returns: such a row of the table, or nothing if there is none.
pub open spec fn is_lookup(
    table: Seq<UserView>,
    wanted: spec_fn(UserView) -> bool,
    found: Option<UserView>,
) -> bool {
    match found {
        Some(user) => table.contains(user) && wanted(user),
        None => forall|i: int| 0 <= i < table.len() ==> !wanted(#[trigger] table[i]),
    }
}

/// The row `user` after `changes`: a field that the update names is
/// replaced, the others stay, and the time of the change is the table's to
/// choose.
pub open spec fn is_changed(user: UserView, changes: UpdateUserView, changed: UserView) -> bool {
    &&& changed.id == user.id
    &&& changed.created_at == user.created_at
    &&& changed.username == match changes.username {
        Some(name) => name,
        None => user.username,
    }
    &&& changed.email == match changes.email {
        Some(email) => email,
        None => user.email,
    }
    &&& changed.password_hash == match changes.password_hash {
        Some(hash) => hash,
        None => user.password_hash,
    }
}

impl UserQueryView {
    /// Whether a repository that holds `before` may give `answer` to this
    /// query and hold `after` from then on.
    ///
    /// A repository may always fail, and then changes nothing. Otherwise a
    /// lookup returns the row that was asked for; an insert adds one row with
    /// the given fields and an identifier of the table's choosing, unless the
    /// address or the name is taken; an update changes one row in place; a
    /// delete removes the rows with the identifier and counts them.
    pub open spec fn admits(
        self,
        before: Seq<UserView>,
        answer: UserAnswerView,
        after: Seq<UserView>,
    ) -> bool {
        if answer == UserAnswerView::Failed {
            after == before
        } else {
            match self {
                UserQueryView::FindById(id) => {
                    &&& after == before
                    &&& answer matches UserAnswerView::Found(found)
                    &&& is_lookup(before, |u: UserView| u.id == id, found)
                },
                UserQueryView::FindByEmail(email) => {
                    &&& after == before
                    &&& answer matches UserAnswerView::Found(found)
                    &&& is_lookup(before, |u: UserView| u.email == email, found)
                },
                UserQueryView::FindByUsername(name) => {
                    &&& after == before
                    &&& answer matches UserAnswerView::Found(found)
                    &&& is_lookup(before, |u: UserView| u.username == name, found)
                },
                UserQueryView::Create(new_user) => match answer {
                    UserAnswerView::Created(user) => {
                        &&& user.username == new_user.username
                        &&& user.email == new_user.email
                        &&& user.password_hash == new_user.password_hash
                        &&& users_distinct(before.push(user))
                        &&& after == before.push(user)
                    },
                    UserAnswerView::Duplicate => {
                        &&& after == before
                        &&& exists|i: int|
                            0 <= i < before.len() && (#[trigger] before[i].email == new_user.email
                                || before[i].username == new_user.username)
                    },
                    _ => false,
                },
                UserQueryView::Update(id, changes) => match answer {
                    UserAnswerView::Updated(user) => exists|i: int|
                        {
                            &&& 0 <= i < before.len()
                            &&& (#[trigger] before[i]).id == id
                            &&& is_changed(before[i], changes, user)
                            &&& after == before.update(i, user)
                        },
                    UserAnswerView::Duplicate => after == before,
                    _ => false,
                },
                UserQueryView::Delete(id) => {
                    &&& answer matches UserAnswerView::Deleted(rows)
                    &&& after == before.filter(|u: UserView| u.id != id)
                    &&& rows == before.len() - after.len()
                },
            }
        }
    }
}

} // verus!
