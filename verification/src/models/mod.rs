//! The records that the service stores, receives and sends.

use vstd::prelude::*;

pub mod notes;
pub mod responses;
pub mod users;

pub use notes::{CreateNoteDto, NewNote, Note, NoteView, QueryParams, UpdateNote, UserNotes};
pub use responses::{Body, Outcome, Status};
pub use users::{
    AuthenticatedUser, LoginRequest, NewUser, RegistrationRequest, UpdateUser, User, UserId,
    UserResponse, UserSession, UserView,
};

verus! {

/// `uuid::Uuid`, the identifier of a user or a note. The library never looks
/// inside one: it hands identifiers on and compares them in contracts.
#[verifier::external_type_specification]
#[verifier::external_body]
pub struct ExUuid(uuid::Uuid);

/// A point in time as the database records it: whole seconds since the Unix
/// epoch and the nanoseconds within the second.
#[derive(Clone, Copy, Debug, PartialEq, Eq, Structural)]
pub struct Timestamp {
    pub seconds: i64,
    pub nanos: u32,
}

} // verus!
