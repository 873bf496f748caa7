//! What the service answers: a status and a body.

use crate::models::notes::{Note, NoteView, UserNotes};
use crate::models::users::{UserResponse, UserResponseView};
use vstd::prelude::*;

verus! {

/// The HTTP status of an answer.
#[derive(Clone, Copy, Debug, PartialEq, Eq, Structural)]
pub enum Status {
    Success,
    Created,
    NoContent,
    BadRequest,
    Unauthorized,
    NotFound,
    Conflict,
    InternalServerError,
}

impl Status {
    /// The status as a number.
    pub open spec fn number(self) -> u16 {
        match self {
            Status::Success => 200,
            Status::Created => 201,
            Status::NoContent => 204,
            Status::BadRequest => 400,
            Status::Unauthorized => 401,
            Status::NotFound => 404,
            Status::Conflict => 409,
            Status::InternalServerError => 500,
        }
    }

    /// Whether the status reports success.
    pub open spec fn is_success(self) -> bool {
        self == Status::Success || self == Status::Created || self == Status::NoContent
    }

    pub fn code(&self) -> (r: u16)
        ensures
            r == self.number(),
            self.is_success() <==> 200 <= r < 300,
    {
        match self {
            Status::Success => 200,
            Status::Created => 201,
            Status::NoContent => 204,
            Status::BadRequest => 400,
            Status::Unauthorized => 401,
            Status::NotFound => 404,
            Status::Conflict => 409,
            Status::InternalServerError => 500,
        }
    }
}

/// The body of an answer. `Message` stands for the object with the single
/// field `message`; the others for the record itself.
#[derive(Debug, PartialEq, Eq)]
pub enum Body {
    Message(String),
    User(UserResponse),
    Note(Note),
    Notes(Vec<Note>),
    UserNotes(UserNotes),
}

/// The contents of [`Body`], as mathematical values.
pub enum BodyView {
    Message(Seq<char>),
    User(UserResponseView),
    Note(NoteView),
    Notes(Seq<NoteView>),
    UserNotes(Seq<NoteView>),
}

/// The notes of a list, each as mathematical values.
pub open spec fn note_views(notes: Seq<Note>) -> Seq<NoteView> {
    notes.map_values(|n: Note| n@)
}

impl View for Body {
    type V = BodyView;

    open spec fn view(&self) -> BodyView {
        match self {
            Body::Message(text) => BodyView::Message(text@),
            Body::User(user) => BodyView::User(user@),
            Body::Note(note) => BodyView::Note(note@),
            Body::Notes(notes) => BodyView::Notes(note_views(notes@)),
            Body::UserNotes(list) => BodyView::UserNotes(note_views(list.notes@)),
        }
    }
}

/// An answer of the service.
#[derive(Debug, PartialEq, Eq)]
pub struct Outcome {
    pub status: Status,
    pub body: Body,
}

/// The contents of [`Outcome`], as mathematical values.
pub struct OutcomeView {
    pub status: Status,
    pub body: BodyView,
}

impl View for Outcome {
    type V = OutcomeView;

    open spec fn view(&self) -> OutcomeView {
        OutcomeView { status: self.status, body: self.body@ }
    }
}

impl OutcomeView {
    /// The answer with `status` whose body is the message `text`.
    pub open spec fn message(status: Status, text: Seq<char>) -> OutcomeView {
        OutcomeView { status, body: BodyView::Message(text) }
    }

    /// The text of the message, if the body is one.
    pub open spec fn text(self) -> Option<Seq<char>> {
        match self.body {
            BodyView::Message(text) => Some(text),
            _ => None,
        }
    }
}

impl Outcome {
    /// The answer with `status` whose body is the message `text`.
    pub fn message(status: Status, text: &str) -> (r: Outcome)
        ensures
            r@ == OutcomeView::message(status, text@),
    {
        Outcome { status, body: Body::Message(text.to_owned()) }
    }

    /// The answer with `status` that shows `user`.
    pub fn user(status: Status, user: UserResponse) -> (r: Outcome)
        ensures
            r@ == (OutcomeView { status, body: BodyView::User(user@) }),
    {
        Outcome { status, body: Body::User(user) }
    }

    /// The answer with `status` that shows `note`.
    pub fn note(status: Status, note: Note) -> (r: Outcome)
        ensures
            r@ == (OutcomeView { status, body: BodyView::Note(note@) }),
    {
        Outcome { status, body: Body::Note(note) }
    }
}

} // verus!
