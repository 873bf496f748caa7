//! Notes and the requests that read and change them.

use crate::models::Timestamp;
use crate::utils::text::optional_text;
use uuid::Uuid;
use vstd::prelude::*;

verus! {

/// A stored note. `user_id` names its owner.
#[derive(Debug, PartialEq, Eq)]
pub struct Note {
    pub id: Uuid,
    pub user_id: Uuid,
    pub title: String,
    pub content: String,
    pub created_at: Timestamp,
    pub updated_at: Timestamp,
}

/// The contents of [`Note`], as mathematical values.
pub struct NoteView {
    pub id: Uuid,
    pub user_id: Uuid,
    pub title: Seq<char>,
    pub content: Seq<char>,
    pub created_at: Timestamp,
    pub updated_at: Timestamp,
}

impl View for Note {
    type V = NoteView;

    open spec fn view(&self) -> NoteView {
        NoteView {
            id: self.id,
            user_id: self.user_id,
            title: self.title@,
            content: self.content@,
            created_at: self.created_at,
            updated_at: self.updated_at,
        }
    }
}

/// The view of a note that may be missing.
pub open spec fn view_of(found: Option<Note>) -> Option<NoteView> {
    match found {
        Some(note) => Some(note@),
        None => None,
    }
}

impl Clone for Note {
    fn clone(&self) -> (r: Self)
        ensures
            r@ == self@,
    {
        Note {
            id: self.id,
            user_id: self.user_id,
            title: self.title.clone(),
            content: self.content.clone(),
            created_at: self.created_at,
            updated_at: self.updated_at,
        }
    }
}

/// The row to insert for a new note.
#[derive(Debug, PartialEq, Eq)]
pub struct NewNote {
    pub user_id: Uuid,
    pub title: String,
    pub content: String,
}

/// The contents of [`NewNote`], as mathematical values.
pub struct NewNoteView {
    pub user_id: Uuid,
    pub title: Seq<char>,
    pub content: Seq<char>,
}

impl View for NewNote {
    type V = NewNoteView;

    open spec fn view(&self) -> NewNoteView {
        NewNoteView { user_id: self.user_id, title: self.title@, content: self.content@ }
    }
}

impl Clone for NewNote {
    fn clone(&self) -> (r: Self)
        ensures
            r@ == self@,
    {
        NewNote {
            user_id: self.user_id,
            title: self.title.clone(),
            content: self.content.clone(),
        }
    }
}

impl NewNote {
    pub fn new(user_id: Uuid, title: String, content: String) -> (r: Self)
        ensures
            r == (NewNote { user_id, title, content }),
    {
        Self { user_id, title, content }
    }
}

/// A partial update of a note: a field that is `None` is left as it is.
#[derive(Debug, PartialEq, Eq)]
pub struct UpdateNote {
    pub title: Option<String>,
    pub content: Option<String>,
}

/// The contents of [`UpdateNote`], as mathematical values.
pub struct UpdateNoteView {
    pub title: Option<Seq<char>>,
    pub content: Option<Seq<char>>,
}

impl View for UpdateNote {
    type V = UpdateNoteView;

    open spec fn view(&self) -> UpdateNoteView {
        UpdateNoteView {
            title: optional_text(self.title),
            content: optional_text(self.content),
        }
    }
}

impl UpdateNote {
    /// The update that changes nothing.
    pub fn new() -> (r: Self)
        ensures
            r.title is None,
            r.content is None,
    {
        Self { title: None, content: None }
    }

    pub fn with_title(self, title: String) -> (r: Self)
        ensures
            r == (UpdateNote { title: Some(title), ..self }),
    {
        let mut this = self;
        this.title = Some(title);
        this
    }

    pub fn with_content(self, content: String) -> (r: Self)
        ensures
            r == (UpdateNote { content: Some(content), ..self }),
    {
        let mut this = self;
        this.content = Some(content);
        this
    }
}

/// The query string of a listing request.
#[derive(Debug, PartialEq, Eq)]
pub struct QueryParams {
    pub limit: Option<i64>,
    pub offset: Option<i64>,
    pub search: Option<String>,
}

/// The body of a request that creates a note. It names no owner.
#[derive(Debug, PartialEq, Eq)]
pub struct CreateNoteDto {
    pub title: String,
    pub content: String,
}

/// The notes of one user.
#[derive(Debug, PartialEq, Eq)]
pub struct UserNotes {
    pub notes: Vec<Note>,
}

} // verus!
