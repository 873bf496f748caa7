//! Queries on the table of notes.
//!
//! Every query names the user on whose behalf it is made. A note is read,
//! changed or deleted only where both its identifier and its owner match.

use crate::models::notes::{
    view_of, NewNote, NewNoteView, Note, NoteView, UpdateNote, UpdateNoteView,
};
use crate::models::responses::note_views;
use uuid::Uuid;
use vstd::prelude::*;

verus! {

/// The number of notes that a listing returns when the request names none.
pub const DEFAULT_LIMIT: i64 = 50;

/// What the service asks of the table of notes.
#[derive(Debug, PartialEq, Eq)]
pub enum NoteQuery {
    /// The note with this identifier, if `user_id` owns it.
    GetById { note_id: Uuid, user_id: Uuid },
    /// The notes of `user_id`, newest first: at most `limit` of them, after
    /// the first `offset`.
    ListForUser { user_id: Uuid, limit: i64, offset: i64 },
    /// The notes of `user_id` that match `query`, best match first: at most
    /// `limit` of them.
    Search { user_id: Uuid, query: String, limit: i64 },
    /// Insert this note.
    Create(NewNote),
    /// Change the note with this identifier, if `user_id` owns it.
    Update { note_id: Uuid, user_id: Uuid, changes: UpdateNote },
    /// Delete the note with this identifier, if `user_id` owns it.
    Delete { note_id: Uuid, user_id: Uuid },
}

/// What the table answers.
#[derive(Debug, PartialEq, Eq)]
pub enum NoteAnswer {
    /// The result of a lookup.
    Found(Option<Note>),
    /// The result of a listing or a search.
    Listed(Vec<Note>),
    /// The row that was inserted.
    Created(Note),
    /// The row as it is after a change, if there was a row to change.
    Updated(Option<Note>),
    /// The number of rows that a delete removed.
    Deleted(u64),
    /// The query could not be carried out.
    Failed,
}

/// The contents of [`NoteQuery`], as mathematical values.
pub enum NoteQueryView {
    GetById { note_id: Uuid, user_id: Uuid },
    ListForUser { user_id: Uuid, limit: i64, offset: i64 },
    Search { user_id: Uuid, query: Seq<char>, limit: i64 },
    Create(NewNoteView),
    Update { note_id: Uuid, user_id: Uuid, changes: UpdateNoteView },
    Delete { note_id: Uuid, user_id: Uuid },
}

impl View for NoteQuery {
    type V = NoteQueryView;

    open spec fn view(&self) -> NoteQueryView {
        match self {
            NoteQuery::GetById { note_id, user_id } => NoteQueryView::GetById {
                note_id: *note_id,
                user_id: *user_id,
            },
            NoteQuery::ListForUser { user_id, limit, offset } => NoteQueryView::ListForUser {
                user_id: *user_id,
                limit: *limit,
                offset: *offset,
            },
            NoteQuery::Search { user_id, query, limit } => NoteQueryView::Search {
                user_id: *user_id,
                query: query@,
                limit: *limit,
            },
            NoteQuery::Create(new_note) => NoteQueryView::Create(new_note@),
            NoteQuery::Update { note_id, user_id, changes } => NoteQueryView::Update {
                note_id: *note_id,
                user_id: *user_id,
                changes: changes@,
            },
            NoteQuery::Delete { note_id, user_id } => NoteQueryView::Delete {
                note_id: *note_id,
                user_id: *user_id,
            },
        }
    }
}

/// The contents of [`NoteAnswer`], as mathematical values.
pub enum NoteAnswerView {
    Found(Option<NoteView>),
    Listed(Seq<NoteView>),
    Created(NoteView),
    Updated(Option<NoteView>),
    Deleted(u64),
    Failed,
}

impl View for NoteAnswer {
    type V = NoteAnswerView;

    open spec fn view(&self) -> NoteAnswerView {
        match self {
            NoteAnswer::Found(found) => NoteAnswerView::Found(view_of(*found)),
            NoteAnswer::Listed(notes) => NoteAnswerView::Listed(note_views(notes@)),
            NoteAnswer::Created(note) => NoteAnswerView::Created(note@),
            NoteAnswer::Updated(changed) => NoteAnswerView::Updated(view_of(*changed)),
            NoteAnswer::Deleted(rows) => NoteAnswerView::Deleted(*rows),
            NoteAnswer::Failed => NoteAnswerView::Failed,
        }
    }
}

impl NoteQuery {
    /// The listing of the notes of `user_id`. Without a limit it returns
    /// [`DEFAULT_LIMIT`] notes, without an offset it starts at the newest.
    pub fn get_user_notes(user_id: Uuid, limit: Option<i64>, offset: Option<i64>) -> (r: NoteQuery)
        ensures
            r == (NoteQuery::ListForUser {
                user_id,
                limit: limit.unwrap_or(DEFAULT_LIMIT),
                offset: offset.unwrap_or(0),
            }),
    {
        NoteQuery::ListForUser {
            user_id,
            limit: limit.unwrap_or(DEFAULT_LIMIT),
            offset: offset.unwrap_or(0),
        }
    }

    /// The search for `query` among the notes of `user_id`. Without a limit
    /// it returns [`DEFAULT_LIMIT`] notes.
    pub fn search_notes(user_id: Uuid, query: String, limit: Option<i64>) -> (r: NoteQuery)
        ensures
            r == (NoteQuery::Search { user_id, query, limit: limit.unwrap_or(DEFAULT_LIMIT) }),
    {
        NoteQuery::Search { user_id, query, limit: limit.unwrap_or(DEFAULT_LIMIT) }
    }

    /// The user on whose behalf the query is made.
    pub fn user_id(&self) -> (r: Uuid)
        ensures
            r == self@.owner(),
    {
        match self {
            NoteQuery::GetById { user_id, .. } => *user_id,
            NoteQuery::ListForUser { user_id, .. } => *user_id,
            NoteQuery::Search { user_id, .. } => *user_id,
            NoteQuery::Create(new_note) => new_note.user_id,
            NoteQuery::Update { user_id, .. } => *user_id,
            NoteQuery::Delete { user_id, .. } => *user_id,
        }
    }
}

/// The table's own rule: no two rows share an identifier.
pub open spec fn notes_distinct(table: Seq<NoteView>) -> bool {
    forall|i: int, j: int|
        0 <= i < table.len() && 0 <= j < table.len() && i != j ==> (#[trigger] table[i]).id != (
        #[trigger] table[j]).id
}

/// Whether `note` is the note `note_id` of the user `user_id`.
pub open spec fn is_owned(note: NoteView, note_id: Uuid, user_id: Uuid) -> bool {
    note.id == note_id && note.user_id == user_id
}

/// The row `note` after `changes`: a field that the update names is
/// replaced, the others stay, and the time of the change is the table's to
/// choose.
pub open spec fn is_changed(note: NoteView, changes: UpdateNoteView, changed: NoteView) -> bool {
    &&& changed.id == note.id
    &&& changed.user_id == note.user_id
    &&& changed.created_at == note.created_at
    &&& changed.title == match changes.title {
        Some(title) => title,
        None => note.title,
    }
    &&& changed.content == match changes.content {
        Some(content) => content,
        None => note.content,
    }
}

/// Whether each note of `listed` is a row of `table` that `user_id` owns,
/// and there are no more of them than `limit`.
pub open spec fn is_page(
    table: Seq<NoteView>,
    user_id: Uuid,
    limit: i64,
    listed: Seq<NoteView>,
) -> bool {
    &&& listed.len() <= limit || listed.len() == 0
    &&& forall|i: int|
        0 <= i < listed.len() ==> table.contains(#[trigger] listed[i]) && listed[i].user_id
            == user_id
}

impl NoteQueryView {
    /// The user on whose behalf the query is made.
    pub open spec fn owner(self) -> Uuid {
        match self {
            NoteQueryView::GetById { user_id, .. } => user_id,
            NoteQueryView::ListForUser { user_id, .. } => user_id,
            NoteQueryView::Search { user_id, .. } => user_id,
            NoteQueryView::Create(new_note) => new_note.user_id,
            NoteQueryView::Update { user_id, .. } => user_id,
            NoteQueryView::Delete { user_id, .. } => user_id,
        }
    }

    /// Whether a repository that holds `before` may give `answer` to this
    /// query and hold `after` from then on.
    ///
    /// A repository may always fail, and then changes nothing. Otherwise it
    /// reads, changes and deletes only rows that the query's user owns: a
    /// note of another user is, to this query, not there. Of a listing and
    /// of a search no more is relied on than that: which notes match, and
    /// the order they come in, are the repository's own matter.
    pub open spec fn admits(
        self,
        before: Seq<NoteView>,
        answer: NoteAnswerView,
        after: Seq<NoteView>,
    ) -> bool {
        if answer == NoteAnswerView::Failed {
            after == before
        } else {
            match self {
                NoteQueryView::GetById { note_id, user_id } => {
                    &&& after == before
                    &&& answer matches NoteAnswerView::Found(found)
                    &&& match found {
                        Some(note) => before.contains(note) && is_owned(note, note_id, user_id),
                        None => forall|i: int|
                            0 <= i < before.len() ==> !is_owned(
                                #[trigger] before[i],
                                note_id,
                                user_id,
                            ),
                    }
                },
                NoteQueryView::ListForUser { user_id, limit, offset } => {
                    &&& after == before
                    &&& answer matches NoteAnswerView::Listed(listed)
                    &&& is_page(before, user_id, limit, listed)
                },
                NoteQueryView::Search { user_id, query, limit } => {
                    &&& after == before
                    &&& answer matches NoteAnswerView::Listed(listed)
                    &&& is_page(before, user_id, limit, listed)
                },
                NoteQueryView::Create(new_note) => {
                    &&& answer matches NoteAnswerView::Created(note)
                    &&& note.user_id == new_note.user_id
                    &&& note.title == new_note.title
                    &&& note.content == new_note.content
                    &&& notes_distinct(before.push(note))
                    &&& after == before.push(note)
                },
                NoteQueryView::Update { note_id, user_id, changes } => {
                    &&& answer matches NoteAnswerView::Updated(changed)
                    &&& match changed {
                        Some(note) => exists|i: int|
                            {
                                &&& 0 <= i < before.len()
                                &&& is_owned(#[trigger] before[i], note_id, user_id)
                                &&& is_changed(before[i], changes, note)
                                &&& after == before.update(i, note)
                            },
                        None => {
                            &&& after == before
                            &&& forall|i: int|
                                0 <= i < before.len() ==> !is_owned(
                                    #[trigger] before[i],
                                    note_id,
                                    user_id,
                                )
                        },
                    }
                },
                NoteQueryView::Delete { note_id, user_id } => {
                    &&& answer matches NoteAnswerView::Deleted(rows)
                    &&& after == before.filter(|n: NoteView| !is_owned(n, note_id, user_id))
                    &&& rows == before.len() - after.len()
                },
            }
        }
    }
}

} // verus!
