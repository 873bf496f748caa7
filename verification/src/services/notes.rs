//! Reading and changing notes, each on behalf of one user.
//!
//! Every operation takes the caller's identifier and puts it into the query
//! it makes. A note that exists but belongs to somebody else is answered
//! like a note that does not exist.

use crate::models::notes::{NewNote, NewNoteView, NoteView, UpdateNote, UpdateNoteView, UserNotes};
use crate::models::responses::{note_views, Body, BodyView, Outcome, OutcomeView, Status};
use crate::repositories::notes::{
    is_owned, notes_distinct, NoteAnswer, NoteAnswerView, NoteQuery, NoteQueryView, DEFAULT_LIMIT,
};
use uuid::Uuid;
use vstd::prelude::*;

verus! {

/// What the service is waiting for.
#[derive(Debug, PartialEq, Eq)]
pub enum NoteFlow {
    /// A read waits for the note.
    Fetch,
    /// A listing waits for the notes.
    List,
    /// A search waits for the matches.
    Search,
    /// A creation waits for the new row.
    Create,
    /// An update waits to learn whether the caller owns the note.
    UpdateLookup { note_id: Uuid, user_id: Uuid, changes: UpdateNote },
    /// An update waits for the changed row.
    UpdateWrite,
    /// A deletion waits for the number of rows removed.
    Delete,
}

/// The contents of [`NoteFlow`], as mathematical values.
pub enum NoteFlowView {
    Fetch,
    List,
    Search,
    Create,
    UpdateLookup { note_id: Uuid, user_id: Uuid, changes: UpdateNoteView },
    UpdateWrite,
    Delete,
}

impl View for NoteFlow {
    type V = NoteFlowView;

    open spec fn view(&self) -> NoteFlowView {
        match self {
            NoteFlow::Fetch => NoteFlowView::Fetch,
            NoteFlow::List => NoteFlowView::List,
            NoteFlow::Search => NoteFlowView::Search,
            NoteFlow::Create => NoteFlowView::Create,
            NoteFlow::UpdateLookup { note_id, user_id, changes } => NoteFlowView::UpdateLookup {
                note_id: *note_id,
                user_id: *user_id,
                changes: changes@,
            },
            NoteFlow::UpdateWrite => NoteFlowView::UpdateWrite,
            NoteFlow::Delete => NoteFlowView::Delete,
        }
    }
}

/// One step of handling a request.
#[derive(Debug, PartialEq, Eq)]
pub enum NoteStep {
    /// Put the query to the repository and resume with its answer.
    Ask(NoteQuery, NoteFlow),
    /// The request is answered.
    Done(Outcome),
}

/// The contents of [`NoteStep`], as mathematical values.
pub enum NoteStepView {
    Ask(NoteQueryView, NoteFlowView),
    Done(OutcomeView),
}

impl View for NoteStep {
    type V = NoteStepView;

    open spec fn view(&self) -> NoteStepView {
        match self {
            NoteStep::Ask(query, flow) => NoteStepView::Ask(query@, flow@),
            NoteStep::Done(outcome) => NoteStepView::Done(outcome@),
        }
    }
}

impl NoteStepView {
    /// The step that answers with a message.
    pub open spec fn say(status: Status, text: Seq<char>) -> NoteStepView {
        NoteStepView::Done(OutcomeView::message(status, text))
    }

    /// The step that answers with a note.
    pub open spec fn show(status: Status, note: NoteView) -> NoteStepView {
        NoteStepView::Done(OutcomeView { status, body: BodyView::Note(note) })
    }
}

/// The answer to a request for a note that the caller does not own, or that
/// does not exist.
pub open spec fn not_found() -> NoteStepView {
    NoteStepView::say(Status::NotFound, "Note not found"@)
}

/// The answer to a request that the repository could not serve. It says
/// nothing of the reason.
pub open spec fn unavailable() -> NoteStepView {
    NoteStepView::say(Status::InternalServerError, "Internal server error"@)
}

/// The first step of a read: ask for the note, scoped to the caller.
pub open spec fn fetch_begun(user_id: Uuid, note_id: Uuid) -> NoteStepView {
    NoteStepView::Ask(NoteQueryView::GetById { note_id, user_id }, NoteFlowView::Fetch)
}

/// The first step of a listing: ask for a page of the caller's notes, with
/// the default limit and offset where the request names none.
pub open spec fn listing_begun(
    user_id: Uuid,
    limit: Option<i64>,
    offset: Option<i64>,
) -> NoteStepView {
    NoteStepView::Ask(
        NoteQueryView::ListForUser {
            user_id,
            limit: limit.unwrap_or(DEFAULT_LIMIT),
            offset: offset.unwrap_or(0),
        },
        NoteFlowView::List,
    )
}

/// The first step of a search: ask for the matches among the caller's
/// notes, with the default limit where the request names none.
pub open spec fn search_begun(user_id: Uuid, term: Seq<char>, limit: Option<i64>) -> NoteStepView {
    NoteStepView::Ask(
        NoteQueryView::Search { user_id, query: term, limit: limit.unwrap_or(DEFAULT_LIMIT) },
        NoteFlowView::Search,
    )
}

/// The first step of a creation: ask to insert the note.
pub open spec fn creation_begun(new_note: NewNoteView) -> NoteStepView {
    NoteStepView::Ask(NoteQueryView::Create(new_note), NoteFlowView::Create)
}

/// The first step of an update: ask whether the caller owns the note.
pub open spec fn update_begun(
    user_id: Uuid,
    note_id: Uuid,
    changes: UpdateNoteView,
) -> NoteStepView {
    NoteStepView::Ask(
        NoteQueryView::GetById { note_id, user_id },
        NoteFlowView::UpdateLookup { note_id, user_id, changes },
    )
}

/// The first step of a deletion: ask to delete the note, scoped to the
/// caller.
pub open spec fn deletion_begun(user_id: Uuid, note_id: Uuid) -> NoteStepView {
    NoteStepView::Ask(NoteQueryView::Delete { note_id, user_id }, NoteFlowView::Delete)
}

/// The step that follows `answer`.
pub open spec fn resumed(flow: NoteFlowView, answer: NoteAnswerView) -> NoteStepView {
    match (flow, answer) {
        (NoteFlowView::Fetch, NoteAnswerView::Found(Some(note))) => NoteStepView::show(
            Status::Success,
            note,
        ),
        (NoteFlowView::Fetch, NoteAnswerView::Found(None)) => not_found(),
        (NoteFlowView::List, NoteAnswerView::Listed(notes)) => NoteStepView::Done(
            OutcomeView { status: Status::Success, body: BodyView::UserNotes(notes) },
        ),
        (NoteFlowView::Search, NoteAnswerView::Listed(notes)) => NoteStepView::Done(
            OutcomeView { status: Status::Success, body: BodyView::Notes(notes) },
        ),
        (NoteFlowView::Create, NoteAnswerView::Created(note)) => NoteStepView::show(
            Status::Created,
            note,
        ),
        (
            NoteFlowView::UpdateLookup { note_id, user_id, changes },
            NoteAnswerView::Found(Some(_)),
        ) => NoteStepView::Ask(
            NoteQueryView::Update { note_id, user_id, changes },
            NoteFlowView::UpdateWrite,
        ),
        (NoteFlowView::UpdateLookup { .. }, NoteAnswerView::Found(None)) => not_found(),
        (NoteFlowView::UpdateWrite, NoteAnswerView::Updated(Some(note))) => NoteStepView::show(
            Status::Success,
            note,
        ),
        (NoteFlowView::UpdateWrite, NoteAnswerView::Updated(None)) => not_found(),
        (NoteFlowView::Delete, NoteAnswerView::Deleted(rows)) => if rows > 0 {
            NoteStepView::say(Status::NoContent, "Note deleted"@)
        } else {
            not_found()
        },
        _ => unavailable(),
    }
}

/// The rules for reading and changing notes.
#[derive(Clone, Copy, Debug, PartialEq, Eq, Structural)]
pub struct NoteService {}

impl NoteService {
    /// The service. It holds nothing: what it decides depends on what it is
    /// asked and told alone.
    pub fn new() -> (r: Self)
        ensures
            r == (NoteService {  }),
    {
        NoteService {  }
    }

    /// Begins a read of the note `note_id` on behalf of `user_id`.
    pub fn get_note_by_id(&self, user_id: Uuid, note_id: Uuid) -> (r: NoteStep)
        ensures
            r@ == fetch_begun(user_id, note_id),
    {
        NoteStep::Ask(NoteQuery::GetById { note_id, user_id }, NoteFlow::Fetch)
    }

    /// Begins a listing of the notes of `user_id`.
    pub fn get_users_notes(&self, user_id: Uuid, limit: Option<i64>, offset: Option<i64>) -> (r:
        NoteStep)
        ensures
            r@ == listing_begun(user_id, limit, offset),
    {
        NoteStep::Ask(NoteQuery::get_user_notes(user_id, limit, offset), NoteFlow::List)
    }

    /// Begins a search among the notes of `user_id`.
    pub fn search_notes(&self, user_id: Uuid, search_term: String, limit: Option<i64>) -> (r:
        NoteStep)
        ensures
            r@ == search_begun(user_id, search_term@, limit),
    {
        NoteStep::Ask(NoteQuery::search_notes(user_id, search_term, limit), NoteFlow::Search)
    }

    /// Begins the creation of `new_note`, which names its owner.
    pub fn create_note(&self, new_note: NewNote) -> (r: NoteStep)
        ensures
            r@ == creation_begun(new_note@),
    {
        NoteStep::Ask(NoteQuery::Create(new_note), NoteFlow::Create)
    }

    /// Begins an update of the note `note_id` on behalf of `user_id`: asks
    /// first whether the caller owns such a note.
    pub fn update_note(&self, user_id: Uuid, note_id: Uuid, updated_note: UpdateNote) -> (r:
        NoteStep)
        ensures
            r@ == update_begun(user_id, note_id, updated_note@),
    {
        NoteStep::Ask(
            NoteQuery::GetById { note_id, user_id },
            NoteFlow::UpdateLookup { note_id, user_id, changes: updated_note },
        )
    }

    /// Begins the deletion of the note `note_id` on behalf of `user_id`.
    pub fn delete_note(&self, user_id: Uuid, note_id: Uuid) -> (r: NoteStep)
        ensures
            r@ == deletion_begun(user_id, note_id),
    {
        NoteStep::Ask(NoteQuery::Delete { note_id, user_id }, NoteFlow::Delete)
    }

    /// Continues a request with the repository's answer.
    pub fn resume(&self, flow: NoteFlow, answer: NoteAnswer) -> (r: NoteStep)
        ensures
            r@ == resumed(flow@, answer@),
    {
        match flow {
            NoteFlow::Fetch => match answer {
                NoteAnswer::Found(Some(note)) => NoteStep::Done(
                    Outcome::note(Status::Success, note),
                ),
                NoteAnswer::Found(None) => say(Status::NotFound, "Note not found"),
                _ => say(Status::InternalServerError, "Internal server error"),
            },
            NoteFlow::List => match answer {
                NoteAnswer::Listed(notes) => NoteStep::Done(
                    Outcome { status: Status::Success, body: Body::UserNotes(UserNotes { notes }) },
                ),
                _ => say(Status::InternalServerError, "Internal server error"),
            },
            NoteFlow::Search => match answer {
                NoteAnswer::Listed(notes) => NoteStep::Done(
                    Outcome { status: Status::Success, body: Body::Notes(notes) },
                ),
                _ => say(Status::InternalServerError, "Internal server error"),
            },
            NoteFlow::Create => match answer {
                NoteAnswer::Created(note) => NoteStep::Done(Outcome::note(Status::Created, note)),
                _ => say(Status::InternalServerError, "Internal server error"),
            },
            NoteFlow::UpdateLookup { note_id, user_id, changes } => match answer {
                NoteAnswer::Found(Some(_)) => NoteStep::Ask(
                    NoteQuery::Update { note_id, user_id, changes },
                    NoteFlow::UpdateWrite,
                ),
                NoteAnswer::Found(None) => say(Status::NotFound, "Note not found"),
                _ => say(Status::InternalServerError, "Internal server error"),
            },
            NoteFlow::UpdateWrite => match answer {
                NoteAnswer::Updated(Some(note)) => NoteStep::Done(
                    Outcome::note(Status::Success, note),
                ),
                NoteAnswer::Updated(None) => say(Status::NotFound, "Note not found"),
                _ => say(Status::InternalServerError, "Internal server error"),
            },
            NoteFlow::Delete => match answer {
                NoteAnswer::Deleted(rows) => if rows > 0 {
                    say(Status::NoContent, "Note deleted")
                } else {
                    say(Status::NotFound, "Note not found")
                },
                _ => say(Status::InternalServerError, "Internal server error"),
            },
        }
    }
}

/// The step that answers with a message.
fn say(status: Status, text: &str) -> (r: NoteStep)
    ensures
        r@ == NoteStepView::say(status, text@),
{
    NoteStep::Done(Outcome::message(status, text))
}

/// A note can be read by its owner alone. Where `owner` has a note in the
/// table and another user asks for it by its identifier, the answer is that
/// there is no such note, as long as the repository answers at all.
pub proof fn foreign_note_is_not_found(
    table: Seq<NoteView>,
    note: NoteView,
    caller: Uuid,
    answer: NoteAnswerView,
)
    requires
        notes_distinct(table),
        table.contains(note),
        caller != note.user_id,
        (NoteQueryView::GetById { note_id: note.id, user_id: caller }).admits(table, answer, table),
        answer != NoteAnswerView::Failed,
    ensures
        answer == NoteAnswerView::Found(None),
        resumed(NoteFlowView::Fetch, answer) == not_found(),
{
    if let NoteAnswerView::Found(Some(other)) = answer {
        let i = choose|i: int| 0 <= i < table.len() && table[i] == note;
        let j = choose|j: int| 0 <= j < table.len() && table[j] == other;
        assert(table[i].id == table[j].id);
        assert(i == j);
    }
}

/// A note that was created on behalf of a user is owned by that user, and
/// the owner finds it under the identifier it was given.
pub proof fn created_note_belongs_to_caller(
    before: Seq<NoteView>,
    new_note: NewNoteView,
    note: NoteView,
    table: Seq<NoteView>,
    answer: NoteAnswerView,
)
    requires
        NoteQueryView::Create(new_note).admits(before, NoteAnswerView::Created(note), table),
        (NoteQueryView::GetById { note_id: note.id, user_id: new_note.user_id }).admits(
            table,
            answer,
            table,
        ),
        answer != NoteAnswerView::Failed,
    ensures
        note.user_id == new_note.user_id,
        answer == NoteAnswerView::Found(Some(note)),
        resumed(NoteFlowView::Fetch, answer) == NoteStepView::show(Status::Success, note),
{
    assert(table[before.len() as int] == note);
    match answer {
        NoteAnswerView::Found(Some(other)) => {
            let j = choose|j: int| 0 <= j < table.len() && table[j] == other;
            assert(table[j].id == table[before.len() as int].id);
            assert(j == before.len());
        },
        NoteAnswerView::Found(None) => {
            assert(is_owned(table[before.len() as int], note.id, new_note.user_id));
        },
        _ => {},
    }
}

/// A note can be changed or deleted by its owner alone. Where another user
/// asks to update or delete it, the table stays as it is and the answer is
/// that there is no such note.
pub proof fn foreign_note_is_untouched(
    table: Seq<NoteView>,
    note: NoteView,
    caller: Uuid,
    changes: UpdateNoteView,
    looked_up: NoteAnswerView,
    deleted: NoteAnswerView,
    after: Seq<NoteView>,
)
    requires
        notes_distinct(table),
        table.contains(note),
        caller != note.user_id,
        (NoteQueryView::GetById { note_id: note.id, user_id: caller }).admits(
            table,
            looked_up,
            table,
        ),
        looked_up != NoteAnswerView::Failed,
        (NoteQueryView::Delete { note_id: note.id, user_id: caller }).admits(table, deleted, after),
        deleted != NoteAnswerView::Failed,
    ensures
        resumed(
            (NoteFlowView::UpdateLookup { note_id: note.id, user_id: caller, changes }),
            looked_up,
        ) == not_found(),
        after == table,
        resumed(NoteFlowView::Delete, deleted) == not_found(),
{
    foreign_note_is_not_found(table, note, caller, looked_up);
    let kept = |n: NoteView| !is_owned(n, note.id, caller);
    assert forall|i: int| 0 <= i < table.len() implies kept(#[trigger] table[i]) by {
        let k = choose|k: int| 0 <= k < table.len() && table[k] == note;
        if table[i].id == note.id {
            assert(table[i].id == table[k].id);
            assert(i == k);
        }
    }
    filter_keeps_all(table, kept);
}

/// A listing and a search show notes of the caller alone: whatever the
/// repository holds, every note in the answer is one of its rows and belongs
/// to the user on whose behalf it was asked.
pub proof fn listings_show_own_notes(
    table: Seq<NoteView>,
    user_id: Uuid,
    limit: Option<i64>,
    offset: Option<i64>,
    term: Seq<char>,
    listed: NoteAnswerView,
    matched: NoteAnswerView,
)
    requires
        listing_begun(user_id, limit, offset) matches NoteStepView::Ask(query, _) && query.admits(
            table,
            listed,
            table,
        ),
        search_begun(user_id, term, limit) matches NoteStepView::Ask(query, _) && query.admits(
            table,
            matched,
            table,
        ),
        listed != NoteAnswerView::Failed,
        matched != NoteAnswerView::Failed,
    ensures
        resumed(NoteFlowView::List, listed) matches NoteStepView::Done(outcome) && {
            &&& outcome.status == Status::Success
            &&& outcome.body matches BodyView::UserNotes(notes)
            &&& forall|i: int|
                0 <= i < notes.len() ==> table.contains(#[trigger] notes[i]) && notes[i].user_id
                    == user_id
        },
        resumed(NoteFlowView::Search, matched) matches NoteStepView::Done(outcome) && {
            &&& outcome.status == Status::Success
            &&& outcome.body matches BodyView::Notes(notes)
            &&& forall|i: int|
                0 <= i < notes.len() ==> table.contains(#[trigger] notes[i]) && notes[i].user_id
                    == user_id
        },
{
}

/// Filtering a sequence by a condition that all its elements meet leaves it
/// as it is.
pub proof fn filter_keeps_all<T>(s: Seq<T>, kept: spec_fn(T) -> bool)
    requires
        forall|i: int| 0 <= i < s.len() ==> kept(#[trigger] s[i]),
    ensures
        s.filter(kept) == s,
    decreases s.len(),
{
    reveal(Seq::filter);
    if s.len() > 0 {
        filter_keeps_all(s.drop_last(), kept);
        assert(s.drop_last().push(s.last()) == s);
    }
}

} // verus!
