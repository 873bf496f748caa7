//! The handlers of the routes under `/notes`. All of them are protected:
//! they are called with the caller that the authentication gate resolved,
//! and whatever they ask of the repository is asked on that caller's behalf.

use crate::models::notes::{CreateNoteDto, NewNote, NewNoteView, QueryParams, UpdateNote};
use crate::models::users::AuthenticatedUser;
use crate::services::notes::{
    creation_begun, deletion_begun, fetch_begun, listing_begun, search_begun, update_begun,
    NoteService, NoteStep, NoteStepView,
};
use crate::utils::text::optional_text;
use uuid::Uuid;
use vstd::prelude::*;

verus! {

/// Whether `step` is a query on behalf of `user`.
pub open spec fn asks_for(step: NoteStepView, user: AuthenticatedUser) -> bool {
    step matches NoteStepView::Ask(query, _) && query.owner() == user.0
}

/// The first step of `GET /notes`: a search where the query string names a
/// search term, else a listing.
pub open spec fn notes_requested(
    user: AuthenticatedUser,
    limit: Option<i64>,
    offset: Option<i64>,
    search: Option<Seq<char>>,
) -> NoteStepView {
    match search {
        Some(term) => search_begun(user.0, term, limit),
        None => listing_begun(user.0, limit, offset),
    }
}

/// `GET /notes`: lists the caller's notes, or searches them.
pub fn get_notes(user: AuthenticatedUser, query: QueryParams, service: &NoteService) -> (r:
    NoteStep)
    ensures
        r@ == notes_requested(user, query.limit, query.offset, optional_text(query.search)),
        asks_for(r@, user),
{
    match query.search {
        Some(search_term) => service.search_notes(user.0, search_term, query.limit),
        None => service.get_users_notes(user.0, query.limit, query.offset),
    }
}

/// `GET /notes/{note_id}`: reads one of the caller's notes.
pub fn get_note(user: AuthenticatedUser, note_id: Uuid, service: &NoteService) -> (r: NoteStep)
    ensures
        r@ == fetch_begun(user.0, note_id),
        asks_for(r@, user),
{
    service.get_note_by_id(user.0, note_id)
}

/// `POST /notes`: creates a note. Its owner is the caller; the request's
/// body has no say in it.
pub fn create_note(user: AuthenticatedUser, payload: CreateNoteDto, service: &NoteService) -> (r:
    NoteStep)
    ensures
        r@ == creation_begun(
            (NewNoteView { user_id: user.0, title: payload.title@, content: payload.content@ }),
        ),
        asks_for(r@, user),
{
    let new_note = NewNote::new(user.0, payload.title, payload.content);
    service.create_note(new_note)
}

/// `PUT /notes/{note_id}`: changes one of the caller's notes.
pub fn update_note(
    user: AuthenticatedUser,
    note_id: Uuid,
    payload: UpdateNote,
    service: &NoteService,
) -> (r: NoteStep)
    ensures
        r@ == update_begun(user.0, note_id, payload@),
        asks_for(r@, user),
{
    service.update_note(user.0, note_id, payload)
}

/// `DELETE /notes/{note_id}`: deletes one of the caller's notes.
pub fn delete_note(user: AuthenticatedUser, note_id: Uuid, service: &NoteService) -> (r: NoteStep)
    ensures
        r@ == deletion_begun(user.0, note_id),
        asks_for(r@, user),
{
    service.delete_note(user.0, note_id)
}

} // verus!
