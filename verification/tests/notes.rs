use notes_api::controllers::notes::{create_note, delete_note, get_note, get_notes, update_note};
use notes_api::models::notes::{CreateNoteDto, NewNote, Note, QueryParams, UpdateNote, UserNotes};
use notes_api::models::responses::{Body, Outcome, Status};
use notes_api::models::users::AuthenticatedUser;
use notes_api::models::Timestamp;
use notes_api::repositories::notes::{NoteAnswer, NoteQuery, DEFAULT_LIMIT};
use notes_api::services::notes::{NoteFlow, NoteService, NoteStep};
use uuid::Uuid;

fn id(n: u128) -> Uuid {
    Uuid::from_u128(n)
}

fn note(note_id: u128, owner: u128, title: &str, created: i64) -> Note {
    Note {
        id: id(note_id),
        user_id: id(owner),
        title: title.to_string(),
        content: format!("content of {}", title),
        created_at: Timestamp { seconds: created, nanos: 0 },
        updated_at: Timestamp { seconds: created, nanos: 0 },
    }
}

fn said(status: Status, text: &str) -> NoteStep {
    NoteStep::Done(Outcome { status, body: Body::Message(text.to_string()) })
}

fn not_found() -> NoteStep {
    said(Status::NotFound, "Note not found")
}

fn unavailable() -> NoteStep {
    said(Status::InternalServerError, "Internal server error")
}

/// A table of notes that answers queries as a repository has to.
fn answer(table: &mut Vec<Note>, query: NoteQuery, fresh: u128) -> NoteAnswer {
    match query {
        NoteQuery::GetById { note_id, user_id } => NoteAnswer::Found(
            table.iter().find(|n| n.id == note_id && n.user_id == user_id).cloned(),
        ),
        NoteQuery::ListForUser { user_id, limit, offset } => {
            let mut own: Vec<Note> =
                table.iter().filter(|n| n.user_id == user_id).cloned().collect();
            own.sort_by(|a, b| b.created_at.seconds.cmp(&a.created_at.seconds));
            NoteAnswer::Listed(
                own.into_iter().skip(offset as usize).take(limit as usize).collect(),
            )
        }
        NoteQuery::Search { user_id, query, limit } => NoteAnswer::Listed(
            table
                .iter()
                .filter(|n| n.user_id == user_id && n.title.contains(&query))
                .take(limit as usize)
                .cloned()
                .collect(),
        ),
        NoteQuery::Create(new_note) => {
            let created = Note {
                id: id(fresh),
                user_id: new_note.user_id,
                title: new_note.title,
                content: new_note.content,
                created_at: Timestamp { seconds: fresh as i64, nanos: 0 },
                updated_at: Timestamp { seconds: fresh as i64, nanos: 0 },
            };
            table.push(created.clone());
            NoteAnswer::Created(created)
        }
        NoteQuery::Update { note_id, user_id, changes } => {
            match table.iter_mut().find(|n| n.id == note_id && n.user_id == user_id) {
                Some(found) => {
                    if let Some(title) = changes.title {
                        found.title = title;
                    }
                    if let Some(content) = changes.content {
                        found.content = content;
                    }
                    NoteAnswer::Updated(Some(found.clone()))
                }
                None => NoteAnswer::Updated(None),
            }
        }
        NoteQuery::Delete { note_id, user_id } => {
            let before = table.len();
            table.retain(|n| !(n.id == note_id && n.user_id == user_id));
            NoteAnswer::Deleted((before - table.len()) as u64)
        }
    }
}

fn drive(table: &mut Vec<Note>, first: NoteStep, fresh: u128) -> Outcome {
    let service = NoteService::new();
    let mut step = first;
    loop {
        match step {
            NoteStep::Ask(query, flow) => {
                let reply = answer(table, query, fresh);
                step = service.resume(flow, reply);
            }
            NoteStep::Done(outcome) => return outcome,
        }
    }
}

#[test]
fn read_asks_for_the_note_scoped_to_the_caller() {
    let service = NoteService::new();
    assert_eq!(
        service.get_note_by_id(id(1), id(100)),
        NoteStep::Ask(NoteQuery::GetById { note_id: id(100), user_id: id(1) }, NoteFlow::Fetch)
    );
}

#[test]
fn read_answers() {
    let service = NoteService::new();
    let n = note(100, 1, "first", 10);
    assert_eq!(
        service.resume(NoteFlow::Fetch, NoteAnswer::Found(Some(n.clone()))),
        NoteStep::Done(Outcome { status: Status::Success, body: Body::Note(n) })
    );
    assert_eq!(service.resume(NoteFlow::Fetch, NoteAnswer::Found(None)), not_found());
    assert_eq!(service.resume(NoteFlow::Fetch, NoteAnswer::Failed), unavailable());
    assert_eq!(service.resume(NoteFlow::Fetch, NoteAnswer::Deleted(1)), unavailable());
}

#[test]
fn other_users_note_is_not_found() {
    let mut table = Vec::new();
    let alice = AuthenticatedUser(id(1));
    let bob = AuthenticatedUser(id(2));
    let service = NoteService::new();
    let created = drive(
        &mut table,
        create_note(
            alice,
            CreateNoteDto { title: "secret".to_string(), content: "of alice".to_string() },
            &service,
        ),
        100,
    );
    assert_eq!(created.status, Status::Created);
    let note_id = match created.body {
        Body::Note(n) => {
            assert_eq!(n.user_id, id(1));
            n.id
        }
        other => panic!("unexpected body {:?}", other),
    };
    let for_bob = drive(&mut table, get_note(bob, note_id, &service), 0);
    assert_eq!(
        for_bob,
        Outcome { status: Status::NotFound, body: Body::Message("Note not found".to_string()) }
    );
    let for_alice = drive(&mut table, get_note(alice, note_id, &service), 0);
    assert_eq!(for_alice.status, Status::Success);
    assert_eq!(for_alice.body, Body::Note(table[0].clone()));
}

#[test]
fn other_users_note_cannot_be_changed_or_deleted() {
    let mut table = vec![note(100, 1, "secret", 10)];
    let bob = AuthenticatedUser(id(2));
    let service = NoteService::new();
    let changed = drive(
        &mut table,
        update_note(bob, id(100), UpdateNote::new().with_title("mine".to_string()), &service),
        0,
    );
    assert_eq!(changed.status, Status::NotFound);
    let deleted = drive(&mut table, delete_note(bob, id(100), &service), 0);
    assert_eq!(deleted.status, Status::NotFound);
    assert_eq!(table, vec![note(100, 1, "secret", 10)]);
}

#[test]
fn listing_uses_defaults_and_wraps_the_notes() {
    let service = NoteService::new();
    assert_eq!(DEFAULT_LIMIT, 50);
    assert_eq!(
        service.get_users_notes(id(1), None, None),
        NoteStep::Ask(
            NoteQuery::ListForUser { user_id: id(1), limit: 50, offset: 0 },
            NoteFlow::List,
        )
    );
    assert_eq!(
        service.get_users_notes(id(1), Some(5), Some(10)),
        NoteStep::Ask(
            NoteQuery::ListForUser { user_id: id(1), limit: 5, offset: 10 },
            NoteFlow::List,
        )
    );
    let notes = vec![note(101, 1, "b", 20), note(100, 1, "a", 10)];
    assert_eq!(
        service.resume(NoteFlow::List, NoteAnswer::Listed(notes.clone())),
        NoteStep::Done(Outcome {
            status: Status::Success,
            body: Body::UserNotes(UserNotes { notes }),
        })
    );
    assert_eq!(service.resume(NoteFlow::List, NoteAnswer::Failed), unavailable());
}

#[test]
fn search_uses_the_default_limit_and_returns_the_list() {
    let service = NoteService::new();
    assert_eq!(
        service.search_notes(id(1), "milk".to_string(), None),
        NoteStep::Ask(
            NoteQuery::Search { user_id: id(1), query: "milk".to_string(), limit: 50 },
            NoteFlow::Search,
        )
    );
    assert_eq!(
        service.search_notes(id(1), "milk".to_string(), Some(3)),
        NoteStep::Ask(
            NoteQuery::Search { user_id: id(1), query: "milk".to_string(), limit: 3 },
            NoteFlow::Search,
        )
    );
    let notes = vec![note(100, 1, "buy milk", 10)];
    assert_eq!(
        service.resume(NoteFlow::Search, NoteAnswer::Listed(notes.clone())),
        NoteStep::Done(Outcome { status: Status::Success, body: Body::Notes(notes) })
    );
    assert_eq!(service.resume(NoteFlow::Search, NoteAnswer::Found(None)), unavailable());
}

#[test]
fn repository_defaults() {
    assert_eq!(
        NoteQuery::get_user_notes(id(1), None, Some(7)),
        NoteQuery::ListForUser { user_id: id(1), limit: 50, offset: 7 }
    );
    assert_eq!(
        NoteQuery::get_user_notes(id(1), Some(-1), None),
        NoteQuery::ListForUser { user_id: id(1), limit: -1, offset: 0 }
    );
    assert_eq!(
        NoteQuery::search_notes(id(1), "x".to_string(), None),
        NoteQuery::Search { user_id: id(1), query: "x".to_string(), limit: 50 }
    );
}

#[test]
fn every_query_names_its_user() {
    let queries = [
        NoteQuery::GetById { note_id: id(100), user_id: id(1) },
        NoteQuery::ListForUser { user_id: id(1), limit: 50, offset: 0 },
        NoteQuery::Search { user_id: id(1), query: "x".to_string(), limit: 50 },
        NoteQuery::Create(NewNote::new(id(1), "t".to_string(), "c".to_string())),
        NoteQuery::Update { note_id: id(100), user_id: id(1), changes: UpdateNote::new() },
        NoteQuery::Delete { note_id: id(100), user_id: id(1) },
    ];
    for query in queries {
        assert_eq!(query.user_id(), id(1));
    }
}

#[test]
fn creation_stamps_the_caller() {
    let service = NoteService::new();
    let step = create_note(
        AuthenticatedUser(id(1)),
        CreateNoteDto { title: "t".to_string(), content: "c".to_string() },
        &service,
    );
    assert_eq!(
        step,
        NoteStep::Ask(
            NoteQuery::Create(NewNote {
                user_id: id(1),
                title: "t".to_string(),
                content: "c".to_string(),
            }),
            NoteFlow::Create,
        )
    );
    let n = note(100, 1, "t", 10);
    assert_eq!(
        service.resume(NoteFlow::Create, NoteAnswer::Created(n.clone())),
        NoteStep::Done(Outcome { status: Status::Created, body: Body::Note(n) })
    );
    assert_eq!(service.resume(NoteFlow::Create, NoteAnswer::Failed), unavailable());
}

#[test]
fn update_looks_the_note_up_first() {
    let service = NoteService::new();
    let changes = UpdateNote::new().with_title("new".to_string());
    let step = service.update_note(id(1), id(100), UpdateNote::new().with_title("new".to_string()));
    assert_eq!(
        step,
        NoteStep::Ask(
            NoteQuery::GetById { note_id: id(100), user_id: id(1) },
            NoteFlow::UpdateLookup {
                note_id: id(100),
                user_id: id(1),
                changes: UpdateNote::new().with_title("new".to_string()),
            },
        )
    );
    let flow = || NoteFlow::UpdateLookup {
        note_id: id(100),
        user_id: id(1),
        changes: UpdateNote::new().with_title("new".to_string()),
    };
    assert_eq!(
        service.resume(flow(), NoteAnswer::Found(Some(note(100, 1, "old", 10)))),
        NoteStep::Ask(
            NoteQuery::Update { note_id: id(100), user_id: id(1), changes },
            NoteFlow::UpdateWrite,
        )
    );
    assert_eq!(service.resume(flow(), NoteAnswer::Found(None)), not_found());
    assert_eq!(service.resume(flow(), NoteAnswer::Failed), unavailable());
}

#[test]
fn update_answers() {
    let service = NoteService::new();
    let n = note(100, 1, "new", 10);
    assert_eq!(
        service.resume(NoteFlow::UpdateWrite, NoteAnswer::Updated(Some(n.clone()))),
        NoteStep::Done(Outcome { status: Status::Success, body: Body::Note(n) })
    );
    assert_eq!(service.resume(NoteFlow::UpdateWrite, NoteAnswer::Updated(None)), not_found());
    assert_eq!(service.resume(NoteFlow::UpdateWrite, NoteAnswer::Failed), unavailable());
}

#[test]
fn update_changes_only_the_named_fields() {
    let mut table = vec![note(100, 1, "old", 10)];
    let service = NoteService::new();
    let outcome = drive(
        &mut table,
        update_note(
            AuthenticatedUser(id(1)),
            id(100),
            UpdateNote::new().with_title("new".to_string()),
            &service,
        ),
        0,
    );
    assert_eq!(outcome.status, Status::Success);
    match outcome.body {
        Body::Note(n) => {
            assert_eq!(n.title, "new");
            assert_eq!(n.content, "content of old");
        }
        other => panic!("unexpected body {:?}", other),
    }
}

#[test]
fn delete_answers_by_the_number_of_rows() {
    let service = NoteService::new();
    assert_eq!(
        service.delete_note(id(1), id(100)),
        NoteStep::Ask(NoteQuery::Delete { note_id: id(100), user_id: id(1) }, NoteFlow::Delete)
    );
    assert_eq!(
        service.resume(NoteFlow::Delete, NoteAnswer::Deleted(1)),
        said(Status::NoContent, "Note deleted")
    );
    assert_eq!(
        service.resume(NoteFlow::Delete, NoteAnswer::Deleted(2)),
        said(Status::NoContent, "Note deleted")
    );
    assert_eq!(service.resume(NoteFlow::Delete, NoteAnswer::Deleted(0)), not_found());
    assert_eq!(service.resume(NoteFlow::Delete, NoteAnswer::Failed), unavailable());
}

#[test]
fn get_notes_searches_when_a_term_is_given() {
    let service = NoteService::new();
    let user = AuthenticatedUser(id(1));
    assert_eq!(
        get_notes(
            user,
            QueryParams { limit: Some(5), offset: Some(2), search: Some("milk".to_string()) },
            &service,
        ),
        NoteStep::Ask(
            NoteQuery::Search { user_id: id(1), query: "milk".to_string(), limit: 5 },
            NoteFlow::Search,
        )
    );
    assert_eq!(
        get_notes(user, QueryParams { limit: Some(5), offset: Some(2), search: None }, &service),
        NoteStep::Ask(
            NoteQuery::ListForUser { user_id: id(1), limit: 5, offset: 2 },
            NoteFlow::List,
        )
    );
    assert_eq!(
        get_notes(user, QueryParams { limit: None, offset: None, search: None }, &service),
        NoteStep::Ask(
            NoteQuery::ListForUser { user_id: id(1), limit: 50, offset: 0 },
            NoteFlow::List,
        )
    );
}

#[test]
fn listing_shows_only_the_callers_notes() {
    let mut table =
        vec![note(100, 1, "a", 10), note(101, 2, "b", 20), note(102, 1, "c", 30)];
    let service = NoteService::new();
    let outcome = drive(
        &mut table,
        get_notes(
            AuthenticatedUser(id(1)),
            QueryParams { limit: None, offset: None, search: None },
            &service,
        ),
        0,
    );
    assert_eq!(
        outcome,
        Outcome {
            status: Status::Success,
            body: Body::UserNotes(UserNotes {
                notes: vec![note(102, 1, "c", 30), note(100, 1, "a", 10)],
            }),
        }
    );
}

#[test]
fn note_builders() {
    assert_eq!(
        NewNote::new(id(1), "t".to_string(), "c".to_string()),
        NewNote { user_id: id(1), title: "t".to_string(), content: "c".to_string() }
    );
    assert_eq!(UpdateNote::new(), UpdateNote { title: None, content: None });
    assert_eq!(
        UpdateNote::new().with_title("t".to_string()),
        UpdateNote { title: Some("t".to_string()), content: None }
    );
    assert_eq!(
        UpdateNote::new().with_content("".to_string()).with_title("t".to_string()),
        UpdateNote { title: Some("t".to_string()), content: Some("".to_string()) }
    );
}
