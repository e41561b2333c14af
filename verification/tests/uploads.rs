use file_intake::file_allocator::{FileAllocator, FileState};
use file_intake::file_id::FileId;
use file_intake::ingest::{Action, Event, Ingestion, Outcome};
use file_intake::record::IndexedTag;
use file_intake::upload::{
    accept_upload, advance_upload, begin_upload, provision_file, reply_to_outcome,
    reply_to_rejection, Rejection, Reply,
};

const ABC_DIGEST: &str = "6437b3ac38465133ffb63b75273a8db548c558465d79db03fd359c6cd5bd9d85";

fn admitted(registry: &mut FileAllocator, id: FileId) -> Ingestion {
    match begin_upload(registry, &id.to_text(), false) {
        Ok((run, first)) => {
            assert_eq!(first, Action::NextField);
            run
        }
        Err(rejection) => panic!("rejected: {:?}", rejection),
    }
}

fn advance(registry: &mut FileAllocator, run: Ingestion, event: Event, expected: Action) -> Ingestion {
    let (run, action) = advance_upload(registry, run, event);
    assert_eq!(action, expected);
    run
}

fn tag_start(name: &str) -> Event {
    Event::Field { name: name.to_string(), filename: None }
}

#[test]
fn provisioning_answers_with_the_identifier() {
    let mut registry = FileAllocator::new();
    let reply = provision_file(&mut registry);
    assert_eq!(reply.status, 201);
    let id = FileId::parse_str(&reply.body).unwrap();
    assert_eq!(reply.body, id.to_text());
    assert_eq!(registry.state(&id), Some(FileState::Allocated));
}

#[test]
fn upload_to_a_provisioned_slot_is_admitted() {
    let mut registry = FileAllocator::new();
    let id = registry.allocate();
    let run = admitted(&mut registry, id);
    assert_eq!(run.id(), id);
    assert_eq!(run.outcome(), None);
    assert_eq!(registry.state(&id), Some(FileState::Uploading));
}

#[test]
fn upload_to_a_malformed_address_is_rejected() {
    let mut registry = FileAllocator::new();
    let id = registry.allocate();
    let rejected = begin_upload(&mut registry, "not-a-uuid", false);
    assert_eq!(rejected.err(), Some(Rejection::InvalidId));
    assert_eq!(registry.state(&id), Some(FileState::Allocated));
}

#[test]
fn upload_to_an_unknown_slot_is_rejected() {
    let mut registry = FileAllocator::new();
    let rejected = begin_upload(&mut registry, "550e8400-e29b-41d4-a716-446655440000", false);
    assert_eq!(rejected.err(), Some(Rejection::NotAccepting));
    let id = FileId { value: 0x550e8400e29b41d4a716446655440000 };
    assert_eq!(registry.state(&id), None);
}

#[test]
fn of_two_uploads_to_one_slot_one_is_admitted() {
    let mut registry = FileAllocator::new();
    let id = registry.allocate();
    let first = begin_upload(&mut registry, &id.to_text(), false);
    let second = begin_upload(&mut registry, &id.to_text(), false);
    assert!(first.is_ok());
    assert_eq!(second.err(), Some(Rejection::NotAccepting));
    assert_eq!(registry.state(&id), Some(FileState::Uploading));
}

#[test]
fn upload_of_abc_commits_and_releases_the_slot() {
    let mut registry = FileAllocator::new();
    let id = registry.allocate();
    let bystander = registry.allocate();
    let r = &mut registry;
    let run = admitted(r, id);
    let file = Event::Field { name: "file".to_string(), filename: Some("abc.txt".to_string()) };
    let run = advance(r, run, file, Action::CreateSink);
    let run = advance(r, run, Event::SinkReady, Action::NextChunk);
    let run = advance(r, run, Event::Chunk(b"abc".to_vec()), Action::Append(b"abc".to_vec()));
    let run = advance(r, run, Event::Appended, Action::NextChunk);
    let run = advance(r, run, Event::EndOfField, Action::Measure);
    let run = advance(r, run, Event::Measured(3), Action::ReadBack);
    let run = advance(r, run, Event::Persisted(b"abc".to_vec()), Action::ReadBack);
    // The clock is read on the spot: the answer is to go on with the request.
    let run = advance(r, run, Event::EndOfSink, Action::NextField);
    let run = advance(r, run, tag_start("env"), Action::NextChunk);
    let run = advance(r, run, Event::Chunk(b"prod".to_vec()), Action::NextChunk);
    let run = advance(r, run, Event::EndOfField, Action::NextField);
    assert_eq!(r.state(&id), Some(FileState::Uploading));

    let (run, action) = advance_upload(r, run, Event::EndOfStream);
    let record = match action {
        Action::Commit(record) => record,
        other => panic!("expected a commit, got {:?}", other),
    };
    assert_eq!(record.uuid, id.to_text());
    assert_eq!(record.name, "abc.txt");
    assert_eq!(record.size, 3);
    assert_eq!(record.hash, ABC_DIGEST);
    assert_eq!(record.mime, Some("text/plain".to_string()));
    assert!(record.indexed_at > 1_600_000_000_000);
    assert_eq!(
        record.tags,
        vec![IndexedTag { name: "env".to_string(), value: "prod".to_string() }]
    );
    assert_eq!(r.state(&id), Some(FileState::Uploading));

    let run = advance(r, run, Event::Committed, Action::Finish(Outcome::Stored));
    assert_eq!(run.outcome(), Some(Outcome::Stored));
    assert_eq!(r.state(&id), None);
    assert!(!r.mark_as_uploading(id));
    assert_eq!(begin_upload(r, &id.to_text(), false).err(), Some(Rejection::NotAccepting));
    assert_eq!(r.state(&bystander), Some(FileState::Allocated));
}

#[test]
fn request_of_tags_alone_releases_the_slot_without_a_commit() {
    let mut registry = FileAllocator::new();
    let id = registry.allocate();
    let r = &mut registry;
    let run = admitted(r, id);
    let run = advance(r, run, tag_start("env"), Action::NextChunk);
    let run = advance(r, run, Event::Chunk(b"prod".to_vec()), Action::NextChunk);
    let run = advance(r, run, Event::EndOfField, Action::NextField);
    let run = advance(r, run, tag_start("category"), Action::NextChunk);
    let run = advance(r, run, Event::EndOfField, Action::NextField);
    assert_eq!(r.state(&id), Some(FileState::Uploading));
    let run = advance(r, run, Event::EndOfStream, Action::Finish(Outcome::NoFile));
    assert_eq!(run.outcome(), Some(Outcome::NoFile));
    assert_eq!(r.state(&id), None);
}

#[test]
fn fault_releases_the_slot() {
    let mut registry = FileAllocator::new();
    let id = registry.allocate();
    let r = &mut registry;
    let run = admitted(r, id);
    let file = Event::Field { name: "file".to_string(), filename: Some("abc.txt".to_string()) };
    let run = advance(r, run, file, Action::CreateSink);
    let run = advance(r, run, Event::Fault, Action::Finish(Outcome::Failed));
    assert_eq!(run.outcome(), Some(Outcome::Failed));
    assert_eq!(r.state(&id), None);
}

#[test]
fn refused_record_releases_the_slot() {
    let mut registry = FileAllocator::new();
    let id = registry.allocate();
    let r = &mut registry;
    let run = admitted(r, id);
    let file = Event::Field { name: "file".to_string(), filename: Some("abc.txt".to_string()) };
    let run = advance(r, run, file, Action::CreateSink);
    let run = advance(r, run, Event::SinkReady, Action::NextChunk);
    let run = advance(r, run, Event::EndOfField, Action::Measure);
    let run = advance(r, run, Event::Measured(0), Action::ReadBack);
    let run = advance(r, run, Event::EndOfSink, Action::NextField);
    let (run, action) = advance_upload(r, run, Event::EndOfStream);
    assert!(matches!(action, Action::Commit(_)));
    assert_eq!(r.state(&id), Some(FileState::Uploading));
    let run = advance(r, run, Event::CommitFailed, Action::Finish(Outcome::CommitFailed));
    assert_eq!(run.outcome(), Some(Outcome::CommitFailed));
    assert_eq!(r.state(&id), None);
}

#[test]
fn events_after_the_end_leave_the_registry_alone() {
    let mut registry = FileAllocator::new();
    let id = FileId { value: 7 };
    let r = &mut registry;
    let (run, _) = Ingestion::begin(id, false);
    let run = advance(r, run, Event::EndOfStream, Action::Finish(Outcome::NoFile));
    // A slot under the same identifier that is provisioned afterwards is
    // not touched by the ingestion that is over.
    let other = r.allocate();
    let run = advance(r, run, Event::Fault, Action::Finish(Outcome::NoFile));
    assert_eq!(run.outcome(), Some(Outcome::NoFile));
    assert_eq!(r.state(&other), Some(FileState::Allocated));
}

#[test]
fn replies_to_rejections() {
    let expected = Reply { status: 400, body: "invalid uuid".to_string() };
    assert_eq!(reply_to_rejection(Rejection::InvalidId), expected);
    assert_eq!(reply_to_rejection(Rejection::NotAccepting), expected);
}

#[test]
fn replies_to_outcomes() {
    assert_eq!(reply_to_outcome(Outcome::Stored), Reply { status: 200, body: String::new() });
    assert_eq!(
        reply_to_outcome(Outcome::NoFile),
        Reply { status: 400, body: "no file uploaded".to_string() }
    );
    assert_eq!(reply_to_outcome(Outcome::Failed), Reply { status: 500, body: String::new() });
    assert_eq!(
        reply_to_outcome(Outcome::CommitFailed),
        Reply { status: 500, body: String::new() }
    );
}

#[test]
fn accepting_goes_by_the_identifier() {
    let mut registry = FileAllocator::new();
    let id = registry.allocate();
    assert_eq!(accept_upload(&mut registry, None, false).err(), Some(Rejection::InvalidId));
    assert_eq!(registry.state(&id), Some(FileState::Allocated));
    let unknown = FileId { value: id.value ^ 1 };
    let refused = accept_upload(&mut registry, Some(unknown), false);
    assert_eq!(refused.err(), Some(Rejection::NotAccepting));
    assert_eq!(registry.state(&unknown), None);
    let (run, first) = accept_upload(&mut registry, Some(id), true).unwrap();
    assert_eq!(first, Action::NextField);
    assert_eq!(run.id(), id);
    assert_eq!(registry.state(&id), Some(FileState::Uploading));
    assert_eq!(accept_upload(&mut registry, Some(id), true).err(), Some(Rejection::NotAccepting));
}
