//! The ingestion of one upload request, as a machine that is driven by
//! events.
//!
//! The caller reads the request and the stored bytes and reports what it
//! found as an [`Event`]; the machine answers each event with the
//! [`Action`] that the caller has to carry out next. The first field that
//! carries a file name is stored, measured, read back and hashed; later
//! such fields are drained and dropped; every other field becomes a tag.
//!
//! For the first file the steps follow each other strictly: the sink is
//! created, each piece is written before the next one is read, the sink is
//! measured when the last piece is written, and only then is it read back
//! for the digest. The digest is that of the bytes that came back from the
//! sink, not of those that came with the request. When the request is
//! read, the record goes to the index with all tags, and whatever happens,
//! the last answer is to release the slot.

use vstd::prelude::*;
use blake3::Hasher;
use bytes::BytesMut;
use crate::digest::{absorbed, blake3_hex, hasher_hex, hasher_new, hasher_update};
use crate::file_id::FileId;
use crate::record::{
    describe_file, file_record, tag_views, text_view, IndexedFile, IndexedTag, RecordView, TagView,
};
use crate::tag_buffer::{
    buffer_bytes, buffer_extend, buffer_len, buffer_new, buffered, lossy_text, utf8_lossy,
};

verus! {

/// How the ingestion of a request ended.
#[derive(Clone, Copy, Debug, PartialEq, Eq, Hash, Structural)]
pub enum Outcome {
    /// The file is stored and its record is in the index.
    Stored,
    /// The request held no field with a file name.
    NoFile,
    /// Reading the request or the stored bytes, or writing them, failed, or
    /// the caller reported something that could not come next.
    Failed,
    /// The file is stored, but the index refused its record.
    CommitFailed,
}

/// What the caller found when it carried out the last action.
#[derive(Debug, PartialEq, Eq)]
pub enum Event {
    /// The request holds another field, with this name and, for a file,
    /// the file name that the client gave.
    Field { name: String, filename: Option<String> },
    /// The request holds no further field.
    EndOfStream,
    /// The sink is created and empty.
    SinkReady,
    /// The current field holds another piece of bytes.
    Chunk(Vec<u8>),
    /// The current field holds no further bytes.
    EndOfField,
    /// The bytes are written to the sink.
    Appended,
    /// The sink is closed and holds this many bytes.
    Measured(u64),
    /// The sink holds another piece of bytes, read back from it.
    Persisted(Vec<u8>),
    /// The sink holds no further bytes.
    EndOfSink,
    /// The time, in milliseconds since the Unix epoch.
    Clock(u64),
    /// The index took the record.
    Committed,
    /// The index refused the record.
    CommitFailed,
    /// The action failed.
    Fault,
}

/// What an event says.
pub enum EventView {
    Field { name: Seq<char>, filename: Option<Seq<char>> },
    EndOfStream,
    SinkReady,
    Chunk(Seq<u8>),
    EndOfField,
    Appended,
    Measured(u64),
    Persisted(Seq<u8>),
    EndOfSink,
    Clock(u64),
    Committed,
    CommitFailed,
    Fault,
}

impl View for Event {
    type V = EventView;

    open spec fn view(&self) -> EventView {
        match *self {
            Event::Field { name, filename } => EventView::Field {
                name: name@,
                filename: text_view(filename),
            },
            Event::EndOfStream => EventView::EndOfStream,
            Event::SinkReady => EventView::SinkReady,
            Event::Chunk(bytes) => EventView::Chunk(bytes@),
            Event::EndOfField => EventView::EndOfField,
            Event::Appended => EventView::Appended,
            Event::Measured(size) => EventView::Measured(size),
            Event::Persisted(bytes) => EventView::Persisted(bytes@),
            Event::EndOfSink => EventView::EndOfSink,
            Event::Clock(millis) => EventView::Clock(millis),
            Event::Committed => EventView::Committed,
            Event::CommitFailed => EventView::CommitFailed,
            Event::Fault => EventView::Fault,
        }
    }
}

/// What the caller has to do next. It reports what it found as the next
/// event, or `Event::Fault` where it failed.
#[derive(Debug, PartialEq, Eq)]
pub enum Action {
    /// Read on to the next field of the request.
    NextField,
    /// Create the sink of the slot, or empty it where it exists.
    CreateSink,
    /// Read the next piece of the current field.
    NextChunk,
    /// Write these bytes behind what the sink holds.
    Append(Vec<u8>),
    /// Close the sink and measure it.
    Measure,
    /// Read the next piece of the sink, from its start on.
    ReadBack,
    /// Read the clock.
    ReadClock,
    /// Put this record into the index, under its `uuid`.
    Commit(IndexedFile),
    /// Release the slot and answer the request: the ingestion is over.
    Finish(Outcome),
}

/// What an action says.
pub enum ActionView {
    NextField,
    CreateSink,
    NextChunk,
    Append(Seq<u8>),
    Measure,
    ReadBack,
    ReadClock,
    Commit(RecordView),
    Finish(Outcome),
}

impl View for Action {
    type V = ActionView;

    open spec fn view(&self) -> ActionView {
        match *self {
            Action::NextField => ActionView::NextField,
            Action::CreateSink => ActionView::CreateSink,
            Action::NextChunk => ActionView::NextChunk,
            Action::Append(bytes) => ActionView::Append(bytes@),
            Action::Measure => ActionView::Measure,
            Action::ReadBack => ActionView::ReadBack,
            Action::ReadClock => ActionView::ReadClock,
            Action::Commit(record) => ActionView::Commit(record@),
            Action::Finish(outcome) => ActionView::Finish(outcome),
        }
    }
}

/// Where an ingestion stands.
#[derive(Debug)]
enum Phase {
    AwaitingField,
    OpeningSink { filename: String },
    ReceivingFile { filename: String },
    Appending { filename: String },
    Measuring { filename: String },
    ReadingBack { filename: String, size: u64, hasher: Hasher },
    Stamping { filename: String, size: u64, hash: String },
    SkippingFile,
    ReceivingTag { name: String, value: BytesMut },
    Committing,
    Finished(Outcome),
}

/// Where an ingestion stands, and what it holds of the field it is at.
pub enum PhaseView {
    /// Between two fields.
    AwaitingField,
    /// At the first file, waiting for its sink.
    OpeningSink { filename: Seq<char> },
    /// At the first file, waiting for its next piece.
    ReceivingFile { filename: Seq<char> },
    /// At the first file, waiting for a piece to be written.
    Appending { filename: Seq<char> },
    /// The first file is written; waiting for its size.
    Measuring { filename: Seq<char> },
    /// Reading the stored bytes back; `digested` is what came back so far.
    ReadingBack { filename: Seq<char>, size: u64, digested: Seq<u8> },
    /// The digest is complete; waiting for the time.
    Stamping { filename: Seq<char>, size: u64, hash: Seq<char> },
    /// At a later file, which is dropped.
    SkippingFile,
    /// At a tag; `value` is what came of its value so far.
    ReceivingTag { name: Seq<char>, value: Seq<u8> },
    /// Waiting for the index.
    Committing,
    /// Over.
    Finished(Outcome),
}

impl View for Phase {
    type V = PhaseView;

    closed spec fn view(&self) -> PhaseView {
        match *self {
            Phase::AwaitingField => PhaseView::AwaitingField,
            Phase::OpeningSink { filename } => PhaseView::OpeningSink { filename: filename@ },
            Phase::ReceivingFile { filename } => PhaseView::ReceivingFile { filename: filename@ },
            Phase::Appending { filename } => PhaseView::Appending { filename: filename@ },
            Phase::Measuring { filename } => PhaseView::Measuring { filename: filename@ },
            Phase::ReadingBack { filename, size, hasher } => PhaseView::ReadingBack {
                filename: filename@,
                size,
                digested: absorbed(hasher),
            },
            Phase::Stamping { filename, size, hash } => PhaseView::Stamping {
                filename: filename@,
                size,
                hash: hash@,
            },
            Phase::SkippingFile => PhaseView::SkippingFile,
            Phase::ReceivingTag { name, value } => PhaseView::ReceivingTag {
                name: name@,
                value: buffered(value),
            },
            Phase::Committing => PhaseView::Committing,
            Phase::Finished(outcome) => PhaseView::Finished(outcome),
        }
    }
}

/// The ingestion of one upload request.
#[derive(Debug)]
pub struct Ingestion {
    id: FileId,
    windows_names: bool,
    phase: Phase,
    record: Option<IndexedFile>,
    tags: Vec<IndexedTag>,
}

/// What an ingestion has come to.
pub struct IngestionView {
    /// The slot that the upload goes to.
    pub id: u128,
    /// Whether display names follow the rules for Windows names too.
    pub windows_names: bool,
    /// Where the ingestion stands.
    pub phase: PhaseView,
    /// The record of the first file, once that file is stored and hashed.
    pub record: Option<RecordView>,
    /// The tags that have arrived, in the order of their arrival.
    pub tags: Seq<TagView>,
}

/// What an optional record says.
pub open spec fn record_view(record: Option<IndexedFile>) -> Option<RecordView> {
    match record {
        Some(record) => Some(record@),
        None => None,
    }
}

impl View for Ingestion {
    type V = IngestionView;

    closed spec fn view(&self) -> IngestionView {
        IngestionView {
            id: self.id.value,
            windows_names: self.windows_names,
            phase: self.phase@,
            record: record_view(self.record),
            tags: tag_views(self.tags@),
        }
    }
}

/// An ingestion that has seen nothing of its request yet.
pub open spec fn starting(id: u128, windows_names: bool) -> IngestionView {
    IngestionView {
        id,
        windows_names,
        phase: PhaseView::AwaitingField,
        record: None,
        tags: Seq::empty(),
    }
}

/// The ingestion at `phase`, otherwise as `s`.
pub open spec fn moved(s: IngestionView, phase: PhaseView) -> IngestionView {
    IngestionView { phase, ..s }
}

/// The ingestion given up, and the action that says so.
pub open spec fn given_up(s: IngestionView) -> (IngestionView, ActionView) {
    (moved(s, PhaseView::Finished(Outcome::Failed)), ActionView::Finish(Outcome::Failed))
}

/// What an event makes of an ingestion, and the action that answers it.
///
/// An event that cannot come next where the ingestion stands, a fault among
/// them, ends the ingestion as failed. So does a tag whose value would not
/// fit into memory. An ingestion that is over stays as it is.
pub open spec fn transition(s: IngestionView, event: EventView) -> (IngestionView, ActionView) {
    match (s.phase, event) {
        (PhaseView::AwaitingField, EventView::Field { filename: Some(filename), .. }) => {
            if s.record is Some {
                (moved(s, PhaseView::SkippingFile), ActionView::NextChunk)
            } else {
                (moved(s, PhaseView::OpeningSink { filename }), ActionView::CreateSink)
            }
        },
        (PhaseView::AwaitingField, EventView::Field { name, filename: None }) => (
            moved(s, PhaseView::ReceivingTag { name, value: Seq::empty() }),
            ActionView::NextChunk,
        ),
        (PhaseView::AwaitingField, EventView::EndOfStream) => match s.record {
            Some(record) => (
                IngestionView {
                    phase: PhaseView::Committing,
                    record: None,
                    tags: Seq::empty(),
                    ..s
                },
                ActionView::Commit(RecordView { tags: s.tags, ..record }),
            ),
            None => (
                moved(s, PhaseView::Finished(Outcome::NoFile)),
                ActionView::Finish(Outcome::NoFile),
            ),
        },
        (PhaseView::OpeningSink { filename }, EventView::SinkReady) => (
            moved(s, PhaseView::ReceivingFile { filename }),
            ActionView::NextChunk,
        ),
        (PhaseView::ReceivingFile { filename }, EventView::Chunk(bytes)) => (
            moved(s, PhaseView::Appending { filename }),
            ActionView::Append(bytes),
        ),
        (PhaseView::ReceivingFile { filename }, EventView::EndOfField) => (
            moved(s, PhaseView::Measuring { filename }),
            ActionView::Measure,
        ),
        (PhaseView::Appending { filename }, EventView::Appended) => (
            moved(s, PhaseView::ReceivingFile { filename }),
            ActionView::NextChunk,
        ),
        (PhaseView::Measuring { filename }, EventView::Measured(size)) => (
            moved(s, PhaseView::ReadingBack { filename, size, digested: Seq::empty() }),
            ActionView::ReadBack,
        ),
        (PhaseView::ReadingBack { filename, size, digested }, EventView::Persisted(bytes)) => (
            moved(s, PhaseView::ReadingBack { filename, size, digested: digested + bytes }),
            ActionView::ReadBack,
        ),
        (PhaseView::ReadingBack { filename, size, digested }, EventView::EndOfSink) => (
            moved(s, PhaseView::Stamping { filename, size, hash: blake3_hex(digested) }),
            ActionView::ReadClock,
        ),
        (PhaseView::Stamping { filename, size, hash }, EventView::Clock(millis)) => (
            IngestionView {
                phase: PhaseView::AwaitingField,
                record: Some(file_record(s.id, filename, size, hash, millis, s.windows_names)),
                ..s
            },
            ActionView::NextField,
        ),
        (PhaseView::SkippingFile, EventView::Chunk(_)) => (s, ActionView::NextChunk),
        (PhaseView::SkippingFile, EventView::EndOfField) => (
            moved(s, PhaseView::AwaitingField),
            ActionView::NextField,
        ),
        (PhaseView::ReceivingTag { name, value }, EventView::Chunk(bytes)) => {
            if value.len() + bytes.len() <= isize::MAX {
                (
                    moved(s, PhaseView::ReceivingTag { name, value: value + bytes }),
                    ActionView::NextChunk,
                )
            } else {
                given_up(s)
            }
        },
        (PhaseView::ReceivingTag { name, value }, EventView::EndOfField) => (
            IngestionView {
                phase: PhaseView::AwaitingField,
                tags: s.tags.push(TagView { name, value: utf8_lossy(value) }),
                ..s
            },
            ActionView::NextField,
        ),
        (PhaseView::Committing, EventView::Committed) => (
            moved(s, PhaseView::Finished(Outcome::Stored)),
            ActionView::Finish(Outcome::Stored),
        ),
        (PhaseView::Committing, EventView::CommitFailed) => (
            moved(s, PhaseView::Finished(Outcome::CommitFailed)),
            ActionView::Finish(Outcome::CommitFailed),
        ),
        (PhaseView::Finished(outcome), _) => (s, ActionView::Finish(outcome)),
        _ => given_up(s),
    }
}

impl Ingestion {
    /// Begins the ingestion of a request for the slot `id`. Display names
    /// follow the rules for Windows names too where `windows_names` is set.
    /// The first thing to do is to read on to the first field.
    pub fn begin(id: FileId, windows_names: bool) -> (first: (Ingestion, Action))
        ensures
            first.0@ == starting(id.value, windows_names),
            first.1@ == ActionView::NextField,
    {
        let run = Ingestion {
            id,
            windows_names,
            phase: Phase::AwaitingField,
            record: None,
            tags: Vec::new(),
        };
        assert(run@.tags =~= Seq::empty());
        (run, Action::NextField)
    }

    /// The slot that the upload goes to.
    pub fn id(&self) -> (id: FileId)
        ensures
            id.value == self@.id,
    {
        self.id
    }

    /// How the ingestion ended, or `None` while it is under way.
    pub fn outcome(&self) -> (outcome: Option<Outcome>)
        ensures
            outcome == (match self@.phase {
                PhaseView::Finished(outcome) => Some(outcome),
                _ => None,
            }),
    {
        match &self.phase {
            Phase::Finished(outcome) => Some(*outcome),
            _ => None,
        }
    }

    /// Ends the ingestion as failed.
    fn give_up(self) -> (next: (Ingestion, Action))
        ensures
            next.0@ == given_up(self@).0,
            next.1@ == given_up(self@).1,
    {
        let run = Ingestion {
            id: self.id,
            windows_names: self.windows_names,
            phase: Phase::Finished(Outcome::Failed),
            record: self.record,
            tags: self.tags,
        };
        (run, Action::Finish(Outcome::Failed))
    }

    /// The ingestion at `phase`, and `action` to answer the event.
    fn move_to(self, phase: Phase, action: Action) -> (next: (Ingestion, Action))
        ensures
            next.0@ == moved(self@, phase@),
            next.1@ == action@,
    {
        let run = Ingestion {
            id: self.id,
            windows_names: self.windows_names,
            phase,
            record: self.record,
            tags: self.tags,
        };
        (run, action)
    }

    /// Ends the field at hand and reads on to the next one.
    fn next_field(self) -> (next: (Ingestion, Action))
        ensures
            next.0@ == moved(self@, PhaseView::AwaitingField),
            next.1@ == ActionView::NextField,
    {
        self.move_to(Phase::AwaitingField, Action::NextField)
    }

    /// The request is read: hands the record out with the tags, or ends
    /// the ingestion where no file came.
    fn conclude(self) -> (next: (Ingestion, Action))
        requires
            self@.phase == PhaseView::AwaitingField,
        ensures
            next.0@ == transition(self@, EventView::EndOfStream).0,
            next.1@ == transition(self@, EventView::EndOfStream).1,
    {
        let Ingestion { id, windows_names, phase, record, tags } = self;
        match record {
            Some(record) => {
                let full = record.with_tags(tags);
                let run = Ingestion {
                    id,
                    windows_names,
                    phase: Phase::Committing,
                    record: None,
                    tags: Vec::new(),
                };
                assert(run@.tags =~= Seq::empty());
                (run, Action::Commit(full))
            },
            None => {
                let run = Ingestion { id, windows_names, phase, record: None, tags };
                run.move_to(Phase::Finished(Outcome::NoFile), Action::Finish(Outcome::NoFile))
            },
        }
    }

    /// Keeps the record of the file that is stored and hashed.
    fn keep_record(self, record: IndexedFile) -> (next: (Ingestion, Action))
        ensures
            next.0@ == (IngestionView {
                phase: PhaseView::AwaitingField,
                record: Some(record@),
                ..self@
            }),
            next.1@ == ActionView::NextField,
    {
        let run = Ingestion {
            id: self.id,
            windows_names: self.windows_names,
            phase: Phase::AwaitingField,
            record: Some(record),
            tags: self.tags,
        };
        (run, Action::NextField)
    }

    /// Keeps a tag behind those that came before it.
    fn keep_tag(self, tag: IndexedTag) -> (next: (Ingestion, Action))
        ensures
            next.0@ == (IngestionView {
                phase: PhaseView::AwaitingField,
                tags: self@.tags.push(tag@),
                ..self@
            }),
            next.1@ == ActionView::NextField,
    {
        let ghost before = self.tags@;
        let mut tags = self.tags;
        tags.push(tag);
        assert(tag_views(tags@) =~= tag_views(before).push(tag@));
        let run = Ingestion {
            id: self.id,
            windows_names: self.windows_names,
            phase: Phase::AwaitingField,
            record: self.record,
            tags,
        };
        (run, Action::NextField)
    }

    /// Takes an event in: returns what the ingestion has come to, and the
    /// action that the caller has to carry out next.
    pub fn step(self, event: Event) -> (next: (Ingestion, Action))
        ensures
            next.0@ == transition(self@, event@).0,
            next.1@ == transition(self@, event@).1,
    {
        let Ingestion { id, windows_names, phase, record, tags } = self;
        let run = Ingestion { id, windows_names, phase: Phase::AwaitingField, record, tags };
        match phase {
            Phase::AwaitingField => match event {
                Event::Field { filename: Some(filename), .. } => {
                    if run.record.is_some() {
                        run.move_to(Phase::SkippingFile, Action::NextChunk)
                    } else {
                        run.move_to(Phase::OpeningSink { filename }, Action::CreateSink)
                    }
                },
                Event::Field { name, filename: None } => {
                    run.move_to(Phase::ReceivingTag { name, value: buffer_new() }, Action::NextChunk)
                },
                Event::EndOfStream => run.conclude(),
                _ => run.give_up(),
            },
            Phase::OpeningSink { filename } => match event {
                Event::SinkReady => run.move_to(Phase::ReceivingFile { filename }, Action::NextChunk),
                _ => run.give_up(),
            },
            Phase::ReceivingFile { filename } => match event {
                Event::Chunk(bytes) => run.move_to(Phase::Appending { filename }, Action::Append(bytes)),
                Event::EndOfField => run.move_to(Phase::Measuring { filename }, Action::Measure),
                _ => run.give_up(),
            },
            Phase::Appending { filename } => match event {
                Event::Appended => run.move_to(Phase::ReceivingFile { filename }, Action::NextChunk),
                _ => run.give_up(),
            },
            Phase::Measuring { filename } => match event {
                Event::Measured(size) => run.move_to(
                    Phase::ReadingBack { filename, size, hasher: hasher_new() },
                    Action::ReadBack,
                ),
                _ => run.give_up(),
            },
            Phase::ReadingBack { filename, size, hasher } => match event {
                Event::Persisted(bytes) => {
                    let mut hasher = hasher;
                    hasher_update(&mut hasher, bytes.as_slice());
                    run.move_to(Phase::ReadingBack { filename, size, hasher }, Action::ReadBack)
                },
                Event::EndOfSink => {
                    let hash = hasher_hex(&hasher);
                    run.move_to(Phase::Stamping { filename, size, hash }, Action::ReadClock)
                },
                _ => run.give_up(),
            },
            Phase::Stamping { filename, size, hash } => match event {
                Event::Clock(millis) => {
                    let record = describe_file(
                        run.id,
                        filename.as_str(),
                        size,
                        hash,
                        millis,
                        run.windows_names,
                    );
                    run.keep_record(record)
                },
                _ => run.give_up(),
            },
            Phase::SkippingFile => match event {
                Event::Chunk(_) => run.move_to(Phase::SkippingFile, Action::NextChunk),
                Event::EndOfField => run.next_field(),
                _ => run.give_up(),
            },
            Phase::ReceivingTag { name, value } => match event {
                Event::Chunk(bytes) => {
                    let held: usize = buffer_len(&value);
                    let limit: usize = isize::MAX as usize;
                    if held <= limit && bytes.len() <= limit - held {
                        let mut value = value;
                        buffer_extend(&mut value, bytes.as_slice());
                        run.move_to(Phase::ReceivingTag { name, value }, Action::NextChunk)
                    } else {
                        run.give_up()
                    }
                },
                Event::EndOfField => {
                    let tag = IndexedTag { name, value: lossy_text(buffer_bytes(&value)) };
                    run.keep_tag(tag)
                },
                _ => run.give_up(),
            },
            Phase::Committing => match event {
                Event::Committed => run.move_to(
                    Phase::Finished(Outcome::Stored),
                    Action::Finish(Outcome::Stored),
                ),
                Event::CommitFailed => run.move_to(
                    Phase::Finished(Outcome::CommitFailed),
                    Action::Finish(Outcome::CommitFailed),
                ),
                _ => run.give_up(),
            },
            Phase::Finished(outcome) => run.move_to(Phase::Finished(outcome), Action::Finish(outcome)),
        }
    }
}

} // verus!
