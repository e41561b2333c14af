//! Whole runs of events, and what an ingestion makes of them.

use vstd::prelude::*;
use crate::digest::blake3_hex;
use crate::ingest::{
    moved, starting, transition, ActionView, EventView, IngestionView, Outcome, PhaseView,
};
use crate::record::{file_record, RecordView, TagView};
use crate::tag_buffer::utf8_lossy;

verus! {

/// What an ingestion has come to after `events`, one after the other.
pub open spec fn run(s: IngestionView, events: Seq<EventView>) -> IngestionView
    decreases events.len(),
{
    if events.len() == 0 {
        s
    } else {
        transition(run(s, events.drop_last()), events.last()).0
    }
}

/// The action that answers event number `i` of `events`.
pub open spec fn answer(s: IngestionView, events: Seq<EventView>, i: int) -> ActionView {
    transition(run(s, events.take(i)), events[i]).1
}

/// The bytes of some pieces, one piece behind the other.
pub open spec fn joined(pieces: Seq<Seq<u8>>) -> Seq<u8>
    decreases pieces.len(),
{
    if pieces.len() == 0 {
        Seq::empty()
    } else {
        joined(pieces.drop_last()) + pieces.last()
    }
}

/// The events of a field's pieces as they are read from the request.
pub open spec fn chunk_events(pieces: Seq<Seq<u8>>) -> Seq<EventView> {
    pieces.map_values(|piece: Seq<u8>| EventView::Chunk(piece))
}

/// The events of a file's pieces as they are read from the request and
/// written to the sink, piece by piece.
pub open spec fn written_events(pieces: Seq<Seq<u8>>) -> Seq<EventView>
    decreases pieces.len(),
{
    if pieces.len() == 0 {
        Seq::empty()
    } else {
        written_events(pieces.drop_last()) + seq![
            EventView::Chunk(pieces.last()),
            EventView::Appended,
        ]
    }
}

/// The events of the sink's pieces as they are read back.
pub open spec fn persisted_events(pieces: Seq<Seq<u8>>) -> Seq<EventView> {
    pieces.map_values(|piece: Seq<u8>| EventView::Persisted(piece))
}

/// A field without a file name, as it arrives: its name, and its value in
/// pieces.
pub struct TagField {
    pub name: Seq<char>,
    pub pieces: Seq<Seq<u8>>,
}

/// The tag that a field without a file name stands for.
pub open spec fn tag_of(field: TagField) -> TagView {
    TagView { name: field.name, value: utf8_lossy(joined(field.pieces)) }
}

/// The tags that some fields stand for, in their order.
pub open spec fn tags_of(fields: Seq<TagField>) -> Seq<TagView> {
    fields.map_values(|field: TagField| tag_of(field))
}

/// Whether the value of each of the fields fits into memory.
pub open spec fn values_fit(fields: Seq<TagField>) -> bool {
    forall|i: int| 0 <= i < fields.len() ==> joined(#[trigger] fields[i].pieces).len() <= isize::MAX
}

/// The events of a field without a file name.
pub open spec fn tag_field_events(field: TagField) -> Seq<EventView> {
    seq![EventView::Field { name: field.name, filename: None }] + chunk_events(field.pieces)
        + seq![EventView::EndOfField]
}

/// The events of some fields without a file name, one field after the
/// other.
pub open spec fn tag_fields_events(fields: Seq<TagField>) -> Seq<EventView>
    decreases fields.len(),
{
    if fields.len() == 0 {
        Seq::empty()
    } else {
        tag_fields_events(fields.drop_last()) + tag_field_events(fields.last())
    }
}

/// A field with a file name, as it arrives and is stored: the pieces that
/// are written, the size that the sink then has, the pieces that are read
/// back from it, and the time when they are all read.
pub struct FileField {
    pub name: Seq<char>,
    pub filename: Seq<char>,
    pub written: Seq<Seq<u8>>,
    pub size: u64,
    pub read_back: Seq<Seq<u8>>,
    pub millis: u64,
}

/// The events of a field with a file name that is stored.
pub open spec fn file_field_events(field: FileField) -> Seq<EventView> {
    seq![
        EventView::Field { name: field.name, filename: Some(field.filename) },
        EventView::SinkReady,
    ] + written_events(field.written) + seq![
        EventView::EndOfField,
        EventView::Measured(field.size),
    ] + persisted_events(field.read_back) + seq![
        EventView::EndOfSink,
        EventView::Clock(field.millis),
    ]
}

/// The events of a field with a file name that is dropped.
pub open spec fn skipped_field_events(
    name: Seq<char>,
    filename: Seq<char>,
    pieces: Seq<Seq<u8>>,
) -> Seq<EventView> {
    seq![EventView::Field { name, filename: Some(filename) }] + chunk_events(pieces)
        + seq![EventView::EndOfField]
}

/// The record of a stored file before its tags are known: the digest is
/// that of the bytes that were read back from the sink.
pub open spec fn stored_record(s: IngestionView, field: FileField) -> RecordView {
    file_record(
        s.id,
        field.filename,
        field.size,
        blake3_hex(joined(field.read_back)),
        field.millis,
        s.windows_names,
    )
}

/// Whether an event is a field with a file name.
pub open spec fn bears_file(event: EventView) -> bool {
    event matches EventView::Field { filename: Some(_), .. }
}

/// Whether an ingestion has met no field with a file name: it holds no
/// record, and it stands between fields, at a tag, or at its end.
pub open spec fn fileless(s: IngestionView) -> bool {
    &&& s.record is None
    &&& (s.phase is AwaitingField || s.phase is ReceivingTag || s.phase is Finished)
}

/// A run of events can be made in two parts.
pub proof fn lemma_run_in_parts(s: IngestionView, first: Seq<EventView>, rest: Seq<EventView>)
    ensures
        run(s, first + rest) == run(run(s, first), rest),
    decreases rest.len(),
{
    if rest.len() == 0 {
        assert(first + rest =~= first);
    } else {
        lemma_run_in_parts(s, first, rest.drop_last());
        assert((first + rest).drop_last() =~= first + rest.drop_last());
        assert((first + rest).last() == rest.last());
    }
}

/// A run of one event is one transition.
proof fn lemma_run_one(s: IngestionView, event: EventView)
    ensures
        run(s, seq![event]) == transition(s, event).0,
{
    assert(seq![event].drop_last() =~= Seq::<EventView>::empty());
    assert(run(s, seq![event].drop_last()) == s);
}

/// A run of two events is two transitions.
proof fn lemma_run_two(s: IngestionView, first: EventView, second: EventView)
    ensures
        run(s, seq![first, second]) == transition(transition(s, first).0, second).0,
{
    assert(seq![first, second].drop_last() =~= seq![first]);
    lemma_run_one(s, first);
}

/// At a tag, the pieces of its value are kept one behind the other.
proof fn lemma_tag_pieces(s: IngestionView, name: Seq<char>, value: Seq<u8>, pieces: Seq<Seq<u8>>)
    requires
        s.phase == (PhaseView::ReceivingTag { name, value }),
        value.len() + joined(pieces).len() <= isize::MAX,
    ensures
        run(s, chunk_events(pieces)) == moved(
            s,
            PhaseView::ReceivingTag { name, value: value + joined(pieces) },
        ),
    decreases pieces.len(),
{
    if pieces.len() == 0 {
        assert(value + joined(pieces) =~= value);
    } else {
        lemma_tag_pieces(s, name, value, pieces.drop_last());
        assert(chunk_events(pieces).drop_last() =~= chunk_events(pieces.drop_last()));
        assert((value + joined(pieces.drop_last())) + pieces.last() =~= value + joined(pieces));
    }
}

/// At a later file, the pieces are dropped.
proof fn lemma_skipped_pieces(s: IngestionView, pieces: Seq<Seq<u8>>)
    requires
        s.phase == PhaseView::SkippingFile,
    ensures
        run(s, chunk_events(pieces)) == s,
    decreases pieces.len(),
{
    if pieces.len() > 0 {
        lemma_skipped_pieces(s, pieces.drop_last());
        assert(chunk_events(pieces).drop_last() =~= chunk_events(pieces.drop_last()));
    }
}

/// At the first file, writing its pieces leaves the ingestion waiting for
/// the next piece.
proof fn lemma_written_pieces(s: IngestionView, filename: Seq<char>, pieces: Seq<Seq<u8>>)
    requires
        s.phase == (PhaseView::ReceivingFile { filename }),
    ensures
        run(s, written_events(pieces)) == s,
    decreases pieces.len(),
{
    if pieces.len() > 0 {
        let before = written_events(pieces.drop_last());
        let pair = seq![EventView::Chunk(pieces.last()), EventView::Appended];
        lemma_written_pieces(s, filename, pieces.drop_last());
        lemma_run_in_parts(s, before, pair);
        lemma_run_two(s, EventView::Chunk(pieces.last()), EventView::Appended);
    }
}

/// While the sink is read back, its pieces are taken in one behind the
/// other.
proof fn lemma_persisted_pieces(
    s: IngestionView,
    filename: Seq<char>,
    size: u64,
    digested: Seq<u8>,
    pieces: Seq<Seq<u8>>,
)
    requires
        s.phase == (PhaseView::ReadingBack { filename, size, digested }),
    ensures
        run(s, persisted_events(pieces)) == moved(
            s,
            PhaseView::ReadingBack { filename, size, digested: digested + joined(pieces) },
        ),
    decreases pieces.len(),
{
    if pieces.len() == 0 {
        assert(digested + joined(pieces) =~= digested);
    } else {
        lemma_persisted_pieces(s, filename, size, digested, pieces.drop_last());
        assert(persisted_events(pieces).drop_last() =~= persisted_events(pieces.drop_last()));
        assert((digested + joined(pieces.drop_last())) + pieces.last() =~= digested + joined(
            pieces,
        ));
    }
}

/// A field without a file name leaves one tag behind those that came
/// before it: its name, and the text of its value, however the value was
/// cut into pieces. Nothing else changes.
pub proof fn lemma_tag_field_adds_one_tag(s: IngestionView, field: TagField)
    requires
        s.phase == PhaseView::AwaitingField,
        joined(field.pieces).len() <= isize::MAX,
    ensures
        run(s, tag_field_events(field)) == (IngestionView {
            tags: s.tags.push(tag_of(field)),
            ..s
        }),
{
    let open = EventView::Field { name: field.name, filename: None };
    let at_tag = moved(s, PhaseView::ReceivingTag { name: field.name, value: Seq::empty() });
    lemma_run_one(s, open);
    lemma_tag_pieces(at_tag, field.name, Seq::empty(), field.pieces);
    assert(Seq::<u8>::empty() + joined(field.pieces) =~= joined(field.pieces));
    lemma_run_in_parts(s, seq![open], chunk_events(field.pieces));
    let filled = run(s, seq![open] + chunk_events(field.pieces));
    lemma_run_one(filled, EventView::EndOfField);
    lemma_run_in_parts(s, seq![open] + chunk_events(field.pieces), seq![EventView::EndOfField]);
}

/// Fields without a file name leave their tags in the order of their
/// arrival, behind those that came before them, equal names and all.
/// Nothing else changes.
pub proof fn lemma_tags_keep_arrival_order(s: IngestionView, fields: Seq<TagField>)
    requires
        s.phase == PhaseView::AwaitingField,
        values_fit(fields),
    ensures
        run(s, tag_fields_events(fields)) == (IngestionView {
            tags: s.tags + tags_of(fields),
            ..s
        }),
    decreases fields.len(),
{
    if fields.len() == 0 {
        assert(s.tags + tags_of(fields) =~= s.tags);
    } else {
        let before = fields.drop_last();
        assert forall|i: int| 0 <= i < before.len() implies joined(
            #[trigger] before[i].pieces,
        ).len() <= isize::MAX by {
            assert(before[i] == fields[i]);
        }
        lemma_tags_keep_arrival_order(s, before);
        let middle = run(s, tag_fields_events(before));
        lemma_tag_field_adds_one_tag(middle, fields.last());
        lemma_run_in_parts(s, tag_fields_events(before), tag_field_events(fields.last()));
        assert((s.tags + tags_of(before)).push(tag_of(fields.last())) =~= s.tags + tags_of(fields));
    }
}

/// The first field with a file name leaves the record of the file, and
/// nothing else changes. The digest in the record is the digest of the
/// bytes that were read back from the sink, however they were cut into
/// pieces: whoever hashes the same bytes again gets the same digest.
pub proof fn lemma_first_file_is_recorded(s: IngestionView, field: FileField)
    requires
        s.phase == PhaseView::AwaitingField,
        s.record is None,
    ensures
        run(s, file_field_events(field)) == (IngestionView {
            record: Some(stored_record(s, field)),
            ..s
        }),
        stored_record(s, field).hash == blake3_hex(joined(field.read_back)),
        stored_record(s, field).size == field.size,
{
    let filename = field.filename;
    let head = seq![
        EventView::Field { name: field.name, filename: Some(filename) },
        EventView::SinkReady,
    ];
    let measure = seq![EventView::EndOfField, EventView::Measured(field.size)];
    let close = seq![EventView::EndOfSink, EventView::Clock(field.millis)];
    let receiving = moved(s, PhaseView::ReceivingFile { filename });
    let reading = moved(
        s,
        PhaseView::ReadingBack { filename, size: field.size, digested: Seq::empty() },
    );
    let read = moved(
        s,
        PhaseView::ReadingBack { filename, size: field.size, digested: joined(field.read_back) },
    );

    lemma_run_two(s, head[0], head[1]);
    assert(run(s, head) == receiving);
    lemma_written_pieces(receiving, filename, field.written);
    lemma_run_in_parts(s, head, written_events(field.written));
    let part2 = head + written_events(field.written);
    assert(run(s, part2) == receiving);
    lemma_run_two(receiving, measure[0], measure[1]);
    lemma_run_in_parts(s, part2, measure);
    let part3 = part2 + measure;
    assert(run(s, part3) == reading);
    lemma_persisted_pieces(reading, filename, field.size, Seq::empty(), field.read_back);
    assert(Seq::<u8>::empty() + joined(field.read_back) =~= joined(field.read_back));
    lemma_run_in_parts(s, part3, persisted_events(field.read_back));
    let part4 = part3 + persisted_events(field.read_back);
    assert(run(s, part4) == read);
    lemma_run_two(read, close[0], close[1]);
    lemma_run_in_parts(s, part4, close);
}

/// Once the record of a file is kept, a later field with a file name is
/// read to its end and leaves no trace.
pub proof fn lemma_later_file_is_dropped(
    s: IngestionView,
    name: Seq<char>,
    filename: Seq<char>,
    pieces: Seq<Seq<u8>>,
)
    requires
        s.phase == PhaseView::AwaitingField,
        s.record is Some,
    ensures
        run(s, skipped_field_events(name, filename, pieces)) == s,
{
    let open = EventView::Field { name, filename: Some(filename) };
    let skipping = moved(s, PhaseView::SkippingFile);
    lemma_run_one(s, open);
    lemma_skipped_pieces(skipping, pieces);
    lemma_run_in_parts(s, seq![open], chunk_events(pieces));
    lemma_run_one(skipping, EventView::EndOfField);
    lemma_run_in_parts(s, seq![open] + chunk_events(pieces), seq![EventView::EndOfField]);
}

/// Without a field that bears a file name, an ingestion stays without a
/// record.
proof fn lemma_stays_fileless(s: IngestionView, events: Seq<EventView>)
    requires
        fileless(s),
        forall|i: int| 0 <= i < events.len() ==> !bears_file(#[trigger] events[i]),
    ensures
        fileless(run(s, events)),
    decreases events.len(),
{
    if events.len() > 0 {
        let before = events.drop_last();
        assert forall|i: int| 0 <= i < before.len() implies !bears_file(#[trigger] before[i]) by {
            assert(before[i] == events[i]);
        }
        lemma_stays_fileless(s, before);
        assert(!bears_file(events[events.len() - 1]));
    }
}

/// Whatever events a request without a field that bears a file name
/// brings, in whatever order: no record goes to the index, and the
/// ingestion does not end as stored.
pub proof fn lemma_no_file_no_commit(s: IngestionView, events: Seq<EventView>)
    requires
        fileless(s),
        !(s.phase matches PhaseView::Finished(Outcome::Stored)),
        forall|i: int| 0 <= i < events.len() ==> !bears_file(#[trigger] events[i]),
    ensures
        forall|i: int| 0 <= i < events.len() ==> !(#[trigger] answer(s, events, i) is Commit),
        run(s, events).record is None,
        !(run(s, events).phase matches PhaseView::Finished(Outcome::Stored)),
    decreases events.len(),
{
    lemma_stays_fileless(s, events);
    assert forall|i: int| 0 <= i < events.len() implies !(#[trigger] answer(s, events, i)
        is Commit) by {
        let before = events.take(i);
        assert forall|k: int| 0 <= k < before.len() implies !bears_file(#[trigger] before[k]) by {
            assert(before[k] == events[k]);
        }
        lemma_stays_fileless(s, before);
        assert(!bears_file(events[i]));
    }
    if events.len() > 0 {
        let before = events.drop_last();
        assert forall|k: int| 0 <= k < before.len() implies !bears_file(#[trigger] before[k]) by {
            assert(before[k] == events[k]);
        }
        lemma_no_file_no_commit(s, before);
        lemma_stays_fileless(s, before);
        assert(!bears_file(events[events.len() - 1]));
    }
}

/// None of the events of fields without a file name bears a file name.
proof fn lemma_tag_fields_bear_no_file(fields: Seq<TagField>)
    ensures
        forall|i: int|
            0 <= i < tag_fields_events(fields).len() ==> !bears_file(
                #[trigger] tag_fields_events(fields)[i],
            ),
    decreases fields.len(),
{
    if fields.len() > 0 {
        let before = tag_fields_events(fields.drop_last());
        let field = fields.last();
        let all = tag_fields_events(fields);
        lemma_tag_fields_bear_no_file(fields.drop_last());
        assert forall|i: int| 0 <= i < all.len() implies !bears_file(#[trigger] all[i]) by {
            if i < before.len() {
                assert(all[i] == before[i]);
            } else {
                let j = i - before.len();
                assert(all[i] == tag_field_events(field)[j]);
                if 0 < j <= field.pieces.len() {
                    assert(all[i] == chunk_events(field.pieces)[j - 1]);
                }
            }
        }
    }
}

/// A request of fields without a file name, however many, ends without a
/// file: no answer to any of its events is to put a record into the index,
/// the answer to its end is to finish with that outcome, and the tags are
/// dropped with it.
pub proof fn lemma_tags_alone_end_without_file(id: u128, windows_names: bool, fields: Seq<TagField>)
    requires
        values_fit(fields),
    ensures
        ({
            let s = starting(id, windows_names);
            let events = tag_fields_events(fields).push(EventView::EndOfStream);
            &&& forall|i: int| 0 <= i < events.len() ==> !(#[trigger] answer(s, events, i) is Commit)
            &&& answer(s, events, events.len() - 1) == ActionView::Finish(Outcome::NoFile)
            &&& run(s, events).phase == PhaseView::Finished(Outcome::NoFile)
        }),
{
    let s = starting(id, windows_names);
    let events = tag_fields_events(fields).push(EventView::EndOfStream);
    lemma_tags_keep_arrival_order(s, fields);
    assert(events.take(events.len() - 1) =~= tag_fields_events(fields));
    assert(events.drop_last() =~= tag_fields_events(fields));
    lemma_tag_fields_bear_no_file(fields);
    lemma_no_file_no_commit(s, events);
}

/// A request with one stored file among fields without a file name: the
/// answer to its end is to put the record of the file into the index, with
/// the tags of all those fields in the order of their arrival, and once
/// the index has taken it the ingestion ends as stored.
pub proof fn lemma_upload_commits_file_with_tags(
    id: u128,
    windows_names: bool,
    before: Seq<TagField>,
    file: FileField,
    after: Seq<TagField>,
)
    requires
        values_fit(before),
        values_fit(after),
    ensures
        ({
            let s = starting(id, windows_names);
            let events = (tag_fields_events(before) + file_field_events(file) + tag_fields_events(
                after,
            )).push(EventView::EndOfStream);
            let record = RecordView {
                tags: tags_of(before) + tags_of(after),
                ..stored_record(s, file)
            };
            &&& answer(s, events, events.len() - 1) == ActionView::Commit(record)
            &&& transition(run(s, events), EventView::Committed).1 == ActionView::Finish(
                Outcome::Stored,
            )
        }),
{
    let s = starting(id, windows_names);
    let fields = tag_fields_events(before) + file_field_events(file) + tag_fields_events(after);
    let events = fields.push(EventView::EndOfStream);
    lemma_tags_keep_arrival_order(s, before);
    let s1 = run(s, tag_fields_events(before));
    lemma_first_file_is_recorded(s1, file);
    lemma_run_in_parts(s, tag_fields_events(before), file_field_events(file));
    let s2 = run(s, tag_fields_events(before) + file_field_events(file));
    lemma_tags_keep_arrival_order(s2, after);
    lemma_run_in_parts(s, tag_fields_events(before) + file_field_events(file), tag_fields_events(after));
    let s3 = run(s, fields);
    assert(s3.tags =~= tags_of(before) + tags_of(after)) by {
        assert(s.tags + tags_of(before) =~= tags_of(before));
    }
    assert(events.take(events.len() - 1) =~= fields);
    assert(events.drop_last() =~= fields);
}

} // verus!
