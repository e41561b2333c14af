//! The two requests of the service, as far as they are decided here:
//! provisioning a slot, and uploading to one.

use vstd::prelude::*;
use crate::clock::timestamp_now;
use crate::file_allocator::{admits, marked, released, FileAllocator, FileState};
use crate::file_id::{id_text, id_value, parsed_id, FileId};
use crate::ingest::{
    starting, transition, Action, ActionView, Event, EventView, Ingestion, IngestionView, Outcome,
};

verus! {

/// Why an upload was not admitted.
#[derive(Clone, Copy, Debug, PartialEq, Eq, Hash, Structural)]
pub enum Rejection {
    /// The address names no identifier.
    InvalidId,
    /// The slot is unknown, or somebody is uploading to it.
    NotAccepting,
}

/// The answer to a request: a status code and a body of text.
#[derive(Debug, PartialEq, Eq)]
pub struct Reply {
    pub status: u16,
    pub body: String,
}

/// Provisions a slot and answers with its identifier: status 201, and the
/// identifier as text.
pub fn provision_file(registry: &mut FileAllocator) -> (reply: Reply)
    ensures
        reply.status == 201,
        exists|id: u128|
            reply.body@ == #[trigger] id_text(id) && final(registry)@ == old(registry)@.insert(
                id,
                FileState::Allocated,
            ),
{
    let id = registry.allocate();
    Reply { status: 201, body: id.to_text() }
}

/// What becomes of the registry and of a request to upload to the slot
/// that `named` names, if it names one: whether the request is admitted,
/// and the registry afterwards.
pub open spec fn admission(slots: Map<u128, FileState>, named: Option<u128>) -> (
    Result<u128, Rejection>,
    Map<u128, FileState>,
) {
    match named {
        None => (Err(Rejection::InvalidId), slots),
        Some(id) => if admits(slots, id) {
            (Ok(id), marked(slots, id))
        } else {
            (Err(Rejection::NotAccepting), slots)
        },
    }
}

/// Whether `admitted` is what a request to upload is owed: for an
/// admitted request an ingestion that has seen nothing yet, with the
/// answer to read on to the first field, and else the rejection.
pub open spec fn begun_as(
    admitted: Result<(Ingestion, Action), Rejection>,
    owed: Result<u128, Rejection>,
    windows_names: bool,
) -> bool {
    match owed {
        Ok(id) => {
            &&& admitted matches Ok(first)
            &&& first.0@ == starting(id, windows_names)
            &&& first.1@ == ActionView::NextField
        },
        Err(rejection) => admitted matches Err(given) && given == rejection,
    }
}

/// Admits an upload to the slot `named`, and begins its ingestion. A
/// request that names no slot is rejected, and so is one for a slot that
/// is unknown or taken; the registry then stays as it was. An admitted
/// upload takes the slot, and the first thing to do is to read on to the
/// first field.
pub fn accept_upload(
    registry: &mut FileAllocator,
    named: Option<FileId>,
    windows_names: bool,
) -> (admitted: Result<(Ingestion, Action), Rejection>)
    ensures
        final(registry)@ == admission(old(registry)@, id_value(named)).1,
        begun_as(admitted, admission(old(registry)@, id_value(named)).0, windows_names),
{
    match named {
        None => Err(Rejection::InvalidId),
        Some(id) => {
            if registry.mark_as_uploading(id) {
                Ok(Ingestion::begin(id, windows_names))
            } else {
                Err(Rejection::NotAccepting)
            }
        },
    }
}

/// Admits an upload to the slot that the text `address` names, as
/// `accept_upload` does for the identifier that the text denotes.
pub fn begin_upload(
    registry: &mut FileAllocator,
    address: &str,
    windows_names: bool,
) -> (admitted: Result<(Ingestion, Action), Rejection>)
    ensures
        final(registry)@ == admission(old(registry)@, parsed_id(address@)).1,
        begun_as(admitted, admission(old(registry)@, parsed_id(address@)).0, windows_names),
{
    accept_upload(registry, FileId::parse_str(address), windows_names)
}

/// What an event makes of an ingestion where the clock is read on the
/// spot: as `transition` has it, but that the reading `millis` is taken in
/// at once where the answer is to read the clock.
pub open spec fn advanced(s: IngestionView, event: EventView, millis: u64) -> (
    IngestionView,
    ActionView,
) {
    let direct = transition(s, event);
    if direct.1 is ReadClock {
        transition(direct.0, EventView::Clock(millis))
    } else {
        direct
    }
}

/// Whether an ingestion has come to its end between `before` and `after`.
pub open spec fn ends(before: IngestionView, after: IngestionView) -> bool {
    !(before.phase is Finished) && after.phase is Finished
}

/// Takes an event of an upload in. The clock is read here where the
/// ingestion asks for it, so the answer is never to read the clock. Where
/// the ingestion comes to its end, however it ends, the slot is released;
/// otherwise the registry stays as it was.
pub fn advance_upload(
    registry: &mut FileAllocator,
    run: Ingestion,
    event: Event,
) -> (next: (Ingestion, Action))
    ensures
        exists|millis: u64|
            next.0@ == (#[trigger] advanced(run@, event@, millis)).0 && next.1@ == advanced(
                run@,
                event@,
                millis,
            ).1,
        !(next.1@ is ReadClock),
        next.1@ is Finish <==> next.0@.phase is Finished,
        final(registry)@ == (if ends(run@, next.0@) {
            released(old(registry)@, run@.id)
        } else {
            old(registry)@
        }),
{
    let ghost before = run@;
    let id = run.id();
    let was_over = run.outcome().is_some();
    let (direct, action) = run.step(event);
    let next = match action {
        Action::ReadClock => {
            let millis: u64 = timestamp_now();
            let stamped = direct.step(Event::Clock(millis));
            assert(stamped.0@ == advanced(before, event@, millis).0);
            stamped
        },
        action => {
            assert(direct@ == advanced(before, event@, 0).0);
            (direct, action)
        },
    };
    if !was_over && next.0.outcome().is_some() {
        registry.free(&id);
    }
    next
}

/// The answer to a request whose upload was not admitted: status 400, for
/// either reason.
pub fn reply_to_rejection(rejection: Rejection) -> (reply: Reply)
    ensures
        reply.status == 400,
        reply.body@ == "invalid uuid"@,
{
    Reply { status: 400, body: "invalid uuid".to_owned() }
}

/// The status code for the end of an ingestion: 200 for a stored file, 400
/// for a request without a file, 500 for a failure of the storage, the
/// transport or the index.
pub open spec fn status_of(outcome: Outcome) -> u16 {
    match outcome {
        Outcome::Stored => 200,
        Outcome::NoFile => 400,
        Outcome::Failed => 500,
        Outcome::CommitFailed => 500,
    }
}

/// The answer to a request whose ingestion is over.
pub fn reply_to_outcome(outcome: Outcome) -> (reply: Reply)
    ensures
        reply.status == status_of(outcome),
        reply.body@ == (if outcome == Outcome::NoFile {
            "no file uploaded"@
        } else {
            ""@
        }),
{
    match outcome {
        Outcome::Stored => Reply { status: 200, body: "".to_owned() },
        Outcome::NoFile => Reply { status: 400, body: "no file uploaded".to_owned() },
        Outcome::Failed => Reply { status: 500, body: "".to_owned() },
        Outcome::CommitFailed => Reply { status: 500, body: "".to_owned() },
    }
}

} // verus!
