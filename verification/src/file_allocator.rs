//! The slot registry: which identifiers are provisioned, and which of them
//! are being uploaded to.

use vstd::prelude::*;
use dashmap::DashMap;
use crate::file_id::{FileId, random_id_value};

verus! {

/// The state of a provisioned slot.
#[derive(Debug, Copy, Clone, PartialEq, Eq, Hash, Structural)]
pub enum FileState {
    Allocated,
    Uploading,
}

/// `dashmap::DashMap`, a hash map that may be shared. What it holds is read
/// through `slot_entries`.
#[verifier::external_type_specification]
#[verifier::external_body]
#[verifier::reject_recursive_types(K)]
#[verifier::reject_recursive_types(V)]
#[verifier::reject_recursive_types(S)]
pub struct ExDashMap<K, V, S>(DashMap<K, V, S>);

/// The registry without any slot.
pub open spec fn no_slots() -> Map<u128, FileState> {
    Map::empty()
}

/// Whether an upload to `id` may begin: the slot is provisioned and nobody
/// is uploading to it.
pub open spec fn admits(slots: Map<u128, FileState>, id: u128) -> bool {
    slots.contains_key(id) && slots[id] == FileState::Allocated
}

/// The registry after an attempt to begin an upload to `id`: the slot is
/// taken where the upload may begin, and nothing changes where it may not.
pub open spec fn marked(slots: Map<u128, FileState>, id: u128) -> Map<u128, FileState> {
    if admits(slots, id) {
        slots.insert(id, FileState::Uploading)
    } else {
        slots
    }
}

/// The registry after the release of `id`.
pub open spec fn released(slots: Map<u128, FileState>, id: u128) -> Map<u128, FileState> {
    slots.remove(id)
}

/// The registry after attempts to begin an upload at each of `calls`, one
/// after the other.
pub open spec fn after_marks(slots: Map<u128, FileState>, calls: Seq<u128>) -> Map<u128, FileState>
    decreases calls.len(),
{
    if calls.len() == 0 {
        slots
    } else {
        marked(after_marks(slots, calls.drop_last()), calls.last())
    }
}

/// Whether attempt number `i` of `calls` is accepted, the attempts before
/// it having been made.
pub open spec fn mark_accepted(slots: Map<u128, FileState>, calls: Seq<u128>, i: int) -> bool {
    admits(after_marks(slots, calls.take(i)), calls[i])
}

/// The entries that a slot table holds.
pub uninterp spec fn slot_entries(table: DashMap<u128, FileState>) -> Map<u128, FileState>;

/// An empty slot table.
///
/// Trusted: calls `DashMap::new`, which creates a map without entries.
#[verifier::external_body]
fn table_new() -> (table: DashMap<u128, FileState>)
    ensures
        slot_entries(table) == no_slots(),
{
    DashMap::new()
}

/// Trusted: calls `DashMap::insert`, which stores `state` under `key`,
/// replacing what was there, and leaves every other entry alone.
#[verifier::external_body]
fn table_insert(table: &mut DashMap<u128, FileState>, key: u128, state: FileState)
    ensures
        slot_entries(*final(table)) == slot_entries(*old(table)).insert(key, state),
{
    table.insert(key, state);
}

/// Trusted: calls `DashMap::remove`, which takes the entry under `key` out
/// if there is one, and leaves every other entry alone.
#[verifier::external_body]
fn table_remove(table: &mut DashMap<u128, FileState>, key: u128)
    ensures
        slot_entries(*final(table)) == slot_entries(*old(table)).remove(key),
{
    table.remove(&key);
}

/// Trusted: calls `DashMap::get` and copies the state out of the guard it
/// returns: the state stored under `key`, or `None` without such an entry.
#[verifier::external_body]
fn table_get(table: &DashMap<u128, FileState>, key: u128) -> (state: Option<FileState>)
    ensures
        state == (if slot_entries(*table).contains_key(key) {
            Some(slot_entries(*table)[key])
        } else {
            None
        }),
{
    table.get(&key).map(|entry| *entry.value())
}

/// The registry of upload slots.
///
/// A slot is in the registry from its allocation to its release. The
/// methods that change the registry borrow it exclusively, so each of them
/// is one indivisible step for everyone who shares it.
#[derive(Debug)]
pub struct FileAllocator {
    files: DashMap<u128, FileState>,
}

impl View for FileAllocator {
    type V = Map<u128, FileState>;

    closed spec fn view(&self) -> Map<u128, FileState> {
        slot_entries(self.files)
    }
}

impl FileAllocator {
    /// A registry without slots.
    pub fn new() -> (registry: Self)
        ensures
            registry@ == no_slots(),
    {
        FileAllocator { files: table_new() }
    }

    /// Provisions a slot under a freshly drawn identifier and returns the
    /// identifier. The slot awaits its upload.
    pub fn allocate(&mut self) -> (uuid: FileId)
        ensures
            final(self)@ == old(self)@.insert(uuid.value, FileState::Allocated),
    {
        let uuid = FileId { value: random_id_value() };
        self.register(uuid);
        uuid
    }

    /// Provisions the slot of the identifier `uuid`, which awaits its upload
    /// from then on. This is what `allocate` does with the identifier that
    /// it has drawn.
    pub(crate) fn register(&mut self, uuid: FileId)
        ensures
            final(self)@ == old(self)@.insert(uuid.value, FileState::Allocated),
    {
        table_insert(&mut self.files, uuid.value, FileState::Allocated);
    }

    /// Releases a slot, whatever its state. Releasing a slot that is not in
    /// the registry changes nothing.
    pub fn free(&mut self, uuid: &FileId)
        ensures
            final(self)@ == released(old(self)@, uuid.value),
    {
        table_remove(&mut self.files, uuid.value);
    }

    /// Begins an upload to a slot: where the slot is provisioned and nobody
    /// is uploading to it, takes it and returns `true`. For a slot that is
    /// unknown or taken it returns `false` and changes nothing.
    pub fn mark_as_uploading(&mut self, uuid: FileId) -> (accepted: bool)
        ensures
            accepted == admits(old(self)@, uuid.value),
            final(self)@ == marked(old(self)@, uuid.value),
            !accepted ==> final(self)@ == old(self)@,
    {
        match table_get(&self.files, uuid.value) {
            Some(FileState::Allocated) => {
                table_insert(&mut self.files, uuid.value, FileState::Uploading);
                true
            },
            _ => false,
        }
    }

    /// The state of a slot, or `None` for a slot that is not in the
    /// registry.
    pub fn state(&self, uuid: &FileId) -> (state: Option<FileState>)
        ensures
            state == (if self@.contains_key(uuid.value) {
                Some(self@[uuid.value])
            } else {
                None
            }),
    {
        table_get(&self.files, uuid.value)
    }
}

impl Default for FileAllocator {
    fn default() -> (registry: Self)
        ensures
            registry@ == no_slots(),
    {
        FileAllocator::new()
    }
}

/// After any attempts to begin uploads, a slot that awaited its upload at
/// the start is still in the registry, and it is taken exactly if one of
/// the attempts was made at it.
proof fn lemma_state_after_marks(slots: Map<u128, FileState>, calls: Seq<u128>, id: u128)
    requires
        admits(slots, id),
    ensures
        after_marks(slots, calls).contains_key(id),
        admits(after_marks(slots, calls), id) <==> !calls.contains(id),
    decreases calls.len(),
{
    if calls.len() > 0 {
        let before = calls.drop_last();
        lemma_state_after_marks(slots, before, id);
        if calls.contains(id) {
            let k = choose|k: int| 0 <= k < calls.len() && calls[k] == id;
            if k < calls.len() - 1 {
                assert(before[k] == id);
            }
        } else {
            assert forall|k: int| 0 <= k < before.len() implies before[k] != id by {
                assert(calls[k] == before[k]);
            }
        }
    }
}

/// Of any attempts to begin an upload to a slot that awaits its upload,
/// exactly one is accepted: the first. Attempts at other slots may stand
/// anywhere between them.
pub proof fn lemma_one_upload_per_slot(slots: Map<u128, FileState>, calls: Seq<u128>, id: u128)
    requires
        admits(slots, id),
    ensures
        forall|i: int|
            0 <= i < calls.len() && calls[i] == id ==> (#[trigger] mark_accepted(slots, calls, i)
                <==> !calls.take(i).contains(id)),
{
    assert forall|i: int| 0 <= i < calls.len() && calls[i] == id implies (#[trigger] mark_accepted(
        slots,
        calls,
        i,
    ) <==> !calls.take(i).contains(id)) by {
        lemma_state_after_marks(slots, calls.take(i), id);
    }
}

/// Attempts at the slot `id`, `n` in a row.
pub open spec fn attempts_at(id: u128, n: nat) -> Seq<u128> {
    Seq::new(n, |i: int| id)
}

/// Of any number of attempts in a row to begin an upload to a slot that
/// awaits its upload, the first is accepted and every other is refused.
pub proof fn lemma_first_of_many_marks_wins(slots: Map<u128, FileState>, id: u128, n: nat)
    requires
        admits(slots, id),
    ensures
        forall|i: int|
            0 <= i < n ==> (#[trigger] mark_accepted(slots, attempts_at(id, n), i) <==> i == 0),
{
    let calls = attempts_at(id, n);
    lemma_one_upload_per_slot(slots, calls, id);
    assert forall|i: int| 0 <= i < n implies (#[trigger] mark_accepted(slots, calls, i) <==> i
        == 0) by {
        if i > 0 {
            assert(calls.take(i)[0] == id);
        }
    }
}

/// An attempt to begin an upload to a slot that is unknown or taken is
/// refused and leaves the registry as it was.
pub proof fn lemma_refused_mark_changes_nothing(slots: Map<u128, FileState>, id: u128)
    requires
        !slots.contains_key(id) || slots[id] == FileState::Uploading,
    ensures
        !admits(slots, id),
        marked(slots, id) == slots,
{
}

/// Releasing a slot twice is the same as releasing it once, and releasing
/// a slot that is not in the registry changes nothing.
pub proof fn lemma_release_is_idempotent(slots: Map<u128, FileState>, id: u128)
    ensures
        released(released(slots, id), id) == released(slots, id),
        !slots.contains_key(id) ==> released(slots, id) == slots,
        !admits(released(slots, id), id),
{
    assert(released(released(slots, id), id) =~= released(slots, id));
    if !slots.contains_key(id) {
        assert(released(slots, id) =~= slots);
    }
}

} // verus!
