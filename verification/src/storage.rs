//! The shard store: a capacity-accounted table from shard identifiers to
//! bytes, each shard carrying the checksum it was recorded with.
//!
//! Capacity is counted in bytes. A store that would take the bytes in use
//! past the total is turned down and changes nothing; every read proves the
//! bytes against the recorded checksum first.
use vstd::prelude::*;
use crate::digest::{checksum, checksum_of};
use crate::ident::{fresh_identifier, IDENTIFIER_LEN};
use crate::registry::{
    find, lemma_find, lemma_project_find, lemma_project_upsert, lemma_project_without,
    lemma_upsert, lemma_without, lookup, project, unique_keys, upsert, without, Registry,
};

verus! {

/// The identity of a node as this service sees it.
#[derive(Clone, Debug)]
pub struct MockNodeIdentity {
    pub node_id: String,
    pub public_key: Vec<u8>,
}

/// The network service as this service sees it.
#[derive(Clone, Debug)]
pub struct MockNetworkService {
    pub node_id: String,
}

/// A stored unit of bytes with its redundancy target and checksum.
#[derive(Clone, Debug)]
pub struct StorageShard {
    pub shard_id: String,
    pub data: Vec<u8>,
    pub redundancy: u8,
    pub checksum: String,
}

/// What a shard holds, as plain values.
pub struct ShardView {
    pub shard_id: Seq<char>,
    pub data: Seq<u8>,
    pub redundancy: u8,
    pub checksum: Seq<char>,
}

impl ShardView {
    /// The recorded checksum is the checksum of the bytes.
    pub open spec fn intact(self) -> bool {
        self.checksum == checksum_of(self.data)
    }

    /// The shard that a store of `data` records under `shard_id`.
    pub open spec fn recording(shard_id: Seq<char>, data: Seq<u8>, redundancy: u8) -> ShardView {
        ShardView { shard_id, data, redundancy, checksum: checksum_of(data) }
    }
}

impl View for StorageShard {
    type V = ShardView;

    open spec fn view(&self) -> ShardView {
        ShardView {
            shard_id: self.shard_id@,
            data: self.data@,
            redundancy: self.redundancy,
            checksum: self.checksum@,
        }
    }
}

impl StorageShard {
    /// Records `data` under `shard_id`, with the checksum of the bytes.
    pub fn new(shard_id: String, data: Vec<u8>, redundancy: u8) -> (shard: Self)
        ensures
            shard@ == ShardView::recording(shard_id@, data@, redundancy),
    {
        let checksum = checksum(data.as_slice());
        StorageShard { shard_id, data, redundancy, checksum }
    }

    /// Recomputes the checksum of the bytes and compares it with the
    /// recorded one.
    pub fn verify(&self) -> (ok: bool)
        ensures
            ok == self@.intact(),
    {
        let computed = checksum(self.data.as_slice());
        computed == self.checksum
    }
}

/// Why the store turned a request down.
#[derive(Clone, Copy, Debug, PartialEq, Eq, Structural)]
pub enum StorageError {
    /// The bytes would not fit in what is left of the capacity.
    InsufficientSpace,
    /// No shard is stored under the identifier.
    ShardNotFound,
    /// The stored bytes no longer match their checksum.
    CorruptionDetected,
}

impl StorageError {
    /// The text of the error.
    pub open spec fn message(self) -> Seq<char> {
        match self {
            StorageError::InsufficientSpace => "Insufficient storage space"@,
            StorageError::ShardNotFound => "Shard not found"@,
            StorageError::CorruptionDetected => "Data corruption detected"@,
        }
    }

    /// The text of the error.
    pub fn to_string(&self) -> (text: String)
        ensures
            text@ == self.message(),
    {
        match self {
            StorageError::InsufficientSpace => "Insufficient storage space".to_owned(),
            StorageError::ShardNotFound => "Shard not found".to_owned(),
            StorageError::CorruptionDetected => "Data corruption detected".to_owned(),
        }
    }
}

/// The bytes that the shards of a table hold, all together.
pub open spec fn stored_bytes(shards: Seq<(Seq<char>, ShardView)>) -> nat
    decreases shards.len(),
{
    if shards.len() == 0 {
        0
    } else {
        stored_bytes(shards.drop_last()) + shards.last().1.data.len()
    }
}

proof fn lemma_stored_push(shards: Seq<(Seq<char>, ShardView)>, entry: (Seq<char>, ShardView))
    ensures
        stored_bytes(shards.push(entry)) == stored_bytes(shards) + entry.1.data.len(),
{
    assert(shards.push(entry).drop_last() =~= shards);
}

proof fn lemma_stored_update(
    shards: Seq<(Seq<char>, ShardView)>,
    i: int,
    entry: (Seq<char>, ShardView),
)
    requires
        0 <= i < shards.len(),
    ensures
        stored_bytes(shards.update(i, entry)) + shards[i].1.data.len() == stored_bytes(shards)
            + entry.1.data.len(),
    decreases shards.len(),
{
    let after = shards.update(i, entry);
    if i == shards.len() - 1 {
        assert(after.drop_last() =~= shards.drop_last());
    } else {
        lemma_stored_update(shards.drop_last(), i, entry);
        assert(after.drop_last() =~= shards.drop_last().update(i, entry));
    }
}

proof fn lemma_stored_remove(shards: Seq<(Seq<char>, ShardView)>, i: int)
    requires
        0 <= i < shards.len(),
    ensures
        stored_bytes(shards.remove(i)) + shards[i].1.data.len() == stored_bytes(shards),
    decreases shards.len(),
{
    let after = shards.remove(i);
    if i == shards.len() - 1 {
        assert(after =~= shards.drop_last());
    } else {
        lemma_stored_remove(shards.drop_last(), i);
        assert(after.drop_last() =~= shards.drop_last().remove(i));
    }
}

/// The state of a shard store, as plain values.
pub struct StorageState {
    pub node_id: Seq<char>,
    /// The shards by identifier, oldest first.
    pub shards: Seq<(Seq<char>, ShardView)>,
    /// The capacity in bytes.
    pub total: nat,
    /// The bytes accounted as in use.
    pub used: nat,
}

impl StorageState {
    /// No identifier occurs twice, the shards take no more than is
    /// accounted as in use, and that is no more than the capacity.
    pub open spec fn valid(self) -> bool {
        &&& unique_keys(self.shards)
        &&& stored_bytes(self.shards) <= self.used
        &&& self.used <= self.total
    }

    /// Whether `len` more bytes fit.
    pub open spec fn fits(self, len: nat) -> bool {
        self.used + len <= self.total
    }

    /// The state after a request to keep `shard` as it stands: where its
    /// bytes fit, it is stored under its identifier and its length is
    /// added to the bytes in use; where they do not, nothing changes.
    pub open spec fn import(self, shard: ShardView) -> StorageState {
        if self.fits(shard.data.len()) {
            StorageState {
                shards: upsert(self.shards, shard.shard_id, shard),
                used: self.used + shard.data.len(),
                ..self
            }
        } else {
            self
        }
    }

    /// The state after a request to store `data` under `shard_id`.
    pub open spec fn store(self, shard_id: Seq<char>, data: Seq<u8>, redundancy: u8) -> StorageState {
        self.import(ShardView::recording(shard_id, data, redundancy))
    }

    /// What a read of `shard_id` returns.
    pub open spec fn retrieve(self, shard_id: Seq<char>) -> Result<Seq<u8>, StorageError> {
        match lookup(self.shards, shard_id) {
            None => Err(StorageError::ShardNotFound),
            Some(shard) => if shard.intact() {
                Ok(shard.data)
            } else {
                Err(StorageError::CorruptionDetected)
            },
        }
    }

    /// The state after the bytes of the shard `shard_id` were overwritten
    /// with `bytes` behind the back of the store: the checksum and the
    /// accounts stay as they were.
    pub open spec fn tampered(self, shard_id: Seq<char>, bytes: Seq<u8>) -> StorageState {
        match lookup(self.shards, shard_id) {
            Some(shard) => StorageState {
                shards: upsert(self.shards, shard_id, ShardView { data: bytes, ..shard }),
                ..self
            },
            None => self,
        }
    }

    /// The state after `shard_id` is deleted: the shard is gone and its
    /// length is taken from the bytes in use.
    pub open spec fn delete(self, shard_id: Seq<char>) -> StorageState {
        match lookup(self.shards, shard_id) {
            None => self,
            Some(shard) => StorageState {
                shards: without(self.shards, shard_id),
                used: (self.used - shard.data.len()) as nat,
                ..self
            },
        }
    }
}

/// Keeping a shard as it stands keeps the state valid, and a shard whose
/// bytes do not fit leaves the state as it was.
pub proof fn lemma_import_keeps_capacity(state: StorageState, shard: ShardView)
    requires
        state.valid(),
    ensures
        state.import(shard).valid(),
        state.import(shard).used <= state.total,
        state.import(shard).total == state.total,
        !state.fits(shard.data.len()) ==> state.import(shard) == state,
{
    lemma_find(state.shards, shard.shard_id);
    lemma_upsert(state.shards, shard.shard_id, shard);
    if state.fits(shard.data.len()) {
        match find(state.shards, shard.shard_id) {
            Some(i) => {
                lemma_stored_update(state.shards, i, (shard.shard_id, shard));
            },
            None => {
                lemma_stored_push(state.shards, (shard.shard_id, shard));
            },
        }
    }
}

/// The bytes in use never exceed the capacity: a valid state stays valid
/// under every store and every delete, the capacity never changes, and a
/// store whose bytes would take the use past the capacity is turned down
/// and leaves the state as it was.
pub proof fn lemma_capacity_kept(
    state: StorageState,
    shard_id: Seq<char>,
    data: Seq<u8>,
    redundancy: u8,
)
    requires
        state.valid(),
    ensures
        state.store(shard_id, data, redundancy).valid(),
        state.store(shard_id, data, redundancy).used <= state.total,
        state.store(shard_id, data, redundancy).total == state.total,
        state.used + data.len() > state.total ==> state.store(shard_id, data, redundancy) == state,
        state.delete(shard_id).valid(),
        state.delete(shard_id).used <= state.total,
        state.delete(shard_id).total == state.total,
{
    lemma_import_keeps_capacity(state, ShardView::recording(shard_id, data, redundancy));
    lemma_delete_releases(state, shard_id);
}

/// A delete keeps the state valid and never adds to the bytes in use.
pub proof fn lemma_delete_releases(state: StorageState, shard_id: Seq<char>)
    requires
        state.valid(),
    ensures
        state.delete(shard_id).valid(),
        state.delete(shard_id).used <= state.used,
        state.delete(shard_id).total == state.total,
{
    lemma_find(state.shards, shard_id);
    lemma_without(state.shards, shard_id);
    match find(state.shards, shard_id) {
        Some(i) => {
            lemma_stored_remove(state.shards, i);
        },
        None => {},
    }
}

/// What was stored is read back unchanged: after a store that fits, a read
/// of the same identifier returns the bytes that were stored.
pub proof fn lemma_round_trip(
    state: StorageState,
    shard_id: Seq<char>,
    data: Seq<u8>,
    redundancy: u8,
)
    requires
        state.valid(),
        state.fits(data.len()),
    ensures
        state.store(shard_id, data, redundancy).retrieve(shard_id) == Ok::<
            Seq<u8>,
            StorageError,
        >(data),
{
    lemma_upsert(state.shards, shard_id, ShardView::recording(shard_id, data, redundancy));
}

/// Bytes that were changed behind the back of the store are never handed
/// out: after a store, once the stored bytes are overwritten with bytes of
/// another checksum, a read fails with `CorruptionDetected`.
pub proof fn lemma_corruption_detected(
    state: StorageState,
    shard_id: Seq<char>,
    data: Seq<u8>,
    redundancy: u8,
    bytes: Seq<u8>,
)
    requires
        state.valid(),
        state.fits(data.len()),
        checksum_of(bytes) != checksum_of(data),
    ensures
        state.store(shard_id, data, redundancy).tampered(shard_id, bytes).retrieve(shard_id)
            == Err::<Seq<u8>, StorageError>(StorageError::CorruptionDetected),
{
    let shard = ShardView::recording(shard_id, data, redundancy);
    let stored = state.store(shard_id, data, redundancy);
    lemma_upsert(state.shards, shard_id, shard);
    lemma_upsert(stored.shards, shard_id, ShardView { data: bytes, ..shard });
}

/// A shard whose bytes do not match the recorded checksum is never handed
/// out: the read fails with `CorruptionDetected`, and whatever a read does
/// return has the recorded checksum.
pub proof fn lemma_retrieve_proves_checksum(state: StorageState, shard_id: Seq<char>)
    ensures
        match lookup(state.shards, shard_id) {
            Some(shard) => {
                &&& !shard.intact() ==> state.retrieve(shard_id) == Err::<Seq<u8>, StorageError>(
                    StorageError::CorruptionDetected,
                )
                &&& state.retrieve(shard_id) matches Ok(bytes) ==> checksum_of(bytes)
                    == shard.checksum
            },
            None => state.retrieve(shard_id) is Err,
        },
{
}

/// A shard stored with bytes whose checksum is not the one it carries
/// cannot be read back.
pub proof fn lemma_tampered_import_is_refused(state: StorageState, shard: ShardView)
    requires
        state.valid(),
        state.fits(shard.data.len()),
        !shard.intact(),
    ensures
        state.import(shard).retrieve(shard.shard_id) == Err::<Seq<u8>, StorageError>(
            StorageError::CorruptionDetected,
        ),
{
    lemma_upsert(state.shards, shard.shard_id, shard);
}

/// After a delete the shard is gone, and the other shards are untouched.
pub proof fn lemma_delete_forgets(state: StorageState, shard_id: Seq<char>, other: Seq<char>)
    requires
        state.valid(),
    ensures
        state.delete(shard_id).retrieve(shard_id) == Err::<Seq<u8>, StorageError>(
            StorageError::ShardNotFound,
        ),
        other != shard_id ==> state.delete(shard_id).retrieve(other) == state.retrieve(other),
{
    lemma_without(state.shards, shard_id);
}

/// The shard store of one node.
#[derive(Debug)]
pub struct StorageService {
    node_id: String,
    shards: Registry<StorageShard>,
    total_storage_bytes: u64,
    used_storage_bytes: u64,
}

impl View for StorageService {
    type V = StorageState;

    closed spec fn view(&self) -> StorageState {
        StorageState {
            node_id: self.node_id@,
            shards: project(self.shards.entries(), |shard: StorageShard| shard@),
            total: self.total_storage_bytes as nat,
            used: self.used_storage_bytes as nat,
        }
    }
}

impl StorageService {
    #[verifier::type_invariant]
    spec fn well_formed(self) -> bool {
        &&& unique_keys(self.shards.entries())
        &&& stored_bytes(self@.shards) <= self.used_storage_bytes
        &&& self.used_storage_bytes <= self.total_storage_bytes
    }

    proof fn lemma_valid(self)
        requires
            self.well_formed(),
        ensures
            self@.valid(),
    {
        lemma_project_find(self.shards.entries(), |s: StorageShard| s@, seq![]);
    }

    /// An empty store with a capacity of `total_storage_bytes`.
    pub fn new(node_id: String, total_storage_bytes: u64) -> (service: Self)
        ensures
            service@ == (StorageState {
                node_id: node_id@,
                shards: Seq::empty(),
                total: total_storage_bytes as nat,
                used: 0,
            }),
            service@.valid(),
    {
        let service = StorageService {
            node_id,
            shards: Registry::new(),
            total_storage_bytes,
            used_storage_bytes: 0,
        };
        assert(service@.shards =~= Seq::empty());
        service
    }

    /// The node this store belongs to.
    pub fn node_id(&self) -> (id: &String)
        ensures
            id@ == self@.node_id,
    {
        &self.node_id
    }

    /// The capacity in bytes.
    pub fn total_storage_bytes(&self) -> (total: u64)
        ensures
            total == self@.total,
    {
        self.total_storage_bytes
    }

    /// The bytes in use.
    pub fn used_storage_bytes(&self) -> (used: u64)
        ensures
            used == self@.used,
            self@.valid(),
    {
        proof {
            use_type_invariant(self);
            self.lemma_valid();
        }
        self.used_storage_bytes
    }

    /// The bytes in use and the capacity, in this order.
    pub fn get_storage_stats(&self) -> (stats: (u64, u64))
        ensures
            stats.0 == self@.used,
            stats.1 == self@.total,
            stats.0 <= stats.1,
    {
        proof {
            use_type_invariant(self);
        }
        (self.used_storage_bytes, self.total_storage_bytes)
    }

    /// The number of shards held.
    pub fn shard_count(&self) -> (count: usize)
        ensures
            count == self@.shards.len(),
    {
        self.shards.len()
    }

    /// The shard at position `i`, oldest first.
    pub fn shard_at(&self, i: usize) -> (shard: &StorageShard)
        requires
            i < self@.shards.len(),
        ensures
            shard@ == self@.shards[i as int].1,
    {
        self.shards.value_at(i)
    }

    /// The shard stored under `shard_id`, its checksum not proved.
    pub fn get_shard(&self, shard_id: &str) -> (found: Option<&StorageShard>)
        ensures
            match found {
                Some(shard) => lookup(self@.shards, shard_id@) == Some(shard@),
                None => lookup(self@.shards, shard_id@) is None,
            },
    {
        proof {
            lemma_project_find(
                self.shards.entries(),
                |shard: StorageShard| shard@,
                shard_id@,
            );
        }
        self.shards.get(shard_id)
    }

    /// Stores `data` under a fresh random identifier and returns the
    /// identifier, or turns the request down where the bytes do not fit.
    pub fn store_data(&mut self, data: Vec<u8>, redundancy: u8) -> (stored: Result<
        String,
        StorageError,
    >)
        ensures
            final(self)@.valid(),
            match stored {
                Ok(shard_id) => shard_id@.len() == IDENTIFIER_LEN && old(self)@.fits(data@.len())
                    && final(self)@ == old(self)@.store(shard_id@, data@, redundancy),
                Err(e) => e == StorageError::InsufficientSpace && !old(self)@.fits(data@.len())
                    && final(self)@ == old(self)@,
            },
    {
        let shard_id = fresh_identifier();
        self.store_with_id(shard_id, data, redundancy)
    }

    /// Stores `data` under `shard_id` and returns the identifier, or turns
    /// the request down where the bytes do not fit.
    pub fn store_with_id(&mut self, shard_id: String, data: Vec<u8>, redundancy: u8) -> (stored:
        Result<String, StorageError>)
        ensures
            final(self)@ == old(self)@.store(shard_id@, data@, redundancy),
            final(self)@.valid(),
            match stored {
                Ok(id) => id@ == shard_id@ && old(self)@.fits(data@.len()),
                Err(e) => e == StorageError::InsufficientSpace && !old(self)@.fits(data@.len()),
            },
    {
        let id = shard_id.clone();
        let shard = StorageShard::new(shard_id, data, redundancy);
        match self.import_shard(shard) {
            Ok(()) => Ok(id),
            Err(e) => Err(e),
        }
    }

    /// Keeps `shard` as it stands, checksum included, under its own
    /// identifier, or turns the request down where its bytes do not fit.
    pub fn import_shard(&mut self, shard: StorageShard) -> (kept: Result<(), StorageError>)
        ensures
            final(self)@ == old(self)@.import(shard@),
            final(self)@.valid(),
            match kept {
                Ok(_) => old(self)@.fits(shard@.data.len()),
                Err(e) => e == StorageError::InsufficientSpace && !old(self)@.fits(
                    shard@.data.len(),
                ),
            },
    {
        proof {
            use_type_invariant(&*self);
            self.lemma_valid();
            lemma_import_keeps_capacity(self@, shard@);
        }
        let size = shard.data.len() as u64;
        if size > self.total_storage_bytes - self.used_storage_bytes {
            return Err(StorageError::InsufficientSpace);
        }
        let ghost before = self@;
        let ghost held = self.shards.entries();
        let key = shard.shard_id.clone();
        self.used_storage_bytes = self.used_storage_bytes + size;
        let mut shards = Registry::new();
        std::mem::swap(&mut shards, &mut self.shards);
        proof {
            assert(project(self.shards.entries(), |s: StorageShard| s@) =~= Seq::empty());
            lemma_project_upsert(held, |s: StorageShard| s@, key@, shard);
        }
        shards.insert(key, shard);
        self.shards = shards;
        assert(self@ == before.import(shard@));
        Ok(())
    }

    /// The bytes stored under `shard_id`, proved against their checksum.
    pub fn retrieve_data(&self, shard_id: &str) -> (read: Result<Vec<u8>, StorageError>)
        ensures
            match read {
                Ok(bytes) => self@.retrieve(shard_id@) == Ok::<Seq<u8>, StorageError>(bytes@),
                Err(e) => self@.retrieve(shard_id@) == Err::<Seq<u8>, StorageError>(e),
            },
    {
        match self.get_shard(shard_id) {
            None => Err(StorageError::ShardNotFound),
            Some(shard) => {
                if !shard.verify() {
                    return Err(StorageError::CorruptionDetected);
                }
                Ok(shard.data.clone())
            },
        }
    }

    /// Deletes the shard stored under `shard_id`, if there is one, and
    /// releases its bytes. Deleting what is not there is no error.
    pub fn delete_data(&mut self, shard_id: &str) -> (done: Result<(), StorageError>)
        ensures
            done is Ok,
            final(self)@ == old(self)@.delete(shard_id@),
            final(self)@.valid(),
    {
        proof {
            use_type_invariant(&*self);
            self.lemma_valid();
            lemma_delete_releases(self@, shard_id@);
            lemma_project_find(self.shards.entries(), |s: StorageShard| s@, shard_id@);
            lemma_project_without(self.shards.entries(), |s: StorageShard| s@, shard_id@);
            lemma_find(self@.shards, shard_id@);
        }
        let ghost before = self@;
        let ghost at = find(self@.shards, shard_id@);
        let mut shards = Registry::new();
        std::mem::swap(&mut shards, &mut self.shards);
        proof {
            assert(project(self.shards.entries(), |s: StorageShard| s@) =~= Seq::empty());
        }
        let removed = shards.remove(shard_id);
        self.shards = shards;
        if let Some(shard) = removed {
            proof {
                lemma_stored_remove(before.shards, at->0);
            }
            let size = shard.data.len() as u64;
            self.used_storage_bytes = self.used_storage_bytes - size;
        }
        assert(self@ == before.delete(shard_id@));
        Ok(())
    }

    /// The checksum under which `data` would be recorded.
    pub fn calculate_checksum(&self, data: &[u8]) -> (text: String)
        ensures
            text@ == checksum_of(data@),
    {
        checksum(data)
    }
}

} // verus!
