//! The batch builder: insert and remove operations staged for one tree, applied
//! atomically by the engine.
use vstd::prelude::*;

verus! {

#[verifier::external_type_specification]
#[verifier::external_body]
pub struct ExBatch(sled::Batch);

#[verifier::external_type_specification]
#[verifier::external_body]
pub struct ExDb(sled::Db);

#[verifier::external_type_specification]
#[verifier::external_body]
pub struct ExTree(sled::Tree);

#[verifier::external_type_specification]
#[verifier::external_body]
pub struct ExConfig(sled::Config);

#[verifier::external_type_specification]
#[verifier::external_body]
pub struct ExEngineError(sled::Error);

/// The writes that an engine batch holds: for each key, the value it sets, or
/// `None` where it removes the key. A later write to a key replaces an earlier one.
pub uninterp spec fn batch_writes(b: sled::Batch) -> Map<Seq<u8>, Option<Seq<u8>>>;

/// A batch with nothing staged.
pub open spec fn no_writes() -> Map<Seq<u8>, Option<Seq<u8>>> {
    Map::empty()
}

/// Relies on `sled::Batch::default`: a batch with no writes.
#[verifier::external_body]
fn engine_batch() -> (r: sled::Batch)
    ensures
        batch_writes(r) == no_writes(),
{
    sled::Batch::default()
}

/// Relies on `sled::Batch::insert`: it records `Some(value)` for the key.
#[verifier::external_body]
fn engine_batch_insert(b: &mut sled::Batch, key: &[u8], value: &[u8])
    ensures
        batch_writes(*final(b)) == batch_writes(*old(b)).insert(key@, Some(value@)),
{
    b.insert(key, value)
}

/// Relies on `sled::Batch::remove`: it records `None` for the key.
#[verifier::external_body]
fn engine_batch_remove(b: &mut sled::Batch, key: &[u8])
    ensures
        batch_writes(*final(b)) == batch_writes(*old(b)).insert(key@, None),
{
    b.remove(key)
}

/// Gives a stored value its key.
pub trait DbKey {
    /// returns the key of value being inserted into the db
    fn key(&self) -> Result<Vec<u8>, crate::error::DbError>;
}

/// Staged insert and remove operations for one tree, with the number of
/// operations staged since the batch was made or last taken.
pub struct DbBatch {
    batch: sled::Batch,
    count: u64,
}

impl DbBatch {
    /// The writes staged in the batch.
    pub closed spec fn writes(&self) -> Map<Seq<u8>, Option<Seq<u8>>> {
        batch_writes(self.batch)
    }

    /// The number of operations staged.
    pub closed spec fn spec_count(&self) -> nat {
        self.count as nat
    }

    /// An empty batch.
    pub fn new() -> (r: DbBatch)
        ensures
            r.writes() == no_writes(),
            r.spec_count() == 0,
    {
        DbBatch { batch: engine_batch(), count: 0 }
    }

    /// Stages the removal of `key`.
    pub fn remove_raw(&mut self, key: &[u8]) -> (r: Result<(), crate::error::DbError>)
        requires
            old(self).spec_count() < u64::MAX,
        ensures
            r is Ok,
            final(self).writes() == old(self).writes().insert(key@, None),
            final(self).spec_count() == old(self).spec_count() + 1,
    {
        engine_batch_remove(&mut self.batch, key);
        self.count = self.count + 1;
        Ok(())
    }

    /// Stages setting `key` to `value`.
    pub fn insert_raw(&mut self, key: &[u8], value: &[u8]) -> (r: Result<(), crate::error::DbError>)
        requires
            old(self).spec_count() < u64::MAX,
        ensures
            r is Ok,
            final(self).writes() == old(self).writes().insert(key@, Some(value@)),
            final(self).spec_count() == old(self).spec_count() + 1,
    {
        engine_batch_insert(&mut self.batch, key, value);
        self.count = self.count + 1;
        Ok(())
    }

    /// Stages the removal of the value's key. Fails, leaving the batch as it
    /// was, where the value cannot give its key.
    pub fn remove<T: DbKey>(&mut self, value: &T) -> (r: Result<(), crate::error::DbError>)
        requires
            old(self).spec_count() < u64::MAX,
        ensures
            r is Err ==> final(self).writes() == old(self).writes()
                && final(self).spec_count() == old(self).spec_count(),
            r is Ok ==> final(self).spec_count() == old(self).spec_count() + 1,
            r is Ok ==> exists|k: Seq<u8>| final(self).writes() == old(self).writes().insert(k, None),
    {
        match value.key() {
            Ok(key) => self.remove_raw(key.as_slice()),
            Err(e) => Err(e),
        }
    }

    /// Moves the staged writes out, leaving the batch empty with a count of 0.
    pub fn take_inner(&mut self) -> (r: sled::Batch)
        ensures
            batch_writes(r) == old(self).writes(),
            final(self).writes() == no_writes(),
            final(self).spec_count() == 0,
    {
        let mut r = engine_batch();
        std::mem::swap(&mut self.batch, &mut r);
        self.count = 0;
        r
    }

    /// The staged writes, as the engine holds them.
    pub fn inner(&self) -> (r: &sled::Batch)
        ensures
            batch_writes(*r) == self.writes(),
    {
        &self.batch
    }

    /// The number of operations staged since the batch was made or last taken.
    pub fn count(&self) -> (r: u64)
        ensures
            r == self.spec_count(),
    {
        self.count
    }
}

} // verus!
