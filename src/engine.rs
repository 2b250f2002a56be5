//! The embedded storage engine: a database of named trees, each an ordered map
//! from byte keys to byte values. Its contents live on disk and are shared by
//! every handle, so the calls below promise nothing about what they read.
use vstd::prelude::*;
use crate::batch::{batch_writes, DbBatch};
use crate::config::{DbMode, DbOpts, EngineSettings};
use crate::error::DbError;
use crate::tree_id::{default_tree_bytes, DbTrees};

verus! {

/// Relies on the `Display` of `sled::Error`: the cause as text.
#[verifier::external_body]
fn error_text(e: &sled::Error) -> String {
    e.to_string()
}

/// Relies on `sled::Config::new`: the engine's default configuration.
#[verifier::external_body]
fn config_new() -> sled::Config {
    sled::Config::new()
}

/// Relies on `sled::Config::path`: where the store lives on disk.
#[verifier::external_body]
fn config_path(c: sled::Config, path: &str) -> sled::Config {
    c.path(path)
}

/// Relies on `sled::Config::cache_capacity`: the page cache's size in bytes.
#[verifier::external_body]
fn config_cache_capacity(c: sled::Config, bytes: u64) -> sled::Config {
    c.cache_capacity(bytes)
}

/// Relies on `sled::Config::use_compression`: switches compression on or off.
#[verifier::external_body]
fn config_use_compression(c: sled::Config, on: bool) -> sled::Config {
    c.use_compression(on)
}

/// Relies on `sled::Config::compression_factor`: the compression level.
#[verifier::external_body]
fn config_compression_factor(c: sled::Config, factor: i32) -> sled::Config {
    c.compression_factor(factor)
}

/// Relies on `sled::Config::mode`: `LowSpace` or `HighThroughput`.
#[verifier::external_body]
fn config_mode(c: sled::Config, mode: DbMode) -> sled::Config {
    match mode {
        DbMode::LowSpace => c.mode(sled::Mode::LowSpace),
        DbMode::Fast => c.mode(sled::Mode::HighThroughput),
    }
}

/// Relies on `sled::Config::print_profile_on_drop`.
#[verifier::external_body]
fn config_print_profile_on_drop(c: sled::Config, on: bool) -> sled::Config {
    c.print_profile_on_drop(on)
}

/// Relies on `sled::Config::open`: opens or creates the store on disk.
#[verifier::external_body]
fn config_open(c: &sled::Config) -> Result<sled::Db, sled::Error> {
    c.open()
}

/// Relies on `sled::Db::open_tree`: opens the tree of that name, creating it
/// where it does not exist.
#[verifier::external_body]
fn db_open_tree(db: &sled::Db, name: &[u8]) -> Result<sled::Tree, sled::Error> {
    db.open_tree(name)
}

/// Relies on `sled::Db::tree_names`: the names of the trees the store holds.
#[verifier::external_body]
fn db_tree_names(db: &sled::Db) -> Vec<Vec<u8>> {
    db.tree_names().iter().map(|n| n.to_vec()).collect()
}

/// Relies on `sled::Db::drop_tree`: removes the tree of that name.
#[verifier::external_body]
fn db_drop_tree(db: &sled::Db, name: &[u8]) -> Result<bool, sled::Error> {
    db.drop_tree(name)
}

/// Relies on `sled::Db::flush`: writes the dirty pages of the whole store.
#[verifier::external_body]
fn db_flush(db: &sled::Db) -> Result<usize, sled::Error> {
    db.flush()
}

/// Relies on the `Deref` of `sled::Db` to its default tree.
#[verifier::external_body]
fn db_default_tree(db: &sled::Db) -> sled::Tree {
    (**db).clone()
}

/// Relies on `sled::Tree::len`: the number of records.
#[verifier::external_body]
fn tree_len(t: &sled::Tree) -> usize {
    t.len()
}

/// Relies on `sled::Tree::is_empty`.
#[verifier::external_body]
fn tree_is_empty(t: &sled::Tree) -> bool {
    t.is_empty()
}

/// Relies on `sled::Tree::iter`: each record in key order, or the error met
/// reading it.
#[verifier::external_body]
fn tree_entries(t: &sled::Tree) -> Vec<Result<(Vec<u8>, Vec<u8>), sled::Error>> {
    t.iter().map(|e| e.map(|(k, v)| (k.to_vec(), v.to_vec()))).collect()
}

/// Relies on `sled::Tree::contains_key`.
#[verifier::external_body]
fn tree_contains(t: &sled::Tree, key: &[u8]) -> Result<bool, sled::Error> {
    t.contains_key(key)
}

/// Relies on `sled::Tree::flush`: writes the tree's dirty pages.
#[verifier::external_body]
fn tree_flush(t: &sled::Tree) -> Result<usize, sled::Error> {
    t.flush()
}

/// Relies on `sled::Tree::apply_batch`: applies all of the batch's writes at
/// once.
#[verifier::external_body]
fn tree_apply(t: &sled::Tree, b: sled::Batch) -> Result<(), sled::Error> {
    t.apply_batch(b)
}

/// Relies on `sled::Tree::insert`: sets the key, returning the value it had.
#[verifier::external_body]
fn tree_insert(t: &sled::Tree, key: &[u8], value: &[u8]) -> Result<Option<Vec<u8>>, sled::Error> {
    t.insert(key, value).map(|o| o.map(|v| v.to_vec()))
}

/// Relies on `sled::Tree::get`.
#[verifier::external_body]
fn tree_get(t: &sled::Tree, key: &[u8]) -> Result<Option<Vec<u8>>, sled::Error> {
    t.get(key).map(|o| o.map(|v| v.to_vec()))
}

/// Relies on `sled::Tree::remove`: removes the key, returning the value it had.
#[verifier::external_body]
fn tree_remove(t: &sled::Tree, key: &[u8]) -> Result<Option<Vec<u8>>, sled::Error> {
    t.remove(key).map(|o| o.map(|v| v.to_vec()))
}

/// The library's error for a failure of the engine.
fn storage_error(e: &sled::Error) -> (r: DbError)
    ensures
        r is CustomServerError,
{
    DbError::CustomServerError(error_text(e))
}

/// A record read from a tree, or the error met reading it.
pub type Entry = Result<(Vec<u8>, Vec<u8>), DbError>;

/// The records among `s` that could be read, in order.
pub open spec fn readable(s: Seq<Entry>) -> Seq<(Seq<u8>, Seq<u8>)>
    decreases s.len(),
{
    if s.len() == 0 {
        Seq::empty()
    } else {
        let rest = readable(s.drop_last());
        match s.last() {
            Ok(p) => rest.push((p.0@, p.1@)),
            Err(_) => rest,
        }
    }
}

/// The view of a list of records.
pub open spec fn pairs_view(v: Seq<(Vec<u8>, Vec<u8>)>) -> Seq<(Seq<u8>, Seq<u8>)> {
    v.map_values(|p: (Vec<u8>, Vec<u8>)| (p.0@, p.1@))
}

/// Keeps the records that could be read, in order, and skips the others.
pub fn readable_entries(entries: Vec<Entry>) -> (r: Vec<(Vec<u8>, Vec<u8>)>)
    ensures
        pairs_view(r@) == readable(entries@),
{
    let mut out: Vec<(Vec<u8>, Vec<u8>)> = Vec::new();
    let mut i: usize = 0;
    while i < entries.len()
        invariant
            i <= entries@.len(),
            pairs_view(out@) == readable(entries@.take(i as int)),
        decreases entries@.len() - i,
    {
        assert(entries@.take(i as int + 1).drop_last() =~= entries@.take(i as int));
        match &entries[i] {
            Ok(p) => {
                let k = p.0.clone();
                let v = p.1.clone();
                out.push((k, v));
                assert(pairs_view(out@) =~= readable(entries@.take(i as int)).push((p.0@, p.1@)));
            },
            Err(_) => {},
        }
        i = i + 1;
    }
    assert(entries@.take(entries@.len() as int) =~= entries@);
    out
}

/// The names among `names` of the trees that `destroy` drops: all but the
/// default tree's.
pub open spec fn droppable(names: Seq<Seq<u8>>) -> Seq<Seq<u8>>
    decreases names.len(),
{
    if names.len() == 0 {
        Seq::empty()
    } else {
        let rest = droppable(names.drop_last());
        if names.last() == default_tree_bytes() {
            rest
        } else {
            rest.push(names.last())
        }
    }
}

/// No name that `destroy` drops is the default tree's.
pub proof fn lemma_droppable_excludes_default(names: Seq<Seq<u8>>)
    ensures
        forall|i: int| 0 <= i < droppable(names).len() ==> #[trigger] droppable(names)[i] != default_tree_bytes(),
    decreases names.len(),
{
    if names.len() > 0 {
        let rest = names.drop_last();
        lemma_droppable_excludes_default(rest);
        assert forall|i: int| 0 <= i < droppable(names).len() implies #[trigger] droppable(names)[i] != default_tree_bytes() by {
            if names.last() != default_tree_bytes() {
                assert(droppable(names) == droppable(rest).push(names.last()));
                if i < droppable(rest).len() {
                    assert(droppable(names)[i] == droppable(rest)[i]);
                }
            } else {
                assert(droppable(names) == droppable(rest));
            }
        }
    }
}

/// The view of a list of names.
pub open spec fn names_view(v: Seq<Vec<u8>>) -> Seq<Seq<u8>> {
    v.map_values(|n: Vec<u8>| n@)
}

/// The names of the trees to drop: every name but the default tree's, in order.
pub fn trees_to_drop(names: &Vec<Vec<u8>>) -> (r: Vec<Vec<u8>>)
    ensures
        names_view(r@) == droppable(names_view(names@)),
{
    let default_name = DbTrees::Default.raw();
    let mut out: Vec<Vec<u8>> = Vec::new();
    let mut i: usize = 0;
    while i < names.len()
        invariant
            i <= names@.len(),
            default_name@ == default_tree_bytes(),
            names_view(out@) == droppable(names_view(names@.take(i as int))),
        decreases names@.len() - i,
    {
        assert(names_view(names@.take(i as int + 1)).drop_last() =~= names_view(names@.take(i as int)));
        assert(names_view(names@.take(i as int + 1)).last() == names@[i as int]@);
        if !bytes_eq(names[i].as_slice(), default_name.as_slice()) {
            out.push(names[i].clone());
            assert(names_view(out@) =~= droppable(names_view(names@.take(i as int))).push(names@[i as int]@));
        }
        i = i + 1;
    }
    assert(names@.take(names@.len() as int) =~= names@);
    out
}

/// Whether two byte strings are equal.
pub fn bytes_eq(a: &[u8], b: &[u8]) -> (r: bool)
    ensures
        r == (a@ == b@),
{
    if a.len() != b.len() {
        return false;
    }
    let mut i: usize = 0;
    while i < a.len()
        invariant
            i <= a@.len(),
            a@.len() == b@.len(),
            a@.take(i as int) == b@.take(i as int),
        decreases a@.len() - i,
    {
        if a[i] != b[i] {
            assert(a@[i as int] != b@[i as int]);
            return false;
        }
        assert(a@.take(i as int + 1) =~= a@.take(i as int).push(a@[i as int]));
        assert(b@.take(i as int + 1) =~= b@.take(i as int).push(b@[i as int]));
        i = i + 1;
    }
    assert(a@ =~= a@.take(i as int));
    assert(b@ =~= b@.take(i as int));
    true
}

/// The names whose drop failed, in order.
pub open spec fn failed_names(names: Seq<Seq<u8>>, outcomes: Seq<Result<bool, DbError>>) -> Seq<Seq<u8>>
    decreases outcomes.len(),
{
    if names.len() == 0 || outcomes.len() == 0 {
        Seq::empty()
    } else {
        let rest = failed_names(names.drop_last(), outcomes.drop_last());
        if outcomes.last() is Err {
            rest.push(names.last())
        } else {
            rest
        }
    }
}

/// The trees whose drop failed, each with its error, from the outcome of
/// dropping each named tree in turn.
pub fn drop_failures(names: &Vec<Vec<u8>>, outcomes: Vec<Result<bool, DbError>>) -> (r: Vec<(Vec<u8>, DbError)>)
    requires
        names@.len() == outcomes@.len(),
    ensures
        r@.map_values(|f: (Vec<u8>, DbError)| f.0@) == failed_names(names_view(names@), outcomes@),
        forall|k: int| 0 <= k < r@.len() ==> names_view(names@).contains((#[trigger] r@[k]).0@),
{
    let ghost all = outcomes@;
    let n = names.len();
    let mut rest = outcomes;
    let mut out: Vec<(Vec<u8>, DbError)> = Vec::new();
    let mut i: usize = 0;
    while rest.len() > 0
        invariant
            i <= all.len(),
            all.len() == names@.len(),
            names@.len() == n,
            rest@ == all.skip(i as int),
            out@.map_values(|f: (Vec<u8>, DbError)| f.0@)
                == failed_names(names_view(names@).take(i as int), all.take(i as int)),
            forall|k: int| 0 <= k < out@.len() ==> names_view(names@).contains((#[trigger] out@[k]).0@),
        decreases rest@.len(),
    {
        let outcome = rest.remove(0);
        proof {
            assert(all[i as int] == outcome);
            assert(rest@ =~= all.skip(i as int + 1));
            assert(names_view(names@).take(i as int + 1).drop_last() =~= names_view(names@).take(i as int));
            assert(all.take(i as int + 1).drop_last() =~= all.take(i as int));
            assert(names_view(names@).take(i as int + 1).last() == names@[i as int]@);
        }
        let ghost before = out@;
        match outcome {
            Ok(_) => {},
            Err(e) => {
                out.push((names[i].clone(), e));
                proof {
                    assert(out@.map_values(|f: (Vec<u8>, DbError)| f.0@)
                        =~= before.map_values(|f: (Vec<u8>, DbError)| f.0@).push(names@[i as int]@));
                    assert forall|k: int| 0 <= k < out@.len() implies names_view(names@).contains((#[trigger] out@[k]).0@) by {
                        if k < before.len() {
                            assert(out@[k] == before[k]);
                        } else {
                            assert(names_view(names@)[i as int] == out@[k].0@);
                        }
                    }
                }
            },
        }
        i = i + 1;
    }
    proof {
        assert(names_view(names@).take(i as int) =~= names_view(names@));
        assert(all.take(i as int) =~= all);
    }
    out
}

/// A tree of the database.
pub struct DbTree {
    pub tree: sled::Tree,
}

impl DbTree {
    /// Opens the tree, creating it where it does not exist.
    pub fn open(db: &sled::Db, tree: DbTrees) -> (r: Result<DbTree, DbError>)
        ensures
            r is Err ==> r->Err_0 is CustomServerError,
    {
        let name = tree.to_string();
        match db_open_tree(db, name.as_str().as_bytes()) {
            Ok(t) => Ok(DbTree { tree: t }),
            Err(e) => Err(storage_error(&e)),
        }
    }

    /// The number of records.
    pub fn len(&self) -> usize {
        tree_len(&self.tree)
    }

    /// Whether the tree holds no record.
    pub fn is_empty(&self) -> bool {
        tree_is_empty(&self.tree)
    }

    /// The records in key order, each with the error met reading it, if any.
    pub fn iter(&self) -> (r: Vec<Entry>)
        ensures
            forall|i: int| 0 <= i < r@.len() && r@[i] is Err ==> r@[i]->Err_0 is CustomServerError,
    {
        let raw = tree_entries(&self.tree);
        let mut out: Vec<Entry> = Vec::new();
        let mut i: usize = 0;
        while i < raw.len()
            invariant
                i <= raw@.len(),
                out@.len() == i,
                forall|j: int| 0 <= j < out@.len() && out@[j] is Err ==> out@[j]->Err_0 is CustomServerError,
            decreases raw@.len() - i,
        {
            let e: Entry = match &raw[i] {
                Ok(p) => Ok((p.0.clone(), p.1.clone())),
                Err(err) => Err(storage_error(err)),
            };
            out.push(e);
            i = i + 1;
        }
        out
    }

    /// Whether the key is present.
    pub fn contains_key(&self, key: &[u8]) -> (r: Result<bool, DbError>)
        ensures
            r is Err ==> r->Err_0 is CustomServerError,
    {
        match tree_contains(&self.tree, key) {
            Ok(b) => Ok(b),
            Err(e) => Err(storage_error(&e)),
        }
    }

    /// Writes the tree's dirty pages to disk.
    pub fn flush(&self) -> (r: Result<usize, DbError>)
        ensures
            r is Err ==> r->Err_0 is CustomServerError,
    {
        match tree_flush(&self.tree) {
            Ok(n) => Ok(n),
            Err(e) => Err(storage_error(&e)),
        }
    }

    /// Applies the batch's writes at once, and leaves the batch empty with a
    /// count of 0, whatever the engine answers.
    pub fn apply_batch(&self, batch: &mut DbBatch) -> (r: Result<(), DbError>)
        ensures
            final(batch).spec_count() == 0,
            final(batch).writes() == crate::batch::no_writes(),
            r is Err ==> r->Err_0 is CustomServerError,
    {
        match tree_apply(&self.tree, batch.take_inner()) {
            Ok(()) => Ok(()),
            Err(e) => Err(storage_error(&e)),
        }
    }

    /// Sets the key to the value, returning the value it had.
    pub fn insert_raw(&self, key: &[u8], value: &[u8]) -> (r: Result<Option<Vec<u8>>, DbError>)
        ensures
            r is Err ==> r->Err_0 is CustomServerError,
    {
        match tree_insert(&self.tree, key, value) {
            Ok(o) => Ok(o),
            Err(e) => Err(storage_error(&e)),
        }
    }

    /// The value of the key, if present.
    pub fn get(&self, key: &[u8]) -> (r: Result<Option<Vec<u8>>, DbError>)
        ensures
            r is Err ==> r->Err_0 is CustomServerError,
    {
        match tree_get(&self.tree, key) {
            Ok(o) => Ok(o),
            Err(e) => Err(storage_error(&e)),
        }
    }

    /// Removes the key.
    pub fn delete(&self, key: &[u8]) -> (r: Result<(), DbError>)
        ensures
            r is Err ==> r->Err_0 is CustomServerError,
    {
        match tree_remove(&self.tree, key) {
            Ok(_) => Ok(()),
            Err(e) => Err(storage_error(&e)),
        }
    }
}

/// The database: the store on disk and its trees.
pub struct Database {
    db: sled::Db,
}

impl Database {
    /// Opens or creates the store that the options describe, with the
    /// settings `DbOpts::engine_settings` derives from them.
    pub fn new(cfg: &DbOpts) -> (r: Result<Database, DbError>)
        ensures
            r is Err ==> r->Err_0 is CustomServerError,
    {
        Database::from_settings(&cfg.engine_settings())
    }

    /// Opens or creates the store with exactly these settings: at their path;
    /// with their page cache, where set; with compression at their factor,
    /// where set; in their mode; printing a profile on drop where asked.
    pub fn from_settings(settings: &EngineSettings) -> (r: Result<Database, DbError>)
        ensures
            r is Err ==> r->Err_0 is CustomServerError,
    {
        let mut c = config_path(config_new(), settings.path.as_str());
        if let Some(cache) = settings.cache_capacity {
            c = config_cache_capacity(c, cache);
        }
        if let Some(factor) = settings.compression_factor {
            c = config_use_compression(c, true);
            c = config_compression_factor(c, factor);
        }
        c = config_mode(c, settings.mode);
        if settings.print_profile_on_drop {
            c = config_print_profile_on_drop(c, true);
        }
        match config_open(&c) {
            Ok(db) => Ok(Database { db }),
            Err(e) => Err(storage_error(&e)),
        }
    }

    /// Opens the given tree, creating it where it does not exist.
    pub fn open_tree(&self, tree: DbTrees) -> (r: Result<DbTree, DbError>)
        ensures
            r is Err ==> r->Err_0 is CustomServerError,
    {
        DbTree::open(&self.db, tree)
    }

    /// The records of the given tree that could be read, in key order.
    pub fn list_values(&self, tree: DbTrees) -> (r: Result<Vec<(Vec<u8>, Vec<u8>)>, DbError>)
        ensures
            r is Err ==> r->Err_0 is CustomServerError,
    {
        let t = self.open_tree(tree)?;
        Ok(readable_entries(t.iter()))
    }

    /// Writes the dirty pages of the whole store to disk.
    pub fn flush(&self) -> (r: Result<usize, DbError>)
        ensures
            r is Err ==> r->Err_0 is CustomServerError,
    {
        match db_flush(&self.db) {
            Ok(n) => Ok(n),
            Err(e) => Err(storage_error(&e)),
        }
    }

    /// The engine's handle.
    pub fn inner(&self) -> &sled::Db {
        &self.db
    }

    /// Drops every tree but the default one, going on past a tree that fails
    /// to drop; returns the names that failed, each with its error
    /// (`drop_failures` of the outcomes).
    pub fn destroy(&self) -> (r: Vec<(Vec<u8>, DbError)>)
        ensures
            forall|i: int| 0 <= i < r@.len() ==> (#[trigger] r@[i]).0@ != default_tree_bytes(),
    {
        let all_names = db_tree_names(&self.db);
        let names = trees_to_drop(&all_names);
        proof {
            lemma_droppable_excludes_default(names_view(all_names@));
            assert forall|j: int| 0 <= j < names@.len() implies (#[trigger] names@[j])@ != default_tree_bytes() by {
                assert(names_view(names@)[j] == names@[j]@);
            }
        }
        let mut outcomes: Vec<Result<bool, DbError>> = Vec::new();
        let mut i: usize = 0;
        while i < names.len()
            invariant
                i <= names@.len(),
                outcomes@.len() == i,
            decreases names@.len() - i,
        {
            let outcome = match db_drop_tree(&self.db, names[i].as_slice()) {
                Ok(b) => Ok(b),
                Err(e) => Err(storage_error(&e)),
            };
            outcomes.push(outcome);
            i = i + 1;
        }
        let failed = drop_failures(&names, outcomes);
        proof {
            assert forall|k: int| 0 <= k < failed@.len() implies (#[trigger] failed@[k]).0@ != default_tree_bytes() by {
                assert(names_view(names@).contains(failed@[k].0@));
                let j = choose|j: int| 0 <= j < names_view(names@).len() && names_view(names@)[j] == failed@[k].0@;
                assert(names_view(names@)[j] == names@[j]@);
            }
        }
        failed
    }

    /// The default tree.
    pub fn default_tree(&self) -> DbTree {
        DbTree { tree: db_default_tree(&self.db) }
    }

    /// The value of the key in the default tree, if present.
    pub fn get(&self, key: &[u8]) -> (r: Result<Option<Vec<u8>>, DbError>)
        ensures
            r is Err ==> r->Err_0 is CustomServerError,
    {
        self.default_tree().get(key)
    }

    /// Applies the batch's writes to the default tree at once, and leaves the
    /// batch empty with a count of 0.
    pub fn apply_batch(&self, batch: &mut DbBatch) -> (r: Result<(), DbError>)
        ensures
            final(batch).spec_count() == 0,
            final(batch).writes() == crate::batch::no_writes(),
            r is Err ==> r->Err_0 is CustomServerError,
    {
        self.default_tree().apply_batch(batch)
    }

    /// Sets the key to the value in the default tree, returning the value it had.
    pub fn insert_raw(&self, key: &[u8], value: &[u8]) -> (r: Result<Option<Vec<u8>>, DbError>)
        ensures
            r is Err ==> r->Err_0 is CustomServerError,
    {
        self.default_tree().insert_raw(key, value)
    }

    /// Removes the key from the default tree.
    pub fn delete(&self, key: &[u8]) -> (r: Result<(), DbError>)
        ensures
            r is Err ==> r->Err_0 is CustomServerError,
    {
        self.default_tree().delete(key)
    }
}

} // verus!
